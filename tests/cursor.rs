use sqlite3_extras::index::{QueryPlan, PLAN_DESC, PLAN_START, PLAN_STEP, PLAN_STOP};
use sqlite3_extras::internals::{
    cursor_eof, cursor_filter, cursor_next, vtab_connect, vtab_open, CursorWrapper, SQLITE_ERROR, SQLITE_OK,
};
use sqlite3_extras::range::{
    RangeCursor, RangeVTab, RANGE_SCHEMA, SERIES_COLUMN_START, SERIES_COLUMN_STEP, SERIES_COLUMN_STOP,
    SERIES_COLUMN_VALUE,
};
use sqlite3_extras::responder::{ResultValue, SQLiteRespondable, SQLiteResponder};
use sqlite3_extras::virtual_table::{VirtualCursor, VirtualEponymity, VirtualTable};

fn filtered(idx_num: i32, args: &[i64]) -> RangeCursor {
    let mut c = RangeCursor::new();
    assert!(RangeCursor::filter_accepts(idx_num, args));
    c.filter(idx_num, args);
    c
}

fn column(c: &RangeCursor, index: i32) -> i64 {
    let mut r = SQLiteResponder::new();
    c.column(&mut r, index);
    match r.result {
        ResultValue::Integer(x) => x,
        _ => panic!("not an integer"),
    }
}

#[test]
fn new_cursor_is_zeroed() {
    let c = RangeCursor::new();
    assert_eq!(c, RangeCursor { rowid: 0, value: 0, start: 0, stop: 0, step: 0 });
}

#[test]
fn filter_reads_bound_arguments_in_slot_order() {
    let c = filtered(PLAN_START | PLAN_STOP | PLAN_STEP, &[3, 9, 2]);
    assert_eq!(c, RangeCursor { rowid: 1, value: 3, start: 3, stop: 9, step: 2 });
    let c = filtered(PLAN_STOP | PLAN_STEP, &[9, 2]);
    assert_eq!(c, RangeCursor { rowid: 1, value: 0, start: 0, stop: 9, step: 2 });
    let c = filtered(PLAN_START | PLAN_STEP, &[4, 3]);
    assert_eq!(c, RangeCursor { rowid: 1, value: 4, start: 4, stop: i64::MAX, step: 3 });
}

#[test]
fn filter_without_arguments_uses_defaults() {
    let c = filtered(0, &[]);
    assert_eq!(c, RangeCursor { rowid: 1, value: 0, start: 0, stop: i64::MAX, step: 1 });
    assert_eq!(c, filtered(PLAN_START | PLAN_STOP | PLAN_STEP, &[0, i64::MAX, 1]));
}

#[test]
fn non_positive_step_becomes_one() {
    let c = filtered(PLAN_START | PLAN_STOP | PLAN_STEP, &[0, 10, -5]);
    assert_eq!(c.step, 1);
    assert_eq!(c, filtered(PLAN_START | PLAN_STOP | PLAN_STEP, &[0, 10, 1]));
    let c = filtered(PLAN_START | PLAN_STOP | PLAN_STEP, &[0, 10, 0]);
    assert_eq!(c.step, 1);
}

#[test]
fn descending_starts_on_the_last_aligned_value() {
    // 0, 3, 6, 9 fit in [0, 10]: the scan starts at 9
    let c = filtered(PLAN_START | PLAN_STOP | PLAN_STEP | PLAN_DESC, &[0, 10, 3]);
    assert_eq!(c.value, 9);
    assert_eq!(c.rowid, 1);
    let c = filtered(PLAN_START | PLAN_STOP | PLAN_DESC, &[2, 7]);
    assert_eq!(c.value, 7);
    // stop below start: Rust's remainder keeps the sign, so the value moves up to start at most
    let c = filtered(PLAN_START | PLAN_STOP | PLAN_STEP | PLAN_DESC, &[10, 3, 4]);
    assert_eq!(c.value, 6);
}

#[test]
fn descending_with_extreme_bounds_does_not_overflow() {
    let c = filtered(PLAN_START | PLAN_STOP | PLAN_STEP | PLAN_DESC, &[i64::MIN, i64::MAX, 3]);
    assert_eq!(c.value, i64::MAX - ((i64::MAX as i128 - i64::MIN as i128) % 3) as i64);
    let c = filtered(PLAN_START | PLAN_STOP | PLAN_STEP | PLAN_DESC, &[i64::MAX, i64::MIN, 7]);
    assert!(c.value >= i64::MIN && c.value <= i64::MAX);
}

#[test]
fn filter_rejects_missing_arguments() {
    assert!(!RangeCursor::filter_accepts(PLAN_START | PLAN_STOP, &[1]));
    assert!(RangeCursor::filter_accepts(PLAN_START | PLAN_STOP, &[1, 2]));
    assert!(RangeCursor::filter_accepts(PLAN_DESC, &[]));
    let mut vtab = match vtab_connect::<RangeVTab>(SQLITE_OK) {
        Ok(v) => v,
        Err(_) => panic!("connect failed"),
    };
    let mut cur = vtab_open(&mut vtab);
    assert_eq!(cursor_filter::<RangeVTab>(&mut cur, PLAN_START | PLAN_STOP, &[1]), SQLITE_ERROR);
    assert_eq!(cur.inner, RangeCursor::new());
}

#[test]
fn next_advances_value_and_rowid() {
    let mut c = filtered(PLAN_START | PLAN_STOP | PLAN_STEP, &[5, 20, 5]);
    c.next();
    assert_eq!(c.value, 10);
    assert_eq!(c.rowid(), 2);
    c.next();
    assert_eq!(c.value, 15);
    assert_eq!(c.rowid(), 3);
}

#[test]
fn eof_is_inclusive_of_both_bounds() {
    let mut c = filtered(PLAN_START | PLAN_STOP, &[0, 1]);
    assert!(!c.eof());
    c.next();
    assert_eq!(c.value, 1);
    assert!(!c.eof());
    c.next();
    assert!(c.eof());
}

#[test]
fn eof_with_negative_step_checks_start() {
    let c = RangeCursor { rowid: 1, value: 4, start: 5, stop: 0, step: -1 };
    assert!(c.eof());
    let c = RangeCursor { rowid: 1, value: 5, start: 5, stop: 0, step: -1 };
    assert!(!c.eof());
}

#[test]
fn columns_map_to_fields() {
    let c = filtered(PLAN_START | PLAN_STOP | PLAN_STEP, &[2, 8, 3]);
    assert_eq!(column(&c, SERIES_COLUMN_VALUE), 2);
    assert_eq!(column(&c, SERIES_COLUMN_START), 2);
    assert_eq!(column(&c, SERIES_COLUMN_STOP), 8);
    assert_eq!(column(&c, SERIES_COLUMN_STEP), 3);
    assert_eq!(column(&c, 17), 2);
}

#[test]
fn next_refuses_to_overflow() {
    let mut vtab = match vtab_connect::<RangeVTab>(SQLITE_OK) {
        Ok(v) => v,
        Err(_) => panic!("connect failed"),
    };
    let mut cur = vtab_open(&mut vtab);
    assert_eq!(cursor_filter::<RangeVTab>(&mut cur, PLAN_START, &[i64::MAX]), SQLITE_OK);
    assert_eq!(cursor_eof::<RangeVTab>(&cur), 0);
    assert!(!cur.inner.can_advance());
    let before = cur.inner;
    assert_eq!(cursor_next::<RangeVTab>(&mut cur), SQLITE_ERROR);
    assert_eq!(cur.inner, before);
    let mut ok = CursorWrapper { inner: RangeCursor { rowid: 1, value: 0, start: 0, stop: 3, step: 1 } };
    assert!(ok.inner.can_advance());
    assert_eq!(cursor_next::<RangeVTab>(&mut ok), SQLITE_OK);
    assert_eq!(ok.inner.value, 1);
}

#[test]
fn connect_fails_when_schema_is_refused() {
    assert!(vtab_connect::<RangeVTab>(SQLITE_OK).is_ok());
    match vtab_connect::<RangeVTab>(SQLITE_ERROR) {
        Err(code) => assert_eq!(code, SQLITE_ERROR),
        Ok(_) => panic!("connected despite a refused schema"),
    }
    match vtab_connect::<RangeVTab>(7) {
        Err(code) => assert_eq!(code, 7),
        Ok(_) => panic!("connected despite a refused schema"),
    }
}

#[test]
fn table_description() {
    assert_eq!(RangeVTab::vtable_eponymity(), VirtualEponymity::EponymousOnly);
    assert_eq!(RangeVTab::vtable_definition(), RANGE_SCHEMA);
    assert_eq!(RANGE_SCHEMA, "CREATE TABLE range(value, start HIDDEN, stop HIDDEN, step HIDDEN);");
    assert_eq!(RangeVTab::create(), RangeVTab::connect());
    let mut t = RangeVTab::connect();
    assert_eq!(t.open_cursor(), RangeCursor::new());
}

#[test]
fn responder_records_integers() {
    let mut r = SQLiteResponder::new();
    assert!(matches!(r.result, ResultValue::Null));
    r.respond(&42i64);
    assert!(matches!(r.result, ResultValue::Integer(42)));
    assert!(matches!((-7i64).to_result(), ResultValue::Integer(-7)));
}

#[test]
fn plan_decoding_feeds_filter() {
    let p = QueryPlan { start: true, stop: true, step: false, descending: false };
    let c = filtered(p.idx_num(), &[1, 3]);
    assert_eq!(c, RangeCursor { rowid: 1, value: 1, start: 1, stop: 3, step: 1 });
}
