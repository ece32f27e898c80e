//! The arithmetic-sequence table `range(start, stop, step)`: one output
//! column `value` and three hidden parameter columns.
use vstd::prelude::*;
use crate::index::{
    lemma_idx_num_round_trip, ConstraintUsage, IndexConstraint, IndexInfo, IndexOrderBy, QueryPlan,
    PLAN_START, PLAN_STOP, SQLITE_INDEX_CONSTRAINT_EQ,
};
use crate::responder::{ResultValue, SQLiteResponder};
use crate::virtual_table::{VirtualCursor, VirtualEponymity, VirtualTable};

verus! {

/// Column of the generated values.
pub const SERIES_COLUMN_VALUE: i32 = 0;

/// Hidden column bound to the first value.
pub const SERIES_COLUMN_START: i32 = 1;

/// Hidden column bound to the last value.
pub const SERIES_COLUMN_STOP: i32 = 2;

/// Hidden column bound to the distance between values.
pub const SERIES_COLUMN_STEP: i32 = 3;

/// Cost of a plan with both bounds pinned and no step.
pub const COST_BOUNDED: i64 = 2;

/// Cost of a plan with both bounds and the step pinned.
pub const COST_BOUNDED_STEP: i64 = 1;

/// Row estimate of a plan with both bounds pinned.
pub const ROWS_BOUNDED: i64 = 1000;

/// Cost and row estimate of a plan that lacks a bound.
pub const COST_UNBOUNDED: i64 = 2147483647;

/// The schema declared to the host.
pub const RANGE_SCHEMA: &'static str = "CREATE TABLE range(value, start HIDDEN, stop HIDDEN, step HIDDEN);";

/// The table: it holds no state of its own.
#[derive(Clone, Copy, Debug, PartialEq, Eq, Structural)]
pub struct RangeVTab {}

/// A scan over the sequence `start, start + step, ...` up to `stop`.
#[derive(Clone, Copy, Debug, PartialEq, Eq, Structural)]
pub struct RangeCursor {
    pub rowid: i64,
    pub value: i64,
    pub start: i64,
    pub stop: i64,
    pub step: i64,
}

/// Whether planning consumes constraint `c` as a bound on `column`.
pub open spec fn binds(c: IndexConstraint, column: i32) -> bool {
    c.usable && c.op == SQLITE_INDEX_CONSTRAINT_EQ && c.column == column
}

/// Index of the last constraint in `cs` that binds `column`, or -1 if none does.
pub open spec fn last_binding(cs: Seq<IndexConstraint>, column: i32) -> int
    decreases cs.len(),
{
    if cs.len() == 0 {
        -1
    } else if binds(cs.last(), column) {
        cs.len() - 1
    } else {
        last_binding(cs.drop_last(), column)
    }
}

/// Whether the host's sort request is one that the scan already satisfies:
/// a single key on the value column.
pub open spec fn sort_consumable(order_bys: Seq<IndexOrderBy>) -> bool {
    order_bys.len() == 1 && order_bys[0].column == SERIES_COLUMN_VALUE
}

/// The plan chosen for the constraints and sort keys.
pub open spec fn range_plan(cs: Seq<IndexConstraint>, order_bys: Seq<IndexOrderBy>) -> QueryPlan {
    let start = last_binding(cs, SERIES_COLUMN_START) >= 0;
    let stop = last_binding(cs, SERIES_COLUMN_STOP) >= 0;
    QueryPlan {
        start,
        stop,
        step: last_binding(cs, SERIES_COLUMN_STEP) >= 0,
        descending: start && stop && sort_consumable(order_bys) && order_bys[0].desc,
    }
}

/// The usage of a consumed constraint that `filter` receives in `slot`.
pub open spec fn consumed(slot: int) -> ConstraintUsage {
    ConstraintUsage { argv_index: slot as i32, omit: true }
}

/// `us` with slot `slot` given to constraint `i`, if there is one (`i >= 0`).
pub open spec fn assign_slot(us: Seq<ConstraintUsage>, i: int, slot: int) -> Seq<ConstraintUsage> {
    if i >= 0 {
        us.update(i, consumed(slot))
    } else {
        us
    }
}

/// The constraint usages after planning: the start, stop and step
/// constraints that were consumed get the slots 1, 2, ... in that order,
/// every other usage is left as it was.
pub open spec fn range_usages(cs: Seq<IndexConstraint>, us: Seq<ConstraintUsage>) -> Seq<ConstraintUsage> {
    let i_start = last_binding(cs, SERIES_COLUMN_START);
    let i_stop = last_binding(cs, SERIES_COLUMN_STOP);
    let i_step = last_binding(cs, SERIES_COLUMN_STEP);
    let slot_start = 1;
    let slot_stop = if i_start >= 0 { 2int } else { 1int };
    let slot_step = slot_stop + if i_stop >= 0 { 1int } else { 0int };
    assign_slot(
        assign_slot(assign_slot(us, i_start, slot_start), i_stop, slot_stop),
        i_step,
        slot_step,
    )
}

/// The scalar outputs of planning.
pub open spec fn range_index_info(cs: Seq<IndexConstraint>, order_bys: Seq<IndexOrderBy>) -> IndexInfo {
    let plan = range_plan(cs, order_bys);
    if plan.start && plan.stop {
        IndexInfo {
            idx_num: plan.spec_idx_num(),
            estimated_cost: if plan.step { COST_BOUNDED_STEP } else { COST_BOUNDED },
            estimated_rows: ROWS_BOUNDED,
            order_by_consumed: sort_consumable(order_bys),
        }
    } else {
        IndexInfo {
            idx_num: plan.spec_idx_num(),
            estimated_cost: COST_UNBOUNDED,
            estimated_rows: COST_UNBOUNDED,
            order_by_consumed: false,
        }
    }
}

/// The index that an optional position stands for, -1 for none.
spec fn position(p: Option<usize>) -> int {
    match p {
        Some(i) => i as int,
        None => -1,
    }
}

proof fn lemma_last_binding_bounds(cs: Seq<IndexConstraint>, column: i32)
    ensures
        -1 <= last_binding(cs, column) < cs.len(),
        last_binding(cs, column) >= 0 ==> binds(cs[last_binding(cs, column)], column),
    decreases cs.len(),
{
    if cs.len() > 0 {
        lemma_last_binding_bounds(cs.drop_last(), column);
    }
}

/// Gives constraint `i`, if there is one, the next argument slot.
fn take_slot(usages: &mut Vec<ConstraintUsage>, i: Option<usize>, n_arg: &mut i32)
    requires
        position(i) < old(usages)@.len(),
        0 <= *old(n_arg) < 3,
    ensures
        final(usages)@ == assign_slot(old(usages)@, position(i), *old(n_arg) + 1),
        *final(n_arg) == *old(n_arg) + if i is Some { 1int } else { 0int },
{
    if let Some(k) = i {
        *n_arg = *n_arg + 1;
        usages.set(k, ConstraintUsage { argv_index: *n_arg, omit: true });
    }
}

/// Rust's remainder `x % m` for `m > 0`: it takes the sign of `x`.
pub open spec fn trunc_rem(x: int, m: int) -> int {
    if x >= 0 {
        x % m
    } else {
        -((-x) % m)
    }
}

/// The first value of the sequence: the first bound argument, or 0.
pub open spec fn filter_start(plan: QueryPlan, args: Seq<i64>) -> i64 {
    if plan.start {
        args[0]
    } else {
        0
    }
}

/// The argument slot (from 0) that holds the `stop` bound of a plan.
pub open spec fn stop_slot(plan: QueryPlan) -> int {
    if plan.start {
        1
    } else {
        0
    }
}

/// The argument slot (from 0) that holds the `step` bound of a plan.
pub open spec fn step_slot(plan: QueryPlan) -> int {
    stop_slot(plan) + if plan.stop {
        1int
    } else {
        0int
    }
}

/// The last value of the sequence: the next bound argument, or the largest `i64`.
pub open spec fn filter_stop(plan: QueryPlan, args: Seq<i64>) -> i64 {
    if plan.stop {
        args[stop_slot(plan)]
    } else {
        i64::MAX
    }
}

/// The step: the next bound argument, or 1; a step below 1 becomes 1.
pub open spec fn filter_step(plan: QueryPlan, args: Seq<i64>) -> i64 {
    let raw = if plan.step {
        args[step_slot(plan)]
    } else {
        1
    };
    if raw < 1 {
        1
    } else {
        raw
    }
}

/// The first value of a scan: `start`, or in descending order the last
/// value of `start, start + step, ...` that does not pass `stop`.
pub open spec fn filter_value(plan: QueryPlan, start: int, stop: int, step: int) -> int {
    if plan.descending {
        stop - trunc_rem(stop - start, step)
    } else {
        start
    }
}

/// The cursor that `filter` sets up for a plan code and bound arguments.
pub open spec fn range_filtered(idx_num: i32, args: Seq<i64>) -> RangeCursor {
    let plan = QueryPlan::spec_from_idx_num(idx_num);
    let start = filter_start(plan, args);
    let stop = filter_stop(plan, args);
    let step = filter_step(plan, args);
    RangeCursor {
        rowid: 1,
        value: filter_value(plan, start as int, stop as int, step as int) as i64,
        start,
        stop,
        step,
    }
}

proof fn lemma_filter_value_fits(plan: QueryPlan, start: int, stop: int, step: int)
    requires
        step > 0,
    ensures
        plan.descending && start <= stop ==> start <= filter_value(plan, start, stop, step) <= stop,
        plan.descending && stop < start ==> stop <= filter_value(plan, start, stop, step) <= start,
{
    let d = stop - start;
    if d >= 0 {
        vstd::arithmetic::div_mod::lemma_mod_decreases(d as nat, step as nat);
        vstd::arithmetic::div_mod::lemma_mod_pos_bound(d, step);
    } else {
        vstd::arithmetic::div_mod::lemma_mod_decreases((-d) as nat, step as nat);
        vstd::arithmetic::div_mod::lemma_mod_pos_bound(-d, step);
    }
}

impl RangeCursor {
    /// The cursor before any `filter`: every field zero.
    pub open spec fn spec_default() -> RangeCursor {
        RangeCursor { rowid: 0, value: 0, start: 0, stop: 0, step: 0 }
    }

    /// A cursor before any `filter`.
    pub fn new() -> (r: RangeCursor)
        ensures
            r == Self::spec_default(),
    {
        RangeCursor { rowid: 0, value: 0, start: 0, stop: 0, step: 0 }
    }
}

impl VirtualCursor for RangeCursor {
    open spec fn spec_rowid(&self) -> i64 {
        self.rowid
    }

    /// Both bounds are part of the sequence: the scan ends once the value
    /// passes `stop` (or, for a negative step, falls below `start`).
    open spec fn spec_eof(&self) -> bool {
        if self.step < 0 {
            self.value < self.start
        } else {
            self.value > self.stop
        }
    }

    open spec fn spec_column(&self, index: i32) -> ResultValue {
        ResultValue::Integer(
            if index == SERIES_COLUMN_START {
                self.start
            } else if index == SERIES_COLUMN_STOP {
                self.stop
            } else if index == SERIES_COLUMN_STEP {
                self.step
            } else {
                self.value
            },
        )
    }

    open spec fn spec_can_advance(&self) -> bool {
        i64::MIN <= self.value + self.step <= i64::MAX && self.rowid < i64::MAX
    }

    open spec fn spec_next(&self) -> RangeCursor {
        RangeCursor {
            rowid: (self.rowid + 1) as i64,
            value: (self.value + self.step) as i64,
            start: self.start,
            stop: self.stop,
            step: self.step,
        }
    }

    open spec fn spec_filter_accepts(idx_num: i32, args: Seq<i64>) -> bool {
        args.len() >= QueryPlan::spec_from_idx_num(idx_num).spec_arg_count()
    }

    open spec fn spec_filter(&self, idx_num: i32, args: Seq<i64>) -> RangeCursor {
        range_filtered(idx_num, args)
    }

    fn can_advance(&self) -> (r: bool) {
        let sum = self.value as i128 + self.step as i128;
        i64::MIN as i128 <= sum && sum <= i64::MAX as i128 && self.rowid < i64::MAX
    }

    fn next(&mut self) {
        self.value = self.value + self.step;
        self.rowid = self.rowid + 1;
    }

    fn column(&self, responder: &mut SQLiteResponder, index: i32) {
        let x: i64 = if index == SERIES_COLUMN_START {
            self.start
        } else if index == SERIES_COLUMN_STOP {
            self.stop
        } else if index == SERIES_COLUMN_STEP {
            self.step
        } else {
            self.value
        };
        responder.respond(&x);
    }

    fn rowid(&self) -> (r: i64) {
        self.rowid
    }

    fn eof(&self) -> (r: bool) {
        if self.step < 0 {
            self.value < self.start
        } else {
            self.value > self.stop
        }
    }

    fn filter_accepts(idx_num: i32, args: &[i64]) -> (r: bool) {
        let plan = QueryPlan::from_idx_num(idx_num);
        let mut needed: usize = 0;
        if plan.start {
            needed = needed + 1;
        }
        if plan.stop {
            needed = needed + 1;
        }
        if plan.step {
            needed = needed + 1;
        }
        args.len() >= needed
    }

    fn filter(&mut self, idx_num: i32, args: &[i64]) {
        let plan = QueryPlan::from_idx_num(idx_num);
        let mut i: usize = 0;
        if plan.start {
            self.start = args[i];
            i = i + 1;
        } else {
            self.start = 0;
        }
        if plan.stop {
            self.stop = args[i];
            i = i + 1;
        } else {
            self.stop = i64::MAX;
        }
        if plan.step {
            self.step = args[i];
            if self.step < 1 {
                self.step = 1;
            }
        } else {
            self.step = 1;
        }
        if plan.descending {
            let d: i128 = self.stop as i128 - self.start as i128;
            let m: i128 = self.step as i128;
            let r: i128 = if d >= 0 {
                d % m
            } else {
                -((-d) % m)
            };
            proof {
                lemma_filter_value_fits(plan, self.start as int, self.stop as int, self.step as int);
            }
            self.value = (self.stop as i128 - r) as i64;
        } else {
            self.value = self.start;
        }
        self.rowid = 1;
    }
}

impl VirtualTable for RangeVTab {
    type Cursor = RangeCursor;

    open spec fn spec_initial() -> RangeVTab {
        RangeVTab {  }
    }

    open spec fn spec_open_cursor(&self) -> RangeCursor {
        RangeCursor::spec_default()
    }

    open spec fn spec_best_index(
        &self,
        constraints: Seq<IndexConstraint>,
        order_bys: Seq<IndexOrderBy>,
        usages: Seq<ConstraintUsage>,
    ) -> (IndexInfo, Seq<ConstraintUsage>) {
        (range_index_info(constraints, order_bys), range_usages(constraints, usages))
    }

    /// The table exists only as a table-valued function.
    fn vtable_eponymity() -> (r: VirtualEponymity)
        ensures
            r == VirtualEponymity::EponymousOnly,
    {
        VirtualEponymity::EponymousOnly
    }

    fn vtable_definition() -> (r: &'static str)
        ensures
            r@ == RANGE_SCHEMA@,
    {
        RANGE_SCHEMA
    }

    fn create() -> (r: RangeVTab) {
        RangeVTab {  }
    }

    fn connect() -> (r: RangeVTab) {
        RangeVTab {  }
    }

    fn open_cursor(&mut self) -> (r: RangeCursor) {
        RangeCursor::new()
    }

    /// The plan for the constraints and sort keys offered by the host: the
    /// last usable equality constraint on each of start, stop and step is
    /// consumed, and the sort request is met when both bounds are pinned.
    fn best_index(
        &self,
        idx_info: &mut IndexInfo,
        constraints: &[IndexConstraint],
        order_bys: &[IndexOrderBy],
        constraint_usages: &mut Vec<ConstraintUsage>,
    )
        ensures
            *final(idx_info) == range_index_info(constraints@, order_bys@),
            final(constraint_usages)@ == range_usages(constraints@, old(constraint_usages)@),
    {
        let mut start_idx: Option<usize> = None;
        let mut stop_idx: Option<usize> = None;
        let mut step_idx: Option<usize> = None;
        let n = constraints.len();
        let mut i: usize = 0;
        while i < n
            invariant
                n == constraints@.len(),
                i <= n,
                position(start_idx) == last_binding(constraints@.subrange(0, i as int), SERIES_COLUMN_START),
                position(stop_idx) == last_binding(constraints@.subrange(0, i as int), SERIES_COLUMN_STOP),
                position(step_idx) == last_binding(constraints@.subrange(0, i as int), SERIES_COLUMN_STEP),
            decreases n - i,
        {
            let c = constraints[i];
            proof {
                let next = constraints@.subrange(0, i + 1);
                assert(next.drop_last() =~= constraints@.subrange(0, i as int));
                assert(next.last() == c);
            }
            if c.usable && c.op == SQLITE_INDEX_CONSTRAINT_EQ {
                if c.column == SERIES_COLUMN_START {
                    start_idx = Some(i);
                } else if c.column == SERIES_COLUMN_STOP {
                    stop_idx = Some(i);
                } else if c.column == SERIES_COLUMN_STEP {
                    step_idx = Some(i);
                }
            }
            i = i + 1;
        }
        proof {
            assert(constraints@.subrange(0, n as int) =~= constraints@);
            lemma_last_binding_bounds(constraints@, SERIES_COLUMN_START);
            lemma_last_binding_bounds(constraints@, SERIES_COLUMN_STOP);
            lemma_last_binding_bounds(constraints@, SERIES_COLUMN_STEP);
        }
        let mut n_arg: i32 = 0;
        take_slot(constraint_usages, start_idx, &mut n_arg);
        take_slot(constraint_usages, stop_idx, &mut n_arg);
        take_slot(constraint_usages, step_idx, &mut n_arg);

        let bounded = start_idx.is_some() && stop_idx.is_some();
        let mut plan = QueryPlan {
            start: start_idx.is_some(),
            stop: stop_idx.is_some(),
            step: step_idx.is_some(),
            descending: false,
        };
        if bounded {
            idx_info.estimated_cost = if plan.step { COST_BOUNDED_STEP } else { COST_BOUNDED };
            idx_info.estimated_rows = ROWS_BOUNDED;
            if order_bys.len() == 1 && order_bys[0].column == SERIES_COLUMN_VALUE {
                plan.descending = order_bys[0].desc;
                idx_info.order_by_consumed = true;
            } else {
                idx_info.order_by_consumed = false;
            }
        } else {
            idx_info.estimated_cost = COST_UNBOUNDED;
            idx_info.estimated_rows = COST_UNBOUNDED;
            idx_info.order_by_consumed = false;
        }
        idx_info.idx_num = plan.idx_num();
    }
}

/// The cursor after `k` calls of `next`.
pub open spec fn advanced(c: RangeCursor, k: nat) -> RangeCursor
    decreases k,
{
    if k == 0 {
        c
    } else {
        advanced(c, (k - 1) as nat).spec_next()
    }
}

/// The plan with `start`, `stop` and `step` all bound, in ascending order.
pub open spec fn bounded_plan() -> QueryPlan {
    QueryPlan { start: true, stop: true, step: true, descending: false }
}

/// The cursor that `filter` sets up with `start`, `stop` and `step` all bound.
pub open spec fn bounded_scan(start: i64, stop: i64, step: i64) -> RangeCursor {
    range_filtered(bounded_plan().spec_idx_num(), seq![start, stop, step])
}

/// The number of values of `start, start + step, ...` that do not pass `stop`.
pub open spec fn range_len(start: int, stop: int, step: int) -> int {
    (stop - start) / step + 1
}

proof fn lemma_binding_found(cs: Seq<IndexConstraint>, column: i32, i: int)
    requires
        0 <= i < cs.len(),
        binds(cs[i], column),
    ensures
        i <= last_binding(cs, column),
    decreases cs.len(),
{
    if i < cs.len() - 1 && !binds(cs.last(), column) {
        lemma_binding_found(cs.drop_last(), column, i);
    }
}

proof fn lemma_advanced(c: RangeCursor, k: nat)
    requires
        c.step >= 0,
        c.value + k * c.step <= i64::MAX,
        c.rowid >= 0,
        c.rowid + k <= i64::MAX,
    ensures
        advanced(c, k) == (RangeCursor {
            rowid: (c.rowid + k) as i64,
            value: (c.value + k * c.step) as i64,
            start: c.start,
            stop: c.stop,
            step: c.step,
        }),
    decreases k,
{
    if k > 0 {
        let j = (k - 1) as nat;
        assert(j * c.step + c.step == k * c.step && 0 <= j * c.step <= k * c.step) by (nonlinear_arith)
            requires
                j + 1 == k,
                c.step >= 0,
        ;
        lemma_advanced(c, j);
    } else {
        assert(k * c.step == 0) by (nonlinear_arith)
            requires
                k == 0,
        ;
    }
}

/// With usable equality constraints on both `start` and `stop`, planning
/// consumes both bounds: the plan code has both bits set, the `start`
/// constraint gets argument slot 1 and the `stop` constraint slot 2 (a `step`
/// constraint, if any, slot 3), each marked omit; the cost is the bounded one,
/// lower when `step` is bound as well, and the row estimate is the bounded one.
pub proof fn lemma_planning_complete(
    cs: Seq<IndexConstraint>,
    order_bys: Seq<IndexOrderBy>,
    us: Seq<ConstraintUsage>,
    i_start: int,
    i_stop: int,
)
    requires
        us.len() == cs.len(),
        0 <= i_start < cs.len(),
        binds(cs[i_start], SERIES_COLUMN_START),
        0 <= i_stop < cs.len(),
        binds(cs[i_stop], SERIES_COLUMN_STOP),
    ensures
        range_index_info(cs, order_bys).idx_num & PLAN_START != 0,
        range_index_info(cs, order_bys).idx_num & PLAN_STOP != 0,
        range_usages(cs, us)[last_binding(cs, SERIES_COLUMN_START)] == consumed(1),
        range_usages(cs, us)[last_binding(cs, SERIES_COLUMN_STOP)] == consumed(2),
        last_binding(cs, SERIES_COLUMN_STEP) >= 0 ==> range_usages(cs, us)[last_binding(
            cs,
            SERIES_COLUMN_STEP,
        )] == consumed(3),
        range_index_info(cs, order_bys).estimated_cost == if last_binding(cs, SERIES_COLUMN_STEP)
            >= 0 {
            COST_BOUNDED_STEP
        } else {
            COST_BOUNDED
        },
        range_index_info(cs, order_bys).estimated_cost <= COST_BOUNDED,
        range_index_info(cs, order_bys).estimated_rows == ROWS_BOUNDED,
{
    lemma_binding_found(cs, SERIES_COLUMN_START, i_start);
    lemma_binding_found(cs, SERIES_COLUMN_STOP, i_stop);
    lemma_last_binding_bounds(cs, SERIES_COLUMN_START);
    lemma_last_binding_bounds(cs, SERIES_COLUMN_STOP);
    lemma_last_binding_bounds(cs, SERIES_COLUMN_STEP);
    lemma_idx_num_round_trip(range_plan(cs, order_bys));
}

/// Without a usable equality constraint on `start`, or without one on
/// `stop`, the cost and the row estimate are both the unbounded sentinel,
/// whatever else is offered.
pub proof fn lemma_planning_degrades(cs: Seq<IndexConstraint>, order_bys: Seq<IndexOrderBy>)
    requires
        (forall|i: int| 0 <= i < cs.len() ==> !#[trigger] binds(cs[i], SERIES_COLUMN_START)) || (
        forall|i: int| 0 <= i < cs.len() ==> !#[trigger] binds(cs[i], SERIES_COLUMN_STOP)),
    ensures
        range_index_info(cs, order_bys).estimated_cost == COST_UNBOUNDED,
        range_index_info(cs, order_bys).estimated_rows == COST_UNBOUNDED,
{
    lemma_last_binding_bounds(cs, SERIES_COLUMN_START);
    lemma_last_binding_bounds(cs, SERIES_COLUMN_STOP);
}

/// Scanning `start..=stop` by `step`, with `start <= stop` and `step >= 1`
/// all bound: from `filter` on, row `k` (counted from 0) has the value
/// `start + k * step` and the row id `k + 1`, `next` can move past it, and
/// the cursor is at the end after exactly `(stop - start) / step + 1` rows.
/// The value after the last row and that count must fit in an `i64`.
pub proof fn lemma_sequence(start: i64, stop: i64, step: i64)
    requires
        start <= stop,
        1 <= step,
        start + range_len(start as int, stop as int, step as int) * step <= i64::MAX,
        range_len(start as int, stop as int, step as int) < i64::MAX,
    ensures
        forall|k: nat|
            k < range_len(start as int, stop as int, step as int) ==> !(#[trigger] advanced(
                bounded_scan(start, stop, step),
                k,
            )).spec_eof(),
        forall|k: nat|
            k < range_len(start as int, stop as int, step as int) ==> (#[trigger] advanced(
                bounded_scan(start, stop, step),
                k,
            )).spec_can_advance(),
        forall|k: nat|
            k < range_len(start as int, stop as int, step as int) ==> (#[trigger] advanced(
                bounded_scan(start, stop, step),
                k,
            )).value == start + k * step,
        forall|k: nat|
            k < range_len(start as int, stop as int, step as int) ==> (#[trigger] advanced(
                bounded_scan(start, stop, step),
                k,
            )).rowid == k + 1,
        advanced(
            bounded_scan(start, stop, step),
            range_len(start as int, stop as int, step as int) as nat,
        ).spec_eof(),
{
    let f = bounded_scan(start, stop, step);
    lemma_idx_num_round_trip(bounded_plan());
    assert(f == RangeCursor { rowid: 1, value: start, start, stop, step });
    let d = stop - start;
    let m = step as int;
    let n = range_len(start as int, stop as int, m);
    vstd::arithmetic::div_mod::lemma_fundamental_div_mod(d, m);
    vstd::arithmetic::div_mod::lemma_mod_pos_bound(d, m);
    assert((n - 1) * m <= d < n * m) by (nonlinear_arith)
        requires
            n == d / m + 1,
            d == m * (d / m) + d % m,
            0 <= d % m < m,
    ;
    assert forall|k: nat| k < n implies {
        let row = #[trigger] advanced(f, k);
        &&& !row.spec_eof()
        &&& row.spec_can_advance()
        &&& row.value == start + k * m
        &&& row.rowid == k + 1
    } by {
        assert(k * m <= (n - 1) * m && (k + 1) * m <= n * m && k * m >= 0 && (k + 1) * m == k * m
            + m) by (nonlinear_arith)
            requires
                k + 1 <= n,
                m >= 1,
        ;
        lemma_advanced(f, k);
    }
    assert(n * m >= 0) by (nonlinear_arith)
        requires
            n >= 1,
            m >= 1,
    ;
    lemma_advanced(f, n as nat);
}

/// `filter` with no bound arguments scans as if `start = 0`, `stop` = the
/// largest `i64` and `step = 1` had been bound, in either order.
pub proof fn lemma_filter_defaults(descending: bool)
    ensures
        range_filtered(
            (QueryPlan { start: false, stop: false, step: false, descending }).spec_idx_num(),
            Seq::<i64>::empty(),
        ) == range_filtered(
            (QueryPlan { start: true, stop: true, step: true, descending }).spec_idx_num(),
            seq![0i64, i64::MAX, 1i64],
        ),
        range_filtered(
            (QueryPlan { start: false, stop: false, step: false, descending }).spec_idx_num(),
            Seq::<i64>::empty(),
        ).start == 0,
        range_filtered(
            (QueryPlan { start: false, stop: false, step: false, descending }).spec_idx_num(),
            Seq::<i64>::empty(),
        ).stop == i64::MAX,
        range_filtered(
            (QueryPlan { start: false, stop: false, step: false, descending }).spec_idx_num(),
            Seq::<i64>::empty(),
        ).step == 1,
{
    lemma_idx_num_round_trip(QueryPlan { start: false, stop: false, step: false, descending });
    lemma_idx_num_round_trip(QueryPlan { start: true, stop: true, step: true, descending });
}

/// A `step` bound at or below zero is taken as 1: the scan is the one that
/// binding 1 gives.
pub proof fn lemma_step_coerced(idx_num: i32, args: Seq<i64>)
    requires
        QueryPlan::spec_from_idx_num(idx_num).step,
        args.len() >= QueryPlan::spec_from_idx_num(idx_num).spec_arg_count(),
        args[step_slot(QueryPlan::spec_from_idx_num(idx_num))] <= 0,
    ensures
        range_filtered(idx_num, args).step == 1,
        range_filtered(idx_num, args) == range_filtered(
            idx_num,
            args.update(step_slot(QueryPlan::spec_from_idx_num(idx_num)), 1),
        ),
{
}

/// Planning and `filter` agree on the argument slots. Start from usages with
/// no slot, as the host does, and pass `filter` the plan code chosen by
/// planning with, in each slot, the value `vals[i]` of the constraint `i` that
/// got it: `filter` takes the arguments, and the scan starts at the bound
/// `start`, stops at the bound `stop` and moves by the bound `step` (one
/// below 1 taken as 1), for each of them that was bound.
pub proof fn lemma_slots_agree(
    cs: Seq<IndexConstraint>,
    order_bys: Seq<IndexOrderBy>,
    us: Seq<ConstraintUsage>,
    vals: Seq<i64>,
    args: Seq<i64>,
)
    requires
        us.len() == cs.len(),
        vals.len() == cs.len(),
        forall|i: int| 0 <= i < us.len() ==> (#[trigger] us[i]).argv_index == 0,
        args.len() == range_plan(cs, order_bys).spec_arg_count(),
        forall|i: int|
            0 <= i < cs.len() && (#[trigger] range_usages(cs, us)[i]).argv_index >= 1 ==> args[range_usages(
                cs,
                us,
            )[i].argv_index - 1] == vals[i],
    ensures
        RangeCursor::spec_filter_accepts(range_index_info(cs, order_bys).idx_num, args),
        last_binding(cs, SERIES_COLUMN_START) >= 0 ==> range_filtered(
            range_index_info(cs, order_bys).idx_num,
            args,
        ).start == vals[last_binding(cs, SERIES_COLUMN_START)],
        last_binding(cs, SERIES_COLUMN_STOP) >= 0 ==> range_filtered(
            range_index_info(cs, order_bys).idx_num,
            args,
        ).stop == vals[last_binding(cs, SERIES_COLUMN_STOP)],
        last_binding(cs, SERIES_COLUMN_STEP) >= 0 ==> range_filtered(
            range_index_info(cs, order_bys).idx_num,
            args,
        ).step == if vals[last_binding(cs, SERIES_COLUMN_STEP)] < 1 {
            1
        } else {
            vals[last_binding(cs, SERIES_COLUMN_STEP)]
        },
{
    lemma_last_binding_bounds(cs, SERIES_COLUMN_START);
    lemma_last_binding_bounds(cs, SERIES_COLUMN_STOP);
    lemma_last_binding_bounds(cs, SERIES_COLUMN_STEP);
    let plan = range_plan(cs, order_bys);
    lemma_idx_num_round_trip(plan);
    let us2 = range_usages(cs, us);
    let i_start = last_binding(cs, SERIES_COLUMN_START);
    let i_stop = last_binding(cs, SERIES_COLUMN_STOP);
    let i_step = last_binding(cs, SERIES_COLUMN_STEP);
    if i_start >= 0 {
        assert(us2[i_start].argv_index >= 1);
    }
    if i_stop >= 0 {
        assert(us2[i_stop].argv_index >= 1);
    }
    if i_step >= 0 {
        assert(us2[i_step].argv_index >= 1);
    }
}

} // verus!
