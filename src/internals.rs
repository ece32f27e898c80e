//! The generic glue between the host's fixed callback table and any table
//! implementation: handles that carry a table or a cursor, and one function
//! per callback. The host-facing side casts its opaque handles to these
//! wrappers and back; everything decided here is plain values in, status
//! codes out.
use vstd::prelude::*;
use crate::index::{ConstraintUsage, IndexConstraint, IndexInfo, IndexOrderBy};
use crate::responder::SQLiteResponder;
use crate::virtual_table::{VirtualCursor, VirtualTable};

verus! {

/// Status code: the call succeeded.
pub const SQLITE_OK: i32 = 0;

/// Status code: the call failed.
pub const SQLITE_ERROR: i32 = 1;

/// The handle of a connected table.
pub struct VTabWrapper<T> {
    pub inner: T,
}

/// The handle of an open cursor.
pub struct CursorWrapper<T> {
    pub inner: T,
}

/// Makes the handle of a table, given the host's answer to the schema
/// declaration: no handle exists unless the schema was accepted.
pub fn vtab_connect<Tab: VirtualTable>(declare_status: i32) -> (r: Result<VTabWrapper<Tab>, i32>)
    ensures
        declare_status == SQLITE_OK ==> (r matches Ok(w) && w.inner == Tab::spec_initial()),
        declare_status != SQLITE_OK ==> r == Err::<VTabWrapper<Tab>, i32>(declare_status),
{
    if declare_status != SQLITE_OK {
        return Err(declare_status);
    }
    Ok(VTabWrapper { inner: Tab::connect() })
}

/// Releases a table handle; the handle is consumed.
pub fn vtab_disconnect<Tab: VirtualTable>(vtab: VTabWrapper<Tab>) -> (r: i32)
    ensures
        r == SQLITE_OK,
{
    SQLITE_OK
}

/// Opens a cursor on a table.
pub fn vtab_open<Tab: VirtualTable>(vtab: &mut VTabWrapper<Tab>) -> (r: CursorWrapper<Tab::Cursor>)
    ensures
        r.inner == old(vtab).inner.spec_open_cursor(),
        *final(vtab) == *old(vtab),
{
    CursorWrapper { inner: vtab.inner.open_cursor() }
}

/// Releases a cursor handle; the handle is consumed.
pub fn cursor_close<Tab: VirtualTable>(cur: CursorWrapper<Tab::Cursor>) -> (r: i32)
    ensures
        r == SQLITE_OK,
{
    SQLITE_OK
}

/// Moves a cursor to its next row; fails, leaving the cursor as it was, when
/// the cursor cannot move on.
pub fn cursor_next<Tab: VirtualTable>(cur: &mut CursorWrapper<Tab::Cursor>) -> (r: i32)
    ensures
        old(cur).inner.spec_can_advance() ==> r == SQLITE_OK && final(cur).inner
            == old(cur).inner.spec_next(),
        !old(cur).inner.spec_can_advance() ==> r == SQLITE_ERROR && *final(cur) == *old(cur),
{
    if !cur.inner.can_advance() {
        return SQLITE_ERROR;
    }
    cur.inner.next();
    SQLITE_OK
}

/// Hands the value of column `i` in the current row to `responder`.
pub fn cursor_column<Tab: VirtualTable>(
    cur: &CursorWrapper<Tab::Cursor>,
    responder: &mut SQLiteResponder,
    i: i32,
) -> (r: i32)
    ensures
        r == SQLITE_OK,
        final(responder).result == cur.inner.spec_column(i),
{
    cur.inner.column(responder, i);
    SQLITE_OK
}

/// Writes the row id of the current row to `p_rowid`.
pub fn cursor_rowid<Tab: VirtualTable>(cur: &CursorWrapper<Tab::Cursor>, p_rowid: &mut i64) -> (r: i32)
    ensures
        r == SQLITE_OK,
        *final(p_rowid) == cur.inner.spec_rowid(),
{
    *p_rowid = cur.inner.rowid();
    SQLITE_OK
}

/// Whether the cursor has moved past the last row, as the host's boolean:
/// 1 for true, 0 for false.
pub fn cursor_eof<Tab: VirtualTable>(cur: &CursorWrapper<Tab::Cursor>) -> (r: i32)
    ensures
        r == if cur.inner.spec_eof() { 1i32 } else { 0i32 },
{
    if cur.inner.eof() {
        1
    } else {
        0
    }
}

/// Starts a scan with the plan code chosen at planning time and the bound
/// arguments; fails, leaving the cursor as it was, when the cursor does not
/// take them.
pub fn cursor_filter<Tab: VirtualTable>(
    cur: &mut CursorWrapper<Tab::Cursor>,
    idx_num: i32,
    args: &[i64],
) -> (r: i32)
    ensures
        Tab::Cursor::spec_filter_accepts(idx_num, args@) ==> r == SQLITE_OK && final(cur).inner
            == old(cur).inner.spec_filter(idx_num, args@),
        !Tab::Cursor::spec_filter_accepts(idx_num, args@) ==> r == SQLITE_ERROR && *final(cur)
            == *old(cur),
{
    if !Tab::Cursor::filter_accepts(idx_num, args) {
        return SQLITE_ERROR;
    }
    cur.inner.filter(idx_num, args);
    SQLITE_OK
}

/// Asks the table for a plan; fails, writing nothing, when there is not one
/// usage per constraint.
pub fn vtab_best_index<Tab: VirtualTable>(
    vtab: &VTabWrapper<Tab>,
    idx_info: &mut IndexInfo,
    constraints: &[IndexConstraint],
    order_bys: &[IndexOrderBy],
    constraint_usages: &mut Vec<ConstraintUsage>,
) -> (r: i32)
    ensures
        old(constraint_usages)@.len() == constraints@.len() ==> r == SQLITE_OK
            && (*final(idx_info), final(constraint_usages)@) == vtab.inner.spec_best_index(
            constraints@,
            order_bys@,
            old(constraint_usages)@,
        ),
        old(constraint_usages)@.len() != constraints@.len() ==> r == SQLITE_ERROR
            && *final(idx_info) == *old(idx_info)
            && final(constraint_usages)@ == old(constraint_usages)@,
{
    if constraint_usages.len() != constraints.len() {
        return SQLITE_ERROR;
    }
    vtab.inner.best_index(idx_info, constraints, order_bys, constraint_usages);
    SQLITE_OK
}

} // verus!
