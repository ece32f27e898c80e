//! The capabilities a table implementation offers to the host: planning,
//! cursors, and the way the table can be instantiated.
use vstd::prelude::*;
use crate::index::{ConstraintUsage, IndexConstraint, IndexInfo, IndexOrderBy};
use crate::responder::{ResultValue, SQLiteResponder};

verus! {

/// Whether a virtual table is made with `CREATE VIRTUAL TABLE`, used as a
/// table-valued function, or both.
#[derive(Clone, Copy, Debug, PartialEq, Eq, Structural)]
pub enum VirtualEponymity {
    NonEponymous,
    Eponymous,
    EponymousOnly,
}

/// A table implementation. The table itself is planning state only; rows are
/// produced by its cursors.
pub trait VirtualTable: Sized {
    type Cursor: VirtualCursor;

    /// The table in its initial state, as `create` and `connect` make it.
    spec fn spec_initial() -> Self;

    /// The cursor that `open_cursor` makes on this table.
    spec fn spec_open_cursor(&self) -> Self::Cursor;

    /// What planning writes for the given constraints, sort keys and initial
    /// constraint usages: the scalar outputs and the new usages.
    spec fn spec_best_index(
        &self,
        constraints: Seq<IndexConstraint>,
        order_bys: Seq<IndexOrderBy>,
        usages: Seq<ConstraintUsage>,
    ) -> (IndexInfo, Seq<ConstraintUsage>);

    /// How the table can be instantiated.
    fn vtable_eponymity() -> VirtualEponymity;

    /// The schema declared to the host when the table connects.
    fn vtable_definition() -> &'static str;

    /// A table for `CREATE VIRTUAL TABLE`.
    fn create() -> (r: Self)
        ensures
            r == Self::spec_initial(),
    ;

    /// A table for use as a table-valued function.
    fn connect() -> (r: Self)
        ensures
            r == Self::spec_initial(),
    ;

    /// A fresh cursor over the table.
    fn open_cursor(&mut self) -> (r: Self::Cursor)
        ensures
            r == old(self).spec_open_cursor(),
            *final(self) == *old(self),
    ;

    /// Chooses a plan for the constraints and sort keys offered by the host.
    fn best_index(
        &self,
        idx_info: &mut IndexInfo,
        constraints: &[IndexConstraint],
        order_bys: &[IndexOrderBy],
        constraint_usages: &mut Vec<ConstraintUsage>,
    )
        requires
            old(constraint_usages)@.len() == constraints@.len(),
        ensures
            (*final(idx_info), final(constraint_usages)@) == self.spec_best_index(
                constraints@,
                order_bys@,
                old(constraint_usages)@,
            ),
    ;
}

/// A cursor: a position in one scan of a table.
pub trait VirtualCursor: Sized {
    /// The row id of the current row.
    spec fn spec_rowid(&self) -> i64;

    /// Whether the cursor has moved past the last row.
    spec fn spec_eof(&self) -> bool;

    /// The value of column `index` in the current row.
    spec fn spec_column(&self, index: i32) -> ResultValue;

    /// Whether `next` can move the cursor on from here.
    spec fn spec_can_advance(&self) -> bool;

    /// The cursor after `next`.
    spec fn spec_next(&self) -> Self;

    /// Whether `filter` takes the plan code and bound arguments.
    spec fn spec_filter_accepts(idx_num: i32, args: Seq<i64>) -> bool;

    /// The cursor after `filter`.
    spec fn spec_filter(&self, idx_num: i32, args: Seq<i64>) -> Self;

    /// Tells whether `next` can move the cursor on from here.
    fn can_advance(&self) -> (r: bool)
        ensures
            r == self.spec_can_advance(),
    ;

    /// Moves to the next row.
    fn next(&mut self)
        requires
            old(self).spec_can_advance(),
        ensures
            *final(self) == old(self).spec_next(),
    ;

    /// Hands the value of column `index` in the current row to `responder`.
    fn column(&self, responder: &mut SQLiteResponder, index: i32)
        ensures
            final(responder).result == self.spec_column(index),
    ;

    /// The row id of the current row.
    fn rowid(&self) -> (r: i64)
        ensures
            r == self.spec_rowid(),
    ;

    /// Tells whether the cursor has moved past the last row.
    fn eof(&self) -> (r: bool)
        ensures
            r == self.spec_eof(),
    ;

    /// Tells whether `filter` takes the plan code and bound arguments.
    fn filter_accepts(idx_num: i32, args: &[i64]) -> (r: bool)
        ensures
            r == Self::spec_filter_accepts(idx_num, args@),
    ;

    /// Starts a scan with the plan code chosen at planning time and the
    /// values the host bound to the plan's argument slots, in slot order.
    fn filter(&mut self, idx_num: i32, args: &[i64])
        requires
            Self::spec_filter_accepts(idx_num, args@),
        ensures
            *final(self) == old(self).spec_filter(idx_num, args@),
    ;
}

} // verus!
