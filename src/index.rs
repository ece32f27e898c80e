//! What the host hands over while planning a query, what the table answers,
//! and the query plan that travels from planning to filtering.
use vstd::prelude::*;

verus! {

/// Operator code of a `column = value` constraint.
pub const SQLITE_INDEX_CONSTRAINT_EQ: u8 = 2;

/// Bit of the plan code set when a `start` bound is consumed.
pub const PLAN_START: i32 = 1;

/// Bit of the plan code set when a `stop` bound is consumed.
pub const PLAN_STOP: i32 = 2;

/// Bit of the plan code set when a `step` bound is consumed.
pub const PLAN_STEP: i32 = 4;

/// Bit of the plan code set when descending output is requested and consumed.
pub const PLAN_DESC: i32 = 8;

/// One filter predicate that the host offers while planning a query.
#[derive(Clone, Copy, Debug, PartialEq, Eq, Structural)]
pub struct IndexConstraint {
    /// The column the predicate constrains.
    pub column: i32,
    /// The comparison operator, as the host codes it.
    pub op: u8,
    /// Whether the host can supply the compared value to `filter`.
    pub usable: bool,
}

/// One key of the sort order that the host requests.
#[derive(Clone, Copy, Debug, PartialEq, Eq, Structural)]
pub struct IndexOrderBy {
    pub column: i32,
    pub desc: bool,
}

/// The table's answer for one constraint: the 1-based argument slot in which
/// `filter` receives the compared value (0 for none), and whether the host may
/// skip checking the predicate itself.
#[derive(Clone, Copy, Debug, PartialEq, Eq, Structural)]
pub struct ConstraintUsage {
    pub argv_index: i32,
    pub omit: bool,
}

/// The scalar outputs of one planning call.
#[derive(Clone, Copy, Debug, PartialEq, Eq, Structural)]
pub struct IndexInfo {
    /// The plan code handed back unchanged to `filter`.
    pub idx_num: i32,
    /// Estimated cost of the plan.
    pub estimated_cost: i64,
    /// Estimated number of rows the plan produces.
    pub estimated_rows: i64,
    /// Whether the rows already come in the requested order.
    pub order_by_consumed: bool,
}

/// The decisions of one planning call, in structured form.
#[derive(Clone, Copy, Debug, PartialEq, Eq, Structural)]
pub struct QueryPlan {
    pub start: bool,
    pub stop: bool,
    pub step: bool,
    pub descending: bool,
}

/// `bit` when `b` holds, else no bit.
pub open spec fn flag(b: bool, bit: i32) -> i32 {
    if b {
        bit
    } else {
        0
    }
}

impl QueryPlan {
    /// The host's integer encoding of the plan.
    pub open spec fn spec_idx_num(self) -> i32 {
        flag(self.start, PLAN_START) | flag(self.stop, PLAN_STOP) | flag(self.step, PLAN_STEP)
            | flag(self.descending, PLAN_DESC)
    }

    /// The plan that an integer code carries: one flag per bit, the other bits ignored.
    pub open spec fn spec_from_idx_num(n: i32) -> QueryPlan {
        QueryPlan {
            start: n & PLAN_START != 0,
            stop: n & PLAN_STOP != 0,
            step: n & PLAN_STEP != 0,
            descending: n & PLAN_DESC != 0,
        }
    }

    /// How many bound arguments the plan asks the host to pass to `filter`.
    pub open spec fn spec_arg_count(self) -> nat {
        (if self.start { 1nat } else { 0nat }) + (if self.stop { 1nat } else { 0nat }) + (if self.step {
            1nat
        } else {
            0nat
        })
    }

    /// Encodes the plan as the integer the host carries back to `filter`.
    pub fn idx_num(&self) -> (r: i32)
        ensures
            r == self.spec_idx_num(),
    {
        let a: i32 = if self.start { PLAN_START } else { 0 };
        let b: i32 = if self.stop { PLAN_STOP } else { 0 };
        let c: i32 = if self.step { PLAN_STEP } else { 0 };
        let d: i32 = if self.descending { PLAN_DESC } else { 0 };
        a | b | c | d
    }

    /// Decodes an integer plan code bit by bit.
    pub fn from_idx_num(n: i32) -> (r: QueryPlan)
        ensures
            r == Self::spec_from_idx_num(n),
    {
        QueryPlan {
            start: n & PLAN_START != 0,
            stop: n & PLAN_STOP != 0,
            step: n & PLAN_STEP != 0,
            descending: n & PLAN_DESC != 0,
        }
    }
}

/// Decoding the code of a plan gives the plan back: the code carries every
/// planning decision, and nothing else, into `filter`.
pub proof fn lemma_idx_num_round_trip(p: QueryPlan)
    ensures
        QueryPlan::spec_from_idx_num(p.spec_idx_num()) == p,
{
    let a = flag(p.start, PLAN_START);
    let b = flag(p.stop, PLAN_STOP);
    let c = flag(p.step, PLAN_STEP);
    let d = flag(p.descending, PLAN_DESC);
    assert(
        ((a | b | c | d) & 1 != 0) == (a == 1)
        && ((a | b | c | d) & 2 != 0) == (b == 2)
        && ((a | b | c | d) & 4 != 0) == (c == 4)
        && ((a | b | c | d) & 8 != 0) == (d == 8)
    ) by (bit_vector)
        requires
            a == 0 || a == 1,
            b == 0 || b == 2,
            c == 0 || c == 4,
            d == 0 || d == 8,
    ;
}

} // verus!
