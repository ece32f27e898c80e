//! Values that a cursor hands back to the host as column results.
use vstd::prelude::*;

verus! {

/// A column result, in one of the host's dynamic types.
#[derive(Debug)]
pub enum ResultValue {
    Null,
    Integer(i64),
    Text(String),
    Blob(Vec<u8>),
}

/// A type whose values can be handed back to the host as a column result.
pub trait SQLiteRespondable {
    /// The result that the value stands for.
    spec fn spec_result(&self) -> ResultValue;

    /// Converts the value into a column result.
    fn to_result(&self) -> (r: ResultValue)
        ensures
            r == self.spec_result(),
    ;
}

impl SQLiteRespondable for i64 {
    open spec fn spec_result(&self) -> ResultValue {
        ResultValue::Integer(*self)
    }

    fn to_result(&self) -> (r: ResultValue) {
        ResultValue::Integer(*self)
    }
}

/// Where a cursor puts the result of a `column` call; the host reads it back
/// once the call returns.
pub struct SQLiteResponder {
    pub result: ResultValue,
}

impl SQLiteResponder {
    /// A responder that holds no result yet.
    pub fn new() -> (r: SQLiteResponder)
        ensures
            r.result == ResultValue::Null,
    {
        SQLiteResponder { result: ResultValue::Null }
    }

    /// Records `thing` as the result of the current `column` call.
    pub fn respond<T: SQLiteRespondable>(&mut self, thing: &T)
        ensures
            final(self).result == thing.spec_result(),
    {
        self.result = thing.to_result();
    }
}

} // verus!
