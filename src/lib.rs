//! Pluggable virtual tables for an embeddable SQL engine: the planning
//! negotiation, the cursor protocol and the generic lifecycle glue, with an
//! arithmetic-sequence table as the concrete instance.
pub mod index;
pub mod responder;
pub mod virtual_table;
pub mod range;
pub mod internals;
