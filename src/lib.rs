//! Generation-time model of a module's call type: the normalized method
//! table, the synthesized call enum, its dispatcher, cost classifier,
//! metadata table, wire encoding, and the per-module definedness guard.
pub mod counter;
pub mod table;
pub mod call_type;
pub mod dispatch;
pub mod metadata;
pub mod codec;
pub mod expand;
