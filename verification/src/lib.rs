//! Database bootstrap workflow: bring a named database into a known-good
//! state (replace, load schema, load data) and verify the load by a count
//! query, against a graph-database server reached through a driver.
//!
//! The library holds the decision logic of that workflow — the step-by-step
//! state machine, the typed query values, the injection-safe query builders
//! and the error taxonomy — all of it verified. The driver calls themselves
//! (network I/O) are performed by the surrounding application, which feeds
//! each call's outcome back into the machine.

pub mod errors;
pub mod model;
pub mod query;
pub mod requests;
pub mod session;
pub mod value;
pub mod verify;
pub mod workflow;
