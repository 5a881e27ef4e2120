//! Errors that record two different relations to another error: one that
//! happened earlier and led to the current code path (previous), and one that
//! the current error further explains (constituent).
pub mod chain;
pub mod laws;
pub mod scenario;
pub mod snapshot;
pub mod specifics;

pub use chain::{Cause, OurError, Suberror};
pub use specifics::OurErrorKind;
