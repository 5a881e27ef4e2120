//! The stack snapshot that each error captures when it is built.
use vstd::prelude::*;

verus! {

/// A captured stack, opaque to proofs: only carried and handed out.
#[verifier::external_type_specification]
#[verifier::external_body]
pub struct ExBacktrace(backtrace::Backtrace);

/// Relies on backtrace::Backtrace::new to capture the calling stack. What it
/// holds depends on the running process, so nothing is stated of the result;
/// the call returns on every platform (an empty trace where none is supported).
pub assume_specification[ backtrace::Backtrace::new ]() -> backtrace::Backtrace;

} // verus!
