//! A small chain of the kind that a device-mapper client reports: a failed
//! context setup, explained by an invalid argument, followed by an oversized
//! result. The foreign error at its root is an I/O error.
use vstd::prelude::*;
use crate::chain::{Cause, OurError, Suberror};
use crate::specifics::OurErrorKind;

verus! {

/// An I/O error, opaque to proofs: carried as a foreign cause.
#[verifier::external_type_specification]
#[verifier::external_body]
pub struct ExIoError(std::io::Error);

/// Relies on std::io::Error::new, which builds an error of kind `Other`
/// carrying `msg`; nothing about it is needed by the callers.
#[verifier::external_body]
fn io_error_other(msg: &str) -> std::io::Error {
    std::io::Error::new(std::io::ErrorKind::Other, msg)
}

/// A context error whose constituent is an I/O error.
pub fn b() -> (r: Result<(), OurError<std::io::Error>>)
    ensures
        r matches Err(e) && e.kind() == OurErrorKind::ContextInitError && e.relation() matches Some(
            Suberror::Constituent(Cause::Foreign(_)),
        ),
{
    let err = io_error_other("oh no!");
    let mut ours = OurError::new(OurErrorKind::ContextInitError);
    ours.set_constituent(Cause::Foreign(err));
    Err(ours)
}

/// Passes on the error of `b`.
pub fn c() -> (r: Result<(), OurError<std::io::Error>>)
    ensures
        r matches Err(e) && e.kind() == OurErrorKind::ContextInitError && e.relation() matches Some(
            Suberror::Constituent(Cause::Foreign(_)),
        ),
{
    b()
}

/// Extends the error of `c` with an invalid argument "32", and has that
/// followed by an oversized result, which heads the chain.
pub fn d() -> (r: Result<(), OurError<std::io::Error>>)
    ensures
        r matches Err(head) && {
            &&& head.kind() == OurErrorKind::IoctlResultTooLarge
            &&& head.relation() matches Some(Suberror::Previous(Cause::Ours(mid)))
            &&& mid.kind() matches OurErrorKind::InvalidArgument { description }
            &&& description@ == "32"@
            &&& mid.relation() matches Some(Suberror::Constituent(Cause::Ours(first)))
            &&& first.kind() == OurErrorKind::ContextInitError
            &&& first.relation() matches Some(Suberror::Constituent(Cause::Foreign(_)))
        },
{
    let first = match c() {
        Err(e) => e,
        Ok(()) => { return Ok(()); },
    };
    let argument = OurError::new(OurErrorKind::InvalidArgument { description: "32".to_owned() });
    let too_large = OurError::new(OurErrorKind::IoctlResultTooLarge);
    Err(first.set_extension(argument).set_subsequent(too_large))
}

} // verus!
