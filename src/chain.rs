//! An error with at most one outgoing relation to another error, which it owns.
use vstd::prelude::*;
use crate::specifics::OurErrorKind;
use backtrace::Backtrace;

verus! {

/// The target of a relation: another error of this library, or an error of
/// any other type `F`. Matching on it is the narrowing cast: each variant
/// answers for exactly one concrete type.
#[derive(Debug)]
pub enum Cause<F> {
    Ours(Box<OurError<F>>),
    Foreign(F),
}

/// What relation the component error has to the error that holds it.
#[derive(Debug)]
pub enum Suberror<F> {
    /// The error occurred before the holder, and presumably led to it.
    Previous(Cause<F>),
    /// The error is further explained or extended by the holder.
    Constituent(Cause<F>),
}

impl<F> Cause<F> {
    /// The error of this library that the cause is, if it is one.
    pub open spec fn ours_spec(self) -> Option<OurError<F>> {
        match self {
            Cause::Ours(e) => Some(*e),
            Cause::Foreign(_) => None,
        }
    }

    /// The foreign error that the cause is, if it is one.
    pub open spec fn foreign_spec(self) -> Option<F> {
        match self {
            Cause::Ours(_) => None,
            Cause::Foreign(f) => Some(f),
        }
    }

    /// Narrows the cause to an error of this library.
    pub fn downcast_ours(&self) -> (r: Option<&OurError<F>>)
        ensures
            r is Some <==> self.ours_spec() is Some,
            r is Some ==> *r.unwrap() == self.ours_spec().unwrap(),
    {
        match self {
            Cause::Ours(e) => Some(&**e),
            Cause::Foreign(_) => None,
        }
    }

    /// Narrows the cause to the foreign error type.
    pub fn downcast_foreign(&self) -> (r: Option<&F>)
        ensures
            r is Some <==> self.foreign_spec() is Some,
            r is Some ==> *r.unwrap() == self.foreign_spec().unwrap(),
    {
        match self {
            Cause::Ours(_) => None,
            Cause::Foreign(f) => Some(f),
        }
    }
}

/// An error: what went wrong, the stack where it was built, and at most one
/// relation to another error.
#[derive(Debug)]
pub struct OurError<F> {
    source_impl: Option<Suberror<F>>,
    backtrace: Backtrace,
    specifics: OurErrorKind,
}

impl<F> OurError<F> {
    /// What went wrong.
    pub closed spec fn kind(self) -> OurErrorKind {
        self.specifics
    }

    /// The one outgoing relation, if any.
    pub closed spec fn relation(self) -> Option<Suberror<F>> {
        self.source_impl
    }

    /// The stack captured when this error was built.
    pub closed spec fn snapshot(self) -> Backtrace {
        self.backtrace
    }

    /// The relation's target when it is a previous error.
    pub open spec fn previous_spec(self) -> Option<Cause<F>> {
        match self.relation() {
            Some(Suberror::Previous(c)) => Some(c),
            _ => None,
        }
    }

    /// The relation's target when it is a constituent error.
    pub open spec fn constituent_spec(self) -> Option<Cause<F>> {
        match self.relation() {
            Some(Suberror::Constituent(c)) => Some(c),
            _ => None,
        }
    }

    /// The relation's target, whatever its kind.
    pub open spec fn source_spec(self) -> Option<Cause<F>> {
        match self.relation() {
            Some(Suberror::Previous(c)) => Some(c),
            Some(Suberror::Constituent(c)) => Some(c),
            None => None,
        }
    }

    /// This error with `rel` as its relation in place of any it had.
    pub closed spec fn with_relation(self, rel: Option<Suberror<F>>) -> OurError<F> {
        OurError { source_impl: rel, ..self }
    }

    /// The chain headed by `head`, with this error as its constituent.
    pub open spec fn extended_by(self, head: OurError<F>) -> OurError<F> {
        head.with_relation(Some(Suberror::Constituent(Cause::Ours(Box::new(self)))))
    }

    /// The chain headed by `next`, with this error as its previous error.
    pub open spec fn followed_by(self, next: OurError<F>) -> OurError<F> {
        next.with_relation(Some(Suberror::Previous(Cause::Ours(Box::new(self)))))
    }

    /// A fresh error of the given kind, with no relation, holding the stack
    /// at this call.
    pub fn new(kind: OurErrorKind) -> (r: OurError<F>)
        ensures
            r.kind() == kind,
            r.relation() is None,
            r.previous_spec() is None,
            r.constituent_spec() is None,
            r.source_spec() is None,
    {
        OurError { backtrace: Backtrace::new(), source_impl: None, specifics: kind }
    }

    /// Returns the stack captured when this error was built.
    pub fn our_backtrace(&self) -> (r: Option<&Backtrace>)
        ensures
            r is Some,
            *r.unwrap() == self.snapshot(),
    {
        Some(&self.backtrace)
    }

    /// Returns what went wrong.
    pub fn specifics(&self) -> (r: &OurErrorKind)
        ensures
            *r == self.kind(),
    {
        &self.specifics
    }

    /// Makes this error the constituent of `extension`, which further explains
    /// it, and returns `extension`, now the head of the chain. Any relation
    /// that `extension` had is replaced.
    pub fn set_extension(self, extension: OurError<F>) -> (r: OurError<F>)
        ensures
            r == self.extended_by(extension),
            r.relation() == Some(Suberror::Constituent(Cause::Ours(Box::new(self)))),
            r.kind() == extension.kind(),
            r.snapshot() == extension.snapshot(),
    {
        let mut extension = extension;
        extension.source_impl = Some(Suberror::Constituent(Cause::Ours(Box::new(self))));
        extension
    }

    /// Makes this error the previous error of `subsequent`, which happened
    /// later, and returns `subsequent`, now the head of the chain. Any relation
    /// that `subsequent` had is replaced.
    pub fn set_subsequent(self, subsequent: OurError<F>) -> (r: OurError<F>)
        ensures
            r == self.followed_by(subsequent),
            r.relation() == Some(Suberror::Previous(Cause::Ours(Box::new(self)))),
            r.kind() == subsequent.kind(),
            r.snapshot() == subsequent.snapshot(),
    {
        let mut subsequent = subsequent;
        subsequent.source_impl = Some(Suberror::Previous(Cause::Ours(Box::new(self))));
        subsequent
    }

    /// Sets `constituent` as the constituent of this error, replacing any
    /// relation it had.
    pub fn set_constituent(&mut self, constituent: Cause<F>)
        ensures
            *final(self) == old(self).with_relation(Some(Suberror::Constituent(constituent))),
            final(self).relation() == Some(Suberror::Constituent(constituent)),
            final(self).kind() == old(self).kind(),
            final(self).snapshot() == old(self).snapshot(),
    {
        self.source_impl = Some(Suberror::Constituent(constituent));
    }

    /// Sets `previous` as the previous error of this error, replacing any
    /// relation it had.
    pub fn set_previous(&mut self, previous: Cause<F>)
        ensures
            *final(self) == old(self).with_relation(Some(Suberror::Previous(previous))),
            final(self).relation() == Some(Suberror::Previous(previous)),
            final(self).kind() == old(self).kind(),
            final(self).snapshot() == old(self).snapshot(),
    {
        self.source_impl = Some(Suberror::Previous(previous));
    }

    /// The immediate previous error, if there is one.
    pub fn previous(&self) -> (r: Option<&Cause<F>>)
        ensures
            r is Some <==> self.previous_spec() is Some,
            r is Some ==> *r.unwrap() == self.previous_spec().unwrap(),
    {
        match &self.source_impl {
            Some(Suberror::Previous(c)) => Some(c),
            _ => None,
        }
    }

    /// The immediate constituent error, if there is one.
    pub fn constituent(&self) -> (r: Option<&Cause<F>>)
        ensures
            r is Some <==> self.constituent_spec() is Some,
            r is Some ==> *r.unwrap() == self.constituent_spec().unwrap(),
    {
        match &self.source_impl {
            Some(Suberror::Constituent(c)) => Some(c),
            _ => None,
        }
    }

    /// The target of the relation, whatever its kind: what generic tooling
    /// follows to walk the chain.
    pub fn source(&self) -> (r: Option<&Cause<F>>)
        ensures
            r is Some <==> self.source_spec() is Some,
            r is Some ==> *r.unwrap() == self.source_spec().unwrap(),
    {
        match &self.source_impl {
            Some(Suberror::Previous(c)) => Some(c),
            Some(Suberror::Constituent(c)) => Some(c),
            None => None,
        }
    }

    /// The same target as `source`, under the older name.
    pub fn cause(&self) -> (r: Option<&Cause<F>>)
        ensures
            r is Some <==> self.source_spec() is Some,
            r is Some ==> *r.unwrap() == self.source_spec().unwrap(),
    {
        self.source()
    }

    /// The message of this error: that of its kind alone, whatever relation
    /// it has.
    pub fn message(&self) -> (r: String)
        ensures
            r@ == self.kind().message_spec(),
    {
        self.specifics.message()
    }
}

/// Replacing the relation sets exactly the relation, and keeps what went wrong
/// and the captured stack.
pub proof fn lemma_with_relation<F>(e: OurError<F>, rel: Option<Suberror<F>>)
    ensures
        e.with_relation(rel).relation() == rel,
        e.with_relation(rel).kind() == e.kind(),
        e.with_relation(rel).snapshot() == e.snapshot(),
{
}

/// A relation set a second time replaces the first: only the most recent one
/// can be seen afterwards.
pub proof fn law_second_relation_replaces_first<F>(
    e: OurError<F>,
    first: Option<Suberror<F>>,
    second: Option<Suberror<F>>,
)
    ensures
        e.with_relation(first).with_relation(second) == e.with_relation(second),
{
}

} // verus!
