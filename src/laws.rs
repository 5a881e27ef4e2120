//! What holds of every chain built with the linking operations.
use vstd::prelude::*;
use crate::chain::{lemma_with_relation, Cause, OurError, Suberror};

verus! {

/// Once `a` is made the constituent of `b`, the head's constituent narrows to
/// `a` itself, with `a`'s kind, and the head has no previous error.
pub proof fn law_extension_exposes_constituent<F>(a: OurError<F>, b: OurError<F>)
    ensures
        a.extended_by(b).constituent_spec() matches Some(c) && c.ours_spec() == Some(a),
        a.extended_by(b).constituent_spec().unwrap().ours_spec().unwrap().kind() == a.kind(),
        a.extended_by(b).previous_spec() is None,
        a.extended_by(b).kind() == b.kind(),
{
    lemma_with_relation(b, Some(Suberror::Constituent(Cause::Ours(Box::new(a)))));
}

/// Once `b` is made to follow `a`, the head's previous error narrows to `a`
/// itself, with `a`'s kind, and the head has no constituent.
pub proof fn law_subsequent_exposes_previous<F>(a: OurError<F>, b: OurError<F>)
    ensures
        a.followed_by(b).previous_spec() matches Some(c) && c.ours_spec() == Some(a),
        a.followed_by(b).previous_spec().unwrap().ours_spec().unwrap().kind() == a.kind(),
        a.followed_by(b).constituent_spec() is None,
        a.followed_by(b).kind() == b.kind(),
{
    lemma_with_relation(b, Some(Suberror::Previous(Cause::Ours(Box::new(a)))));
}

/// Linking a node that already had a relation gives the same chain as linking
/// it fresh: the builders replace the earlier relation entirely.
pub proof fn law_builders_replace_relation<F>(
    a: OurError<F>,
    b: OurError<F>,
    earlier: Option<Suberror<F>>,
)
    ensures
        a.extended_by(b.with_relation(earlier)) == a.extended_by(b),
        a.followed_by(b.with_relation(earlier)) == a.followed_by(b),
{
    crate::chain::law_second_relation_replaces_first(
        b,
        earlier,
        Some(Suberror::Constituent(Cause::Ours(Box::new(a)))),
    );
    crate::chain::law_second_relation_replaces_first(
        b,
        earlier,
        Some(Suberror::Previous(Cause::Ours(Box::new(a)))),
    );
}

/// A cause narrows to exactly one concrete type, the one it holds: the cast to
/// the other type finds no match, and the cast that succeeds gives back the
/// very value held.
pub proof fn law_downcast_matches_only_actual_type<F>(c: Cause<F>)
    ensures
        c.ours_spec() is Some <==> c.foreign_spec() is None,
        c.ours_spec() matches Some(e) ==> c == Cause::<F>::Ours(Box::new(e)),
        c.foreign_spec() matches Some(f) ==> c == Cause::<F>::Foreign(f),
{
}

/// The message depends on the kind alone, and no linking operation changes the
/// kind: two errors of one kind render alike whatever their relations.
pub proof fn law_message_ignores_relation<F>(
    a: OurError<F>,
    b: OurError<F>,
    rel: Option<Suberror<F>>,
)
    ensures
        a.kind() == b.kind() ==> a.kind().message_spec() == b.kind().message_spec(),
        a.with_relation(rel).kind().message_spec() == a.kind().message_spec(),
        a.extended_by(b).kind().message_spec() == b.kind().message_spec(),
        a.followed_by(b).kind().message_spec() == b.kind().message_spec(),
{
    lemma_with_relation(a, rel);
    lemma_with_relation(b, Some(Suberror::Constituent(Cause::Ours(Box::new(a)))));
    lemma_with_relation(b, Some(Suberror::Previous(Cause::Ours(Box::new(a)))));
}

} // verus!
