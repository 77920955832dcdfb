//! Properties of the pawn/release cycle, stated and proved over the
//! spec-level transitions [`pawned`] and [`released`] that the executable
//! contracts are written with.

use vstd::prelude::*;
use vstd::multiset::Multiset;

use crate::pawned;
use crate::released;

verus! {

/// Round trip: pawning a cell and releasing the ticket unmutated leaves the
/// cell's contents exactly as they were, whatever the placeholder was.
pub proof fn lemma_round_trip<T>(v: T, temp: T)
    ensures
        released(pawned(v, temp).0, pawned(v, temp).1) == v,
{
}

/// Mutation visibility: pawning a cell that holds `v`, applying `f` to the
/// ticket's value and releasing makes the cell hold `f(v)`.
pub proof fn lemma_mutation_visibility<T>(v: T, temp: T, f: spec_fn(T) -> T)
    ensures
        released(pawned(v, temp).0, f(pawned(v, temp).1)) == f(v),
{
}

/// Sequential composition: two non-overlapping round trips, the first
/// applying `f` and the second `g`, compose the mutations in program order.
pub proof fn lemma_sequential_composition<T>(
    v: T,
    temp1: T,
    temp2: T,
    f: spec_fn(T) -> T,
    g: spec_fn(T) -> T,
)
    ensures
        ({
            let first = released(pawned(v, temp1).0, f(pawned(v, temp1).1));
            released(pawned(first, temp2).0, g(pawned(first, temp2).1)) == g(f(v))
        }),
{
}

/// Reentrant pawning: a second ticket taken while the first is alive owns
/// the first placeholder — never the first ticket's value — and the ticket
/// released last (here the first one taken, mutated by `f`) determines the
/// cell's final contents; the earlier release, mutated by `g`, is discarded.
pub proof fn lemma_reentrant_last_release_wins<T>(
    v: T,
    temp_a: T,
    temp_b: T,
    f: spec_fn(T) -> T,
    g: spec_fn(T) -> T,
)
    ensures
        ({
            let (c1, a) = pawned(v, temp_a);
            let (c2, b) = pawned(c1, temp_b);
            let c3 = released(c2, g(b));
            let c4 = released(c3, f(a));
            b == temp_a && c4 == f(v)
        }),
{
}

/// Accounting for pawning: no value is lost or duplicated — afterwards the
/// cell and the new ticket together hold exactly the placeholder and the
/// previous contents, each owned once.
pub proof fn lemma_pawn_accounting<T>(v: T, temp: T)
    ensures
        Multiset::empty().insert(pawned(v, temp).0).insert(pawned(v, temp).1)
            =~= Multiset::empty().insert(v).insert(temp),
{
}

/// Accounting for release: the cell afterwards holds exactly the ticket's
/// value, and exactly the displaced cell contents is discarded — nothing is
/// lost or duplicated.
pub proof fn lemma_release_accounting<T>(contents: T, ticket: T)
    ensures
        Multiset::empty().insert(released(contents, ticket)).insert(contents)
            =~= Multiset::empty().insert(ticket).insert(contents),
{
}

} // verus!
