//! The link between the two halves of a pair.
//!
//! Each half of a pair refers to the other, and neither keeps the other
//! alive: the reference is a weak one. Verus does not look inside it. What it
//! refers to is named by [`link_target`], and the four functions at the end of
//! this file are the only places where weak references are made, copied and
//! followed. Their contracts are taken on trust from the standard library's
//! documentation.

use crate::instances::ConcretePair;
use std::sync::{Arc, Weak};
use vstd::prelude::*;

verus! {

/// A reference to a half of a pair that does not keep the half alive.
///
/// This holds a `Weak` of the standard library, whose declaration the
/// verifier does not take; the verifier sees a value that it cannot look
/// into.
#[verifier::external_body]
pub struct PairLink {
    weak: Weak<ConcretePair>,
}

/// The half that a link refers to: the one that the link was made for. A
/// half does not change once it is shared, so this is fixed when the link is
/// made; whether the half is still alive is another matter, and has no name.
pub uninterp spec fn link_target(link: PairLink) -> ConcretePair;

impl ConcretePair {
    /// `bound` is `self` bound to `partner`: the same place, patterns and
    /// object, and a link that refers to `partner`.
    pub open spec fn is_bound_as(self, partner: ConcretePair, bound: ConcretePair) -> bool {
        &&& bound.sequence == self.sequence
        &&& bound.patterns == self.patterns
        &&& bound.inner == self.inner
        &&& bound.pair matches Some(link)
        &&& link_target(link) == partner
    }

    /// The two halves of a pair, from two halves that are not bound yet and
    /// a link to where the first will be: the last half, shared and bound by
    /// that link, and the first half, bound to the last by a new link.
    pub fn facing(first: ConcretePair, last: ConcretePair, to_first: PairLink) -> (made: (
        ConcretePair,
        Arc<ConcretePair>,
    ))
        ensures
            *made.1 == (ConcretePair { pair: Some(to_first), ..last }),
            first.is_bound_as(*made.1, made.0),
    {
        let second = Arc::new(
            ConcretePair {
                sequence: last.sequence,
                patterns: last.patterns,
                inner: last.inner,
                pair: Some(to_first),
            },
        );
        let bound = ConcretePair {
            sequence: first.sequence,
            patterns: first.patterns,
            inner: first.inner,
            pair: Some(weaken(&second)),
        };
        (bound, second)
    }
}

/// A link to `half`.
///
/// This is `Arc::downgrade`, which makes a weak pointer to the allocation of
/// its argument: the contract claims that the link refers to that half.
#[verifier::external_body]
pub(crate) fn weaken(half: &Arc<ConcretePair>) -> (link: PairLink)
    ensures
        link_target(link) == **half,
{
    PairLink { weak: Arc::downgrade(half) }
}

/// Another link to the same half.
///
/// This is `Weak::clone`, which makes a weak pointer to the same allocation:
/// the contract claims that the copy stands for the same link.
#[verifier::external_body]
pub(crate) fn copy_link(link: &PairLink) -> (copy: PairLink)
    ensures
        copy == *link,
{
    PairLink { weak: Weak::clone(&link.weak) }
}

/// The half that `link` refers to, if it is still alive.
///
/// This is `Weak::upgrade`, which returns the allocation that the weak
/// pointer refers to, or nothing once its last owner has let go of it. What
/// comes back depends on what the owners did, so the contract claims nothing
/// of whether a half comes back, only that a half that does is the one the
/// link refers to.
#[verifier::external_body]
pub(crate) fn upgrade(link: &PairLink) -> (half: Option<Arc<ConcretePair>>)
    ensures
        half matches Some(found) ==> *found == link_target(*link),
{
    link.weak.upgrade()
}

/// Shares two halves that refer to each other: `first` bound to `last`, and
/// `last` bound to `first`.
///
/// This is `Arc::new_cyclic`, which hands the closure a weak pointer to the
/// allocation it is about to fill with what the closure returns. The closure
/// calls [`ConcretePair::facing`] with that pointer. The contract claims what
/// follows from the contract of `facing` once the pointer refers to the
/// first half: each half is the unbound half it was made from, bound to the
/// other.
#[verifier::external_body]
pub(crate) fn tie(first: ConcretePair, last: ConcretePair) -> (halves: (
    Arc<ConcretePair>,
    Arc<ConcretePair>,
))
    ensures
        first.is_bound_as(*halves.1, *halves.0),
        last.is_bound_as(*halves.0, *halves.1),
{
    let mut second = None;
    let one = Arc::new_cyclic(
        |to_one| {
            let made = ConcretePair::facing(first, last, PairLink { weak: Weak::clone(to_one) });
            second = Some(made.1);
            made.0
        },
    );
    (one, second.unwrap())
}

} // verus!
