//! The state that the callback of a run shares between pages.

use vstd::prelude::*;

verus! {

/// The document as the callback sees it.
#[derive(Clone, Copy)]
struct Doc;

/// What every invocation of the callback can reach. The invocations run on
/// different workers; the callback takes the lock around the state before it
/// changes anything.
pub struct State {
    doc: Doc,
}

} // verus!
