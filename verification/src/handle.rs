//! Native handles and their release.
//!
//! The backend identifies a resource by an address and expects it back
//! exactly once. A [`NativeHandle`] couples the address with the fact of its
//! release, so that asking twice yields the address once.

use vstd::prelude::*;

verus! {

/// The address that stands for "no resource".
pub const ABSENT: usize = 0;

/// What a [`NativeHandle`] holds.
pub struct HandleView {
    pub addr: usize,
    pub released: bool,
}

impl HandleView {
    /// The handle names a resource that the backend still holds for us.
    pub open spec fn is_live(self) -> bool {
        self.addr != ABSENT && !self.released
    }

    /// The address to give the backend where this handle is meant: the
    /// resource's address while it is live, [`ABSENT`] otherwise.
    pub open spec fn lend(self) -> usize {
        if self.is_live() {
            self.addr
        } else {
            ABSENT
        }
    }

    /// The handle after its release, and the address that the release
    /// yields: the resource's, if the handle was live.
    pub open spec fn release(self) -> (HandleView, Option<usize>) {
        (
            HandleView { addr: self.addr, released: true },
            if self.is_live() {
                Some(self.addr)
            } else {
                None
            },
        )
    }
}

/// An address of a backend resource, with the record of its release.
#[derive(Debug)]
pub struct NativeHandle {
    addr: usize,
    released: bool,
}

impl View for NativeHandle {
    type V = HandleView;

    closed spec fn view(&self) -> HandleView {
        HandleView { addr: self.addr, released: self.released }
    }
}

impl NativeHandle {
    /// Takes charge of the resource at `addr`; [`ABSENT`] gives a handle to
    /// nothing.
    pub fn new(addr: usize) -> (handle: NativeHandle)
        ensures
            handle@ == (HandleView { addr, released: false }),
    {
        NativeHandle { addr, released: false }
    }

    /// A handle to nothing.
    pub fn absent() -> (handle: NativeHandle)
        ensures
            handle@ == (HandleView { addr: ABSENT, released: false }),
    {
        NativeHandle { addr: ABSENT, released: false }
    }

    /// Whether the handle names a resource that is still to be released.
    pub fn is_live(&self) -> (live: bool)
        ensures
            live == self@.is_live(),
    {
        self.addr != ABSENT && !self.released
    }

    /// Whether the handle names no resource, or one that was released.
    pub fn is_null(&self) -> (null: bool)
        ensures
            null == !self@.is_live(),
    {
        !self.is_live()
    }

    /// The address to give the backend for a call that only reads the
    /// resource: [`ABSENT`] unless the handle is live.
    pub fn lend(&self) -> (addr: usize)
        ensures
            addr == self@.lend(),
    {
        if self.is_live() {
            self.addr
        } else {
            ABSENT
        }
    }

    /// Gives up the resource. The address comes back the first time this is
    /// called on a live handle, and never again.
    pub fn release(&mut self) -> (addr: Option<usize>)
        ensures
            (final(self)@, addr) == old(self)@.release(),
    {
        let live = self.is_live();
        self.released = true;
        if live {
            Some(self.addr)
        } else {
            None
        }
    }
}

/// The private handles of one page task: a context cloned from the
/// document's base context, and the document opened in it.
#[derive(Debug, Clone, Copy, PartialEq, Eq, Structural)]
pub struct HandlePair {
    pub ctx_addr: usize,
    pub doc_addr: usize,
}

impl HandlePair {
    /// Whether the pair names at least one resource.
    pub open spec fn holds_any(self) -> bool {
        self.ctx_addr != ABSENT || self.doc_addr != ABSENT
    }

    /// Whether the pair names at least one resource.
    pub fn has_any(&self) -> (any: bool)
        ensures
            any == self.holds_any(),
    {
        self.ctx_addr != ABSENT || self.doc_addr != ABSENT
    }
}

/// Releasing yields an address at most once: whatever the handle, a second
/// release yields nothing, and so does every read of it afterwards.
pub proof fn lemma_release_once(handle: HandleView)
    ensures
        handle.release().0.release().1 is None,
        handle.release().0.release().0 == handle.release().0,
        handle.release().0.lend() == ABSENT,
        handle.release().1 is Some <==> handle.is_live(),
{
}

} // verus!
