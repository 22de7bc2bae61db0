//! The open document: where it is, how many pages it has, and the base
//! handles from which every page task clones its own.

use crate::error::{Failure, PageRenderError};
use crate::handle::{HandleView, NativeHandle, ABSENT};
use vstd::prelude::*;

verus! {

/// What the backend hands back when it has opened a document.
#[derive(Debug, Clone, Copy, PartialEq, Eq, Structural)]
pub struct DocumentInit {
    pub doc_handle: usize,
    pub ctx_handle: usize,
    pub page_count: i32,
}

/// One call of the backend's cleanup: the document first, then the context.
/// Either may be [`ABSENT`]; the backend accepts that.
#[derive(Debug, Clone, Copy, PartialEq, Eq, Structural)]
pub struct ReleaseCall {
    pub doc_addr: usize,
    pub ctx_addr: usize,
}

/// An open document.
///
/// The base handles are only ever lent for cloning; they are given back to
/// the backend once, by [`Extractor::close`].
#[derive(Debug)]
pub struct Extractor {
    pub doc_path: String,
    pub page_count: i32,
    doc_handle: NativeHandle,
    ctx_handle: NativeHandle,
}

/// What an [`Extractor`] holds.
pub struct ExtractorView {
    pub doc_path: Seq<char>,
    pub page_count: int,
    pub doc_handle: HandleView,
    pub ctx_handle: HandleView,
}

impl ExtractorView {
    /// The session right after the backend opened the document.
    pub open spec fn opened(doc_path: Seq<char>, init: DocumentInit) -> ExtractorView {
        ExtractorView {
            doc_path,
            page_count: init.page_count as int,
            doc_handle: HandleView { addr: init.doc_handle, released: false },
            ctx_handle: HandleView { addr: init.ctx_handle, released: false },
        }
    }

    /// The number of pages that a run schedules: the page count, or none if
    /// the backend reported a negative one.
    pub open spec fn page_total(self) -> int {
        if self.page_count < 0 {
            0
        } else {
            self.page_count
        }
    }

    /// The session after [`Extractor::close`], and the cleanup call that the
    /// close asks for: none if no base handle is live.
    pub open spec fn close(self) -> (ExtractorView, Option<ReleaseCall>) {
        (
            ExtractorView {
                doc_handle: self.doc_handle.release().0,
                ctx_handle: self.ctx_handle.release().0,
                ..self
            },
            if self.doc_handle.is_live() || self.ctx_handle.is_live() {
                Some(
                    ReleaseCall {
                        doc_addr: self.doc_handle.lend(),
                        ctx_addr: self.ctx_handle.lend(),
                    },
                )
            } else {
                None
            },
        )
    }
}

impl View for Extractor {
    type V = ExtractorView;

    closed spec fn view(&self) -> ExtractorView {
        ExtractorView {
            doc_path: self.doc_path@,
            page_count: self.page_count as int,
            doc_handle: self.doc_handle@,
            ctx_handle: self.ctx_handle@,
        }
    }
}

impl Extractor {
    /// The session for the document at `doc_path`, from what the backend
    /// answered when asked to open it.
    ///
    /// The backend's refusal comes back as
    /// [`PageRenderError::InitializationFailure`] with the backend's message.
    pub fn new(doc_path: String, init: Result<DocumentInit, String>) -> (session: Result<
        Extractor,
        PageRenderError,
    >)
        ensures
            match init {
                Ok(opened) => session matches Ok(s) && s@ == ExtractorView::opened(
                    doc_path@,
                    opened,
                ),
                Err(message) => session matches Err(e) && e@ == Failure::InitializationFailure(
                    message@,
                ),
            },
    {
        match init {
            Ok(opened) => Ok(
                Extractor {
                    doc_path,
                    page_count: opened.page_count,
                    doc_handle: NativeHandle::new(opened.doc_handle),
                    ctx_handle: NativeHandle::new(opened.ctx_handle),
                },
            ),
            Err(message) => Err(PageRenderError::InitializationFailure(message)),
        }
    }

    /// Where the document is.
    pub fn doc_path(&self) -> (path: &str)
        ensures
            path@ == self@.doc_path,
    {
        self.doc_path.as_str()
    }

    /// The number of pages that the backend reported.
    pub fn page_count(&self) -> (count: i32)
        ensures
            count as int == self@.page_count,
    {
        self.page_count
    }

    /// The number of pages that a run schedules.
    pub fn page_total(&self) -> (total: i32)
        ensures
            total as int == self@.page_total(),
    {
        if self.page_count < 0 {
            0
        } else {
            self.page_count
        }
    }

    /// The base context to clone from: [`ABSENT`] once the session is closed
    /// or if the backend never gave one.
    pub fn base_context(&self) -> (addr: usize)
        ensures
            addr == self@.ctx_handle.lend(),
    {
        self.ctx_handle.lend()
    }

    /// The base document: [`ABSENT`] once the session is closed or if the
    /// backend never gave one.
    pub fn base_document(&self) -> (addr: usize)
        ensures
            addr == self@.doc_handle.lend(),
    {
        self.doc_handle.lend()
    }

    /// Ends the session. The first close of a session with a live base handle
    /// returns the one cleanup call to make; every other close returns
    /// nothing.
    pub fn close(&mut self) -> (call: Option<ReleaseCall>)
        ensures
            (final(self)@, call) == old(self)@.close(),
    {
        let doc = self.doc_handle.release();
        let ctx = self.ctx_handle.release();
        match (doc, ctx) {
            (None, None) => None,
            (Some(d), None) => Some(ReleaseCall { doc_addr: d, ctx_addr: ABSENT }),
            (None, Some(c)) => Some(ReleaseCall { doc_addr: ABSENT, ctx_addr: c }),
            (Some(d), Some(c)) => Some(ReleaseCall { doc_addr: d, ctx_addr: c }),
        }
    }
}

/// Closing is idempotent: a second close asks for no cleanup and changes
/// nothing, and a closed session lends no base handle.
pub proof fn lemma_close_once(session: ExtractorView)
    ensures
        session.close().0.close().1 is None,
        session.close().0.close().0 == session.close().0,
        session.close().0.ctx_handle.lend() == ABSENT,
        session.close().0.doc_handle.lend() == ABSENT,
{
}

} // verus!
