//! Why a page could not be rendered, and how backend messages map to that.

use crate::text::{contains_seq, decimal, decimal_string, str_contains, str_eq};
use vstd::prelude::*;
use vstd::string::*;

verus! {

/// The failure of one page, or of opening the document.
///
/// A variant with a `String` carries the detail that the backend or the
/// scheduler gave.
#[derive(Debug, PartialEq, Eq)]
pub enum PageRenderError {
    /// The backend could not open the document.
    InitializationFailure(String),
    /// The context handle given to the renderer was absent or invalid.
    InvalidContextHandle,
    /// An absent buffer reached the backend.
    NullBufferPassed,
    /// The page index is outside the document.
    PageDoesNotExist,
    /// The backend could not allocate the raster for the page.
    PixmapCreationFailure(String),
    /// The backend failed while rendering the page.
    RenderFailure(String),
    /// The backend found the document structurally invalid. This ends the
    /// task of the page on which it was found, and no other: whether the run
    /// goes on is for the caller to decide, who can stop it.
    CorruptionDetected(String),
    /// The page's private context could not be cloned.
    CloneContextFailure(String),
    /// The page's private document could not be cloned.
    CloneDocumentFailure(String),
    /// The worker that rendered the page failed internally.
    TaskPanicked(String),
    /// Anything else.
    Unexpected(String),
}

/// A [`PageRenderError`] with its details as character sequences.
pub enum Failure {
    InitializationFailure(Seq<char>),
    InvalidContextHandle,
    NullBufferPassed,
    PageDoesNotExist,
    PixmapCreationFailure(Seq<char>),
    RenderFailure(Seq<char>),
    CorruptionDetected(Seq<char>),
    CloneContextFailure(Seq<char>),
    CloneDocumentFailure(Seq<char>),
    TaskPanicked(Seq<char>),
    Unexpected(Seq<char>),
}

impl View for PageRenderError {
    type V = Failure;

    open spec fn view(&self) -> Failure {
        match self {
            PageRenderError::InitializationFailure(d) => Failure::InitializationFailure(d@),
            PageRenderError::InvalidContextHandle => Failure::InvalidContextHandle,
            PageRenderError::NullBufferPassed => Failure::NullBufferPassed,
            PageRenderError::PageDoesNotExist => Failure::PageDoesNotExist,
            PageRenderError::PixmapCreationFailure(d) => Failure::PixmapCreationFailure(d@),
            PageRenderError::RenderFailure(d) => Failure::RenderFailure(d@),
            PageRenderError::CorruptionDetected(d) => Failure::CorruptionDetected(d@),
            PageRenderError::CloneContextFailure(d) => Failure::CloneContextFailure(d@),
            PageRenderError::CloneDocumentFailure(d) => Failure::CloneDocumentFailure(d@),
            PageRenderError::TaskPanicked(d) => Failure::TaskPanicked(d@),
            PageRenderError::Unexpected(d) => Failure::Unexpected(d@),
        }
    }
}

/// The failure that a backend message stands for.
///
/// Three messages are recognised whole, one whole message stands for an
/// unknown pixmap failure, and two phrases are recognised anywhere in the
/// message. The tests apply in this order; what none of them recognises is
/// [`Failure::Unexpected`] with the message as its detail.
pub open spec fn classify_message(msg: Seq<char>) -> Failure {
    if msg == "Invalid context handle"@ {
        Failure::InvalidContextHandle
    } else if msg == "Passed nullptr for a buffer!"@ {
        Failure::NullBufferPassed
    } else if msg == "Attempted to access a page that doesn't exist within this document!"@ {
        Failure::PageDoesNotExist
    } else if msg == "Failed to create pixmap: Unknown error"@ {
        Failure::PixmapCreationFailure("Unknown Error!"@)
    } else if contains_seq(msg, "Failed to create pixmap:"@) {
        Failure::PixmapCreationFailure(msg)
    } else if contains_seq(msg, "Failed to render page"@) {
        Failure::RenderFailure(msg)
    } else {
        Failure::Unexpected(msg)
    }
}

/// Whether a backend message reports that the document itself is corrupt.
pub open spec fn reports_corruption(msg: Seq<char>) -> bool {
    ||| contains_seq(msg, "Document corruption detected"@)
    ||| contains_seq(msg, "corrupted and cannot be processed"@)
    ||| contains_seq(msg, "object out of range"@)
    ||| contains_seq(msg, "non-page object in page tree"@)
}

/// The detail of a corruption failure: the page and the backend's message.
pub open spec fn corruption_detail(page: int, msg: Seq<char>) -> Seq<char> {
    "Document corruption detected at page "@ + decimal(page) + ": "@ + msg
}

/// The failure of a page whose rendering the backend refused with `msg`.
///
/// Corruption is its own category, whatever else the message says; every
/// other message is classified by [`classify_message`].
pub open spec fn render_failure(page: int, msg: Seq<char>) -> Failure {
    if reports_corruption(msg) {
        Failure::CorruptionDetected(corruption_detail(page, msg))
    } else {
        classify_message(msg)
    }
}

/// The text that describes a failure to a reader.
pub open spec fn failure_text(failure: Failure) -> Seq<char> {
    match failure {
        Failure::InitializationFailure(d) => d,
        Failure::InvalidContextHandle => "Invalid context handle"@,
        Failure::NullBufferPassed => "Internally passed a nullptr for a buffer!"@,
        Failure::PageDoesNotExist => "Attempted to access a page that doesn't exist!"@,
        Failure::PixmapCreationFailure(d) => d,
        Failure::RenderFailure(d) => d,
        Failure::CorruptionDetected(d) => d,
        Failure::CloneContextFailure(d) => d,
        Failure::CloneDocumentFailure(d) => d,
        Failure::TaskPanicked(d) => "Task panicked: "@ + d,
        Failure::Unexpected(d) => "Passed an unexpected error! "@ + d,
    }
}

/// Whether a backend message reports that the document itself is corrupt.
pub fn is_corruption_message(msg: &str) -> (corrupt: bool)
    ensures
        corrupt == reports_corruption(msg@),
{
    str_contains(msg, "Document corruption detected")
        || str_contains(msg, "corrupted and cannot be processed")
        || str_contains(msg, "object out of range")
        || str_contains(msg, "non-page object in page tree")
}

impl PageRenderError {
    /// Classifies a backend message.
    pub fn from_message(value: &str) -> (error: PageRenderError)
        ensures
            error@ == classify_message(value@),
    {
        if str_eq(value, "Invalid context handle") {
            PageRenderError::InvalidContextHandle
        } else if str_eq(value, "Passed nullptr for a buffer!") {
            PageRenderError::NullBufferPassed
        } else if str_eq(
            value,
            "Attempted to access a page that doesn't exist within this document!",
        ) {
            PageRenderError::PageDoesNotExist
        } else if str_eq(value, "Failed to create pixmap: Unknown error") {
            PageRenderError::PixmapCreationFailure(String::from_str("Unknown Error!"))
        } else if str_contains(value, "Failed to create pixmap:") {
            PageRenderError::PixmapCreationFailure(String::from_str(value))
        } else if str_contains(value, "Failed to render page") {
            PageRenderError::RenderFailure(String::from_str(value))
        } else {
            PageRenderError::Unexpected(String::from_str(value))
        }
    }

    /// The failure of page `page`, whose rendering the backend refused with
    /// `msg`.
    pub fn from_render_failure(page: i32, msg: &str) -> (error: PageRenderError)
        ensures
            error@ == render_failure(page as int, msg@),
    {
        if is_corruption_message(msg) {
            let mut detail = String::from_str("Document corruption detected at page ");
            let number = decimal_string(page);
            detail.append(number.as_str());
            detail.append(": ");
            detail.append(msg);
            PageRenderError::CorruptionDetected(detail)
        } else {
            PageRenderError::from_message(msg)
        }
    }

    /// The text that describes this failure to a reader.
    pub fn message(&self) -> (text: String)
        ensures
            text@ == failure_text(self@),
    {
        match self {
            PageRenderError::InitializationFailure(d) => d.clone(),
            PageRenderError::InvalidContextHandle => String::from_str("Invalid context handle"),
            PageRenderError::NullBufferPassed => {
                String::from_str("Internally passed a nullptr for a buffer!")
            },
            PageRenderError::PageDoesNotExist => {
                String::from_str("Attempted to access a page that doesn't exist!")
            },
            PageRenderError::PixmapCreationFailure(d) => d.clone(),
            PageRenderError::RenderFailure(d) => d.clone(),
            PageRenderError::CorruptionDetected(d) => d.clone(),
            PageRenderError::CloneContextFailure(d) => d.clone(),
            PageRenderError::CloneDocumentFailure(d) => d.clone(),
            PageRenderError::TaskPanicked(d) => {
                String::from_str("Task panicked: ").concat(d.as_str())
            },
            PageRenderError::Unexpected(d) => {
                String::from_str("Passed an unexpected error! ").concat(d.as_str())
            },
        }
    }
}

impl Clone for PageRenderError {
    /// A copy with the same category and the same detail.
    fn clone(&self) -> (copy: PageRenderError)
        ensures
            copy@ == self@,
    {
        match self {
            PageRenderError::InitializationFailure(d) => PageRenderError::InitializationFailure(
                d.clone(),
            ),
            PageRenderError::InvalidContextHandle => PageRenderError::InvalidContextHandle,
            PageRenderError::NullBufferPassed => PageRenderError::NullBufferPassed,
            PageRenderError::PageDoesNotExist => PageRenderError::PageDoesNotExist,
            PageRenderError::PixmapCreationFailure(d) => PageRenderError::PixmapCreationFailure(
                d.clone(),
            ),
            PageRenderError::RenderFailure(d) => PageRenderError::RenderFailure(d.clone()),
            PageRenderError::CorruptionDetected(d) => PageRenderError::CorruptionDetected(
                d.clone(),
            ),
            PageRenderError::CloneContextFailure(d) => PageRenderError::CloneContextFailure(
                d.clone(),
            ),
            PageRenderError::CloneDocumentFailure(d) => PageRenderError::CloneDocumentFailure(
                d.clone(),
            ),
            PageRenderError::TaskPanicked(d) => PageRenderError::TaskPanicked(d.clone()),
            PageRenderError::Unexpected(d) => PageRenderError::Unexpected(d.clone()),
        }
    }
}

impl From<&str> for PageRenderError {
    /// Classifies a backend message, as [`PageRenderError::from_message`]
    /// does.
    fn from(value: &str) -> (error: PageRenderError)
        ensures
            error@ == classify_message(value@),
    {
        PageRenderError::from_message(value)
    }
}

/// The conversion is specified by what [`PageRenderError::from`] itself
/// ensures, which speaks of the characters of the detail. It makes no claim
/// through `from_spec`, which would have to name the very `String`.
impl vstd::std_specs::convert::FromSpecImpl<&str> for PageRenderError {
    open spec fn obeys_from_spec() -> bool {
        false
    }

    open spec fn from_spec(v: &str) -> PageRenderError {
        arbitrary()
    }
}

} // verus!
