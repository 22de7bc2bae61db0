//! Assigning the pages of a document to page types.

use crate::config::Config;
use crate::instances::{ConcretePageType, ConcretePageTypeIdentifiers};
use std::sync::Arc;
use vstd::prelude::*;
use vstd::string::*;

verus! {

/// Why a classification could not go on.
#[derive(Debug, Clone, Copy, PartialEq, Eq, Structural)]
pub enum ClassiferError {
    /// The configuration names no page type that is found by classification,
    /// so there is nothing to look for.
    NoKeysProvided,
}

impl ClassiferError {
    /// The text that describes the error to a reader.
    pub open spec fn text(self) -> Seq<char> {
        match self {
            ClassiferError::NoKeysProvided => "No key objects were provided!"@,
        }
    }

    /// The text that describes the error to a reader.
    pub fn message(&self) -> (text: String)
        ensures
            text@ == self.text(),
    {
        match self {
            ClassiferError::NoKeysProvided => String::from_str("No key objects were provided!"),
        }
    }
}

/// Whether one of `types` is a key page.
pub open spec fn names_key_page(types: Seq<Arc<ConcretePageType>>) -> bool {
    exists|i: int|
        0 <= i < types.len() && (#[trigger] types[i]).role() == ConcretePageTypeIdentifiers::Key
}

/// Walks a document and assigns its pages to the page types of a
/// configuration.
pub struct Classifier {
    pub config: Config,
    /// Where the document is.
    pub path: String,
    /// The number of pages classified so far.
    pub pages: i32,
}

impl Classifier {
    /// A classifier for the document at `path` that has classified nothing
    /// yet.
    pub fn new(config: Config, path: String) -> (classifier: Classifier)
        ensures
            classifier.config == config,
            classifier.path == path,
            classifier.pages == 0,
    {
        Classifier { config, path, pages: 0 }
    }

    /// Starts the classification. There is nothing to prepare, so this
    /// succeeds.
    pub fn begin(&self) -> (started: Result<(), ClassiferError>)
        ensures
            started is Ok,
    {
        Ok(())
    }

    /// Classifies the chunk of pages that starts at `start_page`: the pages
    /// from one key page to the next. Without a key page type in the
    /// configuration there is no chunk to find.
    pub fn classify_chunk(&self, start_page: i32) -> (classified: Result<(), ClassiferError>)
        ensures
            classified is Ok <==> names_key_page(self.config.types@),
            classified matches Err(e) ==> e == ClassiferError::NoKeysProvided,
    {
        let mut i: usize = 0;
        while i < self.config.types.len()
            invariant
                i <= self.config.types.len(),
                forall|k: int|
                    0 <= k < i ==> (#[trigger] self.config.types@[k]).role()
                        != ConcretePageTypeIdentifiers::Key,
            decreases self.config.types.len() - i,
        {
            match self.config.types[i].identifier() {
                ConcretePageTypeIdentifiers::Key => {
                    return Ok(());
                },
                _ => {},
            }
            i += 1;
        }
        Err(ClassiferError::NoKeysProvided)
    }
}

} // verus!
