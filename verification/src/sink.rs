//! What goes to the result sink of a run, and how.
//!
//! The sink is the channel on which the caller of a run learns how each page
//! ended. The channel itself is the caller's; a page task says what to put
//! into it ([`PageReport`]) and how hard to try ([`Delivery`]).

use crate::error::{Failure, PageRenderError};
use vstd::prelude::*;

verus! {

/// How a report is handed to the result sink.
#[derive(Debug, Clone, Copy, PartialEq, Eq, Structural)]
pub enum Delivery {
    /// The outcome of a task that ran: the sender waits for room in the sink.
    Blocking,
    /// A diagnostic from scheduling: sent if the sink takes it, dropped
    /// otherwise.
    BestEffort,
}

/// How one page ended.
#[derive(Debug, PartialEq, Eq)]
pub struct PageReport {
    pub page: i32,
    pub outcome: Result<(), PageRenderError>,
}

/// A [`PageReport`] with its failure as a [`Failure`].
pub struct PageReportView {
    pub page: i32,
    pub outcome: Result<(), Failure>,
}

impl View for PageReport {
    type V = PageReportView;

    open spec fn view(&self) -> PageReportView {
        PageReportView {
            page: self.page,
            outcome: match self.outcome {
                Ok(_) => Ok(()),
                Err(e) => Err(e@),
            },
        }
    }
}

} // verus!
