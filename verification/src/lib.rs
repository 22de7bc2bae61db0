//! Rendering the pages of a document with a native backend, and describing
//! the structure of the document's pages.
//!
//! # Scheduling
//!
//! A run renders every page of a document on a pool of workers. This crate
//! holds the decisions of a run and leaves the doing to its caller: the
//! caller owns the event loop, the worker threads, the channels and the
//! native backend, tells the crate what happened, and does what the crate
//! answers.
//!
//! * [`policy`] sizes the pool from the host's parallelism.
//! * [`session`] is the open document: its page count and its base handles.
//! * [`handle`] guards native handles, so that each is released once.
//! * [`orchestrator`] is the scheduler: which pages start, and when the run
//!   ends. [`orchestrator_laws`] says what holds of every run.
//! * [`task`] is the life of one page, from the cloning of its handles to
//!   the message that says how it ended. [`task_laws`] says what holds of
//!   every task.
//! * [`sink`] is what the caller learns of each page, and how.
//! * [`state`] is what the caller's callback shares between pages.
//! * [`error`] holds the failures of a page and the classification of the
//!   backend's messages.
//! * [`text`] is the reasoning about characters that the classification
//!   needs.
//!
//! # Structure
//!
//! A document's pages are of types: chapters, tables, diagrams. The types
//! know their parents, their children and their pairs.
//!
//! * [`traits`] is how a page type describes itself.
//! * [`attribute`] is what the arguments of a page type's declaration mean.
//! * [`instances`] holds the page types at run time.
//! * [`link`] is how the halves of a pair refer to each other.
//! * [`cache`] remembers the page types that were built.
//! * [`builder`] builds them, each once.
//! * [`root`] is the document's root and its children.
//! * [`config`] and [`classifier`] configure and start a classification.

pub mod attribute;
pub mod builder;
pub mod cache;
pub mod classifier;
pub mod config;
pub mod error;
pub mod handle;
pub mod instances;
pub mod link;
pub mod orchestrator;
pub mod orchestrator_laws;
pub mod policy;
pub mod root;
pub mod session;
pub mod sink;
pub mod state;
pub mod task;
pub mod task_laws;
pub mod text;
pub mod traits;
