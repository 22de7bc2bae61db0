//! The life of one page: its private handles are cloned, a worker renders it
//! and hands the image to the caller, the handles go back to the backend, and
//! one report says how it ended.
//!
//! A [`PageTask`] does none of this itself. It is told what happened
//! ([`TaskEvent`]) and answers with what to do next ([`TaskAction`]), so the
//! native calls, the worker thread and the result sink stay with the caller
//! while the order of the steps, and the release of the handles on every path,
//! are decided here.
//!
//! The task is the guard of its handles: it holds their addresses from the
//! moment the backend gives them, and whichever way it ends, the step that
//! ends it asks for their release.

use crate::error::{render_failure, Failure, PageRenderError};
use crate::handle::{HandlePair, ABSENT};
use crate::session::ReleaseCall;
use crate::sink::{Delivery, PageReport, PageReportView};
use vstd::prelude::*;
use vstd::string::*;

verus! {

/// How often the backend's rendering cache is flushed: after every page whose
/// index is a multiple of this.
pub const FLUSH_INTERVAL: i32 = 10;

/// A rendered page as the backend returns it: a native buffer and its shape.
#[derive(Debug, Clone, Copy, PartialEq, Eq, Structural)]
pub struct RenderedImage {
    pub data: usize,
    pub size: usize,
    pub width: i32,
    pub height: i32,
    pub channels: i32,
}

/// Where a page task stands.
#[derive(Debug, Clone, Copy, PartialEq, Eq, Structural)]
pub enum TaskPhase {
    /// Nothing has been asked of the backend.
    Pending,
    /// The backend was asked to clone the base context.
    CloningContext,
    /// The task owns a context; the backend was asked to open the document in
    /// it.
    CloningDocument { ctx_addr: usize },
    /// The task owns its handles and waits for a worker.
    Ready { handles: HandlePair },
    /// The worker asked the backend to render the page.
    Rendering { handles: HandlePair },
    /// The caller's callback is looking at the image.
    InCallback { handles: HandlePair, image: RenderedImage },
    /// The task owns nothing and has reported.
    Done,
}

/// What happened to a page task.
#[derive(Debug)]
pub enum TaskEvent {
    /// The scheduler picked the page; `base_ctx` is the session's base
    /// context, [`ABSENT`] if it has none.
    Start { base_ctx: usize },
    /// The backend answered the request to clone the base context.
    ContextCloned(Result<usize, String>),
    /// The backend answered the request to open the document in the cloned
    /// context.
    DocumentCloned(Result<usize, String>),
    /// A worker thread took the task.
    WorkerStarted,
    /// The backend answered the request to render.
    Rendered(Result<RenderedImage, String>),
    /// The caller's callback returned.
    CallbackReturned,
    /// The worker failed internally; the text says how.
    WorkerFault(String),
}

/// A [`TaskEvent`] with its texts as character sequences.
pub enum TaskEventView {
    Start { base_ctx: usize },
    ContextCloned(Result<usize, Seq<char>>),
    DocumentCloned(Result<usize, Seq<char>>),
    WorkerStarted,
    Rendered(Result<RenderedImage, Seq<char>>),
    CallbackReturned,
    WorkerFault(Seq<char>),
}

impl View for TaskEvent {
    type V = TaskEventView;

    open spec fn view(&self) -> TaskEventView {
        match self {
            TaskEvent::Start { base_ctx } => TaskEventView::Start { base_ctx: *base_ctx },
            TaskEvent::ContextCloned(r) => TaskEventView::ContextCloned(
                match r {
                    Ok(a) => Ok(*a),
                    Err(m) => Err(m@),
                },
            ),
            TaskEvent::DocumentCloned(r) => TaskEventView::DocumentCloned(
                match r {
                    Ok(a) => Ok(*a),
                    Err(m) => Err(m@),
                },
            ),
            TaskEvent::WorkerStarted => TaskEventView::WorkerStarted,
            TaskEvent::Rendered(r) => TaskEventView::Rendered(
                match r {
                    Ok(i) => Ok(*i),
                    Err(m) => Err(m@),
                },
            ),
            TaskEvent::CallbackReturned => TaskEventView::CallbackReturned,
            TaskEvent::WorkerFault(m) => TaskEventView::WorkerFault(m@),
        }
    }
}

/// What the caller is to do for a page task, in the order given.
#[derive(Debug, PartialEq, Eq)]
pub enum TaskAction {
    /// Ask the backend for a clone of the base context.
    CloneContext { base_ctx: usize },
    /// Ask the backend to open the document in the task's context.
    CloneDocument { ctx_addr: usize },
    /// Hand the task to a worker thread.
    Spawn,
    /// Ask the backend to render the page with the task's handles.
    Render { page: i32, handles: HandlePair },
    /// Show the image to the caller's callback.
    InvokeCallback { page: i32, image: RenderedImage },
    /// Give the image buffer back to the backend.
    FreeImage { data: usize },
    /// Ask the backend to flush the rendering cache of the task's context.
    FlushCache { ctx_addr: usize },
    /// Give the task's handles back to the backend.
    Release(ReleaseCall),
    /// Tell the result sink how the page ended.
    Report { report: PageReport, delivery: Delivery },
}

/// A [`TaskAction`] with its report as a [`PageReportView`].
pub enum TaskActionView {
    CloneContext { base_ctx: usize },
    CloneDocument { ctx_addr: usize },
    Spawn,
    Render { page: i32, handles: HandlePair },
    InvokeCallback { page: i32, image: RenderedImage },
    FreeImage { data: usize },
    FlushCache { ctx_addr: usize },
    Release(ReleaseCall),
    Report { report: PageReportView, delivery: Delivery },
}

impl View for TaskAction {
    type V = TaskActionView;

    open spec fn view(&self) -> TaskActionView {
        match self {
            TaskAction::CloneContext { base_ctx } => TaskActionView::CloneContext {
                base_ctx: *base_ctx,
            },
            TaskAction::CloneDocument { ctx_addr } => TaskActionView::CloneDocument {
                ctx_addr: *ctx_addr,
            },
            TaskAction::Spawn => TaskActionView::Spawn,
            TaskAction::Render { page, handles } => TaskActionView::Render {
                page: *page,
                handles: *handles,
            },
            TaskAction::InvokeCallback { page, image } => TaskActionView::InvokeCallback {
                page: *page,
                image: *image,
            },
            TaskAction::FreeImage { data } => TaskActionView::FreeImage { data: *data },
            TaskAction::FlushCache { ctx_addr } => TaskActionView::FlushCache {
                ctx_addr: *ctx_addr,
            },
            TaskAction::Release(call) => TaskActionView::Release(*call),
            TaskAction::Report { report, delivery } => TaskActionView::Report {
                report: report@,
                delivery: *delivery,
            },
        }
    }
}

/// The actions of a list, each by its view.
pub open spec fn action_views(actions: Seq<TaskAction>) -> Seq<TaskActionView> {
    Seq::new(actions.len(), |i: int| actions[i]@)
}

/// What a [`PageTask`] holds.
pub struct TaskView {
    pub page: i32,
    pub phase: TaskPhase,
}

/// The cleanup call for a pair of handles.
pub open spec fn release_of(handles: HandlePair) -> ReleaseCall {
    ReleaseCall { doc_addr: handles.doc_addr, ctx_addr: handles.ctx_addr }
}

/// The report of a failure, as a diagnostic or as a task's outcome.
pub open spec fn failure_report(page: i32, failure: Failure, delivery: Delivery) -> TaskActionView {
    TaskActionView::Report { report: PageReportView { page, outcome: Err(failure) }, delivery }
}

/// The report of a page that was rendered and shown to the callback.
pub open spec fn success_report(page: i32) -> TaskActionView {
    TaskActionView::Report {
        report: PageReportView { page, outcome: Ok(()) },
        delivery: Delivery::Blocking,
    }
}

/// Whether the cache is flushed after page `page`.
pub open spec fn flush_due(page: i32) -> bool {
    page as int % FLUSH_INTERVAL as int == 0
}

impl TaskView {
    /// The task with the same page in another phase.
    pub open spec fn at(self, phase: TaskPhase) -> TaskView {
        TaskView { page: self.page, phase }
    }

    /// The cleanup call that the task still owes the backend: one for the
    /// handles it owns, none while it owns none.
    pub open spec fn owes(self) -> Option<ReleaseCall> {
        match self.phase {
            TaskPhase::Pending => None,
            TaskPhase::CloningContext => None,
            TaskPhase::CloningDocument { ctx_addr } => if ctx_addr != ABSENT {
                Some(ReleaseCall { doc_addr: ABSENT, ctx_addr })
            } else {
                None
            },
            TaskPhase::Ready { handles } => if handles.holds_any() {
                Some(release_of(handles))
            } else {
                None
            },
            TaskPhase::Rendering { handles } => if handles.holds_any() {
                Some(release_of(handles))
            } else {
                None
            },
            TaskPhase::InCallback { handles, image } => if handles.holds_any() {
                Some(release_of(handles))
            } else {
                None
            },
            TaskPhase::Done => None,
        }
    }

    /// The actions that settle what the task owes: the cleanup call, if it
    /// owes one.
    pub open spec fn settle(self) -> Seq<TaskActionView> {
        match self.owes() {
            Some(call) => seq![TaskActionView::Release(call)],
            None => seq![],
        }
    }

    /// The task ends: whatever it owns is released, and `failure` is
    /// reported.
    pub open spec fn fail(self, failure: Failure, delivery: Delivery) -> (
        TaskView,
        Seq<TaskActionView>,
    ) {
        (
            self.at(TaskPhase::Done),
            self.settle().push(failure_report(self.page, failure, delivery)),
        )
    }

    /// The step on [`TaskEventView::Start`].
    pub open spec fn on_start(self, base_ctx: usize) -> (TaskView, Seq<TaskActionView>) {
        if base_ctx == ABSENT {
            self.fail(
                Failure::CloneContextFailure("Base context handle is null"@),
                Delivery::BestEffort,
            )
        } else {
            (self.at(TaskPhase::CloningContext), seq![TaskActionView::CloneContext { base_ctx }])
        }
    }

    /// The step on [`TaskEventView::ContextCloned`].
    pub open spec fn on_context_cloned(self, cloned: Result<usize, Seq<char>>) -> (
        TaskView,
        Seq<TaskActionView>,
    ) {
        match cloned {
            Err(what) => self.fail(
                Failure::CloneContextFailure("Failed to clone context: "@ + what),
                Delivery::BestEffort,
            ),
            Ok(ctx_addr) => if ctx_addr == ABSENT {
                self.fail(
                    Failure::CloneContextFailure("Cloned context is null"@),
                    Delivery::BestEffort,
                )
            } else {
                (
                    self.at(TaskPhase::CloningDocument { ctx_addr }),
                    seq![TaskActionView::CloneDocument { ctx_addr }],
                )
            },
        }
    }

    /// The step on [`TaskEventView::DocumentCloned`], for a task that owns
    /// the context at `ctx_addr`.
    pub open spec fn on_document_cloned(
        self,
        ctx_addr: usize,
        cloned: Result<usize, Seq<char>>,
    ) -> (TaskView, Seq<TaskActionView>) {
        match cloned {
            Err(what) => self.fail(
                Failure::CloneDocumentFailure("Failed to clone document: "@ + what),
                Delivery::BestEffort,
            ),
            Ok(doc_addr) => if doc_addr == ABSENT {
                self.fail(
                    Failure::CloneDocumentFailure("Cloned document is null"@),
                    Delivery::BestEffort,
                )
            } else {
                (
                    self.at(TaskPhase::Ready { handles: HandlePair { ctx_addr, doc_addr } }),
                    seq![TaskActionView::Spawn],
                )
            },
        }
    }

    /// The step on [`TaskEventView::WorkerStarted`], for a task with
    /// `handles`: they are checked before the backend sees them.
    pub open spec fn on_worker_started(self, handles: HandlePair) -> (
        TaskView,
        Seq<TaskActionView>,
    ) {
        if handles.ctx_addr == ABSENT {
            self.fail(Failure::InvalidContextHandle, Delivery::Blocking)
        } else if handles.doc_addr == ABSENT {
            self.fail(Failure::Unexpected("Document handle is null"@), Delivery::Blocking)
        } else {
            (
                self.at(TaskPhase::Rendering { handles }),
                seq![TaskActionView::Render { page: self.page, handles }],
            )
        }
    }

    /// The step on [`TaskEventView::Rendered`], for a task with `handles`.
    pub open spec fn on_rendered(
        self,
        handles: HandlePair,
        rendered: Result<RenderedImage, Seq<char>>,
    ) -> (TaskView, Seq<TaskActionView>) {
        match rendered {
            Err(msg) => self.fail(render_failure(self.page as int, msg), Delivery::Blocking),
            Ok(image) => (
                self.at(TaskPhase::InCallback { handles, image }),
                seq![TaskActionView::InvokeCallback { page: self.page, image }],
            ),
        }
    }

    /// The step on [`TaskEventView::CallbackReturned`], for a task with
    /// `handles` whose callback saw `image`: the buffer is freed, the cache
    /// is flushed if it is due, the handles are released and success is
    /// reported.
    pub open spec fn on_callback_returned(self, handles: HandlePair, image: RenderedImage) -> (
        TaskView,
        Seq<TaskActionView>,
    ) {
        let freed = seq![TaskActionView::FreeImage { data: image.data }];
        let flushed = if flush_due(self.page) {
            freed.push(TaskActionView::FlushCache { ctx_addr: handles.ctx_addr })
        } else {
            freed
        };
        (self.at(TaskPhase::Done), (flushed + self.settle()).push(success_report(self.page)))
    }

    /// The step on [`TaskEventView::WorkerFault`], for a task that a worker
    /// holds: an image that the callback was looking at is freed, the handles
    /// are released and the fault is reported.
    pub open spec fn on_worker_fault(self, detail: Seq<char>) -> (TaskView, Seq<TaskActionView>) {
        let freed: Seq<TaskActionView> = match self.phase {
            TaskPhase::InCallback { handles, image } => seq![
                TaskActionView::FreeImage { data: image.data },
            ],
            _ => seq![],
        };
        (
            self.at(TaskPhase::Done),
            (freed + self.settle()).push(
                failure_report(self.page, Failure::TaskPanicked(detail), Delivery::Blocking),
            ),
        )
    }

    /// The task after `event`, and what the caller is to do.
    ///
    /// An event that does not fit the phase changes nothing and asks for
    /// nothing. A task that is [`TaskPhase::Done`] stays so.
    pub open spec fn step(self, event: TaskEventView) -> (TaskView, Seq<TaskActionView>) {
        match (self.phase, event) {
            (TaskPhase::Pending, TaskEventView::Start { base_ctx }) => self.on_start(base_ctx),
            (TaskPhase::CloningContext, TaskEventView::ContextCloned(cloned)) => {
                self.on_context_cloned(cloned)
            },
            (TaskPhase::CloningDocument { ctx_addr }, TaskEventView::DocumentCloned(cloned)) => {
                self.on_document_cloned(ctx_addr, cloned)
            },
            (TaskPhase::Ready { handles }, TaskEventView::WorkerStarted) => {
                self.on_worker_started(handles)
            },
            (TaskPhase::Rendering { handles }, TaskEventView::Rendered(rendered)) => {
                self.on_rendered(handles, rendered)
            },
            (TaskPhase::InCallback { handles, image }, TaskEventView::CallbackReturned) => {
                self.on_callback_returned(handles, image)
            },
            (TaskPhase::Ready { handles }, TaskEventView::WorkerFault(detail)) => {
                self.on_worker_fault(detail)
            },
            (TaskPhase::Rendering { handles }, TaskEventView::WorkerFault(detail)) => {
                self.on_worker_fault(detail)
            },
            (TaskPhase::InCallback { handles, image }, TaskEventView::WorkerFault(detail)) => {
                self.on_worker_fault(detail)
            },
            _ => (self, seq![]),
        }
    }
}

/// The task for one page, between the scheduler and the backend.
#[derive(Debug)]
pub struct PageTask {
    page: i32,
    phase: TaskPhase,
}

impl View for PageTask {
    type V = TaskView;

    closed spec fn view(&self) -> TaskView {
        TaskView { page: self.page, phase: self.phase }
    }
}

impl PageTask {
    /// The task for page `page`, before anything was asked of the backend.
    pub fn new(page: i32) -> (task: PageTask)
        ensures
            task@ == (TaskView { page, phase: TaskPhase::Pending }),
    {
        PageTask { page, phase: TaskPhase::Pending }
    }

    /// The task for page `page` with handles that were cloned elsewhere,
    /// ready for a worker. The worker checks the handles before it uses them.
    pub fn spawn_page(page: i32, handles: HandlePair) -> (task: PageTask)
        ensures
            task@ == (TaskView { page, phase: TaskPhase::Ready { handles } }),
    {
        PageTask { page, phase: TaskPhase::Ready { handles } }
    }

    /// The page that the task is for.
    pub fn page(&self) -> (page: i32)
        ensures
            page == self@.page,
    {
        self.page
    }

    /// Where the task stands.
    pub fn phase(&self) -> (phase: TaskPhase)
        ensures
            phase == self@.phase,
    {
        self.phase
    }

    /// Whether the task has ended.
    pub fn is_done(&self) -> (done: bool)
        ensures
            done == (self@.phase is Done),
    {
        match self.phase {
            TaskPhase::Done => true,
            _ => false,
        }
    }

    /// The cleanup call that the task still owes the backend.
    pub fn owed_release(&self) -> (call: Option<ReleaseCall>)
        ensures
            call == self@.owes(),
    {
        match self.phase {
            TaskPhase::CloningDocument { ctx_addr } => {
                if ctx_addr != ABSENT {
                    Some(ReleaseCall { doc_addr: ABSENT, ctx_addr })
                } else {
                    None
                }
            },
            TaskPhase::Ready { handles } => Self::release_for(handles),
            TaskPhase::Rendering { handles } => Self::release_for(handles),
            TaskPhase::InCallback { handles, image } => Self::release_for(handles),
            _ => None,
        }
    }

    /// The cleanup call for `handles`, if they name anything.
    fn release_for(handles: HandlePair) -> (call: Option<ReleaseCall>)
        ensures
            call == (if handles.holds_any() {
                Some(release_of(handles))
            } else {
                None
            }),
    {
        if handles.has_any() {
            Some(ReleaseCall { doc_addr: handles.doc_addr, ctx_addr: handles.ctx_addr })
        } else {
            None
        }
    }

    /// Appends the cleanup call that the task owes, if any.
    fn settle(&self, actions: &mut Vec<TaskAction>)
        ensures
            action_views(final(actions)@) == action_views(old(actions)@) + self@.settle(),
    {
        match self.owed_release() {
            Some(call) => {
                actions.push(TaskAction::Release(call));
            },
            None => {},
        }
        assert(action_views(actions@) =~= action_views(old(actions)@) + self@.settle());
    }

    /// Ends the task: after the actions of `before`, what it owns is
    /// released and `outcome` is reported.
    fn finish(
        &mut self,
        before: Vec<TaskAction>,
        outcome: Result<(), PageRenderError>,
        delivery: Delivery,
    ) -> (actions: Vec<TaskAction>)
        ensures
            final(self)@ == old(self)@.at(TaskPhase::Done),
            action_views(actions@) == (action_views(before@) + old(self)@.settle()).push(
                TaskActionView::Report {
                    report: PageReportView {
                        page: old(self)@.page,
                        outcome: match outcome {
                            Ok(_) => Ok(()),
                            Err(e) => Err(e@),
                        },
                    },
                    delivery,
                },
            ),
    {
        let mut actions = before;
        self.settle(&mut actions);
        let ghost settled = action_views(actions@);
        let report = PageReport { page: self.page, outcome };
        actions.push(TaskAction::Report { report, delivery });
        self.phase = TaskPhase::Done;
        assert(action_views(actions@) =~= settled.push(actions@.last()@));
        actions
    }

    /// Ends the task with a failure.
    fn fail(&mut self, error: PageRenderError, delivery: Delivery) -> (actions: Vec<TaskAction>)
        ensures
            final(self)@ == old(self)@.fail(error@, delivery).0,
            action_views(actions@) == old(self)@.fail(error@, delivery).1,
    {
        let actions = self.finish(Vec::new(), Err(error), delivery);
        assert(action_views(Seq::<TaskAction>::empty()) + old(self)@.settle() =~= old(
            self,
        )@.settle());
        actions
    }

    /// Moves the task to `phase` and asks for `action`.
    fn advance(&mut self, phase: TaskPhase, action: TaskAction) -> (actions: Vec<TaskAction>)
        ensures
            final(self)@ == old(self)@.at(phase),
            action_views(actions@) == seq![action@],
    {
        self.phase = phase;
        let mut actions = Vec::new();
        actions.push(action);
        assert(action_views(actions@) =~= seq![action@]);
        actions
    }

    /// Tells the task what happened and returns what to do next, in order.
    ///
    /// The caller performs each action before it reports the next event. An
    /// event that does not fit the task's phase is ignored: the task stays as
    /// it is and nothing is asked for.
    pub fn step(&mut self, event: TaskEvent) -> (actions: Vec<TaskAction>)
        ensures
            final(self)@ == old(self)@.step(event@).0,
            action_views(actions@) == old(self)@.step(event@).1,
    {
        let phase = self.phase;
        match (phase, event) {
            (TaskPhase::Pending, TaskEvent::Start { base_ctx }) => {
                if base_ctx == ABSENT {
                    self.fail(
                        PageRenderError::CloneContextFailure(
                            String::from_str("Base context handle is null"),
                        ),
                        Delivery::BestEffort,
                    )
                } else {
                    self.advance(TaskPhase::CloningContext, TaskAction::CloneContext { base_ctx })
                }
            },
            (TaskPhase::CloningContext, TaskEvent::ContextCloned(cloned)) => {
                match cloned {
                    Err(what) => {
                        let detail = String::from_str("Failed to clone context: ").concat(
                            what.as_str(),
                        );
                        self.fail(
                            PageRenderError::CloneContextFailure(detail),
                            Delivery::BestEffort,
                        )
                    },
                    Ok(ctx_addr) => {
                        if ctx_addr == ABSENT {
                            self.fail(
                                PageRenderError::CloneContextFailure(
                                    String::from_str("Cloned context is null"),
                                ),
                                Delivery::BestEffort,
                            )
                        } else {
                            self.advance(
                                TaskPhase::CloningDocument { ctx_addr },
                                TaskAction::CloneDocument { ctx_addr },
                            )
                        }
                    },
                }
            },
            (TaskPhase::CloningDocument { ctx_addr }, TaskEvent::DocumentCloned(cloned)) => {
                match cloned {
                    Err(what) => {
                        let detail = String::from_str("Failed to clone document: ").concat(
                            what.as_str(),
                        );
                        self.fail(
                            PageRenderError::CloneDocumentFailure(detail),
                            Delivery::BestEffort,
                        )
                    },
                    Ok(doc_addr) => {
                        if doc_addr == ABSENT {
                            self.fail(
                                PageRenderError::CloneDocumentFailure(
                                    String::from_str("Cloned document is null"),
                                ),
                                Delivery::BestEffort,
                            )
                        } else {
                            self.advance(
                                TaskPhase::Ready { handles: HandlePair { ctx_addr, doc_addr } },
                                TaskAction::Spawn,
                            )
                        }
                    },
                }
            },
            (TaskPhase::Ready { handles }, TaskEvent::WorkerStarted) => {
                if handles.ctx_addr == ABSENT {
                    self.fail(PageRenderError::InvalidContextHandle, Delivery::Blocking)
                } else if handles.doc_addr == ABSENT {
                    self.fail(
                        PageRenderError::Unexpected(String::from_str("Document handle is null")),
                        Delivery::Blocking,
                    )
                } else {
                    let page = self.page;
                    self.advance(
                        TaskPhase::Rendering { handles },
                        TaskAction::Render { page, handles },
                    )
                }
            },
            (TaskPhase::Rendering { handles }, TaskEvent::Rendered(rendered)) => {
                match rendered {
                    Err(msg) => {
                        let error = PageRenderError::from_render_failure(self.page, msg.as_str());
                        self.fail(error, Delivery::Blocking)
                    },
                    Ok(image) => {
                        let page = self.page;
                        self.advance(
                            TaskPhase::InCallback { handles, image },
                            TaskAction::InvokeCallback { page, image },
                        )
                    },
                }
            },
            (TaskPhase::InCallback { handles, image }, TaskEvent::CallbackReturned) => {
                let mut before: Vec<TaskAction> = Vec::new();
                before.push(TaskAction::FreeImage { data: image.data });
                if self.page % FLUSH_INTERVAL == 0 {
                    before.push(TaskAction::FlushCache { ctx_addr: handles.ctx_addr });
                }
                assert(action_views(before@) =~= (if flush_due(self.page) {
                    seq![TaskActionView::FreeImage { data: image.data }].push(
                        TaskActionView::FlushCache { ctx_addr: handles.ctx_addr },
                    )
                } else {
                    seq![TaskActionView::FreeImage { data: image.data }]
                }));
                self.finish(before, Ok(()), Delivery::Blocking)
            },
            (TaskPhase::Ready { handles }, TaskEvent::WorkerFault(detail)) => {
                self.fault(detail)
            },
            (TaskPhase::Rendering { handles }, TaskEvent::WorkerFault(detail)) => {
                self.fault(detail)
            },
            (TaskPhase::InCallback { handles, image }, TaskEvent::WorkerFault(detail)) => {
                self.fault(detail)
            },
            _ => {
                let actions: Vec<TaskAction> = Vec::new();
                assert(action_views(actions@) =~= Seq::<TaskActionView>::empty());
                actions
            },
        }
    }

    /// Ends a task whose worker failed.
    fn fault(&mut self, detail: String) -> (actions: Vec<TaskAction>)
        ensures
            final(self)@ == old(self)@.on_worker_fault(detail@).0,
            action_views(actions@) == old(self)@.on_worker_fault(detail@).1,
    {
        let mut before: Vec<TaskAction> = Vec::new();
        match self.phase {
            TaskPhase::InCallback { handles, image } => {
                before.push(TaskAction::FreeImage { data: image.data });
            },
            _ => {},
        }
        assert(action_views(before@) =~= (match self@.phase {
            TaskPhase::InCallback { handles, image } => seq![
                TaskActionView::FreeImage { data: image.data },
            ],
            _ => seq![],
        }));
        self.finish(before, Err(PageRenderError::TaskPanicked(detail)), Delivery::Blocking)
    }
}

} // verus!
