//! What holds of every page task.
//!
//! The laws speak of [`TaskView::step`], which is what
//! [`PageTask::step`](crate::task::PageTask::step) computes, and of whole
//! runs: sequences of events told to a task one after the other, with all the
//! actions that the task asked for on the way.

use crate::error::Failure;
use crate::handle::ABSENT;
use crate::session::ReleaseCall;
use crate::sink::{Delivery, PageReportView};
use crate::task::{
    failure_report, flush_due, success_report, TaskActionView, TaskEventView, TaskPhase, TaskView,
};
use vstd::prelude::*;

verus! {

/// What a list of actions asks of the backend and tells the sink, as far as
/// the laws of a page task speak of it: the cleanup calls, the contexts whose
/// cache is flushed, and the reports, each in the order of the list.
pub struct Tally {
    pub releases: Seq<ReleaseCall>,
    pub flushes: Seq<usize>,
    pub reports: Seq<PageReportView>,
}

impl Tally {
    /// The tally of no actions.
    pub open spec fn empty() -> Tally {
        Tally { releases: seq![], flushes: seq![], reports: seq![] }
    }

    /// The tally after one more action.
    pub open spec fn note(self, action: TaskActionView) -> Tally {
        match action {
            TaskActionView::Release(call) => Tally {
                releases: self.releases.push(call),
                ..self
            },
            TaskActionView::FlushCache { ctx_addr } => Tally {
                flushes: self.flushes.push(ctx_addr),
                ..self
            },
            TaskActionView::Report { report, delivery } => Tally {
                reports: self.reports.push(report),
                ..self
            },
            _ => self,
        }
    }

    /// The tally of one list followed by another.
    pub open spec fn join(self, later: Tally) -> Tally {
        Tally {
            releases: self.releases + later.releases,
            flushes: self.flushes + later.flushes,
            reports: self.reports + later.reports,
        }
    }

    /// The tally of `trace`.
    pub open spec fn of(trace: Seq<TaskActionView>) -> Tally
        decreases trace.len(),
    {
        if trace.len() == 0 {
            Tally::empty()
        } else {
            Tally::of(trace.drop_last()).note(trace.last())
        }
    }
}

impl TaskView {
    /// The task after each of `events` in turn, and all that the caller was
    /// asked to do on the way.
    pub open spec fn run(self, events: Seq<TaskEventView>) -> (TaskView, Seq<TaskActionView>)
        decreases events.len(),
    {
        if events.len() == 0 {
            (self, seq![])
        } else {
            let (before, trace) = self.run(events.drop_last());
            let (after, actions) = before.step(events.last());
            (after, trace + actions)
        }
    }

    /// The cleanup call for the handles that the task owned last over a run:
    /// those it owns at the end or, once it has ended, those it owned when it
    /// ended. `None` if it never owned any.
    pub open spec fn acquired(self, events: Seq<TaskEventView>) -> Option<ReleaseCall>
        decreases events.len(),
    {
        if events.len() == 0 {
            self.owes()
        } else if self.run(events).0.owes() is Some {
            self.run(events).0.owes()
        } else {
            self.acquired(events.drop_last())
        }
    }

    /// Whether `event` tells the task that it gets no context of its own:
    /// the session has no base context to clone, the backend refused to
    /// clone it, or the clone is absent.
    pub open spec fn context_clone_fails(self, event: TaskEventView) -> bool {
        match (self.phase, event) {
            (TaskPhase::Pending, TaskEventView::Start { base_ctx }) => base_ctx == ABSENT,
            (TaskPhase::CloningContext, TaskEventView::ContextCloned(cloned)) => match cloned {
                Err(_) => true,
                Ok(ctx_addr) => ctx_addr == ABSENT,
            },
            _ => false,
        }
    }

    /// The cleanup calls that settle what the task owes.
    pub open spec fn settlement(self) -> Seq<ReleaseCall> {
        match self.owes() {
            Some(call) => seq![call],
            None => seq![],
        }
    }
}

/// The tally of a list with one more action.
pub proof fn lemma_tally_push(trace: Seq<TaskActionView>, action: TaskActionView)
    ensures
        Tally::of(trace.push(action)) == Tally::of(trace).note(action),
{
    assert(trace.push(action).drop_last() =~= trace);
}

/// The tally of two lists, one after the other, is the tallies joined.
pub proof fn lemma_tally_add(first: Seq<TaskActionView>, second: Seq<TaskActionView>)
    ensures
        Tally::of(first + second).releases == Tally::of(first).join(Tally::of(second)).releases,
        Tally::of(first + second).flushes == Tally::of(first).join(Tally::of(second)).flushes,
        Tally::of(first + second).reports == Tally::of(first).join(Tally::of(second)).reports,
    decreases second.len(),
{
    if second.len() == 0 {
        assert(first + second =~= first);
    } else {
        lemma_tally_add(first, second.drop_last());
        assert((first + second).drop_last() =~= first + second.drop_last());
        assert((first + second).last() == second.last());
    }
}

/// What one step asks for.
///
/// The handles are released in the step that ends the task, and in no other;
/// the same step reports, and no other does. The cache is flushed only when
/// the callback of a page whose index is a multiple of
/// [`FLUSH_INTERVAL`] returns, and then for the task's own context. A task
/// that has not ended still owns what it owned before.
pub proof fn lemma_step_tally(task: TaskView, event: TaskEventView)
    ensures
        ({
            let (after, actions) = task.step(event);
            let ends = after.phase is Done && !(task.phase is Done);
            let tally = Tally::of(actions);
            &&& after.page == task.page
            &&& task.phase is Done ==> after == task && actions == Seq::<TaskActionView>::empty()
            &&& tally.releases == (if ends {
                task.settlement()
            } else {
                seq![]
            })
            &&& tally.reports.len() == (if ends {
                1nat
            } else {
                0nat
            })
            &&& tally.flushes == (match (task.phase, event) {
                (
                    TaskPhase::InCallback { handles, image },
                    TaskEventView::CallbackReturned,
                ) => if flush_due(task.page) {
                    seq![handles.ctx_addr]
                } else {
                    seq![]
                },
                _ => seq![],
            })
            &&& forall|i: int|
                0 <= i < tally.reports.len() ==> (#[trigger] tally.reports[i]).page == task.page
            &&& forall|i: int|
                0 <= i < tally.reports.len() ==> ((#[trigger] tally.reports[i]).outcome is Ok
                    <==> task.phase is InCallback && event is CallbackReturned)
            &&& !(after.phase is Done) && task.owes() is Some ==> after.owes() is Some
        }),
{
    let (after, actions) = task.step(event);
    assert forall|failure: Failure, delivery: Delivery|
        {
            let ended = #[trigger] task.fail(failure, delivery).1;
            &&& Tally::of(ended).releases == task.settlement()
            &&& Tally::of(ended).flushes == Seq::<usize>::empty()
            &&& Tally::of(ended).reports == seq![
                PageReportView { page: task.page, outcome: Err(failure) },
            ]
        } by {
        lemma_settle_tally(task);
        lemma_tally_push(task.settle(), failure_report(task.page, failure, delivery));
    }
    match (task.phase, event) {
        (TaskPhase::Pending, TaskEventView::Start { base_ctx }) => {
            lemma_single_tally(TaskActionView::CloneContext { base_ctx });
        },
        (TaskPhase::CloningContext, TaskEventView::ContextCloned(cloned)) => {
            if let Ok(ctx_addr) = cloned {
                lemma_single_tally(TaskActionView::CloneDocument { ctx_addr });
            }
        },
        (TaskPhase::CloningDocument { ctx_addr }, TaskEventView::DocumentCloned(cloned)) => {
            lemma_single_tally(TaskActionView::Spawn);
        },
        (TaskPhase::Ready { handles }, TaskEventView::WorkerStarted) => {
            lemma_single_tally(TaskActionView::Render { page: task.page, handles });
        },
        (TaskPhase::Rendering { handles }, TaskEventView::Rendered(rendered)) => {
            if let Ok(image) = rendered {
                lemma_single_tally(TaskActionView::InvokeCallback { page: task.page, image });
            }
        },
        (TaskPhase::InCallback { handles, image }, TaskEventView::CallbackReturned) => {
            let freed = seq![TaskActionView::FreeImage { data: image.data }];
            let flush = TaskActionView::FlushCache { ctx_addr: handles.ctx_addr };
            let flushed = if flush_due(task.page) {
                freed.push(flush)
            } else {
                freed
            };
            lemma_single_tally(TaskActionView::FreeImage { data: image.data });
            lemma_tally_push(freed, flush);
            lemma_settle_tally(task);
            lemma_tally_add(flushed, task.settle());
            lemma_tally_push(flushed + task.settle(), success_report(task.page));
            assert(Tally::of(actions).releases =~= task.settlement());
            assert(Tally::of(actions).flushes =~= Tally::of(flushed).flushes);
            assert(Tally::of(actions).reports =~= seq![
                PageReportView { page: task.page, outcome: Ok(()) },
            ]);
        },
        (TaskPhase::Ready { handles }, TaskEventView::WorkerFault(detail)) => {
            lemma_fault_tally(task, detail);
        },
        (TaskPhase::Rendering { handles }, TaskEventView::WorkerFault(detail)) => {
            lemma_fault_tally(task, detail);
        },
        (TaskPhase::InCallback { handles, image }, TaskEventView::WorkerFault(detail)) => {
            lemma_fault_tally(task, detail);
        },
        _ => {},
    }
}

/// The tally of a single action.
proof fn lemma_single_tally(action: TaskActionView)
    ensures
        Tally::of(seq![action]) == Tally::empty().note(action),
{
    lemma_tally_push(seq![], action);
    assert(Seq::<TaskActionView>::empty().push(action) =~= seq![action]);
}

/// Settling asks for the calls of the settlement and for nothing else.
proof fn lemma_settle_tally(task: TaskView)
    ensures
        Tally::of(task.settle()).releases == task.settlement(),
        Tally::of(task.settle()).flushes == Seq::<usize>::empty(),
        Tally::of(task.settle()).reports == Seq::<PageReportView>::empty(),
{
    match task.owes() {
        Some(call) => {
            lemma_single_tally(TaskActionView::Release(call));
            assert(Tally::of(task.settle()).releases =~= task.settlement());
        },
        None => {},
    }
}

/// A worker's fault releases what the task owns, reports the fault and
/// flushes nothing.
proof fn lemma_fault_tally(task: TaskView, detail: Seq<char>)
    ensures
        Tally::of(task.on_worker_fault(detail).1).releases == task.settlement(),
        Tally::of(task.on_worker_fault(detail).1).flushes == Seq::<usize>::empty(),
        Tally::of(task.on_worker_fault(detail).1).reports == seq![
            PageReportView { page: task.page, outcome: Err(Failure::TaskPanicked(detail)) },
        ],
{
    let freed: Seq<TaskActionView> = match task.phase {
        TaskPhase::InCallback { handles, image } => seq![
            TaskActionView::FreeImage { data: image.data },
        ],
        _ => seq![],
    };
    if let TaskPhase::InCallback { handles, image } = task.phase {
        lemma_single_tally(TaskActionView::FreeImage { data: image.data });
    }
    lemma_settle_tally(task);
    lemma_tally_add(freed, task.settle());
    lemma_tally_push(
        freed + task.settle(),
        failure_report(task.page, Failure::TaskPanicked(detail), Delivery::Blocking),
    );
    assert(Tally::of(task.on_worker_fault(detail).1).releases =~= task.settlement());
    assert(Tally::of(task.on_worker_fault(detail).1).flushes =~= Seq::<usize>::empty());
    assert(Tally::of(task.on_worker_fault(detail).1).reports =~= seq![
        PageReportView { page: task.page, outcome: Err(Failure::TaskPanicked(detail)) },
    ]);
}

/// What a whole run asks for, from what each step asks for.
proof fn lemma_run_tally(task: TaskView, events: Seq<TaskEventView>)
    ensures
        ({
            let (after, trace) = task.run(events);
            let ends = after.phase is Done && !(task.phase is Done);
            let tally = Tally::of(trace);
            &&& after.page == task.page
            &&& task.phase is Done ==> after == task && trace == Seq::<TaskActionView>::empty()
            &&& tally.releases == (if ends {
                match task.acquired(events) {
                    Some(call) => seq![call],
                    None => seq![],
                }
            } else {
                seq![]
            })
            &&& !(after.phase is Done) ==> after.owes() == task.acquired(events)
            &&& tally.reports.len() == (if ends {
                1nat
            } else {
                0nat
            })
            &&& ends ==> tally.reports[0].page == task.page
            &&& tally.flushes.len() == (if ends && tally.reports[0].outcome is Ok && flush_due(
                task.page,
            ) {
                1nat
            } else {
                0nat
            })
        }),
    decreases events.len(),
{
    if events.len() > 0 {
        let (before, earlier) = task.run(events.drop_last());
        let (after, actions) = before.step(events.last());
        lemma_run_tally(task, events.drop_last());
        lemma_step_tally(before, events.last());
        lemma_tally_add(earlier, actions);
        if before.phase is Done {
            assert(earlier + actions =~= earlier);
        }
        let tally = Tally::of(earlier + actions);
        if after.phase is Done && !(before.phase is Done) {
            assert(tally.reports =~= Tally::of(actions).reports);
            assert(tally.flushes =~= Tally::of(actions).flushes);
            assert(tally.releases =~= Tally::of(actions).releases);
        } else {
            assert(tally.reports =~= Tally::of(earlier).reports);
            assert(tally.flushes =~= Tally::of(earlier).flushes);
            assert(tally.releases =~= Tally::of(earlier).releases);
        }
    }
}

/// A task that has ended stays ended: whatever it is told afterwards, it
/// asks for nothing.
pub proof fn lemma_done_is_final(task: TaskView, events: Seq<TaskEventView>)
    requires
        task.phase is Done,
    ensures
        task.run(events) == (task, Seq::<TaskActionView>::empty()),
{
    lemma_run_tally(task, events);
}

/// Every pair of handles is released exactly once.
///
/// Over any run of a task that had not ended at its start: while the task has
/// not ended, no cleanup call has been asked for and the task still owns the
/// handles it acquired; once it has ended, exactly one cleanup call has been
/// asked for if the task ever owned a handle, naming the handles it owned
/// last, and none if it never owned one. This holds on the path of success,
/// when the backend refuses to render, when the worker fails, and when the
/// document could not be cloned after the context had been.
pub proof fn lemma_handles_released_exactly_once(task: TaskView, events: Seq<TaskEventView>)
    requires
        !(task.phase is Done),
    ensures
        ({
            let (after, trace) = task.run(events);
            let releases = Tally::of(trace).releases;
            if after.phase is Done {
                releases == (match task.acquired(events) {
                    Some(call) => seq![call],
                    None => seq![],
                })
            } else {
                releases == Seq::<ReleaseCall>::empty() && after.owes() == task.acquired(events)
            }
        }),
{
    lemma_run_tally(task, events);
}

/// A page whose context cannot be cloned is skipped: the task ends with one
/// best-effort report of the failure, it never owned a handle, no worker is
/// asked for, and nothing follows.
pub proof fn lemma_failed_context_clone_skips_page(
    task: TaskView,
    event: TaskEventView,
    later: Seq<TaskEventView>,
)
    requires
        task.context_clone_fails(event),
    ensures
        ({
            let (ended, actions) = task.step(event);
            &&& ended.phase is Done
            &&& task.owes() is None
            &&& actions.len() == 1
            &&& actions[0] matches TaskActionView::Report { report, delivery }
            &&& delivery == Delivery::BestEffort
            &&& report.page == task.page
            &&& report.outcome matches Err(Failure::CloneContextFailure(_))
            &&& ended.run(later) == (ended, Seq::<TaskActionView>::empty())
        }),
{
    lemma_done_is_final(task.step(event).0, later);
}

/// Every task reports exactly once: nothing while it runs, one report by
/// the time it has ended, and that report names the task's page.
pub proof fn lemma_one_report_per_task(task: TaskView, events: Seq<TaskEventView>)
    requires
        !(task.phase is Done),
    ensures
        ({
            let (after, trace) = task.run(events);
            let reports = Tally::of(trace).reports;
            if after.phase is Done {
                reports.len() == 1 && reports[0].page == task.page
            } else {
                reports.len() == 0
            }
        }),
{
    lemma_run_tally(task, events);
}

/// The cache is flushed once for a page whose index is a multiple of
/// [`FLUSH_INTERVAL`] and that was rendered and shown to the callback, and
/// never otherwise: not for another index, and not for a page that failed.
pub proof fn lemma_flush_on_every_tenth_page(task: TaskView, events: Seq<TaskEventView>)
    requires
        !(task.phase is Done),
    ensures
        ({
            let (after, trace) = task.run(events);
            let tally = Tally::of(trace);
            let succeeded = after.phase is Done && tally.reports[0].outcome is Ok;
            tally.flushes.len() == (if succeeded && task.page as int % 10 == 0 {
                1nat
            } else {
                0nat
            })
        }),
{
    lemma_run_tally(task, events);
}

} // verus!
