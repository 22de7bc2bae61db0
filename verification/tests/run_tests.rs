use pdf_struct::error::PageRenderError;
use pdf_struct::orchestrator::{
    ControlMessage, Orchestrator, RunPhase, SchedulerCommand, SchedulerEvent, TaskExit,
    Termination,
};
use pdf_struct::session::{DocumentInit, Extractor, ReleaseCall};
use pdf_struct::sink::PageReport;
use pdf_struct::task::{PageTask, RenderedImage, TaskAction, TaskEvent};
use std::collections::VecDeque;

/// A backend that keeps books: which handles are out, what was flushed, and
/// which pages it refuses.
struct Backend {
    next_addr: usize,
    live: Vec<usize>,
    released_twice: bool,
    cleanups: usize,
    flushed_for: Vec<usize>,
    freed: Vec<usize>,
    no_context_for: Vec<i32>,
    no_document_for: Vec<i32>,
    corrupt: Vec<i32>,
}

impl Backend {
    fn new() -> Self {
        Backend {
            next_addr: 0x1000,
            live: Vec::new(),
            released_twice: false,
            cleanups: 0,
            flushed_for: Vec::new(),
            freed: Vec::new(),
            no_context_for: Vec::new(),
            no_document_for: Vec::new(),
            corrupt: Vec::new(),
        }
    }

    fn fresh(&mut self) -> usize {
        self.next_addr += 0x10;
        self.live.push(self.next_addr);
        self.next_addr
    }

    fn give_back(&mut self, addr: usize) {
        if addr == 0 {
            return;
        }
        match self.live.iter().position(|a| *a == addr) {
            Some(at) => {
                self.live.remove(at);
            }
            None => self.released_twice = true,
        }
    }

    fn cleanup(&mut self, call: ReleaseCall) {
        self.cleanups += 1;
        self.give_back(call.doc_addr);
        self.give_back(call.ctx_addr);
    }
}

/// Performs the actions of a task until it asks for a worker or has ended.
/// Returns whether it asks for a worker.
fn perform(
    backend: &mut Backend,
    task: &mut PageTask,
    first: Vec<TaskAction>,
    reports: &mut Vec<PageReport>,
) -> bool {
    let mut pending: VecDeque<TaskAction> = first.into();
    let mut spawn = false;
    while let Some(action) = pending.pop_front() {
        match action {
            TaskAction::CloneContext { base_ctx } => {
                assert_eq!(base_ctx, 0xc7);
                let cloned = if backend.no_context_for.contains(&task.page()) {
                    Err("context refused".to_string())
                } else {
                    Ok(backend.fresh())
                };
                pending.extend(task.step(TaskEvent::ContextCloned(cloned)));
            }
            TaskAction::CloneDocument { ctx_addr } => {
                assert!(backend.live.contains(&ctx_addr));
                let cloned = if backend.no_document_for.contains(&task.page()) {
                    Err("document refused".to_string())
                } else {
                    Ok(backend.fresh())
                };
                pending.extend(task.step(TaskEvent::DocumentCloned(cloned)));
            }
            TaskAction::Spawn => spawn = true,
            TaskAction::Render { page, handles } => {
                assert!(backend.live.contains(&handles.ctx_addr));
                assert!(backend.live.contains(&handles.doc_addr));
                let rendered = if backend.corrupt.contains(&page) {
                    Err("Document corruption detected".to_string())
                } else {
                    Ok(RenderedImage {
                        data: 0x9000 + page as usize,
                        size: 16,
                        width: 2,
                        height: 2,
                        channels: 4,
                    })
                };
                pending.extend(task.step(TaskEvent::Rendered(rendered)));
            }
            TaskAction::InvokeCallback { .. } => {
                pending.extend(task.step(TaskEvent::CallbackReturned));
            }
            TaskAction::FreeImage { data } => backend.freed.push(data),
            TaskAction::FlushCache { ctx_addr } => {
                assert!(backend.live.contains(&ctx_addr));
                backend.flushed_for.push(ctx_addr);
            }
            TaskAction::Release(call) => backend.cleanup(call),
            TaskAction::Report { report, .. } => reports.push(report),
        }
    }
    spawn
}

struct Outcome {
    order: Vec<i32>,
    reports: Vec<PageReport>,
    most_active: usize,
    phase: RunPhase,
}

/// What the control source gives in one round of the loop.
enum Heard {
    /// No message is ready.
    Nothing,
    /// A message is ready.
    Message(ControlMessage),
    /// The source has ended.
    End,
}

/// Runs a document of `pages` pages through a pool of `slots` slots. Each
/// round of the loop takes one entry of `control`. After them the control
/// source stays open and silent.
fn run(backend: &mut Backend, pages: i32, slots: usize, control: Vec<Heard>) -> Outcome {
    let mut session = Extractor::new(
        "data/test.pdf".to_string(),
        Ok(DocumentInit {
            doc_handle: 0xd0c,
            ctx_handle: 0xc7,
            page_count: pages,
        }),
    )
    .expect("opened");
    let mut scheduler = Orchestrator::new(session.page_total(), slots);
    let mut control: VecDeque<Heard> = control.into();
    let mut pool: VecDeque<PageTask> = VecDeque::new();
    let mut outcome = Outcome {
        order: Vec::new(),
        reports: Vec::new(),
        most_active: 0,
        phase: RunPhase::Running,
    };

    loop {
        let heard = if scheduler.reads_control() {
            control.pop_front().unwrap_or(Heard::Nothing)
        } else {
            Heard::Nothing
        };
        let event = if let Heard::Message(message) = heard {
            SchedulerEvent::Control(message)
        } else if let Heard::End = heard {
            SchedulerEvent::ControlClosed
        } else if scheduler.can_schedule() {
            SchedulerEvent::CapacityAvailable
        } else if scheduler.awaits_completion() {
            let mut task = pool.pop_front().expect("a task in the pool");
            let first = task.step(TaskEvent::WorkerStarted);
            perform(backend, &mut task, first, &mut outcome.reports);
            assert!(task.is_done());
            SchedulerEvent::TaskCompleted(TaskExit::Finished)
        } else if scheduler.is_drained() {
            SchedulerEvent::Drained
        } else {
            break;
        };
        assert!(scheduler.accepts(event));
        match scheduler.step(event) {
            SchedulerCommand::Continue => {}
            SchedulerCommand::Schedule { first, count } => {
                for page in first..first + count as i32 {
                    outcome.order.push(page);
                    let mut task = PageTask::new(page);
                    let start = task.step(TaskEvent::Start {
                        base_ctx: session.base_context(),
                    });
                    if perform(backend, &mut task, start, &mut outcome.reports) {
                        pool.push_back(task);
                    } else {
                        assert!(task.is_done());
                        scheduler.step(SchedulerEvent::PageSkipped);
                    }
                }
            }
            SchedulerCommand::Abort | SchedulerCommand::Finish => break,
        }
        assert_eq!(scheduler.active(), pool.len());
        outcome.most_active = outcome.most_active.max(scheduler.active());
    }

    // Workers that were running when the run was stopped still end by
    // themselves.
    for mut task in pool {
        let first = task.step(TaskEvent::WorkerStarted);
        perform(backend, &mut task, first, &mut Vec::new());
    }
    if let Some(call) = session.close() {
        assert_eq!(
            call,
            ReleaseCall {
                doc_addr: 0xd0c,
                ctx_addr: 0xc7
            }
        );
    }
    assert!(session.close().is_none());
    outcome.phase = scheduler.phase();
    outcome
}

#[test]
fn twenty_five_pages_give_twenty_five_outcomes() {
    let mut backend = Backend::new();
    let outcome = run(&mut backend, 25, 4, vec![]);
    assert_eq!(outcome.phase, RunPhase::Terminated(Termination::Completed));
    assert_eq!(outcome.order, (0..25).collect::<Vec<i32>>());
    assert_eq!(outcome.most_active, 4);
    assert_eq!(outcome.reports.len(), 25);
    assert!(outcome.reports.iter().all(|r| r.outcome.is_ok()));
    let mut pages: Vec<i32> = outcome.reports.iter().map(|r| r.page).collect();
    pages.sort();
    assert_eq!(pages, (0..25).collect::<Vec<i32>>());

    assert!(backend.live.is_empty());
    assert!(!backend.released_twice);
    assert_eq!(backend.cleanups, 25);
    assert_eq!(backend.flushed_for.len(), 3);
    assert_eq!(backend.freed.len(), 25);
}

#[test]
fn a_corrupt_page_does_not_stop_the_others() {
    let mut backend = Backend::new();
    backend.corrupt.push(7);
    let outcome = run(&mut backend, 12, 4, vec![]);
    assert_eq!(outcome.phase, RunPhase::Terminated(Termination::Completed));
    assert_eq!(outcome.reports.len(), 12);
    for report in &outcome.reports {
        if report.page == 7 {
            assert_eq!(
                report.outcome,
                Err(PageRenderError::CorruptionDetected(
                    "Document corruption detected at page 7: Document corruption detected"
                        .to_string()
                ))
            );
        } else {
            assert_eq!(report.outcome, Ok(()));
        }
    }
    assert!(backend.live.is_empty());
    assert!(!backend.released_twice);
    assert_eq!(backend.cleanups, 12);
    assert_eq!(backend.freed.len(), 11);
    assert_eq!(backend.flushed_for.len(), 2);
}

#[test]
fn pages_without_handles_are_skipped() {
    let mut backend = Backend::new();
    backend.no_context_for.push(2);
    backend.no_document_for.push(10);
    let outcome = run(&mut backend, 25, 4, vec![]);
    assert_eq!(outcome.phase, RunPhase::Terminated(Termination::Completed));
    assert_eq!(outcome.order, (0..25).collect::<Vec<i32>>());
    assert_eq!(outcome.reports.len(), 25);
    assert!(outcome.most_active <= 4);
    for report in &outcome.reports {
        match report.page {
            2 => assert_eq!(
                report.outcome,
                Err(PageRenderError::CloneContextFailure(
                    "Failed to clone context: context refused".to_string()
                ))
            ),
            10 => assert_eq!(
                report.outcome,
                Err(PageRenderError::CloneDocumentFailure(
                    "Failed to clone document: document refused".to_string()
                ))
            ),
            _ => assert_eq!(report.outcome, Ok(())),
        }
    }
    assert!(backend.live.is_empty());
    assert!(!backend.released_twice);
    assert_eq!(backend.cleanups, 24);
    assert_eq!(backend.freed.len(), 23);
    assert_eq!(backend.flushed_for.len(), 2);
}

#[test]
fn a_stopped_run_schedules_nothing_more_and_leaks_nothing() {
    let mut backend = Backend::new();
    let outcome = run(
        &mut backend,
        25,
        4,
        vec![
            Heard::Nothing,
            Heard::Message(ControlMessage::Resume),
            Heard::Nothing,
            Heard::Nothing,
            Heard::Message(ControlMessage::Stop),
        ],
    );
    assert_eq!(outcome.phase, RunPhase::Terminated(Termination::Aborted));
    assert_eq!(outcome.order, vec![0, 1, 2, 3, 4]);
    assert_eq!(outcome.reports.len(), 1);
    assert!(backend.live.is_empty());
    assert!(!backend.released_twice);
    assert_eq!(backend.cleanups, 5);
}

#[test]
fn a_paused_and_resumed_run_renders_every_page() {
    let mut backend = Backend::new();
    let outcome = run(
        &mut backend,
        25,
        4,
        vec![
            Heard::Nothing,
            Heard::Message(ControlMessage::Pause),
            Heard::Message(ControlMessage::Pause),
            Heard::Message(ControlMessage::Resume),
            Heard::Message(ControlMessage::Resume),
            Heard::Nothing,
            Heard::Nothing,
            Heard::Message(ControlMessage::Pause),
            Heard::Message(ControlMessage::Resume),
        ],
    );
    assert_eq!(outcome.phase, RunPhase::Terminated(Termination::Completed));
    assert_eq!(outcome.order, (0..25).collect::<Vec<i32>>());
    assert_eq!(outcome.reports.len(), 25);
    assert!(backend.live.is_empty());
    assert!(!backend.released_twice);
}

#[test]
fn a_paused_run_whose_control_source_ends_renders_every_page() {
    let mut backend = Backend::new();
    let outcome = run(
        &mut backend,
        25,
        4,
        vec![
            Heard::Nothing,
            Heard::Message(ControlMessage::Pause),
            Heard::End,
        ],
    );
    assert_eq!(outcome.phase, RunPhase::Terminated(Termination::Completed));
    assert_eq!(outcome.order, (0..25).collect::<Vec<i32>>());
    assert_eq!(outcome.reports.len(), 25);
    assert!(outcome.most_active <= 4);
    assert!(backend.live.is_empty());
    assert!(!backend.released_twice);
    assert_eq!(backend.cleanups, 25);
}

#[test]
fn a_run_whose_control_source_ends_at_once_renders_every_page() {
    let mut backend = Backend::new();
    let outcome = run(&mut backend, 1, 1, vec![Heard::Message(ControlMessage::Pause), Heard::End]);
    assert_eq!(outcome.phase, RunPhase::Terminated(Termination::Completed));
    assert_eq!(outcome.order, vec![0]);
    assert_eq!(outcome.reports.len(), 1);

    let mut backend = Backend::new();
    let outcome = run(&mut backend, 7, 2, vec![Heard::End]);
    assert_eq!(outcome.phase, RunPhase::Terminated(Termination::Completed));
    assert_eq!(outcome.order, (0..7).collect::<Vec<i32>>());
}

#[test]
fn an_empty_document_is_a_run_without_outcomes() {
    let mut backend = Backend::new();
    let outcome = run(&mut backend, 0, 4, vec![]);
    assert_eq!(outcome.phase, RunPhase::Terminated(Termination::Completed));
    assert!(outcome.order.is_empty());
    assert!(outcome.reports.is_empty());
    assert_eq!(backend.cleanups, 0);
}
