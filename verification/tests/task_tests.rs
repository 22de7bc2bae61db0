use pdf_struct::error::PageRenderError;
use pdf_struct::handle::{HandlePair, ABSENT};
use pdf_struct::session::ReleaseCall;
use pdf_struct::sink::{Delivery, PageReport};
use pdf_struct::task::{PageTask, RenderedImage, TaskAction, TaskEvent, TaskPhase};

fn image() -> RenderedImage {
    RenderedImage {
        data: 0x9000,
        size: 64,
        width: 4,
        height: 4,
        channels: 4,
    }
}

fn pair() -> HandlePair {
    HandlePair {
        ctx_addr: 0x1000,
        doc_addr: 0x2000,
    }
}

fn release_both() -> TaskAction {
    TaskAction::Release(ReleaseCall {
        doc_addr: 0x2000,
        ctx_addr: 0x1000,
    })
}

fn failed(page: i32, error: PageRenderError, delivery: Delivery) -> TaskAction {
    TaskAction::Report {
        report: PageReport {
            page,
            outcome: Err(error),
        },
        delivery,
    }
}

fn succeeded(page: i32) -> TaskAction {
    TaskAction::Report {
        report: PageReport {
            page,
            outcome: Ok(()),
        },
        delivery: Delivery::Blocking,
    }
}

/// A task for `page` that a worker is rendering.
fn rendering(page: i32) -> PageTask {
    let mut task = PageTask::new(page);
    task.step(TaskEvent::Start { base_ctx: 0x500 });
    task.step(TaskEvent::ContextCloned(Ok(0x1000)));
    task.step(TaskEvent::DocumentCloned(Ok(0x2000)));
    task.step(TaskEvent::WorkerStarted);
    task
}

fn count_releases(actions: &[TaskAction]) -> usize {
    actions
        .iter()
        .filter(|a| matches!(a, TaskAction::Release(_)))
        .count()
}

fn count_flushes(actions: &[TaskAction]) -> usize {
    actions
        .iter()
        .filter(|a| matches!(a, TaskAction::FlushCache { .. }))
        .count()
}

#[test]
fn a_page_walks_through_its_phases() {
    let mut task = PageTask::new(3);
    assert_eq!(task.page(), 3);
    assert_eq!(task.phase(), TaskPhase::Pending);
    assert_eq!(task.owed_release(), None);

    let actions = task.step(TaskEvent::Start { base_ctx: 0x500 });
    assert_eq!(actions, vec![TaskAction::CloneContext { base_ctx: 0x500 }]);
    assert_eq!(task.phase(), TaskPhase::CloningContext);

    let actions = task.step(TaskEvent::ContextCloned(Ok(0x1000)));
    assert_eq!(actions, vec![TaskAction::CloneDocument { ctx_addr: 0x1000 }]);
    assert_eq!(task.phase(), TaskPhase::CloningDocument { ctx_addr: 0x1000 });
    assert_eq!(
        task.owed_release(),
        Some(ReleaseCall {
            doc_addr: ABSENT,
            ctx_addr: 0x1000
        })
    );

    let actions = task.step(TaskEvent::DocumentCloned(Ok(0x2000)));
    assert_eq!(actions, vec![TaskAction::Spawn]);
    assert_eq!(task.phase(), TaskPhase::Ready { handles: pair() });

    let actions = task.step(TaskEvent::WorkerStarted);
    assert_eq!(
        actions,
        vec![TaskAction::Render {
            page: 3,
            handles: pair()
        }]
    );
    assert_eq!(task.phase(), TaskPhase::Rendering { handles: pair() });

    let actions = task.step(TaskEvent::Rendered(Ok(image())));
    assert_eq!(
        actions,
        vec![TaskAction::InvokeCallback {
            page: 3,
            image: image()
        }]
    );
    assert_eq!(
        task.phase(),
        TaskPhase::InCallback {
            handles: pair(),
            image: image()
        }
    );
    assert!(!task.is_done());
    assert_eq!(
        task.owed_release(),
        Some(ReleaseCall {
            doc_addr: 0x2000,
            ctx_addr: 0x1000
        })
    );

    let actions = task.step(TaskEvent::CallbackReturned);
    assert_eq!(
        actions,
        vec![
            TaskAction::FreeImage { data: 0x9000 },
            release_both(),
            succeeded(3)
        ]
    );
    assert!(task.is_done());
    assert_eq!(task.owed_release(), None);
}

#[test]
fn the_cache_is_flushed_after_every_tenth_page() {
    for page in [0, 10, 20, 250, -10] {
        let mut task = rendering(page);
        task.step(TaskEvent::Rendered(Ok(image())));
        let actions = task.step(TaskEvent::CallbackReturned);
        assert_eq!(
            actions,
            vec![
                TaskAction::FreeImage { data: 0x9000 },
                TaskAction::FlushCache { ctx_addr: 0x1000 },
                release_both(),
                succeeded(page)
            ]
        );
    }
}

#[test]
fn the_cache_is_not_flushed_after_other_pages() {
    for page in [1, 7, 9, 11, 19, 21, 105, -3] {
        let mut task = rendering(page);
        task.step(TaskEvent::Rendered(Ok(image())));
        let actions = task.step(TaskEvent::CallbackReturned);
        assert_eq!(count_flushes(&actions), 0);
        assert_eq!(count_releases(&actions), 1);
    }
}

#[test]
fn the_cache_is_not_flushed_when_a_tenth_page_fails() {
    let mut task = rendering(10);
    let actions = task.step(TaskEvent::Rendered(Err("Failed to render page 10".to_string())));
    assert_eq!(
        actions,
        vec![
            release_both(),
            failed(
                10,
                PageRenderError::RenderFailure("Failed to render page 10".to_string()),
                Delivery::Blocking
            )
        ]
    );
    assert!(task.is_done());
}

#[test]
fn an_absent_base_context_skips_the_page() {
    let mut task = PageTask::new(5);
    let actions = task.step(TaskEvent::Start { base_ctx: ABSENT });
    assert_eq!(
        actions,
        vec![failed(
            5,
            PageRenderError::CloneContextFailure("Base context handle is null".to_string()),
            Delivery::BestEffort
        )]
    );
    assert!(task.is_done());
    assert_eq!(task.owed_release(), None);
}

#[test]
fn a_refused_context_clone_skips_the_page() {
    let mut task = PageTask::new(5);
    task.step(TaskEvent::Start { base_ctx: 0x500 });
    let actions = task.step(TaskEvent::ContextCloned(Err("out of memory".to_string())));
    assert_eq!(
        actions,
        vec![failed(
            5,
            PageRenderError::CloneContextFailure(
                "Failed to clone context: out of memory".to_string()
            ),
            Delivery::BestEffort
        )]
    );
    assert!(task.is_done());
    assert_eq!(task.owed_release(), None);
    assert_eq!(task.step(TaskEvent::DocumentCloned(Ok(0x2000))), vec![]);
    assert_eq!(task.step(TaskEvent::WorkerStarted), vec![]);
    assert_eq!(task.step(TaskEvent::Rendered(Ok(image()))), vec![]);
    assert_eq!(task.step(TaskEvent::CallbackReturned), vec![]);
    assert_eq!(task.step(TaskEvent::WorkerFault("late".to_string())), vec![]);
    assert!(task.is_done());
}

#[test]
fn an_absent_context_clone_skips_the_page() {
    let mut task = PageTask::new(5);
    task.step(TaskEvent::Start { base_ctx: 0x500 });
    let actions = task.step(TaskEvent::ContextCloned(Ok(ABSENT)));
    assert_eq!(
        actions,
        vec![failed(
            5,
            PageRenderError::CloneContextFailure("Cloned context is null".to_string()),
            Delivery::BestEffort
        )]
    );
    assert!(task.is_done());
}

#[test]
fn a_refused_document_clone_releases_the_context() {
    let mut task = PageTask::new(8);
    task.step(TaskEvent::Start { base_ctx: 0x500 });
    task.step(TaskEvent::ContextCloned(Ok(0x1000)));
    let actions = task.step(TaskEvent::DocumentCloned(Err("no such file".to_string())));
    assert_eq!(
        actions,
        vec![
            TaskAction::Release(ReleaseCall {
                doc_addr: ABSENT,
                ctx_addr: 0x1000
            }),
            failed(
                8,
                PageRenderError::CloneDocumentFailure(
                    "Failed to clone document: no such file".to_string()
                ),
                Delivery::BestEffort
            )
        ]
    );
    assert!(task.is_done());
    assert_eq!(task.step(TaskEvent::WorkerStarted), vec![]);
}

#[test]
fn an_absent_document_clone_releases_the_context() {
    let mut task = PageTask::new(8);
    task.step(TaskEvent::Start { base_ctx: 0x500 });
    task.step(TaskEvent::ContextCloned(Ok(0x1000)));
    let actions = task.step(TaskEvent::DocumentCloned(Ok(ABSENT)));
    assert_eq!(
        actions,
        vec![
            TaskAction::Release(ReleaseCall {
                doc_addr: ABSENT,
                ctx_addr: 0x1000
            }),
            failed(
                8,
                PageRenderError::CloneDocumentFailure("Cloned document is null".to_string()),
                Delivery::BestEffort
            )
        ]
    );
}

#[test]
fn a_render_failure_releases_and_reports() {
    let mut task = rendering(4);
    let actions = task.step(TaskEvent::Rendered(Err("Invalid context handle".to_string())));
    assert_eq!(
        actions,
        vec![
            release_both(),
            failed(4, PageRenderError::InvalidContextHandle, Delivery::Blocking)
        ]
    );
    assert!(task.is_done());
    assert_eq!(task.step(TaskEvent::CallbackReturned), vec![]);
}

#[test]
fn corruption_on_page_seven_is_reported_for_page_seven() {
    let message = "xref: Document corruption detected, aborting";
    let mut reports = Vec::new();
    for page in 0..12 {
        let mut task = rendering(page);
        let actions = if page == 7 {
            task.step(TaskEvent::Rendered(Err(message.to_string())))
        } else {
            task.step(TaskEvent::Rendered(Ok(image())));
            task.step(TaskEvent::CallbackReturned)
        };
        assert_eq!(count_releases(&actions), 1);
        for action in actions {
            if let TaskAction::Report { report, delivery } = action {
                assert_eq!(delivery, Delivery::Blocking);
                reports.push(report);
            }
        }
    }
    assert_eq!(reports.len(), 12);
    for (page, report) in reports.iter().enumerate() {
        assert_eq!(report.page, page as i32);
        if page == 7 {
            assert_eq!(
                report.outcome,
                Err(PageRenderError::CorruptionDetected(format!(
                    "Document corruption detected at page 7: {}",
                    message
                )))
            );
        } else {
            assert_eq!(report.outcome, Ok(()));
        }
    }
}

#[test]
fn a_fault_before_rendering_releases_the_handles() {
    let mut task = PageTask::new(2);
    task.step(TaskEvent::Start { base_ctx: 0x500 });
    task.step(TaskEvent::ContextCloned(Ok(0x1000)));
    task.step(TaskEvent::DocumentCloned(Ok(0x2000)));
    let actions = task.step(TaskEvent::WorkerFault("cancelled".to_string()));
    assert_eq!(
        actions,
        vec![
            release_both(),
            failed(
                2,
                PageRenderError::TaskPanicked("cancelled".to_string()),
                Delivery::Blocking
            )
        ]
    );
    assert!(task.is_done());
}

#[test]
fn a_fault_while_rendering_releases_the_handles() {
    let mut task = rendering(2);
    let actions = task.step(TaskEvent::WorkerFault("stack overflow".to_string()));
    assert_eq!(
        actions,
        vec![
            release_both(),
            failed(
                2,
                PageRenderError::TaskPanicked("stack overflow".to_string()),
                Delivery::Blocking
            )
        ]
    );
}

#[test]
fn a_fault_in_the_callback_frees_the_image_too() {
    let mut task = rendering(20);
    task.step(TaskEvent::Rendered(Ok(image())));
    let actions = task.step(TaskEvent::WorkerFault("callback panicked".to_string()));
    assert_eq!(
        actions,
        vec![
            TaskAction::FreeImage { data: 0x9000 },
            release_both(),
            failed(
                20,
                PageRenderError::TaskPanicked("callback panicked".to_string()),
                Delivery::Blocking
            )
        ]
    );
    assert!(task.is_done());
    assert_eq!(task.step(TaskEvent::CallbackReturned), vec![]);
}

#[test]
fn a_fault_before_the_task_owns_anything_is_ignored() {
    let mut task = PageTask::new(2);
    assert_eq!(task.step(TaskEvent::WorkerFault("x".to_string())), vec![]);
    assert_eq!(task.phase(), TaskPhase::Pending);
    task.step(TaskEvent::Start { base_ctx: 0x500 });
    assert_eq!(task.step(TaskEvent::WorkerFault("x".to_string())), vec![]);
    assert_eq!(task.phase(), TaskPhase::CloningContext);
}

#[test]
fn events_out_of_turn_are_ignored() {
    let mut task = PageTask::new(1);
    assert_eq!(task.step(TaskEvent::ContextCloned(Ok(0x1000))), vec![]);
    assert_eq!(task.step(TaskEvent::DocumentCloned(Ok(0x2000))), vec![]);
    assert_eq!(task.step(TaskEvent::WorkerStarted), vec![]);
    assert_eq!(task.step(TaskEvent::Rendered(Ok(image()))), vec![]);
    assert_eq!(task.step(TaskEvent::CallbackReturned), vec![]);
    assert_eq!(task.phase(), TaskPhase::Pending);

    let mut task = rendering(1);
    assert_eq!(task.step(TaskEvent::Start { base_ctx: 0x500 }), vec![]);
    assert_eq!(task.step(TaskEvent::ContextCloned(Ok(0x3000))), vec![]);
    assert_eq!(task.step(TaskEvent::WorkerStarted), vec![]);
    assert_eq!(task.step(TaskEvent::CallbackReturned), vec![]);
    assert_eq!(task.phase(), TaskPhase::Rendering { handles: pair() });
}

#[test]
fn a_worker_checks_the_handles_it_is_given() {
    let mut task = PageTask::spawn_page(
        6,
        HandlePair {
            ctx_addr: ABSENT,
            doc_addr: 0x2000,
        },
    );
    assert_eq!(
        task.owed_release(),
        Some(ReleaseCall {
            doc_addr: 0x2000,
            ctx_addr: ABSENT
        })
    );
    let actions = task.step(TaskEvent::WorkerStarted);
    assert_eq!(
        actions,
        vec![
            TaskAction::Release(ReleaseCall {
                doc_addr: 0x2000,
                ctx_addr: ABSENT
            }),
            failed(6, PageRenderError::InvalidContextHandle, Delivery::Blocking)
        ]
    );
    assert!(task.is_done());

    let mut task = PageTask::spawn_page(
        6,
        HandlePair {
            ctx_addr: 0x1000,
            doc_addr: ABSENT,
        },
    );
    let actions = task.step(TaskEvent::WorkerStarted);
    assert_eq!(
        actions,
        vec![
            TaskAction::Release(ReleaseCall {
                doc_addr: ABSENT,
                ctx_addr: 0x1000
            }),
            failed(
                6,
                PageRenderError::Unexpected("Document handle is null".to_string()),
                Delivery::Blocking
            )
        ]
    );

    let mut task = PageTask::spawn_page(
        6,
        HandlePair {
            ctx_addr: ABSENT,
            doc_addr: ABSENT,
        },
    );
    assert_eq!(task.owed_release(), None);
    let actions = task.step(TaskEvent::WorkerStarted);
    assert_eq!(
        actions,
        vec![failed(
            6,
            PageRenderError::InvalidContextHandle,
            Delivery::Blocking
        )]
    );

    let mut task = PageTask::spawn_page(6, pair());
    let actions = task.step(TaskEvent::WorkerStarted);
    assert_eq!(
        actions,
        vec![TaskAction::Render {
            page: 6,
            handles: pair()
        }]
    );
}

#[test]
fn every_path_releases_once_and_reports_once() {
    let scripts: Vec<Vec<TaskEvent>> = vec![
        vec![
            TaskEvent::Start { base_ctx: 0x500 },
            TaskEvent::ContextCloned(Ok(0x1000)),
            TaskEvent::DocumentCloned(Ok(0x2000)),
            TaskEvent::WorkerStarted,
            TaskEvent::Rendered(Ok(image())),
            TaskEvent::CallbackReturned,
            TaskEvent::CallbackReturned,
            TaskEvent::WorkerFault("late".to_string()),
        ],
        vec![
            TaskEvent::Start { base_ctx: 0x500 },
            TaskEvent::ContextCloned(Ok(0x1000)),
            TaskEvent::DocumentCloned(Ok(0x2000)),
            TaskEvent::WorkerStarted,
            TaskEvent::Rendered(Err("boom".to_string())),
            TaskEvent::Rendered(Err("boom".to_string())),
        ],
        vec![
            TaskEvent::Start { base_ctx: 0x500 },
            TaskEvent::ContextCloned(Ok(0x1000)),
            TaskEvent::DocumentCloned(Err("no".to_string())),
            TaskEvent::DocumentCloned(Err("no".to_string())),
        ],
        vec![
            TaskEvent::Start { base_ctx: 0x500 },
            TaskEvent::ContextCloned(Ok(0x1000)),
            TaskEvent::DocumentCloned(Ok(0x2000)),
            TaskEvent::WorkerStarted,
            TaskEvent::Rendered(Ok(image())),
            TaskEvent::WorkerFault("panic".to_string()),
            TaskEvent::CallbackReturned,
        ],
    ];
    for script in scripts {
        let mut task = PageTask::new(30);
        let mut trace = Vec::new();
        for event in script {
            trace.extend(task.step(event));
        }
        assert!(task.is_done());
        assert_eq!(count_releases(&trace), 1);
        let reports = trace
            .iter()
            .filter(|a| matches!(a, TaskAction::Report { .. }))
            .count();
        assert_eq!(reports, 1);
    }

    let mut task = PageTask::new(30);
    let mut trace = Vec::new();
    trace.extend(task.step(TaskEvent::Start { base_ctx: 0x500 }));
    trace.extend(task.step(TaskEvent::ContextCloned(Err("no".to_string()))));
    assert!(task.is_done());
    assert_eq!(count_releases(&trace), 0);
    assert!(!trace.iter().any(|a| matches!(a, TaskAction::Spawn)));
}
