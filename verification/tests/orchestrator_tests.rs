use pdf_struct::orchestrator::{
    ControlMessage, Orchestrator, RunPhase, SchedulerCommand, SchedulerEvent, TaskExit,
    Termination, BATCH_SIZE,
};
use std::collections::VecDeque;

/// Runs the scheduler to its end without control messages: pages are
/// scheduled as room appears, and the oldest task in the pool leaves first.
/// `in_pool` holds the pages whose tasks are active at the start. Returns the
/// pages in the order of their scheduling, the largest number of active tasks
/// that was seen, and the number of tasks that left the pool.
fn drive(run: &mut Orchestrator, in_pool: Vec<i32>) -> (Vec<i32>, usize, usize) {
    let mut order = Vec::new();
    let mut pool: VecDeque<i32> = in_pool.into_iter().collect();
    assert_eq!(run.active(), pool.len());
    let mut most_active = 0;
    let mut left = 0;
    loop {
        let event = if run.can_schedule() {
            SchedulerEvent::CapacityAvailable
        } else if run.awaits_completion() {
            pool.pop_front().expect("a task in the pool");
            left += 1;
            SchedulerEvent::TaskCompleted(TaskExit::Finished)
        } else {
            SchedulerEvent::Drained
        };
        assert!(run.accepts(event));
        match run.step(event) {
            SchedulerCommand::Continue => {}
            SchedulerCommand::Schedule { first, count } => {
                for page in first..first + count as i32 {
                    order.push(page);
                    pool.push_back(page);
                }
            }
            SchedulerCommand::Finish => break,
            SchedulerCommand::Abort => panic!("nobody stopped the run"),
        }
        assert_eq!(run.active(), pool.len());
        most_active = most_active.max(run.active());
    }
    (order, most_active, left)
}

#[test]
fn twenty_five_pages_through_four_slots() {
    let mut run = Orchestrator::new(25, 4);
    assert_eq!(run.phase(), RunPhase::Running);
    assert_eq!(run.page_total(), 25);
    assert_eq!(run.capacity(), 4);

    let first = run.step(SchedulerEvent::CapacityAvailable);
    assert_eq!(first, SchedulerCommand::Schedule { first: 0, count: 4 });
    assert_eq!(run.spawned(), 4);
    assert_eq!(run.active(), 4);
    assert!(!run.can_schedule());
    assert_eq!(
        run.step(SchedulerEvent::CapacityAvailable),
        SchedulerCommand::Continue
    );

    assert_eq!(
        run.step(SchedulerEvent::TaskCompleted(TaskExit::Finished)),
        SchedulerCommand::Continue
    );
    assert_eq!(run.active(), 3);
    assert_eq!(
        run.step(SchedulerEvent::CapacityAvailable),
        SchedulerCommand::Schedule { first: 4, count: 1 }
    );
    assert_eq!(run.active(), 4);

    let (order, most_active, left) = drive(&mut run, vec![1, 2, 3, 4]);
    assert_eq!(order, (5..25).collect::<Vec<i32>>());
    assert!(most_active <= 4);
    assert_eq!(left, 24);
    assert_eq!(run.phase(), RunPhase::Terminated(Termination::Completed));
    assert_eq!(run.spawned(), 25);
    assert_eq!(run.completed(), 25);
    assert_eq!(run.active(), 0);
}

#[test]
fn every_page_is_scheduled_once_and_in_order() {
    for (pages, slots) in [(0, 4), (1, 1), (3, 8), (25, 4), (40, 12), (100, 32), (7, 2)] {
        let mut run = Orchestrator::new(pages, slots);
        let (order, most_active, left) = drive(&mut run, vec![]);
        assert_eq!(order, (0..pages).collect::<Vec<i32>>());
        assert!(most_active <= slots);
        assert_eq!(left, pages as usize);
        assert_eq!(run.phase(), RunPhase::Terminated(Termination::Completed));
        assert_eq!(run.completed(), pages);
    }
}

#[test]
fn a_batch_is_at_most_four_pages() {
    assert_eq!(BATCH_SIZE, 4);
    let mut run = Orchestrator::new(25, 10);
    assert_eq!(
        run.step(SchedulerEvent::CapacityAvailable),
        SchedulerCommand::Schedule { first: 0, count: 4 }
    );
    assert_eq!(
        run.step(SchedulerEvent::CapacityAvailable),
        SchedulerCommand::Schedule { first: 4, count: 4 }
    );
    assert_eq!(
        run.step(SchedulerEvent::CapacityAvailable),
        SchedulerCommand::Schedule { first: 8, count: 2 }
    );
    assert_eq!(
        run.step(SchedulerEvent::CapacityAvailable),
        SchedulerCommand::Continue
    );
    assert_eq!(run.active(), 10);
    assert_eq!(run.spawned(), 10);
}

#[test]
fn a_batch_ends_with_the_document() {
    let mut run = Orchestrator::new(3, 8);
    assert_eq!(
        run.step(SchedulerEvent::CapacityAvailable),
        SchedulerCommand::Schedule { first: 0, count: 3 }
    );
    assert!(!run.can_schedule());
    assert!(!run.is_drained());
    assert!(run.awaits_completion());
}

#[test]
fn a_document_without_pages_is_complete_at_once() {
    for pages in [0, -1, i32::MIN] {
        let mut run = Orchestrator::new(pages, 4);
        assert_eq!(run.page_total(), 0);
        assert!(run.is_drained());
        assert!(!run.can_schedule());
        assert_eq!(
            run.step(SchedulerEvent::CapacityAvailable),
            SchedulerCommand::Continue
        );
        assert_eq!(run.step(SchedulerEvent::Drained), SchedulerCommand::Finish);
        assert_eq!(run.phase(), RunPhase::Terminated(Termination::Completed));
    }
}

#[test]
fn a_pool_without_slots_schedules_nothing() {
    let mut run = Orchestrator::new(5, 0);
    assert!(!run.can_schedule());
    assert!(!run.awaits_completion());
    assert!(!run.is_drained());
    assert_eq!(
        run.step(SchedulerEvent::CapacityAvailable),
        SchedulerCommand::Continue
    );
    assert_eq!(run.step(SchedulerEvent::Drained), SchedulerCommand::Continue);
    assert_eq!(run.phase(), RunPhase::Running);
}

#[test]
fn stop_aborts_with_tasks_still_active() {
    let mut run = Orchestrator::new(25, 4);
    run.step(SchedulerEvent::CapacityAvailable);
    assert_eq!(run.active(), 4);
    assert_eq!(
        run.step(SchedulerEvent::Control(ControlMessage::Stop)),
        SchedulerCommand::Abort
    );
    assert_eq!(run.phase(), RunPhase::Terminated(Termination::Aborted));
    assert!(run.is_terminated());
    assert_eq!(run.active(), 4);
    assert_eq!(run.spawned(), 4);
    assert!(!run.can_schedule());
    assert!(!run.reads_control());
    assert!(!run.awaits_completion());

    for event in [
        SchedulerEvent::CapacityAvailable,
        SchedulerEvent::TaskCompleted(TaskExit::Finished),
        SchedulerEvent::TaskCompleted(TaskExit::Cancelled),
        SchedulerEvent::PageSkipped,
        SchedulerEvent::Drained,
        SchedulerEvent::Control(ControlMessage::Resume),
        SchedulerEvent::ControlClosed,
    ] {
        assert!(run.accepts(event));
        assert_eq!(run.step(event), SchedulerCommand::Abort);
        assert_eq!(run.spawned(), 4);
        assert_eq!(run.active(), 4);
        assert_eq!(run.completed(), 0);
    }
}

#[test]
fn stop_before_anything_was_scheduled() {
    let mut run = Orchestrator::new(25, 4);
    assert_eq!(
        run.step(SchedulerEvent::Control(ControlMessage::Stop)),
        SchedulerCommand::Abort
    );
    assert_eq!(run.spawned(), 0);
    assert_eq!(
        run.step(SchedulerEvent::CapacityAvailable),
        SchedulerCommand::Abort
    );
    assert_eq!(run.spawned(), 0);
}

#[test]
fn pause_then_resume_goes_on_where_it_was() {
    let mut run = Orchestrator::new(25, 4);
    run.step(SchedulerEvent::CapacityAvailable);
    run.step(SchedulerEvent::TaskCompleted(TaskExit::Finished));
    run.step(SchedulerEvent::TaskCompleted(TaskExit::Finished));
    assert_eq!(run.spawned(), 4);

    assert_eq!(
        run.step(SchedulerEvent::Control(ControlMessage::Pause)),
        SchedulerCommand::Continue
    );
    assert_eq!(run.phase(), RunPhase::Paused);
    assert!(run.reads_control());
    assert!(!run.can_schedule());
    assert!(!run.awaits_completion());
    assert!(!run.is_drained());
    assert_eq!(
        run.step(SchedulerEvent::CapacityAvailable),
        SchedulerCommand::Continue
    );
    assert_eq!(
        run.step(SchedulerEvent::Control(ControlMessage::Pause)),
        SchedulerCommand::Continue
    );
    assert_eq!(run.step(SchedulerEvent::Drained), SchedulerCommand::Continue);
    assert_eq!(run.phase(), RunPhase::Paused);
    assert_eq!(run.spawned(), 4);

    assert_eq!(
        run.step(SchedulerEvent::Control(ControlMessage::Resume)),
        SchedulerCommand::Continue
    );
    assert_eq!(run.phase(), RunPhase::Running);
    assert_eq!(
        run.step(SchedulerEvent::CapacityAvailable),
        SchedulerCommand::Schedule { first: 4, count: 2 }
    );

    let (order, most_active, _) = drive(&mut run, vec![2, 3, 4, 5]);
    assert_eq!(order, (6..25).collect::<Vec<i32>>());
    assert!(most_active <= 4);
    assert_eq!(run.phase(), RunPhase::Terminated(Termination::Completed));
}

#[test]
fn resume_while_running_changes_nothing() {
    let mut run = Orchestrator::new(25, 4);
    run.step(SchedulerEvent::CapacityAvailable);
    assert_eq!(
        run.step(SchedulerEvent::Control(ControlMessage::Resume)),
        SchedulerCommand::Continue
    );
    assert_eq!(run.phase(), RunPhase::Running);
    assert_eq!(run.spawned(), 4);
    assert_eq!(run.active(), 4);
}

#[test]
fn stop_while_paused_aborts() {
    let mut run = Orchestrator::new(25, 4);
    run.step(SchedulerEvent::CapacityAvailable);
    run.step(SchedulerEvent::Control(ControlMessage::Pause));
    assert_eq!(
        run.step(SchedulerEvent::Control(ControlMessage::Stop)),
        SchedulerCommand::Abort
    );
    assert_eq!(run.phase(), RunPhase::Terminated(Termination::Aborted));
}

#[test]
fn a_closed_control_source_drains_the_run() {
    let mut run = Orchestrator::new(9, 4);
    run.step(SchedulerEvent::CapacityAvailable);
    assert_eq!(
        run.step(SchedulerEvent::ControlClosed),
        SchedulerCommand::Continue
    );
    assert_eq!(run.phase(), RunPhase::Draining);
    assert!(!run.reads_control());
    assert_eq!(
        run.step(SchedulerEvent::Control(ControlMessage::Stop)),
        SchedulerCommand::Continue
    );
    assert_eq!(
        run.step(SchedulerEvent::Control(ControlMessage::Pause)),
        SchedulerCommand::Continue
    );
    assert_eq!(run.phase(), RunPhase::Draining);
    let (order, _, _) = drive(&mut run, vec![0, 1, 2, 3]);
    assert_eq!(order, (4..9).collect::<Vec<i32>>());
    assert_eq!(run.phase(), RunPhase::Terminated(Termination::Completed));
}

#[test]
fn a_control_source_that_closes_during_a_pause_drains_the_run() {
    let mut run = Orchestrator::new(9, 4);
    run.step(SchedulerEvent::CapacityAvailable);
    run.step(SchedulerEvent::Control(ControlMessage::Pause));
    assert_eq!(run.phase(), RunPhase::Paused);
    assert!(!run.can_schedule());
    assert_eq!(
        run.step(SchedulerEvent::ControlClosed),
        SchedulerCommand::Continue
    );
    assert_eq!(run.phase(), RunPhase::Draining);
    assert!(!run.reads_control());
    assert_eq!(run.spawned(), 4);
    assert_eq!(run.active(), 4);
    assert!(run.awaits_completion());
    let (order, most_active, _) = drive(&mut run, vec![0, 1, 2, 3]);
    assert_eq!(order, (4..9).collect::<Vec<i32>>());
    assert!(most_active <= 4);
    assert_eq!(run.phase(), RunPhase::Terminated(Termination::Completed));
    assert_eq!(run.spawned(), 9);
}

#[test]
fn one_page_after_a_pause_and_a_closed_source_is_still_rendered() {
    let mut run = Orchestrator::new(1, 1);
    run.step(SchedulerEvent::Control(ControlMessage::Pause));
    assert_eq!(
        run.step(SchedulerEvent::ControlClosed),
        SchedulerCommand::Continue
    );
    assert_eq!(
        run.step(SchedulerEvent::CapacityAvailable),
        SchedulerCommand::Schedule { first: 0, count: 1 }
    );
    run.step(SchedulerEvent::TaskCompleted(TaskExit::Finished));
    assert_eq!(run.step(SchedulerEvent::Drained), SchedulerCommand::Finish);
    assert_eq!(run.phase(), RunPhase::Terminated(Termination::Completed));
    assert_eq!(run.completed(), 1);
}

#[test]
fn a_skipped_page_frees_its_slot() {
    let mut run = Orchestrator::new(6, 4);
    run.step(SchedulerEvent::CapacityAvailable);
    assert_eq!(run.active(), 4);
    assert!(run.accepts(SchedulerEvent::PageSkipped));
    assert_eq!(run.step(SchedulerEvent::PageSkipped), SchedulerCommand::Continue);
    assert_eq!(run.active(), 3);
    assert_eq!(run.completed(), 0);
    assert_eq!(
        run.step(SchedulerEvent::CapacityAvailable),
        SchedulerCommand::Schedule { first: 4, count: 1 }
    );
}

#[test]
fn only_tasks_that_finished_are_counted() {
    let mut run = Orchestrator::new(3, 4);
    run.step(SchedulerEvent::CapacityAvailable);
    run.step(SchedulerEvent::TaskCompleted(TaskExit::Finished));
    run.step(SchedulerEvent::TaskCompleted(TaskExit::Cancelled));
    run.step(SchedulerEvent::TaskCompleted(TaskExit::Failed));
    assert_eq!(run.completed(), 1);
    assert_eq!(run.active(), 0);
    assert!(run.is_drained());
    assert_eq!(run.step(SchedulerEvent::Drained), SchedulerCommand::Finish);
    assert_eq!(run.step(SchedulerEvent::Drained), SchedulerCommand::Finish);
    assert_eq!(
        run.step(SchedulerEvent::CapacityAvailable),
        SchedulerCommand::Finish
    );
}

#[test]
fn a_task_cannot_leave_an_empty_pool() {
    let run = Orchestrator::new(3, 4);
    assert!(!run.accepts(SchedulerEvent::TaskCompleted(TaskExit::Finished)));
    assert!(!run.accepts(SchedulerEvent::PageSkipped));
    assert!(run.accepts(SchedulerEvent::CapacityAvailable));
    assert!(run.accepts(SchedulerEvent::Drained));
    assert!(run.accepts(SchedulerEvent::ControlClosed));
    assert!(run.accepts(SchedulerEvent::Control(ControlMessage::Stop)));
}

#[test]
fn drained_is_ignored_while_tasks_are_active() {
    let mut run = Orchestrator::new(2, 4);
    run.step(SchedulerEvent::CapacityAvailable);
    assert_eq!(run.step(SchedulerEvent::Drained), SchedulerCommand::Continue);
    assert_eq!(run.phase(), RunPhase::Running);
}
