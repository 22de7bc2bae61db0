//! What holds of every run of the scheduler.
//!
//! The laws speak of [`SchedulerView::step`], which is what
//! [`Orchestrator::step`](crate::orchestrator::Orchestrator::step) computes,
//! and of whole runs: sequences of events told to the scheduler one after
//! the other.

use crate::orchestrator::{
    ControlMessage, RunPhase, SchedulerCommand, SchedulerEvent, SchedulerView, TaskExit,
    Termination,
};
use vstd::prelude::*;

verus! {

/// The pages that a command starts, in order.
pub open spec fn pages_of(command: SchedulerCommand) -> Seq<int> {
    match command {
        SchedulerCommand::Schedule { first, count } => Seq::new(
            count as nat,
            |i: int| first as int + i,
        ),
        _ => seq![],
    }
}

/// The pages that a list of commands starts, in order.
pub open spec fn scheduled(commands: Seq<SchedulerCommand>) -> Seq<int>
    decreases commands.len(),
{
    if commands.len() == 0 {
        seq![]
    } else {
        scheduled(commands.drop_last()) + pages_of(commands.last())
    }
}

/// The page indices from `from` up to, not including, `to`.
pub open spec fn page_range(from: int, to: int) -> Seq<int> {
    Seq::new((to - from) as nat, |i: int| from + i)
}

impl SchedulerView {
    /// The run after each of `events` in turn, and the commands it gave.
    pub open spec fn run(self, events: Seq<SchedulerEvent>) -> (
        SchedulerView,
        Seq<SchedulerCommand>,
    )
        decreases events.len(),
    {
        if events.len() == 0 {
            (self, seq![])
        } else {
            let (before, commands) = self.run(events.drop_last());
            let (after, command) = before.step(events.last());
            (after, commands.push(command))
        }
    }

    /// Each of `events` can be told to the run when its turn comes.
    pub open spec fn admits(self, events: Seq<SchedulerEvent>) -> bool
        decreases events.len(),
    {
        events.len() == 0 || (self.admits(events.drop_last()) && self.run(
            events.drop_last(),
        ).0.accepts(events.last()))
    }

    /// How far the run is from its end: it shrinks with every page that is
    /// scheduled and with every task that leaves the pool.
    pub open spec fn distance(self) -> int {
        2 * (self.page_total - self.spawned) + self.active
    }

    /// What a caller tells a run when no control message is ready: that the
    /// pool has room, if a page can be scheduled; else that a task has left
    /// the pool, if one is active; else that the pool is empty.
    pub open spec fn next_unattended(self) -> SchedulerEvent {
        if self.can_schedule() {
            SchedulerEvent::CapacityAvailable
        } else if self.awaits_completion() {
            SchedulerEvent::TaskCompleted(TaskExit::Finished)
        } else {
            SchedulerEvent::Drained
        }
    }

    /// The first `steps` events of a run that nobody controls and in which
    /// every task ends by itself.
    pub open spec fn unattended(self, steps: nat) -> Seq<SchedulerEvent>
        decreases steps,
    {
        if steps == 0 {
            seq![]
        } else {
            let earlier = self.unattended((steps - 1) as nat);
            earlier.push(self.run(earlier).0.next_unattended())
        }
    }
}

/// One step keeps the counters consistent: the document and the pool stay
/// what they are, the pool is never fuller than its capacity, and the pages
/// that the step schedules are those from the old mark up to the new one.
pub proof fn lemma_step_keeps_order(run: SchedulerView, event: SchedulerEvent)
    requires
        run.wf(),
        run.accepts(event),
    ensures
        ({
            let (after, command) = run.step(event);
            &&& after.wf()
            &&& after.page_total == run.page_total
            &&& after.capacity == run.capacity
            &&& run.spawned <= after.spawned
            &&& pages_of(command) == page_range(run.spawned, after.spawned)
            &&& run.terminated() ==> after == run
        }),
{
    let (after, command) = run.step(event);
    assert(pages_of(command) =~= page_range(run.spawned, after.spawned));
}

/// Pages are scheduled in strictly increasing order, none twice and none
/// left out: over any run, the pages scheduled are exactly those from the
/// mark at its start up to the mark at its end. The pool is never fuller
/// than its capacity.
pub proof fn lemma_pages_scheduled_in_order(run: SchedulerView, events: Seq<SchedulerEvent>)
    requires
        run.wf(),
        run.admits(events),
    ensures
        ({
            let (after, commands) = run.run(events);
            &&& after.wf()
            &&& after.page_total == run.page_total
            &&& after.capacity == run.capacity
            &&& run.spawned <= after.spawned
            &&& scheduled(commands) == page_range(run.spawned, after.spawned)
            &&& commands.len() == events.len()
        }),
    decreases events.len(),
{
    if events.len() > 0 {
        let (before, earlier) = run.run(events.drop_last());
        let (after, command) = before.step(events.last());
        lemma_pages_scheduled_in_order(run, events.drop_last());
        lemma_step_keeps_order(before, events.last());
        assert(earlier.push(command).drop_last() =~= earlier);
        assert(scheduled(earlier.push(command)) =~= page_range(run.spawned, after.spawned));
    }
}

/// Whether `event` stops a run in state `run`: it is a stop message, and the
/// run reads control messages.
pub open spec fn stops(run: SchedulerView, event: SchedulerEvent) -> bool {
    run.reads_control() && event == SchedulerEvent::Control(ControlMessage::Stop)
}

/// None of `events` is a stop message.
pub open spec fn never_stopped(events: Seq<SchedulerEvent>) -> bool {
    forall|i: int|
        0 <= i < events.len() ==> #[trigger] events[i] != SchedulerEvent::Control(
            ControlMessage::Stop,
        )
}

/// A run that is not stopped schedules every page exactly once.
///
/// A run that started fresh and is complete has scheduled the pages
/// `0, 1, ... page_total - 1`, each once and in this order, and its pool is
/// empty. A run ends aborted only on [`ControlMessage::Stop`]: a run that
/// was never told to stop and is over is complete, whatever else it was
/// told, pauses and the end of the control source included.
pub proof fn lemma_complete_run_schedules_every_page(
    page_total: int,
    capacity: int,
    events: Seq<SchedulerEvent>,
)
    requires
        0 <= page_total <= i32::MAX,
        0 <= capacity <= usize::MAX,
        SchedulerView::fresh(page_total, capacity).admits(events),
    ensures
        ({
            let (after, commands) = SchedulerView::fresh(page_total, capacity).run(events);
            &&& after.phase == RunPhase::Terminated(Termination::Completed) ==> {
                &&& scheduled(commands) == page_range(0, page_total)
                &&& after.active == 0
            }
            &&& after.phase == RunPhase::Terminated(Termination::Aborted) ==> exists|i: int|
                0 <= i < events.len() && stops(
                    (#[trigger] SchedulerView::fresh(page_total, capacity).run(events.take(i))).0,
                    events[i],
                )
            &&& after.terminated() && never_stopped(events) ==> {
                &&& after.phase == RunPhase::Terminated(Termination::Completed)
                &&& scheduled(commands) == page_range(0, page_total)
            }
        }),
{
    let fresh = SchedulerView::fresh(page_total, capacity);
    lemma_pages_scheduled_in_order(fresh, events);
    lemma_end_has_cause(fresh, events);
}

/// A run that was not over at its start and is complete at its end is
/// drained; one that is aborted was stopped by one of its events.
proof fn lemma_end_has_cause(run: SchedulerView, events: Seq<SchedulerEvent>)
    requires
        run.wf(),
        run.admits(events),
        !run.terminated(),
    ensures
        ({
            let after = run.run(events).0;
            &&& after.phase == RunPhase::Terminated(Termination::Completed) ==> {
                &&& after.spawned == after.page_total
                &&& after.active == 0
            }
            &&& after.phase == RunPhase::Terminated(Termination::Aborted) ==> exists|i: int|
                0 <= i < events.len() && stops((#[trigger] run.run(events.take(i))).0, events[i])
        }),
    decreases events.len(),
{
    if events.len() > 0 {
        let earlier = events.drop_last();
        let before = run.run(earlier).0;
        lemma_end_has_cause(run, earlier);
        lemma_pages_scheduled_in_order(run, earlier);
        let after = before.step(events.last()).0;
        if after.phase == RunPhase::Terminated(Termination::Aborted) {
            if before.terminated() {
                let i = choose|i: int|
                    0 <= i < earlier.len() && stops(
                        (#[trigger] run.run(earlier.take(i))).0,
                        earlier[i],
                    );
                assert(earlier.take(i) =~= events.take(i));
                assert(stops(run.run(events.take(i)).0, events[i]));
            } else {
                let i = events.len() - 1;
                assert(events.take(i) =~= earlier);
                assert(stops(run.run(events.take(i)).0, events[i]));
            }
        }
    }
}

/// A stop ends the run at once, however many tasks are active: the run is
/// aborted in the same step, without waiting for any task, and whatever it is
/// told afterwards it schedules no page and stays as it is.
pub proof fn lemma_stop_aborts_at_once(run: SchedulerView, later: Seq<SchedulerEvent>)
    requires
        run.reads_control(),
    ensures
        ({
            let (stopped, command) = run.step(SchedulerEvent::Control(ControlMessage::Stop));
            let (after, commands) = stopped.run(later);
            &&& command == SchedulerCommand::Abort
            &&& stopped == run.in_phase(RunPhase::Terminated(Termination::Aborted))
            &&& after == stopped
            &&& scheduled(commands) == Seq::<int>::empty()
            &&& forall|i: int| 0 <= i < commands.len() ==> commands[i] == SchedulerCommand::Abort
        }),
    decreases later.len(),
{
    if later.len() > 0 {
        lemma_stop_aborts_at_once(run, later.drop_last());
        let stopped = run.step(SchedulerEvent::Control(ControlMessage::Stop)).0;
        let (before, earlier) = stopped.run(later.drop_last());
        let command = before.step(later.last()).1;
        assert(earlier.push(command).drop_last() =~= earlier);
    }
}

/// Whether `event` leaves a paused run paused: it is neither a resume nor a
/// stop nor the end of the control source, which makes a paused run drain.
pub open spec fn keeps_paused(event: SchedulerEvent) -> bool {
    &&& event != SchedulerEvent::Control(ControlMessage::Resume)
    &&& event != SchedulerEvent::Control(ControlMessage::Stop)
    &&& event != SchedulerEvent::ControlClosed
}

/// A paused run schedules nothing and keeps its place: whatever happens
/// between a pause and the resume, no page is scheduled, and after the resume
/// the run is running again with the next unscheduled page where it was. A
/// second pause changes nothing.
pub proof fn lemma_pause_then_resume_keeps_place(run: SchedulerView, during: Seq<SchedulerEvent>)
    requires
        run.phase is Running,
        forall|i: int| 0 <= i < during.len() ==> keeps_paused(#[trigger] during[i]),
    ensures
        ({
            let (paused, first) = run.step(SchedulerEvent::Control(ControlMessage::Pause));
            let (waited, commands) = paused.run(during);
            let (resumed, last) = waited.step(SchedulerEvent::Control(ControlMessage::Resume));
            &&& paused == run.in_phase(RunPhase::Paused)
            &&& paused.step(SchedulerEvent::Control(ControlMessage::Pause)).0 == paused
            &&& waited.phase is Paused
            &&& waited.spawned == run.spawned
            &&& scheduled(commands) == Seq::<int>::empty()
            &&& resumed == waited.in_phase(RunPhase::Running)
            &&& resumed.spawned == run.spawned
            &&& first == SchedulerCommand::Continue
            &&& last == SchedulerCommand::Continue
        }),
    decreases during.len(),
{
    if during.len() > 0 {
        lemma_pause_then_resume_keeps_place(run, during.drop_last());
        let paused = run.step(SchedulerEvent::Control(ControlMessage::Pause)).0;
        let (before, earlier) = paused.run(during.drop_last());
        let command = before.step(during.last()).1;
        assert(keeps_paused(during[during.len() - 1]));
        assert(earlier.push(command).drop_last() =~= earlier);
    }
}

/// Left alone, a run comes to its end: with a pool of at least one slot and
/// without control messages, a run in which every task ends is complete
/// after at most two steps for each page and one more, and has then scheduled
/// every page exactly once.
pub proof fn lemma_unattended_run_completes(page_total: int, capacity: int)
    requires
        0 <= page_total <= i32::MAX,
        1 <= capacity <= usize::MAX,
    ensures
        ({
            let fresh = SchedulerView::fresh(page_total, capacity);
            let events = fresh.unattended((2 * page_total + 1) as nat);
            let (after, commands) = fresh.run(events);
            &&& fresh.admits(events)
            &&& after.phase == RunPhase::Terminated(Termination::Completed)
            &&& scheduled(commands) == page_range(0, page_total)
        }),
{
    let fresh = SchedulerView::fresh(page_total, capacity);
    let steps = (2 * page_total + 1) as nat;
    lemma_unattended_run_nears_end(fresh, steps);
    lemma_complete_run_schedules_every_page(page_total, capacity, fresh.unattended(steps));
}

/// A run whose control source is exhausted drains to its natural end.
///
/// When the control source ends, a run that read it, running or paused,
/// drains: it keeps its place and its tasks, and control messages change
/// nothing any more. With a pool of at least one slot and tasks that end, it
/// is then complete after as many steps as it is far from its end and one
/// more, and has scheduled every page that was left, each once and in
/// order.
pub proof fn lemma_exhausted_source_drains_to_completion(run: SchedulerView)
    requires
        run.wf(),
        run.reads_control(),
        run.capacity >= 1,
    ensures
        ({
            let (draining, command) = run.step(SchedulerEvent::ControlClosed);
            let events = draining.unattended((run.distance() + 1) as nat);
            let (after, commands) = draining.run(events);
            &&& command == SchedulerCommand::Continue
            &&& draining == run.in_phase(RunPhase::Draining)
            &&& !draining.reads_control()
            &&& forall|message: ControlMessage|
                #[trigger] draining.step(SchedulerEvent::Control(message)) == (
                    draining,
                    SchedulerCommand::Continue,
                )
            &&& draining.admits(events)
            &&& after.phase == RunPhase::Terminated(Termination::Completed)
            &&& scheduled(commands) == page_range(run.spawned, run.page_total)
        }),
{
    let draining = run.step(SchedulerEvent::ControlClosed).0;
    let steps = (run.distance() + 1) as nat;
    lemma_unattended_run_nears_end(draining, steps);
    lemma_pages_scheduled_in_order(draining, draining.unattended(steps));
    lemma_end_has_cause(draining, draining.unattended(steps));
}

/// Every step of an unattended run brings it nearer its end, until it is
/// complete.
proof fn lemma_unattended_run_nears_end(run: SchedulerView, steps: nat)
    requires
        run.wf(),
        run.working(),
        run.capacity >= 1,
    ensures
        ({
            let events = run.unattended(steps);
            let after = run.run(events).0;
            &&& events.len() == steps
            &&& run.admits(events)
            &&& after.wf()
            &&& after.capacity == run.capacity
            &&& after.phase == RunPhase::Terminated(Termination::Completed) || (after.phase
                == run.phase && after.distance() + steps <= run.distance())
        }),
    decreases steps,
{
    if steps > 0 {
        let earlier = run.unattended((steps - 1) as nat);
        lemma_unattended_run_nears_end(run, (steps - 1) as nat);
        lemma_pages_scheduled_in_order(run, earlier);
        let before = run.run(earlier).0;
        let events = earlier.push(before.next_unattended());
        assert(events.drop_last() =~= earlier);
        assert(events.last() == before.next_unattended());
        if before.working() {
            lemma_working_run_advances(before);
        }
    }
}

/// A run that works is never stuck: with a pool of at least one slot, there
/// is a page to schedule, a task to wait for, or the run is drained. A
/// scheduling step and the leaving of a task each bring the run nearer its
/// end.
pub proof fn lemma_working_run_advances(run: SchedulerView)
    requires
        run.wf(),
        run.working(),
        run.capacity >= 1,
    ensures
        run.can_schedule() || run.awaits_completion() || run.drained(),
        run.distance() >= 0,
        run.can_schedule() ==> run.step(SchedulerEvent::CapacityAvailable).0.distance()
            < run.distance(),
        run.awaits_completion() ==> forall|exit: TaskExit|
            (#[trigger] run.step(SchedulerEvent::TaskCompleted(exit))).0.distance()
                < run.distance(),
        run.drained() ==> run.step(SchedulerEvent::Drained) == (
            run.in_phase(RunPhase::Terminated(Termination::Completed)),
            SchedulerCommand::Finish,
        ),
{
}

} // verus!
