//! The scheduler of a run: which pages start, in which order, how many may be
//! active, and when the run ends.
//!
//! The caller owns the loop. It watches the control source and the pool of
//! workers, tells the [`Orchestrator`] what it saw ([`SchedulerEvent`]), and
//! does what the answer says ([`SchedulerCommand`]). Where several things are
//! ready at once, it reports them in this order: a control message, room in
//! the pool, a finished task, an empty pool with nothing left to schedule.

use vstd::prelude::*;

verus! {

/// The most pages that one scheduling step starts.
pub const BATCH_SIZE: usize = 4;

/// What the caller may tell a run from outside.
#[derive(Debug, Clone, Copy, PartialEq, Eq, Structural)]
pub enum ControlMessage {
    Stop,
    Pause,
    Resume,
}

/// How a run ended.
#[derive(Debug, Clone, Copy, PartialEq, Eq, Structural)]
pub enum Termination {
    /// Every page was scheduled and every task has left the pool.
    Completed,
    /// The run was stopped.
    Aborted,
}

/// Where a run stands.
#[derive(Debug, Clone, Copy, PartialEq, Eq, Structural)]
pub enum RunPhase {
    /// Pages are scheduled as the pool has room.
    Running,
    /// Nothing is scheduled; only control messages are read.
    Paused,
    /// The control source is exhausted; scheduling goes on to the end.
    Draining,
    /// The run is over.
    Terminated(Termination),
}

/// How a task left the pool.
#[derive(Debug, Clone, Copy, PartialEq, Eq, Structural)]
pub enum TaskExit {
    /// The task ran to its end.
    Finished,
    /// The task was cancelled.
    Cancelled,
    /// The task failed outside its own error handling.
    Failed,
}

/// What the caller saw.
#[derive(Debug, Clone, Copy, PartialEq, Eq, Structural)]
pub enum SchedulerEvent {
    /// A control message arrived.
    Control(ControlMessage),
    /// The control source is exhausted: no message will ever arrive.
    ControlClosed,
    /// Nothing of higher priority is ready; pages may be scheduled.
    CapacityAvailable,
    /// A scheduled page did not get a task, because its handles could not be
    /// cloned.
    PageSkipped,
    /// A task left the pool.
    TaskCompleted(TaskExit),
    /// Nothing of higher priority is ready; the run may be over.
    Drained,
}

/// What the caller is to do.
#[derive(Debug, Clone, Copy, PartialEq, Eq, Structural)]
pub enum SchedulerCommand {
    /// Go on watching.
    Continue,
    /// Start the pages `first`, `first + 1`, ... `first + count - 1`, in this
    /// order.
    Schedule { first: i32, count: usize },
    /// Cancel every task in the pool and leave the loop; the run is aborted.
    Abort,
    /// Leave the loop; the run is complete.
    Finish,
}

/// What an [`Orchestrator`] holds.
pub struct SchedulerView {
    /// The number of pages of the document.
    pub page_total: int,
    /// The most tasks that may be active at once.
    pub capacity: int,
    pub phase: RunPhase,
    /// The number of pages scheduled so far, which is also the next index to
    /// schedule.
    pub spawned: int,
    /// The number of scheduled pages that hold a slot of the pool.
    pub active: int,
    /// The number of tasks that ran to their end.
    pub completed: int,
}

impl SchedulerView {
    /// The counters are consistent: no more pages are scheduled than the
    /// document has, no more tasks are active than the pool allows, and every
    /// active or completed task belongs to a scheduled page.
    pub open spec fn wf(self) -> bool {
        &&& 0 <= self.spawned <= self.page_total <= i32::MAX
        &&& 0 <= self.active <= self.capacity <= usize::MAX
        &&& 0 <= self.completed
        &&& self.completed + self.active <= self.spawned
    }

    /// The run before its first event.
    pub open spec fn fresh(page_total: int, capacity: int) -> SchedulerView {
        SchedulerView {
            page_total: if page_total < 0 {
                0
            } else {
                page_total
            },
            capacity,
            phase: RunPhase::Running,
            spawned: 0,
            active: 0,
            completed: 0,
        }
    }

    /// The run in another phase.
    pub open spec fn in_phase(self, phase: RunPhase) -> SchedulerView {
        SchedulerView { phase, ..self }
    }

    /// The run is over.
    pub open spec fn terminated(self) -> bool {
        self.phase is Terminated
    }

    /// The run schedules and collects: it is neither paused nor over.
    pub open spec fn working(self) -> bool {
        self.phase is Running || self.phase is Draining
    }

    /// Control messages are read.
    pub open spec fn reads_control(self) -> bool {
        self.phase is Running || self.phase is Paused
    }

    /// A page can be scheduled now.
    pub open spec fn can_schedule(self) -> bool {
        self.working() && self.spawned < self.page_total && self.active < self.capacity
    }

    /// The run waits for a task to leave the pool.
    pub open spec fn awaits_completion(self) -> bool {
        self.working() && self.active > 0
    }

    /// Every page is scheduled and the pool is empty.
    pub open spec fn drained(self) -> bool {
        self.working() && self.spawned >= self.page_total && self.active == 0
    }

    /// The number of pages that the next scheduling step starts: as many as
    /// the pool has room for and the document has left, and at most
    /// [`BATCH_SIZE`].
    pub open spec fn batch(self) -> int {
        let room = self.capacity - self.active;
        let left = self.page_total - self.spawned;
        let most = if room < left {
            room
        } else {
            left
        };
        if most < BATCH_SIZE as int {
            most
        } else {
            BATCH_SIZE as int
        }
    }

    /// Whether `event` can be told to the run. A task cannot leave an empty
    /// pool, and a page cannot be skipped that holds no slot; everything else
    /// can always be told.
    pub open spec fn accepts(self, event: SchedulerEvent) -> bool {
        match event {
            SchedulerEvent::TaskCompleted(_) => self.terminated() || self.active > 0,
            SchedulerEvent::PageSkipped => self.terminated() || self.active > 0,
            _ => true,
        }
    }

    /// The command that a run which is over gives to whatever it is told.
    pub open spec fn last_word(self) -> SchedulerCommand {
        match self.phase {
            RunPhase::Terminated(Termination::Aborted) => SchedulerCommand::Abort,
            _ => SchedulerCommand::Finish,
        }
    }

    /// The step on a control message.
    pub open spec fn on_control(self, message: ControlMessage) -> (
        SchedulerView,
        SchedulerCommand,
    ) {
        match (self.phase, message) {
            (RunPhase::Running, ControlMessage::Stop) => (
                self.in_phase(RunPhase::Terminated(Termination::Aborted)),
                SchedulerCommand::Abort,
            ),
            (RunPhase::Paused, ControlMessage::Stop) => (
                self.in_phase(RunPhase::Terminated(Termination::Aborted)),
                SchedulerCommand::Abort,
            ),
            (RunPhase::Running, ControlMessage::Pause) => (
                self.in_phase(RunPhase::Paused),
                SchedulerCommand::Continue,
            ),
            (RunPhase::Paused, ControlMessage::Resume) => (
                self.in_phase(RunPhase::Running),
                SchedulerCommand::Continue,
            ),
            _ => (self, SchedulerCommand::Continue),
        }
    }

    /// The step on the end of the control source: a run that read control
    /// messages, running or paused, drains. Nobody can resume or stop it any
    /// more, so it goes on scheduling to its natural end.
    pub open spec fn on_control_closed(self) -> (SchedulerView, SchedulerCommand) {
        if self.reads_control() {
            (self.in_phase(RunPhase::Draining), SchedulerCommand::Continue)
        } else {
            (self, SchedulerCommand::Continue)
        }
    }

    /// The step on room in the pool.
    pub open spec fn on_capacity(self) -> (SchedulerView, SchedulerCommand) {
        if self.can_schedule() {
            (
                SchedulerView {
                    spawned: self.spawned + self.batch(),
                    active: self.active + self.batch(),
                    ..self
                },
                SchedulerCommand::Schedule {
                    first: self.spawned as i32,
                    count: self.batch() as usize,
                },
            )
        } else {
            (self, SchedulerCommand::Continue)
        }
    }

    /// The step on a page that did not get a task: its slot is free again.
    pub open spec fn on_page_skipped(self) -> (SchedulerView, SchedulerCommand) {
        (SchedulerView { active: self.active - 1, ..self }, SchedulerCommand::Continue)
    }

    /// The step on a task that left the pool: its slot is free again, and a
    /// task that ran to its end is counted.
    pub open spec fn on_task_completed(self, exit: TaskExit) -> (SchedulerView, SchedulerCommand) {
        (
            SchedulerView {
                active: self.active - 1,
                completed: if exit is Finished {
                    self.completed + 1
                } else {
                    self.completed
                },
                ..self
            },
            SchedulerCommand::Continue,
        )
    }

    /// The step on an empty pool.
    pub open spec fn on_drained(self) -> (SchedulerView, SchedulerCommand) {
        if self.drained() {
            (
                self.in_phase(RunPhase::Terminated(Termination::Completed)),
                SchedulerCommand::Finish,
            )
        } else {
            (self, SchedulerCommand::Continue)
        }
    }

    /// The run after `event`, and what the caller is to do.
    ///
    /// A run that is over stays as it is and repeats its last word. While
    /// paused, nothing is scheduled and the run does not end by itself.
    pub open spec fn step(self, event: SchedulerEvent) -> (SchedulerView, SchedulerCommand) {
        if self.terminated() {
            (self, self.last_word())
        } else {
            match event {
                SchedulerEvent::Control(message) => self.on_control(message),
                SchedulerEvent::ControlClosed => self.on_control_closed(),
                SchedulerEvent::CapacityAvailable => self.on_capacity(),
                SchedulerEvent::PageSkipped => self.on_page_skipped(),
                SchedulerEvent::TaskCompleted(exit) => self.on_task_completed(exit),
                SchedulerEvent::Drained => self.on_drained(),
            }
        }
    }
}

/// The scheduler of one run.
#[derive(Debug)]
pub struct Orchestrator {
    page_total: i32,
    capacity: usize,
    phase: RunPhase,
    spawned: i32,
    active: usize,
    completed: i32,
}

impl View for Orchestrator {
    type V = SchedulerView;

    closed spec fn view(&self) -> SchedulerView {
        SchedulerView {
            page_total: self.page_total as int,
            capacity: self.capacity as int,
            phase: self.phase,
            spawned: self.spawned as int,
            active: self.active as int,
            completed: self.completed as int,
        }
    }
}

impl Orchestrator {
    #[verifier::type_invariant]
    spec fn consistent(self) -> bool {
        self@.wf()
    }

    /// The scheduler for a document of `page_count` pages and a pool of
    /// `max_concurrency` slots. A negative page count is a document without
    /// pages.
    pub fn new(page_count: i32, max_concurrency: usize) -> (run: Orchestrator)
        ensures
            run@ == SchedulerView::fresh(page_count as int, max_concurrency as int),
            run@.wf(),
    {
        Orchestrator {
            page_total: if page_count < 0 {
                0
            } else {
                page_count
            },
            capacity: max_concurrency,
            phase: RunPhase::Running,
            spawned: 0,
            active: 0,
            completed: 0,
        }
    }

    /// Whether `event` can be told to the run now.
    pub fn accepts(&self, event: SchedulerEvent) -> (ok: bool)
        ensures
            ok == self@.accepts(event),
    {
        match event {
            SchedulerEvent::TaskCompleted(_) => self.is_terminated() || self.active > 0,
            SchedulerEvent::PageSkipped => self.is_terminated() || self.active > 0,
            _ => true,
        }
    }

    /// Whether the run is over.
    pub fn is_terminated(&self) -> (over: bool)
        ensures
            over == self@.terminated(),
    {
        match self.phase {
            RunPhase::Terminated(_) => true,
            _ => false,
        }
    }

    /// Where the run stands.
    pub fn phase(&self) -> (phase: RunPhase)
        ensures
            phase == self@.phase,
    {
        self.phase
    }

    /// The number of pages of the document.
    pub fn page_total(&self) -> (total: i32)
        ensures
            total as int == self@.page_total,
    {
        self.page_total
    }

    /// The most tasks that may be active at once.
    pub fn capacity(&self) -> (capacity: usize)
        ensures
            capacity as int == self@.capacity,
    {
        self.capacity
    }

    /// The number of pages scheduled so far, which is the next index to
    /// schedule.
    pub fn spawned(&self) -> (spawned: i32)
        ensures
            spawned as int == self@.spawned,
            0 <= spawned as int <= self@.page_total,
    {
        proof {
            use_type_invariant(self);
        }
        self.spawned
    }

    /// The number of scheduled pages that hold a slot of the pool.
    pub fn active(&self) -> (active: usize)
        ensures
            active as int == self@.active,
            active as int <= self@.capacity,
    {
        proof {
            use_type_invariant(self);
        }
        self.active
    }

    /// The number of tasks that ran to their end.
    pub fn completed(&self) -> (completed: i32)
        ensures
            completed as int == self@.completed,
            completed as int + self@.active <= self@.spawned,
    {
        proof {
            use_type_invariant(self);
        }
        self.completed
    }

    /// Whether the caller is to watch the control source.
    pub fn reads_control(&self) -> (reads: bool)
        ensures
            reads == self@.reads_control(),
    {
        match self.phase {
            RunPhase::Running => true,
            RunPhase::Paused => true,
            _ => false,
        }
    }

    /// Whether a page can be scheduled now: the caller reports
    /// [`SchedulerEvent::CapacityAvailable`] when no control message is
    /// ready.
    pub fn can_schedule(&self) -> (can: bool)
        ensures
            can == self@.can_schedule(),
    {
        self.is_working() && self.spawned < self.page_total && self.active < self.capacity
    }

    /// Whether the caller is to wait for a task to leave the pool.
    pub fn awaits_completion(&self) -> (awaits: bool)
        ensures
            awaits == self@.awaits_completion(),
    {
        self.is_working() && self.active > 0
    }

    /// Whether every page is scheduled and the pool is empty: the caller
    /// reports [`SchedulerEvent::Drained`] when nothing else is ready.
    pub fn is_drained(&self) -> (drained: bool)
        ensures
            drained == self@.drained(),
    {
        self.is_working() && self.spawned >= self.page_total && self.active == 0
    }

    /// Whether the run schedules and collects.
    fn is_working(&self) -> (working: bool)
        ensures
            working == self@.working(),
    {
        match self.phase {
            RunPhase::Running => true,
            RunPhase::Draining => true,
            _ => false,
        }
    }

    /// The number of pages that the next scheduling step starts.
    fn batch(&self) -> (count: usize)
        requires
            self@.can_schedule(),
        ensures
            count as int == self@.batch(),
            1 <= count <= BATCH_SIZE,
            self@.spawned + count <= self@.page_total,
            self@.active + count <= self@.capacity,
    {
        proof {
            use_type_invariant(self);
        }
        let room: usize = self.capacity - self.active;
        let left: i32 = self.page_total - self.spawned;
        let mut count: usize = BATCH_SIZE;
        if room < count {
            count = room;
        }
        if left < 4 {
            let left_pages: usize = left as usize;
            if left_pages < count {
                count = left_pages;
            }
        }
        count
    }

    /// Tells the run what the caller saw, and returns what the caller is to
    /// do.
    pub fn step(&mut self, event: SchedulerEvent) -> (command: SchedulerCommand)
        requires
            old(self)@.accepts(event),
        ensures
            (final(self)@, command) == old(self)@.step(event),
            final(self)@.wf(),
    {
        proof {
            use_type_invariant(&*self);
        }
        let phase = self.phase;
        if self.is_terminated() {
            return match phase {
                RunPhase::Terminated(Termination::Aborted) => SchedulerCommand::Abort,
                _ => SchedulerCommand::Finish,
            };
        }
        match event {
            SchedulerEvent::Control(message) => {
                match (phase, message) {
                    (RunPhase::Running, ControlMessage::Stop) => {
                        self.phase = RunPhase::Terminated(Termination::Aborted);
                        SchedulerCommand::Abort
                    },
                    (RunPhase::Paused, ControlMessage::Stop) => {
                        self.phase = RunPhase::Terminated(Termination::Aborted);
                        SchedulerCommand::Abort
                    },
                    (RunPhase::Running, ControlMessage::Pause) => {
                        self.phase = RunPhase::Paused;
                        SchedulerCommand::Continue
                    },
                    (RunPhase::Paused, ControlMessage::Resume) => {
                        self.phase = RunPhase::Running;
                        SchedulerCommand::Continue
                    },
                    _ => SchedulerCommand::Continue,
                }
            },
            SchedulerEvent::ControlClosed => {
                match phase {
                    RunPhase::Running => {
                        self.phase = RunPhase::Draining;
                        SchedulerCommand::Continue
                    },
                    RunPhase::Paused => {
                        self.phase = RunPhase::Draining;
                        SchedulerCommand::Continue
                    },
                    _ => SchedulerCommand::Continue,
                }
            },
            SchedulerEvent::CapacityAvailable => {
                if self.can_schedule() {
                    let count = self.batch();
                    let first = self.spawned;
                    self.spawned = first + count as i32;
                    self.active = self.active + count;
                    SchedulerCommand::Schedule { first, count }
                } else {
                    SchedulerCommand::Continue
                }
            },
            SchedulerEvent::PageSkipped => {
                self.active = self.active - 1;
                SchedulerCommand::Continue
            },
            SchedulerEvent::TaskCompleted(exit) => {
                self.active = self.active - 1;
                match exit {
                    TaskExit::Finished => {
                        self.completed = self.completed + 1;
                    },
                    _ => {},
                }
                SchedulerCommand::Continue
            },
            SchedulerEvent::Drained => {
                if self.is_drained() {
                    self.phase = RunPhase::Terminated(Termination::Completed);
                    SchedulerCommand::Finish
                } else {
                    SchedulerCommand::Continue
                }
            },
        }
    }
}

} // verus!
