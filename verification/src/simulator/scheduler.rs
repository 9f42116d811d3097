//! The scheduler of simulated time. Each task of the simulation either runs
//! or waits, for a message or until an instant; time moves on only while
//! every task waits. The scheduler decides which waiting task to wake and
//! with what; the one who runs it wakes the tasks it names.
//!
//! Times are microseconds on the simulation clock. Task `i` (from 0) has the
//! identifier `i + 1`.
use vstd::prelude::*;

verus! {

/// Identifies a specific task (never zero).
pub type SimulatorTaskId = u32;

/// Specifies the receiver of a message
#[derive(Debug, Clone, Copy, PartialEq, Eq, Structural)]
pub enum SimulatorMessageDest {
    /// The task with this identifier
    Task(SimulatorTaskId),
    /// Every task but the one with this identifier
    Exclude(SimulatorTaskId),
    /// All tasks
    All,
}

/// What a task is doing.
#[derive(Debug, Clone, Copy, PartialEq, Eq, Structural)]
pub enum TaskState {
    /// No task in this slot
    Empty,
    Running,
    /// Waiting for a message
    Wait,
    /// Waiting for a message or an instant
    WaitUntil { when: u64 },
}

/// What a waiting task learns when its wait ends: the instant it waited
/// for has come, a message for it, or the end of the simulation.
#[derive(Debug, Clone)]
pub enum SimulatorEvent<M> {
    Timeout,
    Message(M),
    Shutdown,
}

/// What the scheduler decided: nothing, a message for some waiting tasks,
/// or the end of the wait of one task.
#[derive(Debug)]
pub enum SchedulerAction<M> {
    Idle,
    /// `msg` goes to each task of `tasks`
    Deliver { tasks: Vec<usize>, msg: M },
    /// The instant that task `task` waited for has come
    Timeout { task: usize },
}

/// The state of the scheduler.
pub struct SchedulerDataMut<M> {
    pub current_time: u64,
    pub task_states: Vec<TaskState>,
    /// Messages not delivered yet; the last one is delivered first.
    pub message_queue: Vec<(SimulatorMessageDest, M)>,
}

pub open spec fn is_waiting(s: TaskState) -> bool {
    s is Wait || s is WaitUntil
}

/// Some task runs.
pub open spec fn any_running(states: Seq<TaskState>) -> bool {
    exists|i: int| 0 <= i < states.len() && #[trigger] states[i] is Running
}

/// Task `i` waits for the earliest instant of all, and no task before it
/// waits for the same instant.
pub open spec fn is_earliest(states: Seq<TaskState>, i: int) -> bool {
    &&& 0 <= i < states.len()
    &&& states[i] is WaitUntil
    &&& forall|j: int|
        0 <= j < states.len() && #[trigger] states[j] is WaitUntil ==> {
            ||| states[i]->when < states[j]->when
            ||| states[i]->when == states[j]->when && i <= j
        }
}

/// Some task waits for an instant.
pub open spec fn any_wait_until(states: Seq<TaskState>) -> bool {
    exists|i: int| 0 <= i < states.len() && #[trigger] states[i] is WaitUntil
}

/// Task `i` is a receiver of a message for `dest`.
pub open spec fn receives(dest: SimulatorMessageDest, i: int) -> bool {
    match dest {
        SimulatorMessageDest::Task(id) => i == id - 1,
        SimulatorMessageDest::Exclude(id) => i != id - 1,
        SimulatorMessageDest::All => true,
    }
}

/// The tasks among the first `n` of `states` that receive a message for
/// `dest`, in increasing order: those that are receivers and wait.
pub open spec fn receivers_below(states: Seq<TaskState>, dest: SimulatorMessageDest, n: nat) -> Seq<
    usize,
>
    decreases n,
{
    if n == 0 {
        Seq::empty()
    } else {
        let p = receivers_below(states, dest, (n - 1) as nat);
        if receives(dest, n - 1) && is_waiting(states[n - 1]) {
            p.push((n - 1) as usize)
        } else {
            p
        }
    }
}

/// The tasks of `states` that receive a message for `dest`.
pub open spec fn receivers(states: Seq<TaskState>, dest: SimulatorMessageDest) -> Seq<usize> {
    receivers_below(states, dest, states.len())
}

/// The receivers are listed in increasing order, each once, and they are
/// exactly the waiting tasks that a message for `dest` is for.
pub proof fn lemma_receivers(states: Seq<TaskState>, dest: SimulatorMessageDest, n: nat)
    requires
        n <= states.len(),
        states.len() <= usize::MAX,
    ensures
        forall|a: int, b: int|
            0 <= a < b < receivers_below(states, dest, n).len() ==> receivers_below(
                states,
                dest,
                n,
            )[a] < receivers_below(states, dest, n)[b],
        forall|k: int|
            0 <= k < receivers_below(states, dest, n).len() ==> receivers_below(states, dest, n)[k]
                < n,
        forall|i: int|
            #![trigger receivers_below(states, dest, n).contains(i as usize)]
            #![trigger states[i]]
            0 <= i < n ==> (receivers_below(states, dest, n).contains(i as usize) <==> (receives(
                dest,
                i,
            ) && is_waiting(states[i]))),
    decreases n,
{
    if n > 0 {
        lemma_receivers(states, dest, (n - 1) as nat);
        let p = receivers_below(states, dest, (n - 1) as nat);
        let r = receivers_below(states, dest, n);
        assert forall|i: int| 0 <= i < n implies (#[trigger] r.contains(i as usize) <==> (
        receives(dest, i) && is_waiting(states[i]))) by {
            let pushed = receives(dest, n - 1) && is_waiting(states[n - 1]);
            assert(r == if pushed { p.push((n - 1) as usize) } else { p });
            if r.contains(i as usize) {
                let k = choose|k: int| 0 <= k < r.len() && r[k] == i as usize;
                if k < p.len() {
                    assert(p[k] == i as usize);
                    assert(p.contains(i as usize));
                    assert(i < n - 1);
                    assert(receives(dest, i) && is_waiting(states[i]));
                } else {
                    assert(pushed && i == n - 1);
                    assert(receives(dest, i) && is_waiting(states[i]));
                }
            }
            if i < n - 1 && receives(dest, i) && is_waiting(states[i]) {
                assert(p.contains(i as usize));
                let k = choose|k: int| 0 <= k < p.len() && p[k] == i as usize;
                assert(r[k] == p[k]);
                assert(r.contains(i as usize));
            }
            if i == n - 1 && pushed {
                assert(r[r.len() - 1] == i as usize);
                assert(r.contains(i as usize));
            }
        }
    }
}

/// The states after a message for `dest`: each waiting receiver runs.
pub open spec fn after_delivery(states: Seq<TaskState>, dest: SimulatorMessageDest) -> Seq<
    TaskState,
> {
    Seq::new(
        states.len(),
        |i: int|
            if receives(dest, i) && is_waiting(states[i]) {
                TaskState::Running
            } else {
                states[i]
            },
    )
}

/// The timer step, from `time` and `states`, to `new_time`, `new_states` and
/// action `act`: the task that waits for the earliest instant runs, and the
/// clock moves on to that instant if it lies ahead; with no task waiting
/// for an instant, nothing happens.
pub open spec fn timer_step<M>(
    time: u64,
    states: Seq<TaskState>,
    new_time: u64,
    new_states: Seq<TaskState>,
    act: SchedulerAction<M>,
) -> bool {
    if any_wait_until(states) {
        exists|i: int|
            #[trigger] is_earliest(states, i) && act == SchedulerAction::<M>::Timeout {
                task: i as usize,
            } && new_states == states.update(i, TaskState::Running) && new_time == (if states[i]->when
                > time {
                states[i]->when
            } else {
                time
            })
    } else {
        act is Idle && new_time == time && new_states == states
    }
}

/// The queue's destinations name existing tasks.
pub open spec fn queue_ok<M>(queue: Seq<(SimulatorMessageDest, M)>, n: nat) -> bool {
    forall|k: int|
        0 <= k < queue.len() ==> match #[trigger] queue[k].0 {
            SimulatorMessageDest::Task(id) => 1 <= id <= n,
            _ => true,
        }
}

/// The scheduler state is sound: message destinations name existing tasks.
pub open spec fn scheduler_ok<M>(d: SchedulerDataMut<M>) -> bool {
    queue_ok(d.message_queue@, d.task_states@.len())
}

/// One decision of the scheduler, from clock `time`, task states `states`
/// and message queue `queue` to `new_time`, `new_states` and `new_queue`,
/// with action `act`. Nothing happens while a task runs. Else the last
/// queued message goes to its waiting receivers, which then run; a message
/// for one task that is gone is dropped. With no message to deliver, the
/// timer step follows.
pub open spec fn spec_process_events<M>(
    time: u64,
    states: Seq<TaskState>,
    queue: Seq<(SimulatorMessageDest, M)>,
    new_time: u64,
    new_states: Seq<TaskState>,
    new_queue: Seq<(SimulatorMessageDest, M)>,
    act: SchedulerAction<M>,
) -> bool {
    if any_running(states) {
        act is Idle && new_time == time && new_states == states && new_queue == queue
    } else if queue.len() > 0 {
        let (dest, msg) = queue.last();
        &&& new_queue == queue.drop_last()
        &&& match dest {
            SimulatorMessageDest::Task(id) => if states[id - 1] is Empty {
                timer_step(time, states, new_time, new_states, act)
            } else {
                act matches SchedulerAction::Deliver { tasks, msg: m } && m == msg
                    && tasks@ == seq![(id - 1) as usize] && new_states == states.update(
                    id - 1,
                    TaskState::Running,
                ) && new_time == time
            },
            _ => {
                &&& act matches SchedulerAction::Deliver { tasks, msg: m } && m == msg
                    && tasks@ == receivers(states, dest)
                &&& new_states == after_delivery(states, dest)
                &&& new_time == time
            },
        }
    } else {
        new_queue == queue && timer_step(time, states, new_time, new_states, act)
    }
}

/// `spec_process_events` from scheduler state `d` to `e`.
pub open spec fn process_events_step<M>(
    d: SchedulerDataMut<M>,
    e: SchedulerDataMut<M>,
    act: SchedulerAction<M>,
) -> bool {
    spec_process_events(
        d.current_time,
        d.task_states@,
        d.message_queue@,
        e.current_time,
        e.task_states@,
        e.message_queue@,
        act,
    )
}

/// Finds a running task, or else the task that waits for the earliest
/// instant.
fn scan(states: &Vec<TaskState>) -> (r: (bool, Option<usize>))
    ensures
        r.0 == any_running(states@),
        !r.0 ==> match r.1 {
            Some(i) => is_earliest(states@, i as int),
            None => !any_wait_until(states@),
        },
{
    let mut earliest: Option<usize> = None;
    let mut i: usize = 0;
    while i < states.len()
        invariant
            i <= states.len(),
            forall|j: int| 0 <= j < i ==> !(#[trigger] states@[j] is Running),
            match earliest {
                Some(e) => e < i && is_earliest(states@.subrange(0, i as int), e as int),
                None => forall|j: int| 0 <= j < i ==> !(#[trigger] states@[j] is WaitUntil),
            },
        decreases states.len() - i,
    {
        let ghost prefix = states@.subrange(0, i as int);
        let ghost next = states@.subrange(0, i + 1);
        assert(forall|j: int| 0 <= j < i ==> next[j] == prefix[j]);
        match states[i] {
            TaskState::Running => {
                assert(states@[i as int] is Running);
                return (true, None);
            },
            TaskState::WaitUntil { when } => {
                match earliest {
                    Some(e) => {
                        if let TaskState::WaitUntil { when: ew } = states[e] {
                            if when < ew {
                                earliest = Some(i);
                            }
                        }
                    },
                    None => {
                        earliest = Some(i);
                    },
                }
            },
            _ => {},
        }
        i = i + 1;
    }
    assert(states@.subrange(0, states.len() as int) == states@);
    (false, earliest)
}

impl<M> SchedulerDataMut<M> {
    /// Sets task `idx` running and makes the timeout action for it, moving
    /// the clock on to the instant it waited for when that lies ahead.
    fn fire_timer(&mut self, idx: usize) -> (act: SchedulerAction<M>)
        requires
            is_earliest(old(self).task_states@, idx as int),
        ensures
            final(self).message_queue@ == old(self).message_queue@,
            timer_step(
                old(self).current_time,
                old(self).task_states@,
                final(self).current_time,
                final(self).task_states@,
                act,
            ),
    {
        if let TaskState::WaitUntil { when } = self.task_states[idx] {
            if when > self.current_time {
                self.current_time = when;
            }
        }
        self.task_states.set(idx, TaskState::Running);
        let act = SchedulerAction::Timeout { task: idx };
        assert(is_earliest(old(self).task_states@, idx as int));
        act
    }

    /// Marks the waiting receivers of a message for `dest` as running, and
    /// lists them.
    fn deliver(&mut self, dest: SimulatorMessageDest) -> (tasks: Vec<usize>)
        ensures
            final(self).current_time == old(self).current_time,
            final(self).message_queue@ == old(self).message_queue@,
            final(self).task_states@ == after_delivery(old(self).task_states@, dest),
            tasks@ == receivers(old(self).task_states@, dest),
    {
        let ghost states = self.task_states@;
        let mut tasks: Vec<usize> = Vec::new();
        let mut i: usize = 0;
        while i < self.task_states.len()
            invariant
                i <= self.task_states.len(),
                self.task_states.len() == states.len(),
                self.current_time == old(self).current_time,
                self.message_queue@ == old(self).message_queue@,
                states == old(self).task_states@,
                forall|j: int|
                    0 <= j < i ==> self.task_states@[j] == after_delivery(states, dest)[j],
                forall|j: int| i <= j < states.len() ==> self.task_states@[j] == states[j],
                tasks@ == receivers_below(states, dest, i as nat),
            decreases states.len() - i,
        {
            let receiver = match dest {
                SimulatorMessageDest::Task(id) => i as u64 + 1 == id as u64,
                SimulatorMessageDest::Exclude(id) => i as u64 + 1 != id as u64,
                SimulatorMessageDest::All => true,
            };
            let waiting = match self.task_states[i] {
                TaskState::Wait => true,
                TaskState::WaitUntil { .. } => true,
                _ => false,
            };
            if receiver && waiting {
                self.task_states.set(i, TaskState::Running);
                tasks.push(i);
            }
            assert(receiver == receives(dest, i as int));
            assert(waiting == is_waiting(states[i as int]));
            i = i + 1;
        }
        assert(self.task_states@ =~= after_delivery(states, dest));
        tasks
    }

    /// Decides what happens next: see `spec_process_events`.
    pub fn process_events(&mut self) -> (act: SchedulerAction<M>)
        requires
            scheduler_ok(*old(self)),
        ensures
            scheduler_ok(*final(self)),
            process_events_step(*old(self), *final(self), act),
    {
        let (running, earliest) = scan(&self.task_states);
        if running {
            return SchedulerAction::Idle;
        }
        let ghost queue = self.message_queue@;
        if let Some((dest, msg)) = self.message_queue.pop() {
            assert((dest, msg) == queue.last());
            assert(queue_ok(self.message_queue@, self.task_states@.len())) by {
                assert forall|k: int| 0 <= k < self.message_queue@.len() implies
                    #[trigger] self.message_queue@[k] == queue[k] by {}
            }
            match dest {
                SimulatorMessageDest::Task(id) => {
                    assert(1 <= id <= self.task_states@.len()) by {
                        assert(queue[queue.len() - 1].0 == dest);
                    }
                    let idx = (id - 1) as usize;
                    match self.task_states[idx] {
                        TaskState::Empty => {},
                        _ => {
                            self.task_states.set(idx, TaskState::Running);
                            let mut tasks: Vec<usize> = Vec::new();
                            tasks.push(idx);
                            return SchedulerAction::Deliver { tasks, msg };
                        },
                    }
                },
                _ => {
                    let tasks = self.deliver(dest);
                    return SchedulerAction::Deliver { tasks, msg };
                },
            }
        }
        match earliest {
            Some(idx) => self.fire_timer(idx),
            None => SchedulerAction::Idle,
        }
    }
}

impl<M> SchedulerDataMut<M> {
    /// A scheduler with no task, at time `start`.
    pub fn new(start: u64) -> (d: SchedulerDataMut<M>)
        ensures
            d.current_time == start,
            d.task_states@.len() == 0,
            d.message_queue@.len() == 0,
            scheduler_ok(d),
    {
        SchedulerDataMut { current_time: start, task_states: Vec::new(), message_queue: Vec::new() }
    }

    /// Adds a running task; the result is its index.
    pub fn new_task(&mut self) -> (idx: usize)
        requires
            scheduler_ok(*old(self)),
            old(self).task_states@.len() < usize::MAX,
        ensures
            scheduler_ok(*final(self)),
            idx == old(self).task_states@.len(),
            final(self).task_states@ == old(self).task_states@.push(TaskState::Running),
            final(self).current_time == old(self).current_time,
            final(self).message_queue@ == old(self).message_queue@,
    {
        self.task_states.push(TaskState::Running);
        assert forall|k: int| 0 <= k < self.message_queue@.len() implies match #[trigger] self.message_queue@[k].0 {
            SimulatorMessageDest::Task(id) => 1 <= id <= self.task_states@.len(),
            _ => true,
        } by {
            assert(self.message_queue@[k] == old(self).message_queue@[k]);
        }
        self.task_states.len() - 1
    }

    /// Task `idx` waits, for a message or until `when`; then the scheduler
    /// decides. `None` when the task is gone (the simulation shut down).
    pub fn wait_until(&mut self, idx: usize, when: u64) -> (act: Option<SchedulerAction<M>>)
        requires
            scheduler_ok(*old(self)),
            idx < old(self).task_states@.len(),
        ensures
            scheduler_ok(*final(self)),
            old(self).task_states@[idx as int] is Empty ==> act is None && *final(self) == *old(self),
            !(old(self).task_states@[idx as int] is Empty) ==> (act matches Some(a)
                && spec_process_events(
                old(self).current_time,
                old(self).task_states@.update(idx as int, TaskState::WaitUntil { when }),
                old(self).message_queue@,
                final(self).current_time,
                final(self).task_states@,
                final(self).message_queue@,
                a,
            )),
    {
        if let TaskState::Empty = self.task_states[idx] {
            return None;
        }
        self.task_states.set(idx, TaskState::WaitUntil { when });
        Some(self.process_events())
    }

    /// Task `idx` waits for a message; then the scheduler decides. `None`
    /// when the task is gone (the simulation shut down).
    pub fn wait(&mut self, idx: usize) -> (act: Option<SchedulerAction<M>>)
        requires
            scheduler_ok(*old(self)),
            idx < old(self).task_states@.len(),
        ensures
            scheduler_ok(*final(self)),
            old(self).task_states@[idx as int] is Empty ==> act is None && *final(self) == *old(self),
            !(old(self).task_states@[idx as int] is Empty) ==> (act matches Some(a)
                && spec_process_events(
                old(self).current_time,
                old(self).task_states@.update(idx as int, TaskState::Wait),
                old(self).message_queue@,
                final(self).current_time,
                final(self).task_states@,
                final(self).message_queue@,
                a,
            )),
    {
        if let TaskState::Empty = self.task_states[idx] {
            return None;
        }
        self.task_states.set(idx, TaskState::Wait);
        Some(self.process_events())
    }

    /// Queues `msg` for `dest`; then the scheduler decides.
    pub fn send_msg(&mut self, dest: SimulatorMessageDest, msg: M) -> (act: SchedulerAction<M>)
        requires
            scheduler_ok(*old(self)),
            match dest {
                SimulatorMessageDest::Task(id) => 1 <= id <= old(self).task_states@.len(),
                _ => true,
            },
        ensures
            scheduler_ok(*final(self)),
            spec_process_events(
                old(self).current_time,
                old(self).task_states@,
                old(self).message_queue@.push((dest, msg)),
                final(self).current_time,
                final(self).task_states@,
                final(self).message_queue@,
                act,
            ),
    {
        self.message_queue.push((dest, msg));
        assert forall|k: int| 0 <= k < self.message_queue@.len() implies match #[trigger] self.message_queue@[k].0 {
            SimulatorMessageDest::Task(id) => 1 <= id <= self.task_states@.len(),
            _ => true,
        } by {
            if k < old(self).message_queue@.len() {
                assert(self.message_queue@[k] == old(self).message_queue@[k]);
            }
        }
        self.process_events()
    }

    /// Task `idx` is gone; then the scheduler decides.
    pub fn shutdown(&mut self, idx: usize) -> (act: SchedulerAction<M>)
        requires
            scheduler_ok(*old(self)),
            idx < old(self).task_states@.len(),
        ensures
            scheduler_ok(*final(self)),
            spec_process_events(
                old(self).current_time,
                old(self).task_states@.update(idx as int, TaskState::Empty),
                old(self).message_queue@,
                final(self).current_time,
                final(self).task_states@,
                final(self).message_queue@,
                act,
            ),
    {
        self.task_states.set(idx, TaskState::Empty);
        self.process_events()
    }

    /// The whole simulation shuts down: queued messages are dropped and every
    /// task is gone. The result lists the tasks that were waiting, in
    /// increasing order; they learn of the shutdown.
    pub fn shutdown_all(&mut self) -> (waiting: Vec<usize>)
        ensures
            final(self).current_time == old(self).current_time,
            final(self).message_queue@.len() == 0,
            final(self).task_states@.len() == old(self).task_states@.len(),
            forall|i: int|
                0 <= i < final(self).task_states@.len() ==> #[trigger] final(self).task_states@[i]
                    is Empty,
            waiting@ == receivers(old(self).task_states@, SimulatorMessageDest::All),
            scheduler_ok(*final(self)),
    {
        self.message_queue.clear();
        let waiting = self.deliver(SimulatorMessageDest::All);
        let mut i: usize = 0;
        while i < self.task_states.len()
            invariant
                i <= self.task_states.len(),
                self.task_states.len() == old(self).task_states@.len(),
                self.current_time == old(self).current_time,
                self.message_queue@.len() == 0,
                forall|j: int| 0 <= j < i ==> #[trigger] self.task_states@[j] is Empty,
            decreases self.task_states.len() - i,
        {
            self.task_states.set(i, TaskState::Empty);
            i = i + 1;
        }
        waiting
    }
}

/// The identifier of the task at index `idx`.
pub fn task_id(idx: usize) -> (id: SimulatorTaskId)
    requires
        idx < u32::MAX,
    ensures
        id == idx + 1,
{
    (idx + 1) as u32
}

/// The clock never goes back: whatever the scheduler decides, time after
/// is no earlier than time before.
pub proof fn lemma_time_monotone<M>(
    time: u64,
    states: Seq<TaskState>,
    queue: Seq<(SimulatorMessageDest, M)>,
    new_time: u64,
    new_states: Seq<TaskState>,
    new_queue: Seq<(SimulatorMessageDest, M)>,
    act: SchedulerAction<M>,
)
    requires
        spec_process_events(time, states, queue, new_time, new_states, new_queue, act),
    ensures
        new_time >= time,
{
}

/// A task woken by its timer is woken no earlier than the instant it waited
/// for, the clock stands at that instant when it was not already past it,
/// and no other task waits for an earlier instant: no deadline is skipped.
pub proof fn lemma_timeout_in_order<M>(
    time: u64,
    states: Seq<TaskState>,
    queue: Seq<(SimulatorMessageDest, M)>,
    new_time: u64,
    new_states: Seq<TaskState>,
    new_queue: Seq<(SimulatorMessageDest, M)>,
    act: SchedulerAction<M>,
)
    requires
        spec_process_events(time, states, queue, new_time, new_states, new_queue, act),
        act is Timeout,
        states.len() <= usize::MAX,
    ensures
        ({
            let i = act->task as int;
            &&& 0 <= i < states.len()
            &&& states[i] is WaitUntil
            &&& new_time >= states[i]->when
            &&& time <= states[i]->when ==> new_time == states[i]->when
            &&& forall|j: int|
                0 <= j < states.len() && #[trigger] states[j] is WaitUntil ==> states[i]->when
                    <= states[j]->when
            &&& new_states == states.update(i, TaskState::Running)
        }),
{
    assert(timer_step(time, states, new_time, new_states, act));
    assert(any_wait_until(states));
    let i = choose|i: int| #[trigger] is_earliest(states, i) && act == SchedulerAction::<M>::Timeout {
        task: i as usize,
    } && new_states == states.update(i, TaskState::Running) && new_time == (if states[i]->when
        > time {
        states[i]->when
    } else {
        time
    });
    assert(act->task as int == i);
}

} // verus!
