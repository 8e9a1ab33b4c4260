//! The two scheduling domains and the loop that keeps the session engine
//! going.
//!
//! Tasks that are bound to the hardware's timing run in a domain of their
//! own, driven from a software interrupt; whenever one of them is ready it
//! takes the processor from the baseline. The baseline is one cooperative
//! loop: it yields once, lets the session engine work for a bounded time,
//! and starts over.

use vstd::prelude::*;

verus! {

/// Time that the session engine gets for one round of pending work, in
/// nanoseconds.
pub const SPIN_BUDGET_NS: u64 = 100_000_000;

/// How long one probe for the peer may take, in milliseconds.
pub const AGENT_PING_TIMEOUT_MS: i32 = 1000;

/// How many probes for the peer are made before it is given up.
pub const AGENT_PING_ATTEMPTS: u8 = 10;

/// Number of handles that the session engine's executor is made for.
pub const EXECUTOR_HANDLES: usize = 10;

/// Time between two samples of the sensor, in milliseconds.
pub const SAMPLING_INTERVAL_MS: u64 = 100;

/// Time between two publications of the latest reading, in milliseconds.
/// The reading that goes out may be older than one sampling interval: the
/// two cadences do not wait for each other.
pub const PUBLISH_INTERVAL_MS: u64 = 1000;

/// Time for which the button is left to settle after its edge, in
/// milliseconds.
pub const DEBOUNCE_MS: u64 = 100;

/// Time for which the heartbeat light stays on, and then off, in
/// milliseconds.
pub const HEARTBEAT_MS: u64 = 300;

/// Time that the link gets to come up before the session engine is started,
/// in seconds.
pub const LINK_SETTLE_SECS: u64 = 1;

/// The status with which the session engine reports success.
pub const RCL_RET_OK: u32 = 0;

/// Where a task runs.
#[derive(Clone, Copy, Debug, PartialEq, Eq, Structural)]
pub enum Domain {
    /// Driven from the software interrupt, above the baseline.
    InterruptPriority,
    /// The cooperative loop and the tasks that share it.
    Baseline,
}

/// The tasks of the device.
#[derive(Clone, Copy, Debug, PartialEq, Eq, Structural)]
pub enum Task {
    /// Runs the serial link's device side.
    LinkDevice,
    /// Drains the outbound queue into the link.
    LinkSender,
    /// Fills the inbound queue from the link.
    LinkReceiver,
    /// Samples the sensor into the shared state.
    Sampling,
    /// Waits for the button's edge and lets it settle.
    Debounce,
    /// Drives the light from its mailbox.
    Light,
    /// Lets the session engine process pending work.
    EnginePoll,
    /// Publishes the latest sensor reading.
    ReadingPublisher,
    /// Publishes the button's event.
    EventPublisher,
}

/// What the baseline loop does next.
#[derive(Clone, Copy, Debug, PartialEq, Eq, Structural)]
pub enum PollAction {
    /// Hand the processor to whatever else is ready, once.
    Yield,
    /// Let the session engine process pending work for at most this long.
    Spin { budget_ns: u64 },
}

/// The place of the baseline loop in its round.
pub struct PollLoop {
    yielded: bool,
}

/// The domain in which a task runs.
pub open spec fn task_domain(task: Task) -> Domain {
    match task {
        Task::EnginePoll | Task::ReadingPublisher | Task::EventPublisher => Domain::Baseline,
        _ => Domain::InterruptPriority,
    }
}

/// Whether a task that becomes ready in `ready` takes the processor from one
/// that runs in `running`.
pub open spec fn domain_preempts(ready: Domain, running: Domain) -> bool {
    ready == Domain::InterruptPriority && running == Domain::Baseline
}

/// The action of the loop at a place in its round, and the place after it.
pub open spec fn poll_step(yielded: bool) -> (PollAction, bool) {
    if yielded {
        (PollAction::Spin { budget_ns: SPIN_BUDGET_NS }, false)
    } else {
        (PollAction::Yield, true)
    }
}

/// The `n`-th action of a loop that starts at the place `yielded`, counted
/// from zero.
pub open spec fn poll_action_at(yielded: bool, n: nat) -> PollAction
    decreases n,
{
    if n == 0 {
        poll_step(yielded).0
    } else {
        poll_action_at(poll_step(yielded).1, (n - 1) as nat)
    }
}

/// The domain in which a task runs.
pub fn domain_of(task: Task) -> (domain: Domain)
    ensures
        domain == task_domain(task),
{
    match task {
        Task::EnginePoll | Task::ReadingPublisher | Task::EventPublisher => Domain::Baseline,
        _ => Domain::InterruptPriority,
    }
}

/// Whether a task that becomes ready in `ready` takes the processor from one
/// that runs in `running`.
pub fn preempts(ready: Domain, running: Domain) -> (yes: bool)
    ensures
        yes == domain_preempts(ready, running),
{
    match (ready, running) {
        (Domain::InterruptPriority, Domain::Baseline) => true,
        _ => false,
    }
}

/// Whether the status of the probe for the peer says that the peer answered.
/// Any other status is fatal: without a peer the device has nothing to do.
pub fn agent_answered(status: u32) -> (answered: bool)
    ensures
        answered == (status == RCL_RET_OK),
{
    status == RCL_RET_OK
}

impl View for PollLoop {
    type V = bool;

    /// Whether the loop has yielded since the engine last worked.
    closed spec fn view(&self) -> bool {
        self.yielded
    }
}

impl PollLoop {
    /// A loop at the start of its round: it yields first.
    pub fn new() -> (poll: PollLoop)
        ensures
            !poll@,
    {
        PollLoop { yielded: false }
    }

    /// The next action. The caller performs it and asks again.
    pub fn next(&mut self) -> (action: PollAction)
        ensures
            action == poll_step(old(self)@).0,
            final(self)@ == poll_step(old(self)@).1,
    {
        if self.yielded {
            self.yielded = false;
            PollAction::Spin { budget_ns: SPIN_BUDGET_NS }
        } else {
            self.yielded = true;
            PollAction::Yield
        }
    }
}

/// From its start the loop yields and lets the engine work in turn: the
/// engine never works twice without a yield in between, it never works
/// before the first yield, and each round of work has the same bounded
/// budget.
pub proof fn law_poll_loop_alternates(n: nat)
    ensures
        n % 2 == 0 ==> poll_action_at(false, n) == PollAction::Yield,
        n % 2 == 1 ==> poll_action_at(false, n) == (PollAction::Spin { budget_ns: SPIN_BUDGET_NS }),
        n % 2 == 0 ==> poll_action_at(true, n) == (PollAction::Spin { budget_ns: SPIN_BUDGET_NS }),
        n % 2 == 1 ==> poll_action_at(true, n) == PollAction::Yield,
    decreases n,
{
    if n > 0 {
        law_poll_loop_alternates((n - 1) as nat);
    }
}

/// The link's tasks take the processor from the engine's loop, so the
/// inbound queue can fill while a read polls it; the engine's loop takes it
/// from none, and no domain preempts itself.
pub proof fn law_link_preempts_engine(ready: Task, running: Task)
    ensures
        domain_preempts(task_domain(Task::LinkReceiver), task_domain(Task::EnginePoll)),
        domain_preempts(task_domain(Task::LinkSender), task_domain(Task::EnginePoll)),
        !domain_preempts(task_domain(Task::EnginePoll), task_domain(running)),
        task_domain(ready) == task_domain(running) ==> !domain_preempts(
            task_domain(ready),
            task_domain(running),
        ),
{
}

} // verus!
