use vstd::prelude::*;
use crate::reactor::WAIT_FOREVER;

verus! {

/// A reset of a wake flag `woken`: the flag afterwards, and what the reset
/// returns (whether the task is to be polled).
pub open spec fn reset_result(woken: bool) -> (bool, bool) {
    (false, woken)
}

/// The wake flag of a task driven by a blocking executor: set when the task
/// is woken, cleared when the executor decides to poll it. Its view is
/// whether the task was woken since it was last polled.
pub struct Waiter {
    is_woken: bool,
}

impl View for Waiter {
    type V = bool;

    closed spec fn view(&self) -> bool {
        self.is_woken
    }
}

impl Waiter {
    /// A flag that starts set, so that the task is polled at once.
    pub fn new() -> (w: Waiter)
        ensures
            w@,
    {
        Waiter { is_woken: true }
    }

    /// Clears the flag and tells whether it was set: the executor polls the
    /// task exactly when this returns `true`.
    pub fn reset_waiter(&mut self) -> (was_woken: bool)
        ensures
            (final(self)@, was_woken) == reset_result(old(self)@),
    {
        let was_woken = self.is_woken;
        self.is_woken = false;
        was_woken
    }

    /// Sets the flag: the task asks to be polled again.
    pub fn wake_by_ref(&mut self)
        ensures
            final(self)@,
    {
        self.is_woken = true;
    }
}

/// What the blocking executor does next.
pub enum BlockOnAction {
    /// Poll the future.
    PollFuture,
    /// Wait on the reactor for readiness events.
    WaitForEvents,
}

/// The state of a blocking executor's loop: whether the future was polled
/// since the last wait, and the wake flag of the future.
pub struct BlockOnView {
    pub polled_since_wait: bool,
    pub woken: bool,
}

/// The loop's state before its first step: no poll yet, the flag set.
pub open spec fn block_on_start() -> BlockOnView {
    BlockOnView { polled_since_wait: false, woken: true }
}

/// One step of the loop: after a poll the executor waits on the reactor;
/// after a wait it polls when the flag was set (clearing it) and waits again
/// otherwise. Returns the state afterwards and the action.
pub open spec fn block_on_step(s: BlockOnView) -> (BlockOnView, BlockOnAction) {
    if !s.polled_since_wait && s.woken {
        (BlockOnView { polled_since_wait: true, woken: false }, BlockOnAction::PollFuture)
    } else {
        (BlockOnView { polled_since_wait: false, woken: s.woken }, BlockOnAction::WaitForEvents)
    }
}

/// What happens to a blocking executor's loop: it takes a step, or the
/// future's waker is woken (during a poll or a wait).
pub enum BlockOnEvent {
    Step,
    Wake,
}

/// The loop's state after the first `n` events of `events`.
pub open spec fn block_on_state(events: Seq<BlockOnEvent>, n: int) -> BlockOnView
    decreases n,
{
    if n <= 0 {
        block_on_start()
    } else {
        let s = block_on_state(events, n - 1);
        match events[n - 1] {
            BlockOnEvent::Step => block_on_step(s).0,
            BlockOnEvent::Wake => BlockOnView { woken: true, ..s },
        }
    }
}

/// The event at `k` is a step that polls the future.
pub open spec fn polls_at(events: Seq<BlockOnEvent>, k: int) -> bool {
    &&& 0 <= k < events.len()
    &&& events[k] is Step
    &&& block_on_step(block_on_state(events, k)).1 is PollFuture
}

/// The event at `k` is a step that waits on the reactor.
pub open spec fn waits_at(events: Seq<BlockOnEvent>, k: int) -> bool {
    &&& 0 <= k < events.len()
    &&& events[k] is Step
    &&& block_on_step(block_on_state(events, k)).1 is WaitForEvents
}

/// The loop of a blocking executor, driven by one future's wake flag.
pub struct BlockOn {
    polled_since_wait: bool,
}

impl BlockOn {
    /// Whether the future was polled since the last wait.
    pub closed spec fn spec_polled_since_wait(&self) -> bool {
        self.polled_since_wait
    }

    /// A loop that has not polled yet.
    pub fn new() -> (b: BlockOn)
        ensures
            !b.spec_polled_since_wait(),
    {
        BlockOn { polled_since_wait: false }
    }

    /// Decides the loop's next action from the future's wake flag; see
    /// [`block_on_step`].
    pub fn next(&mut self, waiter: &mut Waiter) -> (action: BlockOnAction)
        ensures
            ({
                let r = block_on_step(BlockOnView { polled_since_wait: old(self).spec_polled_since_wait(), woken: old(waiter)@ });
                &&& final(self).spec_polled_since_wait() == r.0.polled_since_wait
                &&& final(waiter)@ == r.0.woken
                &&& action == r.1
            }),
    {
        if !self.polled_since_wait && waiter.reset_waiter() {
            self.polled_since_wait = true;
            BlockOnAction::PollFuture
        } else {
            self.polled_since_wait = false;
            BlockOnAction::WaitForEvents
        }
    }
}

impl BlockOn {
    /// How long a wait on the reactor may block: until an event arrives,
    /// unless spawned tasks ran just before it, whose wakes may already have
    /// made the future ready; then the wait only collects the events already
    /// there.
    pub fn wait_timeout(spawned_ran: bool) -> (timeout: i32)
        ensures
            timeout == if spawned_ran { 0 } else { WAIT_FOREVER },
    {
        if spawned_ran {
            0
        } else {
            WAIT_FOREVER
        }
    }
}

/// Right after a poll the loop has polled since the last wait and the flag
/// is clear; with no wait since, it still has polled, and with no wake since,
/// the flag is still clear.
proof fn lemma_after_poll(events: Seq<BlockOnEvent>, i: int, j: int)
    requires
        polls_at(events, i),
        i < j <= events.len(),
    ensures
        (forall|k: int| i < k < j ==> !#[trigger] waits_at(events, k))
            ==> block_on_state(events, j).polled_since_wait,
        (forall|k: int| i < k < j ==> !(#[trigger] events[k] is Wake))
            ==> !block_on_state(events, j).woken,
    decreases j - i,
{
    if j > i + 1 {
        lemma_after_poll(events, i, j - 1);
        if forall|k: int| i < k < j ==> !#[trigger] waits_at(events, k) {
            assert(!waits_at(events, j - 1));
        }
        if forall|k: int| i < k < j ==> !(#[trigger] events[k] is Wake) {
            assert(!(events[j - 1] is Wake));
        }
    }
}

/// Between two polls of the future the executor waits on the reactor at
/// least once, and the future's waker is woken at least once: a future whose
/// waker is never woken after a poll is not polled again.
pub proof fn law_wait_and_wake_between_polls(events: Seq<BlockOnEvent>, i: int, j: int)
    requires
        polls_at(events, i),
        polls_at(events, j),
        i < j,
    ensures
        exists|k: int| i < k < j && #[trigger] waits_at(events, k),
        exists|k: int| i < k < j && #[trigger] events[k] is Wake,
{
    lemma_after_poll(events, i, j);
}

/// A blocking executor polls its task at once, and afterwards only when it
/// was woken: the first reset of a new flag says to poll; a reset after a
/// wake says to poll; a reset with no wake since the last reset says not to.
pub proof fn law_poll_only_after_wake(woken: bool)
    ensures
        block_on_step(block_on_start()).1 is PollFuture,
        reset_result(true).1,
        reset_result(reset_result(woken).0).1 == false,
{
}

} // verus!
