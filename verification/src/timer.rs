use vstd::prelude::*;
use crate::reactor::{Reactor, dispatch, interest_data, law_dispatch, law_registered_waker_is_woken};
use crate::syscall::SYSCALL_FAILED;

verus! {

/// The expiry to arm a one-shot timer with: first expiry after
/// `value_sec` seconds and `value_nsec` nanoseconds, repeating every
/// `interval_sec` seconds and `interval_nsec` nanoseconds (never, when both
/// are zero).
#[derive(Debug, Clone, Copy, PartialEq, Eq)]
pub struct TimerSpec {
    pub value_sec: i64,
    pub value_nsec: i64,
    pub interval_sec: i64,
    pub interval_nsec: i64,
}

/// The clock the timer descriptor measures its deadline on
/// (`CLOCK_MONOTONIC`).
pub const TIMER_CLOCK: i32 = 1;

/// Non-blocking reads of the timer descriptor (`TFD_NONBLOCK`, on Linux
/// x86-64).
pub const TIMER_NONBLOCK: i32 = 0x800;

/// The timer descriptor is closed on exec (`TFD_CLOEXEC`, on Linux x86-64).
pub const TIMER_CLOEXEC: i32 = 0x80000;

/// The flags the timer descriptor is created with.
pub const TIMER_CREATE_FLAGS: i32 = TIMER_NONBLOCK | TIMER_CLOEXEC;

/// Readiness for reading (`EPOLLIN`).
pub const EPOLLIN_FLAG: u32 = 0x1;

/// Edge-triggered notification (`EPOLLET`).
pub const EPOLLET_FLAG: u32 = 0x8000_0000;

/// The interest is dropped after one event (`EPOLLONESHOT`).
pub const EPOLLONESHOT_FLAG: u32 = 0x4000_0000;

/// The events a timer's interest in its descriptor asks for: one
/// edge-triggered readiness for reading.
pub const TIMER_INTEREST_FLAGS: u32 = EPOLLIN_FLAG | EPOLLET_FLAG | EPOLLONESHOT_FLAG;

/// What polling a timer asks of its caller.
pub enum TimerPoll<W> {
    /// The timer has not fired yet; the waker is registered with the reactor.
    Pending,
    /// The timer has fired.
    Ready,
    /// The timer must be started: arm a new one-shot timer with this expiry,
    /// register an interest in it with this waker, then call
    /// [`Timer::finish_start`].
    Start(TimerSpec, W),
}

/// The expiry of a timer that fires once, `deadline_secs` seconds and
/// `deadline_nanos` nanoseconds from now. The seconds are reinterpreted as
/// a signed 64-bit count, as the kernel's `time_t` holds them.
pub open spec fn spec_timer_spec(deadline_secs: u64, deadline_nanos: u32) -> TimerSpec {
    TimerSpec {
        value_sec: deadline_secs as i64,
        value_nsec: deadline_nanos as i64,
        interval_sec: 0,
        interval_nsec: 0,
    }
}

/// The state of a timer: its deadline, the timer descriptor once one was
/// created and kept, and whether it still has to be started and registered.
pub struct TimerView {
    pub deadline_secs: u64,
    pub deadline_nanos: u32,
    pub fd: Option<i32>,
    pub first_call: bool,
}

impl TimerView {
    /// The reactor holds no waker under the descriptor of a timer that is
    /// still to be started: only a registration that ended the first call
    /// puts the timer's descriptor in the registry.
    pub open spec fn consistent_with<W>(self, m: Map<i32, W>) -> bool {
        self.first_call ==> (self.fd is None || !m.contains_key(self.fd->0))
    }

    /// What one poll of the timer does, given the registry of the reactor and
    /// the waker of the polling task: while the reactor still holds a waker
    /// for the timer's descriptor, that waker is replaced and the poll is
    /// pending; otherwise a timer started before has fired, and a timer not
    /// yet started must be started. Returns the registry afterwards and what
    /// the poll asks of its caller.
    pub open spec fn poll_result<W>(self, m: Map<i32, W>, waker: W) -> (Map<i32, W>, TimerPoll<W>) {
        match self.fd {
            Some(fd) if m.contains_key(fd) => (m.insert(fd, waker), TimerPoll::Pending),
            _ => if !self.first_call {
                (m, TimerPoll::Ready)
            } else {
                (m, TimerPoll::Start(spec_timer_spec(self.deadline_secs, self.deadline_nanos), waker))
            },
        }
    }

    /// What completing a start does: the new timer descriptor `fd` is kept,
    /// and its interest is registered with the reactor given the result of
    /// adding it to the epoll instance (`ctl_result`, with `errno`); only a
    /// successful registration ends the first call. Returns the timer and
    /// the registry afterwards, and the outcome.
    pub open spec fn finish_start_result<W>(self, m: Map<i32, W>, fd: i32, ctl_result: i32, errno: i32, waker: W) -> (TimerView, Map<i32, W>, Result<(), i32>) {
        if ctl_result == SYSCALL_FAILED {
            (TimerView { fd: Some(fd), ..self }, m, Err(errno))
        } else {
            (TimerView { fd: Some(fd), first_call: false, ..self }, m.insert(fd, waker), Ok(()))
        }
    }
}

/// A future that completes once a deadline has passed, driven by a timer
/// descriptor that an epoll reactor watches.
pub struct Timer {
    deadline_secs: u64,
    deadline_nanos: u32,
    fd: Option<i32>,
    first_call: bool,
}

impl View for Timer {
    type V = TimerView;

    closed spec fn view(&self) -> TimerView {
        TimerView {
            deadline_secs: self.deadline_secs,
            deadline_nanos: self.deadline_nanos,
            fd: self.fd,
            first_call: self.first_call,
        }
    }
}

impl Timer {
    /// A timer that fires `deadline_secs` seconds and `deadline_nanos`
    /// nanoseconds after it is first polled.
    pub fn new(deadline_secs: u64, deadline_nanos: u32) -> (t: Timer)
        ensures
            t@ == (TimerView { deadline_secs, deadline_nanos, fd: None, first_call: true }),
    {
        Timer { deadline_secs, deadline_nanos, fd: None, first_call: true }
    }

    /// The deadline's whole seconds.
    pub fn deadline_secs(&self) -> (r: u64)
        ensures
            r == self@.deadline_secs,
    {
        self.deadline_secs
    }

    /// The deadline's nanoseconds beyond the whole seconds.
    pub fn deadline_nanos(&self) -> (r: u32)
        ensures
            r == self@.deadline_nanos,
    {
        self.deadline_nanos
    }

    /// The expiry to arm the timer descriptor with: the deadline once, no
    /// repetition.
    pub fn start_spec(deadline_secs: u64, deadline_nanos: u32) -> (r: TimerSpec)
        ensures
            r == spec_timer_spec(deadline_secs, deadline_nanos),
    {
        TimerSpec {
            value_sec: deadline_secs as i64,
            value_nsec: deadline_nanos as i64,
            interval_sec: 0,
            interval_nsec: 0,
        }
    }

    /// The arguments the timer descriptor is created with: the clock and the
    /// flags.
    pub fn create_args() -> (r: (i32, i32))
        ensures
            r == (TIMER_CLOCK, TIMER_CREATE_FLAGS),
    {
        (TIMER_CLOCK, TIMER_CREATE_FLAGS)
    }

    /// The events to register the timer descriptor's interest for.
    pub fn interest_flags() -> (r: u32)
        ensures
            r == TIMER_INTEREST_FLAGS,
    {
        TIMER_INTEREST_FLAGS
    }

    /// Polls the timer on behalf of the task whose waker is `waker`; see
    /// [`TimerView::poll_result`].
    pub fn poll<W>(&self, reactor: &mut Reactor<W>, waker: W) -> (r: TimerPoll<W>)
        ensures
            (final(reactor).registry(), r) == self@.poll_result(old(reactor).registry(), waker),
            final(reactor).spec_epoll_fd() == old(reactor).spec_epoll_fd(),
    {
        match self.fd {
            Some(fd) => {
                if reactor.is_registered(fd) {
                    reactor.set_waker(fd, waker);
                    return TimerPoll::Pending;
                }
            },
            None => {},
        }
        if !self.first_call {
            return TimerPoll::Ready;
        }
        TimerPoll::Start(Timer::start_spec(self.deadline_secs, self.deadline_nanos), waker)
    }

    /// Completes a start asked for by [`Timer::poll`], once the timer
    /// descriptor `fd` was created and armed; see
    /// [`TimerView::finish_start_result`].
    pub fn finish_start<W>(&mut self, reactor: &mut Reactor<W>, fd: i32, ctl_result: i32, errno: i32, waker: W) -> (r: Result<(), i32>)
        ensures
            (final(self)@, final(reactor).registry(), r) == old(self)@.finish_start_result(
                old(reactor).registry(),
                fd,
                ctl_result,
                errno,
                waker,
            ),
            final(reactor).spec_epoll_fd() == old(reactor).spec_epoll_fd(),
    {
        self.fd = Some(fd);
        let r = reactor.register_insterest(fd, ctl_result, errno, waker);
        if r.is_ok() {
            self.first_call = false;
        }
        r
    }
}

/// The expiry a timer is armed with is its deadline, once: the seconds read
/// back as an unsigned count are the deadline's seconds (and equal them as a
/// number whenever they fit a signed count), the nanoseconds are the
/// deadline's, nothing repeats, and the expiry is all zero (which would
/// leave the timer disarmed) only for a zero deadline.
pub proof fn law_armed_expiry_is_the_deadline(deadline_secs: u64, deadline_nanos: u32)
    ensures
        spec_timer_spec(deadline_secs, deadline_nanos).value_sec as u64 == deadline_secs,
        deadline_secs <= i64::MAX ==> spec_timer_spec(deadline_secs, deadline_nanos).value_sec
            == deadline_secs,
        spec_timer_spec(deadline_secs, deadline_nanos).value_nsec == deadline_nanos,
        spec_timer_spec(deadline_secs, deadline_nanos).interval_sec == 0,
        spec_timer_spec(deadline_secs, deadline_nanos).interval_nsec == 0,
        (spec_timer_spec(deadline_secs, deadline_nanos).value_sec == 0
            && spec_timer_spec(deadline_secs, deadline_nanos).value_nsec == 0)
            <==> (deadline_secs == 0 && deadline_nanos == 0),
{
    let v = spec_timer_spec(deadline_secs, deadline_nanos).value_sec;
    assert(v == deadline_secs as i64);
    assert((deadline_secs as i64) as u64 == deadline_secs) by (bit_vector);
    assert(deadline_secs <= 0x7fff_ffff_ffff_ffffu64 ==> (deadline_secs as i64) >= 0) by (bit_vector);
    assert(((deadline_secs as i64) == 0i64) == (deadline_secs == 0u64)) by (bit_vector);
}

/// A timer polled for the first time asks to be started with its deadline,
/// whatever the reactor holds, and leaves the reactor as it was.
pub proof fn law_fresh_timer_starts<W>(deadline_secs: u64, deadline_nanos: u32, m: Map<i32, W>, waker: W)
    ensures
        (TimerView { deadline_secs, deadline_nanos, fd: None, first_call: true }).poll_result(m, waker) == (
            m,
            TimerPoll::Start(spec_timer_spec(deadline_secs, deadline_nanos), waker),
        ),
{
}

/// A timer that was started and registered is never started again: its
/// polls are pending or ready.
pub proof fn law_started_timer_never_restarts<W>(t: TimerView, m: Map<i32, W>, waker: W)
    requires
        !t.first_call,
    ensures
        !(t.poll_result(m, waker).1 is Start),
{
}

/// A start whose registration failed reports the error and leaves the
/// registry as it was; the timer keeps the new descriptor but is still to be
/// started, so its next poll asks to start it again, with the same expiry.
pub proof fn law_failed_start_retries<W>(t: TimerView, m: Map<i32, W>, fd: i32, errno: i32, waker: W, next_waker: W)
    requires
        t.first_call,
        !m.contains_key(fd),
    ensures
        ({
            let started = t.finish_start_result(m, fd, SYSCALL_FAILED, errno, waker);
            &&& started.2 == Err::<(), i32>(errno)
            &&& started.1 == m
            &&& started.0.fd == Some(fd)
            &&& started.0.poll_result(started.1, next_waker) == (
                m,
                TimerPoll::Start(spec_timer_spec(t.deadline_secs, t.deadline_nanos), next_waker),
            )
        }),
{
}

/// A timer whose poll was ready stays ready, and leaves the registry as it
/// is, for as long as nobody registers its descriptor again.
pub proof fn law_ready_stays_ready<W>(t: TimerView, m: Map<i32, W>, later: Map<i32, W>, waker: W, later_waker: W)
    requires
        t.poll_result(m, waker).1 is Ready,
        t.fd is Some ==> !later.contains_key(t.fd->0),
    ensures
        t.poll_result(later, later_waker) == (later, TimerPoll::<W>::Ready),
{
}

/// Every step of a timer's life keeps it consistent with the reactor: a new
/// timer is; a poll is; starting with a descriptor the registry does not
/// hold is; and dispatching events, which only takes wakers out, is.
pub proof fn law_timer_consistency<W>(
    t: TimerView,
    m: Map<i32, W>,
    waker: W,
    fd: i32,
    ctl_result: i32,
    errno: i32,
    events: Seq<u64>,
)
    requires
        m.dom().finite(),
    ensures
        (TimerView { deadline_secs: t.deadline_secs, deadline_nanos: t.deadline_nanos, fd: None, first_call: true }).consistent_with(m),
        t.consistent_with(m) ==> t.consistent_with(t.poll_result(m, waker).0),
        !m.contains_key(fd) ==> ({
            let started = t.finish_start_result(m, fd, ctl_result, errno, waker);
            started.0.consistent_with(started.1)
        }),
        t.consistent_with(m) ==> t.consistent_with(dispatch(m, events).0),
{
    law_dispatch(m, events);
}

/// A timer consistent with the reactor whose poll was pending has been
/// started, so none of its later polls asks to start it again, whatever the
/// reactor holds by then.
pub proof fn law_pending_never_restarts<W>(t: TimerView, m: Map<i32, W>, waker: W, later: Map<i32, W>, later_waker: W)
    requires
        t.consistent_with(m),
        t.poll_result(m, waker).1 is Pending,
    ensures
        !t.first_call,
        !(t.poll_result(later, later_waker).1 is Start),
{
}

/// The life of a timer: once started and registered, it stays pending (each
/// poll handing the reactor the newest waker) until a batch of events names
/// its descriptor; that batch wakes the newest waker, and the next poll is
/// ready.
pub proof fn law_timer_ready_after_its_event<W>(
    deadline_secs: u64,
    deadline_nanos: u32,
    m: Map<i32, W>,
    fd: i32,
    ctl_result: i32,
    errno: i32,
    first_waker: W,
    second_waker: W,
    third_waker: W,
    events: Seq<u64>,
)
    requires
        m.dom().finite(),
        ctl_result != SYSCALL_FAILED,
        exists|i: int| 0 <= i < events.len() && events[i] == interest_data(fd),
    ensures
        ({
            let t0 = (TimerView { deadline_secs, deadline_nanos, fd: None, first_call: true });
            let started = t0.finish_start_result(m, fd, ctl_result, errno, first_waker);
            let t1 = started.0;
            let m1 = started.1;
            let m2 = m1.insert(fd, second_waker);
            let fired = dispatch(m2, events);
            &&& started.2 is Ok
            &&& t1.poll_result(m1, second_waker) == (m2, TimerPoll::<W>::Pending)
            &&& fired.1.contains(second_waker)
            &&& t1.poll_result(fired.0, third_waker) == (fired.0, TimerPoll::<W>::Ready)
        }),
{
    let t0 = (TimerView { deadline_secs, deadline_nanos, fd: None, first_call: true });
    let started = t0.finish_start_result(m, fd, ctl_result, errno, first_waker);
    let m1 = started.1;
    assert(m1.insert(fd, second_waker) =~= m.insert(fd, second_waker));
    law_registered_waker_is_woken(m, fd, second_waker, events);
}

} // verus!
