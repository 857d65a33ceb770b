use vstd::prelude::*;
use std::collections::HashMap;
use crate::syscall::{syscall, SYSCALL_FAILED};

verus! {

broadcast use vstd::std_specs::hash::group_hash_axioms;

/// How many readiness events one wait on the epoll instance collects at most.
pub const MAX_EVENTS: usize = 32;

/// The flags the epoll instance is created with: close on exec
/// (`EPOLL_CLOEXEC` on Linux x86-64).
pub const EPOLL_CREATE_FLAGS: i32 = 0x80000;

/// The `epoll_ctl` operation that adds an interest (`EPOLL_CTL_ADD`).
pub const EPOLL_CTL_ADD: i32 = 1;

/// The timeout of a wait on the epoll instance that blocks until an event
/// arrives.
pub const WAIT_FOREVER: i32 = -1;

/// The file descriptor that an epoll event's user data names: the data word
/// holds the descriptor that was registered, widened to 64 bits.
pub open spec fn event_fd(data: u64) -> i32 {
    data as i32
}

/// The user data word stored with an interest in `fd`.
pub open spec fn interest_data(fd: i32) -> u64 {
    fd as u64
}

/// Handing a batch of readiness events to a waker registry, in order: for
/// each event whose descriptor still has a waker, that waker is taken out of
/// the registry and woken. Returns the registry afterwards and the wakers
/// woken, in the order of the events.
pub open spec fn dispatch<W>(m: Map<i32, W>, events: Seq<u64>) -> (Map<i32, W>, Seq<W>)
    decreases events.len(),
{
    if events.len() == 0 {
        (m, Seq::empty())
    } else {
        let (m1, woken) = dispatch(m, events.drop_last());
        let fd = event_fd(events.last());
        if m1.contains_key(fd) {
            (m1.remove(fd), woken.push(m1[fd]))
        } else {
            (m1, woken)
        }
    }
}

/// The descriptors that a batch of events names.
pub open spec fn named_fds(events: Seq<u64>) -> Set<i32>
    decreases events.len(),
{
    if events.len() == 0 {
        Set::empty()
    } else {
        named_fds(events.drop_last()).insert(event_fd(events.last()))
    }
}

/// A descriptor is named by a batch exactly when some event of the batch
/// carries it; the set of named descriptors is finite.
pub proof fn lemma_named_fds(events: Seq<u64>)
    ensures
        named_fds(events).finite(),
        forall|k: i32|
            named_fds(events).contains(k) <==> exists|i: int|
                0 <= i < events.len() && #[trigger] event_fd(events[i]) == k,
    decreases events.len(),
{
    if events.len() > 0 {
        let prefix = events.drop_last();
        lemma_named_fds(prefix);
        assert forall|k: i32|
            named_fds(events).contains(k) <==> exists|i: int|
                0 <= i < events.len() && #[trigger] event_fd(events[i]) == k by {
            if named_fds(events).contains(k) {
                if k == event_fd(events.last()) {
                    assert(event_fd(events[events.len() - 1]) == k);
                } else {
                    let i = choose|i: int| 0 <= i < prefix.len() && #[trigger] event_fd(prefix[i]) == k;
                    assert(event_fd(events[i]) == k);
                }
            }
            if exists|i: int| 0 <= i < events.len() && #[trigger] event_fd(events[i]) == k {
                let i = choose|i: int| 0 <= i < events.len() && #[trigger] event_fd(events[i]) == k;
                if i < events.len() - 1 {
                    assert(event_fd(prefix[i]) == k);
                }
            }
        }
    }
}

/// A batch of events wakes at most one waker per event.
pub proof fn lemma_dispatch_woken_len<W>(m: Map<i32, W>, events: Seq<u64>)
    ensures
        dispatch(m, events).1.len() <= events.len(),
    decreases events.len(),
{
    if events.len() > 0 {
        lemma_dispatch_woken_len(m, events.drop_last());
    }
}

/// The user data word registered with an interest in `fd` names `fd` again.
pub proof fn law_interest_data_names_fd(fd: i32)
    ensures
        event_fd(interest_data(fd)) == fd,
{
    assert((fd as u64) as i32 == fd) by (bit_vector);
}

/// The user data word of an interest is the descriptor itself: a
/// non-negative descriptor is stored as the same number, and the low 32 bits
/// of the word always hold the descriptor's bits. An event names the
/// descriptor in the low 32 bits of its word, whatever the high bits hold.
pub proof fn law_data_word_is_the_descriptor(fd: i32, data: u64)
    ensures
        fd >= 0 ==> interest_data(fd) == fd,
        interest_data(fd) as i32 == fd,
        data < 0x8000_0000 ==> event_fd(data) == data,
        event_fd(data) == event_fd(data % 0x1_0000_0000),
{
    assert(fd >= 0i32 ==> (fd as u64) as int == fd as int) by (bit_vector);
    assert((fd as u64) as i32 == fd) by (bit_vector);
    assert(data < 0x8000_0000u64 ==> (data as i32) as int == data as int) by (bit_vector);
    assert((data as i32) == ((data % 0x1_0000_0000u64) as i32)) by (bit_vector);
}

/// A single event takes out and wakes the waker of its descriptor, if the
/// registry holds one, and does nothing otherwise.
pub proof fn law_dispatch_one<W>(m: Map<i32, W>, data: u64)
    ensures
        m.contains_key(event_fd(data)) ==> dispatch(m, seq![data]) == (
            m.remove(event_fd(data)),
            seq![m[event_fd(data)]],
        ),
        !m.contains_key(event_fd(data)) ==> dispatch(m, seq![data]) == (m, Seq::<W>::empty()),
{
    let events = seq![data];
    assert(events.drop_last() =~= Seq::<u64>::empty());
    assert(events.last() == data);
    assert(dispatch(m, Seq::<u64>::empty()) == (m, Seq::<W>::empty()));
    if m.contains_key(event_fd(data)) {
        assert(Seq::<W>::empty().push(m[event_fd(data)]) =~= seq![m[event_fd(data)]]);
    }
}

/// Events are handled in order: dispatching two batches one after the other
/// leaves the same registry as dispatching them together, and wakes the
/// wakers of the first batch before those of the second.
pub proof fn law_dispatch_in_order<W>(m: Map<i32, W>, first: Seq<u64>, second: Seq<u64>)
    ensures
        ({
            let a = dispatch(m, first);
            let b = dispatch(a.0, second);
            dispatch(m, first + second) == (b.0, a.1 + b.1)
        }),
    decreases second.len(),
{
    let a = dispatch(m, first);
    if second.len() == 0 {
        assert(first + second =~= first);
        assert(a.1 + Seq::<W>::empty() =~= a.1);
    } else {
        let rest = second.drop_last();
        law_dispatch_in_order(m, first, rest);
        assert((first + second).drop_last() =~= first + rest);
        assert((first + second).last() == second.last());
        let b1 = dispatch(a.0, rest);
        let fd = event_fd(second.last());
        if b1.0.contains_key(fd) {
            assert(a.1 + b1.1.push(b1.0[fd]) =~= (a.1 + b1.1).push(b1.0[fd]));
        }
    }
}

/// `w` is the waker registered in `m` for a descriptor that `events` names.
pub open spec fn is_waker_of_named<W>(m: Map<i32, W>, events: Seq<u64>, w: W) -> bool {
    exists|i: int|
        0 <= i < events.len() && m.contains_key(#[trigger] event_fd(events[i]))
            && w == m[event_fd(events[i])]
}

/// Dispatching a batch of events to a registry of wakers: every descriptor
/// the batch names leaves the registry and every other registration is
/// kept as it was; each registered descriptor the batch names has its
/// waker woken, every woken waker is the waker of a registered descriptor
/// the batch names, and exactly one waker is woken per such descriptor,
/// however many of its events the batch holds.
pub proof fn law_dispatch<W>(m: Map<i32, W>, events: Seq<u64>)
    requires
        m.dom().finite(),
    ensures
        dispatch(m, events).0 == m.remove_keys(named_fds(events)),
        dispatch(m, events).1.len() == m.dom().intersect(named_fds(events)).len(),
        forall|i: int|
            0 <= i < events.len() && m.contains_key(#[trigger] event_fd(events[i]))
                ==> dispatch(m, events).1.contains(m[event_fd(events[i])]),
        forall|j: int|
            0 <= j < dispatch(m, events).1.len() ==> is_waker_of_named(
                m,
                events,
                #[trigger] dispatch(m, events).1[j],
            ),
    decreases events.len(),
{
    lemma_named_fds(events);
    if events.len() == 0 {
        assert(m.remove_keys(Set::empty()) =~= m);
        assert(m.dom().intersect(Set::empty()) =~= Set::empty());
    } else {
        let prefix = events.drop_last();
        law_dispatch(m, prefix);
        lemma_named_fds(prefix);
        let m1 = dispatch(m, prefix).0;
        let w1 = dispatch(m, prefix).1;
        let m2 = dispatch(m, events).0;
        let w2 = dispatch(m, events).1;
        let k = event_fd(events.last());
        let n1 = named_fds(prefix);
        let n2 = named_fds(events);
        assert(n2 == n1.insert(k));
        assert(m2 =~= m.remove_keys(n2));
        if m1.contains_key(k) {
            assert(!n1.contains(k));
            assert(m.dom().intersect(n2) =~= m.dom().intersect(n1).insert(k));
        } else {
            assert(m.dom().intersect(n2) =~= m.dom().intersect(n1));
        }
        assert forall|i: int|
            0 <= i < events.len() && m.contains_key(#[trigger] event_fd(events[i]))
                implies w2.contains(m[event_fd(events[i])]) by {
            if i < events.len() - 1 {
                assert(event_fd(prefix[i]) == event_fd(events[i]));
                let j = choose|j: int| 0 <= j < w1.len() && w1[j] == m[event_fd(prefix[i])];
                assert(w2[j] == w1[j]);
            } else if m1.contains_key(k) {
                assert(w2[w1.len() as int] == m[k]);
            } else {
                assert(n1.contains(k));
                let i2 = choose|i2: int| 0 <= i2 < prefix.len() && #[trigger] event_fd(prefix[i2]) == k;
                let j = choose|j: int| 0 <= j < w1.len() && w1[j] == m[event_fd(prefix[i2])];
                assert(w2[j] == w1[j]);
            }
        }
        assert forall|j: int| 0 <= j < w2.len() implies is_waker_of_named(m, events, #[trigger] w2[j]) by {
            if j < w1.len() {
                assert(is_waker_of_named(m, prefix, w1[j]));
                let i = choose|i: int|
                    0 <= i < prefix.len() && m.contains_key(#[trigger] event_fd(prefix[i]))
                        && w1[j] == m[event_fd(prefix[i])];
                assert(event_fd(events[i]) == event_fd(prefix[i]));
                assert(w2[j] == w1[j]);
            } else {
                assert(m1.contains_key(k));
                assert(w2[j] == m[k]);
                assert(event_fd(events[events.len() - 1]) == k);
            }
        }
    }
}

/// A waker registered for `fd` is woken, and `fd` leaves the registry, when
/// a batch of events names `fd`.
pub proof fn law_registered_waker_is_woken<W>(m: Map<i32, W>, fd: i32, waker: W, events: Seq<u64>)
    requires
        m.dom().finite(),
        exists|i: int| 0 <= i < events.len() && events[i] == interest_data(fd),
    ensures
        dispatch(m.insert(fd, waker), events).1.contains(waker),
        !dispatch(m.insert(fd, waker), events).0.contains_key(fd),
{
    let i = choose|i: int| 0 <= i < events.len() && events[i] == interest_data(fd);
    law_interest_data_names_fd(fd);
    law_dispatch(m.insert(fd, waker), events);
    lemma_named_fds(events);
    assert(event_fd(events[i]) == fd);
    assert(named_fds(events).contains(fd));
}

/// What one wait on the epoll instance came to.
pub enum PollEvents<W> {
    /// The wait was interrupted by a signal before any event arrived: wait again.
    Retry,
    /// The wait failed with this `errno`.
    Failed(i32),
    /// Events arrived; these wakers were taken out of the registry and must be woken.
    Woken(Vec<W>),
}

/// The registry of an epoll reactor: the epoll instance, and for each
/// descriptor with a pending interest the waker to wake when it is ready.
pub struct Reactor<W> {
    wakers: HashMap<i32, W>,
    epoll_fd: i32,
}

impl<W> Reactor<W> {
    /// The wakers registered, by descriptor.
    pub closed spec fn registry(&self) -> Map<i32, W> {
        self.wakers@
    }

    /// A reactor holds finitely many wakers, so the laws of [`dispatch`]
    /// apply to its registry.
    pub proof fn lemma_registry_finite(&self)
        ensures
            self.registry().dom().finite(),
    {
    }

    /// The epoll instance.
    pub closed spec fn spec_epoll_fd(&self) -> i32 {
        self.epoll_fd
    }

    /// Builds the reactor from the result of creating the epoll instance
    /// (`created`, with the `errno` seen right after the call): fails with
    /// that `errno` when creation failed, else starts with no waker.
    pub fn new(created: i32, errno: i32) -> (r: Result<Reactor<W>, i32>)
        ensures
            created == SYSCALL_FAILED ==> r == Err::<Reactor<W>, i32>(errno),
            created != SYSCALL_FAILED ==> r is Ok && r->Ok_0.spec_epoll_fd() == created
                && r->Ok_0.registry() == Map::<i32, W>::empty(),
    {
        match syscall(created, errno) {
            Ok(epoll_fd) => Ok(Reactor { epoll_fd, wakers: HashMap::new() }),
            Err(e) => Err(e),
        }
    }

    /// The epoll instance.
    #[verifier::when_used_as_spec(spec_epoll_fd)]
    pub fn epoll_fd(&self) -> (r: i32)
        ensures
            r == self.spec_epoll_fd(),
    {
        self.epoll_fd
    }

    /// The event to hand to the epoll instance when registering an interest
    /// in `fd`: the event flags, and `fd` itself as the user data word.
    pub fn interest_event(fd: i32, event_flags: u32) -> (r: (u32, u64))
        ensures
            r == (event_flags, interest_data(fd)),
    {
        (event_flags, fd as u64)
    }

    /// Whether a waker is registered for `fd`.
    pub fn is_registered(&self, fd: i32) -> (r: bool)
        ensures
            r == self.registry().contains_key(fd),
    {
        self.wakers.contains_key(&fd)
    }

    /// Records `waker` as the waker of `fd`, in place of any earlier one.
    pub fn set_waker(&mut self, fd: i32, waker: W)
        ensures
            final(self).registry() == old(self).registry().insert(fd, waker),
            final(self).spec_epoll_fd() == old(self).spec_epoll_fd(),
    {
        self.wakers.insert(fd, waker);
    }

    /// Completes the registration of an interest in `fd`, given the result
    /// of adding it to the epoll instance (`ctl_result`, with the `errno`
    /// seen right after the call): on success `waker` becomes the waker of
    /// `fd`; on failure the error is that `errno` and nothing changes.
    pub fn register_insterest(&mut self, fd: i32, ctl_result: i32, errno: i32, waker: W) -> (r: Result<(), i32>)
        ensures
            final(self).spec_epoll_fd() == old(self).spec_epoll_fd(),
            ctl_result == SYSCALL_FAILED ==> r == Err::<(), i32>(errno)
                && final(self).registry() == old(self).registry(),
            ctl_result != SYSCALL_FAILED ==> r == Ok::<(), i32>(())
                && final(self).registry() == old(self).registry().insert(fd, waker),
    {
        match syscall(ctl_result, errno) {
            Ok(_) => {
                self.wakers.insert(fd, waker);
                Ok(())
            },
            Err(e) => Err(e),
        }
    }

    /// Takes out of the registry, in order, the waker of each descriptor
    /// that the first `count` events of `ready` name (by their user data
    /// words) and that has one.
    pub fn dispatch_events(&mut self, ready: &Vec<u64>, count: usize) -> (woken: Vec<W>)
        requires
            count <= ready.len(),
        ensures
            (final(self).registry(), woken@) == dispatch(old(self).registry(), ready@.take(count as int)),
            final(self).spec_epoll_fd() == old(self).spec_epoll_fd(),
    {
        let ghost start = self.wakers@;
        let mut woken: Vec<W> = Vec::new();
        let mut i: usize = 0;
        while i < count
            invariant
                0 <= i <= count <= ready.len(),
                (self.wakers@, woken@) == dispatch(start, ready@.take(i as int)),
                self.epoll_fd == old(self).epoll_fd,
            decreases count - i,
        {
            proof {
                assert(ready@.take(i as int + 1).drop_last() =~= ready@.take(i as int));
            }
            let fd = ready[i] as i32;
            match self.wakers.remove(&fd) {
                Some(w) => woken.push(w),
                None => {},
            }
            i = i + 1;
        }
        woken
    }

    /// Handles the outcome of one wait on the epoll instance: `wait_result`
    /// is the number of events or `-1`, `errno` the error seen right after
    /// the call, `interrupted` whether that error means the wait was
    /// interrupted by a signal, and `events` the user data words of the
    /// event buffer of [`MAX_EVENTS`] entries, whose first `wait_result`
    /// entries the wait filled. An interrupted wait asks for a retry, another
    /// failure is returned, and arrived events wake their wakers: at most one
    /// per event, so at most [`MAX_EVENTS`]. A wait only takes wakers out of
    /// the registry.
    pub fn poll_events(&mut self, wait_result: i32, errno: i32, interrupted: bool, events: &Vec<u64>) -> (r: PollEvents<W>)
        requires
            events.len() == MAX_EVENTS,
            wait_result != SYSCALL_FAILED ==> 0 <= wait_result <= events.len(),
        ensures
            final(self).spec_epoll_fd() == old(self).spec_epoll_fd(),
            final(self).registry().dom().subset_of(old(self).registry().dom()),
            forall|fd: i32| #[trigger] final(self).registry().contains_key(fd)
                ==> final(self).registry()[fd] == old(self).registry()[fd],
            r is Woken ==> r->Woken_0.len() <= MAX_EVENTS,
            wait_result == SYSCALL_FAILED && interrupted ==> r is Retry
                && final(self).registry() == old(self).registry(),
            wait_result == SYSCALL_FAILED && !interrupted ==> r == PollEvents::<W>::Failed(errno)
                && final(self).registry() == old(self).registry(),
            wait_result != SYSCALL_FAILED ==> r is Woken
                && (final(self).registry(), r->Woken_0@) == dispatch(
                    old(self).registry(),
                    events@.take(wait_result as int),
                ),
    {
        match syscall(wait_result, errno) {
            Err(e) => {
                if interrupted {
                    PollEvents::Retry
                } else {
                    PollEvents::Failed(e)
                }
            },
            Ok(n) => {
                proof {
                    self.lemma_registry_finite();
                    law_dispatch(self.registry(), events@.take(n as int));
                    lemma_dispatch_woken_len(self.registry(), events@.take(n as int));
                }
                PollEvents::Woken(self.dispatch_events(events, n as usize))
            },
        }
    }
}

} // verus!
