use std::mem::ManuallyDrop;
use std::sync::Arc;
use std::task::{Wake, Waker};
use timer_future::executor::{BlockOn, BlockOnAction, Waiter};
use timer_future::waker::WakerRef;
use timer_future::reactor::{PollEvents, Reactor, EPOLL_CREATE_FLAGS, EPOLL_CTL_ADD, MAX_EVENTS, WAIT_FOREVER};
use timer_future::syscall::{syscall, SYSCALL_FAILED};
use timer_future::task::{Cell, FutureState, JoinHandle, RawTask};
use timer_future::timer::{Timer, TimerPoll, TimerSpec};

struct Nothing;

impl Wake for Nothing {
    fn wake(self: Arc<Self>) {}
}

fn reactor() -> Reactor<u32> {
    match Reactor::new(3, 0) {
        Ok(r) => r,
        Err(_) => panic!("a valid epoll descriptor builds a reactor"),
    }
}

fn buffer(filled: &[u64]) -> Vec<u64> {
    let mut events = vec![0u64; MAX_EVENTS];
    events[..filled.len()].copy_from_slice(filled);
    events
}

fn woken(outcome: PollEvents<u32>) -> Vec<u32> {
    match outcome {
        PollEvents::Woken(ws) => ws,
        _ => panic!("expected wakers"),
    }
}

#[test]
fn syscall_failure_carries_errno() {
    assert_eq!(syscall(SYSCALL_FAILED, 4), Err(4));
    assert_eq!(syscall(-1, 22), Err(22));
}

#[test]
fn syscall_success_carries_result() {
    assert_eq!(syscall(5, 0), Ok(5));
    assert_eq!(syscall(0, 9), Ok(0));
    assert_eq!(syscall(-2, 9), Ok(-2));
}

#[test]
fn reactor_new_fails_with_errno() {
    assert!(matches!(Reactor::<u32>::new(-1, 24), Err(24)));
}

#[test]
fn reactor_new_starts_empty() {
    let r = reactor();
    assert_eq!(r.epoll_fd(), 3);
    assert!(!r.is_registered(0));
    assert!(!r.is_registered(7));
}

#[test]
fn interest_event_carries_fd_and_flags() {
    assert_eq!(Reactor::<u32>::interest_event(5, 0x8000_0001), (0x8000_0001, 5));
    assert_eq!(Reactor::<u32>::interest_event(-1, 1), (1, u64::MAX));
    assert_eq!(MAX_EVENTS, 32);
}

#[test]
fn register_interest_failure_keeps_registry() {
    let mut r = reactor();
    assert_eq!(r.register_insterest(7, -1, 9, 70), Err(9));
    assert!(!r.is_registered(7));
}

#[test]
fn register_interest_success_records_waker() {
    let mut r = reactor();
    assert_eq!(r.register_insterest(7, 0, 0, 70), Ok(()));
    assert!(r.is_registered(7));
    let ws = woken(r.poll_events(1, 0, false, &buffer(&[7])));
    assert_eq!(ws, vec![70]);
    assert!(!r.is_registered(7));
}

#[test]
fn poll_events_interrupted_asks_retry() {
    let mut r = reactor();
    r.set_waker(7, 70);
    assert!(matches!(r.poll_events(-1, 4, true, &buffer(&[7])), PollEvents::Retry));
    assert!(r.is_registered(7));
}

#[test]
fn poll_events_failure_carries_errno() {
    let mut r = reactor();
    r.set_waker(7, 70);
    assert!(matches!(r.poll_events(-1, 9, false, &buffer(&[7])), PollEvents::Failed(9)));
    assert!(r.is_registered(7));
}

#[test]
fn poll_events_wakes_in_event_order_once_each() {
    let mut r = reactor();
    r.set_waker(5, 50);
    r.set_waker(6, 60);
    r.set_waker(7, 70);
    let ws = woken(r.poll_events(4, 0, false, &buffer(&[7, 5, 7, 9])));
    assert_eq!(ws, vec![70, 50]);
    assert!(!r.is_registered(5));
    assert!(r.is_registered(6));
    assert!(!r.is_registered(7));
    let again = woken(r.poll_events(1, 0, false, &buffer(&[7])));
    assert!(again.is_empty());
}

#[test]
fn poll_events_reads_only_filled_entries() {
    let mut r = reactor();
    r.set_waker(5, 50);
    r.set_waker(6, 60);
    assert_eq!(woken(r.poll_events(1, 0, false, &buffer(&[5, 6, 6]))), vec![50]);
    assert!(r.is_registered(6));
}

#[test]
fn poll_events_with_no_events_wakes_nothing() {
    let mut r = reactor();
    r.set_waker(5, 50);
    assert!(woken(r.poll_events(0, 0, false, &buffer(&[]))).is_empty());
    assert!(r.is_registered(5));
}

#[test]
fn event_data_names_low_32_bits() {
    let mut r = reactor();
    r.set_waker(5, 50);
    let ws = woken(r.poll_events(1, 0, false, &buffer(&[(1u64 << 32) | 5])));
    assert_eq!(ws, vec![50]);
    let mut r2 = reactor();
    r2.set_waker(-1, 11);
    let (_, data) = Reactor::<u32>::interest_event(-1, 0);
    assert_eq!(woken(r2.poll_events(1, 0, false, &buffer(&[data]))), vec![11]);
}

#[test]
fn set_waker_replaces_earlier_one() {
    let mut r = reactor();
    r.set_waker(5, 50);
    r.set_waker(5, 51);
    assert_eq!(woken(r.poll_events(1, 0, false, &buffer(&[5]))), vec![51]);
}

#[test]
fn timer_spec_is_deadline_once() {
    let spec = Timer::start_spec(3, 250);
    assert_eq!(spec, TimerSpec { value_sec: 3, value_nsec: 250, interval_sec: 0, interval_nsec: 0 });
}

#[test]
fn timer_spec_reinterprets_huge_seconds() {
    let spec = Timer::start_spec(u64::MAX, 999_999_999);
    assert_eq!(spec.value_sec, -1);
    assert_eq!(spec.value_nsec, 999_999_999);
    assert_eq!(spec.interval_sec, 0);
    assert_eq!(spec.interval_nsec, 0);
}

#[test]
fn fresh_timer_asks_to_start() {
    let t = Timer::new(9, 5);
    assert_eq!(t.deadline_secs(), 9);
    assert_eq!(t.deadline_nanos(), 5);
    let mut r = reactor();
    r.set_waker(4, 40);
    match t.poll(&mut r, 1) {
        TimerPoll::Start(spec, w) => {
            assert_eq!(spec, Timer::start_spec(9, 5));
            assert_eq!(w, 1);
        },
        _ => panic!("a fresh timer must be started"),
    }
    assert!(r.is_registered(4));
    assert!(!r.is_registered(9));
}

#[test]
fn timer_lifecycle_pending_until_its_event() {
    let mut r = reactor();
    let mut t = Timer::new(3, 0);
    assert!(matches!(t.poll(&mut r, 1), TimerPoll::Start(_, 1)));
    assert_eq!(t.finish_start(&mut r, 8, 0, 0, 1), Ok(()));
    assert!(r.is_registered(8));
    assert!(matches!(t.poll(&mut r, 2), TimerPoll::Pending));
    assert!(matches!(t.poll(&mut r, 3), TimerPoll::Pending));
    let ws = woken(r.poll_events(1, 0, false, &buffer(&[8])));
    assert_eq!(ws, vec![3]);
    assert!(matches!(t.poll(&mut r, 4), TimerPoll::Ready));
    assert!(matches!(t.poll(&mut r, 5), TimerPoll::Ready));
    assert!(!r.is_registered(8));
}

#[test]
fn timer_failed_registration_starts_again() {
    let mut r = reactor();
    let mut t = Timer::new(1, 0);
    assert!(matches!(t.poll(&mut r, 1), TimerPoll::Start(_, 1)));
    assert_eq!(t.finish_start(&mut r, 8, -1, 13, 1), Err(13));
    assert!(!r.is_registered(8));
    assert!(matches!(t.poll(&mut r, 2), TimerPoll::Start(_, 2)));
}

#[test]
fn waiter_polls_first_then_only_after_wake() {
    let mut w = Waiter::new();
    assert!(w.reset_waiter());
    assert!(!w.reset_waiter());
    w.wake_by_ref();
    w.wake_by_ref();
    assert!(w.reset_waiter());
    assert!(!w.reset_waiter());
}

#[test]
fn task_output_read_once() {
    let mut t: RawTask<u8, u32, u32, ()> = RawTask::new(1, ());
    assert!(!t.cell().is_completed());
    assert_eq!(t.try_read_output(10, false), None);
    assert_eq!(t.cell_mut().complete(42), Some(10));
    assert!(t.cell().is_completed());
    assert_eq!(t.try_read_output(11, false), Some(42));
    assert!(!t.cell().is_completed());
    assert_eq!(t.try_read_output(12, false), None);
}

#[test]
fn task_completion_without_reader_wakes_nobody() {
    let mut t: RawTask<u8, u32, u32, ()> = RawTask::new(1, ());
    assert_eq!(t.cell_mut().complete(7), None);
    assert_eq!(t.cell_mut().complete(8), None);
    assert_eq!(t.try_read_output(10, true), Some(7));
}

#[test]
fn task_keeps_waker_that_already_wakes_reader() {
    let mut t: RawTask<u8, u32, u32, ()> = RawTask::new(1, ());
    assert_eq!(t.try_read_output(10, false), None);
    assert_eq!(t.try_read_output(11, true), None);
    assert_eq!(t.cell_mut().complete(3), Some(10));
    let mut u: RawTask<u8, u32, u32, ()> = RawTask::new(1, ());
    assert_eq!(u.try_read_output(10, false), None);
    assert_eq!(u.try_read_output(11, false), None);
    assert_eq!(u.cell_mut().complete(3), Some(11));
    let mut v: RawTask<u8, u32, u32, ()> = RawTask::new(1, ());
    assert_eq!(v.try_read_output(12, true), None);
    assert_eq!(v.cell_mut().complete(3), Some(12));
}

#[test]
fn task_future_polled_in_place() {
    let mut t: RawTask<u8, u32, u32, &str> = RawTask::new(1, "spawner");
    assert_eq!(*t.spawner(), "spawner");
    match t.cell_mut().future_mut() {
        Some(f) => *f = 9,
        None => panic!("a new task is running"),
    }
    match t.cell_mut().future_mut() {
        Some(f) => assert_eq!(*f, 9),
        None => panic!("still running"),
    }
    t.cell_mut().complete(1);
    assert!(t.cell_mut().future_mut().is_none());
}

#[test]
fn dropped_task_is_inert() {
    let mut t: RawTask<u8, u32, u32, ()> = RawTask::new(1, ());
    assert_eq!(t.try_read_output(10, false), None);
    t.drop_task();
    assert_eq!(t.cell_mut().complete(5), None);
    assert_eq!(t.try_read_output(11, false), None);
    assert!(t.cell_mut().future_mut().is_none());
    let mut u: RawTask<u8, u32, u32, ()> = RawTask::new(1, ());
    u.cell_mut().drop();
    let c: &Cell<u8, u32, u32> = u.cell();
    assert!(!c.is_completed());
    assert_eq!(u.try_read_output(1, false), None);
}

#[test]
fn join_handle_holds_task() {
    let h = JoinHandle::new(17u8);
    assert_eq!(*h.raw_task(), 17);
    let _ = FutureState::<u8, u32>::Consumed;
}

#[test]
fn block_on_polls_then_waits_then_polls_only_after_wake() {
    let mut w = Waiter::new();
    let mut b = BlockOn::new();
    assert!(matches!(b.next(&mut w), BlockOnAction::PollFuture));
    assert!(matches!(b.next(&mut w), BlockOnAction::WaitForEvents));
    assert!(matches!(b.next(&mut w), BlockOnAction::WaitForEvents));
    w.wake_by_ref();
    assert!(matches!(b.next(&mut w), BlockOnAction::PollFuture));
    w.wake_by_ref();
    assert!(matches!(b.next(&mut w), BlockOnAction::WaitForEvents));
    assert!(matches!(b.next(&mut w), BlockOnAction::PollFuture));
    assert!(matches!(b.next(&mut w), BlockOnAction::WaitForEvents));
}

#[test]
fn waker_ref_lends_the_waker() {
    let arc = Arc::new(Nothing);
    let w = Waker::from(Arc::clone(&arc));
    let lent = WakerRef::new_uowned(ManuallyDrop::new(w.clone()));
    assert!(lent.will_wake(&w));
    drop(lent);
    assert_eq!(Arc::strong_count(&arc), 3);
}

#[test]
fn ready_timer_stays_ready_until_reregistered() {
    let mut r = reactor();
    let mut t = Timer::new(1, 0);
    assert_eq!(t.finish_start(&mut r, 8, 0, 0, 1), Ok(()));
    r.poll_events(1, 0, false, &buffer(&[8]));
    assert!(matches!(t.poll(&mut r, 2), TimerPoll::Ready));
    r.set_waker(9, 90);
    assert!(matches!(t.poll(&mut r, 3), TimerPoll::Ready));
    assert!(r.is_registered(9));
}

#[test]
fn system_call_arguments_match_libc() {
    assert_eq!(EPOLL_CREATE_FLAGS, libc::EPOLL_CLOEXEC);
    assert_eq!(EPOLL_CTL_ADD, libc::EPOLL_CTL_ADD);
    assert_eq!(Timer::create_args(), (libc::CLOCK_MONOTONIC, libc::TFD_NONBLOCK | libc::TFD_CLOEXEC));
    assert_eq!(Timer::interest_flags(), (libc::EPOLLIN | libc::EPOLLET | libc::EPOLLONESHOT) as u32);
    assert_eq!(Timer::interest_flags(), 0xC000_0001);
}

#[test]
fn wait_blocks_unless_spawned_tasks_ran() {
    assert_eq!(BlockOn::wait_timeout(false), WAIT_FOREVER);
    assert_eq!(WAIT_FOREVER, -1);
    assert_eq!(BlockOn::wait_timeout(true), 0);
}

#[test]
fn full_buffer_wakes_at_most_max_events() {
    let mut r = reactor();
    for fd in 0..40 {
        r.set_waker(fd, fd as u32);
    }
    let all: Vec<u64> = (0..MAX_EVENTS as u64).collect();
    let ws = woken(r.poll_events(MAX_EVENTS as i32, 0, false, &all));
    assert_eq!(ws.len(), MAX_EVENTS);
    assert!(r.is_registered(35));
    assert!(!r.is_registered(31));
}
