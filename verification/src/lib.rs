//! A small single-threaded timer runtime: the bookkeeping of an epoll
//! reactor, the state machine of a timer future, the wake flag of the
//! blocking executor and the completion cell of a spawned task.

pub mod syscall;
pub mod reactor;
pub mod timer;
pub mod executor;
pub mod task;
pub mod waker;
