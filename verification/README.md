# timer_future

A small single-threaded timer runtime built on epoll and timer descriptors.

- `src/` is the verified library: the interpretation of system call results
  (`syscall`), the waker registry of the epoll reactor and the dispatch of
  readiness events (`reactor`), the state machine of a timer future
  (`timer`), the wake flag and step machine of the blocking executor (`executor`),
  the shared state of a spawned task (`task`) and the lent waker (`waker`). Each module states its behaviour
  in contracts and proves the laws that tie its operations together.
- `app/` is the program around it: the system calls themselves, the
  thread-local current reactor, wakers, the `Future` impls, the executor
  loop and `main`.
- `tests/` exercises the library on concrete values.
