use vstd::prelude::*;

verus! {

/// The value a failing system call returns.
pub const SYSCALL_FAILED: i32 = -1;

/// Interprets the return value of a system call: `-1` means failure, and the
/// error is then the `errno` observed right after the call; any other value
/// is the call's result.
pub fn syscall(res: i32, errno: i32) -> (r: Result<i32, i32>)
    ensures
        res == SYSCALL_FAILED ==> r == Err::<i32, i32>(errno),
        res != SYSCALL_FAILED ==> r == Ok::<i32, i32>(res),
{
    if res == SYSCALL_FAILED {
        Err(errno)
    } else {
        Ok(res)
    }
}

} // verus!
