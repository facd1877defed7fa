//! Trusted bindings to the operating-system requests this crate relies on.
//!
//! Each function here wraps exactly one call into the `nix` crate and hands a
//! failure on as the raw errno code the kernel reported. Nothing else in the
//! crate reaches the operating system.

use vstd::prelude::*;
use crate::pipe::PipeFds;

verus! {

/// Relies on `nix::unistd::pipe2` called with `O_CLOEXEC`: on success the
/// kernel has allocated a connected pipe as two fresh entries of the process
/// descriptor table, read end first, with close-on-exec set on both ends.
/// Fresh entries are nonnegative and, being two entries, distinct.
#[verifier::external_body]
pub(crate) fn sys_pipe2() -> (r: Result<PipeFds, i32>)
    ensures
        r is Ok ==> r->Ok_0.reader >= 0 && r->Ok_0.writer >= 0 && r->Ok_0.reader
            != r->Ok_0.writer,
{
    match nix::unistd::pipe2(nix::fcntl::OFlag::O_CLOEXEC) {
        Ok((reader, writer)) => Ok(PipeFds { reader, writer }),
        Err(e) => Err(e as i32),
    }
}

/// Relies on `nix::unistd::dup`: on success the kernel has repeated the open
/// stream behind `fd` under the lowest descriptor number that was unused, so
/// the result is nonnegative and differs from `fd`, which was in use.
#[verifier::external_body]
pub(crate) fn sys_dup(fd: i32) -> (r: Result<i32, i32>)
    requires
        fd >= 0,
    ensures
        r is Ok ==> r->Ok_0 >= 0 && r->Ok_0 != fd,
{
    match nix::unistd::dup(fd) {
        Ok(new_fd) => Ok(new_fd),
        Err(e) => Err(e as i32),
    }
}

/// Relies on `nix::unistd::dup2`: on success the descriptor number `new_fd`
/// refers to the same open stream as `old_fd`, whatever stood at `new_fd`
/// before has been released, the slot was never left empty in between, and
/// the call returns `new_fd` itself.
#[verifier::external_body]
pub(crate) fn sys_dup2(old_fd: i32, new_fd: i32) -> (r: Result<i32, i32>)
    requires
        old_fd >= 0,
        new_fd >= 0,
    ensures
        r is Ok ==> r->Ok_0 == new_fd,
{
    match nix::unistd::dup2(old_fd, new_fd) {
        Ok(n) => Ok(n),
        Err(e) => Err(e as i32),
    }
}

/// Relies on `nix::unistd::close`: releases the descriptor table entry
/// numbered `fd`.
#[verifier::external_body]
pub(crate) fn sys_close(fd: i32) -> (r: Result<(), i32>)
    requires
        fd >= 0,
    ensures
        r is Ok ==> r->Ok_0 == (),
{
    match nix::unistd::close(fd) {
        Ok(()) => Ok(()),
        Err(e) => Err(e as i32),
    }
}

/// Relies on `nix::unistd::write`: hands a prefix of `buf` to the stream
/// behind `fd` and reports how many bytes the kernel took, at most the whole
/// buffer.
#[verifier::external_body]
pub(crate) fn sys_write(fd: i32, buf: &[u8]) -> (r: Result<usize, i32>)
    requires
        fd >= 0,
    ensures
        r is Ok ==> r->Ok_0 <= buf@.len(),
{
    match nix::unistd::write(fd, buf) {
        Ok(n) => Ok(n),
        Err(e) => Err(e as i32),
    }
}

/// Relies on `nix::unistd::read`: fills a prefix of `buf` from the stream
/// behind `fd` and reports how many bytes arrived, at most the buffer's
/// length, which it leaves unchanged.
#[verifier::external_body]
pub(crate) fn sys_read(fd: i32, buf: &mut Vec<u8>) -> (r: Result<usize, i32>)
    requires
        fd >= 0,
    ensures
        final(buf)@.len() == old(buf)@.len(),
        r is Ok ==> r->Ok_0 <= old(buf)@.len(),
{
    match nix::unistd::read(fd, buf.as_mut_slice()) {
        Ok(n) => Ok(n),
        Err(e) => Err(e as i32),
    }
}

} // verus!
