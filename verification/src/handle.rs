use vstd::prelude::*;
use crate::error::OsError;
use crate::sys;

verus! {

/// An owned reference to one open descriptor of the calling process.
///
/// Exactly one `Handle` value owns a given descriptor at any time; the crate
/// never copies a handle, it duplicates the underlying descriptor instead.
/// Closing releases the descriptor and consumes the handle, so it can be
/// released at most once. There is no implicit cleanup: a handle that is
/// dropped without `close` leaks its descriptor until the process ends.
#[derive(Debug)]
pub struct Handle {
    fd: i32,
}

impl Handle {
    /// The descriptor number this handle owns.
    pub closed spec fn spec_fd(&self) -> int {
        self.fd as int
    }

    /// A handle is well formed when it stands on a descriptor number the
    /// kernel can have assigned: a nonnegative one.
    pub open spec fn wf(&self) -> bool {
        self.spec_fd() >= 0
    }

    /// Takes ownership of the descriptor numbered `fd`. The caller warrants
    /// that the descriptor is open and that no other owner remains.
    pub fn from_raw(fd: i32) -> (r: Handle)
        requires
            fd >= 0,
        ensures
            r.wf(),
            r.spec_fd() == fd,
    {
        Handle { fd }
    }

    /// Returns the descriptor number this handle owns, for callers that must
    /// name it in further OS requests of their own.
    pub fn fd(&self) -> (r: i32)
        ensures
            r == self.spec_fd(),
    {
        self.fd
    }

    /// Writes a prefix of `buf` to the stream behind this handle and returns
    /// how many bytes the kernel took, or the OS error unmodified.
    pub fn write(&self, buf: &[u8]) -> (r: Result<usize, OsError>)
        requires
            self.wf(),
        ensures
            r is Ok ==> r->Ok_0 <= buf@.len(),
    {
        match sys::sys_write(self.fd, buf) {
            Ok(n) => Ok(n),
            Err(code) => Err(OsError::from_code(code)),
        }
    }

    /// Reads into a prefix of `buf` from the stream behind this handle and
    /// returns how many bytes arrived, or the OS error unmodified. The
    /// buffer's length is unchanged.
    pub fn read(&self, buf: &mut Vec<u8>) -> (r: Result<usize, OsError>)
        requires
            self.wf(),
        ensures
            final(buf)@.len() == old(buf)@.len(),
            r is Ok ==> r->Ok_0 <= old(buf)@.len(),
    {
        match sys::sys_read(self.fd, buf) {
            Ok(n) => Ok(n),
            Err(code) => Err(OsError::from_code(code)),
        }
    }

    /// Releases the descriptor this handle owns, consuming the handle, and
    /// surfaces the OS error unmodified if the kernel reports one.
    pub fn close(self) -> (r: Result<(), OsError>)
        requires
            self.wf(),
        ensures
            r is Ok ==> r->Ok_0 == (),
    {
        match sys::sys_close(self.fd) {
            Ok(()) => Ok(()),
            Err(code) => Err(OsError::from_code(code)),
        }
    }
}

} // verus!
