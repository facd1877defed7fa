use vstd::prelude::*;
use crate::error::OsError;
use crate::handle::Handle;
use crate::pipe::Pipe;
use crate::sys;

verus! {

/// Redirects an open descriptor of this process through a fresh pipe.
pub struct Dup;

impl Dup {
    /// Repoints the open descriptor numbered `fd` at the write end of a
    /// fresh pipe and returns the pipe's read end together with a duplicate
    /// of the descriptor's original destination.
    ///
    /// The steps run in order: allocate a pipe; duplicate `fd` so the
    /// original destination stays reachable; atomically force the pipe's
    /// write end onto the slot numbered `fd`. After success every write to
    /// `fd` — by any part of the process, aware of the redirection or not —
    /// can be read back from the first handle, and the second handle still
    /// reaches wherever `fd` pointed before. The change is process-wide;
    /// callers that redirect the same descriptor number from several threads
    /// must serialize those calls themselves.
    ///
    /// On failure of any step the OS error is surfaced unmodified and every
    /// descriptor this call had already allocated is released first, so a
    /// failed call leaves no descriptor behind. Both returned handles are
    /// the caller's to close; the pipe's write end itself is not returned
    /// and is released before the call returns, the slot `fd` being its one
    /// remaining owner.
    pub fn new(fd: i32) -> (r: Result<(Handle, Handle), OsError>)
        requires
            fd >= 0,
        ensures
            r is Ok ==> r->Ok_0.0.wf() && r->Ok_0.1.wf() && r->Ok_0.1.spec_fd() != fd,
    {
        let pipe = match Pipe::new() {
            Ok(p) => p,
            Err(e) => {
                return Err(e);
            },
        };
        let Pipe { reader, writer } = pipe;
        let original_fd = match sys::sys_dup(fd) {
            Ok(n) => n,
            Err(code) => {
                let _ = reader.close();
                let _ = writer.close();
                return Err(OsError::from_code(code));
            },
        };
        let original = Handle::from_raw(original_fd);
        match sys::sys_dup2(writer.fd(), fd) {
            Ok(_) => {},
            Err(code) => {
                let _ = reader.close();
                let _ = writer.close();
                let _ = original.close();
                return Err(OsError::from_code(code));
            },
        }
        let _ = writer.close();
        Ok((reader, original))
    }
}

} // verus!
