use vstd::prelude::*;
use crate::error::OsError;
use crate::handle::Handle;
use crate::sys;

verus! {

/// The raw descriptor pair of a freshly allocated pipe, as the kernel filled
/// it in: the read end first, then the write end.
#[derive(Debug)]
pub struct PipeFds {
    pub reader: i32,
    pub writer: i32,
}

/// A unidirectional byte channel provided by the kernel.
///
/// Bytes written to `writer` become readable from `reader`, in write order.
/// The two ends are created together by a single atomic OS request, with the
/// close-on-exec flag set on both so child processes do not inherit them.
#[derive(Debug)]
pub struct Pipe {
    pub reader: Handle,
    pub writer: Handle,
}

impl Pipe {
    /// Both ends are open handles standing on distinct descriptor numbers.
    pub open spec fn wf(&self) -> bool {
        self.reader.wf() && self.writer.wf() && self.reader.spec_fd() != self.writer.spec_fd()
    }

    /// Allocates one fresh pipe in a single atomic OS request.
    ///
    /// On success both ends are open, non-inheritable and distinct; two
    /// entries of the process descriptor table are consumed. On failure the
    /// OS error is surfaced unmodified and no descriptor is left behind:
    /// creation is all or nothing.
    pub fn new() -> (r: Result<Pipe, OsError>)
        ensures
            r is Ok ==> r->Ok_0.wf(),
    {
        match sys::sys_pipe2() {
            Ok(fds) => Ok(
                Pipe {
                    reader: Handle::from_raw(fds.reader),
                    writer: Handle::from_raw(fds.writer),
                },
            ),
            Err(code) => Err(OsError::from_code(code)),
        }
    }
}

} // verus!
