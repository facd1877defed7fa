//! Unidirectional byte pipes and descriptor redirection.
//!
//! The crate allocates close-on-exec pipes and can repoint an existing file
//! descriptor at a fresh pipe's write end while keeping a duplicate of the
//! descriptor's original destination, so that output written to that
//! descriptor can be intercepted and the original destination still reached.

pub mod error;
pub mod handle;
pub mod pipe;
pub mod redirect;
mod sys;

pub use error::OsError;
pub use handle::Handle;
pub use pipe::Pipe;
pub use pipe::PipeFds;
pub use redirect::Dup;
