use vstd::prelude::*;

verus! {

/// An error reported by the operating system, carried as its raw errno code.
///
/// Every failure surfaced by this crate is of this one kind: the kernel
/// refused a pipe allocation, a descriptor duplication or a descriptor
/// repoint, and the code it reported is passed on unmodified.
#[derive(Debug)]
pub struct OsError {
    code: i32,
}

impl OsError {
    /// The errno code this error carries.
    pub closed spec fn spec_code(&self) -> i32 {
        self.code
    }

    /// Wraps a raw errno code.
    pub fn from_code(code: i32) -> (r: OsError)
        ensures
            r.spec_code() == code,
    {
        OsError { code }
    }

    /// Returns the raw errno code this error carries.
    pub fn code(&self) -> (r: i32)
        ensures
            r == self.spec_code(),
    {
        self.code
    }
}

} // verus!
