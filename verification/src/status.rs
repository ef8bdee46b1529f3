//! The closed set of error kinds an operation of this volume can report.
//!
//! Every operation either succeeds or hands one of these kinds to its
//! immediate caller; nothing is retried here and nothing escalates beyond a
//! failed call.  That an unrecognized mount option is *not* an error is a
//! deliberate policy recorded in [`crate::context`], not an error kind.

use vstd::prelude::*;

verus! {

/// Why an operation failed.
#[derive(Clone, Copy, Debug, PartialEq, Eq, Structural)]
pub enum FsError {
    /// The host allocator could not supply memory for mount-scoped state or
    /// for a symbolic link's body.
    OutOfMemory,
    /// The node allocator was exhausted: the conventional signal that the
    /// backing memory of the volume is full.
    NoSpace,
    /// The option tokenizer rejected the value of a recognized mount option;
    /// this is fatal to the mount attempt.
    BadParameter,
}

} // verus!
