//! Error kinds surfaced by the library.

use vstd::prelude::*;

verus! {

/// The error kinds the library distinguishes.
///
/// - `Os`: a syscall failed; carries the underlying errno.
/// - `Spawn`: the child reported an errno over the exec-error pipe
///   (or `-1` when the child-side setup failed without an errno).
/// - `Unsupported`: the controlling-terminal protocol deviated from
///   what the child-side setup expects.
/// - `BadControl`: a control-character mnemonic could not be encoded.
#[derive(Clone, Copy, Debug, PartialEq, Eq, Structural)]
pub enum Error {
    Os(i32),
    Spawn(i32),
    Unsupported,
    BadControl,
}

impl Error {
    /// The errno carried by this error, if it carries one.
    pub fn errno(&self) -> (r: Option<i32>)
        ensures
            r == match *self {
                Error::Os(e) => Some(e),
                Error::Spawn(e) => Some(e),
                Error::Unsupported => None::<i32>,
                Error::BadControl => None::<i32>,
            },
    {
        match *self {
            Error::Os(e) => Some(e),
            Error::Spawn(e) => Some(e),
            Error::Unsupported => None,
            Error::BadControl => None,
        }
    }
}

} // verus!
