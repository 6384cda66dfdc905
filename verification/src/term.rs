//! Terminal attribute operations over a raw descriptor, and the probe
//! for the parent terminal's special characters.

use vstd::prelude::*;
use crate::error::Error;
use crate::sys;

verus! {

/// Default end-of-file control byte (Ctrl-D), used when the parent's
/// terminal cannot be probed.
pub const DEFAULT_VEOF_CHAR: u8 = 0x4;

/// Default interrupt control byte (Ctrl-C), used when the parent's
/// terminal cannot be probed.
pub const DEFAULT_INTR_CHAR: u8 = 0x3;

/// Sets or clears the ECHO flag on the terminal at `fd`, applied with
/// set-now semantics. Fails when `fd` is not a terminal.
pub(crate) fn set_echo(fd: i32, on: bool) -> (r: Result<(), Error>)
    ensures
        r is Err ==> r->Err_0 is Os,
{
    match sys::term_set_echo(fd, on) {
        Ok(()) => Ok(()),
        Err(e) => Err(Error::Os(e)),
    }
}

/// Whether the ECHO flag is set on the terminal at `fd`.
pub(crate) fn get_echo(fd: i32) -> (r: Result<bool, Error>)
    ensures
        r is Err ==> r->Err_0 is Os,
{
    match sys::term_get_echo(fd) {
        Ok(b) => Ok(b),
        Err(e) => Err(Error::Os(e)),
    }
}

/// Applies the standard raw-mode transform to the terminal at `fd`,
/// with set-now semantics.
pub(crate) fn set_raw(fd: i32) -> (r: Result<(), Error>)
    ensures
        r is Err ==> r->Err_0 is Os,
{
    match sys::term_set_raw(fd) {
        Ok(()) => Ok(()),
        Err(e) => Err(Error::Os(e)),
    }
}

/// Reads one special character of the terminal at `fd`: VEOF when
/// `veof` is set, else VINTR.
pub(crate) fn get_term_char(fd: i32, veof: bool) -> (r: Result<u8, Error>)
    ensures
        r is Err ==> r->Err_0 is Os,
{
    match sys::term_special_char(fd, veof) {
        Ok(b) => Ok(b),
        Err(e) => Err(Error::Os(e)),
    }
}

/// Probes the controlling terminal of the calling process for a special
/// character, trying standard input first, then standard output, and
/// returns the first success.
pub(crate) fn get_this_term_char(veof: bool) -> (r: Option<u8>) {
    match get_term_char(0, veof) {
        Ok(b) => Some(b),
        Err(_) => match get_term_char(1, veof) {
            Ok(b) => Some(b),
            Err(_) => None,
        },
    }
}

/// The interrupt byte of the caller's terminal, or the documented
/// default when no terminal can be probed.
pub(crate) fn get_intr_char() -> u8 {
    match get_this_term_char(false) {
        Some(b) => b,
        None => DEFAULT_INTR_CHAR,
    }
}

/// The end-of-file byte of the caller's terminal, or the documented
/// default when no terminal can be probed.
pub(crate) fn get_eof_char() -> u8 {
    match get_this_term_char(true) {
        Some(b) => b,
        None => DEFAULT_VEOF_CHAR,
    }
}

} // verus!
