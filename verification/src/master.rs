//! The PTY master device.

use vstd::prelude::*;
use crate::error::Error;
use crate::sys;

verus! {

/// Owns the master descriptor of a pseudo-terminal pair. For the
/// lifetime of the device the descriptor stays open; duplicates handed
/// out by [`Master::get_file_handle`] have independent lifetimes. The
/// descriptor is closed when the device is dropped.
pub struct Master {
    pub(crate) fd: rustix::fd::OwnedFd,
}

impl Master {
    /// Opens a new PTY master with read/write access.
    pub fn open() -> (r: Result<Master, Error>)
        ensures
            r is Err ==> r->Err_0 is Os,
    {
        match sys::pty_openpt() {
            Ok(fd) => Ok(Master { fd }),
            Err(e) => Err(Error::Os(e)),
        }
    }

    /// Grants access to the slave device.
    pub fn grant_slave_access(&self) -> (r: Result<(), Error>)
        ensures
            r is Err ==> r->Err_0 is Os,
    {
        match sys::pty_grant(&self.fd) {
            Ok(()) => Ok(()),
            Err(e) => Err(Error::Os(e)),
        }
    }

    /// Unlocks the slave device.
    pub fn unlock_slave(&self) -> (r: Result<(), Error>)
        ensures
            r is Err ==> r->Err_0 is Os,
    {
        match sys::pty_unlock(&self.fd) {
            Ok(()) => Ok(()),
            Err(e) => Err(Error::Os(e)),
        }
    }

    /// Resolves the filesystem path of the slave device.
    pub fn get_slave_name(&self) -> (r: Result<String, Error>)
        ensures
            r is Err ==> r->Err_0 is Os,
    {
        match sys::pty_slave_name(&self.fd) {
            Ok(name) => Ok(name),
            Err(e) => Err(Error::Os(e)),
        }
    }

    /// Opens the slave device read/write and returns its raw descriptor.
    /// Grant and unlock must have succeeded first; the descriptor is
    /// only needed in the child.
    pub fn get_slave_fd(&self) -> (r: Result<i32, Error>)
        ensures
            r is Ok ==> r->Ok_0 >= 0,
            r is Err ==> r->Err_0 is Os,
    {
        let name = match self.get_slave_name() {
            Ok(name) => name,
            Err(e) => return Err(e),
        };
        match sys::sys_open(name.as_str(), sys::OpenMode::ReadWrite) {
            Ok(fd) => Ok(fd),
            Err(e) => Err(Error::Os(e)),
        }
    }

    /// Duplicates the master descriptor as an independently owned file
    /// handle; each call yields a fresh descriptor.
    pub fn get_file_handle(&self) -> (r: Result<rustix::fd::OwnedFd, Error>)
        ensures
            r is Err ==> r->Err_0 is Os,
    {
        match sys::fd_dup_owned(&self.fd) {
            Ok(fd) => Ok(fd),
            Err(e) => Err(Error::Os(e)),
        }
    }

    /// The raw descriptor number of the master.
    pub fn raw_fd(&self) -> (r: i32)
        ensures
            r >= 0,
    {
        sys::fd_raw(&self.fd)
    }
}

} // verus!
