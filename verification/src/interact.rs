//! The interact bridge: a cooperative copy loop between the caller's
//! terminal and the child.

use vstd::prelude::*;
use crate::error::Error;
use crate::process::PtyProcess;
use crate::status::WaitStatus;
use crate::stream::{find_byte, take_prefix, try_read_fd, write_fd_all};
use crate::sys;
use crate::term;

verus! {

/// The in-band escape byte (Ctrl-]) that ends the interact session
/// without being forwarded.
pub const ESCAPE_CHAR: u8 = 0x1d;

/// The scratch-buffer size of the splice loop.
pub const INTERACT_CHUNK: usize = 512;

/// How long the splice loop sleeps when neither side had data, in
/// milliseconds.
pub const INTERACT_BACKOFF_MS: i32 = 10;

/// Splits one chunk of user input at the escape byte: the first
/// component is what is forwarded to the child — the bytes before the
/// first `esc`, in order — and the second reports whether `esc`
/// occurred. The escape byte and everything after it are dropped.
pub fn split_at_escape(chunk: &[u8], esc: u8) -> (r: (Vec<u8>, bool))
    ensures
        r.0@ == chunk@.subrange(0, r.0@.len() as int),
        forall|j: int| 0 <= j < r.0@.len() ==> r.0@[j] != esc,
        r.1 ==> r.0@.len() < chunk@.len() && chunk@[r.0@.len() as int] == esc,
        !r.1 ==> r.0@ == chunk@,
        r.1 <==> exists|j: int| 0 <= j < chunk@.len() && #[trigger] chunk@[j] == esc,
{
    match find_byte(chunk, esc) {
        Some(i) => {
            let head = take_prefix(chunk, i);
            (head, true)
        },
        None => {
            let all = take_prefix(chunk, chunk.len());
            proof {
                assert(all@ =~= chunk@);
            }
            (all, false)
        },
    }
}

impl PtyProcess {
    /// Gives control of the child to the user at the keyboard: child
    /// output is copied to the caller's standard output, keystrokes are
    /// forwarded to the child, and typing the escape byte (Ctrl-])
    /// returns control, with the bytes after it in the same chunk
    /// dropped.
    ///
    /// The pty's echo setting is turned on for the session and the
    /// caller's terminal is switched to raw mode when standard input is
    /// a terminal; both are restored on every exit path of the splice
    /// loop before this function returns, and a restoration failure
    /// supersedes the loop's own outcome.
    pub fn interact(&mut self) -> (r: Result<WaitStatus, Error>)
        ensures
            final(self).same_handle(old(self)),
            r is Ok && r->Ok_0 is Exited ==> r->Ok_0->Exited_0 == old(self).pid_spec(),
            r is Ok && r->Ok_0 is Signaled ==> r->Ok_0->Signaled_0 == old(self).pid_spec(),
            r is Err ==> r->Err_0 is Os,
    {
        let origin_echo = match self.get_echo() {
            Ok(b) => b,
            Err(e) => return Err(e),
        };
        if let Err(e) = self.set_echo(true) {
            return Err(e);
        }
        // Raw mode only applies when standard input is a terminal;
        // reading attributes of anything else would fail.
        let stdin_is_tty = match sys::sys_isatty(0) {
            Ok(b) => b,
            Err(e) => return Err(Error::Os(e)),
        };
        if stdin_is_tty {
            let saved = match sys::term_get_attrs(0) {
                Ok(t) => t,
                Err(e) => return Err(Error::Os(e)),
            };
            if let Err(e) = term::set_raw(0) {
                return Err(e);
            }
            let result = self.splice_session();
            // Restore on every exit path; a failed restore outranks
            // the loop's outcome.
            if let Err(e) = sys::term_restore_attrs(0, &saved) {
                return Err(Error::Os(e));
            }
            if let Err(e) = self.set_echo(origin_echo) {
                return Err(e);
            }
            result
        } else {
            let result = self.splice_session();
            if let Err(e) = self.set_echo(origin_echo) {
                return Err(e);
            }
            result
        }
    }

    /// Owns a duplicate of standard input for the splice loop and
    /// closes it afterwards; closing the real descriptor would break
    /// later use of standard input.
    fn splice_session(&mut self) -> (r: Result<WaitStatus, Error>)
        ensures
            final(self).same_handle(old(self)),
            r is Ok && r->Ok_0 is Exited ==> r->Ok_0->Exited_0 == old(self).pid_spec(),
            r is Ok && r->Ok_0 is Signaled ==> r->Ok_0->Signaled_0 == old(self).pid_spec(),
            r is Err ==> r->Err_0 is Os,
    {
        let stdin_copy = match sys::sys_dup(0) {
            Ok(fd) => fd,
            Err(e) => return Err(Error::Os(e)),
        };
        let result = self.splice_loop(stdin_copy);
        let _ = sys::sys_close(stdin_copy);
        result
    }

    /// One splice session: polls the child's status, copies child
    /// output to standard output in read order, forwards user input to
    /// the child in read order up to the escape byte, and backs off
    /// briefly when neither side had data. Returns the child's status
    /// as soon as it is not alive, either side reaches end of file, or
    /// the user types the escape.
    fn splice_loop(&mut self, stdin_fd: i32) -> (r: Result<WaitStatus, Error>)
        requires
            stdin_fd >= 0,
        ensures
            final(self).same_handle(old(self)),
            r is Ok && r->Ok_0 is Exited ==> r->Ok_0->Exited_0 == old(self).pid_spec(),
            r is Ok && r->Ok_0 is Signaled ==> r->Ok_0->Signaled_0 == old(self).pid_spec(),
            r is Err ==> r->Err_0 is Os,
    {
        let mut fuel: usize = usize::MAX;
        loop
            invariant
                self.same_handle(old(self)),
            decreases fuel,
        {
            match self.status() {
                Ok(WaitStatus::StillAlive) => {},
                other => return other,
            }

            let mut activity = false;

            match self.try_read(INTERACT_CHUNK) {
                Ok(Some(out)) => {
                    if out.len() == 0 {
                        // End of file from the child: report its state.
                        return self.status();
                    }
                    if let Err(e) = write_fd_all(1, out.as_slice()) {
                        return Err(e);
                    }
                    activity = true;
                },
                Ok(None) => {},
                Err(e) => return Err(e),
            }

            match try_read_fd(stdin_fd, INTERACT_CHUNK) {
                Ok(Some(keys)) => {
                    if keys.len() == 0 {
                        // End of file from the user: report the state.
                        return self.status();
                    }
                    let (forward, escaped) = split_at_escape(keys.as_slice(), ESCAPE_CHAR);
                    if let Err(e) = self.send_bytes(forward.as_slice()) {
                        return Err(e);
                    }
                    if escaped {
                        return self.status();
                    }
                    activity = true;
                },
                Ok(None) => {},
                Err(e) => return Err(e),
            }

            if !activity {
                sys::sys_sleep_ms(INTERACT_BACKOFF_MS);
            }
            if fuel == 0 {
                return self.status();
            }
            fuel = fuel - 1;
        }
    }
}

} // verus!
