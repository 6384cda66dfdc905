//! The spawn state machine and the process handle.

use vstd::prelude::*;
use crate::codec;
use crate::control::{ControlCode, ctrl_byte_of_char, ctrl_form_of_str};
use vstd::string::StringSliceAdditionalSpecFns;
use crate::error::Error;
use crate::master::Master;
use crate::status::WaitStatus;
use crate::status;
use crate::stream::{Stream, line_bytes};
use crate::sys;
use crate::term;

verus! {

/// Default terminal width, set on the pty at spawn time.
pub const DEFAULT_TERM_COLS: u16 = 80;

/// Default terminal height, set on the pty at spawn time.
pub const DEFAULT_TERM_ROWS: u16 = 24;

/// Default delay between termination attempts, in milliseconds.
pub const DEFAULT_TERMINATE_DELAY_MS: u64 = 100;

/// The hangup signal number.
pub const SIGHUP: i32 = 1;

/// The interrupt signal number.
pub const SIGINT: i32 = 2;

/// The kill signal number.
pub const SIGKILL: i32 = 9;

/// The termination signal number.
pub const SIGTERM: i32 = 15;

/// The continue signal number.
pub const SIGCONT: i32 = 18;

/// errno for "no such device or address", returned by opening
/// `/dev/tty` in a session without a controlling terminal.
pub const ENXIO: i32 = 6;

/// A description of the command the child will execute: the program
/// name, looked up on the search path, and its arguments.
pub struct Command {
    program: String,
    args: Vec<String>,
}

impl Command {
    /// The program name.
    pub closed spec fn program_spec(&self) -> Seq<char> {
        self.program@
    }

    /// The arguments, not counting the program name itself.
    pub closed spec fn args_spec(&self) -> Seq<String> {
        self.args@
    }

    /// Describes a command with no arguments yet.
    pub fn new(program: &str) -> (r: Command)
        ensures
            r.program_spec() == program@,
            r.args_spec() == Seq::<String>::empty(),
    {
        Command { program: program.to_owned(), args: Vec::new() }
    }

    /// Appends one argument.
    pub fn arg(&mut self, a: &str)
        ensures
            final(self).program_spec() == old(self).program_spec(),
            final(self).args_spec().len() == old(self).args_spec().len() + 1,
            final(self).args_spec() == old(self).args_spec().push(
                final(self).args_spec().last(),
            ),
            final(self).args_spec().last()@ == a@,
    {
        self.args.push(a.to_owned());
        proof {
            assert(self.args@ =~= old(self).args@.push(self.args@.last()));
        }
    }

    /// The argument vector handed to exec: the program name first, then
    /// the arguments in order.
    fn argv(&self) -> (r: Vec<String>)
        ensures
            r@.len() == self.args_spec().len() + 1,
            r@[0]@ == self.program_spec(),
            forall|i: int| 0 <= i < self.args_spec().len() ==> r@[i + 1] == self.args_spec()[i],
    {
        let mut r: Vec<String> = Vec::new();
        r.push(self.program.as_str().to_owned());
        let mut i: usize = 0;
        while i < self.args.len()
            invariant
                i <= self.args@.len(),
                r@.len() == i + 1,
                r@[0]@ == self.program@,
                forall|j: int| 0 <= j < i ==> r@[j + 1] == self.args@[j],
            decreases self.args@.len() - i,
        {
            r.push(self.args[i].clone());
            i = i + 1;
        }
        r
    }
}

/// Performs the controlling-terminal handshake in the child, in the
/// required order: check-then-act disconnection from any current
/// controlling terminal (tolerating ENXIO as "already disconnected"),
/// a new session, a check that no controlling terminal remains, the
/// first open of the slave (which makes it the controlling terminal),
/// and a final check that one now exists. Any deviation is reported as
/// an unsupported operation.
fn make_controlling_tty(slave_name: &str) -> (r: Result<(), Error>)
    ensures
        r is Err ==> r->Err_0 is Os || r->Err_0 is Unsupported,
{
    // Disconnect from the current controlling tty, if any.
    match sys::sys_open("/dev/tty", sys::OpenMode::ReadWriteNoCtty) {
        Ok(fd) => {
            if let Err(e) = sys::sys_close(fd) {
                return Err(Error::Os(e));
            }
        },
        Err(e) => {
            if e != ENXIO {
                return Err(Error::Os(e));
            }
            // ENXIO here means the process was already disconnected.
        },
    }
    if let Err(e) = sys::sys_setsid() {
        return Err(Error::Os(e));
    }
    // Verify the disconnect: opening /dev/tty must now fail with ENXIO.
    match sys::sys_open("/dev/tty", sys::OpenMode::ReadWriteNoCtty) {
        Err(e) => {
            if e != ENXIO {
                return Err(Error::Unsupported);
            }
        },
        Ok(fd) => {
            let _ = sys::sys_close(fd);
            return Err(Error::Unsupported);
        },
    }
    // The first tty opened after setsid becomes the controlling one.
    match sys::sys_open(slave_name, sys::OpenMode::ReadWrite) {
        Ok(fd) => {
            if let Err(e) = sys::sys_close(fd) {
                return Err(Error::Os(e));
            }
        },
        Err(e) => {
            return Err(Error::Os(e));
        },
    }
    // Verify a controlling tty now exists.
    match sys::sys_open("/dev/tty", sys::OpenMode::WriteOnly) {
        Ok(fd) => {
            if let Err(e) = sys::sys_close(fd) {
                return Err(Error::Os(e));
            }
        },
        Err(e) => {
            return Err(Error::Os(e));
        },
    }
    Ok(())
}

/// Redirects the standard streams onto the slave descriptor: closes
/// descriptors 0, 1 and 2, then duplicates the slave onto each.
fn redirect_std_streams(slave_fd: i32) -> (r: Result<(), Error>)
    ensures
        r is Err ==> r->Err_0 is Os,
{
    let mut fd: i32 = 0;
    while fd < 3
        invariant
            0 <= fd <= 3,
        decreases 3 - fd,
    {
        if let Err(e) = sys::sys_close(fd) {
            return Err(Error::Os(e));
        }
        if let Err(e) = sys::sys_dup2(slave_fd, fd) {
            return Err(Error::Os(e));
        }
        fd = fd + 1;
    }
    Ok(())
}

/// Takes ownership of the master in the child so that its descriptor
/// is closed before the exec.
fn close_master(_master: Master) {
}

/// The child-side setup sequence, run between fork and exec. It either
/// execs (and never returns) or fails; it never returns success.
fn child_setup(command: &Command, master: Master, pipe_read: i32, pipe_write: i32) -> (r: Result<
    (),
    Error,
>)
    ensures
        r is Err,
{
    let slave_name = match master.get_slave_name() {
        Ok(name) => name,
        Err(e) => return Err(e),
    };
    let slave_fd = match master.get_slave_fd() {
        Ok(fd) => fd,
        Err(e) => return Err(e),
    };
    // Release the child-side reference to the master before the exec.
    close_master(master);

    if let Err(e) = make_controlling_tty(slave_name.as_str()) {
        return Err(e);
    }
    if let Err(e) = redirect_std_streams(slave_fd) {
        return Err(e);
    }
    if let Err(e) = term::set_echo(0, false) {
        return Err(e);
    }
    if let Err(e) = sys::winsize_set_stdin(DEFAULT_TERM_COLS, DEFAULT_TERM_ROWS) {
        return Err(Error::Os(e));
    }
    if let Err(e) = sys::sys_close(pipe_read) {
        return Err(Error::Os(e));
    }
    // A successful exec closes the write end, which the parent sees as
    // end of file.
    if let Err(e) = sys::sys_set_cloexec(pipe_write) {
        return Err(Error::Os(e));
    }
    // Do not let the child inherit open descriptors beyond the standard
    // ones, the slave and the error-pipe write end.
    let open_max = match sys::sys_open_max() {
        Ok(Some(m)) => m,
        Ok(None) => return Err(Error::Os(22)),
        Err(e) => return Err(Error::Os(e)),
    };
    let limit: i32 = if open_max > 0x7fffffffi64 {
        0x7fffffffi32
    } else if open_max < 3 {
        3
    } else {
        open_max as i32
    };
    let mut fd: i32 = 3;
    while fd < limit
        invariant
            3 <= fd <= limit,
        decreases limit - fd,
    {
        if fd != slave_fd && fd != pipe_write {
            let _ = sys::sys_close(fd);
        }
        fd = fd + 1;
    }

    let argv = command.argv();
    let code = sys::sys_exec(&command.program, &argv);
    Err(Error::Os(code))
}

/// The exit code the child reports when its setup fails: the errno
/// where one is known, `-1` for a protocol deviation.
fn child_exit_code(e: &Error) -> (r: i32)
    ensures
        r == match *e {
            Error::Os(code) => code,
            Error::Spawn(code) => code,
            Error::Unsupported => -1i32,
            Error::BadControl => -1i32,
        },
{
    match *e {
        Error::Os(code) => code,
        Error::Spawn(code) => code,
        Error::Unsupported => -1,
        Error::BadControl => -1,
    }
}

/// Reads the child's verdict from the exec-error pipe: nothing (end of
/// file) means the exec succeeded; four bytes carry the errno of a
/// failed exec, big-endian. A short read is padded with zeros, as if
/// read into a zeroed four-byte buffer.
fn decode_exec_verdict(buf: &Vec<u8>) -> (r: i32)
    requires
        buf@.len() <= 4,
    ensures
        buf@.len() == 0 ==> r == 0,
        buf@.len() == 4 ==> r == codec::be_value_of(buf@) as i32,
{
    let mut padded: Vec<u8> = Vec::new();
    let mut i: usize = 0;
    while i < buf.len()
        invariant
            i <= buf@.len() <= 4,
            padded@ == buf@.subrange(0, i as int),
        decreases buf@.len() - i,
    {
        padded.push(buf[i]);
        proof {
            assert(padded@ =~= buf@.subrange(0, i + 1 as int));
        }
        i = i + 1;
    }
    proof {
        assert(padded@ =~= buf@);
    }
    while padded.len() < 4
        invariant
            padded@.len() <= 4,
            buf@.len() == 4 ==> padded@ == buf@,
            buf@.len() == 0 ==> forall|j: int| 0 <= j < padded@.len() ==> padded@[j] == 0u8,
        decreases 4 - padded@.len(),
    {
        padded.push(0u8);
    }
    let r = codec::errno_from_be_bytes(&padded);
    proof {
        if buf@.len() == 0 {
            assert(padded@[0] == 0u8 && padded@[1] == 0u8 && padded@[2] == 0u8 && padded@[3]
                == 0u8);
            assert((((0u8 as u32) << 24) | ((0u8 as u32) << 16) | ((0u8 as u32) << 8) | (0u8
                as u32)) as i32 == 0) by (bit_vector);
        }
    }
    r
}

/// Controls a child process running behind a pseudo-terminal: owns the
/// master device, a byte stream over a duplicate of it, the child's
/// pid, the end-of-file and interrupt bytes captured from the parent's
/// terminal at spawn time, and the delay between termination attempts.
pub struct PtyProcess {
    pub(crate) master: Master,
    pub(crate) stream: Stream,
    pub(crate) child_pid: i32,
    pub(crate) eof_char: u8,
    pub(crate) intr_char: u8,
    pub(crate) terminate_delay_ms: u64,
}

impl PtyProcess {
    /// The child's process id.
    pub closed spec fn pid_spec(&self) -> i32 {
        self.child_pid
    }

    /// The end-of-file byte sent by `send_eof`.
    pub closed spec fn eof_char_spec(&self) -> u8 {
        self.eof_char
    }

    /// The interrupt byte sent by `send_intr`.
    pub closed spec fn intr_char_spec(&self) -> u8 {
        self.intr_char
    }

    /// The delay between termination attempts, in milliseconds.
    pub closed spec fn terminate_delay_spec(&self) -> u64 {
        self.terminate_delay_ms
    }

    /// The bytes read from the child but not yet handed out.
    pub closed spec fn buffered(&self) -> Seq<u8> {
        self.stream.buffered()
    }

    /// Everything of the handle but the stream's buffer.
    pub open spec fn same_handle(&self, other: &Self) -> bool {
        self.pid_spec() == other.pid_spec() && self.eof_char_spec() == other.eof_char_spec()
            && self.intr_char_spec() == other.intr_char_spec() && self.terminate_delay_spec()
            == other.terminate_delay_spec()
    }

    /// Spawns `command` behind a new pseudo-terminal.
    ///
    /// Pre-fork, the parent captures the end-of-file and interrupt
    /// bytes from its own terminal, opens the master and grants and
    /// unlocks the slave, and creates the exec-error pipe. The child
    /// performs the setup sequence and execs, reporting an exec failure
    /// as four big-endian errno bytes on the pipe; the parent reads the
    /// pipe and either surfaces that errno as [`Error::Spawn`] or
    /// finishes the handle.
    pub fn spawn(command: Command) -> (r: Result<PtyProcess, Error>)
        ensures
            r is Ok ==> r->Ok_0.pid_spec() > 0,
            r is Ok ==> r->Ok_0.terminate_delay_spec() == DEFAULT_TERMINATE_DELAY_MS,
            r is Ok ==> r->Ok_0.buffered() == Seq::<u8>::empty(),
            r is Err ==> r->Err_0 is Os || r->Err_0 is Spawn,
            r is Err && r->Err_0 is Spawn ==> r->Err_0->Spawn_0 != 0,
    {
        let eof_char = term::get_eof_char();
        let intr_char = term::get_intr_char();

        let master = match Master::open() {
            Ok(m) => m,
            Err(e) => return Err(e),
        };
        if let Err(e) = master.grant_slave_access() {
            return Err(e);
        }
        if let Err(e) = master.unlock_slave() {
            return Err(e);
        }
        // The child reports an exec failure over this pipe.
        let (pipe_read, pipe_write) = match sys::sys_pipe() {
            Ok(fds) => fds,
            Err(e) => return Err(Error::Os(e)),
        };

        match sys::sys_fork() {
            Err(e) => Err(Error::Os(e)),
            Ok(sys::ForkOutcome::Child) => {
                let failure = child_setup(&command, master, pipe_read, pipe_write);
                let code = match failure {
                    Err(e) => child_exit_code(&e),
                    Ok(()) => -1,
                };
                let bytes = codec::errno_to_be_bytes(code);
                let _ = sys::sys_write(pipe_write, bytes.as_slice());
                sys::sys_exit(code);
                // Unreachable: the process has exited.
                Err(Error::Os(code))
            },
            Ok(sys::ForkOutcome::Parent(child_pid)) => {
                Self::finish_parent(master, pipe_read, pipe_write, child_pid, eof_char, intr_char)
            },
        }
    }

    /// The parent-side rendezvous after the fork: close the write end,
    /// read the child's verdict, set the default window size, and build
    /// the handle over a duplicated master descriptor.
    fn finish_parent(
        master: Master,
        pipe_read: i32,
        pipe_write: i32,
        child_pid: i32,
        eof_char: u8,
        intr_char: u8,
    ) -> (r: Result<PtyProcess, Error>)
        requires
            child_pid > 0,
        ensures
            r is Ok ==> r->Ok_0.pid_spec() == child_pid,
            r is Ok ==> r->Ok_0.terminate_delay_spec() == DEFAULT_TERMINATE_DELAY_MS,
            r is Ok ==> r->Ok_0.eof_char_spec() == eof_char && r->Ok_0.intr_char_spec()
                == intr_char,
            r is Ok ==> r->Ok_0.buffered() == Seq::<u8>::empty(),
            r is Err ==> r->Err_0 is Os || r->Err_0 is Spawn,
            r is Err && r->Err_0 is Spawn ==> r->Err_0->Spawn_0 != 0,
    {
        if let Err(e) = sys::sys_close(pipe_write) {
            return Err(Error::Os(e));
        }
        let verdict = match sys::sys_read(pipe_read, 4) {
            Ok(buf) => buf,
            Err(e) => return Err(Error::Os(e)),
        };
        let code = decode_exec_verdict(&verdict);
        let _ = sys::sys_close(pipe_read);
        if code != 0 {
            return Err(Error::Spawn(code));
        }
        // Some systems need the parent-side set as well.
        if let Err(e) = sys::winsize_set(&master.fd, DEFAULT_TERM_COLS, DEFAULT_TERM_ROWS) {
            return Err(Error::Os(e));
        }
        let stream_fd = match master.get_file_handle() {
            Ok(fd) => fd,
            Err(e) => return Err(e),
        };
        let stream = Stream::new(stream_fd);
        Ok(
            PtyProcess {
                master,
                stream,
                child_pid,
                eof_char,
                intr_char,
                terminate_delay_ms: DEFAULT_TERMINATE_DELAY_MS,
            },
        )
    }

    /// The pid of the child process: positive and stable for the
    /// handle's lifetime.
    pub fn pid(&self) -> (r: i32)
        ensures
            r == self.pid_spec(),
    {
        self.child_pid
    }

    /// An independently owned duplicate of the master descriptor; the
    /// caller is responsible for closing it.
    pub fn get_pty_handle(&self) -> (r: Result<rustix::fd::OwnedFd, Error>)
        ensures
            r is Err ==> r->Err_0 is Os,
    {
        self.master.get_file_handle()
    }

    /// The terminal's window size as a (columns, rows) pair.
    pub fn get_window_size(&self) -> (r: Result<(u16, u16), Error>)
        ensures
            r is Err ==> r->Err_0 is Os,
    {
        match sys::winsize_get(&self.master.fd) {
            Ok(size) => Ok(size),
            Err(e) => Err(Error::Os(e)),
        }
    }

    /// Sets the terminal's window size.
    pub fn set_window_size(&mut self, cols: u16, rows: u16) -> (r: Result<(), Error>)
        ensures
            *final(self) == *old(self),
            r is Err ==> r->Err_0 is Os,
    {
        match sys::winsize_set(&self.master.fd, cols, rows) {
            Ok(()) => Ok(()),
            Err(e) => Err(Error::Os(e)),
        }
    }

    /// Whether the pty's ECHO flag is set.
    pub fn get_echo(&self) -> (r: Result<bool, Error>)
        ensures
            r is Err ==> r->Err_0 is Os,
    {
        term::get_echo(self.master.raw_fd())
    }

    /// Sets or clears the pty's ECHO flag.
    pub fn set_echo(&mut self, on: bool) -> (r: Result<(), Error>)
        ensures
            *final(self) == *old(self),
            r is Err ==> r->Err_0 is Os,
    {
        term::set_echo(self.master.raw_fd(), on)
    }

    /// Polls the pty's echo setting every 100 milliseconds until it
    /// matches `on` or the timeout elapses; reports whether it matched.
    /// Without a timeout the poll is all but unbounded: it gives up,
    /// reporting no match, only after more polls than a machine can
    /// perform (the termination bound of the loop).
    pub fn wait_echo(&self, on: bool, timeout_ms: Option<u64>) -> (r: Result<bool, Error>)
        ensures
            r is Err ==> r->Err_0 is Os,
    {
        let mut elapsed: u64 = 0;
        let mut fuel: usize = usize::MAX;
        loop
            decreases fuel,
        {
            if let Some(t) = timeout_ms {
                if elapsed >= t {
                    return Ok(false);
                }
            }
            match self.get_echo() {
                Ok(echo) => {
                    if echo == on {
                        return Ok(true);
                    }
                },
                Err(e) => return Err(e),
            }
            if let Some(t) = timeout_ms {
                elapsed = if t - elapsed < 100 {
                    t
                } else {
                    elapsed + 100
                };
            }
            if fuel == 0 {
                return Ok(false);
            }
            fuel = fuel - 1;
            sys::sys_sleep_ms(100);
        }
    }

    /// Whether the master descriptor refers to a terminal.
    pub fn isatty(&self) -> (r: Result<bool, Error>)
        ensures
            r is Err ==> r->Err_0 is Os,
    {
        match sys::sys_isatty(self.master.raw_fd()) {
            Ok(b) => Ok(b),
            Err(e) => Err(Error::Os(e)),
        }
    }

    /// Sets the delay between termination attempts.
    pub fn set_terminate_approach_delay(&mut self, delay_ms: u64)
        ensures
            final(self).terminate_delay_spec() == delay_ms,
            final(self).pid_spec() == old(self).pid_spec(),
            final(self).eof_char_spec() == old(self).eof_char_spec(),
            final(self).intr_char_spec() == old(self).intr_char_spec(),
            final(self).buffered() == old(self).buffered(),
    {
        self.terminate_delay_ms = delay_ms;
    }

    /// The child's status from a non-blocking wait: `StillAlive` when
    /// nothing changed, else the reported state change, which carries
    /// the child's pid.
    pub fn status(&self) -> (r: Result<WaitStatus, Error>)
        ensures
            r is Ok && r->Ok_0 is Exited ==> r->Ok_0->Exited_0 == self.pid_spec(),
            r is Ok && r->Ok_0 is Signaled ==> r->Ok_0->Signaled_0 == self.pid_spec(),
            r is Err ==> r->Err_0 is Os,
        opens_invariants none
        no_unwind
    {
        // A handle built by spawn always holds a positive pid; the
        // guard keeps the wait from straying to a process group.
        if self.child_pid <= 0 {
            return Err(Error::Os(status::ESRCH));
        }
        match sys::sys_waitpid(self.child_pid, true) {
            Ok(st) => Ok(st),
            Err(e) => Err(Error::Os(e)),
        }
    }

    /// Sends a signal to the child. Non-blocking.
    pub fn kill(&mut self, signal: i32) -> (r: Result<(), Error>)
        ensures
            *final(self) == *old(self),
            r is Err ==> r->Err_0 is Os,
        opens_invariants none
        no_unwind
    {
        // A handle built by spawn always holds a positive pid; the
        // guard keeps the signal from straying to a process group.
        if self.child_pid <= 0 {
            return Err(Error::Os(status::ESRCH));
        }
        match sys::sys_kill(self.child_pid, signal) {
            Ok(()) => Ok(()),
            Err(e) => Err(Error::Os(e)),
        }
    }

    /// An alias of [`PtyProcess::kill`].
    pub fn signal(&mut self, signal: i32) -> (r: Result<(), Error>)
        ensures
            *final(self) == *old(self),
            r is Err ==> r->Err_0 is Os,
    {
        self.kill(signal)
    }

    /// Blocks until the child exits and returns the reported state
    /// change, which is never `StillAlive` and carries the child's pid.
    /// Fails when the child is gone or was already reaped.
    pub fn wait(&self) -> (r: Result<WaitStatus, Error>)
        ensures
            r is Ok ==> !(r->Ok_0 is StillAlive),
            r is Ok && r->Ok_0 is Exited ==> r->Ok_0->Exited_0 == self.pid_spec(),
            r is Ok && r->Ok_0 is Signaled ==> r->Ok_0->Signaled_0 == self.pid_spec(),
            r is Err ==> r->Err_0 is Os,
    {
        if self.child_pid <= 0 {
            return Err(Error::Os(status::ESRCH));
        }
        match sys::sys_waitpid(self.child_pid, false) {
            Ok(st) => Ok(st),
            Err(e) => Err(Error::Os(e)),
        }
    }

    /// Whether the child still exists: a non-blocking status query
    /// mapped through [`crate::status::alive_decision`]. A reaped or
    /// vanished child is not alive; other errors propagate. Over the
    /// query histories `waitpid` produces for a single child, this
    /// answer moves from true to false at most once and never back;
    /// [`crate::status::lemma_alive_monotonic`] proves that of the
    /// decision.
    pub fn is_alive(&self) -> (r: Result<bool, Error>)
        ensures
            r is Err ==> r->Err_0 is Os,
        opens_invariants none
        no_unwind
    {
        let st = self.status();
        let r = status::alive_from_status(&st);
        proof {
            if r is Err {
                assert(r->Err_0 == st->Err_0);
            }
        }
        r
    }

    /// One termination attempt: sends `signal`, sleeps for the
    /// configured delay, and reports whether the child is gone.
    fn try_to_terminate(&mut self, signal: i32) -> (r: Result<bool, Error>)
        ensures
            *final(self) == *old(self),
            r is Err ==> r->Err_0 is Os,
        opens_invariants none
        no_unwind
    {
        if let Err(e) = self.kill(signal) {
            return Err(e);
        }
        let delay = self.terminate_delay_ms;
        let ms: i32 = if delay > 0x7fffffffu64 {
            0x7fffffffi32
        } else {
            delay as i32
        };
        sys::sys_sleep_ms(ms);
        match self.is_alive() {
            Ok(alive) => Ok(!alive),
            Err(e) => Err(e),
        }
    }

    /// Tries to terminate the child, escalating through SIGHUP,
    /// SIGCONT, SIGINT and SIGTERM with the configured delay after
    /// each; reports true as soon as the child is gone. When the child
    /// survives all four, reports false unless `force` is set, in which
    /// case SIGKILL is sent and the outcome of that final attempt is
    /// reported.
    pub fn exit(&mut self, force: bool) -> (r: Result<bool, Error>)
        ensures
            *final(self) == *old(self),
            r is Err ==> r->Err_0 is Os,
        opens_invariants none
        no_unwind
    {
        match self.is_alive() {
            Ok(true) => {},
            Ok(false) => return Ok(true),
            Err(e) => return Err(e),
        }
        match self.try_to_terminate(SIGHUP) {
            Ok(true) => return Ok(true),
            Ok(false) => {},
            Err(e) => return Err(e),
        }
        match self.try_to_terminate(SIGCONT) {
            Ok(true) => return Ok(true),
            Ok(false) => {},
            Err(e) => return Err(e),
        }
        match self.try_to_terminate(SIGINT) {
            Ok(true) => return Ok(true),
            Ok(false) => {},
            Err(e) => return Err(e),
        }
        match self.try_to_terminate(SIGTERM) {
            Ok(true) => return Ok(true),
            Ok(false) => {},
            Err(e) => return Err(e),
        }
        if !force {
            return Ok(false);
        }
        self.try_to_terminate(SIGKILL)
    }

    /// Sends text to the child's standard input.
    pub fn send(&mut self, s: &str) -> (r: Result<(), Error>)
        ensures
            *final(self) == *old(self),
            r is Err ==> r->Err_0 is Os,
    {
        self.stream.write_all(s.as_bytes())
    }

    /// Sends text to the child's standard input, followed by a line
    /// feed.
    pub fn send_line(&mut self, s: &str) -> (r: Result<(), Error>)
        ensures
            *final(self) == *old(self),
            r is Err ==> r->Err_0 is Os,
    {
        let line = line_bytes(s);
        self.stream.write_all(line.as_slice())
    }

    /// Sends raw bytes to the child's standard input.
    pub fn send_bytes(&mut self, bytes: &[u8]) -> (r: Result<(), Error>)
        ensures
            *final(self) == *old(self),
            r is Err ==> r->Err_0 is Os,
    {
        self.stream.write_all(bytes)
    }

    /// Sends the single byte a control mnemonic encodes to.
    pub fn send_control(&mut self, code: ControlCode) -> (r: Result<(), Error>)
        ensures
            *final(self) == *old(self),
            r is Err ==> r->Err_0 is Os,
    {
        let mut buf: Vec<u8> = Vec::new();
        buf.push(code.byte());
        self.stream.write_all(buf.as_slice())
    }

    /// Sends the control character a single key stands for. Exactly
    /// the keys with no control mapping fail with
    /// [`Error::BadControl`], before anything is written.
    pub fn send_control_char(&mut self, c: char) -> (r: Result<(), Error>)
        ensures
            *final(self) == *old(self),
            r is Err ==> r->Err_0 is Os || r->Err_0 is BadControl,
            (r is Err && r->Err_0 is BadControl) <==> ctrl_byte_of_char(c as u32) is None,
    {
        match ControlCode::from_char(c) {
            Some(code) => self.send_control(code),
            None => Err(Error::BadControl),
        }
    }

    /// Sends the control character a short string stands for (a single
    /// key or a caret form such as `"^C"`). Exactly the strings of
    /// neither form fail with [`Error::BadControl`], before anything
    /// is written.
    pub fn send_control_str(&mut self, s: &str) -> (r: Result<(), Error>)
        ensures
            *final(self) == *old(self),
            r is Err ==> r->Err_0 is Os || r->Err_0 is BadControl,
            (r is Err && r->Err_0 is BadControl) <==> !ctrl_form_of_str(s.spec_bytes()),
    {
        match ControlCode::from_str(s) {
            Some(code) => self.send_control(code),
            None => Err(Error::BadControl),
        }
    }

    /// Sends the end-of-file byte captured from the parent's terminal
    /// at spawn time.
    pub fn send_eof(&mut self) -> (r: Result<(), Error>)
        ensures
            *final(self) == *old(self),
            r is Err ==> r->Err_0 is Os,
    {
        let mut buf: Vec<u8> = Vec::new();
        buf.push(self.eof_char);
        self.stream.write_all(buf.as_slice())
    }

    /// Sends the interrupt byte captured from the parent's terminal at
    /// spawn time.
    pub fn send_intr(&mut self) -> (r: Result<(), Error>)
        ensures
            *final(self) == *old(self),
            r is Err ==> r->Err_0 is Os,
    {
        let mut buf: Vec<u8> = Vec::new();
        buf.push(self.intr_char);
        self.stream.write_all(buf.as_slice())
    }

    /// Reads one line from the child, up to and including the first
    /// line feed; at end of file the remaining bytes are returned as
    /// they are.
    pub fn read_line(&mut self) -> (r: Result<Vec<u8>, Error>)
        ensures
            final(self).same_handle(old(self)),
            r is Ok ==> forall|j: int|
                0 <= j < r->Ok_0@.len() - 1 ==> r->Ok_0@[j] != crate::stream::NEWLINE,
            r is Ok ==> old(self).buffered().is_prefix_of(
                r->Ok_0@ + final(self).buffered(),
            ),
            r is Err ==> r->Err_0 is Os && r->Err_0 != Error::Os(crate::stream::EIO),
    {
        self.stream.read_line()
    }

    /// Reads from the child until end of file.
    pub fn read_to_end(&mut self) -> (r: Result<Vec<u8>, Error>)
        ensures
            final(self).same_handle(old(self)),
            r is Ok ==> final(self).buffered() == Seq::<u8>::empty(),
            r is Ok ==> old(self).buffered().is_prefix_of(r->Ok_0@),
            r is Err ==> r->Err_0 is Os && r->Err_0 != Error::Os(crate::stream::EIO),
    {
        self.stream.read_to_end()
    }

    /// Reads at most `max` bytes from the child; an empty result means
    /// end of file.
    pub fn read_some(&mut self, max: usize) -> (r: Result<Vec<u8>, Error>)
        requires
            max >= 1,
        ensures
            final(self).same_handle(old(self)),
            r is Ok ==> r->Ok_0@.len() <= max,
            r is Ok && old(self).buffered().len() > 0 ==> r->Ok_0@ + final(self).buffered()
                == old(self).buffered(),
            r is Err ==> r->Err_0 is Os && r->Err_0 != Error::Os(crate::stream::EIO),
    {
        self.stream.read_some(max)
    }

    /// Reads at most `max` bytes from the child without blocking:
    /// `None` means no data yet, an empty `Some` means end of file.
    pub fn try_read(&mut self, max: usize) -> (r: Result<Option<Vec<u8>>, Error>)
        requires
            max >= 1,
        ensures
            final(self).same_handle(old(self)),
            r is Ok && r->Ok_0 is Some ==> r->Ok_0->0@.len() <= max,
            r is Err ==> r->Err_0 is Os,
    {
        self.stream.try_read(max)
    }
}

impl Drop for PtyProcess {
    /// Termination on teardown: a handle dropped while its child is
    /// alive forces the child to terminate, escalating up to SIGKILL.
    /// A failure here is ignored; the destructor has no other recourse.
    fn drop(&mut self)
        opens_invariants none
        no_unwind
    {
        let alive = match self.status() {
            Ok(WaitStatus::StillAlive) => true,
            _ => false,
        };
        if alive {
            let _ = self.exit(true);
        }
    }
}

} // verus!
