//! The trusted edge: declarations and thin wrappers over the OS calls
//! the library relies on. Verus believes the contracts stated here; each
//! doc comment names the outside function relied on.

use vstd::prelude::*;
use crate::status::WaitStatus;
use rustix::fd::AsRawFd;
use nix::sys::wait::{waitpid, WaitPidFlag, WaitStatus as NixWaitStatus};
use nix::unistd::Pid;
use nix::sys::termios::{tcgetattr, tcsetattr, cfmakeraw, LocalFlags, SetArg, Termios,
    SpecialCharacterIndices};

verus! {

#[verifier::external_type_specification]
#[verifier::external_body]
pub struct ExOwnedFd(rustix::fd::OwnedFd);

#[verifier::external_type_specification]
#[verifier::external_body]
pub struct ExTermios(Termios);

/// What `sys_fork` reports: which side of the fork this process is on.
pub(crate) enum ForkOutcome {
    /// This process is the new child.
    Child,
    /// This process is the parent; the field is the child's pid.
    Parent(i32),
}

/// How a path is opened by `sys_open`.
pub(crate) enum OpenMode {
    /// Read/write access.
    ReadWrite,
    /// Read/write access without becoming the controlling terminal.
    ReadWriteNoCtty,
    /// Write-only access.
    WriteOnly,
}

/// Relies on rustix::pty::openpt: opens a pseudo-terminal master for
/// reading and writing, as posix_openpt(O_RDWR) does.
#[verifier::external_body]
pub(crate) fn pty_openpt() -> (r: Result<rustix::fd::OwnedFd, i32>) {
    match rustix::pty::openpt(rustix::pty::OpenptFlags::RDWR) {
        Ok(fd) => Ok(fd),
        Err(e) => Err(e.raw_os_error()),
    }
}

/// Relies on rustix::pty::grantpt: grants access to the slave device of
/// the given master.
#[verifier::external_body]
pub(crate) fn pty_grant(fd: &rustix::fd::OwnedFd) -> (r: Result<(), i32>) {
    match rustix::pty::grantpt(fd) {
        Ok(()) => Ok(()),
        Err(e) => Err(e.raw_os_error()),
    }
}

/// Relies on rustix::pty::unlockpt: unlocks the slave device of the
/// given master.
#[verifier::external_body]
pub(crate) fn pty_unlock(fd: &rustix::fd::OwnedFd) -> (r: Result<(), i32>) {
    match rustix::pty::unlockpt(fd) {
        Ok(()) => Ok(()),
        Err(e) => Err(e.raw_os_error()),
    }
}

/// Relies on rustix::pty::ptsname: resolves the filesystem path of the
/// slave device belonging to the given master.
#[verifier::external_body]
pub(crate) fn pty_slave_name(fd: &rustix::fd::OwnedFd) -> (r: Result<String, i32>) {
    match rustix::pty::ptsname(fd, Vec::new()) {
        Ok(name) => match name.into_string() {
            Ok(s) => Ok(s),
            Err(_) => Err(22),
        },
        Err(e) => Err(e.raw_os_error()),
    }
}

/// Relies on rustix::io::dup: duplicates a descriptor; the duplicate has
/// an independent lifetime.
#[verifier::external_body]
pub(crate) fn fd_dup_owned(fd: &rustix::fd::OwnedFd) -> (r: Result<rustix::fd::OwnedFd, i32>) {
    match rustix::io::dup(fd) {
        Ok(d) => Ok(d),
        Err(e) => Err(e.raw_os_error()),
    }
}

/// Relies on AsRawFd::as_raw_fd: the raw descriptor number owned by this
/// handle. Open descriptors are non-negative.
#[verifier::external_body]
pub(crate) fn fd_raw(fd: &rustix::fd::OwnedFd) -> (r: i32)
    ensures
        r >= 0,
{
    fd.as_raw_fd()
}

/// Relies on rustix::termios::tcgetwinsize: reads the terminal window
/// size as a (columns, rows) pair.
#[verifier::external_body]
pub(crate) fn winsize_get(fd: &rustix::fd::OwnedFd) -> (r: Result<(u16, u16), i32>) {
    match rustix::termios::tcgetwinsize(fd) {
        Ok(ws) => Ok((ws.ws_col, ws.ws_row)),
        Err(e) => Err(e.raw_os_error()),
    }
}

/// Relies on rustix::termios::tcsetwinsize: sets the terminal window
/// size; the pixel fields are zero.
#[verifier::external_body]
pub(crate) fn winsize_set(fd: &rustix::fd::OwnedFd, cols: u16, rows: u16) -> (r: Result<
    (),
    i32,
>) {
    let ws = rustix::termios::Winsize { ws_row: rows, ws_col: cols, ws_xpixel: 0, ws_ypixel: 0 };
    match rustix::termios::tcsetwinsize(fd, ws) {
        Ok(()) => Ok(()),
        Err(e) => Err(e.raw_os_error()),
    }
}

/// Relies on rustix::termios::tcsetwinsize on standard input, which the
/// child has redirected to its pty slave.
#[verifier::external_body]
pub(crate) fn winsize_set_stdin(cols: u16, rows: u16) -> (r: Result<(), i32>) {
    let ws = rustix::termios::Winsize { ws_row: rows, ws_col: cols, ws_xpixel: 0, ws_ypixel: 0 };
    match rustix::termios::tcsetwinsize(rustix::stdio::stdin(), ws) {
        Ok(()) => Ok(()),
        Err(e) => Err(e.raw_os_error()),
    }
}

/// Relies on nix::fcntl::open: opens a path and returns a non-negative
/// raw descriptor.
#[verifier::external_body]
pub(crate) fn sys_open(path: &str, mode: OpenMode) -> (r: Result<i32, i32>)
    ensures
        r is Ok ==> r->Ok_0 >= 0,
{
    let flags = match mode {
        OpenMode::ReadWrite => nix::fcntl::OFlag::O_RDWR,
        OpenMode::ReadWriteNoCtty => nix::fcntl::OFlag::O_RDWR | nix::fcntl::OFlag::O_NOCTTY,
        OpenMode::WriteOnly => nix::fcntl::OFlag::O_WRONLY,
    };
    match nix::fcntl::open(path, flags, nix::sys::stat::Mode::empty()) {
        Ok(fd) => Ok(fd),
        Err(e) => Err(e as i32),
    }
}

/// Relies on nix::unistd::close: closes a raw descriptor.
#[verifier::external_body]
pub(crate) fn sys_close(fd: i32) -> (r: Result<(), i32>) {
    match nix::unistd::close(fd) {
        Ok(()) => Ok(()),
        Err(e) => Err(e as i32),
    }
}

/// Relies on nix::unistd::dup: duplicates a raw descriptor.
#[verifier::external_body]
pub(crate) fn sys_dup(fd: i32) -> (r: Result<i32, i32>)
    ensures
        r is Ok ==> r->Ok_0 >= 0,
{
    match nix::unistd::dup(fd) {
        Ok(d) => Ok(d),
        Err(e) => Err(e as i32),
    }
}

/// Relies on nix::unistd::dup2: makes `newfd` refer to the same open
/// file as `oldfd`, closing `newfd` first if needed, and returns `newfd`.
#[verifier::external_body]
pub(crate) fn sys_dup2(oldfd: i32, newfd: i32) -> (r: Result<i32, i32>)
    ensures
        r is Ok ==> r->Ok_0 == newfd,
{
    match nix::unistd::dup2(oldfd, newfd) {
        Ok(d) => Ok(d),
        Err(e) => Err(e as i32),
    }
}

/// Relies on nix::unistd::pipe: creates a pipe and returns its
/// non-negative (read, write) descriptors.
#[verifier::external_body]
pub(crate) fn sys_pipe() -> (r: Result<(i32, i32), i32>)
    ensures
        r is Ok ==> r->Ok_0.0 >= 0 && r->Ok_0.1 >= 0,
{
    match nix::unistd::pipe() {
        Ok((rd, wr)) => Ok((rd, wr)),
        Err(e) => Err(e as i32),
    }
}

/// Relies on nix::fcntl::fcntl with F_SETFD(FD_CLOEXEC): marks the
/// descriptor close-on-exec.
#[verifier::external_body]
pub(crate) fn sys_set_cloexec(fd: i32) -> (r: Result<(), i32>) {
    match nix::fcntl::fcntl(fd, nix::fcntl::FcntlArg::F_SETFD(nix::fcntl::FdFlag::FD_CLOEXEC)) {
        Ok(_) => Ok(()),
        Err(e) => Err(e as i32),
    }
}

/// Relies on nix::fcntl::fcntl with F_SETFL: switches the open file
/// between blocking and non-blocking mode. The new status flags are
/// exactly O_NONBLOCK or none, which suits the streams here; any other
/// status flag on the open file is cleared.
#[verifier::external_body]
pub(crate) fn sys_set_nonblocking(fd: i32, on: bool) -> (r: Result<(), i32>) {
    let flags = if on {
        nix::fcntl::OFlag::O_NONBLOCK
    } else {
        nix::fcntl::OFlag::empty()
    };
    match nix::fcntl::fcntl(fd, nix::fcntl::FcntlArg::F_SETFL(flags)) {
        Ok(_) => Ok(()),
        Err(e) => Err(e as i32),
    }
}

/// Relies on nix::unistd::read: reads at most `max` bytes from the
/// descriptor; the result holds exactly the bytes read, in order.
#[verifier::external_body]
pub(crate) fn sys_read(fd: i32, max: usize) -> (r: Result<Vec<u8>, i32>)
    requires
        max >= 1,
    ensures
        r is Ok ==> r->Ok_0@.len() <= max,
{
    let mut buf = vec![0u8; max];
    match nix::unistd::read(fd, &mut buf) {
        Ok(n) => {
            buf.truncate(n);
            Ok(buf)
        },
        Err(e) => Err(e as i32),
    }
}

/// Relies on nix::unistd::write: writes a prefix of `buf` to the
/// descriptor and returns how many bytes were taken.
#[verifier::external_body]
pub(crate) fn sys_write(fd: i32, buf: &[u8]) -> (r: Result<usize, i32>)
    ensures
        r is Ok ==> r->Ok_0 <= buf@.len(),
{
    match nix::unistd::write(fd, buf) {
        Ok(n) => Ok(n),
        Err(e) => Err(e as i32),
    }
}

/// Relies on nix::unistd::setsid: creates a new session and returns its
/// positive session id.
#[verifier::external_body]
pub(crate) fn sys_setsid() -> (r: Result<i32, i32>)
    ensures
        r is Ok ==> r->Ok_0 > 0,
{
    match nix::unistd::setsid() {
        Ok(pid) => Ok(pid.as_raw()),
        Err(e) => Err(e as i32),
    }
}

/// Relies on nix::unistd::sysconf(OPEN_MAX): the highest possible
/// descriptor number plus one, or None when indeterminate.
#[verifier::external_body]
pub(crate) fn sys_open_max() -> (r: Result<Option<i64>, i32>) {
    match nix::unistd::sysconf(nix::unistd::SysconfVar::OPEN_MAX) {
        Ok(v) => Ok(v),
        Err(e) => Err(e as i32),
    }
}

/// Relies on nix::unistd::isatty: whether the descriptor refers to a
/// terminal.
#[verifier::external_body]
pub(crate) fn sys_isatty(fd: i32) -> (r: Result<bool, i32>) {
    match nix::unistd::isatty(fd) {
        Ok(b) => Ok(b),
        Err(e) => Err(e as i32),
    }
}

/// Relies on nix::poll::poll with no descriptors: sleeps for about the
/// given number of milliseconds.
#[verifier::external_body]
pub(crate) fn sys_sleep_ms(ms: i32)
    requires
        ms >= 0,
    opens_invariants none
    no_unwind
{
    let mut fds: [nix::poll::PollFd; 0] = [];
    let _ = nix::poll::poll(&mut fds, ms);
}

/// Relies on fork::fork: splits the process in two; the parent learns
/// the child's positive pid. On failure the errno is read with
/// nix::errno::Errno::last.
#[verifier::external_body]
pub(crate) fn sys_fork() -> (r: Result<ForkOutcome, i32>)
    ensures
        r is Ok && r->Ok_0 is Parent ==> r->Ok_0->0 > 0,
{
    match fork::fork() {
        Ok(fork::Fork::Child) => Ok(ForkOutcome::Child),
        Ok(fork::Fork::Parent(pid)) => Ok(ForkOutcome::Parent(pid)),
        Err(_) => Err(nix::errno::Errno::last() as i32),
    }
}

/// Relies on exec::execvp: replaces this process with `program`, passing
/// `argv` as its argument vector. Returns only when the exec failed,
/// with the errno (or 22 when an argument held an interior NUL).
#[verifier::external_body]
pub(crate) fn sys_exec(program: &String, argv: &Vec<String>) -> (r: i32) {
    match exec::execvp(program, argv) {
        exec::Error::BadArgument(_) => 22,
        exec::Error::Errno(e) => e.0,
    }
}

/// Relies on rustix::runtime::exit_group: terminates this process with
/// the given exit code. Does not return.
#[verifier::external_body]
pub(crate) fn sys_exit(code: i32) {
    rustix::runtime::exit_group(code)
}

/// Relies on nix::sys::wait::waitpid for a single positive pid: without
/// WNOHANG it blocks until a state change and never reports StillAlive;
/// a reported state change carries the queried pid.
#[verifier::external_body]
pub(crate) fn sys_waitpid(pid: i32, nohang: bool) -> (r: Result<WaitStatus, i32>)
    requires
        pid > 0,
    ensures
        !nohang && r is Ok ==> !(r->Ok_0 is StillAlive),
        r is Ok && r->Ok_0 is Exited ==> r->Ok_0->Exited_0 == pid,
        r is Ok && r->Ok_0 is Signaled ==> r->Ok_0->Signaled_0 == pid,
    opens_invariants none
    no_unwind
{
    let flag = if nohang { Some(WaitPidFlag::WNOHANG) } else { None };
    match waitpid(Pid::from_raw(pid), flag) {
        Ok(NixWaitStatus::Exited(p, c)) => Ok(WaitStatus::Exited(p.as_raw(), c)),
        Ok(NixWaitStatus::Signaled(p, s, c)) => Ok(WaitStatus::Signaled(p.as_raw(), s as i32, c)),
        Ok(NixWaitStatus::Stopped(p, s)) => Ok(WaitStatus::Stopped(p.as_raw(), s as i32)),
        Ok(NixWaitStatus::StillAlive) => Ok(WaitStatus::StillAlive),
        Ok(_) => Ok(WaitStatus::Other),
        Err(e) => Err(e as i32),
    }
}

/// Relies on nix::sys::signal::kill: delivers the signal with the given
/// number to the process with the given positive pid. An out-of-range
/// signal number fails with the conversion's errno.
#[verifier::external_body]
pub(crate) fn sys_kill(pid: i32, sig: i32) -> (r: Result<(), i32>)
    requires
        pid > 0,
    opens_invariants none
    no_unwind
{
    let signal = match nix::sys::signal::Signal::try_from(sig) {
        Ok(s) => s,
        Err(e) => return Err(e as i32),
    };
    match nix::sys::signal::kill(Pid::from_raw(pid), signal) {
        Ok(()) => Ok(()),
        Err(e) => Err(e as i32),
    }
}

/// Relies on nix::sys::termios::tcgetattr: whether the terminal's local
/// ECHO flag is set.
#[verifier::external_body]
pub(crate) fn term_get_echo(fd: i32) -> (r: Result<bool, i32>) {
    match tcgetattr(fd) {
        Ok(t) => Ok(t.local_flags.contains(LocalFlags::ECHO)),
        Err(e) => Err(e as i32),
    }
}

/// Relies on nix::sys::termios::tcgetattr and tcsetattr(TCSANOW): sets
/// or clears the terminal's local ECHO flag, leaving the rest unchanged.
#[verifier::external_body]
pub(crate) fn term_set_echo(fd: i32, on: bool) -> (r: Result<(), i32>) {
    let mut t = match tcgetattr(fd) {
        Ok(t) => t,
        Err(e) => return Err(e as i32),
    };
    t.local_flags.set(LocalFlags::ECHO, on);
    match tcsetattr(fd, SetArg::TCSANOW, &t) {
        Ok(()) => Ok(()),
        Err(e) => Err(e as i32),
    }
}

/// Relies on nix::sys::termios::cfmakeraw with tcgetattr and
/// tcsetattr(TCSANOW): applies the standard raw-mode transform.
#[verifier::external_body]
pub(crate) fn term_set_raw(fd: i32) -> (r: Result<(), i32>) {
    let mut t = match tcgetattr(fd) {
        Ok(t) => t,
        Err(e) => return Err(e as i32),
    };
    cfmakeraw(&mut t);
    match tcsetattr(fd, SetArg::TCSANOW, &t) {
        Ok(()) => Ok(()),
        Err(e) => Err(e as i32),
    }
}

/// Relies on nix::sys::termios::tcgetattr: a snapshot of the terminal's
/// attributes, to be restored later.
#[verifier::external_body]
pub(crate) fn term_get_attrs(fd: i32) -> (r: Result<Termios, i32>) {
    match tcgetattr(fd) {
        Ok(t) => Ok(t),
        Err(e) => Err(e as i32),
    }
}

/// Relies on nix::sys::termios::tcsetattr(TCSAFLUSH): restores a saved
/// attribute snapshot, flushing pending input and output.
#[verifier::external_body]
pub(crate) fn term_restore_attrs(fd: i32, attrs: &Termios) -> (r: Result<(), i32>) {
    match tcsetattr(fd, SetArg::TCSAFLUSH, attrs) {
        Ok(()) => Ok(()),
        Err(e) => Err(e as i32),
    }
}

/// Relies on nix::sys::termios::tcgetattr: the terminal's VEOF or VINTR
/// special character.
#[verifier::external_body]
pub(crate) fn term_special_char(fd: i32, veof: bool) -> (r: Result<u8, i32>) {
    let idx = if veof {
        SpecialCharacterIndices::VEOF as usize
    } else {
        SpecialCharacterIndices::VINTR as usize
    };
    match tcgetattr(fd) {
        Ok(t) => Ok(t.control_chars[idx]),
        Err(e) => Err(e as i32),
    }
}

} // verus!
