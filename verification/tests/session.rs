//! End-to-end sessions against real child processes.

use ptyprocess::process::SIGINT;
use ptyprocess::{Command, ControlCode, Error, Master, PtyProcess, WaitStatus};

/// Waits without touching the scheduler-sensitive parts of the child:
/// a plain monotonic busy-wait.
fn wait_ms(ms: u64) {
    let start = std::time::Instant::now();
    while (start.elapsed().as_millis() as u64) < ms {
        std::hint::spin_loop();
    }
}

#[test]
fn create_pty() {
    let master = Master::open().unwrap();
    master.grant_slave_access().unwrap();
    master.unlock_slave().unwrap();
    let slavename = master.get_slave_name().unwrap();
    assert!(slavename.starts_with("/dev"));
    println!("slave name {}", slavename);
}

#[test]
fn cat() {
    let mut process = PtyProcess::spawn(Command::new("cat")).unwrap();
    let _pty = process.get_pty_handle().unwrap();

    process.send("hello cat\n").unwrap();
    let buf = process.read_line().unwrap();
    assert_eq!(buf, b"hello cat\r\n".to_vec());

    assert_eq!(process.exit(true).unwrap(), true);
}

#[test]
fn cat_intr() {
    let mut process = PtyProcess::spawn(Command::new("cat")).unwrap();

    // give cat a moment to be ready to take the ^C
    wait_ms(300);
    process.send_bytes(&[3]).unwrap();

    let status = process.wait().unwrap();
    assert_eq!(WaitStatus::Signaled(process.pid(), SIGINT, false), status);
}

#[test]
fn cat_eof() {
    let mut proc = PtyProcess::spawn(Command::new("cat")).unwrap();

    // give cat a moment to be ready to take the ^D
    wait_ms(300);
    proc.send_bytes(&[4]).unwrap();

    let status = proc.wait().unwrap();
    assert_eq!(WaitStatus::Exited(proc.pid(), 0), status);
}

#[test]
fn read_after_eof() {
    let msg = "hello cat";

    let mut command = Command::new("echo");
    command.arg(msg);
    let mut proc = PtyProcess::spawn(command).unwrap();

    let buf = proc.read_to_end().unwrap();
    assert_eq!(buf, format!("{}\r\n", msg).into_bytes());

    assert_eq!(0, proc.read_some(128).unwrap().len());
    assert_eq!(0, proc.read_some(128).unwrap().len());

    assert_eq!(WaitStatus::Exited(proc.pid(), 0), proc.wait().unwrap());
}

#[test]
fn ptyprocess_check_terminal_line_settings() {
    let mut command = Command::new("stty");
    command.arg("-a");
    let mut proc = PtyProcess::spawn(command).unwrap();

    let buf = proc.read_to_end().unwrap();
    let text = String::from_utf8(buf).unwrap();
    println!("{}", text);

    assert!(text.split_whitespace().any(|word| word == "-echo"));
}

#[test]
fn send_controll() {
    let mut process = PtyProcess::spawn(Command::new("cat")).unwrap();

    wait_ms(300);
    process.send_control(ControlCode::EndOfTransmission).unwrap();

    assert_eq!(
        WaitStatus::Exited(process.pid(), 0),
        process.wait().unwrap()
    );
}

#[test]
fn send() {
    let mut process = PtyProcess::spawn(Command::new("cat")).unwrap();

    process.send("hello cat\n").unwrap();
    let buf = process.read_some(128).unwrap();
    assert_eq!(buf, b"hello cat\r\n".to_vec());

    assert_eq!(process.exit(true).unwrap(), true);
}

#[test]
fn send_line() {
    let mut process = PtyProcess::spawn(Command::new("cat")).unwrap();

    process.send_line("hello cat").unwrap();
    let buf = process.read_some(128).unwrap();
    assert_eq!(buf, b"hello cat\r\n".to_vec());

    assert_eq!(process.exit(true).unwrap(), true);
}

#[test]
fn pid_is_positive_and_stable() {
    let mut process = PtyProcess::spawn(Command::new("cat")).unwrap();
    let pid = process.pid();
    assert!(pid > 0);

    process.send("x\n").unwrap();
    let _ = process.read_line().unwrap();
    assert_eq!(process.pid(), pid);

    assert_eq!(process.exit(true).unwrap(), true);
    assert_eq!(process.pid(), pid);
}

#[test]
fn is_alive_goes_from_true_to_false_only() {
    let mut process = PtyProcess::spawn(Command::new("cat")).unwrap();
    assert!(process.is_alive().unwrap());

    assert_eq!(process.exit(true).unwrap(), true);

    // once not alive, every further query agrees
    assert!(!process.is_alive().unwrap());
    assert!(!process.is_alive().unwrap());
    assert!(!process.is_alive().unwrap());
}

#[test]
fn window_size_round_trips() {
    let mut process = PtyProcess::spawn(Command::new("cat")).unwrap();

    // the spawn default
    assert_eq!(process.get_window_size().unwrap(), (80, 24));

    process.set_window_size(100, 40).unwrap();
    assert_eq!(process.get_window_size().unwrap(), (100, 40));

    assert_eq!(process.exit(true).unwrap(), true);
}

#[test]
fn echo_round_trips() {
    let mut process = PtyProcess::spawn(Command::new("cat")).unwrap();

    // the child-side setup disables echo
    assert_eq!(process.get_echo().unwrap(), false);

    process.set_echo(true).unwrap();
    assert_eq!(process.get_echo().unwrap(), true);
    assert!(process.wait_echo(true, Some(1000)).unwrap());

    process.set_echo(false).unwrap();
    assert_eq!(process.get_echo().unwrap(), false);

    assert_eq!(process.exit(true).unwrap(), true);
}

#[test]
fn master_is_a_terminal() {
    let process = PtyProcess::spawn(Command::new("cat")).unwrap();
    assert!(process.isatty().unwrap());
}

#[test]
fn spawn_failure_carries_errno() {
    let err = match PtyProcess::spawn(Command::new("definitely-no-such-binary-here")) {
        Err(e) => e,
        Ok(_) => panic!("spawn of a missing binary unexpectedly succeeded"),
    };
    match err {
        Error::Spawn(code) => assert_eq!(code, 2), // ENOENT
        other => panic!("expected a spawn error, got {:?}", other),
    }
}

#[test]
fn send_eof_ends_cat() {
    let mut process = PtyProcess::spawn(Command::new("cat")).unwrap();
    wait_ms(300);
    process.send_eof().unwrap();
    assert_eq!(
        WaitStatus::Exited(process.pid(), 0),
        process.wait().unwrap()
    );
}

#[test]
fn send_intr_kills_cat() {
    let mut process = PtyProcess::spawn(Command::new("cat")).unwrap();
    wait_ms(300);
    process.send_intr().unwrap();
    assert_eq!(
        WaitStatus::Signaled(process.pid(), SIGINT, false),
        process.wait().unwrap()
    );
}

#[test]
fn bad_control_is_rejected() {
    let mut process = PtyProcess::spawn(Command::new("cat")).unwrap();
    assert_eq!(process.send_control_str("xy").unwrap_err(), Error::BadControl);
    assert_eq!(process.send_control_char('1').unwrap_err(), Error::BadControl);
    assert_eq!(process.exit(true).unwrap(), true);
}

#[test]
fn send_control_str_caret_form_ends_cat() {
    let mut process = PtyProcess::spawn(Command::new("cat")).unwrap();
    wait_ms(300);
    process.send_control_str("^D").unwrap();
    assert_eq!(
        WaitStatus::Exited(process.pid(), 0),
        process.wait().unwrap()
    );
}

#[test]
fn drop_reaps_a_live_child() {
    let process = PtyProcess::spawn(Command::new("cat")).unwrap();
    let pid = process.pid();
    assert!(process.is_alive().unwrap());

    drop(process);

    // the child must be fully gone (terminated and reaped) soon after
    let mut gone = false;
    for _ in 0..50 {
        let probe = nix::sys::signal::kill(nix::unistd::Pid::from_raw(pid), None);
        if probe == Err(nix::errno::Errno::ESRCH) {
            gone = true;
            break;
        }
        wait_ms(100);
    }
    assert!(gone);
}

#[test]
fn terminate_delay_is_adjustable() {
    let mut process = PtyProcess::spawn(Command::new("cat")).unwrap();
    process.set_terminate_approach_delay(10);
    assert_eq!(process.exit(true).unwrap(), true);
}
