//! Tests of the pure logic: the errno codec, control-code encoding,
//! the liveness decision, and the interact escape split.

use ptyprocess::codec::{errno_from_be_bytes, errno_to_be_bytes};
use ptyprocess::control::ControlCode;
use ptyprocess::error::Error;
use ptyprocess::interact::split_at_escape;
use ptyprocess::status::{alive_from_status, WaitStatus, ECHILD, ESRCH};
use ptyprocess::stream::line_bytes;

#[test]
fn errno_encodes_big_endian() {
    assert_eq!(errno_to_be_bytes(2), vec![0, 0, 0, 2]);
    assert_eq!(errno_to_be_bytes(0x01020304), vec![1, 2, 3, 4]);
    assert_eq!(errno_to_be_bytes(-1), vec![0xff, 0xff, 0xff, 0xff]);
}

#[test]
fn errno_round_trips() {
    for code in [0, 1, 2, 22, 255, 4096, -1, i32::MAX, i32::MIN] {
        let bytes = errno_to_be_bytes(code);
        assert_eq!(errno_from_be_bytes(&bytes), code);
    }
}

#[test]
fn control_codes_encode_to_their_bytes() {
    assert_eq!(ControlCode::EndOfText.byte(), 0x3);
    assert_eq!(ControlCode::EndOfTransmission.byte(), 0x4);
    assert_eq!(ControlCode::GroupSeparator.byte(), 0x1d);
    assert_eq!(ControlCode::Null.byte(), 0x0);
    assert_eq!(ControlCode::Space.byte(), 0x20);
    assert_eq!(ControlCode::Delete.byte(), 0x7f);
}

#[test]
fn control_codes_parse_from_char_and_str() {
    assert_eq!(ControlCode::from_char('C'), Some(ControlCode::EndOfText));
    assert_eq!(ControlCode::from_char('c'), Some(ControlCode::EndOfText));
    assert_eq!(ControlCode::from_char(']'), Some(ControlCode::GroupSeparator));
    assert_eq!(ControlCode::from_char('1'), None);
    assert_eq!(ControlCode::from_str("^C"), Some(ControlCode::EndOfText));
    assert_eq!(ControlCode::from_str("^d"), Some(ControlCode::EndOfTransmission));
    assert_eq!(ControlCode::from_str("d"), Some(ControlCode::EndOfTransmission));
    assert_eq!(ControlCode::from_str("^^"), Some(ControlCode::RecordSeparator));
    assert_eq!(ControlCode::from_str(""), None);
    assert_eq!(ControlCode::from_str("^xy"), None);
    assert_eq!(ControlCode::from_byte(0x1d), Some(ControlCode::GroupSeparator));
    assert_eq!(ControlCode::from_byte(0x21), None);
}

#[test]
fn alive_decision_maps_statuses() {
    assert_eq!(alive_from_status(&Ok(WaitStatus::StillAlive)), Ok(true));
    assert_eq!(alive_from_status(&Ok(WaitStatus::Exited(7, 0))), Ok(false));
    assert_eq!(
        alive_from_status(&Ok(WaitStatus::Signaled(7, 2, false))),
        Ok(false)
    );
    assert_eq!(alive_from_status(&Err(Error::Os(ECHILD))), Ok(false));
    assert_eq!(alive_from_status(&Err(Error::Os(ESRCH))), Ok(false));
    assert_eq!(alive_from_status(&Err(Error::Os(1))), Err(Error::Os(1)));
}

#[test]
fn escape_split_drops_escape_and_tail() {
    let (fwd, esc) = split_at_escape(&[b'a', b'b', 0x1d, b'c', b'd'], 0x1d);
    assert_eq!(fwd, vec![b'a', b'b']);
    assert!(esc);

    let (fwd, esc) = split_at_escape(&[0x1d, b'x'], 0x1d);
    assert_eq!(fwd, Vec::<u8>::new());
    assert!(esc);

    let (fwd, esc) = split_at_escape(&[b'a', b'b', b'c'], 0x1d);
    assert_eq!(fwd, vec![b'a', b'b', b'c']);
    assert!(!esc);
}

#[test]
fn line_bytes_appends_line_feed() {
    assert_eq!(line_bytes("ab"), vec![97, 98, 10]);
    assert_eq!(line_bytes(""), vec![10]);
}

#[test]
fn error_reports_its_errno() {
    assert_eq!(Error::Os(5).errno(), Some(5));
    assert_eq!(Error::Spawn(2).errno(), Some(2));
    assert_eq!(Error::Unsupported.errno(), None);
    assert_eq!(Error::BadControl.errno(), None);
}
