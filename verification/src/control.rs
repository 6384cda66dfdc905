//! Control-character mnemonics and their single-byte encodings.

use vstd::prelude::*;
use vstd::string::StringSliceAdditionalSpecFns;

verus! {

/// A C0 control character (plus `Space` and `Delete`), named by its
/// ASCII mnemonic.
#[derive(Clone, Copy, Debug, PartialEq, Eq, Structural)]
pub enum ControlCode {
    Null,
    StartOfHeading,
    StartOfText,
    EndOfText,
    EndOfTransmission,
    Enquiry,
    Acknowledge,
    Bell,
    Backspace,
    HorizontalTabulation,
    LineFeed,
    VerticalTabulation,
    FormFeed,
    CarriageReturn,
    ShiftOut,
    ShiftIn,
    DataLinkEscape,
    DeviceControl1,
    DeviceControl2,
    DeviceControl3,
    DeviceControl4,
    NegativeAcknowledge,
    SynchronousIdle,
    EndOfTransmissionBlock,
    Cancel,
    EndOfMedium,
    Substitute,
    Escape,
    FileSeparator,
    GroupSeparator,
    RecordSeparator,
    UnitSeparator,
    Space,
    Delete,
}

/// The byte each mnemonic encodes to.
pub open spec fn byte_of(code: ControlCode) -> u8 {
    match code {
        ControlCode::Null => 0x0,
        ControlCode::StartOfHeading => 0x1,
        ControlCode::StartOfText => 0x2,
        ControlCode::EndOfText => 0x3,
        ControlCode::EndOfTransmission => 0x4,
        ControlCode::Enquiry => 0x5,
        ControlCode::Acknowledge => 0x6,
        ControlCode::Bell => 0x7,
        ControlCode::Backspace => 0x8,
        ControlCode::HorizontalTabulation => 0x9,
        ControlCode::LineFeed => 0xa,
        ControlCode::VerticalTabulation => 0xb,
        ControlCode::FormFeed => 0xc,
        ControlCode::CarriageReturn => 0xd,
        ControlCode::ShiftOut => 0xe,
        ControlCode::ShiftIn => 0xf,
        ControlCode::DataLinkEscape => 0x10,
        ControlCode::DeviceControl1 => 0x11,
        ControlCode::DeviceControl2 => 0x12,
        ControlCode::DeviceControl3 => 0x13,
        ControlCode::DeviceControl4 => 0x14,
        ControlCode::NegativeAcknowledge => 0x15,
        ControlCode::SynchronousIdle => 0x16,
        ControlCode::EndOfTransmissionBlock => 0x17,
        ControlCode::Cancel => 0x18,
        ControlCode::EndOfMedium => 0x19,
        ControlCode::Substitute => 0x1a,
        ControlCode::Escape => 0x1b,
        ControlCode::FileSeparator => 0x1c,
        ControlCode::GroupSeparator => 0x1d,
        ControlCode::RecordSeparator => 0x1e,
        ControlCode::UnitSeparator => 0x1f,
        ControlCode::Space => 0x20,
        ControlCode::Delete => 0x7f,
    }
}

/// The control byte a character stands for: `@` and the letters map to
/// `0x0..=0x1a` (as typed with the control key held), `[ \ ] ^ _` to
/// `0x1b..=0x1f`, and space and delete to themselves.
pub open spec fn ctrl_byte_of_char(u: u32) -> Option<u8> {
    if 64 <= u <= 95 {
        Some((u - 64) as u8)
    } else if 97 <= u <= 122 {
        Some((u - 96) as u8)
    } else if u == 32 {
        Some(32u8)
    } else if u == 127 {
        Some(127u8)
    } else {
        None
    }
}

/// Whether a short string stands for a control character: a single
/// mappable key, or a caret followed by one (as in `"^C"`).
pub open spec fn ctrl_form_of_str(b: Seq<u8>) -> bool {
    ||| (b.len() == 1 && ctrl_byte_of_char(b[0] as u32) is Some)
    ||| (b.len() == 2 && b[0] == 0x5eu8 && ctrl_byte_of_char(b[1] as u32) is Some)
}

impl ControlCode {
    /// The single byte this mnemonic encodes to.
    pub fn byte(&self) -> (r: u8)
        ensures
            r == byte_of(*self),
    {
        match *self {
            ControlCode::Null => 0x0,
            ControlCode::StartOfHeading => 0x1,
            ControlCode::StartOfText => 0x2,
            ControlCode::EndOfText => 0x3,
            ControlCode::EndOfTransmission => 0x4,
            ControlCode::Enquiry => 0x5,
            ControlCode::Acknowledge => 0x6,
            ControlCode::Bell => 0x7,
            ControlCode::Backspace => 0x8,
            ControlCode::HorizontalTabulation => 0x9,
            ControlCode::LineFeed => 0xa,
            ControlCode::VerticalTabulation => 0xb,
            ControlCode::FormFeed => 0xc,
            ControlCode::CarriageReturn => 0xd,
            ControlCode::ShiftOut => 0xe,
            ControlCode::ShiftIn => 0xf,
            ControlCode::DataLinkEscape => 0x10,
            ControlCode::DeviceControl1 => 0x11,
            ControlCode::DeviceControl2 => 0x12,
            ControlCode::DeviceControl3 => 0x13,
            ControlCode::DeviceControl4 => 0x14,
            ControlCode::NegativeAcknowledge => 0x15,
            ControlCode::SynchronousIdle => 0x16,
            ControlCode::EndOfTransmissionBlock => 0x17,
            ControlCode::Cancel => 0x18,
            ControlCode::EndOfMedium => 0x19,
            ControlCode::Substitute => 0x1a,
            ControlCode::Escape => 0x1b,
            ControlCode::FileSeparator => 0x1c,
            ControlCode::GroupSeparator => 0x1d,
            ControlCode::RecordSeparator => 0x1e,
            ControlCode::UnitSeparator => 0x1f,
            ControlCode::Space => 0x20,
            ControlCode::Delete => 0x7f,
        }
    }

    /// The mnemonic encoding to `b`, for bytes in the control range.
    pub fn from_byte(b: u8) -> (r: Option<ControlCode>)
        ensures
            r is Some <==> (b <= 0x20 || b == 0x7f),
            r matches Some(code) ==> byte_of(code) == b,
    {
        match b {
            0x0 => Some(ControlCode::Null),
            0x1 => Some(ControlCode::StartOfHeading),
            0x2 => Some(ControlCode::StartOfText),
            0x3 => Some(ControlCode::EndOfText),
            0x4 => Some(ControlCode::EndOfTransmission),
            0x5 => Some(ControlCode::Enquiry),
            0x6 => Some(ControlCode::Acknowledge),
            0x7 => Some(ControlCode::Bell),
            0x8 => Some(ControlCode::Backspace),
            0x9 => Some(ControlCode::HorizontalTabulation),
            0xa => Some(ControlCode::LineFeed),
            0xb => Some(ControlCode::VerticalTabulation),
            0xc => Some(ControlCode::FormFeed),
            0xd => Some(ControlCode::CarriageReturn),
            0xe => Some(ControlCode::ShiftOut),
            0xf => Some(ControlCode::ShiftIn),
            0x10 => Some(ControlCode::DataLinkEscape),
            0x11 => Some(ControlCode::DeviceControl1),
            0x12 => Some(ControlCode::DeviceControl2),
            0x13 => Some(ControlCode::DeviceControl3),
            0x14 => Some(ControlCode::DeviceControl4),
            0x15 => Some(ControlCode::NegativeAcknowledge),
            0x16 => Some(ControlCode::SynchronousIdle),
            0x17 => Some(ControlCode::EndOfTransmissionBlock),
            0x18 => Some(ControlCode::Cancel),
            0x19 => Some(ControlCode::EndOfMedium),
            0x1a => Some(ControlCode::Substitute),
            0x1b => Some(ControlCode::Escape),
            0x1c => Some(ControlCode::FileSeparator),
            0x1d => Some(ControlCode::GroupSeparator),
            0x1e => Some(ControlCode::RecordSeparator),
            0x1f => Some(ControlCode::UnitSeparator),
            0x20 => Some(ControlCode::Space),
            0x7f => Some(ControlCode::Delete),
            _ => None,
        }
    }

    /// The mnemonic a single character stands for, as typed with the
    /// control key held: `from_char('C')` and `from_char('c')` are both
    /// `EndOfText`.
    pub fn from_char(c: char) -> (r: Option<ControlCode>)
        ensures
            r is Some <==> ctrl_byte_of_char(c as u32) is Some,
            r matches Some(code) ==> ctrl_byte_of_char(c as u32) == Some(byte_of(code)),
    {
        let u = c as u32;
        if 64 <= u && u <= 95 {
            Self::from_byte((u - 64) as u8)
        } else if 97 <= u && u <= 122 {
            Self::from_byte((u - 96) as u8)
        } else if u == 32 {
            Self::from_byte(32)
        } else if u == 127 {
            Self::from_byte(127)
        } else {
            None
        }
    }

    /// The mnemonic a short string stands for: a single character as in
    /// [`ControlCode::from_char`], or a caret form such as `"^C"`.
    pub fn from_str(s: &str) -> (r: Option<ControlCode>)
        ensures
            r is Some <==> ctrl_form_of_str(s.spec_bytes()),
            s.spec_bytes().len() == 1 && r is Some ==> ctrl_byte_of_char(
                s.spec_bytes()[0] as u32,
            ) == Some(byte_of(r->0)),
            s.spec_bytes().len() == 2 && r is Some ==> s.spec_bytes()[0] == 0x5eu8
                && ctrl_byte_of_char(s.spec_bytes()[1] as u32) == Some(byte_of(r->0)),
    {
        let b = s.as_bytes();
        if b.len() == 1 {
            Self::from_ascii_key(b[0])
        } else if b.len() == 2 && b[0] == 0x5e {
            // a caret followed by the key, as in "^C"
            Self::from_ascii_key(b[1])
        } else {
            None
        }
    }

    /// The mnemonic an ASCII key byte stands for, as typed with the
    /// control key held.
    pub fn from_ascii_key(b: u8) -> (r: Option<ControlCode>)
        ensures
            r is Some <==> ctrl_byte_of_char(b as u32) is Some,
            r matches Some(code) ==> ctrl_byte_of_char(b as u32) == Some(byte_of(code)),
    {
        if 64 <= b && b <= 95 {
            Self::from_byte(b - 64)
        } else if 97 <= b && b <= 122 {
            Self::from_byte(b - 96)
        } else if b == 32 || b == 127 {
            Self::from_byte(b)
        } else {
            None
        }
    }
}

} // verus!
