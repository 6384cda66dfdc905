//! The four-byte big-endian encoding of an errno, used on the
//! exec-error pipe between child and parent.

use vstd::prelude::*;

verus! {

/// The big-endian bytes of `code`, most significant first.
pub open spec fn be_bytes_of(code: i32) -> Seq<u8> {
    seq![
        ((code as u32) >> 24) as u8,
        ((code as u32) >> 16) as u8,
        ((code as u32) >> 8) as u8,
        (code as u32) as u8,
    ]
}

/// The value read back from four big-endian bytes.
pub open spec fn be_value_of(s: Seq<u8>) -> u32
    recommends
        s.len() == 4,
{
    ((s[0] as u32) << 24) | ((s[1] as u32) << 16) | ((s[2] as u32) << 8) | (s[3] as u32)
}

/// Encodes an errno as exactly four big-endian bytes.
pub fn errno_to_be_bytes(code: i32) -> (r: Vec<u8>)
    ensures
        r@ == be_bytes_of(code),
        r@.len() == 4,
{
    let u: u32 = code as u32;
    let mut r: Vec<u8> = Vec::new();
    r.push((u >> 24) as u8);
    r.push((u >> 16) as u8);
    r.push((u >> 8) as u8);
    r.push(u as u8);
    assert(r@ =~= be_bytes_of(code));
    r
}

/// Decodes four big-endian bytes back into an errno.
pub fn errno_from_be_bytes(b: &Vec<u8>) -> (r: i32)
    requires
        b@.len() == 4,
    ensures
        r == be_value_of(b@) as i32,
{
    let u: u32 = ((b[0] as u32) << 24) | ((b[1] as u32) << 16) | ((b[2] as u32) << 8) | (b[3]
        as u32);
    u as i32
}

/// An errno written to the pipe is read back unchanged: decoding the
/// four-byte big-endian encoding of `code` yields `code` again.
pub proof fn lemma_errno_roundtrip(code: i32)
    ensures
        be_value_of(be_bytes_of(code)) as i32 == code,
{
    assert(((((code as u32) >> 24) as u8 as u32) << 24 | (((code as u32) >> 16) as u8 as u32) << 16
        | (((code as u32) >> 8) as u8 as u32) << 8 | ((code as u32) as u8 as u32)) as i32 == code)
        by (bit_vector);
}

/// A nonzero errno never decodes to zero: the parent cannot mistake a
/// reported exec failure for success.
pub proof fn lemma_errno_nonzero_preserved(code: i32)
    ensures
        code != 0 ==> be_value_of(be_bytes_of(code)) as i32 != 0,
{
    lemma_errno_roundtrip(code);
}

} // verus!
