//! A byte stream over a duplicated master descriptor, with a small
//! buffer of bytes read but not yet handed out.

use vstd::prelude::*;
use vstd::string::StringSliceAdditionalSpecFns;
use crate::error::Error;
use crate::sys;

verus! {

/// errno for an I/O error. Reading a PTY master whose slave side is
/// gone fails with it; the stream treats that as end of file.
pub const EIO: i32 = 5;

/// errno for "operation would block" on a non-blocking descriptor.
pub const EAGAIN: i32 = 11;

/// The line-feed byte terminating a line.
pub const NEWLINE: u8 = 0xa;

/// How many bytes one refill asks the descriptor for.
pub const CHUNK_SIZE: usize = 512;

/// The position of the first occurrence of `b` in `v`, if any.
pub(crate) fn find_byte(v: &[u8], b: u8) -> (r: Option<usize>)
    ensures
        r matches Some(i) ==> i < v@.len() && v@[i as int] == b && (forall|j: int|
            0 <= j < i ==> v@[j] != b),
        r is None ==> forall|j: int| 0 <= j < v@.len() ==> v@[j] != b,
{
    let mut i: usize = 0;
    while i < v.len()
        invariant
            i <= v@.len(),
            forall|j: int| 0 <= j < i ==> v@[j] != b,
        decreases v@.len() - i,
    {
        if v[i] == b {
            return Some(i);
        }
        i = i + 1;
    }
    None
}

/// The first `n` bytes of `v`, as a fresh vector.
pub(crate) fn take_prefix(v: &[u8], n: usize) -> (r: Vec<u8>)
    requires
        n <= v@.len(),
    ensures
        r@ == v@.subrange(0, n as int),
{
    let mut r: Vec<u8> = Vec::new();
    let mut i: usize = 0;
    while i < n
        invariant
            i <= n <= v@.len(),
            r@ == v@.subrange(0, i as int),
        decreases n - i,
    {
        r.push(v[i]);
        proof {
            assert(r@ =~= v@.subrange(0, i + 1 as int));
        }
        i = i + 1;
    }
    r
}

/// Everything after the first `n` bytes of `v`, as a fresh vector.
pub(crate) fn drop_prefix(v: &[u8], n: usize) -> (r: Vec<u8>)
    requires
        n <= v@.len(),
    ensures
        r@ == v@.subrange(n as int, v@.len() as int),
{
    let mut r: Vec<u8> = Vec::new();
    let mut i: usize = n;
    while i < v.len()
        invariant
            n <= i <= v@.len(),
            r@ == v@.subrange(n as int, i as int),
        decreases v@.len() - i,
    {
        r.push(v[i]);
        proof {
            assert(r@ =~= v@.subrange(n as int, i + 1 as int));
        }
        i = i + 1;
    }
    r
}

/// Appends all of `src` to `dst`, in order.
pub(crate) fn push_all(dst: &mut Vec<u8>, src: &[u8])
    ensures
        final(dst)@ == old(dst)@ + src@,
{
    let mut i: usize = 0;
    while i < src.len()
        invariant
            i <= src@.len(),
            dst@ == old(dst)@ + src@.subrange(0, i as int),
        decreases src@.len() - i,
    {
        dst.push(src[i]);
        proof {
            assert(dst@ =~= old(dst)@ + src@.subrange(0, i + 1 as int));
        }
        i = i + 1;
    }
    proof {
        assert(dst@ =~= old(dst)@ + src@);
    }
}

/// Writes all of `buf` to the raw descriptor, in order, retrying short
/// writes. A write that accepts nothing is reported as an I/O error.
pub(crate) fn write_fd_all(fd: i32, buf: &[u8]) -> (r: Result<(), Error>)
    ensures
        r is Err ==> r->Err_0 is Os,
{
    let mut written: usize = 0;
    while written < buf.len()
        invariant
            written <= buf@.len(),
        decreases buf@.len() - written,
    {
        let rest = vstd::slice::slice_subrange(buf, written, buf.len());
        match sys::sys_write(fd, rest) {
            Ok(n) => {
                if n == 0 {
                    return Err(Error::Os(EIO));
                }
                written = written + n;
            },
            Err(e) => {
                return Err(Error::Os(e));
            },
        }
    }
    Ok(())
}

/// The bytes of `s` followed by a line feed: what `send_line` hands to
/// the stream.
pub fn line_bytes(s: &str) -> (r: Vec<u8>)
    ensures
        r@ == s.spec_bytes() + seq![NEWLINE],
{
    let b = s.as_bytes();
    let mut v: Vec<u8> = Vec::new();
    push_all(&mut v, b);
    v.push(NEWLINE);
    proof {
        assert(v@ =~= s.spec_bytes() + seq![NEWLINE]);
    }
    v
}

/// Reads at most `max` bytes from a raw descriptor without blocking:
/// the descriptor is switched to non-blocking mode around the read.
/// `None` means no data was available yet; an empty `Some` means end
/// of file (an I/O error from a master whose slave side is gone counts
/// as end of file).
pub(crate) fn try_read_fd(fd: i32, max: usize) -> (r: Result<Option<Vec<u8>>, Error>)
    requires
        max >= 1,
    ensures
        r is Ok && r->Ok_0 is Some ==> r->Ok_0->0@.len() <= max,
        r is Err ==> r->Err_0 is Os,
{
    if let Err(e) = sys::sys_set_nonblocking(fd, true) {
        return Err(Error::Os(e));
    }
    let res = sys::sys_read(fd, max);
    if let Err(e) = sys::sys_set_nonblocking(fd, false) {
        return Err(Error::Os(e));
    }
    match res {
        Ok(c) => Ok(Some(c)),
        Err(e) => {
            if e == EAGAIN {
                Ok(None)
            } else if e == EIO {
                Ok(Some(Vec::new()))
            } else {
                Err(Error::Os(e))
            }
        },
    }
}

/// A stream over an owned descriptor. Bytes arrive from the descriptor
/// in kernel order; the stream hands them out in the same order,
/// holding back what a caller has not asked for yet.
pub struct Stream {
    fd: rustix::fd::OwnedFd,
    pending: Vec<u8>,
}

impl Stream {
    /// The bytes read from the descriptor but not yet handed out.
    pub closed spec fn buffered(&self) -> Seq<u8> {
        self.pending@
    }

    /// Wraps an owned descriptor; nothing is buffered yet.
    pub(crate) fn new(fd: rustix::fd::OwnedFd) -> (r: Stream)
        ensures
            r.buffered() == Seq::<u8>::empty(),
    {
        Stream { fd, pending: Vec::new() }
    }

    /// The raw descriptor number of the stream.
    pub(crate) fn raw_fd(&self) -> (r: i32)
        ensures
            r >= 0,
    {
        sys::fd_raw(&self.fd)
    }

    /// Writes all of `buf` to the stream, in order. The buffer of
    /// unread bytes is untouched.
    pub fn write_all(&self, buf: &[u8]) -> (r: Result<(), Error>)
        ensures
            r is Err ==> r->Err_0 is Os,
    {
        write_fd_all(sys::fd_raw(&self.fd), buf)
    }

    /// Reads one line, up to and including the first line feed. At end
    /// of file the remaining bytes are returned as they are. The result
    /// holds no line feed before its last byte, and together with what
    /// stays buffered it extends the previously buffered bytes in
    /// order.
    pub fn read_line(&mut self) -> (r: Result<Vec<u8>, Error>)
        ensures
            r is Ok ==> forall|j: int| 0 <= j < r->Ok_0@.len() - 1 ==> r->Ok_0@[j] != NEWLINE,
            r is Ok ==> old(self).buffered().is_prefix_of(
                r->Ok_0@ + final(self).buffered(),
            ),
            r is Err ==> r->Err_0 is Os && r->Err_0 != Error::Os(EIO),
    {
        let ghost mut appended: Seq<u8> = Seq::empty();
        let mut fuel: usize = usize::MAX;
        loop
            invariant
                self.pending@ == old(self).pending@ + appended,
            decreases fuel,
        {
            match find_byte(self.pending.as_slice(), NEWLINE) {
                Some(i) => {
                    let len = self.pending.len();
                    assert(i < len);
                    let line = take_prefix(self.pending.as_slice(), i + 1);
                    let rest = drop_prefix(self.pending.as_slice(), i + 1);
                    proof {
                        assert(line@ + rest@ =~= self.pending@);
                        assert((line@ + rest@).subrange(
                            0,
                            old(self).pending@.len() as int,
                        ) =~= old(self).pending@);
                    }
                    self.pending = rest;
                    return Ok(line);
                },
                None => {},
            }
            if fuel == 0 {
                let all = take_prefix(self.pending.as_slice(), self.pending.len());
                proof {
                    assert(all@ =~= self.pending@);
                    assert((all@ + Seq::<u8>::empty()).subrange(
                        0,
                        old(self).pending@.len() as int,
                    ) =~= old(self).pending@);
                }
                self.pending = Vec::new();
                return Ok(all);
            }
            fuel = fuel - 1;
            let chunk = match sys::sys_read(sys::fd_raw(&self.fd), CHUNK_SIZE) {
                Ok(c) => c,
                Err(e) => {
                    if e == EIO {
                        Vec::new()
                    } else {
                        return Err(Error::Os(e));
                    }
                },
            };
            if chunk.len() == 0 {
                let all = take_prefix(self.pending.as_slice(), self.pending.len());
                proof {
                    assert(all@ =~= self.pending@);
                    assert((all@ + Seq::<u8>::empty()).subrange(
                        0,
                        old(self).pending@.len() as int,
                    ) =~= old(self).pending@);
                }
                self.pending = Vec::new();
                return Ok(all);
            }
            push_all(&mut self.pending, chunk.as_slice());
            proof {
                appended = appended + chunk@;
            }
        }
    }

    /// Reads until end of file and returns everything, in order; the
    /// buffer is drained into the result first.
    pub fn read_to_end(&mut self) -> (r: Result<Vec<u8>, Error>)
        ensures
            r is Ok ==> final(self).buffered() == Seq::<u8>::empty(),
            r is Ok ==> old(self).buffered().is_prefix_of(r->Ok_0@),
            r is Err ==> r->Err_0 is Os && r->Err_0 != Error::Os(EIO),
    {
        let ghost mut appended: Seq<u8> = Seq::empty();
        let mut fuel: usize = usize::MAX;
        loop
            invariant
                self.pending@ == old(self).pending@ + appended,
            decreases fuel,
        {
            if fuel == 0 {
                let all = take_prefix(self.pending.as_slice(), self.pending.len());
                proof {
                    assert(all@ =~= self.pending@);
                    assert(all@.subrange(0, old(self).pending@.len() as int)
                        =~= old(self).pending@);
                }
                self.pending = Vec::new();
                return Ok(all);
            }
            fuel = fuel - 1;
            let chunk = match sys::sys_read(sys::fd_raw(&self.fd), CHUNK_SIZE) {
                Ok(c) => c,
                Err(e) => {
                    if e == EIO {
                        Vec::new()
                    } else {
                        return Err(Error::Os(e));
                    }
                },
            };
            if chunk.len() == 0 {
                let all = take_prefix(self.pending.as_slice(), self.pending.len());
                proof {
                    assert(all@ =~= self.pending@);
                    assert(all@.subrange(0, old(self).pending@.len() as int)
                        =~= old(self).pending@);
                }
                self.pending = Vec::new();
                return Ok(all);
            }
            push_all(&mut self.pending, chunk.as_slice());
            proof {
                appended = appended + chunk@;
            }
        }
    }

    /// Reads at most `max` bytes: buffered bytes first, else one read
    /// from the descriptor. End of file (including an I/O error from a
    /// master whose slave side is gone) yields an empty result.
    pub fn read_some(&mut self, max: usize) -> (r: Result<Vec<u8>, Error>)
        requires
            max >= 1,
        ensures
            r is Ok ==> r->Ok_0@.len() <= max,
            r is Ok && old(self).buffered().len() > 0 ==> r->Ok_0@ + final(self).buffered() == old(
                self,
            ).buffered(),
            r is Err ==> r->Err_0 is Os && r->Err_0 != Error::Os(EIO),
    {
        if self.pending.len() > 0 {
            let n = if max < self.pending.len() {
                max
            } else {
                self.pending.len()
            };
            let head = take_prefix(self.pending.as_slice(), n);
            let rest = drop_prefix(self.pending.as_slice(), n);
            proof {
                assert(head@ + rest@ =~= self.pending@);
            }
            self.pending = rest;
            return Ok(head);
        }
        match sys::sys_read(sys::fd_raw(&self.fd), max) {
            Ok(c) => Ok(c),
            Err(e) => {
                if e == EIO {
                    Ok(Vec::new())
                } else {
                    Err(Error::Os(e))
                }
            },
        }
    }

    /// Like [`Stream::read_some`], but never blocks: the descriptor is
    /// switched to non-blocking mode around the read. `None` means no
    /// data was available yet; an empty `Some` means end of file.
    pub fn try_read(&mut self, max: usize) -> (r: Result<Option<Vec<u8>>, Error>)
        requires
            max >= 1,
        ensures
            r is Ok && r->Ok_0 is Some ==> r->Ok_0->0@.len() <= max,
            r is Err ==> r->Err_0 is Os,
    {
        if self.pending.len() > 0 {
            let n = if max < self.pending.len() {
                max
            } else {
                self.pending.len()
            };
            let head = take_prefix(self.pending.as_slice(), n);
            let rest = drop_prefix(self.pending.as_slice(), n);
            self.pending = rest;
            return Ok(Some(head));
        }
        try_read_fd(sys::fd_raw(&self.fd), max)
    }
}

} // verus!
