//! Wire codec for the kernel's NBD request/reply protocol.
//!
//! Both frame layouts are fixed-size with big-endian fields. Parsing and
//! serialization are specified against [`be32`] / [`be64`], the mathematical
//! value of a big-endian field over its wire bytes.

use vstd::prelude::*;

verus! {

/// Magic value that opens every request frame.
pub const REQUEST_MAGIC: u32 = 0x2560_9513;

/// Magic value that opens every reply frame.
pub const REPLY_MAGIC: u32 = 0x6744_6698;

/// Length in bytes of a request frame on the wire.
pub const REQUEST_LEN: usize = 28;

/// Length in bytes of a reply frame on the wire.
pub const REPLY_LEN: usize = 16;

/// Capability flag advertised to the kernel: Flush commands are accepted.
pub const SEND_FLUSH: u64 = 1 << 2;

/// Capability flag advertised to the kernel: Trim commands are accepted.
pub const SEND_TRIM: u64 = 1 << 5;

/// Wire code of a Read command.
pub const CMD_READ: u32 = 0;

/// Wire code of a Write command.
pub const CMD_WRITE: u32 = 1;

/// Wire code of a Disconnect command.
pub const CMD_DISC: u32 = 2;

/// Wire code of a Flush command.
pub const CMD_FLUSH: u32 = 3;

/// Wire code of a Trim command.
pub const CMD_TRIM: u32 = 4;

/// The value of a big-endian 32-bit field over its four wire bytes.
pub open spec fn be32(s: Seq<u8>) -> int
    recommends
        s.len() == 4,
{
    s[0] * 0x100_0000 + s[1] * 0x1_0000 + s[2] * 0x100 + s[3]
}

/// The value of a big-endian 64-bit field over its eight wire bytes.
pub open spec fn be64(s: Seq<u8>) -> int
    recommends
        s.len() == 8,
{
    be32(s.subrange(0, 4)) * 0x1_0000_0000 + be32(s.subrange(4, 8))
}

/// Each wire byte of a big-endian 32-bit field is determined by the field's
/// value: the digits of its base-256 decomposition.
proof fn lemma_be32_digits(s: Seq<u8>)
    requires
        s.len() == 4,
    ensures
        s[0] == be32(s) / 0x100_0000,
        s[1] == (be32(s) / 0x1_0000) % 0x100,
        s[2] == (be32(s) / 0x100) % 0x100,
        s[3] == be32(s) % 0x100,
{
    let v = be32(s);
    let q3 = s[0] * 0x1_0000 + s[1] * 0x100 + s[2];
    let q2 = s[0] * 0x100 + s[1];
    vstd::arithmetic::div_mod::lemma_fundamental_div_mod_converse(v, 0x100, q3, s[3] as int);
    vstd::arithmetic::div_mod::lemma_fundamental_div_mod_converse(q3, 0x100, q2, s[2] as int);
    vstd::arithmetic::div_mod::lemma_fundamental_div_mod_converse(
        q2,
        0x100,
        s[0] as int,
        s[1] as int,
    );
    vstd::arithmetic::div_mod::lemma_div_denominator(v, 0x100, 0x100);
    vstd::arithmetic::div_mod::lemma_div_denominator(v, 0x1_0000, 0x100);
}

/// Law: the big-endian encoding of a 32-bit value is unique — two 4-byte
/// fields with the same value are the same bytes.
pub proof fn lemma_be32_injective(a: Seq<u8>, b: Seq<u8>)
    requires
        a.len() == 4,
        b.len() == 4,
        be32(a) == be32(b),
    ensures
        a == b,
{
    lemma_be32_digits(a);
    lemma_be32_digits(b);
    assert(a =~= b);
}

/// Law: the big-endian encoding of a 64-bit value is unique — two 8-byte
/// fields with the same value are the same bytes.
pub proof fn lemma_be64_injective(a: Seq<u8>, b: Seq<u8>)
    requires
        a.len() == 8,
        b.len() == 8,
        be64(a) == be64(b),
    ensures
        a == b,
{
    let ahi = a.subrange(0, 4);
    let alo = a.subrange(4, 8);
    let bhi = b.subrange(0, 4);
    let blo = b.subrange(4, 8);
    vstd::arithmetic::div_mod::lemma_fundamental_div_mod_converse(
        be64(a),
        0x1_0000_0000,
        be32(ahi),
        be32(alo),
    );
    vstd::arithmetic::div_mod::lemma_fundamental_div_mod_converse(
        be64(b),
        0x1_0000_0000,
        be32(bhi),
        be32(blo),
    );
    lemma_be32_injective(ahi, bhi);
    lemma_be32_injective(alo, blo);
    assert(a =~= b);
}

/// Reads the big-endian 32-bit field starting at `i`.
fn read_be32(bytes: &Vec<u8>, i: usize) -> (r: u32)
    requires
        i + 4 <= bytes@.len(),
    ensures
        r == be32(bytes@.subrange(i as int, i + 4)),
{
    let n: usize = bytes.len();
    assert(i + 4 <= n);
    let r: u32 = (bytes[i] as u32) * 0x100_0000 + (bytes[i + 1] as u32) * 0x1_0000 + (bytes[i + 2]
        as u32) * 0x100 + (bytes[i + 3] as u32);
    proof {
        let s = bytes@.subrange(i as int, i + 4);
        assert(s[0] == bytes@[i as int]);
        assert(s[1] == bytes@[i + 1]);
        assert(s[2] == bytes@[i + 2]);
        assert(s[3] == bytes@[i + 3]);
    }
    r
}

/// Reads the big-endian 64-bit field starting at `i`.
fn read_be64(bytes: &Vec<u8>, i: usize) -> (r: u64)
    requires
        i + 8 <= bytes@.len(),
    ensures
        r == be64(bytes@.subrange(i as int, i + 8)),
{
    let n: usize = bytes.len();
    assert(i + 8 <= n);
    let hi = read_be32(bytes, i);
    let lo = read_be32(bytes, i + 4);
    let r: u64 = (hi as u64) * 0x1_0000_0000 + (lo as u64);
    proof {
        let s = bytes@.subrange(i as int, i + 8);
        assert(s.subrange(0, 4) =~= bytes@.subrange(i as int, i + 4));
        assert(s.subrange(4, 8) =~= bytes@.subrange(i + 4, i + 8));
    }
    r
}

/// Appends the big-endian encoding of a 32-bit value.
fn push_be32(out: &mut Vec<u8>, v: u32)
    ensures
        final(out)@.len() == old(out)@.len() + 4,
        final(out)@.subrange(0, old(out)@.len() as int) == old(out)@,
        be32(final(out)@.subrange(old(out)@.len() as int, final(out)@.len() as int)) == v,
{
    proof {
        assert(v / 0x100_0000 < 0x100) by (bit_vector);
        assert((v / 0x100_0000) * 0x100_0000 + ((v / 0x1_0000) % 0x100) * 0x1_0000 + ((v / 0x100)
            % 0x100) * 0x100 + (v % 0x100) == v) by (bit_vector);
    }
    let ghost base = out@;
    out.push((v / 0x100_0000) as u8);
    out.push(((v / 0x1_0000) % 0x100) as u8);
    out.push(((v / 0x100) % 0x100) as u8);
    out.push((v % 0x100) as u8);
    proof {
        assert(out@.subrange(0, base.len() as int) =~= base);
        let s = out@.subrange(base.len() as int, out@.len() as int);
        assert(s[0] == v / 0x100_0000);
        assert(s[1] == (v / 0x1_0000) % 0x100);
        assert(s[2] == (v / 0x100) % 0x100);
        assert(s[3] == v % 0x100);
    }
}

/// Appends the big-endian encoding of a 64-bit value.
fn push_be64(out: &mut Vec<u8>, v: u64)
    ensures
        final(out)@.len() == old(out)@.len() + 8,
        final(out)@.subrange(0, old(out)@.len() as int) == old(out)@,
        be64(final(out)@.subrange(old(out)@.len() as int, final(out)@.len() as int)) == v,
{
    proof {
        assert(v / 0x1_0000_0000 < 0x1_0000_0000) by (bit_vector);
        assert(v % 0x1_0000_0000 < 0x1_0000_0000) by (bit_vector);
        assert((v / 0x1_0000_0000) * 0x1_0000_0000 + (v % 0x1_0000_0000) == v) by (bit_vector);
    }
    let ghost base = out@;
    push_be32(out, (v / 0x1_0000_0000) as u32);
    let ghost mid = out@;
    push_be32(out, (v % 0x1_0000_0000) as u32);
    proof {
        assert(out@.subrange(0, base.len() as int) =~= base);
        let s = out@.subrange(base.len() as int, out@.len() as int);
        assert(s.subrange(0, 4) =~= mid.subrange(base.len() as int, mid.len() as int));
        assert(s.subrange(4, 8) =~= out@.subrange(mid.len() as int, out@.len() as int));
    }
}

/// One of the closed set of NBD commands a request can carry.
#[derive(Clone, Copy, Debug, PartialEq, Eq, Structural)]
pub enum Command {
    /// Fill a byte range from the device and return it.
    Read,
    /// Store a byte range on the device.
    Write,
    /// Detach the device; the request stream is about to end.
    Disconnect,
    /// Commit any cached data.
    Flush,
    /// Discard a byte range.
    Trim,
    /// Any wire code outside the known set; a fatal protocol violation.
    Unknown,
}

/// The command a wire code denotes.
pub open spec fn command_of(kind: u32) -> Command {
    if kind == CMD_READ {
        Command::Read
    } else if kind == CMD_WRITE {
        Command::Write
    } else if kind == CMD_DISC {
        Command::Disconnect
    } else if kind == CMD_FLUSH {
        Command::Flush
    } else if kind == CMD_TRIM {
        Command::Trim
    } else {
        Command::Unknown
    }
}

/// A request frame, with every field decoded to host order.
#[derive(Clone, Copy, Debug, PartialEq, Eq, Structural)]
pub struct Request {
    /// Decoded magic field; valid exactly when it equals [`REQUEST_MAGIC`].
    pub magic: u32,
    /// Decoded command code.
    pub kind: u32,
    /// Opaque token the kernel uses to correlate the reply; echoed verbatim.
    pub handle: u64,
    /// Byte offset into the logical volume.
    pub from: u64,
    /// Byte count the command applies to.
    pub len: u32,
}

impl Request {
    /// Decodes a request from the `REQUEST_LEN` wire bytes of a frame.
    pub fn from_bytes(frame: &Vec<u8>) -> (r: Request)
        requires
            frame@.len() == REQUEST_LEN,
        ensures
            r.magic == be32(frame@.subrange(0, 4)),
            r.kind == be32(frame@.subrange(4, 8)),
            r.handle == be64(frame@.subrange(8, 16)),
            r.from == be64(frame@.subrange(16, 24)),
            r.len == be32(frame@.subrange(24, 28)),
    {
        Request {
            magic: read_be32(frame, 0),
            kind: read_be32(frame, 4),
            handle: read_be64(frame, 8),
            from: read_be64(frame, 16),
            len: read_be32(frame, 24),
        }
    }

    /// True exactly when the frame opened with the request magic.
    pub fn is_magic_valid(&self) -> (r: bool)
        ensures
            r == (self.magic == REQUEST_MAGIC),
    {
        self.magic == REQUEST_MAGIC
    }

    /// Builds the reply paired to this request: reply magic, no error yet,
    /// and the request's handle echoed verbatim.
    pub fn new_reply_for_request(&self) -> (r: Reply)
        ensures
            r.magic == REPLY_MAGIC,
            r.error == 0,
            r.handle == self.handle,
    {
        Reply { magic: REPLY_MAGIC, error: 0, handle: self.handle }
    }

    /// The command this request carries.
    pub fn command(&self) -> (c: Command)
        ensures
            c == command_of(self.kind),
    {
        if self.kind == CMD_READ {
            Command::Read
        } else if self.kind == CMD_WRITE {
            Command::Write
        } else if self.kind == CMD_DISC {
            Command::Disconnect
        } else if self.kind == CMD_FLUSH {
            Command::Flush
        } else if self.kind == CMD_TRIM {
            Command::Trim
        } else {
            Command::Unknown
        }
    }

    /// The byte offset this request addresses.
    pub fn offset(&self) -> (r: u64)
        ensures
            r == self.from,
    {
        self.from
    }

    /// The byte count this request covers.
    pub fn len(&self) -> (r: u32)
        ensures
            r == self.len,
    {
        self.len
    }
}

/// A reply frame, with every field held in host order until serialization.
#[derive(Clone, Copy, Debug, PartialEq, Eq, Structural)]
pub struct Reply {
    /// Reply magic; always [`REPLY_MAGIC`] for a reply built from a request.
    pub magic: u32,
    /// Errno reported to the kernel; zero means success.
    pub error: u32,
    /// Handle copied from the paired request.
    pub handle: u64,
}

impl Reply {
    /// Records the errno to report; the handle and magic are untouched.
    pub fn set_errno(&mut self, errno: i32)
        ensures
            final(self).error == errno as u32,
            final(self).magic == old(self).magic,
            final(self).handle == old(self).handle,
    {
        self.error = #[verifier::truncate] (errno as u32);
    }

    /// Serializes this reply to its `REPLY_LEN` wire bytes, big-endian.
    pub fn to_bytes(&self) -> (out: Vec<u8>)
        ensures
            out@.len() == REPLY_LEN,
            be32(out@.subrange(0, 4)) == self.magic,
            be32(out@.subrange(4, 8)) == self.error,
            be64(out@.subrange(8, 16)) == self.handle,
    {
        let mut out: Vec<u8> = Vec::new();
        push_be32(&mut out, self.magic);
        let ghost after_magic = out@;
        push_be32(&mut out, self.error);
        let ghost after_error = out@;
        push_be64(&mut out, self.handle);
        proof {
            assert(out@.subrange(0, 4) =~= after_magic.subrange(0, 4));
            assert(out@.subrange(4, 8) =~= after_error.subrange(4, 8));
        }
        out
    }
}

} // verus!

