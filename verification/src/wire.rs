//! Big-endian integers on the wire, read and written through `byteorder`.
use byteorder::{BigEndian, ByteOrder};
use vstd::prelude::*;

verus! {

/// The value of four bytes read as a big-endian `u32`.
pub open spec fn be_u32(b0: u8, b1: u8, b2: u8, b3: u8) -> u32 {
    ((b0 as u32) << 24u32) | ((b1 as u32) << 16u32) | ((b2 as u32) << 8u32) | (b3 as u32)
}

/// The value of the first four bytes of `s` read as a big-endian `u32`.
pub open spec fn be_u32_at(s: Seq<u8>, i: int) -> u32 {
    be_u32(s[i], s[i + 1], s[i + 2], s[i + 3])
}

/// The four bytes of `n`, most significant first.
pub open spec fn u32_be_bytes(n: u32) -> Seq<u8> {
    seq![
        ((n >> 24u32) & 0xffu32) as u8,
        ((n >> 16u32) & 0xffu32) as u8,
        ((n >> 8u32) & 0xffu32) as u8,
        (n & 0xffu32) as u8,
    ]
}

/// Writing a `u32` and reading it back gives the same value.
pub proof fn lemma_be_u32_roundtrip(n: u32)
    ensures
        be_u32_at(u32_be_bytes(n), 0) == n,
        u32_be_bytes(n).len() == 4,
{
    let b0 = ((n >> 24u32) & 0xffu32) as u8;
    let b1 = ((n >> 16u32) & 0xffu32) as u8;
    let b2 = ((n >> 8u32) & 0xffu32) as u8;
    let b3 = (n & 0xffu32) as u8;
    assert(((((n >> 24u32) & 0xffu32) as u8) as u32) << 24u32 | ((((n >> 16u32) & 0xffu32) as u8) as u32) << 16u32
        | ((((n >> 8u32) & 0xffu32) as u8) as u32) << 8u32 | (((n & 0xffu32) as u8) as u32) == n) by (bit_vector);
    assert(u32_be_bytes(n)[0] == b0);
    assert(u32_be_bytes(n)[1] == b1);
    assert(u32_be_bytes(n)[2] == b2);
    assert(u32_be_bytes(n)[3] == b3);
}

/// Reading four bytes and writing the value back gives the same bytes.
pub proof fn lemma_be_bytes_roundtrip(b0: u8, b1: u8, b2: u8, b3: u8)
    ensures
        u32_be_bytes(be_u32(b0, b1, b2, b3)) == seq![b0, b1, b2, b3],
{
    let x = be_u32(b0, b1, b2, b3);
    assert(((((x >> 24u32) & 0xffu32) as u8) == b0) && ((((x >> 16u32) & 0xffu32) as u8) == b1)
        && ((((x >> 8u32) & 0xffu32) as u8) == b2) && (((x & 0xffu32) as u8) == b3)) by (bit_vector)
        requires
            x == ((b0 as u32) << 24u32) | ((b1 as u32) << 16u32) | ((b2 as u32) << 8u32) | (b3 as u32),
    ;
    assert(u32_be_bytes(x) =~= seq![b0, b1, b2, b3]);
}

/// Four bytes that spell `n` are read back as `n`.
pub proof fn lemma_be_u32_at_bytes(s: Seq<u8>, k: int, n: u32)
    requires
        0 <= k,
        k + 4 <= s.len(),
        s.subrange(k, k + 4) == u32_be_bytes(n),
    ensures
        be_u32_at(s, k) == n,
{
    lemma_be_u32_roundtrip(n);
    assert(s[k] == s.subrange(k, k + 4)[0]);
    assert(s[k + 1] == s.subrange(k, k + 4)[1]);
    assert(s[k + 2] == s.subrange(k, k + 4)[2]);
    assert(s[k + 3] == s.subrange(k, k + 4)[3]);
}

/// The value of four big-endian bytes: the first weighs 2^24, the second
/// 2^16, the third 2^8 and the last 1.
pub proof fn lemma_be_u32_value(b0: u8, b1: u8, b2: u8, b3: u8)
    ensures
        be_u32(b0, b1, b2, b3) == b0 * 16777216 + b1 * 65536 + b2 * 256 + b3,
{
    assert(((b0 as u32) << 24u32) | ((b1 as u32) << 16u32) | ((b2 as u32) << 8u32) | (b3 as u32)
        == b0 * 16777216 + b1 * 65536 + b2 * 256 + b3) by (bit_vector);
}

/// The four bytes of `n` are its base-256 digits, most significant first.
pub proof fn lemma_u32_be_bytes_value(n: u32)
    ensures
        u32_be_bytes(n).len() == 4,
        u32_be_bytes(n)[0] == n / 16777216,
        u32_be_bytes(n)[1] == (n / 65536) % 256,
        u32_be_bytes(n)[2] == (n / 256) % 256,
        u32_be_bytes(n)[3] == n % 256,
{
    assert((((n >> 24u32) & 0xffu32) as u8) == n / 16777216) by (bit_vector);
    assert((((n >> 16u32) & 0xffu32) as u8) == (n / 65536) % 256) by (bit_vector);
    assert((((n >> 8u32) & 0xffu32) as u8) == (n / 256) % 256) by (bit_vector);
    assert(((n & 0xffu32) as u8) == n % 256) by (bit_vector);
}

/// `byteorder::BigEndian::read_u32` on four bytes: the bytes read most
/// significant first.
#[verifier::external_body]
pub(crate) fn read_u32_be(bytes: [u8; 4]) -> (n: u32)
    ensures
        n == be_u32(bytes[0], bytes[1], bytes[2], bytes[3]),
{
    BigEndian::read_u32(&bytes)
}

/// `byteorder::BigEndian::write_u32` into a four-byte buffer: the bytes of
/// `n`, most significant first.
#[verifier::external_body]
pub(crate) fn write_u32_be(n: u32) -> (bytes: [u8; 4])
    ensures
        bytes@ == u32_be_bytes(n),
{
    let mut bytes = [0u8; 4];
    BigEndian::write_u32(&mut bytes, n);
    bytes
}

/// Appends the big-endian bytes of `n` to `out`.
pub fn push_u32_be(out: &mut Vec<u8>, n: u32)
    ensures
        final(out)@ == old(out)@ + u32_be_bytes(n),
{
    let bytes = write_u32_be(n);
    out.push(bytes[0]);
    out.push(bytes[1]);
    out.push(bytes[2]);
    out.push(bytes[3]);
    assert(out@ =~= old(out)@ + u32_be_bytes(n));
}


/// Why a payload could not be read.
#[derive(Clone, Copy, Debug, PartialEq, Eq)]
pub enum RadioError {
    /// The payload ended before the packet's last field.
    UnexpectedEnd,
    /// No packet of the group has this id.
    UnknownPacket(u8),
}

/// Reads fields from the front of a payload.
pub struct ByteReader<'a> {
    data: &'a [u8],
    pos: usize,
}

impl<'a> ByteReader<'a> {
    /// A reader never stands past the end of its payload.
    #[verifier::type_invariant]
    spec fn inv(&self) -> bool {
        self.pos <= self.data@.len()
    }

    /// The payload being read.
    pub closed spec fn input(&self) -> Seq<u8> {
        self.data@
    }

    /// How many bytes were read.
    pub closed spec fn position(&self) -> int {
        self.pos as int
    }

    /// A reader at the start of `data`.
    pub fn new(data: &'a [u8]) -> (r: ByteReader<'a>)
        ensures
            r.input() == data@,
            r.position() == 0,
    {
        ByteReader { data, pos: 0 }
    }

    /// Reads one byte.
    pub fn read_u8(&mut self) -> (r: Result<u8, RadioError>)
        ensures
            final(self).input() == old(self).input(),
            final(self).position() <= final(self).input().len(),
            old(self).position() + 1 <= old(self).input().len() ==> r == Ok::<u8, RadioError>(
                old(self).input()[old(self).position()],
            ) && final(self).position() == old(self).position() + 1,
            old(self).position() + 1 > old(self).input().len() ==> r == Err::<u8, RadioError>(
                RadioError::UnexpectedEnd,
            ),
    {
        proof {
            use_type_invariant(&*self);
        }
        if self.pos < self.data.len() {
            let b = self.data[self.pos];
            self.pos = self.pos + 1;
            Ok(b)
        } else {
            Err(RadioError::UnexpectedEnd)
        }
    }

    /// Reads a big-endian `u32`.
    pub fn read_u32(&mut self) -> (r: Result<u32, RadioError>)
        ensures
            final(self).input() == old(self).input(),
            final(self).position() <= final(self).input().len(),
            old(self).position() + 4 <= old(self).input().len() ==> r == Ok::<u32, RadioError>(
                be_u32_at(old(self).input(), old(self).position()),
            ) && final(self).position() == old(self).position() + 4,
            old(self).position() + 4 > old(self).input().len() ==> r == Err::<u32, RadioError>(
                RadioError::UnexpectedEnd,
            ),
    {
        proof {
            use_type_invariant(&*self);
        }
        if self.data.len() - self.pos >= 4 {
            let p = self.pos;
            let n = read_u32_be([self.data[p], self.data[p + 1], self.data[p + 2], self.data[p + 3]]);
            self.pos = p + 4;
            Ok(n)
        } else {
            Err(RadioError::UnexpectedEnd)
        }
    }
}
} // verus!
