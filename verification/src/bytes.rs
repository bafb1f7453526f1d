//! Little-endian numbers in a byte buffer, and a cursor that reads them one after the other.

use byteorder::{ByteOrder, LittleEndian};
use vstd::prelude::*;

use crate::errors::Il2CppBinaryError;

verus! {

/// The number whose little-endian digits in base 256 are `bytes`.
pub open spec fn le_value(bytes: Seq<u8>) -> nat
    decreases bytes.len(),
{
    if bytes.len() == 0 {
        0
    } else {
        bytes[0] as nat + 256 * le_value(bytes.drop_first())
    }
}

/// The `n` lowest little-endian digits of `v` in base 256.
pub open spec fn le_digits(v: nat, n: nat) -> Seq<u8>
    decreases n,
{
    if n == 0 {
        Seq::empty()
    } else {
        seq![(v % 256) as u8] + le_digits(v / 256, (n - 1) as nat)
    }
}

/// Whether `n` bytes can be read at offset `pos`.
pub open spec fn fits(data: Seq<u8>, pos: int, n: int) -> bool {
    0 <= pos && pos + n <= data.len()
}

/// The 16-bit number at offset `pos`.
pub open spec fn u16_at(data: Seq<u8>, pos: int) -> u16 {
    le_value(data.subrange(pos, pos + 2)) as u16
}

/// The 32-bit number at offset `pos`.
pub open spec fn u32_at(data: Seq<u8>, pos: int) -> u32 {
    le_value(data.subrange(pos, pos + 4)) as u32
}

/// The 64-bit number at offset `pos`.
pub open spec fn u64_at(data: Seq<u8>, pos: int) -> u64 {
    le_value(data.subrange(pos, pos + 8)) as u64
}

/// Bytes are the digits of the number that they hold.
pub proof fn law_digits_of_value(bytes: Seq<u8>)
    ensures
        le_digits(le_value(bytes), bytes.len()) == bytes,
    decreases bytes.len(),
{
    if bytes.len() > 0 {
        let rest = bytes.drop_first();
        law_digits_of_value(rest);
        assert(le_value(bytes) % 256 == bytes[0] as nat);
        assert(le_value(bytes) / 256 == le_value(rest));
        assert(bytes =~= seq![bytes[0]] + rest);
    } else {
        assert(bytes =~= Seq::empty());
    }
}

/// The eight digits of a 64-bit number hold that number.
pub proof fn law_value_of_digits(v: u64)
    ensures
        le_digits(v as nat, 8).len() == 8,
        le_value(le_digits(v as nat, 8)) == v,
{
    assert(vstd::arithmetic::power::pow(256, 8) == 0x1_0000_0000_0000_0000) by {
        reveal_with_fuel(vstd::arithmetic::power::pow, 9);
    }
    lemma_value_of_digits(v as nat, 8);
}

proof fn lemma_value_of_digits(v: nat, n: nat)
    requires
        v < vstd::arithmetic::power::pow(256, n),
    ensures
        le_digits(v, n).len() == n,
        le_value(le_digits(v, n)) == v,
    decreases n,
{
    reveal(vstd::arithmetic::power::pow);
    if n > 0 {
        let m = (n - 1) as nat;
        lemma_value_of_digits(v / 256, m);
        assert(le_digits(v, n).drop_first() =~= le_digits(v / 256, m));
    }
}

/// The number that one, two, four or eight bytes hold fits an unsigned type of as many bytes.
pub proof fn law_value_fits_width(bytes: Seq<u8>)
    ensures
        bytes.len() == 1 ==> le_value(bytes) <= u8::MAX,
        bytes.len() == 2 ==> le_value(bytes) <= u16::MAX,
        bytes.len() == 4 ==> le_value(bytes) <= u32::MAX,
        bytes.len() == 8 ==> le_value(bytes) <= u64::MAX,
{
    reveal_with_fuel(le_value, 9);
}

/// Calls `byteorder::LittleEndian::read_u16`: the number whose little-endian bytes are the
/// first two of `buf`.
#[verifier::external_body]
fn le_u16(buf: &[u8]) -> (v: u16)
    requires
        buf@.len() >= 2,
    ensures
        v as nat == le_value(buf@.take(2)),
{
    LittleEndian::read_u16(buf)
}

/// Calls `byteorder::LittleEndian::read_u32`: the number whose little-endian bytes are the
/// first four of `buf`.
#[verifier::external_body]
fn le_u32(buf: &[u8]) -> (v: u32)
    requires
        buf@.len() >= 4,
    ensures
        v as nat == le_value(buf@.take(4)),
{
    LittleEndian::read_u32(buf)
}

/// Calls `byteorder::LittleEndian::read_u64`: the number whose little-endian bytes are the
/// first eight of `buf`.
#[verifier::external_body]
fn le_u64(buf: &[u8]) -> (v: u64)
    requires
        buf@.len() >= 8,
    ensures
        v as nat == le_value(buf@.take(8)),
{
    LittleEndian::read_u64(buf)
}

/// Calls `byteorder::LittleEndian::write_u64` on a fresh buffer: the eight little-endian
/// bytes of `v`.
#[verifier::external_body]
pub(crate) fn le_bytes(v: u64) -> (bytes: [u8; 8])
    ensures
        le_value(bytes@) == v as nat,
{
    let mut buf = [0u8; 8];
    LittleEndian::write_u64(&mut buf, v);
    buf
}

/// Reads the 64-bit number at offset `pos` of `data`.
pub fn read_u64_at(data: &[u8], pos: usize) -> (v: u64)
    requires
        fits(data@, pos as int, 8),
    ensures
        v == u64_at(data@, pos as int),
{
    assert(data.len() >= pos + 8);
    let part: &[u8] = &data[pos..pos + 8];
    assert(part@.take(8) =~= data@.subrange(pos as int, pos + 8));
    le_u64(part)
}

/// The number whose two's complement has the bits of `v`.
pub open spec fn unsigned_word(v: i64) -> u64 {
    if v >= 0 {
        v as u64
    } else {
        (v + 0x1_0000_0000_0000_0000) as u64
    }
}

/// The bits of a signed number.
pub(crate) fn to_unsigned(v: i64) -> (r: u64)
    ensures
        r == unsigned_word(v),
{
    assert(v < 0 ==> v as u64 == v + 0x1_0000_0000_0000_0000) by (bit_vector);
    #[verifier::truncate]
    let r: u64 = v as u64;
    r
}

/// `data` with the 64-bit number `v` at offset `pos`. Where the number reaches past the end the
/// data grows, and what it leaves open before the number is filled with zeros.
pub open spec fn written(data: Seq<u8>, pos: int, v: u64) -> Seq<u8> {
    Seq::new(
        if pos + 8 > data.len() {
            (pos + 8) as nat
        } else {
            data.len()
        },
        |i: int|
            if pos <= i < pos + 8 {
                le_digits(v as nat, 8)[i - pos]
            } else if i < data.len() {
                data[i]
            } else {
                0u8
            },
    )
}

/// A number reads back where it was written.
pub proof fn law_written_reads_back(data: Seq<u8>, pos: int, v: u64)
    requires
        0 <= pos,
    ensures
        fits(written(data, pos, v), pos, 8),
        u64_at(written(data, pos, v), pos) == v,
{
    law_value_of_digits(v);
    assert(written(data, pos, v).subrange(pos, pos + 8) =~= le_digits(v as nat, 8));
}

/// A number leaves alone what stands before and after it.
pub proof fn law_written_keeps_rest(data: Seq<u8>, pos: int, v: u64, i: int)
    requires
        0 <= pos,
        0 <= i < data.len(),
        i < pos || pos + 8 <= i,
    ensures
        written(data, pos, v).len() >= data.len(),
        written(data, pos, v)[i] == data[i],
{
}

/// Writes the 64-bit number `v` at offset `pos`.
pub(crate) fn write_u64_at(data: &mut Vec<u8>, pos: usize, v: u64)
    requires
        pos + 8 <= usize::MAX,
    ensures
        final(data)@ == written(old(data)@, pos as int, v),
{
    let ghost before = data@;
    let bytes: [u8; 8] = le_bytes(v);
    proof {
        law_digits_of_value(bytes@);
    }
    if data.len() < pos + 8 {
        data.resize(pos + 8, 0);
    }
    let ghost padded = data@;
    let mut i: usize = 0;
    while i < 8
        invariant
            i <= 8,
            pos + 8 <= usize::MAX,
            bytes@ == le_digits(v as nat, 8),
            bytes@.len() == 8,
            data@.len() == padded.len(),
            padded.len() >= pos + 8,
            forall|j: int|
                0 <= j < padded.len() ==> data@[j] == if pos <= j < pos + i {
                    bytes@[j - pos]
                } else {
                    padded[j]
                },
        decreases 8 - i,
    {
        data.set(pos + i, bytes[i]);
        i += 1;
    }
    assert(data@ =~= written(before, pos as int, v));
}

/// A position in a byte buffer. The position may lie past the end of the data; nothing can be
/// read there.
pub struct Cursor<'a> {
    pub data: &'a [u8],
    pub pos: u64,
}

impl<'a> Cursor<'a> {
    /// Takes the next `n` bytes off, if there are so many.
    fn take(&mut self, n: usize) -> (r: Option<&'a [u8]>)
        requires
            n > 0,
        ensures
            final(self).data == old(self).data,
            match r {
                Some(part) => {
                    &&& fits(old(self).data@, old(self).pos as int, n as int)
                    &&& part@ == old(self).data@.subrange(
                        old(self).pos as int,
                        old(self).pos + n,
                    )
                    &&& final(self).pos == old(self).pos + n
                },
                None => !fits(old(self).data@, old(self).pos as int, n as int),
            },
    {
        let len: usize = self.data.len();
        if self.pos >= len as u64 {
            return None;
        }
        let start: usize = self.pos as usize;
        if n > len - start {
            return None;
        }
        let end: usize = start + n;
        self.pos = end as u64;
        Some(&self.data[start..end])
    }

    /// Reads a byte.
    pub fn read_u8(&mut self) -> (r: Result<u8, Il2CppBinaryError>)
        ensures
            final(self).data == old(self).data,
            match r {
                Ok(v) => {
                    &&& fits(old(self).data@, old(self).pos as int, 1)
                    &&& v == old(self).data@[old(self).pos as int]
                    &&& final(self).pos == old(self).pos + 1
                },
                Err(e) => !fits(old(self).data@, old(self).pos as int, 1) && e
                    == Il2CppBinaryError::Io,
            },
    {
        match self.take(1) {
            Some(part) => Ok(part[0]),
            None => Err(Il2CppBinaryError::Io),
        }
    }

    /// Reads a 16-bit number.
    pub fn read_u16(&mut self) -> (r: Result<u16, Il2CppBinaryError>)
        ensures
            final(self).data == old(self).data,
            match r {
                Ok(v) => {
                    &&& fits(old(self).data@, old(self).pos as int, 2)
                    &&& v == u16_at(old(self).data@, old(self).pos as int)
                    &&& final(self).pos == old(self).pos + 2
                },
                Err(e) => !fits(old(self).data@, old(self).pos as int, 2) && e
                    == Il2CppBinaryError::Io,
            },
    {
        match self.take(2) {
            Some(part) => {
                assert(part@.take(2) =~= part@);
                Ok(le_u16(part))
            },
            None => Err(Il2CppBinaryError::Io),
        }
    }

    /// Reads a 32-bit number.
    pub fn read_u32(&mut self) -> (r: Result<u32, Il2CppBinaryError>)
        ensures
            final(self).data == old(self).data,
            match r {
                Ok(v) => {
                    &&& fits(old(self).data@, old(self).pos as int, 4)
                    &&& v == u32_at(old(self).data@, old(self).pos as int)
                    &&& final(self).pos == old(self).pos + 4
                },
                Err(e) => !fits(old(self).data@, old(self).pos as int, 4) && e
                    == Il2CppBinaryError::Io,
            },
    {
        match self.take(4) {
            Some(part) => {
                assert(part@.take(4) =~= part@);
                Ok(le_u32(part))
            },
            None => Err(Il2CppBinaryError::Io),
        }
    }

    /// Reads a 64-bit number.
    pub fn read_u64(&mut self) -> (r: Result<u64, Il2CppBinaryError>)
        ensures
            final(self).data == old(self).data,
            match r {
                Ok(v) => {
                    &&& fits(old(self).data@, old(self).pos as int, 8)
                    &&& v == u64_at(old(self).data@, old(self).pos as int)
                    &&& final(self).pos == old(self).pos + 8
                },
                Err(e) => !fits(old(self).data@, old(self).pos as int, 8) && e
                    == Il2CppBinaryError::Io,
            },
    {
        match self.take(8) {
            Some(part) => {
                assert(part@.take(8) =~= part@);
                Ok(le_u64(part))
            },
            None => Err(Il2CppBinaryError::Io),
        }
    }

    /// Reads past a 128-bit number.
    pub fn skip_u128(&mut self) -> (r: Result<(), Il2CppBinaryError>)
        ensures
            final(self).data == old(self).data,
            match r {
                Ok(_) => {
                    &&& fits(old(self).data@, old(self).pos as int, 16)
                    &&& final(self).pos == old(self).pos + 16
                },
                Err(e) => !fits(old(self).data@, old(self).pos as int, 16) && e
                    == Il2CppBinaryError::Io,
            },
    {
        match self.take(16) {
            Some(_) => Ok(()),
            None => Err(Il2CppBinaryError::Io),
        }
    }

    /// Moves `n` bytes on, whether or not there is data. Fails only where the position would
    /// not fit its type.
    pub fn seek_forward(&mut self, n: u64) -> (r: Result<(), Il2CppBinaryError>)
        ensures
            final(self).data == old(self).data,
            match r {
                Ok(_) => final(self).pos == old(self).pos + n,
                Err(e) => {
                    &&& old(self).pos + n > u64::MAX
                    &&& e == Il2CppBinaryError::Io
                    &&& final(self).pos == old(self).pos
                },
            },
    {
        match self.pos.checked_add(n) {
            Some(pos) => {
                self.pos = pos;
                Ok(())
            },
            None => Err(Il2CppBinaryError::Io),
        }
    }
}

// ---------------------------------------------------------------------------------------------
// What numbers are made of
// ---------------------------------------------------------------------------------------------

/// A 16-bit number has its low byte first.
pub proof fn law_u16_is_positional(data: Seq<u8>, pos: int)
    requires
        0 <= pos,
        pos + 2 <= data.len(),
    ensures
        u16_at(data, pos) == data[pos] + 0x100 * data[pos + 1],
{
    reveal_with_fuel(le_value, 3);
    law_value_fits_width(data.subrange(pos, pos + 2));
}

/// A 32-bit number has its lowest byte first.
pub proof fn law_u32_is_positional(data: Seq<u8>, pos: int)
    requires
        0 <= pos,
        pos + 4 <= data.len(),
    ensures
        u32_at(data, pos) == data[pos] + 0x100 * data[pos + 1] + 0x1_0000 * data[pos + 2]
            + 0x100_0000 * data[pos + 3],
{
    reveal_with_fuel(le_value, 5);
    law_value_fits_width(data.subrange(pos, pos + 4));
}

/// A 64-bit number is made of two 32-bit numbers, the low one first.
pub proof fn law_u64_is_two_halves(data: Seq<u8>, pos: int)
    requires
        0 <= pos,
        pos + 8 <= data.len(),
    ensures
        u64_at(data, pos) == u32_at(data, pos) + 0x1_0000_0000 * u32_at(data, pos + 4),
{
    reveal_with_fuel(le_value, 9);
    law_value_fits_width(data.subrange(pos, pos + 8));
    law_u32_is_positional(data, pos);
    law_u32_is_positional(data, pos + 4);
}

/// Only the bytes of a number matter, not what stands around it.
pub proof fn law_numbers_are_local(a: Seq<u8>, b: Seq<u8>, pos: int, at: int)
    requires
        0 <= pos,
        0 <= at,
        pos + 8 <= a.len(),
        at + 8 <= b.len(),
        a.subrange(pos, pos + 8) == b.subrange(at, at + 8),
    ensures
        u64_at(a, pos) == u64_at(b, at),
        u32_at(a, pos) == u32_at(b, at),
        u16_at(a, pos) == u16_at(b, at),
{
    assert(a.subrange(pos, pos + 4) =~= a.subrange(pos, pos + 8).take(4));
    assert(b.subrange(at, at + 4) =~= b.subrange(at, at + 8).take(4));
    assert(a.subrange(pos, pos + 2) =~= a.subrange(pos, pos + 8).take(2));
    assert(b.subrange(at, at + 2) =~= b.subrange(at, at + 8).take(2));
}

/// The bits of a signed number are those of the number that differs from it by a multiple of
/// `2^64`.
pub proof fn law_unsigned_word(v: i64)
    ensures
        v >= 0 ==> unsigned_word(v) == v,
        v < 0 ==> unsigned_word(v) - v == 0x1_0000_0000_0000_0000,
{
}

/// Data grows only as far as a number reaches past its end, and what is left open before the
/// number is zero.
pub proof fn law_written_grows(data: Seq<u8>, pos: int, v: u64)
    requires
        0 <= pos,
    ensures
        pos + 8 <= data.len() ==> written(data, pos, v).len() == data.len(),
        pos + 8 > data.len() ==> written(data, pos, v).len() == pos + 8,
        forall|i: int| data.len() <= i < pos ==> #[trigger] written(data, pos, v)[i] == 0,
{
}

} // verus!
