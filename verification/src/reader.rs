//! Reading through virtual addresses: strings, records and arrays of records.

use vstd::prelude::*;

use crate::bytes;
use crate::bytes::Cursor;
use crate::errors::{BinReadError, Il2CppBinaryError, ReadFailure};
use crate::object_file;
use crate::object_file::{addr_in_bss, try_vaddr_conv, ObjectFile, Section, Segment};

verus! {

/// Whether a NUL byte stands at or after `offset`.
pub open spec fn has_nul(data: Seq<u8>, offset: int) -> bool {
    exists|k: int| offset <= k < data.len() && data[k] == 0
}

/// Whether `len` is the distance from `offset` to the first NUL byte at or after it.
pub open spec fn is_strlen(data: Seq<u8>, offset: int, len: int) -> bool {
    &&& 0 <= len
    &&& offset + len < data.len()
    &&& data[offset + len] == 0
    &&& forall|k: int| offset <= k < offset + len ==> data[k] != 0
}

/// The bytes from `offset` up to the first NUL byte.
pub open spec fn c_string(data: Seq<u8>, offset: int) -> Seq<u8> {
    data.subrange(offset, offset + choose|len: int| is_strlen(data, offset, len))
}

/// There is one distance to the first NUL byte.
pub proof fn lemma_strlen_unique(data: Seq<u8>, offset: int, a: int, b: int)
    requires
        is_strlen(data, offset, a),
        is_strlen(data, offset, b),
    ensures
        a == b,
{
}

/// A string runs up to the first NUL byte and holds none.
pub proof fn law_c_string(data: Seq<u8>, offset: int)
    requires
        0 <= offset,
        has_nul(data, offset),
    ensures
        is_strlen(data, offset, c_string(data, offset).len() as int),
        c_string(data, offset) == data.subrange(offset, offset + c_string(data, offset).len()),
        forall|k: int| 0 <= k < c_string(data, offset).len() ==> c_string(data, offset)[k] != 0,
{
    let end = choose|k: int| offset <= k < data.len() && data[k] == 0;
    lemma_strlen_exists(data, offset, end);
    let len = choose|len: int| is_strlen(data, offset, len);
    assert(is_strlen(data, offset, len));
    assert(c_string(data, offset).len() == len);
    assert forall|k: int| 0 <= k < len implies c_string(data, offset)[k] != 0 by {
        assert(data[offset + k] != 0);
    }
}

proof fn lemma_strlen_exists(data: Seq<u8>, offset: int, end: int)
    requires
        0 <= offset <= end < data.len(),
        data[end] == 0,
    ensures
        exists|len: int| is_strlen(data, offset, len),
    decreases end,
{
    if exists|k: int| offset <= k < end && data[k] == 0 {
        let k = choose|k: int| offset <= k < end && data[k] == 0;
        lemma_strlen_exists(data, offset, k);
    } else {
        assert(is_strlen(data, offset, end - offset));
    }
}

/// The number of bytes from `offset` up to the first NUL byte.
pub fn strlen(data: &[u8], offset: usize) -> (len: usize)
    requires
        has_nul(data@, offset as int),
    ensures
        is_strlen(data@, offset as int, len as int),
{
    let ghost end: int = choose|k: int| offset <= k < data@.len() && data@[k] == 0;
    let mut len: usize = 0;
    assert(data.len() > end);
    while data[offset + len] != 0
        invariant
            offset + len <= end < data@.len() <= usize::MAX,
            data@[end] == 0,
            forall|k: int| offset <= k < offset + len ==> data@[k] != 0,
        decreases end - len,
    {
        len += 1;
    }
    len
}

/// Calls `core::str::from_utf8`: it succeeds exactly on UTF-8, and gives the string that the
/// bytes encode.
#[verifier::external_body]
pub(crate) fn utf8_str(v: &[u8]) -> (r: Option<&str>)
    ensures
        r is Some <==> vstd::utf8::valid_utf8(v@),
        r matches Some(s) ==> s@ == vstd::utf8::decode_utf8(v@),
{
    core::str::from_utf8(v).ok()
}

/// The NUL-terminated string at `offset`.
pub fn get_str(data: &[u8], offset: usize) -> (r: Result<&str, Il2CppBinaryError>)
    requires
        has_nul(data@, offset as int),
    ensures
        match r {
            Ok(s) => {
                &&& vstd::utf8::valid_utf8(c_string(data@, offset as int))
                &&& s@ == vstd::utf8::decode_utf8(c_string(data@, offset as int))
            },
            Err(e) => {
                &&& !vstd::utf8::valid_utf8(c_string(data@, offset as int))
                &&& e == Il2CppBinaryError::Utf8
            },
        },
{
    let len: usize = strlen(data, offset);
    proof {
        lemma_strlen_unique(
            data@,
            offset as int,
            len as int,
            choose|n: int| is_strlen(data@, offset as int, n),
        );
    }
    assert(data.len() >= offset + len);
    match utf8_str(&data[offset..offset + len]) {
        Some(s) => Ok(s),
        None => Err(Il2CppBinaryError::Utf8),
    }
}

/// An object file as it is read: its segments, its `.bss` section and its bytes.
pub struct Image {
    pub segments: Seq<Segment>,
    pub bss: Option<Section>,
    pub data: Seq<u8>,
}

/// A record of fixed layout.
pub trait Record: Sized {
    /// The record at offset `pos`, and the offset behind it.
    spec fn decode(data: Seq<u8>, pos: int) -> Result<(Self, int), BinReadError>;

    /// Reads the record at the cursor.
    fn read_le(cur: &mut Cursor) -> (r: Result<Self, BinReadError>)
        ensures
            final(cur).data == old(cur).data,
            match r {
                Ok(v) => Self::decode(old(cur).data@, old(cur).pos as int) == Ok::<
                    (Self, int),
                    BinReadError,
                >((v, final(cur).pos as int)),
                Err(e) => Self::decode(old(cur).data@, old(cur).pos as int) == Err::<
                    (Self, int),
                    BinReadError,
                >(e),
            },
    ;
}

impl Record for u32 {
    open spec fn decode(data: Seq<u8>, pos: int) -> Result<(u32, int), BinReadError> {
        if bytes::fits(data, pos, 4) {
            Ok((bytes::u32_at(data, pos), pos + 4))
        } else {
            Err(BinReadError::Io)
        }
    }

    fn read_le(cur: &mut Cursor) -> (r: Result<u32, BinReadError>) {
        match cur.read_u32() {
            Ok(v) => Ok(v),
            Err(_) => Err(BinReadError::Io),
        }
    }
}

impl Record for u64 {
    open spec fn decode(data: Seq<u8>, pos: int) -> Result<(u64, int), BinReadError> {
        if bytes::fits(data, pos, 8) {
            Ok((bytes::u64_at(data, pos), pos + 8))
        } else {
            Err(BinReadError::Io)
        }
    }

    fn read_le(cur: &mut Cursor) -> (r: Result<u64, BinReadError>) {
        match cur.read_u64() {
            Ok(v) => Ok(v),
            Err(_) => Err(BinReadError::Io),
        }
    }
}

/// `n` records, one behind the other from offset `pos` on, and the offset behind them.
pub open spec fn records<T: Record>(data: Seq<u8>, pos: int, n: nat) -> Result<
    (Seq<T>, int),
    BinReadError,
>
    decreases n,
{
    if n == 0 {
        Ok((Seq::empty(), pos))
    } else {
        match records::<T>(data, pos, (n - 1) as nat) {
            Ok((front, end)) => match T::decode(data, end) {
                Ok((last, after)) => Ok((front.push(last), after)),
                Err(e) => Err(e),
            },
            Err(e) => Err(e),
        }
    }
}

/// The array of `n` records at virtual address `vaddr`. The address of an empty array does not
/// matter.
pub open spec fn array_at<T: Record>(img: Image, vaddr: u64, n: nat) -> Result<
    Seq<T>,
    ReadFailure,
> {
    if n == 0 {
        Ok(Seq::empty())
    } else {
        match object_file::locate(img.segments, vaddr) {
            Ok(pos) => match records::<T>(img.data, pos as int, n) {
                Ok((values, _)) => Ok(values),
                Err(e) => Err(ReadFailure::Error(Il2CppBinaryError::BinRead(e))),
            },
            Err(e) => Err(e),
        }
    }
}

/// An array that could be read is as long as was asked for.
pub proof fn law_array_length<T: Record>(img: Image, vaddr: u64, n: nat)
    requires
        array_at::<T>(img, vaddr, n) is Ok,
    ensures
        array_at::<T>(img, vaddr, n).unwrap().len() == n,
{
    if n > 0 {
        let pos = object_file::locate(img.segments, vaddr).unwrap();
        lemma_records_length::<T>(img.data, pos as int, n);
    }
}

proof fn lemma_records_length<T: Record>(data: Seq<u8>, pos: int, n: nat)
    requires
        records::<T>(data, pos, n) is Ok,
    ensures
        records::<T>(data, pos, n).unwrap().0.len() == n,
    decreases n,
{
    if n > 0 {
        lemma_records_length::<T>(data, pos, (n - 1) as nat);
    }
}

/// The 64-bit numbers of an array stand eight bytes apart, and they can be read exactly if the
/// data holds all of them.
pub proof fn law_array_of_u64(img: Image, vaddr: u64, n: nat, pos: u64)
    requires
        n > 0,
        object_file::locate(img.segments, vaddr) == Ok::<u64, ReadFailure>(pos),
    ensures
        array_at::<u64>(img, vaddr, n) is Ok <==> bytes::fits(img.data, pos as int, 8 * n as int),
        array_at::<u64>(img, vaddr, n) matches Ok(values) ==> forall|i: int|
            0 <= i < n ==> #[trigger] values[i] == bytes::u64_at(img.data, pos + 8 * i),
{
    lemma_records_of_u64(img.data, pos as int, n);
}

proof fn lemma_records_of_u64(data: Seq<u8>, pos: int, n: nat)
    requires
        pos >= 0,
    ensures
        records::<u64>(data, pos, n) is Ok <==> (n == 0 || bytes::fits(data, pos, 8 * n as int)),
        records::<u64>(data, pos, n) matches Ok((values, end)) ==> {
            &&& end == pos + 8 * n
            &&& values.len() == n
            &&& forall|i: int|
                0 <= i < n ==> #[trigger] values[i] == bytes::u64_at(data, pos + 8 * i)
        },
    decreases n,
{
    if n > 0 {
        lemma_records_of_u64(data, pos, (n - 1) as nat);
    }
}

/// The 32-bit numbers of an array stand four bytes apart, and they can be read exactly if the
/// data holds all of them.
pub proof fn law_array_of_u32(img: Image, vaddr: u64, n: nat, pos: u64)
    requires
        n > 0,
        object_file::locate(img.segments, vaddr) == Ok::<u64, ReadFailure>(pos),
    ensures
        array_at::<u32>(img, vaddr, n) is Ok <==> bytes::fits(img.data, pos as int, 4 * n as int),
        array_at::<u32>(img, vaddr, n) matches Ok(values) ==> forall|i: int|
            0 <= i < n ==> #[trigger] values[i] == bytes::u32_at(img.data, pos + 4 * i),
{
    lemma_records_of_u32(img.data, pos as int, n);
}

proof fn lemma_records_of_u32(data: Seq<u8>, pos: int, n: nat)
    requires
        pos >= 0,
    ensures
        records::<u32>(data, pos, n) is Ok <==> (n == 0 || bytes::fits(data, pos, 4 * n as int)),
        records::<u32>(data, pos, n) matches Ok((values, end)) ==> {
            &&& end == pos + 4 * n
            &&& values.len() == n
            &&& forall|i: int|
                0 <= i < n ==> #[trigger] values[i] == bytes::u32_at(data, pos + 4 * i)
        },
    decreases n,
{
    if n > 0 {
        lemma_records_of_u32(data, pos, (n - 1) as nat);
    }
}

/// Where the address of an empty array points to does not matter.
pub proof fn law_empty_array_has_no_place<T: Record>(img: Image, a: u64, b: u64)
    ensures
        array_at::<T>(img, a, 0) == array_at::<T>(img, b, 0),
        array_at::<T>(img, a, 0) == Ok::<Seq<T>, ReadFailure>(Seq::empty()),
{
}

/// The failure to read a field behind the end of the data.
pub open spec fn io_failure() -> ReadFailure {
    ReadFailure::Error(Il2CppBinaryError::Io)
}

/// What a counted array at offset `pos` says of itself: a 32-bit count, four bytes of padding
/// and a 64-bit address. Of an empty array only the count is read.
pub open spec fn array_header(data: Seq<u8>, pos: int) -> Result<(u32, u64), ReadFailure> {
    if !bytes::fits(data, pos, 4) {
        Err(io_failure())
    } else if bytes::u32_at(data, pos) == 0 {
        if pos + 16 <= u64::MAX {
            Ok((0, 0))
        } else {
            Err(io_failure())
        }
    } else if !bytes::fits(data, pos, 16) {
        Err(io_failure())
    } else {
        Ok((bytes::u32_at(data, pos), bytes::u64_at(data, pos + 8)))
    }
}

/// The array that a header speaks of.
pub open spec fn headed_array<T: Record>(
    img: Image,
    header: Result<(u32, u64), ReadFailure>,
) -> Result<Seq<T>, ReadFailure> {
    match header {
        Ok((count, vaddr)) => array_at::<T>(img, vaddr, count as nat),
        Err(e) => Err(e),
    }
}

/// The counted array at offset `pos`.
pub open spec fn counted_array<T: Record>(img: Image, pos: int) -> Result<Seq<T>, ReadFailure> {
    headed_array::<T>(img, array_header(img.data, pos))
}

/// The array of numbers that a header speaks of, which is all zeros where it lies in `.bss`.
pub open spec fn headed_nullable_array(
    img: Image,
    header: Result<(u32, u64), ReadFailure>,
) -> Result<Seq<u64>, ReadFailure> {
    match header {
        Ok((count, vaddr)) => if count > 0 && object_file::in_bss(img.bss, vaddr) {
            Ok(Seq::new(count as nat, |i: int| 0u64))
        } else {
            array_at::<u64>(img, vaddr, count as nat)
        },
        Err(e) => Err(e),
    }
}

/// The counted array of numbers at offset `pos`, which is all zeros where it lies in `.bss`.
pub open spec fn nullable_array(img: Image, pos: int) -> Result<Seq<u64>, ReadFailure> {
    headed_nullable_array(img, array_header(img.data, pos))
}

/// A counted array that could be read is as long as its count says.
pub proof fn law_counted_array_length<T: Record>(img: Image, pos: int)
    requires
        counted_array::<T>(img, pos) is Ok,
    ensures
        counted_array::<T>(img, pos).unwrap().len() == bytes::u32_at(img.data, pos),
{
    let (count, vaddr) = array_header(img.data, pos).unwrap();
    law_array_length::<T>(img, vaddr, count as nat);
}

/// An array that may lie in `.bss` is as long as its count says, and all zeros there.
pub proof fn law_nullable_array(img: Image, pos: int)
    requires
        nullable_array(img, pos) is Ok,
    ensures
        nullable_array(img, pos).unwrap().len() == bytes::u32_at(img.data, pos),
        bytes::u32_at(img.data, pos) > 0 && object_file::in_bss(
            img.bss,
            bytes::u64_at(img.data, pos + 8),
        ) ==> forall|i: int|
            0 <= i < bytes::u32_at(img.data, pos) ==> #[trigger] nullable_array(
                img,
                pos,
            ).unwrap()[i] == 0,
{
    let (count, vaddr) = array_header(img.data, pos).unwrap();
    if !(count > 0 && object_file::in_bss(img.bss, vaddr)) {
        law_array_length::<u64>(img, vaddr, count as nat);
    }
}

/// The string at virtual address `vaddr`.
pub open spec fn string_at(img: Image, vaddr: u64) -> Result<Seq<char>, ReadFailure> {
    match object_file::locate(img.segments, vaddr) {
        Ok(pos) => {
            let offset = pos as int;
            if !has_nul(img.data, offset) {
                Err(ReadFailure::Malformed)
            } else if !vstd::utf8::valid_utf8(c_string(img.data, offset)) {
                Err(ReadFailure::Error(Il2CppBinaryError::Utf8))
            } else {
                Ok(vstd::utf8::decode_utf8(c_string(img.data, offset)))
            }
        },
        Err(e) => Err(e),
    }
}

/// An object file and the bytes that are read through it.
pub struct ObjectReader<'a> {
    pub object: &'a ObjectFile,
    pub data: &'a [u8],
}

impl<'a> View for ObjectReader<'a> {
    type V = Image;

    open spec fn view(&self) -> Image {
        Image { segments: self.object.segments@, bss: self.object.bss, data: self.data@ }
    }
}

/// Looks for a NUL byte at or after `offset`.
fn find_nul(data: &[u8], offset: usize) -> (r: bool)
    ensures
        r == has_nul(data@, offset as int),
{
    let len: usize = data.len();
    let mut i: usize = offset;
    while i < len
        invariant
            len == data@.len(),
            offset <= i,
            forall|k: int| offset <= k < i && k < len ==> data@[k] != 0,
        decreases len - i,
    {
        if data[i] == 0 {
            return true;
        }
        i += 1;
    }
    false
}

impl<'a> ObjectReader<'a> {
    pub fn new(object: &'a ObjectFile, data: &'a [u8]) -> (r: ObjectReader<'a>)
        ensures
            r.object == object,
            r.data == data,
    {
        ObjectReader { object, data }
    }

    /// Puts a cursor at a virtual address.
    pub fn make_cur(&self, vaddr: u64) -> (r: Result<Cursor<'a>, ReadFailure>)
        ensures
            match r {
                Ok(cur) => {
                    &&& object_file::locate(self@.segments, vaddr) == Ok::<u64, ReadFailure>(cur.pos)
                    &&& cur.data == self.data
                },
                Err(e) => object_file::locate(self@.segments, vaddr) == Err::<u64, ReadFailure>(e),
            },
    {
        match try_vaddr_conv(self.object, vaddr) {
            Ok(pos) => Ok(Cursor { data: self.data, pos }),
            Err(e) => Err(e),
        }
    }

    /// The string at a virtual address.
    pub fn get_str(&self, vaddr: u64) -> (r: Result<&'a str, ReadFailure>)
        ensures
            match r {
                Ok(s) => string_at(self@, vaddr) == Ok::<Seq<char>, ReadFailure>(s@),
                Err(e) => string_at(self@, vaddr) == Err::<Seq<char>, ReadFailure>(e),
            },
    {
        let pos: u64 = match try_vaddr_conv(self.object, vaddr) {
            Ok(pos) => pos,
            Err(e) => return Err(e),
        };
        if pos >= self.data.len() as u64 {
            return Err(ReadFailure::Malformed);
        }
        let offset: usize = pos as usize;
        if !find_nul(self.data, offset) {
            return Err(ReadFailure::Malformed);
        }
        match get_str(self.data, offset) {
            Ok(s) => Ok(s),
            Err(e) => Err(ReadFailure::Error(e)),
        }
    }
}

/// Reads an array of `len` records.
pub fn read_arr<T: Record>(reader: &ObjectReader, vaddr: u64, len: usize) -> (r: Result<
    Vec<T>,
    ReadFailure,
>)
    ensures
        match r {
            Ok(values) => array_at::<T>(reader@, vaddr, len as nat) == Ok::<
                Seq<T>,
                ReadFailure,
            >(values@),
            Err(e) => array_at::<T>(reader@, vaddr, len as nat) == Err::<Seq<T>, ReadFailure>(e),
        },
{
    if len == 0 {
        return Ok(Vec::new());
    }
    let mut cur = match reader.make_cur(vaddr) {
        Ok(cur) => cur,
        Err(e) => return Err(e),
    };
    let ghost pos: int = cur.pos as int;
    let mut values: Vec<T> = Vec::with_capacity(len);
    let mut i: usize = 0;
    while i < len
        invariant
            i <= len,
            len > 0,
            cur.data == reader.data,
            object_file::locate(reader@.segments, vaddr) == Ok::<u64, ReadFailure>(pos as u64),
            0 <= pos <= u64::MAX,
            records::<T>(reader@.data, pos, i as nat) == Ok::<(Seq<T>, int), BinReadError>(
                (values@, cur.pos as int),
            ),
        decreases len - i,
    {
        match T::read_le(&mut cur) {
            Ok(value) => values.push(value),
            Err(e) => {
                proof {
                    lemma_records_stop::<T>(reader@.data, pos, (i + 1) as nat, len as nat);
                }
                return Err(ReadFailure::Error(Il2CppBinaryError::BinRead(e)));
            },
        }
        i += 1;
    }
    Ok(values)
}

/// What stops a list of records stops every longer one.
proof fn lemma_records_stop<T: Record>(data: Seq<u8>, pos: int, n: nat, m: nat)
    requires
        n <= m,
        records::<T>(data, pos, n) is Err,
    ensures
        records::<T>(data, pos, m) == records::<T>(data, pos, n),
    decreases m - n,
{
    if n < m {
        lemma_records_stop::<T>(data, pos, n, (m - 1) as nat);
    }
}

/// Reads the count and the address of a counted array.
fn read_array_header(cur: &mut Cursor) -> (r: Result<(u32, u64), ReadFailure>)
    ensures
        final(cur).data == old(cur).data,
        r == array_header(old(cur).data@, old(cur).pos as int),
        r is Ok ==> final(cur).pos == old(cur).pos + 16,
{
    let count: u32 = match cur.read_u32() {
        Ok(count) => count,
        Err(e) => return Err(ReadFailure::Error(e)),
    };
    if count == 0 {
        return match cur.seek_forward(12) {
            Ok(_) => Ok((0, 0)),
            Err(e) => Err(ReadFailure::Error(e)),
        };
    }
    match cur.read_u32() {
        Ok(_) => {},
        Err(e) => return Err(ReadFailure::Error(e)),
    }
    match cur.read_u64() {
        Ok(addr) => Ok((count, addr)),
        Err(e) => Err(ReadFailure::Error(e)),
    }
}

/// Reads a counted array whose header stands at the cursor. The cursor is left behind the header
/// once that could be read, whether or not the array can be.
pub fn read_len_arr<T: Record>(reader: &ObjectReader, cur: &mut Cursor) -> (r: Result<
    Vec<T>,
    ReadFailure,
>)
    ensures
        final(cur).data == old(cur).data,
        ({
            let header = array_header(old(cur).data@, old(cur).pos as int);
            match r {
                Ok(values) => headed_array::<T>(reader@, header) == Ok::<Seq<T>, ReadFailure>(
                    values@,
                ),
                Err(e) => headed_array::<T>(reader@, header) == Err::<Seq<T>, ReadFailure>(e),
            }
        }),
        array_header(old(cur).data@, old(cur).pos as int) is Ok ==> final(cur).pos == old(cur).pos
            + 16,
{
    match read_array_header(cur) {
        Ok((count, addr)) => read_arr(reader, addr, count as usize),
        Err(e) => Err(e),
    }
}

/// Reads a counted array of numbers that may lie in `.bss` and whose header stands at the cursor.
/// The cursor is left behind the header once that could be read, whether or not the array can be.
pub fn read_len_arr_nullable(reader: &ObjectReader, cur: &mut Cursor) -> (r: Result<
    Vec<u64>,
    ReadFailure,
>)
    ensures
        final(cur).data == old(cur).data,
        ({
            let header = array_header(old(cur).data@, old(cur).pos as int);
            match r {
                Ok(values) => headed_nullable_array(reader@, header) == Ok::<
                    Seq<u64>,
                    ReadFailure,
                >(values@),
                Err(e) => headed_nullable_array(reader@, header) == Err::<
                    Seq<u64>,
                    ReadFailure,
                >(e),
            }
        }),
        array_header(old(cur).data@, old(cur).pos as int) is Ok ==> final(cur).pos == old(cur).pos
            + 16,
{
    let (count, addr): (u32, u64) = match read_array_header(cur) {
        Ok(header) => header,
        Err(e) => return Err(e),
    };
    if count > 0 && addr_in_bss(reader.object, addr) {
        let mut values: Vec<u64> = Vec::with_capacity(count as usize);
        let mut i: u32 = 0;
        while i < count
            invariant
                i <= count,
                values@ =~= Seq::new(i as nat, |k: int| 0u64),
            decreases count - i,
        {
            values.push(0);
            i += 1;
        }
        Ok(values)
    } else {
        read_arr(reader, addr, count as usize)
    }
}

// ---------------------------------------------------------------------------------------------
// What strings and arrays are made of
// ---------------------------------------------------------------------------------------------

/// The distance to the first NUL byte leads to a NUL byte, and to none before it.
pub proof fn law_strlen(data: Seq<u8>, offset: int, len: int)
    requires
        0 <= offset,
    ensures
        is_strlen(data, offset, len) <==> {
            &&& 0 <= len < data.len() - offset
            &&& data[offset + len] == 0
            &&& forall|k: int| offset <= k < offset + len ==> data[k] != 0
        },
{
}

/// The string at an address is what the bytes up to the first NUL byte encode. It is an error
/// where they are not UTF-8, and malformed where there is no NUL byte.
pub proof fn law_string_at(img: Image, vaddr: u64, pos: u64, len: int)
    requires
        object_file::locate(img.segments, vaddr) == Ok::<u64, ReadFailure>(pos),
        0 <= len,
        forall|k: int| pos <= k < pos + len && k < img.data.len() ==> #[trigger] img.data[k] != 0,
    ensures
        pos + len < img.data.len() && img.data[pos + len] == 0 ==> {
            let text = img.data.subrange(pos as int, pos + len);
            string_at(img, vaddr) == if vstd::utf8::valid_utf8(text) {
                Ok::<Seq<char>, ReadFailure>(vstd::utf8::decode_utf8(text))
            } else {
                Err::<Seq<char>, ReadFailure>(ReadFailure::Error(Il2CppBinaryError::Utf8))
            }
        },
        pos + len >= img.data.len() ==> string_at(img, vaddr) == Err::<Seq<char>, ReadFailure>(
            ReadFailure::Malformed,
        ),
{
    if pos + len < img.data.len() && img.data[pos + len] == 0 {
        assert(is_strlen(img.data, pos as int, len));
        assert(has_nul(img.data, pos as int)) by {
            assert(img.data[pos + len] == 0);
        }
        law_c_string(img.data, pos as int);
        lemma_strlen_unique(
            img.data,
            pos as int,
            len,
            c_string(img.data, pos as int).len() as int,
        );
        lemma_strlen_unique(
            img.data,
            pos as int,
            len,
            choose|n: int| is_strlen(img.data, pos as int, n),
        );
    }
    if pos + len >= img.data.len() {
        assert(!has_nul(img.data, pos as int));
    }
}

/// What stops the address of a string or an array from being located stops both.
pub proof fn law_unlocated<T: Record>(img: Image, vaddr: u64, n: nat)
    requires
        object_file::locate(img.segments, vaddr) is Err,
    ensures
        string_at(img, vaddr) is Err,
        string_at(img, vaddr)->Err_0 == object_file::locate(img.segments, vaddr)->Err_0,
        n > 0 ==> array_at::<T>(img, vaddr, n) is Err,
        n > 0 ==> array_at::<T>(img, vaddr, n)->Err_0 == object_file::locate(
            img.segments,
            vaddr,
        )->Err_0,
{
}

/// Whether records stand one behind the other: `at[i]` is where the i-th of them begins, and
/// where the one before it ends.
pub open spec fn stand_in_line<T: Record>(data: Seq<u8>, at: Seq<int>, values: Seq<T>) -> bool {
    &&& at.len() == values.len() + 1
    &&& forall|i: int|
        #![trigger values[i]]
        0 <= i < values.len() ==> T::decode(data, at[i]) == Ok::<(T, int), BinReadError>(
            (values[i], at[i + 1]),
        )
}

/// Records that stand one behind the other at an address are the array there.
pub proof fn law_array_in_line<T: Record>(
    img: Image,
    vaddr: u64,
    pos: u64,
    at: Seq<int>,
    values: Seq<T>,
)
    requires
        object_file::locate(img.segments, vaddr) == Ok::<u64, ReadFailure>(pos),
        stand_in_line(img.data, at, values),
        at[0] == pos,
    ensures
        array_at::<T>(img, vaddr, values.len()) == Ok::<Seq<T>, ReadFailure>(values),
{
    lemma_records_in_line(img.data, at, values);
    if values.len() == 0 {
        assert(values =~= Seq::empty());
    }
}

proof fn lemma_records_in_line<T: Record>(data: Seq<u8>, at: Seq<int>, values: Seq<T>)
    requires
        stand_in_line(data, at, values),
    ensures
        records::<T>(data, at[0], values.len()) == Ok::<(Seq<T>, int), BinReadError>(
            (values, at.last()),
        ),
    decreases values.len(),
{
    if values.len() > 0 {
        let front = values.drop_last();
        let stops = at.drop_last();
        assert forall|i: int|
            #![trigger front[i]]
            0 <= i < front.len() implies T::decode(data, stops[i]) == Ok::<(T, int), BinReadError>(
            (front[i], stops[i + 1]),
        ) by {
            assert(values[i] == front[i]);
        }
        lemma_records_in_line(data, stops, front);
        assert(values[values.len() - 1] == values.last());
        assert(front.push(values.last()) =~= values);
    } else {
        assert(values =~= Seq::empty());
    }
}

/// The records of an array stand one behind the other.
pub proof fn law_array_stands_in_line<T: Record>(img: Image, vaddr: u64, pos: u64, n: nat) -> (at:
    Seq<int>)
    requires
        object_file::locate(img.segments, vaddr) == Ok::<u64, ReadFailure>(pos),
        n > 0,
        array_at::<T>(img, vaddr, n) is Ok,
    ensures
        at[0] == pos,
        array_at::<T>(img, vaddr, n).unwrap().len() == n,
        stand_in_line(img.data, at, array_at::<T>(img, vaddr, n).unwrap()),
{
    lemma_records_stand_in_line::<T>(img.data, pos as int, n)
}

proof fn lemma_records_stand_in_line<T: Record>(data: Seq<u8>, pos: int, n: nat) -> (at: Seq<int>)
    requires
        records::<T>(data, pos, n) is Ok,
    ensures
        at[0] == pos,
        at.last() == records::<T>(data, pos, n).unwrap().1,
        records::<T>(data, pos, n).unwrap().0.len() == n,
        stand_in_line(data, at, records::<T>(data, pos, n).unwrap().0),
    decreases n,
{
    if n == 0 {
        seq![pos]
    } else {
        let m = (n - 1) as nat;
        let stops = lemma_records_stand_in_line::<T>(data, pos, m);
        let (front, _) = records::<T>(data, pos, m).unwrap();
        let (values, end) = records::<T>(data, pos, n).unwrap();
        let at = stops.push(end);
        assert forall|i: int|
            #![trigger values[i]]
            0 <= i < values.len() implies T::decode(data, at[i]) == Ok::<(T, int), BinReadError>(
            (values[i], at[i + 1]),
        ) by {
            if i < m {
                assert(values[i] == front[i]);
            }
        }
        at
    }
}

/// An array fails with the first of its records that cannot be decoded.
pub proof fn law_array_fails_with_its_record<T: Record>(
    img: Image,
    vaddr: u64,
    pos: u64,
    at: Seq<int>,
    front: Seq<T>,
    n: nat,
)
    requires
        object_file::locate(img.segments, vaddr) == Ok::<u64, ReadFailure>(pos),
        stand_in_line(img.data, at, front),
        at[0] == pos,
        front.len() < n,
        T::decode(img.data, at.last()) is Err,
    ensures
        array_at::<T>(img, vaddr, n) == Err::<Seq<T>, ReadFailure>(
            ReadFailure::Error(
                Il2CppBinaryError::BinRead(T::decode(img.data, at.last())->Err_0),
            ),
        ),
{
    lemma_records_in_line(img.data, at, front);
    let k = front.len();
    assert(records::<T>(img.data, pos as int, k + 1) is Err);
    lemma_records_stop::<T>(img.data, pos as int, k + 1, n);
}

/// A counted array that is not empty has its count in the first four bytes and its address eight
/// bytes on; one that is empty has only a count. The four bytes behind the count do not matter.
pub proof fn law_counted_array<T: Record>(img: Image, pos: int)
    requires
        0 <= pos,
    ensures
        pos + 4 > img.data.len() ==> counted_array::<T>(img, pos) == Err::<Seq<T>, ReadFailure>(
            ReadFailure::Error(Il2CppBinaryError::Io),
        ),
        pos + 4 <= img.data.len() && pos + 16 < 0x1_0000_0000_0000_0000 && bytes::u32_at(
            img.data,
            pos,
        ) == 0 ==> counted_array::<T>(img, pos) == Ok::<Seq<T>, ReadFailure>(Seq::empty()),
        pos + 4 <= img.data.len() < pos + 16 && bytes::u32_at(img.data, pos) != 0
            ==> counted_array::<T>(img, pos) == Err::<Seq<T>, ReadFailure>(
            ReadFailure::Error(Il2CppBinaryError::Io),
        ),
        pos + 16 <= img.data.len() && bytes::u32_at(img.data, pos) != 0 ==> counted_array::<T>(
            img,
            pos,
        ) == array_at::<T>(
            img,
            bytes::u64_at(img.data, pos + 8),
            bytes::u32_at(img.data, pos) as nat,
        ),
{
}

/// A counted array that may lie in `.bss` is like any other where it does not.
pub proof fn law_nullable_array_outside_bss(img: Image, pos: int)
    requires
        0 <= pos,
    ensures
        pos + 16 > img.data.len() || bytes::u32_at(img.data, pos) == 0 || !object_file::in_bss(
            img.bss,
            bytes::u64_at(img.data, pos + 8),
        ) ==> nullable_array(img, pos) == counted_array::<u64>(img, pos),
        pos + 16 <= img.data.len() && bytes::u32_at(img.data, pos) != 0 && object_file::in_bss(
            img.bss,
            bytes::u64_at(img.data, pos + 8),
        ) ==> nullable_array(img, pos) is Ok,
{
}

/// Numbers are decoded exactly where their bytes are there, and end where the next one begins.
pub proof fn law_decoded_numbers(data: Seq<u8>, pos: int)
    requires
        0 <= pos,
    ensures
        u32::decode(data, pos) == if pos + 4 <= data.len() {
            Ok::<(u32, int), BinReadError>((bytes::u32_at(data, pos), pos + 4))
        } else {
            Err::<(u32, int), BinReadError>(BinReadError::Io)
        },
        u64::decode(data, pos) == if pos + 8 <= data.len() {
            Ok::<(u64, int), BinReadError>((bytes::u64_at(data, pos), pos + 8))
        } else {
            Err::<(u64, int), BinReadError>(BinReadError::Io)
        },
{
}

} // verus!
