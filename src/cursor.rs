use crate::error::MftError;
use vstd::prelude::*;

verus! {

/// The unsigned integer that `b` encodes, least significant byte first.
pub open spec fn le_value(b: Seq<u8>) -> nat
    decreases b.len(),
{
    if b.len() == 0 {
        0
    } else {
        b[0] as nat + 256 * le_value(b.drop_first())
    }
}

/// The bytes `[offset, offset + len)` of `src`.
pub open spec fn window(src: Seq<u8>, offset: int, len: int) -> Seq<u8> {
    src.subrange(offset, offset + len)
}

/// The characters that a run of ASCII bytes stands for, one per byte.
pub open spec fn ascii_chars(b: Seq<u8>) -> Seq<char> {
    b.map_values(|x: u8| x as char)
}

pub open spec fn is_ascii(b: Seq<u8>) -> bool {
    forall|i: int| 0 <= i < b.len() ==> #[trigger] b[i] < 128
}

/// What `String::from_utf8_lossy` makes of a byte sequence.
pub uninterp spec fn utf8_lossy(b: Seq<u8>) -> Seq<char>;

/// Relies on `String::from_utf8_lossy`: the result depends on the bytes alone,
/// and valid UTF-8 (ASCII in particular) is taken over unchanged.
#[verifier::external_body]
fn lossy_string(b: &[u8]) -> (r: String)
    ensures
        r@ == utf8_lossy(b@),
        is_ascii(b@) ==> r@ == ascii_chars(b@),
{
    String::from_utf8_lossy(b).into_owned()
}

/// Relies on `byteorder::LittleEndian::read_u16`: the first two bytes, least
/// significant first.
#[verifier::external_body]
fn le_u16(b: &[u8]) -> (r: u16)
    requires
        b@.len() >= 2,
    ensures
        r as nat == le_value(b@.subrange(0, 2)),
{
    <byteorder::LittleEndian as byteorder::ByteOrder>::read_u16(b)
}

/// Relies on `byteorder::LittleEndian::read_u32`: the first four bytes, least
/// significant first.
#[verifier::external_body]
fn le_u32(b: &[u8]) -> (r: u32)
    requires
        b@.len() >= 4,
    ensures
        r as nat == le_value(b@.subrange(0, 4)),
{
    <byteorder::LittleEndian as byteorder::ByteOrder>::read_u32(b)
}

/// Relies on `byteorder::LittleEndian::read_u48`: the first six bytes, least
/// significant first, in the low 48 bits.
#[verifier::external_body]
fn le_u48(b: &[u8]) -> (r: u64)
    requires
        b@.len() >= 6,
    ensures
        r as nat == le_value(b@.subrange(0, 6)),
{
    <byteorder::LittleEndian as byteorder::ByteOrder>::read_u48(b)
}

/// Relies on `byteorder::LittleEndian::read_u64`: the first eight bytes, least
/// significant first.
#[verifier::external_body]
fn le_u64(b: &[u8]) -> (r: u64)
    requires
        b@.len() >= 8,
    ensures
        r as nat == le_value(b@.subrange(0, 8)),
{
    <byteorder::LittleEndian as byteorder::ByteOrder>::read_u64(b)
}

/// Reads exactly `size` bytes at `offset`, or fails with `TruncatedRead`
/// when the source ends earlier.
pub fn read_bytes(src: &[u8], offset: u64, size: usize) -> (r: Result<Vec<u8>, MftError>)
    ensures
        match r {
            Ok(v) => offset + size <= src@.len() && v@ == window(src@, offset as int, size as int),
            Err(e) => offset + size > src@.len() && e == MftError::TruncatedRead,
        },
{
    let len = src.len();
    if offset > len as u64 {
        return Err(MftError::TruncatedRead);
    }
    let start = offset as usize;
    if size > len - start {
        return Err(MftError::TruncatedRead);
    }
    let mut v: Vec<u8> = Vec::with_capacity(size);
    let mut i: usize = 0;
    while i < size
        invariant
            i <= size,
            start + size <= len,
            len == src@.len(),
            start == offset,
            v@ == src@.subrange(start as int, start + i),
        decreases size - i,
    {
        v.push(src[start + i]);
        i += 1;
        assert(v@ =~= src@.subrange(start as int, start + i));
    }
    Ok(v)
}

/// Reads a little-endian `u16` at `offset`.
pub fn read_u16(src: &[u8], offset: u64) -> (r: Result<u16, MftError>)
    ensures
        match r {
            Ok(x) => offset + 2 <= src@.len() && x as nat == le_value(window(src@, offset as int, 2)),
            Err(e) => offset + 2 > src@.len() && e == MftError::TruncatedRead,
        },
{
    match read_bytes(src, offset, 2) {
        Ok(b) => {
            let x = le_u16(b.as_slice());
            assert(b@.subrange(0, 2) =~= b@);
            Ok(x)
        },
        Err(e) => Err(e),
    }
}

/// Reads a little-endian `u32` at `offset`.
pub fn read_u32(src: &[u8], offset: u64) -> (r: Result<u32, MftError>)
    ensures
        match r {
            Ok(x) => offset + 4 <= src@.len() && x as nat == le_value(window(src@, offset as int, 4)),
            Err(e) => offset + 4 > src@.len() && e == MftError::TruncatedRead,
        },
{
    match read_bytes(src, offset, 4) {
        Ok(b) => {
            let x = le_u32(b.as_slice());
            assert(b@.subrange(0, 4) =~= b@);
            Ok(x)
        },
        Err(e) => Err(e),
    }
}

/// Reads a little-endian 48-bit unsigned integer at `offset`.
pub fn read_u48(src: &[u8], offset: u64) -> (r: Result<u64, MftError>)
    ensures
        match r {
            Ok(x) => offset + 6 <= src@.len() && x as nat == le_value(window(src@, offset as int, 6)),
            Err(e) => offset + 6 > src@.len() && e == MftError::TruncatedRead,
        },
{
    match read_bytes(src, offset, 6) {
        Ok(b) => {
            let x = le_u48(b.as_slice());
            assert(b@.subrange(0, 6) =~= b@);
            Ok(x)
        },
        Err(e) => Err(e),
    }
}

/// Reads a little-endian `u64` at `offset`.
pub fn read_u64(src: &[u8], offset: u64) -> (r: Result<u64, MftError>)
    ensures
        match r {
            Ok(x) => offset + 8 <= src@.len() && x as nat == le_value(window(src@, offset as int, 8)),
            Err(e) => offset + 8 > src@.len() && e == MftError::TruncatedRead,
        },
{
    match read_bytes(src, offset, 8) {
        Ok(b) => {
            let x = le_u64(b.as_slice());
            assert(b@.subrange(0, 8) =~= b@);
            Ok(x)
        },
        Err(e) => Err(e),
    }
}

/// Reads `length` bytes at `offset` as text, replacing invalid UTF-8.
pub fn read_string(src: &[u8], offset: u64, length: usize) -> (r: Result<String, MftError>)
    ensures
        match r {
            Ok(s) => {
                &&& offset + length <= src@.len()
                &&& s@ == utf8_lossy(window(src@, offset as int, length as int))
                &&& is_ascii(window(src@, offset as int, length as int))
                    ==> s@ == ascii_chars(window(src@, offset as int, length as int))
            },
            Err(e) => offset + length > src@.len() && e == MftError::TruncatedRead,
        },
{
    match read_bytes(src, offset, length) {
        Ok(b) => Ok(lossy_string(b.as_slice())),
        Err(e) => Err(e),
    }
}

} // verus!
