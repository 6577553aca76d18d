use crate::cursor::{le_value, read_bytes, read_string, read_u16, read_u48, window};
use crate::error::MftError;
use crate::geometry::ENTRY_SIZE;
use vstd::prelude::*;

verus! {

/// Offset and length of the signature at the start of an entry.
pub const FILE_SIGNATURE_OFFSET: u64 = 0;
pub const FILE_SIGNATURE_SIZE: usize = 4;

/// Offsets of the update sequence array's position and length (two bytes each).
pub const UPDATE_SEQUENCE_OFFSET_FIELD: u64 = 4;
pub const UPDATE_SEQUENCE_COUNT_FIELD: u64 = 6;

/// Offset and width of the record number.
pub const FILE_RECORD_NUMBER_OFFSET: u64 = 44;
pub const FILE_RECORD_NUMBER_SIZE: u64 = 6;

/// End of the header fields that decoding reads.
pub const HEADER_END: u64 = 50;

/// Stride of the sectors that the update sequence array protects.
pub const FIXUP_STRIDE: usize = 512;

/// The in-use marker `FILE` as characters.
pub open spec fn file_marker() -> Seq<char> {
    seq!['F', 'I', 'L', 'E']
}

/// Whether `b` starts with the bytes of `FILE`.
pub open spec fn has_file_signature(b: Seq<u8>) -> bool {
    &&& b.len() >= 4
    &&& b[0] == 0x46u8
    &&& b[1] == 0x49u8
    &&& b[2] == 0x4cu8
    &&& b[3] == 0x45u8
}

/// Position of the update sequence array within the entry.
pub open spec fn usa_offset(b: Seq<u8>) -> nat {
    le_value(window(b, UPDATE_SEQUENCE_OFFSET_FIELD as int, 2))
}

/// Number of two-byte slots in the update sequence array: the sequence
/// number followed by one saved pair per sector.
pub open spec fn usa_count(b: Seq<u8>) -> nat {
    le_value(window(b, UPDATE_SEQUENCE_COUNT_FIELD as int, 2))
}

/// Whether the last two bytes of sector `k` (counted from 1) carry the
/// update sequence number.
pub open spec fn sector_matches(b: Seq<u8>, k: int) -> bool {
    &&& b[k * FIXUP_STRIDE as int - 2] == b[usa_offset(b) as int]
    &&& b[k * FIXUP_STRIDE as int - 1] == b[usa_offset(b) + 1int]
}

/// Whether the update sequence array is absent (a count of zero), or lies in
/// the block, covers each of its sectors exactly, and agrees with each.
pub open spec fn fixups_valid(b: Seq<u8>) -> bool {
    usa_count(b) == 0 || {
        &&& usa_offset(b) + 2 * usa_count(b) <= b.len()
        &&& (usa_count(b) - 1) * FIXUP_STRIDE == b.len()
        &&& forall|k: int| 1 <= k < usa_count(b) ==> #[trigger] sector_matches(b, k)
    }
}

/// The record number that `b` holds, or the reason it cannot be decoded.
pub open spec fn entry_outcome(b: Seq<u8>) -> Result<u64, MftError> {
    if b.len() < FILE_SIGNATURE_SIZE {
        Err(MftError::FieldDecodeError)
    } else if !has_file_signature(b) {
        Err(MftError::InvalidSignature)
    } else if b.len() < HEADER_END {
        Err(MftError::FieldDecodeError)
    } else if !fixups_valid(b) {
        Err(MftError::FixupMismatch)
    } else {
        Ok(le_value(window(b, FILE_RECORD_NUMBER_OFFSET as int, FILE_RECORD_NUMBER_SIZE as int)) as u64)
    }
}

/// One decoded table entry.
///
/// Only the signature and the record number are decoded; the other fields
/// are `None` until something fills them in.
#[derive(Debug, PartialEq, Eq)]
pub struct MftEntry {
    pub signature: String,
    pub record_number: u64,
    pub file_name: Option<String>,
    pub file_size: Option<u64>,
    pub creation_time: Option<String>,
}

impl MftEntry {
    /// Whether `self` is what decoding a block yields for `record_number`.
    pub open spec fn decoded_as(self, record_number: u64) -> bool {
        &&& self.signature@ == file_marker()
        &&& self.record_number == record_number
        &&& self.file_name.is_none()
        &&& self.file_size.is_none()
        &&& self.creation_time.is_none()
    }

    /// Decodes one entry block.
    ///
    /// Succeeds exactly when the block starts with `FILE`, holds the header
    /// fields, and its update sequence array is valid; the record number is
    /// the 48-bit little-endian value at offset 44.
    pub fn parse(entry_data: &[u8]) -> (r: Result<MftEntry, MftError>)
        ensures
            match r {
                Ok(e) => entry_outcome(entry_data@) == Ok::<u64, MftError>(e.record_number)
                    && e.decoded_as(e.record_number),
                Err(err) => entry_outcome(entry_data@) == Err::<u64, MftError>(err),
            },
            has_file_signature(entry_data@) && entry_data@.len() >= HEADER_END && fixups_valid(
                entry_data@,
            ) ==> r is Ok && r->Ok_0.record_number == le_value(
                window(
                    entry_data@,
                    FILE_RECORD_NUMBER_OFFSET as int,
                    FILE_RECORD_NUMBER_SIZE as int,
                ),
            ),
            entry_data@.len() >= FILE_SIGNATURE_SIZE && !has_file_signature(entry_data@) ==> r
                == Err::<MftEntry, MftError>(MftError::InvalidSignature),
    {
        let signature = match read_string(entry_data, FILE_SIGNATURE_OFFSET, FILE_SIGNATURE_SIZE) {
            Ok(s) => s,
            Err(_) => return Err(MftError::FieldDecodeError),
        };
        if !(entry_data[0] == 0x46u8 && entry_data[1] == 0x49u8 && entry_data[2] == 0x4cu8
            && entry_data[3] == 0x45u8) {
            return Err(MftError::InvalidSignature);
        }
        proof {
            let w = window(entry_data@, 0, 4);
            assert(w[0] == 0x46u8 && w[1] == 0x49u8 && w[2] == 0x4cu8 && w[3] == 0x45u8);
            assert(crate::cursor::is_ascii(w));
            assert(crate::cursor::ascii_chars(w) =~= file_marker());
        }
        let record_number = match read_u48(entry_data, FILE_RECORD_NUMBER_OFFSET) {
            Ok(n) => n,
            Err(_) => return Err(MftError::FieldDecodeError),
        };
        if !check_fixups(entry_data) {
            return Err(MftError::FixupMismatch);
        }
        Ok(MftEntry {
            signature,
            record_number,
            file_name: None,
            file_size: None,
            creation_time: None,
        })
    }
}

/// Checks the update sequence array of a block against its sectors.
fn check_fixups(b: &[u8]) -> (r: bool)
    requires
        b@.len() >= HEADER_END,
    ensures
        r == fixups_valid(b@),
{
    let off = match read_u16(b, UPDATE_SEQUENCE_OFFSET_FIELD) {
        Ok(x) => x as usize,
        Err(_) => return false,
    };
    let count = match read_u16(b, UPDATE_SEQUENCE_COUNT_FIELD) {
        Ok(x) => x as usize,
        Err(_) => return false,
    };
    if count == 0 {
        return true;
    }
    if off + 2 * count > b.len() {
        return false;
    }
    if (count - 1) * FIXUP_STRIDE != b.len() {
        return false;
    }
    let blen = b.len();
    let mut k: usize = 1;
    while k < count
        invariant
            blen == b@.len(),
            1 <= k <= count,
            count == usa_count(b@),
            off == usa_offset(b@),
            off + 2 * count <= b@.len(),
            (count - 1) * FIXUP_STRIDE == b@.len(),
            forall|j: int| 1 <= j < k ==> #[trigger] sector_matches(b@, j),
        decreases count - k,
    {
        assert(k * FIXUP_STRIDE <= (count - 1) * FIXUP_STRIDE) by (nonlinear_arith)
            requires
                k < count,
        ;
        let end = k * FIXUP_STRIDE;
        if b[end - 2] != b[off] || b[end - 1] != b[off + 1] {
            assert(!sector_matches(b@, k as int));
            return false;
        }
        k += 1;
    }
    true
}

/// The `i`-th fixed-size entry block of a table held in memory.
pub open spec fn table_block(data: Seq<u8>, i: int) -> Seq<u8> {
    window(data, i * ENTRY_SIZE as int, ENTRY_SIZE as int)
}

/// Number of whole entry blocks in a table held in memory.
pub open spec fn table_len(data: Seq<u8>) -> int {
    data.len() as int / ENTRY_SIZE as int
}

/// Record numbers of the blocks among the first `n` of a table held in
/// memory that decode, in block order; blocks that fail are left out.
pub open spec fn decodable(data: Seq<u8>, n: int) -> Seq<u64>
    decreases n,
{
    if n <= 0 {
        Seq::empty()
    } else {
        match entry_outcome(table_block(data, n - 1)) {
            Ok(k) => decodable(data, n - 1).push(k),
            Err(_) => decodable(data, n - 1),
        }
    }
}

/// Decodes every entry of a table held in memory, skipping those that fail.
pub struct MftParser;

impl MftParser {
    pub fn new() -> (r: MftParser) {
        MftParser
    }

    /// Decodes each whole entry block of `mft_data` in order; a trailing
    /// partial block is ignored. A block that does not decode is skipped and
    /// decoding goes on with the next one, so the call always succeeds.
    pub fn parse_mft_entries(&self, mft_data: Vec<u8>) -> (r: Result<Vec<MftEntry>, MftError>)
        ensures
            r is Ok,
            r->Ok_0@.map_values(|e: MftEntry| e.record_number) == decodable(
                mft_data@,
                table_len(mft_data@),
            ),
            forall|i: int|
                0 <= i < r->Ok_0@.len() ==> #[trigger] r->Ok_0@[i].decoded_as(r->Ok_0@[i].record_number),
    {
        let mut entries: Vec<MftEntry> = Vec::new();
        let mut offset: usize = 0;
        let ghost mut seen: int = 0;
        let size = ENTRY_SIZE as usize;
        while size <= mft_data.len() - offset
            invariant
                size == ENTRY_SIZE,
                0 <= seen,
                offset == seen * ENTRY_SIZE,
                offset <= mft_data@.len(),
                entries@.map_values(|e: MftEntry| e.record_number) == decodable(mft_data@, seen),
                forall|i: int|
                    0 <= i < entries@.len() ==> #[trigger] entries@[i].decoded_as(
                        entries@[i].record_number,
                    ),
            decreases mft_data@.len() - offset,
        {
            let block = match read_bytes(mft_data.as_slice(), offset as u64, size) {
                Ok(b) => b,
                Err(e) => return Err(e),
            };
            assert(block@ == table_block(mft_data@, seen));
            let ghost before = entries@;
            match MftEntry::parse(block.as_slice()) {
                Ok(entry) => {
                    entries.push(entry);
                    assert(entries@.map_values(|e: MftEntry| e.record_number) =~= before.map_values(
                        |e: MftEntry| e.record_number,
                    ).push(entries@[before.len() as int].record_number));
                },
                Err(_) => {},
            }
            offset += size;
            proof {
                seen = seen + 1;
            }
        }
        assert(seen == table_len(mft_data@));
        Ok(entries)
    }
}

} // verus!
