use crate::error::MftError;
use crate::mft_parser::MftEntry;
use vstd::prelude::*;

verus! {

/// One record in the shape the store takes. `None` marks a field that was
/// not parsed, as distinct from one parsed as zero or empty.
#[derive(Debug, PartialEq, Eq)]
pub struct DbEntry {
    pub record_number: u64,
    pub file_name: Option<String>,
    pub file_size: Option<u64>,
    pub creation_time: Option<String>,
}

impl DbEntry {
    /// Whether `self` is the record for the decoded entry `e`.
    pub open spec fn structured_from(self, e: MftEntry) -> bool {
        &&& self.record_number == e.record_number
        &&& self.file_name == e.file_name
        &&& self.file_size == e.file_size
        &&& self.creation_time == e.creation_time
    }

    /// The record for a decoded entry.
    pub fn from_mft_entry(entry: MftEntry) -> (r: DbEntry)
        ensures
            r.structured_from(entry),
    {
        DbEntry {
            record_number: entry.record_number,
            file_name: entry.file_name,
            file_size: entry.file_size,
            creation_time: entry.creation_time,
        }
    }
}

/// An ordered batch of records ready to be stored.
#[derive(Debug)]
pub struct StructuredData {
    pub entries: Vec<DbEntry>,
}

impl StructuredData {
    pub fn new() -> (r: StructuredData)
        ensures
            r.entries@.len() == 0,
    {
        StructuredData { entries: Vec::new() }
    }

    /// Whether `self` holds, in order, the records of `mft_entries`.
    pub open spec fn structures(self, mft_entries: Seq<MftEntry>) -> bool {
        &&& self.entries@.len() == mft_entries.len()
        &&& forall|i: int|
            0 <= i < mft_entries.len() ==> #[trigger] self.entries@[i].structured_from(mft_entries[i])
    }

    /// One record per entry, in the same order; never fails.
    pub fn from_mft_entries(mft_entries: Vec<MftEntry>) -> (r: Result<StructuredData, MftError>)
        ensures
            match r {
                Ok(d) => d.structures(mft_entries@),
                Err(_) => false,
            },
    {
        let ghost input = mft_entries@;
        let n = mft_entries.len();
        let mut rest = mft_entries;
        let mut reversed: Vec<DbEntry> = Vec::new();
        while rest.len() > 0
            invariant
                n == input.len(),
                rest@ == input.subrange(0, rest@.len() as int),
                rest@.len() + reversed@.len() == n,
                forall|k: int|
                    0 <= k < reversed@.len() ==> #[trigger] reversed@[k].structured_from(
                        input[n - 1 - k],
                    ),
            decreases rest@.len(),
        {
            let e = rest.pop().unwrap();
            reversed.push(DbEntry::from_mft_entry(e));
            assert(rest@ =~= input.subrange(0, rest@.len() as int));
        }
        let ghost backwards = reversed@;
        let mut structured_data = StructuredData::new();
        while reversed.len() > 0
            invariant
                n == input.len(),
                backwards.len() == n,
                reversed@ == backwards.subrange(0, reversed@.len() as int),
                reversed@.len() + structured_data.entries@.len() == n,
                forall|k: int|
                    0 <= k < n ==> #[trigger] backwards[k].structured_from(input[n - 1 - k]),
                forall|k: int|
                    0 <= k < structured_data.entries@.len() ==> #[trigger] structured_data.entries@[k].structured_from(
                        input[k],
                    ),
            decreases reversed@.len(),
        {
            let ghost m = reversed@.len() - 1;
            assert(backwards[m].structured_from(input[n - 1 - m]));
            let d = reversed.pop().unwrap();
            assert(d == backwards[m]);
            assert(d.structured_from(input[structured_data.entries@.len() as int]));
            structured_data.entries.push(d);
            assert(reversed@ =~= backwards.subrange(0, reversed@.len() as int));
        }
        Ok(structured_data)
    }
}

} // verus!
