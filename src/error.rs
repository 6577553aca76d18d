use vstd::prelude::*;

verus! {

/// Every way in which reading, decoding or ingesting the table can fail.
///
/// Fatal kinds end a run; per-entry kinds (`InvalidSignature`,
/// `FieldDecodeError`, `FixupMismatch`) only mark one entry as unusable.
#[derive(Debug, Clone, Copy, PartialEq, Eq, Structural)]
pub enum MftError {
    /// Fewer bytes were available than a read asked for.
    TruncatedRead,
    /// The boot sector could not be read far enough to hold the geometry.
    GeometryReadError,
    /// The boot sector holds a zero sector or cluster size, or an MFT start
    /// that lies beyond the 64-bit byte range.
    InvalidGeometry,
    /// A whole entry could not be read at this index and byte offset.
    EntryReadError { index: u64, offset: u64 },
    /// The entry does not start with the in-use marker `FILE`.
    InvalidSignature,
    /// A field of the entry lies outside the block.
    FieldDecodeError,
    /// The update sequence array is malformed or disagrees with a sector.
    FixupMismatch,
    /// The device failed while reading the entry at this index.
    DeviceFault { index: u64 },
    /// The storage collaborator failed to store or commit a batch.
    StorageFailure,
    /// A configuration value is missing.
    InvalidConfig,
    /// The ingest pipeline received an event it was not waiting for.
    UnexpectedEvent,
}

impl MftError {
    /// Whether the error only disqualifies a single entry.
    pub open spec fn is_per_entry_spec(self) -> bool {
        match self {
            MftError::InvalidSignature | MftError::FieldDecodeError | MftError::FixupMismatch => true,
            _ => false,
        }
    }

    pub fn is_per_entry(&self) -> (r: bool)
        ensures
            r == self.is_per_entry_spec(),
    {
        match self {
            MftError::InvalidSignature | MftError::FieldDecodeError | MftError::FixupMismatch => true,
            _ => false,
        }
    }
}

} // verus!
