use crate::cursor::{read_bytes, window};
use crate::error::MftError;
use crate::geometry::{VolumeGeometry, BOOT_FIELDS_END, ENTRY_SIZE};
use vstd::prelude::*;

verus! {

/// Locates and reads fixed-size entries of the table in a volume image.
#[derive(Debug, Clone, Copy, PartialEq, Eq, Structural)]
pub struct MftReader {
    pub geometry: VolumeGeometry,
}

/// The offset reported for an entry: its byte offset, or `u64::MAX` when it
/// lies beyond the 64-bit byte range.
pub open spec fn reported_offset(g: VolumeGeometry, entry_index: u64) -> u64 {
    if g.entry_offset(entry_index as int) <= u64::MAX {
        g.entry_offset(entry_index as int) as u64
    } else {
        u64::MAX
    }
}

impl MftReader {
    /// Resolves the geometry from the volume's boot sector.
    pub fn new(boot_sector: &[u8]) -> (r: Result<MftReader, MftError>)
        ensures
            boot_sector@.len() < BOOT_FIELDS_END ==> r == Err::<MftReader, MftError>(
                MftError::GeometryReadError,
            ),
            boot_sector@.len() >= BOOT_FIELDS_END ==> match r {
                Ok(m) => m.geometry.wf() && m.geometry.read_from(boot_sector@),
                Err(e) => e == MftError::InvalidGeometry && !(exists|g: VolumeGeometry|
                    #[trigger] g.read_from(boot_sector@) && g.wf()),
            },
    {
        match VolumeGeometry::resolve(boot_sector) {
            Ok(geometry) => Ok(MftReader { geometry }),
            Err(e) => Err(e),
        }
    }

    /// Byte offset of an entry, or `None` beyond the 64-bit byte range.
    pub fn calculate_mft_offset(&self, entry_index: u64) -> (r: Option<u64>)
        ensures
            r == (if self.geometry.entry_offset(entry_index as int) <= u64::MAX {
                Some(self.geometry.entry_offset(entry_index as int) as u64)
            } else {
                None::<u64>
            }),
    {
        self.geometry.offset_of(entry_index)
    }

    /// Reads the whole entry with index `entry_index` out of `image`, or
    /// fails with `EntryReadError` when the image ends before the entry does.
    pub fn read_mft_entry(&self, image: &[u8], entry_index: u64) -> (r: Result<Vec<u8>, MftError>)
        ensures
            match r {
                Ok(v) => {
                    &&& self.geometry.entry_offset(entry_index as int) + ENTRY_SIZE <= image@.len()
                    &&& v@ == window(
                        image@,
                        self.geometry.entry_offset(entry_index as int),
                        ENTRY_SIZE as int,
                    )
                },
                Err(e) => {
                    &&& self.geometry.entry_offset(entry_index as int) + ENTRY_SIZE > image@.len()
                    &&& e == MftError::EntryReadError {
                        index: entry_index,
                        offset: reported_offset(self.geometry, entry_index),
                    }
                },
            },
    {
        let offset = match self.calculate_mft_offset(entry_index) {
            Some(o) => o,
            None => {
                let len = image.len();
                assert(len as int <= u64::MAX);
                assert(self.geometry.entry_offset(entry_index as int) > u64::MAX);
                return Err(MftError::EntryReadError { index: entry_index, offset: u64::MAX });
            },
        };
        match read_bytes(image, offset, ENTRY_SIZE as usize) {
            Ok(v) => Ok(v),
            Err(_) => Err(MftError::EntryReadError { index: entry_index, offset }),
        }
    }
}

} // verus!
