use crate::cursor::{le_value, read_bytes, read_u16, read_u64, window};
use crate::error::MftError;
use vstd::prelude::*;

verus! {

/// Size in bytes of one table entry.
pub const ENTRY_SIZE: u64 = 1024;

/// Boot-sector offset of the bytes-per-sector field (two bytes).
pub const BYTES_PER_SECTOR_OFFSET: u64 = 11;

/// Boot-sector offset of the sectors-per-cluster field (one byte).
pub const SECTORS_PER_CLUSTER_OFFSET: u64 = 13;

/// Boot-sector offset of the MFT start cluster number (eight bytes).
pub const MFT_START_CLUSTER_OFFSET: u64 = 48;

/// Number of boot-sector bytes that the geometry fields occupy.
pub const BOOT_FIELDS_END: u64 = 56;

/// Sector and cluster sizing of a volume and where its MFT starts.
#[derive(Debug, Clone, Copy, PartialEq, Eq, Structural)]
pub struct VolumeGeometry {
    pub bytes_per_sector: u16,
    pub sectors_per_cluster: u8,
    pub mft_start_cluster: u64,
}

/// The bytes-per-sector field of a boot sector.
pub open spec fn boot_bytes_per_sector(boot: Seq<u8>) -> nat {
    le_value(window(boot, BYTES_PER_SECTOR_OFFSET as int, 2))
}

/// The sectors-per-cluster field of a boot sector.
pub open spec fn boot_sectors_per_cluster(boot: Seq<u8>) -> nat {
    boot[SECTORS_PER_CLUSTER_OFFSET as int] as nat
}

/// The MFT start cluster field of a boot sector.
pub open spec fn boot_mft_start_cluster(boot: Seq<u8>) -> nat {
    le_value(window(boot, MFT_START_CLUSTER_OFFSET as int, 8))
}

/// Bytes in one cluster.
fn cluster_bytes(bytes_per_sector: u16, sectors_per_cluster: u8) -> (r: u64)
    ensures
        r == bytes_per_sector as int * sectors_per_cluster as int,
{
    assert(bytes_per_sector as int * sectors_per_cluster as int <= 0xffff * 0xff) by (nonlinear_arith)
        requires
            bytes_per_sector <= 0xffff,
            sectors_per_cluster <= 0xff,
    ;
    (bytes_per_sector as u64) * (sectors_per_cluster as u64)
}

impl VolumeGeometry {
    pub open spec fn cluster_size(self) -> int {
        self.bytes_per_sector as int * self.sectors_per_cluster as int
    }

    /// Byte offset of the first table entry.
    pub open spec fn mft_offset(self) -> int {
        self.mft_start_cluster as int * self.cluster_size()
    }

    /// Byte offset of the entry with index `i`.
    pub open spec fn entry_offset(self, i: int) -> int {
        self.mft_offset() + i * ENTRY_SIZE as int
    }

    /// Nonzero sizes, and a table start that is a 64-bit byte offset.
    pub open spec fn wf(self) -> bool {
        &&& self.bytes_per_sector > 0
        &&& self.sectors_per_cluster > 0
        &&& self.mft_offset() <= u64::MAX
    }

    /// Whether these are the fields that `boot` holds.
    pub open spec fn read_from(self, boot: Seq<u8>) -> bool {
        &&& self.bytes_per_sector as nat == boot_bytes_per_sector(boot)
        &&& self.sectors_per_cluster as nat == boot_sectors_per_cluster(boot)
        &&& self.mft_start_cluster as nat == boot_mft_start_cluster(boot)
    }

    /// Reads the geometry from a boot sector.
    ///
    /// Fails with `GeometryReadError` when the boot sector is too short to
    /// hold the three fields, and with `InvalidGeometry` when a size is zero
    /// or the table start does not fit in 64 bits.
    pub fn resolve(boot: &[u8]) -> (r: Result<VolumeGeometry, MftError>)
        ensures
            boot@.len() < BOOT_FIELDS_END ==> r == Err::<VolumeGeometry, MftError>(
                MftError::GeometryReadError,
            ),
            boot@.len() >= BOOT_FIELDS_END ==> match r {
                Ok(g) => g.wf() && g.read_from(boot@),
                Err(e) => e == MftError::InvalidGeometry && !(exists|g: VolumeGeometry|
                    #[trigger] g.read_from(boot@) && g.wf()),
            },
    {
        if (boot.len() as u64) < BOOT_FIELDS_END {
            return Err(MftError::GeometryReadError);
        }
        let bps = match read_u16(boot, BYTES_PER_SECTOR_OFFSET) {
            Ok(x) => x,
            Err(_) => return Err(MftError::GeometryReadError),
        };
        let spc = match read_bytes(boot, SECTORS_PER_CLUSTER_OFFSET, 1) {
            Ok(b) => b[0],
            Err(_) => return Err(MftError::GeometryReadError),
        };
        let lcn = match read_u64(boot, MFT_START_CLUSTER_OFFSET) {
            Ok(x) => x,
            Err(_) => return Err(MftError::GeometryReadError),
        };
        let ghost cand = VolumeGeometry {
            bytes_per_sector: bps,
            sectors_per_cluster: spc,
            mft_start_cluster: lcn,
        };
        assert forall|g: VolumeGeometry| #[trigger] g.read_from(boot@) implies g == cand by {}
        if bps == 0 || spc == 0 {
            return Err(MftError::InvalidGeometry);
        }
        let cluster = cluster_bytes(bps, spc);
        match lcn.checked_mul(cluster) {
            Some(_) => Ok(VolumeGeometry {
                bytes_per_sector: bps,
                sectors_per_cluster: spc,
                mft_start_cluster: lcn,
            }),
            None => Err(MftError::InvalidGeometry),
        }
    }

    /// Byte offset of the entry with index `entry_index`, or `None` when it
    /// lies beyond the 64-bit byte range.
    pub fn offset_of(&self, entry_index: u64) -> (r: Option<u64>)
        ensures
            r == (if self.entry_offset(entry_index as int) <= u64::MAX {
                Some(self.entry_offset(entry_index as int) as u64)
            } else {
                None::<u64>
            }),
    {
        let cluster = cluster_bytes(self.bytes_per_sector, self.sectors_per_cluster);
        let base = match self.mft_start_cluster.checked_mul(cluster) {
            Some(b) => b,
            None => {
                assert(self.entry_offset(entry_index as int) >= self.mft_offset());
                return None;
            },
        };
        let step = match entry_index.checked_mul(ENTRY_SIZE) {
            Some(s) => s,
            None => return None,
        };
        base.checked_add(step)
    }
}

/// Consecutive entries lie exactly one entry size apart, so entry offsets
/// strictly increase with the index.
pub proof fn lemma_offsets_increase(g: VolumeGeometry, i: nat, j: nat)
    ensures
        g.entry_offset((i + 1) as int) - g.entry_offset(i as int) == ENTRY_SIZE,
        i < j ==> g.entry_offset(i as int) < g.entry_offset(j as int),
{
    assert((i + 1) * ENTRY_SIZE as int == i * ENTRY_SIZE as int + ENTRY_SIZE) by (nonlinear_arith);
    if i < j {
        assert(i * (ENTRY_SIZE as int) < j * (ENTRY_SIZE as int)) by (nonlinear_arith)
            requires
                i < j,
        ;
    }
}

} // verus!
