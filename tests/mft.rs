use ntfs_mft_lib::config::Config;
use ntfs_mft_lib::cursor::{read_bytes, read_string, read_u16, read_u32, read_u48, read_u64};
use ntfs_mft_lib::data_structurer::{DbEntry, StructuredData};
use ntfs_mft_lib::error::MftError;
use ntfs_mft_lib::geometry::{VolumeGeometry, ENTRY_SIZE};
use ntfs_mft_lib::mft_parser::{MftEntry, MftParser};
use ntfs_mft_lib::mft_reader::MftReader;
use ntfs_mft_lib::pipeline::{IngestAction, IngestEvent, IngestPipeline, PipelineState};

const FILE_SIGNATURE_OFFSET: usize = 0;
const FILE_SIGNATURE_SIZE: usize = 4;
const FILE_RECORD_NUMBER_OFFSET: usize = 44;
const FILE_RECORD_NUMBER_SIZE: usize = 6;

fn entry_block(signature: &[u8; 4], record_number: u64) -> Vec<u8> {
    let mut block = vec![0u8; 1024];
    block[0..4].copy_from_slice(signature);
    block[44..50].copy_from_slice(&record_number.to_le_bytes()[..6]);
    block
}

fn boot_sector(bytes_per_sector: u16, sectors_per_cluster: u8, mft_start_cluster: u64) -> Vec<u8> {
    let mut boot = vec![0u8; 512];
    boot[11..13].copy_from_slice(&bytes_per_sector.to_le_bytes());
    boot[13] = sectors_per_cluster;
    boot[48..56].copy_from_slice(&mft_start_cluster.to_le_bytes());
    boot
}

/// A volume image whose table starts at byte 4096 and holds `entries`.
fn image_with(entries: &[Vec<u8>]) -> Vec<u8> {
    let mut image = boot_sector(512, 8, 1);
    image.resize(4096, 0);
    for e in entries {
        image.extend_from_slice(e);
    }
    image
}

/// Runs the pipeline over an in-memory image; a fault is injected when the
/// entry with index `fault_at` is asked for. Returns the pipeline and what
/// the store committed.
fn run(image: &[u8], chunk_limit: usize, fault_at: Option<u64>) -> (IngestPipeline, Vec<DbEntry>) {
    let reader = MftReader::new(image).unwrap();
    let (mut pipeline, mut action) = IngestPipeline::start(image, chunk_limit).unwrap();
    let mut store: Vec<DbEntry> = Vec::new();
    loop {
        let event = match action {
            IngestAction::ReadEntry { index, offset } => {
                assert_eq!(reader.calculate_mft_offset(index), Some(offset));
                if fault_at == Some(index) {
                    IngestEvent::DeviceFault
                } else {
                    match reader.read_mft_entry(image, index) {
                        Ok(block) => IngestEvent::EntryRead(block),
                        Err(_) => IngestEvent::EndOfTable,
                    }
                }
            }
            IngestAction::Commit(records) => {
                store.extend(records);
                IngestEvent::CommitSucceeded
            }
            IngestAction::Stop => break,
        };
        action = pipeline.step(event);
    }
    (pipeline, store)
}

#[test]
fn test_structuring_data() {
    let mft_entries = vec![MftEntry {
        signature: "FILE".to_string(),
        record_number: 12345,
        file_name: Some("test_file".to_string()),
        file_size: Some(1024),
        creation_time: Some("2022-01-01T00:00:00Z".to_string()),
    }];

    let structured_data = StructuredData::from_mft_entries(mft_entries).unwrap();

    assert_eq!(structured_data.entries.len(), 1);
    assert_eq!(structured_data.entries[0].record_number, 12345);
    assert_eq!(structured_data.entries[0].file_name, Some("test_file".to_string()));
    assert_eq!(structured_data.entries[0].file_size, Some(1024));
    assert_eq!(structured_data.entries[0].creation_time, Some("2022-01-01T00:00:00Z".to_string()));
}

#[test]
fn test_mft_entry_parsing() {
    let mut fake_mft_entry = vec![0; 1024];
    fake_mft_entry[FILE_SIGNATURE_OFFSET..FILE_SIGNATURE_OFFSET + FILE_SIGNATURE_SIZE].copy_from_slice(b"FILE");
    fake_mft_entry[FILE_RECORD_NUMBER_OFFSET..FILE_RECORD_NUMBER_OFFSET + FILE_RECORD_NUMBER_SIZE]
        .copy_from_slice(&12345u64.to_le_bytes()[..FILE_RECORD_NUMBER_SIZE]);

    let entry = MftEntry::parse(&fake_mft_entry).unwrap();

    assert_eq!(entry.signature, "FILE");
    assert_eq!(entry.record_number, 12345);
}

#[test]
fn record_number_is_read_from_six_bytes() {
    let mut block = entry_block(b"FILE", 0);
    block[44..50].copy_from_slice(&[0x39, 0x30, 0, 0, 0, 0]);
    let entry = MftEntry::parse(&block).unwrap();
    assert_eq!(entry.record_number, 12345);
    assert_eq!(entry.file_name, None);
    assert_eq!(entry.file_size, None);
    assert_eq!(entry.creation_time, None);

    // The two bytes after the field belong to something else.
    let mut wide = entry_block(b"FILE", 0x0000_8765_4321_ABCD);
    wide[50] = 0xff;
    wide[51] = 0xff;
    assert_eq!(MftEntry::parse(&wide).unwrap().record_number, 0x8765_4321_ABCD);
}

#[test]
fn foreign_signatures_are_rejected() {
    assert_eq!(MftEntry::parse(&entry_block(b"BAAD", 7)), Err(MftError::InvalidSignature));
    assert_eq!(MftEntry::parse(&vec![0u8; 1024]), Err(MftError::InvalidSignature));
    assert_eq!(MftEntry::parse(&entry_block(b"FILF", 7)), Err(MftError::InvalidSignature));
}

#[test]
fn short_blocks_fail_field_decoding() {
    assert_eq!(MftEntry::parse(b"FIL"), Err(MftError::FieldDecodeError));
    let block = entry_block(b"FILE", 1);
    assert_eq!(MftEntry::parse(&block[..49]), Err(MftError::FieldDecodeError));
    assert_eq!(MftEntry::parse(&block[..50]).unwrap().record_number, 1);
    assert_eq!(MftEntry::parse(&block[..2]), Err(MftError::FieldDecodeError));
    assert_eq!(MftEntry::parse(&b"BAAD"[..]), Err(MftError::InvalidSignature));
}

fn with_fixups(mut block: Vec<u8>, usn: [u8; 2], tails: [[u8; 2]; 2]) -> Vec<u8> {
    block[4..6].copy_from_slice(&56u16.to_le_bytes());
    block[6..8].copy_from_slice(&3u16.to_le_bytes());
    block[56..58].copy_from_slice(&usn);
    block[510..512].copy_from_slice(&tails[0]);
    block[1022..1024].copy_from_slice(&tails[1]);
    block
}

#[test]
fn fixups_are_checked_per_sector() {
    let good = with_fixups(entry_block(b"FILE", 42), [1, 0], [[1, 0], [1, 0]]);
    assert_eq!(MftEntry::parse(&good).unwrap().record_number, 42);

    let torn = with_fixups(entry_block(b"FILE", 42), [1, 0], [[1, 0], [2, 0]]);
    assert_eq!(MftEntry::parse(&torn), Err(MftError::FixupMismatch));

    let mut wrong_count = good.clone();
    wrong_count[6..8].copy_from_slice(&2u16.to_le_bytes());
    assert_eq!(MftEntry::parse(&wrong_count), Err(MftError::FixupMismatch));

    let mut outside = good.clone();
    outside[4..6].copy_from_slice(&1020u16.to_le_bytes());
    assert_eq!(MftEntry::parse(&outside), Err(MftError::FixupMismatch));
}

#[test]
fn parser_walks_whole_blocks_and_skips_failures() {
    let parser = MftParser::new();
    let mut data = entry_block(b"FILE", 5);
    data.extend(entry_block(b"FILE", 9));
    data.extend(vec![0u8; 100]);
    let entries = parser.parse_mft_entries(data.clone()).unwrap();
    assert_eq!(entries.len(), 2);
    assert_eq!(entries[0].record_number, 5);
    assert_eq!(entries[1].record_number, 9);

    let mut bad = data.clone();
    bad[0..4].copy_from_slice(b"BAAD");
    let entries = parser.parse_mft_entries(bad).unwrap();
    assert_eq!(entries.len(), 1);
    assert_eq!(entries[0].record_number, 9);
    assert_eq!(parser.parse_mft_entries(Vec::new()).unwrap().len(), 0);
    assert_eq!(parser.parse_mft_entries(vec![0u8; 2048]).unwrap().len(), 0);
}

fn three_block_table() -> Vec<u8> {
    let mut data = entry_block(b"FILE", 100);
    data.extend(entry_block(b"BAAD", 101));
    data.extend(entry_block(b"FILE", 102));
    data
}

#[test]
fn parser_skips_a_bad_block_mid_table() {
    let data = three_block_table();
    let entries = MftParser::new().parse_mft_entries(data.clone()).unwrap();
    assert_eq!(entries.len(), 2);
    assert_eq!(data.len() / 1024 - entries.len(), 1);
    assert_eq!(entries[0].record_number, 100);
    assert_eq!(entries[1].record_number, 102);
    assert_eq!(MftEntry::parse(&data[1024..2048]), Err(MftError::InvalidSignature));
    for (k, expected) in [(0usize, &entries[0]), (2usize, &entries[1])] {
        assert_eq!(&MftEntry::parse(&data[1024 * k..1024 * (k + 1)]).unwrap(), expected);
    }

    let structured = StructuredData::from_mft_entries(entries).unwrap();
    assert_eq!(structured.entries.len(), 2);
    assert_eq!(structured.entries[0].record_number, 100);
    assert_eq!(structured.entries[1].record_number, 102);
}

#[test]
fn test_mft_reader_initialization() {
    let image = image_with(&[entry_block(b"FILE", 0)]);
    let mft_reader = MftReader::new(&image);
    assert!(mft_reader.is_ok());
}

#[test]
fn test_mft_entry_reading() {
    let image = image_with(&[entry_block(b"FILE", 0)]);
    let mft_reader = MftReader::new(&image).unwrap();
    let mft_entry = mft_reader.read_mft_entry(&image, 0);
    assert!(mft_entry.is_ok());
    assert_eq!(mft_entry.unwrap().len(), 1024);
}

#[test]
fn cursor_reads_little_endian_values() {
    let src: Vec<u8> = (1u8..=10).collect();
    assert_eq!(read_u16(&src, 1), Ok(0x0302));
    assert_eq!(read_u32(&src, 0), Ok(0x0403_0201));
    assert_eq!(read_u48(&src, 2), Ok(0x0807_0605_0403));
    assert_eq!(read_u64(&src, 2), Ok(0x0a09_0807_0605_0403));
    assert_eq!(read_u64(&src, 3), Err(MftError::TruncatedRead));
    assert_eq!(read_u16(&src, u64::MAX), Err(MftError::TruncatedRead));
    assert_eq!(read_bytes(&src, 8, 2), Ok(vec![9, 10]));
    assert_eq!(read_bytes(&src, 9, 2), Err(MftError::TruncatedRead));
    assert_eq!(read_bytes(&src, 10, 0), Ok(vec![]));
}

#[test]
fn cursor_reads_text_lossily() {
    let src = b"xxFILE\xffz".to_vec();
    assert_eq!(read_string(&src, 2, 4), Ok("FILE".to_string()));
    assert_eq!(read_string(&src, 6, 2), Ok("\u{fffd}z".to_string()));
    assert_eq!(read_string(&src, 6, 3), Err(MftError::TruncatedRead));
}

#[test]
fn geometry_is_read_from_the_boot_sector() {
    let g = VolumeGeometry::resolve(&boot_sector(512, 8, 786432)).unwrap();
    assert_eq!(g.bytes_per_sector, 512);
    assert_eq!(g.sectors_per_cluster, 8);
    assert_eq!(g.mft_start_cluster, 786432);
    assert_eq!(g.offset_of(0), Some(786432 * 4096));
    assert_eq!(g.offset_of(3), Some(786432 * 4096 + 3 * 1024));
}

#[test]
fn geometry_rejects_short_or_implausible_boot_sectors() {
    let boot = boot_sector(512, 8, 2);
    assert_eq!(VolumeGeometry::resolve(&boot[..55]), Err(MftError::GeometryReadError));
    assert_eq!(VolumeGeometry::resolve(&[]), Err(MftError::GeometryReadError));
    assert!(VolumeGeometry::resolve(&boot[..56]).is_ok());
    assert_eq!(VolumeGeometry::resolve(&boot_sector(0, 8, 2)), Err(MftError::InvalidGeometry));
    assert_eq!(VolumeGeometry::resolve(&boot_sector(512, 0, 2)), Err(MftError::InvalidGeometry));
    assert_eq!(VolumeGeometry::resolve(&boot_sector(512, 8, u64::MAX)), Err(MftError::InvalidGeometry));
    assert_eq!(MftReader::new(&boot[..40]), Err(MftError::GeometryReadError));
}

#[test]
fn entry_offsets_step_by_one_entry() {
    let g = VolumeGeometry { bytes_per_sector: 512, sectors_per_cluster: 8, mft_start_cluster: 4 };
    let mut previous = g.offset_of(0).unwrap();
    assert_eq!(previous, 16384);
    for i in 1..50u64 {
        let next = g.offset_of(i).unwrap();
        assert!(next > previous);
        assert_eq!(next - previous, ENTRY_SIZE);
        previous = next;
    }
    assert_eq!(g.offset_of(u64::MAX), None);
}

#[test]
fn reader_reports_where_the_table_ends() {
    let image = image_with(&[entry_block(b"FILE", 0)]);
    let reader = MftReader::new(&image).unwrap();
    assert_eq!(reader.read_mft_entry(&image, 0).unwrap().len(), 1024);
    assert_eq!(reader.read_mft_entry(&image, 0).unwrap()[..4], b"FILE"[..]);
    assert_eq!(
        reader.read_mft_entry(&image, 1),
        Err(MftError::EntryReadError { index: 1, offset: 5120 })
    );
    assert_eq!(
        reader.read_mft_entry(&image, u64::MAX),
        Err(MftError::EntryReadError { index: u64::MAX, offset: u64::MAX })
    );
}

#[test]
fn ingest_skips_bad_entries_and_commits_the_rest() {
    let image = image_with(&[entry_block(b"FILE", 100), entry_block(b"BAAD", 101), entry_block(b"FILE", 102)]);
    let (pipeline, store) = run(&image, 0, None);
    let outcome = pipeline.outcome();
    assert_eq!(outcome.state, PipelineState::Committed);
    assert_eq!(outcome.fault, None);
    assert_eq!(outcome.visited, 3);
    assert_eq!(outcome.decoded, 2);
    assert_eq!(outcome.skipped, 1);
    assert_eq!(outcome.committed, 2);
    assert_eq!(store.len(), 2);
    assert_eq!(store[0].record_number, 100);
    assert_eq!(store[1].record_number, 102);
    assert_eq!(pipeline.skipped.len(), 1);
    assert_eq!(pipeline.skipped[0].index, 1);
    assert_eq!(pipeline.skipped[0].reason, MftError::InvalidSignature);
}

#[test]
fn device_fault_aborts_without_committing() {
    let image = image_with(&[entry_block(b"FILE", 100), entry_block(b"FILE", 101), entry_block(b"FILE", 102)]);
    let (pipeline, store) = run(&image, 0, Some(1));
    let outcome = pipeline.outcome();
    assert_eq!(outcome.state, PipelineState::Aborted);
    assert_eq!(outcome.fault, Some(MftError::DeviceFault { index: 1 }));
    assert_eq!(outcome.committed, 0);
    assert!(store.is_empty());
    assert!(pipeline.batch.is_empty());
}

#[test]
fn rerunning_ingest_gives_the_same_records() {
    let image = image_with(&[entry_block(b"FILE", 7), entry_block(b"FILE", 8)]);
    let (_, first) = run(&image, 0, None);
    let (_, second) = run(&image, 0, None);
    assert_eq!(first, second);
    assert_eq!(first.len(), 2);
}

#[test]
fn truncated_boot_sector_never_starts_reading() {
    let boot = boot_sector(512, 8, 1);
    assert_eq!(IngestPipeline::start(&boot[..55], 0).err(), Some(MftError::GeometryReadError));
    assert_eq!(IngestPipeline::start(&boot[..10], 0).err(), Some(MftError::GeometryReadError));
    assert_eq!(IngestPipeline::start(&boot_sector(0, 8, 1), 0).err(), Some(MftError::InvalidGeometry));
}

#[test]
fn chunked_ingest_commits_every_chunk() {
    let image = image_with(&[
        entry_block(b"FILE", 1),
        entry_block(b"FILE", 2),
        entry_block(b"BAAD", 3),
        entry_block(b"FILE", 4),
    ]);
    let (pipeline, store) = run(&image, 2, None);
    let outcome = pipeline.outcome();
    assert_eq!(outcome.state, PipelineState::Committed);
    assert_eq!(outcome.committed, 3);
    assert_eq!(outcome.skipped, 1);
    let numbers: Vec<u64> = store.iter().map(|d| d.record_number).collect();
    assert_eq!(numbers, vec![1, 2, 4]);

    // A fault after a committed chunk keeps that chunk and drops the rest.
    let (pipeline, store) = run(&image, 2, Some(3));
    assert_eq!(pipeline.outcome().state, PipelineState::Aborted);
    assert_eq!(pipeline.outcome().committed, 2);
    assert_eq!(store.len(), 2);
}

#[test]
fn failed_commit_aborts_and_unexpected_events_abort() {
    let image = image_with(&[entry_block(b"FILE", 1)]);
    let (mut pipeline, _) = IngestPipeline::start(&image, 0).unwrap();
    let block = MftReader::new(&image).unwrap().read_mft_entry(&image, 0).unwrap();
    assert!(matches!(pipeline.step(IngestEvent::EntryRead(block)), IngestAction::ReadEntry { index: 1, offset: 5120 }));
    match pipeline.step(IngestEvent::EndOfTable) {
        IngestAction::Commit(records) => assert_eq!(records.len(), 1),
        other => panic!("expected a commit, got {:?}", other),
    }
    assert_eq!(pipeline.state, PipelineState::Finalizing);
    assert!(matches!(pipeline.step(IngestEvent::CommitFailed), IngestAction::Stop));
    assert_eq!(pipeline.fault, Some(MftError::StorageFailure));
    assert_eq!(pipeline.outcome().committed, 0);
    assert!(matches!(pipeline.step(IngestEvent::CommitSucceeded), IngestAction::Stop));
    assert_eq!(pipeline.state, PipelineState::Aborted);

    let (mut other, _) = IngestPipeline::start(&image, 0).unwrap();
    assert!(matches!(other.step(IngestEvent::CommitSucceeded), IngestAction::Stop));
    assert_eq!(other.fault, Some(MftError::UnexpectedEvent));
}

#[test]
fn structuring_keeps_order_and_unknown_fields() {
    let block_a = entry_block(b"FILE", 30);
    let block_b = entry_block(b"FILE", 10);
    let entries = vec![MftEntry::parse(&block_a).unwrap(), MftEntry::parse(&block_b).unwrap()];
    let data = StructuredData::from_mft_entries(entries).unwrap();
    assert_eq!(data.entries.len(), 2);
    assert_eq!(data.entries[0].record_number, 30);
    assert_eq!(data.entries[1].record_number, 10);
    assert_eq!(data.entries[1].file_name, None);
    assert_eq!(StructuredData::from_mft_entries(Vec::new()).unwrap().entries.len(), 0);
    assert_eq!(StructuredData::new().entries.len(), 0);
}

#[test]
fn default_config_names_database_and_table() {
    let config = Config::new().unwrap();
    assert_eq!(config.database_url, "sqlite:mft_data.db");
    assert_eq!(config.mft_file_path, "C:\\path\\to\\MFT");
}

#[test]
fn per_entry_errors_are_told_apart() {
    assert!(MftError::InvalidSignature.is_per_entry());
    assert!(MftError::FixupMismatch.is_per_entry());
    assert!(MftError::FieldDecodeError.is_per_entry());
    assert!(!MftError::DeviceFault { index: 0 }.is_per_entry());
    assert!(!MftError::GeometryReadError.is_per_entry());
}
