//! Decoding of the NTFS Master File Table: boot-sector geometry, entry
//! addressing, entry decoding, record structuring and the ingest state
//! machine that drives a whole table into a transactional store.

pub mod error;
pub mod cursor;
pub mod geometry;
pub mod mft_parser;
pub mod data_structurer;
pub mod mft_reader;
pub mod config;
pub mod pipeline;
