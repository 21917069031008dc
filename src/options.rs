//! The knobs handed to the engine when a database is opened.

use vstd::prelude::*;

verus! {

/// Bytes of one in-memory write buffer in the tuned configuration (64 MiB).
pub const TUNED_WRITE_BUFFER_SIZE: usize = 64 * 1024 * 1024;

/// In-memory write buffers kept at most in the tuned configuration.
pub const TUNED_MAX_WRITE_BUFFERS: i32 = 3;

/// Target size of a level-1 table file in the tuned configuration (64 MiB).
pub const TUNED_TARGET_FILE_SIZE: u64 = 64 * 1024 * 1024;

/// Background flush and compaction jobs in the tuned configuration.
pub const TUNED_BACKGROUND_JOBS: i32 = 4;

/// The compression the engine applies to its data blocks.
#[derive(Clone, Copy, Debug, PartialEq, Eq, Structural)]
pub enum Compression {
    NoCompression,
    Snappy,
    Zlib,
    Bz2,
    Lz4,
    Lz4hc,
    Zstd,
}

/// Options for opening a database. A knob that is `None` keeps the engine's
/// own default.
#[derive(Clone, Copy, Debug, PartialEq, Eq, Structural)]
pub struct StoreOptions {
    pub create_if_missing: bool,
    pub compression: Compression,
    pub write_buffer_size: Option<usize>,
    pub max_write_buffer_number: Option<i32>,
    pub target_file_size_base: Option<u64>,
    pub max_background_jobs: Option<i32>,
}

impl StoreOptions {
    /// Creates the database when it is missing and compresses with LZ4; every
    /// other knob keeps the engine's default.
    pub fn lz4() -> (r: StoreOptions)
        ensures
            r.create_if_missing,
            r.compression == Compression::Lz4,
            r.write_buffer_size is None,
            r.max_write_buffer_number is None,
            r.target_file_size_base is None,
            r.max_background_jobs is None,
    {
        StoreOptions {
            create_if_missing: true,
            compression: Compression::Lz4,
            write_buffer_size: None,
            max_write_buffer_number: None,
            target_file_size_base: None,
            max_background_jobs: None,
        }
    }

    /// [`StoreOptions::lz4`] with larger write buffers and table files and
    /// four background jobs.
    pub fn tuned() -> (r: StoreOptions)
        ensures
            r.create_if_missing,
            r.compression == Compression::Lz4,
            r.write_buffer_size == Some(TUNED_WRITE_BUFFER_SIZE),
            r.max_write_buffer_number == Some(TUNED_MAX_WRITE_BUFFERS),
            r.target_file_size_base == Some(TUNED_TARGET_FILE_SIZE),
            r.max_background_jobs == Some(TUNED_BACKGROUND_JOBS),
    {
        StoreOptions {
            write_buffer_size: Some(TUNED_WRITE_BUFFER_SIZE),
            max_write_buffer_number: Some(TUNED_MAX_WRITE_BUFFERS),
            target_file_size_base: Some(TUNED_TARGET_FILE_SIZE),
            max_background_jobs: Some(TUNED_BACKGROUND_JOBS),
            ..StoreOptions::lz4()
        }
    }
}

} // verus!
