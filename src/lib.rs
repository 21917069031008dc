//! A small verified layer for driving an embedded ordered key-value engine
//! (RocksDB) with a block compression codec (LZ4).
//!
//! The codec is called directly: its output is modelled as a named function of
//! its input, and a compressed block is proved to decode back to the input.
//! The engine's tuning knobs and write batches are plain values here, with
//! their meaning stated over a map from key bytes to value bytes.

use vstd::prelude::*;

pub mod codec;
pub mod decimal;
pub mod options;
pub mod batch;
pub mod basic_tests;
