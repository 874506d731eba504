//! A byte-stream interface over possibly compressed data, where the
//! compression format is chosen from the file name's extension alone.
//!
//! Supported formats:
//! * Gzip (`.gz`), through the `flate2` crate
//! * LZ4 (`.lz4`), through the `lz4` crate
//!
//! Any other extension, or none, selects plain pass-through bytes.
//! File input and output is the caller's business: a [`DetectReader`] is
//! opened over the raw bytes read from the file, and a [`DetectWriter`]
//! hands back at [`DetectWriter::finalize`] the exact bytes that belong
//! in the file.

mod codec;
mod dispatch;
mod error;
mod level;
mod reader;
mod writer;

pub use codec::{gunzip_of, gzip_of, lz4_of, unlz4_of};
pub use dispatch::{
    codec_of, detect_codec, extension_of, file_name_of, is_gz_ext, is_lz4_ext,
    lemma_unrecognized_extension_selects_identity, Codec,
};
pub use error::DetectError;
pub use level::{flate2_level_of, lz4_level_of, Level};
pub use reader::DetectReader;
pub use writer::{lemma_identity_stores_bytes_unchanged, stored_stream_of, DetectWriter};
