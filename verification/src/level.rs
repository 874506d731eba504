use vstd::prelude::*;

use crate::error::DetectError;

verus! {

/// Compression level.
#[derive(Debug, Clone, Copy, PartialEq, Eq, PartialOrd, Ord, Structural)]
pub enum Level {
    /// Uncompressed
    NoCompression,
    /// Minimum compression (fastest and large)
    Minimum,
    /// Maximum compression (smallest and slow)
    Maximum,
}

/// The numeric flate2 compression parameter that a [`Level`] stands for:
/// 0 is flate2's "no compression", 1 its "fastest", 9 its "best".
pub open spec fn flate2_level_of(l: Level) -> int {
    match l {
        Level::NoCompression => 0,
        Level::Minimum => 1,
        Level::Maximum => 9,
    }
}

/// The numeric LZ4 compression parameter that a [`Level`] stands for.
/// [`Level::NoCompression`] has none; this function is only meaningful for the
/// other two variants.
pub open spec fn lz4_level_of(l: Level) -> int {
    match l {
        Level::NoCompression => 0,
        Level::Minimum => 1,
        Level::Maximum => 3,
    }
}

impl Level {
    /// The gzip backend's native tuning parameter for this level.
    /// Every level has one: gzip supports a genuine no-compression mode.
    pub fn into_flate2_compression(self) -> (r: u32)
        ensures
            r == flate2_level_of(self),
    {
        match self {
            Level::NoCompression => 0,
            Level::Minimum => 1,
            Level::Maximum => 9,
        }
    }

    /// The LZ4 backend's native tuning parameter for this level.
    /// [`Level::NoCompression`] is rejected with [`DetectError::InvalidInput`]:
    /// the LZ4 frame interface has no way to store data uncompressed.
    pub fn into_lz4_level(self) -> (r: Result<u32, DetectError>)
        ensures
            match self {
                Level::NoCompression => r matches Err(e) && e == DetectError::InvalidInput,
                _ => r matches Ok(v) && v == lz4_level_of(self),
            },
    {
        match self {
            Level::NoCompression => Err(DetectError::InvalidInput),
            Level::Minimum => Ok(1),
            Level::Maximum => Ok(3),
        }
    }
}

} // verus!
