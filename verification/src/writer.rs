use vstd::prelude::*;

use crate::codec::{gzip_compress, gzip_of, lz4_compress, lz4_of};
use crate::dispatch::{codec_of, detect_codec, Codec};
use crate::error::DetectError;
use crate::level::{flate2_level_of, lz4_level_of, Level};

verus! {

/// The complete byte stream a finalized writer stores for a payload:
/// the payload itself for pass-through, or the backend's encoded stream
/// at the level's backend-specific parameter.
pub open spec fn stored_stream_of(c: Codec, l: Level, payload: Seq<u8>) -> Seq<u8> {
    match c {
        Codec::Identity => payload,
        Codec::Gzip => gzip_of(flate2_level_of(l), payload),
        Codec::Lz4 => lz4_of(lz4_level_of(l), payload),
    }
}

/// A path with an unrecognized or missing extension selects the
/// pass-through codec, and pass-through stores the written payload
/// byte-for-byte, at every level.
pub proof fn lemma_identity_stores_bytes_unchanged(path: Seq<char>, l: Level, payload: Seq<u8>)
    requires
        codec_of(path) == Codec::Identity,
    ensures
        stored_stream_of(codec_of(path), l, payload) == payload,
{
}

/// A writer toward a possibly compressed file. The codec is chosen from
/// the file name's extension alone at creation time; written bytes are
/// buffered, and [`DetectWriter::finalize`] turns them into the complete
/// byte stream that belongs in the file, trailer included.
///
/// `finalize` consumes the writer: the type itself enforces that a
/// writer cannot keep encoded state past its one finalization, and a
/// writer that is dropped instead of finalized has produced no output at
/// all rather than a silently truncated stream.
#[derive(Debug)]
pub struct DetectWriter {
    codec: Codec,
    level: Level,
    data: Vec<u8>,
}

impl DetectWriter {
    /// The codec this writer encodes with.
    pub closed spec fn codec_sel(&self) -> Codec {
        self.codec
    }

    /// The compression level this writer was created with.
    pub closed spec fn level_sel(&self) -> Level {
        self.level
    }

    /// The payload bytes written so far.
    pub closed spec fn buffered(&self) -> Seq<u8> {
        self.data@
    }

    /// An LZ4 writer never holds the one level its backend cannot
    /// represent; creation rejects that combination up front.
    pub open spec fn wf(&self) -> bool {
        self.codec_sel() == Codec::Lz4 ==> self.level_sel() != Level::NoCompression
    }

    /// Create a writer toward the file named `path`. The extension
    /// selects the codec. Requesting [`Level::NoCompression`] with the
    /// LZ4 backend is rejected here, before any output exists, with
    /// [`DetectError::InvalidInput`]; every other combination succeeds.
    pub fn create(path: &str, level: Level) -> (r: Result<DetectWriter, DetectError>)
        ensures
            match r {
                Ok(w) => w.wf() && w.codec_sel() == codec_of(path@) && w.level_sel() == level
                    && w.buffered() == Seq::<u8>::empty() && !(codec_of(path@) == Codec::Lz4
                    && level == Level::NoCompression),
                Err(e) => codec_of(path@) == Codec::Lz4 && level == Level::NoCompression && e
                    == DetectError::InvalidInput,
            },
    {
        let codec = detect_codec(path);
        match (codec, level) {
            (Codec::Lz4, Level::NoCompression) => Err(DetectError::InvalidInput),
            _ => Ok(DetectWriter { codec, level, data: Vec::new() }),
        }
    }

    /// Append `bytes` to the payload. All bytes are accepted, and the
    /// count of accepted bytes is returned.
    pub fn write(&mut self, bytes: &[u8]) -> (n: usize)
        ensures
            final(self).codec_sel() == old(self).codec_sel(),
            final(self).level_sel() == old(self).level_sel(),
            final(self).buffered() == old(self).buffered() + bytes@,
            n == bytes@.len(),
    {
        let mut i: usize = 0;
        let len: usize = bytes.len();
        while i < len
            invariant
                i <= len,
                len == bytes@.len(),
                self.codec == old(self).codec,
                self.level == old(self).level,
                self.data@ == old(self).data@ + bytes@.subrange(0, i as int),
            decreases len - i,
        {
            self.data.push(bytes[i]);
            proof {
                assert(self.data@ =~= old(self).data@ + bytes@.subrange(0, i + 1));
            }
            i = i + 1;
        }
        proof {
            assert(bytes@.subrange(0, len as int) =~= bytes@);
        }
        len
    }

    /// Flush buffered payload bytes. Buffering is in memory and nothing
    /// leaves the writer before finalization, so this changes nothing.
    pub fn flush(&mut self)
        ensures
            *final(self) == *old(self),
    {
    }

    /// Finalize this writer, consuming it, and return the complete byte
    /// stream that belongs in the file: the payload as it stands for
    /// pass-through, or the finished gzip stream or LZ4 frame (end
    /// marker and content checksum included) for the compressed codecs.
    /// Pass-through cannot fail; the compressed codecs surface their
    /// backend's error.
    pub fn finalize(self) -> (r: Result<Vec<u8>, DetectError>)
        requires
            self.wf(),
        ensures
            self.codec_sel() == Codec::Identity ==> r is Ok,
            r matches Ok(v) ==> v@ == stored_stream_of(
                self.codec_sel(),
                self.level_sel(),
                self.buffered(),
            ),
            r matches Err(e) ==> e matches DetectError::Io(_),
    {
        match self.codec {
            Codec::Identity => Ok(self.data),
            Codec::Gzip => gzip_compress(self.data.as_slice(), self.level.into_flate2_compression()),
            Codec::Lz4 => {
                let lv = match self.level.into_lz4_level() {
                    Ok(v) => v,
                    Err(e) => {
                        return Err(e);
                    },
                };
                lz4_compress(self.data.as_slice(), lv)
            },
        }
    }
}

} // verus!
