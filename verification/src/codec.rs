use vstd::prelude::*;

use std::io::Read;
use std::io::Write;

use crate::error::DetectError;

verus! {

/// The gzip stream that flate2's encoder produces from `data` at the
/// flate2 compression parameter `level`. The stream depends on these two
/// arguments alone.
pub uninterp spec fn gzip_of(level: int, data: Seq<u8>) -> Seq<u8>;

/// What flate2's decoder yields for the byte stream `data`: the decoded
/// payload, or `None` when `data` is not a well-formed gzip stream.
pub uninterp spec fn gunzip_of(data: Seq<u8>) -> Option<Seq<u8>>;

/// The LZ4 frame (with content checksum) that the lz4 crate's encoder
/// produces from `data` at LZ4 compression parameter `level`. The frame
/// depends on these two arguments alone.
pub uninterp spec fn lz4_of(level: int, data: Seq<u8>) -> Seq<u8>;

/// What the lz4 crate's frame decoder yields for the byte stream `data`,
/// or `None` when it rejects the stream.
pub uninterp spec fn unlz4_of(data: Seq<u8>) -> Option<Seq<u8>>;

/// Relies on flate2's `write::GzEncoder` (`new`, `write_all`, `finish`):
/// it compresses the whole buffer into an in-memory gzip stream, a
/// function of the payload and the level alone. Its inner writer is an
/// infallible `Vec<u8>` here, but the deflate engine keeps an error path
/// of its own, so success is not promised.
#[verifier::external_body]
pub(crate) fn gzip_compress(data: &[u8], level: u32) -> (r: Result<Vec<u8>, DetectError>)
    requires
        level == 0 || level == 1 || level == 9,
    ensures
        r matches Ok(v) ==> v@ == gzip_of(level as int, data@),
        r matches Err(e) ==> e matches DetectError::Io(_),
{
    let mut enc = flate2::write::GzEncoder::new(Vec::new(), flate2::Compression::new(level));
    if let Err(e) = enc.write_all(data) {
        return Err(DetectError::Io(e.to_string()));
    }
    match enc.finish() {
        Ok(v) => Ok(v),
        Err(e) => Err(DetectError::Io(e.to_string())),
    }
}

/// Relies on flate2's `read::GzDecoder` (`new` and `read_to_end`): it
/// decodes a gzip stream deterministically, fails exactly on streams that
/// are not well-formed gzip, and decodes every stream its own encoder
/// produced back to that stream's payload.
#[verifier::external_body]
pub(crate) fn gzip_decompress(data: &[u8]) -> (r: Result<Vec<u8>, DetectError>)
    ensures
        r matches Ok(v) ==> gunzip_of(data@) == Some(v@),
        r matches Err(e) ==> gunzip_of(data@) is None && e matches DetectError::Io(_),
        forall|l: int, p: Seq<u8>|
            #![trigger gzip_of(l, p)]
            (l == 0 || l == 1 || l == 9) && data@ == gzip_of(l, p) ==> r is Ok,
        forall|l: int, p: Seq<u8>|
            #![trigger gzip_of(l, p)]
            (l == 0 || l == 1 || l == 9) && data@ == gzip_of(l, p) ==> (r matches Ok(v) ==> v@
                == p),
{
    let mut dec = flate2::read::GzDecoder::new(data);
    let mut out = Vec::new();
    match dec.read_to_end(&mut out) {
        Ok(_) => Ok(out),
        Err(e) => Err(DetectError::Io(e.to_string())),
    }
}

/// Relies on the lz4 crate's `EncoderBuilder` and `Encoder` (`build` with
/// content checksum enabled, `write_all`, `finish`): the produced frame is
/// a function of the payload and the level alone. Building the encoder
/// context may fail, so success is not promised.
#[verifier::external_body]
pub(crate) fn lz4_compress(data: &[u8], level: u32) -> (r: Result<Vec<u8>, DetectError>)
    requires
        level == 1 || level == 3,
    ensures
        r matches Ok(v) ==> v@ == lz4_of(level as int, data@),
        r matches Err(e) ==> e matches DetectError::Io(_),
{
    let mut builder = lz4::EncoderBuilder::new();
    builder.level(level).checksum(lz4::liblz4::ContentChecksum::ChecksumEnabled);
    let mut enc = match builder.build(Vec::new()) {
        Ok(e) => e,
        Err(e) => return Err(DetectError::Io(e.to_string())),
    };
    if let Err(e) = enc.write_all(data) {
        return Err(DetectError::Io(e.to_string()));
    }
    let (out, res) = enc.finish();
    match res {
        Ok(()) => Ok(out),
        Err(e) => Err(DetectError::Io(e.to_string())),
    }
}

/// Relies on the lz4 crate's `Decoder` (`new`, `read_to_end`, `finish`):
/// what it yields depends on the byte stream alone, `finish` rejects a
/// frame whose end marker was never reached, and a frame the encoder
/// produced decodes back to that frame's payload. Building the decoder
/// context may fail, so success is not promised.
#[verifier::external_body]
pub(crate) fn lz4_decompress(data: &[u8]) -> (r: Result<Vec<u8>, DetectError>)
    ensures
        r matches Ok(v) ==> unlz4_of(data@) == Some(v@),
        r matches Err(e) ==> e matches DetectError::Io(_),
        forall|l: int, p: Seq<u8>|
            #![trigger lz4_of(l, p)]
            (l == 1 || l == 3) && data@ == lz4_of(l, p) ==> (r matches Ok(v) ==> v@ == p),
{
    let mut dec = match lz4::Decoder::new(data) {
        Ok(d) => d,
        Err(e) => return Err(DetectError::Io(e.to_string())),
    };
    let mut out = Vec::new();
    if let Err(e) = dec.read_to_end(&mut out) {
        return Err(DetectError::Io(e.to_string()));
    }
    match dec.finish().1 {
        Ok(()) => Ok(out),
        Err(e) => Err(DetectError::Io(e.to_string())),
    }
}

} // verus!
