use std::io::Write;

use detect_compression::{detect_codec, Codec, DetectError, DetectReader, DetectWriter, Level};

fn round_trip(path: &str, level: Level, payload: &[u8]) {
    let mut w = DetectWriter::create(path, level).unwrap();
    let n = w.write(payload);
    assert_eq!(n, payload.len());
    let stored = w.finalize().unwrap();
    let mut r = DetectReader::open(path, stored).unwrap();
    let got = r.read(payload.len() + 16);
    assert_eq!(got, payload.to_vec());
    assert!(r.read(16).is_empty());
}

#[test]
fn gz_round_trip_every_level() {
    let payload = b"to be, or not to be, that is the question, repeated and repeated";
    round_trip("data.txt.gz", Level::NoCompression, payload);
    round_trip("data.txt.gz", Level::Minimum, payload);
    round_trip("data.txt.gz", Level::Maximum, payload);
}

#[test]
fn lz4_round_trip_every_valid_level() {
    let payload = b"to be, or not to be, that is the question, repeated and repeated";
    round_trip("data.txt.lz4", Level::Minimum, payload);
    round_trip("data.txt.lz4", Level::Maximum, payload);
}

#[test]
fn round_trip_empty_payload() {
    round_trip("empty.gz", Level::Maximum, b"");
    round_trip("empty.lz4", Level::Minimum, b"");
    round_trip("empty", Level::Maximum, b"");
}

#[test]
fn round_trip_binary_payload() {
    let mut payload = Vec::new();
    let mut i: u32 = 0;
    while i < 4096 {
        payload.push((i % 251) as u8);
        i += 1;
    }
    round_trip("blob.bin.gz", Level::Minimum, &payload);
    round_trip("blob.bin.lz4", Level::Maximum, &payload);
}

#[test]
fn unrecognized_extension_stores_bytes_unchanged() {
    let payload = b"plain bytes, stored exactly as written";
    for path in ["data", "data.txt", "data.zip", "data.gzip", "archive.lz", "x.gz2"] {
        let mut w = DetectWriter::create(path, Level::Maximum).unwrap();
        w.write(payload);
        let stored = w.finalize().unwrap();
        assert_eq!(stored, payload.to_vec());
        let mut r = DetectReader::open(path, stored).unwrap();
        assert_eq!(r.read(payload.len()), payload.to_vec());
    }
}

#[test]
fn uppercase_extension_is_identity() {
    let payload = b"case matters: this is not gzip";
    assert_eq!(detect_codec("archive.GZ"), Codec::Identity);
    assert_eq!(detect_codec("archive.LZ4"), Codec::Identity);
    let mut w = DetectWriter::create("archive.GZ", Level::Maximum).unwrap();
    w.write(payload);
    let stored = w.finalize().unwrap();
    assert_eq!(stored, payload.to_vec());
    let mut r = DetectReader::open("archive.GZ", stored).unwrap();
    assert_eq!(r.read(payload.len()), payload.to_vec());
}

#[test]
fn lz4_with_no_compression_is_invalid_input() {
    let e = DetectWriter::create("out.lz4", Level::NoCompression).unwrap_err();
    assert!(matches!(e, DetectError::InvalidInput));
    assert_eq!(e.message(), "LZ4 don't support non-compression mode");
}

#[test]
fn gz_with_no_compression_is_accepted() {
    round_trip("out.gz", Level::NoCompression, b"gzip has a stored mode");
}

#[test]
fn level_mappings_are_exact() {
    assert_eq!(Level::NoCompression.into_flate2_compression(), 0);
    assert_eq!(Level::Minimum.into_flate2_compression(), 1);
    assert_eq!(Level::Maximum.into_flate2_compression(), 9);
    assert!(matches!(
        Level::NoCompression.into_lz4_level(),
        Err(DetectError::InvalidInput)
    ));
    assert_eq!(Level::Minimum.into_lz4_level().unwrap(), 1);
    assert_eq!(Level::Maximum.into_lz4_level().unwrap(), 3);
}

#[test]
fn stored_gz_bytes_match_flate2() {
    let payload = b"the very same stream flate2 would have produced";
    let mut w = DetectWriter::create("direct.gz", Level::Minimum).unwrap();
    w.write(payload);
    let stored = w.finalize().unwrap();
    let mut enc = flate2::write::GzEncoder::new(Vec::new(), flate2::Compression::new(1));
    enc.write_all(payload).unwrap();
    let expected = enc.finish().unwrap();
    assert_eq!(stored, expected);
    assert_ne!(stored, payload.to_vec());
}

#[test]
fn stored_lz4_bytes_match_lz4_crate() {
    let payload = b"the very same frame the lz4 crate would have produced";
    let mut w = DetectWriter::create("direct.lz4", Level::Maximum).unwrap();
    w.write(payload);
    let stored = w.finalize().unwrap();
    let mut builder = lz4::EncoderBuilder::new();
    builder
        .level(3)
        .checksum(lz4::liblz4::ContentChecksum::ChecksumEnabled);
    let mut enc = builder.build(Vec::new()).unwrap();
    enc.write_all(payload).unwrap();
    let (expected, res) = enc.finish();
    res.unwrap();
    assert_eq!(stored, expected);
    assert_ne!(stored, payload.to_vec());
}

#[test]
fn byte_count_through_writer() {
    let payload = vec![7u8; 1000];
    let mut w = DetectWriter::create("counted", Level::Maximum).unwrap();
    w.write(&payload);
    let stored = w.finalize().unwrap();
    assert_eq!(stored.len(), 1000);

    let mut w = DetectWriter::create("counted.gz", Level::Maximum).unwrap();
    w.write(&payload);
    let compressed = w.finalize().unwrap();
    assert_ne!(compressed.len(), 1000);
    let mut enc = flate2::write::GzEncoder::new(Vec::new(), flate2::Compression::new(9));
    enc.write_all(&payload).unwrap();
    assert_eq!(compressed.len(), enc.finish().unwrap().len());
}

#[test]
fn peek_then_consume() {
    let payload = b"hello world";
    let mut w = DetectWriter::create("peek.txt", Level::Minimum).unwrap();
    w.write(payload);
    let stored = w.finalize().unwrap();
    let mut r = DetectReader::open("peek.txt", stored).unwrap();
    let view = r.fill_buf().to_vec();
    assert_eq!(view, payload.to_vec());
    r.consume(6);
    assert_eq!(r.fill_buf(), &b"world"[..]);
    assert_eq!(r.read(3), b"wor".to_vec());
    assert_eq!(r.fill_buf(), &b"ld"[..]);
    r.consume(2);
    assert!(r.fill_buf().is_empty());
}

#[test]
fn peek_on_compressed_stream() {
    let payload = b"peeking at a decoded gzip payload";
    let mut w = DetectWriter::create("peek.gz", Level::Maximum).unwrap();
    w.write(payload);
    let stored = w.finalize().unwrap();
    let mut r = DetectReader::open("peek.gz", stored).unwrap();
    assert_eq!(r.fill_buf(), &payload[..]);
    r.consume(8);
    assert_eq!(r.fill_buf(), &payload[8..]);
}

#[test]
fn corrupt_gz_stream_is_an_io_error() {
    let e = DetectReader::open("bad.gz", b"this is no gzip stream".to_vec()).unwrap_err();
    assert!(matches!(e, DetectError::Io(_)));
}

#[test]
fn truncated_lz4_frame_is_an_io_error() {
    let payload = b"a frame that will lose its end marker and checksum";
    let mut w = DetectWriter::create("cut.lz4", Level::Minimum).unwrap();
    w.write(payload);
    let mut stored = w.finalize().unwrap();
    stored.truncate(stored.len() / 2);
    let e = DetectReader::open("cut.lz4", stored).unwrap_err();
    assert!(matches!(e, DetectError::Io(_)));
}

#[test]
fn dispatch_edge_cases() {
    assert_eq!(detect_codec("a.gz"), Codec::Gzip);
    assert_eq!(detect_codec("a.lz4"), Codec::Lz4);
    assert_eq!(detect_codec("dir/inner/a.tar.gz"), Codec::Gzip);
    assert_eq!(detect_codec(""), Codec::Identity);
    assert_eq!(detect_codec("noext"), Codec::Identity);
    assert_eq!(detect_codec(".gz"), Codec::Identity);
    assert_eq!(detect_codec("dir/.lz4"), Codec::Identity);
    assert_eq!(detect_codec("trailing."), Codec::Identity);
    assert_eq!(detect_codec("dir.gz/file"), Codec::Identity);
    assert_eq!(detect_codec("dir/a.gz/"), Codec::Gzip);
    assert_eq!(detect_codec(".tar.gz"), Codec::Gzip);
}
