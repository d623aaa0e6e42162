use scb_backup::compression::{
    create_compression, Compression, CompressionAlgorithm, Gzip, NoCompression, Zstd,
};
use scb_backup::config::CompressionType;
use std::io::Read;

#[test]
fn no_compression() {
    let data = "some text";

    let compressed = NoCompression::new()
        .compress(data.as_bytes().to_vec())
        .unwrap();

    assert_eq!(data.as_bytes(), compressed.as_slice());
    assert_eq!(NoCompression {}.file_suffix(), "");
}

#[test]
fn gzip_compress() {
    let data = "some text";

    let compressed = Gzip::new().compress(data.as_bytes().to_vec()).unwrap();

    let mut decoder = flate2::read::GzDecoder::new(&compressed[..]);
    let mut s = String::new();
    decoder.read_to_string(&mut s).unwrap();

    assert_eq!(data, s);
}

#[test]
fn zstd_compress() {
    let data = "some text";

    let compressed = Zstd::new().compress(data.as_bytes().to_vec()).unwrap();

    let decompressed = zstd::decode_all(&compressed[..]).unwrap();
    let s = String::from_utf8(decompressed).unwrap();

    assert_eq!(data, s);
}

#[test]
fn file_suffixes() {
    assert_eq!(Gzip::new().file_suffix(), "gz");
    assert_eq!(Zstd::new().file_suffix(), "zst");
    assert_eq!(NoCompression::new().file_suffix(), "");
}

fn sample_binary() -> Vec<u8> {
    let mut data: Vec<u8> = Vec::new();
    for i in 0..1024u32 {
        data.push((i % 256) as u8);
        data.push((i / 3 % 256) as u8);
    }
    data
}

#[test]
fn round_trip_identity() {
    let alg = CompressionAlgorithm::NoCompression(NoCompression::new());
    let data = sample_binary();
    let compressed = alg.compress(data.clone()).unwrap();
    let restored = alg.decompress(compressed).unwrap();
    assert_eq!(restored, data);
}

#[test]
fn round_trip_gzip() {
    let alg = CompressionAlgorithm::Gzip(Gzip::new());
    let data = sample_binary();
    let compressed = alg.compress(data.clone()).unwrap();
    assert_ne!(compressed, data);
    let restored = alg.decompress(compressed).unwrap();
    assert_eq!(restored, data);
}

#[test]
fn round_trip_zstd() {
    let alg = CompressionAlgorithm::Zstd(Zstd::new());
    let data = sample_binary();
    let compressed = alg.compress(data.clone()).unwrap();
    assert_ne!(compressed, data);
    let restored = alg.decompress(compressed).unwrap();
    assert_eq!(restored, data);
}

#[test]
fn round_trip_empty_input() {
    let data: Vec<u8> = Vec::new();
    for alg in [
        CompressionAlgorithm::NoCompression(NoCompression::new()),
        CompressionAlgorithm::Gzip(Gzip::new()),
        CompressionAlgorithm::Zstd(Zstd::new()),
    ] {
        let compressed = alg.compress(data.clone()).unwrap();
        let restored = alg.decompress(compressed).unwrap();
        assert_eq!(restored, data);
    }
}

#[test]
fn compress_accepts_arbitrary_input() {
    let data = sample_binary();
    assert!(NoCompression::new().compress(data.clone()).is_ok());
    assert!(Gzip::new().compress(data.clone()).is_ok());
    assert!(Zstd::new().compress(data.clone()).is_ok());
    assert!(Gzip::new().compress(Vec::new()).is_ok());
    assert!(Zstd::new().compress(Vec::new()).is_ok());
}

#[test]
fn round_trip_entry_point() {
    let data = sample_binary();
    for alg in [
        CompressionAlgorithm::NoCompression(NoCompression::new()),
        CompressionAlgorithm::Gzip(Gzip::new()),
        CompressionAlgorithm::Zstd(Zstd::new()),
    ] {
        assert_eq!(alg.round_trip(data.clone()).unwrap(), data);
    }
}

#[test]
fn decompress_externally_encoded_gzip() {
    // A stream produced by the codec directly must decode through the
    // library's gzip path to the original bytes.
    let data = b"externally encoded payload".to_vec();
    let mut encoder =
        flate2::write::GzEncoder::new(Vec::new(), flate2::Compression::default());
    std::io::Write::write_all(&mut encoder, &data).unwrap();
    let stream = encoder.finish().unwrap();
    assert_ne!(stream, data);

    let alg = CompressionAlgorithm::Gzip(Gzip::new());
    assert_eq!(alg.decompress(stream).unwrap(), data);
}

#[test]
fn decompress_externally_encoded_zstd() {
    let data = b"externally encoded payload".to_vec();
    let stream = zstd::encode_all(&data[..], 0).unwrap();
    assert_ne!(stream, data);

    let alg = CompressionAlgorithm::Zstd(Zstd::new());
    assert_eq!(alg.decompress(stream).unwrap(), data);
}

#[test]
fn decompress_corrupt_gzip_stream_fails() {
    let alg = CompressionAlgorithm::Gzip(Gzip::new());
    assert!(alg.decompress(vec![1, 2, 3, 4]).is_err());
}

#[test]
fn create_compression_selects_each_algorithm() {
    assert!(matches!(
        create_compression(CompressionType::Zstd),
        Ok(CompressionAlgorithm::Zstd(_))
    ));
    assert!(matches!(
        create_compression(CompressionType::Gzip),
        Ok(CompressionAlgorithm::Gzip(_))
    ));
    assert!(matches!(
        create_compression(CompressionType::Uncompressed),
        Ok(CompressionAlgorithm::NoCompression(_))
    ));
}

#[test]
fn default_compression_type_is_zstd() {
    assert_eq!(CompressionType::default(), CompressionType::Zstd);
}
