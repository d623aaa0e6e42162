//! Compression: a pure, stateless transform from bytes to bytes, plus a tag
//! identifying the algorithm for naming purposes. The set of algorithms is
//! closed and enumerable; adding a codec means adding a variant.
//!
//! Every algorithm promises two things: it accepts arbitrary binary input
//! without failing, and its output decodes back to exactly the input bytes —
//! compression never alters semantic content, only encoding.

use crate::config::{CompressionType, ConfigError};
use std::io::{Read, Write};
use vstd::prelude::*;

verus! {

/// A codec failure. Compression accepts arbitrary binary input, so this only
/// signals a failure of the underlying codec itself.
#[derive(Clone, Debug, PartialEq, Eq)]
pub struct CompressionError {
    pub cause: String,
}

/// What flate2's gzip decoder returns for a given byte sequence. Decoding is
/// a pure function of the stream's bytes.
pub uninterp spec fn gunzip_of(c: Seq<u8>) -> Seq<u8>;

/// Whether flate2's gzip decoder accepts a given byte sequence: decoding
/// succeeds exactly on well-formed gzip streams, a pure function of the
/// stream's bytes.
pub uninterp spec fn gunzip_ok(c: Seq<u8>) -> bool;

/// What the zstd decoder returns for a given byte sequence. Decoding is a
/// pure function of the stream's bytes.
pub uninterp spec fn unzstd_of(c: Seq<u8>) -> Seq<u8>;

/// Whether the zstd decoder accepts a given byte sequence, a pure function
/// of the stream's bytes.
pub uninterp spec fn unzstd_ok(c: Seq<u8>) -> bool;

/// Relies on flate2's `write::GzEncoder` over an in-memory buffer. Encoding
/// cannot fail: the encoder's `write` and `finish` surface only its inner
/// writer's errors, and a `Vec` writer never errors. Gzip is lossless, so
/// flate2's own decoder accepts the output and recovers from it exactly the
/// bytes that were encoded.
#[verifier::external_body]
fn gzip_encode(data: &[u8]) -> (r: Vec<u8>)
    ensures
        gunzip_of(r@) == data@,
        gunzip_ok(r@),
{
    let mut encoder = flate2::write::GzEncoder::new(Vec::new(), flate2::Compression::best());
    encoder.write_all(data).expect("writing into a Vec never fails");
    encoder.finish().expect("writing into a Vec never fails")
}

/// Relies on flate2's `read::GzDecoder`: decoding a gzip stream is a pure
/// function of the stream's bytes, succeeding exactly on well-formed
/// streams and failing on corrupt ones.
#[verifier::external_body]
fn gzip_decode(data: &[u8]) -> (r: Result<Vec<u8>, CompressionError>)
    ensures
        r is Ok <==> gunzip_ok(data@),
        r matches Ok(v) ==> v@ == gunzip_of(data@),
{
    let mut decoder = flate2::read::GzDecoder::new(data);
    let mut out = Vec::new();
    match decoder.read_to_end(&mut out) {
        Ok(_) => Ok(out),
        Err(e) => Err(CompressionError { cause: e.to_string() }),
    }
}

/// Relies on `zstd::encode_all` into memory, which fails only if the codec's
/// working context cannot be allocated; like the allocation behind `Vec`,
/// that failure is not modeled. Zstd is lossless, so its decoder accepts the
/// output and recovers from it exactly the bytes that were encoded.
#[verifier::external_body]
fn zstd_encode(data: &[u8]) -> (r: Vec<u8>)
    ensures
        unzstd_of(r@) == data@,
        unzstd_ok(r@),
{
    zstd::encode_all(data, zstd::DEFAULT_COMPRESSION_LEVEL)
        .expect("the zstd context could not be allocated")
}

/// Relies on `zstd::decode_all`: decoding a zstd stream is a pure function
/// of the stream's bytes, succeeding exactly on well-formed streams and
/// failing on corrupt ones.
#[verifier::external_body]
fn zstd_decode(data: &[u8]) -> (r: Result<Vec<u8>, CompressionError>)
    ensures
        r is Ok <==> unzstd_ok(data@),
        r matches Ok(v) ==> v@ == unzstd_of(data@),
{
    match zstd::decode_all(data) {
        Ok(v) => Ok(v),
        Err(e) => Err(CompressionError { cause: e.to_string() }),
    }
}

/// A compression strategy: a stable suffix for naming, and a bytes-to-bytes
/// transform whose output always decodes back to its input.
pub trait Compression: Sized {
    /// The algorithm's canonical file suffix, empty for no compression.
    spec fn spec_suffix(&self) -> Seq<char>;

    /// The decoding that recovers the original bytes from this algorithm's
    /// output.
    spec fn spec_decompress(&self, c: Seq<u8>) -> Seq<u8>;

    /// Whether this algorithm's decoder accepts the bytes `c`.
    spec fn spec_decompress_ok(&self, c: Seq<u8>) -> bool;

    /// Whether compressing `data` succeeds. Compression accepts arbitrary
    /// binary input, so every algorithm of this library answers `true`; a
    /// fallible codec would carve out its failures here.
    spec fn spec_compress_ok(&self, data: Seq<u8>) -> bool;

    fn file_suffix(&self) -> (r: &'static str)
        ensures
            r@ == self.spec_suffix(),
    ;

    /// Compresses binary input, succeeding exactly where the algorithm says
    /// it does. On success the output is accepted by the algorithm's decoder
    /// and decodes back to exactly the input.
    fn compress(&self, data: Vec<u8>) -> (r: Result<Vec<u8>, CompressionError>)
        ensures
            r is Ok <==> self.spec_compress_ok(data@),
            r matches Ok(v) ==> self.spec_decompress(v@) == data@ && self.spec_decompress_ok(
                v@,
            ),
    ;
}

/// The identity transform: bytes pass through unchanged.
#[derive(Clone, Copy, Debug)]
pub struct NoCompression {}

/// The DEFLATE-family codec, producing gzip streams.
#[derive(Clone, Copy, Debug)]
pub struct Gzip {}

/// The zstd codec.
#[derive(Clone, Copy, Debug)]
pub struct Zstd {}

impl NoCompression {
    pub fn new() -> (r: Self)
        ensures
            r == (NoCompression {  }),
    {
        Self {  }
    }
}

impl Gzip {
    pub fn new() -> (r: Self)
        ensures
            r == (Gzip {  }),
    {
        Self {  }
    }
}

impl Zstd {
    pub fn new() -> (r: Self)
        ensures
            r == (Zstd {  }),
    {
        Self {  }
    }
}

impl Compression for NoCompression {
    open spec fn spec_suffix(&self) -> Seq<char> {
        Seq::<char>::empty()
    }

    open spec fn spec_decompress(&self, c: Seq<u8>) -> Seq<u8> {
        c
    }

    open spec fn spec_decompress_ok(&self, c: Seq<u8>) -> bool {
        true
    }

    open spec fn spec_compress_ok(&self, data: Seq<u8>) -> bool {
        true
    }

    fn file_suffix(&self) -> (r: &'static str) {
        proof {
            reveal_strlit("");
        }
        ""
    }

    fn compress(&self, data: Vec<u8>) -> (r: Result<Vec<u8>, CompressionError>) {
        Ok(data)
    }
}

impl Compression for Gzip {
    open spec fn spec_suffix(&self) -> Seq<char> {
        "gz"@
    }

    open spec fn spec_decompress(&self, c: Seq<u8>) -> Seq<u8> {
        gunzip_of(c)
    }

    open spec fn spec_decompress_ok(&self, c: Seq<u8>) -> bool {
        gunzip_ok(c)
    }

    open spec fn spec_compress_ok(&self, data: Seq<u8>) -> bool {
        true
    }

    fn file_suffix(&self) -> (r: &'static str) {
        "gz"
    }

    fn compress(&self, data: Vec<u8>) -> (r: Result<Vec<u8>, CompressionError>) {
        Ok(gzip_encode(data.as_slice()))
    }
}

impl Compression for Zstd {
    open spec fn spec_suffix(&self) -> Seq<char> {
        "zst"@
    }

    open spec fn spec_decompress(&self, c: Seq<u8>) -> Seq<u8> {
        unzstd_of(c)
    }

    open spec fn spec_decompress_ok(&self, c: Seq<u8>) -> bool {
        unzstd_ok(c)
    }

    open spec fn spec_compress_ok(&self, data: Seq<u8>) -> bool {
        true
    }

    fn file_suffix(&self) -> (r: &'static str) {
        "zst"
    }

    fn compress(&self, data: Vec<u8>) -> (r: Result<Vec<u8>, CompressionError>) {
        Ok(zstd_encode(data.as_slice()))
    }
}

/// The closed set of compression strategies, dispatched as one value.
#[derive(Clone, Copy, Debug)]
pub enum CompressionAlgorithm {
    NoCompression(NoCompression),
    Gzip(Gzip),
    Zstd(Zstd),
}

impl Compression for CompressionAlgorithm {
    open spec fn spec_suffix(&self) -> Seq<char> {
        match self {
            CompressionAlgorithm::NoCompression(c) => c.spec_suffix(),
            CompressionAlgorithm::Gzip(c) => c.spec_suffix(),
            CompressionAlgorithm::Zstd(c) => c.spec_suffix(),
        }
    }

    open spec fn spec_decompress(&self, c: Seq<u8>) -> Seq<u8> {
        match self {
            CompressionAlgorithm::NoCompression(a) => a.spec_decompress(c),
            CompressionAlgorithm::Gzip(a) => a.spec_decompress(c),
            CompressionAlgorithm::Zstd(a) => a.spec_decompress(c),
        }
    }

    open spec fn spec_decompress_ok(&self, c: Seq<u8>) -> bool {
        match self {
            CompressionAlgorithm::NoCompression(a) => a.spec_decompress_ok(c),
            CompressionAlgorithm::Gzip(a) => a.spec_decompress_ok(c),
            CompressionAlgorithm::Zstd(a) => a.spec_decompress_ok(c),
        }
    }

    open spec fn spec_compress_ok(&self, data: Seq<u8>) -> bool {
        match self {
            CompressionAlgorithm::NoCompression(a) => a.spec_compress_ok(data),
            CompressionAlgorithm::Gzip(a) => a.spec_compress_ok(data),
            CompressionAlgorithm::Zstd(a) => a.spec_compress_ok(data),
        }
    }

    fn file_suffix(&self) -> (r: &'static str) {
        match self {
            CompressionAlgorithm::NoCompression(c) => c.file_suffix(),
            CompressionAlgorithm::Gzip(c) => c.file_suffix(),
            CompressionAlgorithm::Zstd(c) => c.file_suffix(),
        }
    }

    fn compress(&self, data: Vec<u8>) -> (r: Result<Vec<u8>, CompressionError>) {
        match self {
            CompressionAlgorithm::NoCompression(c) => c.compress(data),
            CompressionAlgorithm::Gzip(c) => c.compress(data),
            CompressionAlgorithm::Zstd(c) => c.compress(data),
        }
    }
}

impl CompressionAlgorithm {
    /// Recovers the original bytes from this algorithm's output, succeeding
    /// exactly where the algorithm's decoder accepts the bytes. Restore is an
    /// operator-driven path: every artifact stays decodable by the standard
    /// codec that produced it.
    pub fn decompress(&self, data: Vec<u8>) -> (r: Result<Vec<u8>, CompressionError>)
        ensures
            r is Ok <==> self.spec_decompress_ok(data@),
            r matches Ok(v) ==> v@ == self.spec_decompress(data@),
    {
        match self {
            CompressionAlgorithm::NoCompression(_) => Ok(data),
            CompressionAlgorithm::Gzip(_) => gzip_decode(data.as_slice()),
            CompressionAlgorithm::Zstd(_) => zstd_decode(data.as_slice()),
        }
    }

    /// Round-trip fidelity, for every algorithm and all input bytes:
    /// compressing and then decompressing succeeds whenever compression
    /// does — which is always, for this library's algorithms — and returns
    /// exactly the input.
    pub fn round_trip(&self, data: Vec<u8>) -> (r: Result<Vec<u8>, CompressionError>)
        ensures
            r is Ok <==> self.spec_compress_ok(data@),
            r matches Ok(v) ==> v@ == data@,
    {
        let compressed = match self.compress(data) {
            Ok(c) => c,
            Err(e) => {
                return Err(e);
            },
        };
        self.decompress(compressed)
    }
}

/// The strategy that a configuration selector denotes.
pub open spec fn spec_compression_for(algorithm: CompressionType) -> CompressionAlgorithm {
    match algorithm {
        CompressionType::Zstd => CompressionAlgorithm::Zstd(Zstd {  }),
        CompressionType::Gzip => CompressionAlgorithm::Gzip(Gzip {  }),
        CompressionType::Uncompressed => CompressionAlgorithm::NoCompression(NoCompression {  }),
    }
}

/// Builds the compression strategy that the configuration selects. Every
/// selector is supported, so this always succeeds.
pub fn create_compression(algorithm: CompressionType) -> (r: Result<
    CompressionAlgorithm,
    ConfigError,
>)
    ensures
        r matches Ok(c) && c == spec_compression_for(algorithm),
{
    match algorithm {
        CompressionType::Zstd => Ok(CompressionAlgorithm::Zstd(Zstd::new())),
        CompressionType::Gzip => Ok(CompressionAlgorithm::Gzip(Gzip::new())),
        CompressionType::Uncompressed => Ok(CompressionAlgorithm::NoCompression(NoCompression::new())),
    }
}

} // verus!
