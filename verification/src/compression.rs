//! The compression formats of backups: compressing and decompressing bytes
//! with flate2, and recognising a format by its first bytes.
use vstd::prelude::*;

verus! {

/// How a backup is compressed.
#[derive(Debug, Clone, Copy, PartialEq, Eq, Structural)]
pub enum CompressionFormat {
    Gzip,
    Zlib,
    Deflate,
    /// No compression (`None` in the serialized form).
    Uncompressed,
}

/// The file extension that a backup name gets for a format (empty for none).
pub open spec fn extension_text(format: CompressionFormat) -> Seq<char> {
    match format {
        CompressionFormat::Zlib => seq!['z', 'i', 'p'],
        CompressionFormat::Deflate => seq!['z', 'z'],
        CompressionFormat::Gzip => seq!['g', 'z'],
        CompressionFormat::Uncompressed => Seq::empty(),
    }
}

/// The gzip stream flate2 writes for `data` at `level`.
pub uninterp spec fn gzip_encoded(level: u32, data: Seq<u8>) -> Seq<u8>;

/// What flate2 reads back from a gzip stream, where it is one.
pub uninterp spec fn gzip_decoded(data: Seq<u8>) -> Option<Seq<u8>>;

/// Compresses `data` with flate2's `write::GzEncoder` at `level` into memory.
/// The contract names the stream and states that flate2's `read::GzDecoder`
/// reads `data` back from it. Writing into a `Vec` does not fail, and the
/// compressor reports an error only on parameters that are not valid, which a
/// level of at most 10 rules out; so a stream always comes back. A level
/// above 10 trips a debug assertion in flate2's backend, hence the `requires`.
#[verifier::external_body]
fn gzip_encode(level: u32, data: &[u8]) -> (r: Option<Vec<u8>>)
    requires
        level <= 10,
    ensures
        r is Some,
        match r {
            Some(v) => v@ == gzip_encoded(level, data@) && gzip_decoded(v@) == Some(data@),
            None => false,
        },
{
    let mut e = flate2::write::GzEncoder::new(Vec::new(), flate2::Compression::new(level));
    match std::io::Write::write_all(&mut e, data) {
        Ok(()) => e.finish().ok(),
        Err(_) => None,
    }
}

/// Decompresses a gzip stream with flate2's `read::GzDecoder`. The contract
/// names the result: the format is flate2's; `None` where the stream is not
/// valid.
#[verifier::external_body]
fn gzip_decode(data: &[u8]) -> (r: Option<Vec<u8>>)
    ensures
        match r {
            Some(v) => gzip_decoded(data@) == Some(v@),
            None => gzip_decoded(data@) is None,
        },
{
    let mut out = Vec::new();
    match std::io::Read::read_to_end(&mut flate2::read::GzDecoder::new(data), &mut out) {
        Ok(_) => Some(out),
        Err(_) => None,
    }
}

/// The zlib stream flate2 writes for `data` at `level`.
pub uninterp spec fn zlib_encoded(level: u32, data: Seq<u8>) -> Seq<u8>;

/// What flate2 reads back from a zlib stream, where it is one.
pub uninterp spec fn zlib_decoded(data: Seq<u8>) -> Option<Seq<u8>>;

/// Compresses `data` with flate2's `write::ZlibEncoder` at `level` into memory.
/// The contract names the stream and states that flate2's `read::ZlibDecoder`
/// reads `data` back from it. Writing into a `Vec` does not fail, and the
/// compressor reports an error only on parameters that are not valid, which a
/// level of at most 10 rules out; so a stream always comes back. A level
/// above 10 trips a debug assertion in flate2's backend, hence the `requires`.
#[verifier::external_body]
fn zlib_encode(level: u32, data: &[u8]) -> (r: Option<Vec<u8>>)
    requires
        level <= 10,
    ensures
        r is Some,
        match r {
            Some(v) => v@ == zlib_encoded(level, data@) && zlib_decoded(v@) == Some(data@),
            None => false,
        },
{
    let mut e = flate2::write::ZlibEncoder::new(Vec::new(), flate2::Compression::new(level));
    match std::io::Write::write_all(&mut e, data) {
        Ok(()) => e.finish().ok(),
        Err(_) => None,
    }
}

/// Decompresses a zlib stream with flate2's `read::ZlibDecoder`. The contract
/// names the result: the format is flate2's; `None` where the stream is not
/// valid.
#[verifier::external_body]
fn zlib_decode(data: &[u8]) -> (r: Option<Vec<u8>>)
    ensures
        match r {
            Some(v) => zlib_decoded(data@) == Some(v@),
            None => zlib_decoded(data@) is None,
        },
{
    let mut out = Vec::new();
    match std::io::Read::read_to_end(&mut flate2::read::ZlibDecoder::new(data), &mut out) {
        Ok(_) => Some(out),
        Err(_) => None,
    }
}

/// The raw DEFLATE stream flate2 writes for `data` at `level`.
pub uninterp spec fn deflate_encoded(level: u32, data: Seq<u8>) -> Seq<u8>;

/// What flate2 reads back from a raw DEFLATE stream, where it is one.
pub uninterp spec fn deflate_decoded(data: Seq<u8>) -> Option<Seq<u8>>;

/// Compresses `data` with flate2's `write::DeflateEncoder` at `level` into memory.
/// The contract names the stream and states that flate2's `read::DeflateDecoder`
/// reads `data` back from it. Writing into a `Vec` does not fail, and the
/// compressor reports an error only on parameters that are not valid, which a
/// level of at most 10 rules out; so a stream always comes back. A level
/// above 10 trips a debug assertion in flate2's backend, hence the `requires`.
#[verifier::external_body]
fn deflate_encode(level: u32, data: &[u8]) -> (r: Option<Vec<u8>>)
    requires
        level <= 10,
    ensures
        r is Some,
        match r {
            Some(v) => v@ == deflate_encoded(level, data@) && deflate_decoded(v@) == Some(data@),
            None => false,
        },
{
    let mut e = flate2::write::DeflateEncoder::new(Vec::new(), flate2::Compression::new(level));
    match std::io::Write::write_all(&mut e, data) {
        Ok(()) => e.finish().ok(),
        Err(_) => None,
    }
}

/// Decompresses a raw DEFLATE stream with flate2's `read::DeflateDecoder`. The contract
/// names the result: the format is flate2's; `None` where the stream is not
/// valid.
#[verifier::external_body]
fn deflate_decode(data: &[u8]) -> (r: Option<Vec<u8>>)
    ensures
        match r {
            Some(v) => deflate_decoded(data@) == Some(v@),
            None => deflate_decoded(data@) is None,
        },
{
    let mut out = Vec::new();
    match std::io::Read::read_to_end(&mut flate2::read::DeflateDecoder::new(data), &mut out) {
        Ok(_) => Some(out),
        Err(_) => None,
    }
}

/// The bytes `data` compressed in `format` at `level`.
pub open spec fn encoded(format: CompressionFormat, level: u32, data: Seq<u8>) -> Seq<u8> {
    match format {
        CompressionFormat::Gzip => gzip_encoded(level, data),
        CompressionFormat::Zlib => zlib_encoded(level, data),
        CompressionFormat::Deflate => deflate_encoded(level, data),
        CompressionFormat::Uncompressed => data,
    }
}

/// What reading `data` as compressed in `format` gives, where it is valid.
pub open spec fn decoded(format: CompressionFormat, data: Seq<u8>) -> Option<Seq<u8>> {
    match format {
        CompressionFormat::Gzip => gzip_decoded(data),
        CompressionFormat::Zlib => zlib_decoded(data),
        CompressionFormat::Deflate => deflate_decoded(data),
        CompressionFormat::Uncompressed => Some(data),
    }
}

/// Why bytes could not be compressed or decompressed.
#[derive(Debug, Clone, Copy, PartialEq, Eq, Structural)]
pub enum CompressionError {
    /// Writing the compressed stream failed (which compressing into memory
    /// never does).
    WriteFailed,
    /// The bytes are not a valid stream of the format.
    InvalidStream,
}

/// `data` compressed in `format` at `level` (0 to 10; no compression at all
/// for `Uncompressed`). It always succeeds, and what comes out decompresses to
/// `data` again. Levels above 10 are left out: flate2's backend asserts
/// against them in debug builds.
pub fn compress(data: &[u8], format: CompressionFormat, level: u32) -> (r: Result<Vec<u8>, CompressionError>)
    requires
        level <= 10,
    ensures
        r is Ok,
        match r {
            Ok(v) => v@ == encoded(format, level, data@) && decoded(format, v@) == Some(data@),
            Err(_) => false,
        },
{
    let out = match format {
        CompressionFormat::Gzip => gzip_encode(level, data),
        CompressionFormat::Zlib => zlib_encode(level, data),
        CompressionFormat::Deflate => deflate_encode(level, data),
        CompressionFormat::Uncompressed => {
            let mut v: Vec<u8> = Vec::new();
            let mut i: usize = 0;
            while i < data.len()
                invariant
                    i <= data@.len(),
                    v@ == data@.take(i as int),
                decreases data@.len() - i,
            {
                v.push(data[i]);
                i = i + 1;
                assert(v@ =~= data@.take(i as int));
            }
            assert(data@.take(data@.len() as int) =~= data@);
            Some(v)
        },
    };
    match out {
        Some(v) => Ok(v),
        None => Err(CompressionError::WriteFailed),
    }
}

/// The bytes that `data`, compressed in `format`, stands for; an error where
/// it is not a valid stream of the format.
pub fn decompress(data: &[u8], format: CompressionFormat) -> (r: Result<Vec<u8>, CompressionError>)
    ensures
        match r {
            Ok(v) => decoded(format, data@) == Some(v@),
            Err(e) => decoded(format, data@) is None && e == CompressionError::InvalidStream,
        },
{
    let out = match format {
        CompressionFormat::Gzip => gzip_decode(data),
        CompressionFormat::Zlib => zlib_decode(data),
        CompressionFormat::Deflate => deflate_decode(data),
        CompressionFormat::Uncompressed => {
            let mut v: Vec<u8> = Vec::new();
            let mut i: usize = 0;
            while i < data.len()
                invariant
                    i <= data@.len(),
                    v@ == data@.take(i as int),
                decreases data@.len() - i,
            {
                v.push(data[i]);
                i = i + 1;
                assert(v@ =~= data@.take(i as int));
            }
            assert(data@.take(data@.len() as int) =~= data@);
            Some(v)
        },
    };
    match out {
        Some(v) => Ok(v),
        None => Err(CompressionError::InvalidStream),
    }
}

/// The format that the first bytes of a stream reveal: gzip for `1f 8b`,
/// zlib for `78` followed by `01`, `9c` or `da`, none otherwise (also where
/// fewer than two bytes could be read).
pub open spec fn format_of_signature(sig: Seq<u8>) -> CompressionFormat {
    if sig.len() < 2 {
        CompressionFormat::Uncompressed
    } else if sig[0] == 0x1f && sig[1] == 0x8b {
        CompressionFormat::Gzip
    } else if sig[0] == 0x78 && (sig[1] == 0x01 || sig[1] == 0x9c || sig[1] == 0xda) {
        CompressionFormat::Zlib
    } else {
        CompressionFormat::Uncompressed
    }
}

/// The format of a stream whose first bytes (up to three) are `signature`;
/// see `format_of_signature`.
pub fn detect_format(signature: &[u8]) -> (r: CompressionFormat)
    ensures
        r == format_of_signature(signature@),
        signature@.len() >= 2 && signature@[0] == 0x1f && signature@[1] == 0x8b ==> r == CompressionFormat::Gzip,
        signature@.len() >= 2 && signature@[0] == 0x78 && (signature@[1] == 0x01 || signature@[1] == 0x9c
            || signature@[1] == 0xda) ==> r == CompressionFormat::Zlib,
{
    let n = signature.len();
    if n < 2 {
        CompressionFormat::Uncompressed
    } else if signature[0] == 0x1f && signature[1] == 0x8b {
        CompressionFormat::Gzip
    } else if signature[0] == 0x78 && (signature[1] == 0x01 || signature[1] == 0x9c || signature[1] == 0xda) {
        CompressionFormat::Zlib
    } else {
        CompressionFormat::Uncompressed
    }
}

/// Detection goes by the standard headers: `1f 8b` opens a gzip stream, and
/// `78` followed by `01`, `9c` or `da` (the zlib headers of low, default and
/// best compression) a zlib stream; a stream that opens with neither, or with
/// fewer than two bytes, is read as uncompressed; and only the first two bytes
/// count.
pub proof fn lemma_detection_by_header(sig: Seq<u8>, other: Seq<u8>)
    ensures
        sig.len() >= 2 && sig[0] == 0x1f && sig[1] == 0x8b ==> format_of_signature(sig) == CompressionFormat::Gzip,
        sig.len() >= 2 && sig[0] == 0x78 && (sig[1] == 0x01 || sig[1] == 0x9c || sig[1] == 0xda)
            ==> format_of_signature(sig) == CompressionFormat::Zlib,
        format_of_signature(sig) == CompressionFormat::Gzip ==> sig.len() >= 2 && sig[0] == 0x1f && sig[1] == 0x8b,
        format_of_signature(sig) == CompressionFormat::Zlib ==> sig.len() >= 2 && sig[0] == 0x78 && (sig[1] == 0x01
            || sig[1] == 0x9c || sig[1] == 0xda),
        format_of_signature(sig) != CompressionFormat::Deflate,
        sig.len() >= 2 && other.len() >= 2 && sig[0] == other[0] && sig[1] == other[1] ==> format_of_signature(sig)
            == format_of_signature(other),
{
}

} // verus!
