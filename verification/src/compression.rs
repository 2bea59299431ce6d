//! Lossless compression of byte strings, as gzip streams.

use crate::error::CodecError;
use flate2::read::GzDecoder;
use flate2::write::GzEncoder;
use flate2::Compression;
use std::io::Read;
use std::io::Write;
use vstd::prelude::*;

verus! {

/// The error of `std::io`, of which nothing is known here.
#[verifier::external_type_specification]
#[verifier::external_body]
pub struct ExIoError(std::io::Error);

/// The gzip stream that the encoder writes for `data` at its fastest level,
/// or `None` where the encoder reports a failure.
pub uninterp spec fn gzip_encoded(data: Seq<u8>) -> Option<Seq<u8>>;

/// The bytes that the decoder restores from the gzip stream at the start of
/// `data`, or `None` where it finds no sound stream there.
pub uninterp spec fn gzip_decoded(data: Seq<u8>) -> Option<Seq<u8>>;

/// `flate2::write::GzEncoder::new` on an empty vector with
/// `Compression::fast()`, then `write_all` and `finish`. The contract claims
/// two things that are not proved: that the stream depends on the input
/// alone, which gives it the name `gzip_encoded`, and that it is a stream
/// from which the decoder restores the input.
#[verifier::external_body]
fn gzip_encode(data: &[u8]) -> (stream: Result<Vec<u8>, std::io::Error>)
    ensures
        match stream {
            Ok(bytes) => gzip_encoded(data@) == Some(bytes@) && gzip_decoded(bytes@) == Some(
                data@,
            ),
            Err(_) => gzip_encoded(data@) is None,
        },
{
    let mut encoder = GzEncoder::new(Vec::new(), Compression::fast());
    encoder.write_all(data)?;
    encoder.finish()
}

/// `flate2::read::GzDecoder::new` on the bytes, then `read_to_end`. The
/// contract claims that what is read, or that reading fails, depends on the
/// bytes alone, and gives the outcome the name `gzip_decoded`.
#[verifier::external_body]
fn gzip_decode(data: &[u8]) -> (restored: Result<Vec<u8>, std::io::Error>)
    ensures
        match restored {
            Ok(bytes) => gzip_decoded(data@) == Some(bytes@),
            Err(_) => gzip_decoded(data@) is None,
        },
{
    let mut decoder = GzDecoder::new(data);
    let mut restored = Vec::new();
    decoder.read_to_end(&mut restored)?;
    Ok(restored)
}

/// Compresses `data`. Whatever comes out is restored to `data` by
/// [`decompress`].
pub fn compress(data: &[u8]) -> (compressed: Result<Vec<u8>, CodecError>)
    ensures
        match compressed {
            Ok(bytes) => gzip_encoded(data@) == Some(bytes@) && gzip_decoded(bytes@) == Some(
                data@,
            ),
            Err(e) => e == CodecError::Compression && gzip_encoded(data@) is None,
        },
{
    match gzip_encode(data) {
        Ok(bytes) => Ok(bytes),
        Err(_) => Err(CodecError::Compression),
    }
}

/// Restores the bytes that were compressed into `data`.
pub fn decompress(data: &[u8]) -> (restored: Result<Vec<u8>, CodecError>)
    ensures
        match restored {
            Ok(bytes) => gzip_decoded(data@) == Some(bytes@),
            Err(e) => e == CodecError::Decompression && gzip_decoded(data@) is None,
        },
{
    match gzip_decode(data) {
        Ok(bytes) => Ok(bytes),
        Err(_) => Err(CodecError::Decompression),
    }
}

} // verus!
