//! The compression that a credential goes through before it is encrypted. The
//! compression itself is done by the `flate2` crate.

use vstd::prelude::*;
use vstd::string::StringExecFns;
use std::io::{Read, Write};

verus! {

#[verifier::external_type_specification]
#[verifier::external_body]
pub struct ExIoError(std::io::Error);

/// A compression algorithm that the two parties can agree on.
#[derive(Debug, Clone, Copy, PartialEq, Eq, Structural)]
pub enum ArchiveAlgorithm {
    /// Raw DEFLATE (RFC 1951).
    Deflate,
}

/// The DEFLATE stream that `flate2::write::DeflateEncoder` writes for `data`
/// at its default level, or nothing where it reports an error.
pub uninterp spec fn deflated(data: Seq<u8>) -> Option<Seq<u8>>;

/// The bytes that `flate2::read::DeflateDecoder` reads out of the DEFLATE
/// stream `data`, or nothing where it reports an error.
pub uninterp spec fn inflated(data: Seq<u8>) -> Option<Seq<u8>>;

/// The detail of every failure to compress or to decompress.
pub open spec fn zip_failure() -> Seq<char> {
    "zip error"@
}

/// What compressing `data` with `alg` gives.
pub open spec fn compressed(alg: ArchiveAlgorithm, data: Seq<u8>) -> Result<Seq<u8>, Seq<char>> {
    match alg {
        ArchiveAlgorithm::Deflate => match deflated(data) {
            Some(stream) => Ok(stream),
            None => Err(zip_failure()),
        },
    }
}

/// What decompressing `data` with `alg` gives.
pub open spec fn decompressed(alg: ArchiveAlgorithm, data: Seq<u8>) -> Result<
    Seq<u8>,
    Seq<char>,
> {
    match alg {
        ArchiveAlgorithm::Deflate => match inflated(data) {
            Some(bytes) => Ok(bytes),
            None => Err(zip_failure()),
        },
    }
}

/// The mathematical value of what compression and decompression return.
pub open spec fn zip_result(r: Result<Vec<u8>, String>) -> Result<Seq<u8>, Seq<char>> {
    match r {
        Ok(bytes) => Ok(bytes@),
        Err(message) => Err(message@),
    }
}

/// `DeflateEncoder` of `flate2` at `Compression::default()`, writing into a
/// vector: `write_all`, then `finish`. Claimed: the result is what
/// [`deflated`] names.
#[verifier::external_body]
fn deflate_compress(data: &[u8]) -> (r: Result<Vec<u8>, std::io::Error>)
    ensures
        match r {
            Ok(stream) => deflated(data@) == Some(stream@),
            Err(_) => deflated(data@) is None,
        },
{
    let level = flate2::Compression::default();
    let mut encoder = flate2::write::DeflateEncoder::new(Vec::new(), level);
    encoder.write_all(data)?;
    encoder.finish()
}

/// `DeflateDecoder` of `flate2`, read to its end. Claimed: the result is what
/// [`inflated`] names.
#[verifier::external_body]
fn deflate_decompress(data: &[u8]) -> (r: Result<Vec<u8>, std::io::Error>)
    ensures
        match r {
            Ok(bytes) => inflated(data@) == Some(bytes@),
            Err(_) => inflated(data@) is None,
        },
{
    let mut bytes = Vec::new();
    let mut decoder = flate2::read::DeflateDecoder::new(data);
    decoder.read_to_end(&mut bytes)?;
    Ok(bytes)
}

impl ArchiveAlgorithm {
    /// Compresses `data`.
    pub fn compress(&self, data: &[u8]) -> (r: Result<Vec<u8>, String>)
        ensures
            zip_result(r) == compressed(*self, data@),
    {
        match self {
            ArchiveAlgorithm::Deflate => match deflate_compress(data) {
                Ok(stream) => Ok(stream),
                Err(_) => Err(String::from_str("zip error")),
            },
        }
    }

    /// Decompresses `data`. Data that is not a well-formed stream is an error.
    pub fn decompress(&self, data: &[u8]) -> (r: Result<Vec<u8>, String>)
        ensures
            zip_result(r) == decompressed(*self, data@),
    {
        match self {
            ArchiveAlgorithm::Deflate => match deflate_decompress(data) {
                Ok(bytes) => Ok(bytes),
                Err(_) => Err(String::from_str("zip error")),
            },
        }
    }
}

} // verus!
