//! Decompression of transfer-encoded bodies.
//!
//! A body arrives under one of four content encodings, or plain. Each
//! decoder is an outside routine whose output is a function of the bytes
//! alone; the dispatch on the declared encoding, compared without regard to
//! letter case, is the engine's own.

use vstd::prelude::*;
use vstd::slice::slice_to_vec;
use vstd::string::StrSliceExecFns;

verus! {

/// What gzip decoding yields on given bytes, when it succeeds.
pub uninterp spec fn gunzip_of(b: Seq<u8>) -> Option<Seq<u8>>;

/// What zlib decoding yields on given bytes, when it succeeds.
pub uninterp spec fn inflate_of(b: Seq<u8>) -> Option<Seq<u8>>;

/// What brotli decoding yields on given bytes, when it succeeds.
pub uninterp spec fn unbrotli_of(b: Seq<u8>) -> Option<Seq<u8>>;

/// What zstd decoding yields on given bytes, when it succeeds.
pub uninterp spec fn unzstd_of(b: Seq<u8>) -> Option<Seq<u8>>;

/// Relies on flate2's `GzDecoder` read to end: gzip decoding, a function
/// of the bytes alone.
#[verifier::external_body]
fn gunzip(bytes: &[u8]) -> (r: Option<Vec<u8>>)
    ensures
        match r {
            Some(v) => gunzip_of(bytes@) == Some(v@),
            None => gunzip_of(bytes@) is None,
        },
{
    let mut decoder = flate2::read::GzDecoder::new(bytes);
    let mut out = Vec::new();
    match std::io::Read::read_to_end(&mut decoder, &mut out) {
        Ok(_) => Some(out),
        Err(_) => None,
    }
}

/// Relies on flate2's `ZlibDecoder` read to end: zlib decoding, a function
/// of the bytes alone.
#[verifier::external_body]
fn inflate(bytes: &[u8]) -> (r: Option<Vec<u8>>)
    ensures
        match r {
            Some(v) => inflate_of(bytes@) == Some(v@),
            None => inflate_of(bytes@) is None,
        },
{
    let mut decoder = flate2::read::ZlibDecoder::new(bytes);
    let mut out = Vec::new();
    match std::io::Read::read_to_end(&mut decoder, &mut out) {
        Ok(_) => Some(out),
        Err(_) => None,
    }
}

/// Relies on brotli's `Decompressor` read to end: brotli decoding, a
/// function of the bytes alone.
#[verifier::external_body]
fn unbrotli(bytes: &[u8]) -> (r: Option<Vec<u8>>)
    ensures
        match r {
            Some(v) => unbrotli_of(bytes@) == Some(v@),
            None => unbrotli_of(bytes@) is None,
        },
{
    let mut decoder = brotli::Decompressor::new(bytes, 4096);
    let mut out = Vec::new();
    match std::io::Read::read_to_end(&mut decoder, &mut out) {
        Ok(_) => Some(out),
        Err(_) => None,
    }
}

/// Relies on zstd's `decode_all`: zstd decoding, a function of the bytes
/// alone.
#[verifier::external_body]
fn unzstd(bytes: &[u8]) -> (r: Option<Vec<u8>>)
    ensures
        match r {
            Some(v) => unzstd_of(bytes@) == Some(v@),
            None => unzstd_of(bytes@) is None,
        },
{
    zstd::stream::decode_all(bytes).ok()
}

/// Why a body could not be decompressed.
#[derive(Debug, Clone, Copy, PartialEq, Eq, Structural)]
pub enum DecompressError {
    /// The declared encoding is not one the engine handles.
    Unsupported,
    /// The declared decoder rejected the bytes.
    Failed,
}

/// A character's code with an upper-case letter lowered.
pub open spec fn spec_lower_code(c: char) -> u32 {
    if 65 <= c as u32 <= 90 {
        (c as u32 + 32) as u32
    } else {
        c as u32
    }
}

/// Whether two strings are equal without regard to letter case.
pub open spec fn spec_eq_nocase(a: Seq<char>, b: Seq<char>) -> bool {
    a.len() == b.len() && forall|i: int|
        0 <= i < a.len() ==> spec_lower_code(#[trigger] a[i]) == spec_lower_code(b[i])
}

/// Case-insensitive string comparison, per `spec_eq_nocase`.
fn eq_nocase(a: &str, b: &str) -> (r: bool)
    ensures
        r == spec_eq_nocase(a@, b@),
{
    let an = a.unicode_len();
    let bn = b.unicode_len();
    if an != bn {
        return false;
    }
    let mut i: usize = 0;
    while i < an
        invariant
            i <= an,
            an == a@.len(),
            an == b@.len(),
            forall|j: int| 0 <= j < i ==> spec_lower_code(#[trigger] a@[j]) == spec_lower_code(
                b@[j],
            ),
        decreases an - i,
    {
        let ca = a.get_char(i) as u32;
        let cb = b.get_char(i) as u32;
        let la = if 65 <= ca && ca <= 90 {
            ca + 32
        } else {
            ca
        };
        let lb = if 65 <= cb && cb <= 90 {
            cb + 32
        } else {
            cb
        };
        if la != lb {
            return false;
        }
        i = i + 1;
    }
    true
}

/// What decompressing yields: no value for an unhandled encoding, a
/// decoder's outcome for its encoding, and the bytes themselves for a
/// plain body.
pub open spec fn spec_decompress(b: Seq<u8>, enc: Seq<char>) -> Option<Option<Seq<u8>>> {
    if spec_eq_nocase(enc, "gzip"@) {
        Some(gunzip_of(b))
    } else if spec_eq_nocase(enc, "deflate"@) {
        Some(inflate_of(b))
    } else if spec_eq_nocase(enc, "br"@) {
        Some(unbrotli_of(b))
    } else if spec_eq_nocase(enc, "zstd"@) {
        Some(unzstd_of(b))
    } else if enc.len() == 0 || spec_eq_nocase(enc, "identity"@) {
        Some(Some(b))
    } else {
        None
    }
}

/// Decompresses a body under its declared content encoding, per
/// `spec_decompress`.
pub fn decompress_body(bytes: &[u8], encoding: &str) -> (r: Result<Vec<u8>, DecompressError>)
    ensures
        match r {
            Ok(v) => spec_decompress(bytes@, encoding@) == Some(Some(v@)),
            Err(e) => if e == DecompressError::Unsupported {
                spec_decompress(bytes@, encoding@) is None
            } else {
                spec_decompress(bytes@, encoding@) == Some(None::<Seq<u8>>)
            },
        },
{
    let outcome: Option<Option<Vec<u8>>> = if eq_nocase(encoding, "gzip") {
        Some(gunzip(bytes))
    } else if eq_nocase(encoding, "deflate") {
        Some(inflate(bytes))
    } else if eq_nocase(encoding, "br") {
        Some(unbrotli(bytes))
    } else if eq_nocase(encoding, "zstd") {
        Some(unzstd(bytes))
    } else if encoding.unicode_len() == 0 || eq_nocase(encoding, "identity") {
        Some(Some(slice_to_vec(bytes)))
    } else {
        None
    };
    match outcome {
        Some(done) => match done {
            Some(v) => Ok(v),
            None => Err(DecompressError::Failed),
        },
        None => Err(DecompressError::Unsupported),
    }
}

} // verus!
