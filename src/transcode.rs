use std::io::Read;
use vstd::prelude::*;
use vstd::utf8::valid_utf8;
use crate::error::InternalError;
use crate::headers::eq_ignore_case;
use crate::headers::equals_ignore_case;

verus! {

/// What gzip decompression of `compressed` gives, or `None` where the bytes
/// are not a gzip stream.
pub uninterp spec fn gunzip_of(compressed: Seq<u8>) -> Option<Seq<u8>>;

/// Relies on flate2::read::GzDecoder read to the end: the outcome depends on
/// the bytes alone; the error text is the one of the `std::io::Error`.
#[verifier::external_body]
fn gunzip(compressed: &[u8]) -> (r: Result<Vec<u8>, String>)
    ensures
        r is Ok <==> gunzip_of(compressed@) is Some,
        r matches Ok(v) ==> gunzip_of(compressed@) == Some(v@),
{
    let mut out = Vec::new();
    match flate2::read::GzDecoder::new(compressed).read_to_end(&mut out) {
        Ok(_) => Ok(out),
        Err(e) => Err(e.to_string()),
    }
}

/// Relies on std::str::from_utf8: `Ok` exactly on valid UTF-8.
#[verifier::external_body]
fn is_utf8(bytes: &[u8]) -> (r: bool)
    ensures
        r == valid_utf8(bytes@),
{
    std::str::from_utf8(bytes).is_ok()
}

/// How a body was encoded by the origin, as the worker sees it.
pub enum BodyEncoding {
    Identity,
    Gzip,
    Unsupported,
}

/// The encoding named by a `Content-Encoding` value: none or `identity` is
/// the identity, `gzip` is gzip (both up to ASCII case); anything else is not
/// supported.
pub open spec fn encoding_of(content_encoding: Option<Seq<char>>) -> BodyEncoding {
    match content_encoding {
        None => BodyEncoding::Identity,
        Some(v) => if eq_ignore_case(v, "identity"@) {
            BodyEncoding::Identity
        } else if eq_ignore_case(v, "gzip"@) {
            BodyEncoding::Gzip
        } else {
            BodyEncoding::Unsupported
        },
    }
}

/// The text bytes of a body in a supported encoding, or `None` where it
/// cannot be decompressed or is not valid UTF-8.
pub open spec fn decoded_text(encoding: BodyEncoding, body: Seq<u8>) -> Option<Seq<u8>> {
    let plain = match encoding {
        BodyEncoding::Gzip => gunzip_of(body),
        _ => Some(body),
    };
    match plain {
        Some(p) => if valid_utf8(p) {
            Some(p)
        } else {
            None
        },
        None => None,
    }
}

pub fn body_encoding(content_encoding: Option<&str>) -> (r: BodyEncoding)
    ensures
        r == encoding_of(
            match content_encoding {
                Some(v) => Some(v@),
                None => None,
            },
        ),
{
    match content_encoding {
        None => BodyEncoding::Identity,
        Some(v) => if equals_ignore_case(v, "identity") {
            BodyEncoding::Identity
        } else if equals_ignore_case(v, "gzip") {
            BodyEncoding::Gzip
        } else {
            BodyEncoding::Unsupported
        },
    }
}

/// A fresh vector with the same bytes.
pub fn copy_bytes(bytes: &[u8]) -> (r: Vec<u8>)
    ensures
        r@ == bytes@,
{
    let mut out: Vec<u8> = Vec::new();
    let mut i: usize = 0;
    while i < bytes.len()
        invariant
            i <= bytes@.len(),
            out@ == bytes@.subrange(0, i as int),
        decreases bytes@.len() - i,
    {
        out.push(bytes[i]);
        i = i + 1;
        assert(out@ =~= bytes@.subrange(0, i as int));
    }
    assert(out@ =~= bytes@);
    out
}

/// Undoes the origin's content encoding and checks that the result is text.
/// An unsupported encoding and a failed decoding are told apart.
pub fn decode(content_encoding: Option<&str>, body: &[u8]) -> (r: Result<Vec<u8>, InternalError>)
    ensures
        ({
            let enc = encoding_of(
                match content_encoding {
                    Some(v) => Some(v@),
                    None => None,
                },
            );
            &&& (enc is Unsupported <==> r == Err::<Vec<u8>, InternalError>(
                InternalError::EncodingNotSupported,
            ))
            &&& (!(enc is Unsupported) ==> {
                &&& (r is Ok <==> decoded_text(enc, body@) is Some)
                &&& (r matches Ok(v) ==> decoded_text(enc, body@) == Some(v@))
                &&& (r is Err ==> r matches Err(InternalError::DecodingFailed(_)))
            })
        }),
{
    let enc = body_encoding(content_encoding);
    let plain: Vec<u8> = match enc {
        BodyEncoding::Unsupported => return Err(InternalError::EncodingNotSupported),
        BodyEncoding::Gzip => match gunzip(body) {
            Ok(p) => p,
            Err(e) => return Err(InternalError::DecodingFailed(e)),
        },
        BodyEncoding::Identity => copy_bytes(body),
    };
    if is_utf8(plain.as_slice()) {
        Ok(plain)
    } else {
        Err(InternalError::DecodingFailed(String::from_str("invalid utf-8 sequence")))
    }
}

/// A body that is already text and carries no content encoding decodes to
/// itself.
pub proof fn lemma_identity_decode_is_noop(body: Seq<u8>)
    requires
        valid_utf8(body),
    ensures
        decoded_text(encoding_of(None), body) == Some(body),
{
}

} // verus!
