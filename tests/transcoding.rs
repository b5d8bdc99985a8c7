use rio_fastly::error::InternalError;
use rio_fastly::transcode::{body_encoding, copy_bytes, decode, BodyEncoding};
use std::io::Write;

fn gzip(data: &[u8]) -> Vec<u8> {
    let mut enc = flate2::write::GzEncoder::new(Vec::new(), flate2::Compression::default());
    enc.write_all(data).unwrap();
    enc.finish().unwrap()
}

#[test]
fn identity_text_decodes_to_itself() {
    let body = "héllo <b>wörld</b>".as_bytes();
    assert_eq!(decode(None, body), Ok(body.to_vec()));
    assert_eq!(decode(Some("identity"), body), Ok(body.to_vec()));
    assert_eq!(decode(None, b""), Ok(Vec::new()));
}

#[test]
fn gzip_round_trip() {
    let plain = "<html><body>caf\u{e9} old text</body></html>".as_bytes();
    let compressed = gzip(plain);
    assert_ne!(compressed, plain.to_vec());
    assert_eq!(decode(Some("gzip"), &compressed), Ok(plain.to_vec()));
    assert_eq!(decode(Some("Gzip"), &gzip(b"")), Ok(Vec::new()));
}

#[test]
fn invalid_utf8_is_decoding_failure() {
    let r = decode(None, &[0x66, 0xff, 0xfe]);
    assert!(matches!(r, Err(InternalError::DecodingFailed(_))));
    let r = decode(Some("gzip"), &gzip(&[0xc3, 0x28]));
    assert!(matches!(r, Err(InternalError::DecodingFailed(_))));
}

#[test]
fn unknown_encoding_not_supported() {
    assert_eq!(decode(Some("br"), b"abc"), Err(InternalError::EncodingNotSupported));
    assert_eq!(decode(Some("deflate"), b"abc"), Err(InternalError::EncodingNotSupported));
    assert!(matches!(body_encoding(Some("br")), BodyEncoding::Unsupported));
    assert!(matches!(body_encoding(Some("GZIP")), BodyEncoding::Gzip));
    assert!(matches!(body_encoding(None), BodyEncoding::Identity));
}

#[test]
fn error_messages() {
    assert_eq!(InternalError::EncodingNotSupported.message(), "Encoding not compressed");
    assert_eq!(
        InternalError::DecodingFailed("x".to_string()).message(),
        "Decoding response failed"
    );
}

#[test]
fn copy_keeps_bytes() {
    assert_eq!(copy_bytes(&[1, 2, 3]), vec![1, 2, 3]);
    assert_eq!(copy_bytes(&[]), Vec::<u8>::new());
}
