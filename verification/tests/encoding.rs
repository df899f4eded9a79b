//! Tests of the verified text utilities and the trusted encoding wrappers:
//! decimal rendering, hex and base64, and the JSON escaping that the
//! request bodies rely on.

use translator::aliyun::AliYunReq;
use translator::crypto::{base64_byte, hex_byte, md5_str, sha1_hmac, sha2_hmac, sha2_str};
use translator::tencent::TencentReq;
use translator::text::{i32_to_dec, u64_to_dec};

#[test]
fn decimal_rendering() {
    assert_eq!(u64_to_dec(0), "0");
    assert_eq!(u64_to_dec(7), "7");
    assert_eq!(u64_to_dec(90), "90");
    assert_eq!(u64_to_dec(1700000000), "1700000000");
    assert_eq!(u64_to_dec(u64::MAX), "18446744073709551615");
    assert_eq!(i32_to_dec(0), "0");
    assert_eq!(i32_to_dec(42), "42");
    assert_eq!(i32_to_dec(-1), "-1");
    assert_eq!(i32_to_dec(i32::MIN), "-2147483648");
}

#[test]
fn hex_encoding() {
    assert_eq!(hex_byte(&[]), "");
    assert_eq!(hex_byte(&[0xbe, 0xef]), "beef");
    assert_eq!(hex_byte(&[0x00, 0x0f, 0xa0]), "000fa0");
}

#[test]
fn base64_encoding() {
    assert_eq!(base64_byte(b""), "");
    assert_eq!(base64_byte(b"M"), "TQ==");
    assert_eq!(base64_byte(b"Ma"), "TWE=");
    assert_eq!(base64_byte(b"Man"), "TWFu");
    assert_eq!(base64_byte(b"light work"), "bGlnaHQgd29yaw==");
}

#[test]
fn digests_are_not_identity() {
    let d = md5_str("abc");
    assert_eq!(d.len(), 16);
    assert_eq!(hex_byte(d.as_slice()), "900150983cd24fb0d6963f7d28e17f72");
    let s = sha2_str("abc");
    assert_eq!(s.len(), 32);
    assert_eq!(
        hex_byte(s.as_slice()),
        "ba7816bf8f01cfea414140de5dae2223b00361a396177a9cb410ff61f20015ad"
    );
}

#[test]
fn hmac_tags_match_reference() {
    // RFC 2202 test case 2 for HMAC-SHA1.
    let t1 = sha1_hmac(b"Jefe", b"what do ya want for nothing?").unwrap();
    assert_eq!(hex_byte(t1.as_slice()), "effcdf6ae5eb2fa2d27416d5f184df9c259a7c79");
    // RFC 4231 test case 2 for HMAC-SHA256.
    let t2 = sha2_hmac(b"Jefe", b"what do ya want for nothing?").unwrap();
    assert_eq!(
        hex_byte(t2.as_slice()),
        "5bdcc146bf60754e6a042426089575c75a003f089d2739839dec58b964ec3843"
    );
}

#[test]
fn json_escaping_matches_wire_serializer() {
    let tricky = "a\"b\\c\nd\te\u{1}f";
    let req = AliYunReq::create(tricky, "auto", "zh");
    let body = req.to_json();
    assert!(body.contains("\"SourceText\":\"a\\\"b\\\\c\\nd\\te\\u0001f\""));
    let reparsed: serde_json::Value = serde_json::from_str(&body).unwrap();
    assert_eq!(reparsed["SourceText"].as_str().unwrap(), tricky);
    assert_eq!(reparsed["FormatType"].as_str().unwrap(), "text");
    assert_eq!(reparsed["Scene"].as_str().unwrap(), "general");
}

#[test]
fn json_escaping_handles_controls_and_unicode() {
    let tricky = "\u{8}\u{c}\r\u{1f} caf\u{e9} \u{4f60}\u{597d}";
    let req = TencentReq::create(tricky, "auto", "zh");
    let body = req.to_json();
    let reparsed: serde_json::Value = serde_json::from_str(&body).unwrap();
    assert_eq!(reparsed["SourceText"].as_str().unwrap(), tricky);
    assert_eq!(reparsed["ProjectId"].as_i64().unwrap(), 0);
    // The same value serialized by the wire serializer escapes identically.
    let expect = serde_json::to_string(tricky).unwrap();
    let start = body.find("\"SourceText\":").unwrap() + "\"SourceText\":".len();
    let end = body.find(",\"ProjectId\"").unwrap();
    assert_eq!(&body[start..end], expect);
}
