use std::io::Write;

use base64::Engine;
use blueprint_lib::codec::{decode, encode, CodecError};
use serde_json::Value;

const FIXTURE: &str = "0eNqdksFuwjAMht/F54CgpGiNtBNvsQmhtITNUut0qVutqvLuOEUwbZdqKJfkt/39TpwJyrp3bUBiMBNg5akD8z5Bhx9k66Tx2DowMGDgXhQFZJsk3DJWSBcPUQHS2X2D2cajAkeMjO5Gmg/jifqmdEESHoDkxZZ4VfmmRLLsg9Bb30mtp2QtPL3OFYxgst06Fxep4eDrU+k+7YBSIFmdq1JB93svzveWFFywZhf+qgs324jyJQHpXkTyoZmTpNvWhrlbA6+z0KfX20b1gGeL8MPz8N0i/O15uF6Enz3/F3+UFdPHQHaNBH/+nIJB5jKPO99nhS6KXBfZy15vYrwC7F3c4g==";

fn zlib(bytes: &[u8]) -> Vec<u8> {
    let mut e = flate2::write::ZlibEncoder::new(Vec::new(), flate2::Compression::default());
    e.write_all(bytes).unwrap();
    e.finish().unwrap()
}

fn exchange_of(bytes: &[u8]) -> String {
    format!("0{}", base64::engine::general_purpose::STANDARD.encode(bytes))
}

#[test]
fn test_decode() {
    let json = decode(FIXTURE).expect("Failed to decode bp_string");
    let v: Value = serde_json::from_str(&json).unwrap();
    let bp = &v["blueprint"];
    assert_eq!(bp["item"], "blueprint");
    assert_eq!(bp["version"].as_u64(), Some(562949954928640));
    assert_eq!(bp["icons"][0]["index"], 1);
    assert_eq!(bp["icons"][0]["signal"]["name"], "signal-info");
    assert_eq!(bp["icons"][0]["signal"]["type"], "virtual");
    let entities = bp["entities"].as_array().unwrap();
    assert_eq!(entities.len(), 1);
    let combinator = &entities[0];
    assert_eq!(combinator["name"], "constant-combinator");
    assert_eq!(combinator["entity_number"], 1);
    assert_eq!(combinator["position"]["x"].as_f64(), Some(4.5));
    assert_eq!(combinator["position"]["y"].as_f64(), Some(23.5));
    let sections = combinator["control_behavior"]["sections"]["sections"].as_array().unwrap();
    assert_eq!(sections.len(), 1);
    assert_eq!(sections[0]["index"], 1);
    let filters = sections[0]["filters"].as_array().unwrap();
    let names: Vec<&str> = filters.iter().map(|f| f["name"].as_str().unwrap()).collect();
    assert_eq!(names, vec!["signal-0", "signal-C", "signal-Z", "signal-dot"]);
    for (i, f) in filters.iter().enumerate() {
        assert_eq!(f["index"].as_u64(), Some(i as u64 + 1));
        assert_eq!(f["count"], 1);
        assert_eq!(f["quality"], "normal");
        assert_eq!(f["type"], "virtual");
    }
}

#[test]
fn test_encode_decode() {
    let json = decode(FIXTURE).unwrap();
    let encoded = encode(&json);
    assert!(encoded.starts_with('0'));
    assert_ne!(encoded, json);
    assert_eq!(decode(&encoded).unwrap(), json);
}

#[test]
fn encode_is_deterministic_and_reads_back() {
    let text = "{\"blueprint\":{\"item\":\"blueprint\",\"icons\":[],\"version\":1}}";
    let a = encode(text);
    let b = encode(text);
    assert_eq!(a, b);
    assert_eq!(a, exchange_of(&zlib(text.as_bytes())));
    assert_eq!(decode(&a).unwrap(), text);
}

#[test]
fn encode_of_empty_text_reads_back() {
    let a = encode("");
    assert!(a.len() > 1);
    assert_eq!(decode(&a).unwrap(), "");
}

#[test]
fn decode_rejects_missing_or_wrong_version() {
    assert_eq!(decode(""), Err(CodecError::Format));
    assert_eq!(decode(&FIXTURE.replacen('0', "1", 1)), Err(CodecError::Format));
    assert_eq!(decode(&FIXTURE[1..]), Err(CodecError::Format));
}

#[test]
fn decode_rejects_bad_base64() {
    assert_eq!(decode("0!!!!"), Err(CodecError::Base64));
    assert_eq!(decode("0abc"), Err(CodecError::Base64));
}

#[test]
fn decode_rejects_data_that_is_not_zlib() {
    assert_eq!(decode(&exchange_of(b"plain text, not compressed")), Err(CodecError::Compression));
}

#[test]
fn decode_rejects_non_utf8_payload() {
    assert_eq!(decode(&exchange_of(&zlib(&[0x7b, 0xff, 0xfe, 0x7d]))), Err(CodecError::Encoding));
}

#[test]
fn decode_accepts_non_ascii_json() {
    let text = "{\"label\":\"\u{2265} caf\u{e9}\"}";
    assert_eq!(decode(&exchange_of(&zlib(text.as_bytes()))).unwrap(), text);
}

#[test]
fn encode_writes_version_digit_and_padded_base64() {
    let text = "{\"a\":[1,2,3]}";
    let z = zlib(text.as_bytes());
    let s = encode(text);
    assert!(s.is_ascii());
    assert_eq!(s.as_bytes()[0], b'0');
    assert_eq!(s.len(), 1 + 4 * ((z.len() + 2) / 3));
    assert!(s[1..].chars().all(|c| c.is_ascii_alphanumeric() || c == '+' || c == '/' || c == '='));
    assert_eq!(base64::engine::general_purpose::STANDARD.decode(&s[1..]).unwrap(), z);
}
