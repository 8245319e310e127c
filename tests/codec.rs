use hhsav::codec::{decode_compressed, encode_compressed, encode_plain};
use hhsav::envelope::{open, seal};
use hhsav::error::{CodecError, Command};
use hhsav::json::{parse_document, write_compact, write_pretty, Document};
use hhsav::session::{plan_save, SaveFormat};
use std::io::Read;
use std::io::Write;

fn doc(text: &str) -> Document {
    serde_json::from_str(text).unwrap()
}

fn scenario() -> Document {
    doc(r#"{"level": 3, "items": ["sword","shield"]}"#)
}

fn gunzip_raw(bytes: &[u8]) -> Vec<u8> {
    let mut out = Vec::new();
    flate2::read::GzDecoder::new(bytes).read_to_end(&mut out).unwrap();
    out
}

fn gzip_raw(bytes: &[u8]) -> Vec<u8> {
    let mut enc = flate2::write::GzEncoder::new(Vec::new(), flate2::Compression::default());
    enc.write_all(bytes).unwrap();
    enc.finish().unwrap()
}

fn nested_arrays(depth: usize) -> Document {
    let mut v = serde_json::Value::Array(Vec::new());
    for _ in 1..depth {
        v = serde_json::Value::Array(vec![v]);
    }
    v
}

#[test]
fn scenario_round_trip() {
    let d = scenario();
    let z = encode_compressed(&d).unwrap();
    assert_eq!(decode_compressed(&z).unwrap(), d);
}

#[test]
fn scenario_plain_export() {
    let text = encode_plain(&scenario()).unwrap();
    assert!(text.contains("\"level\": 3"));
    assert!(text.contains("\"shield\""));
    assert_eq!(
        text,
        "{\n  \"items\": [\n    \"sword\",\n    \"shield\"\n  ],\n  \"level\": 3\n}"
    );
}

#[test]
fn envelope_holds_compact_json() {
    let z = encode_compressed(&scenario()).unwrap();
    assert_eq!(&z[..2], &[0x1f, 0x8b]);
    assert_eq!(
        String::from_utf8(gunzip_raw(&z)).unwrap(),
        r#"{"items":["sword","shield"],"level":3}"#
    );
}

#[test]
fn round_trip_varied_documents() {
    let cases = [
        "null",
        "true",
        "false",
        "0",
        "-17",
        "18446744073709551615",
        "-9223372036854775808",
        "0.1",
        "-2.5e-300",
        "1.7976931348623157e308",
        "\"\"",
        "\"caf\\u00e9 \\\"quoted\\\" \\n \\ud83d\\ude00\"",
        "[]",
        "{}",
        r#"{"a": [1, {"b": null, "c": [true, false]}], "": "empty key", "z": -0.0}"#,
    ];
    for c in cases {
        let d = doc(c);
        let z = encode_compressed(&d).unwrap();
        assert_eq!(decode_compressed(&z).unwrap(), d, "case {}", c);
    }
}

#[test]
fn plain_export_parses_back() {
    let d = doc(r#"{"x": [1.5, -2, "s", null, {"y": {}}], "w": true}"#);
    let text = encode_plain(&d).unwrap();
    assert_eq!(parse_document(&text).unwrap(), d);
    assert!(text.contains('\n'));
}

#[test]
fn truncated_envelope_is_rejected() {
    let z = encode_compressed(&scenario()).unwrap();
    let cut = &z[..z.len() - 1];
    assert!(matches!(decode_compressed(cut), Err(CodecError::Decompression(_))));
}

#[test]
fn empty_input_is_rejected() {
    assert!(matches!(decode_compressed(&[]), Err(CodecError::Decompression(_))));
}

#[test]
fn wrong_magic_is_rejected() {
    let bytes = br#"{"level":3}"#;
    assert!(matches!(decode_compressed(bytes), Err(CodecError::Decompression(_))));
}

#[test]
fn corrupted_payload_is_rejected() {
    let mut z = encode_compressed(&scenario()).unwrap();
    let n = z.len();
    z[n - 6] ^= 0xff;
    assert!(decode_compressed(&z).is_err());
}

#[test]
fn non_utf8_payload_is_rejected() {
    let z = gzip_raw(&[0x22, 0xff, 0xfe, 0x22]);
    assert!(matches!(decode_compressed(&z), Err(CodecError::Decompression(_))));
}

#[test]
fn non_json_payload_is_parse_error() {
    let z = seal("not json at all").unwrap();
    assert!(matches!(decode_compressed(&z), Err(CodecError::Parse(_))));
}

#[test]
fn deep_nesting_fails_to_parse() {
    let d = nested_arrays(200);
    let z = encode_compressed(&d).unwrap();
    assert!(matches!(decode_compressed(&z), Err(CodecError::Parse(_))));
    let shallow = nested_arrays(100);
    let z = encode_compressed(&shallow).unwrap();
    assert_eq!(decode_compressed(&z).unwrap(), shallow);
}

#[test]
fn plain_export_is_deterministic() {
    let d = doc(r#"{"b": 1, "a": [2, 3], "c": {"y": 1, "x": 2}}"#);
    let first = encode_plain(&d).unwrap();
    let second = encode_plain(&d).unwrap();
    assert_eq!(first.as_bytes(), second.as_bytes());
}

#[test]
fn compressed_encoding_is_deterministic() {
    let d = scenario();
    assert_eq!(encode_compressed(&d).unwrap(), encode_compressed(&d).unwrap());
}

#[test]
fn seal_compresses_and_open_restores() {
    let text = "hello, envelope";
    let z = seal(text).unwrap();
    assert_ne!(z, text.as_bytes().to_vec());
    assert_eq!(gunzip_raw(&z), text.as_bytes());
    assert_eq!(open(&z).unwrap(), text);
}

#[test]
fn open_reads_foreign_gzip() {
    let z = gzip_raw("über".as_bytes());
    assert_eq!(open(&z).unwrap(), "über");
}

#[test]
fn json_writers_and_parser() {
    let d = scenario();
    assert_eq!(write_compact(&d).unwrap(), r#"{"items":["sword","shield"],"level":3}"#);
    assert!(write_pretty(&d).unwrap().starts_with("{\n  \"items\": ["));
    assert_eq!(parse_document(" [1, 2] ").unwrap(), doc("[1,2]"));
    assert!(matches!(parse_document("{\"a\":"), Err(CodecError::Parse(_))));
    assert!(matches!(parse_document(""), Err(CodecError::Parse(_))));
}

#[test]
fn cancelled_save_does_nothing() {
    let d = scenario();
    let r = plan_save::<String>(None, &d, SaveFormat::Envelope);
    assert!(matches!(r, Err(CodecError::UserCancelled)));
    let r = plan_save::<String>(None, &d, SaveFormat::PlainJson);
    assert!(matches!(r, Err(CodecError::UserCancelled)));
}

#[test]
fn save_plans_write_encoded_contents() {
    let d = scenario();
    let a = plan_save(Some("game.hhsav".to_string()), &d, SaveFormat::Envelope).unwrap();
    assert_eq!(a.path, "game.hhsav");
    assert_eq!(decode_compressed(&a.contents).unwrap(), d);
    let b = plan_save(Some("game.json".to_string()), &d, SaveFormat::PlainJson).unwrap();
    assert_eq!(b.path, "game.json");
    assert_eq!(b.contents, encode_plain(&d).unwrap().into_bytes());
}

#[test]
fn error_messages() {
    assert_eq!(CodecError::UserCancelled.message(Command::Load), "No file selected");
    assert_eq!(CodecError::UserCancelled.message(Command::Save), "Save cancelled");
    assert_eq!(CodecError::Io("disk full".to_string()).message(Command::Save), "disk full");
    assert_eq!(CodecError::Decompression("bad".to_string()).message(Command::Load), "bad");
    assert_eq!(CodecError::Parse("eof".to_string()).message(Command::Load), "eof");
    assert_eq!(CodecError::Serialization("s".to_string()).message(Command::Save), "s");
    assert_eq!(CodecError::Compression("c".to_string()).message(Command::Save), "c");
}

#[test]
fn error_message_carries_outside_text() {
    match decode_compressed(b"xx") {
        Err(e) => assert!(!e.message(Command::Load).is_empty()),
        Ok(_) => panic!("garbage decoded"),
    }
}
