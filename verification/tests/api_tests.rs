use hatchery::api::{
    append_event_type, decode_hex_payload, hex_payload_would_panic, leaf_payload, parse_owns,
    spec_doc, subject_choice, AppendLeaf, AppendNode, NodeError, PayloadError, SetSubject,
};
use hatchery::api::datum_report;
use hatchery::cid::{cid_hex, CidError, ContentId};
use hatchery::roles::DatumShape;

#[test]
fn leaf_payload_prefers_text_then_hex() {
    let both = AppendLeaf { text: Some("hé".to_string()), hex: Some("00".to_string()) };
    assert_eq!(leaf_payload(&both).ok(), Some("hé".as_bytes().to_vec()));
    let hex = AppendLeaf { text: None, hex: Some(" 0aFF ".to_string()) };
    assert_eq!(leaf_payload(&hex).ok(), Some(vec![0x0a, 0xff]));
    let none = AppendLeaf { text: None, hex: None };
    assert_eq!(leaf_payload(&none).ok(), Some(vec![]));
}

#[test]
fn hex_payload_errors() {
    assert_eq!(decode_hex_payload("abc").err(), Some(PayloadError::OddHexLength));
    assert_eq!(PayloadError::OddHexLength.message(), "hex must have even length");
    assert_eq!(decode_hex_payload("0g").err(), Some(PayloadError::InvalidDigit));
    assert_eq!(decode_hex_payload("").ok(), Some(vec![]));
    assert_eq!(decode_hex_payload(" 0A ").ok(), Some(vec![0x0a]));
    // A group is read as `u8::from_str_radix` reads it: `+` and one digit count.
    assert_eq!(decode_hex_payload("+f0a").ok(), Some(vec![0x0f, 0x0a]));
    assert_eq!(decode_hex_payload("-1").err(), Some(PayloadError::InvalidDigit));
    assert_eq!(decode_hex_payload("++").err(), Some(PayloadError::InvalidDigit));
    // A group that cuts a character in two is where the reader would panic.
    assert!(hex_payload_would_panic("aé0"));
    assert!(!hex_payload_would_panic("zzaé0"));
    assert_eq!(decode_hex_payload("zzaé0").err(), Some(PayloadError::InvalidDigit));
}

#[test]
fn node_append_owns() {
    let ok = AppendNode { owns: vec![cid_hex(&ContentId::from_bytes([1; 32]))] };
    assert_eq!(parse_owns(&ok).ok().map(|v| v[0].bytes), Some([1u8; 32]));
    let empty = AppendNode { owns: vec![] };
    assert_eq!(parse_owns(&empty).err(), Some(NodeError::Empty));
    let bad = AppendNode { owns: vec!["12".to_string()] };
    assert_eq!(parse_owns(&bad).err(), Some(NodeError::Cid(CidError::WrongLength)));
}

#[test]
fn subject_choice_blank_is_admin() {
    assert!(subject_choice(&SetSubject { subject: None }).unwrap().is_none());
    assert!(subject_choice(&SetSubject { subject: Some("  ".to_string()) }).unwrap().is_none());
    let hex = cid_hex(&ContentId::from_bytes([2; 32]));
    let chosen = subject_choice(&SetSubject { subject: Some(hex) }).unwrap().unwrap();
    assert_eq!(chosen.bytes, [2u8; 32]);
    assert_eq!(
        subject_choice(&SetSubject { subject: Some("x".to_string()) }).err(),
        Some(CidError::WrongLength)
    );
}

#[test]
fn append_events_and_spec_docs() {
    assert_eq!(append_event_type(true), "dedup");
    assert_eq!(append_event_type(false), "node_added");
    let d = spec_doc("encoding").unwrap();
    assert_eq!(d.file, "canonical-encoding.md");
    assert!(spec_doc("other").is_none());
}

#[test]
fn datum_report_of_leaf_and_node() {
    let leaf = datum_report(&DatumShape::Leaf { payload: b"hi".to_vec() });
    assert_eq!(leaf.kind, "leaf");
    assert_eq!(leaf.payload.as_deref(), Some("hi"));
    assert!(leaf.owns.is_empty());
    // Invalid UTF-8 is replaced, not dropped.
    let bad = datum_report(&DatumShape::Leaf { payload: vec![b'a', 0xff, b'b'] });
    assert_eq!(bad.payload.as_deref(), Some("a\u{fffd}b"));
    let node = datum_report(&DatumShape::Node { owns: vec![ContentId::from_bytes([0xab; 32])] });
    assert_eq!(node.kind, "node");
    assert_eq!(node.payload, None);
    assert_eq!(node.owns, vec!["ab".repeat(32)]);
}
