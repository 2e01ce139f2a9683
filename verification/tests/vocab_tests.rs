use hatchery::cid::ContentId;
use hatchery::vocab::{
    hatchery_type_marker, identity_strength_name, leaf_label, marker_kind_name, marker_kinds,
    truncate, IdentityStrength, MarkerKind, MarkerTable,
};

fn id(n: u8) -> ContentId {
    ContentId::from_bytes([n; 32])
}

#[test]
fn leaf_label_of_empty_payload() {
    assert_eq!(leaf_label(&[]), "∅");
}

#[test]
fn leaf_label_of_clean_text() {
    assert_eq!(leaf_label(b"hello world"), "hello world");
}

#[test]
fn leaf_label_cuts_long_text_at_32_chars() {
    let text = "ä".repeat(40);
    let label = leaf_label(text.as_bytes());
    assert_eq!(label.chars().count(), 33);
    assert_eq!(label, format!("{}…", "ä".repeat(32)));
    let exact = "x".repeat(32);
    assert_eq!(leaf_label(exact.as_bytes()), exact);
}

#[test]
fn leaf_label_of_binary_payload_is_hex_prefix() {
    assert_eq!(leaf_label(&[0xff, 0x00, 0x01, 0x02, 0x03]), "0xff000102…");
    assert_eq!(leaf_label(&[0xc3]), "0xc3…");
}

#[test]
fn leaf_label_of_text_with_control_char_is_hex() {
    assert_eq!(leaf_label(b"a\nb"), "0x610a62…");
    assert_eq!(leaf_label("a\u{85}".as_bytes()), "0x61c285…");
}

#[test]
fn truncate_keeps_short_text() {
    assert_eq!(truncate("abc", 3), "abc");
    assert_eq!(truncate("abcd", 3), "abc…");
    assert_eq!(truncate("", 0), "");
    assert_eq!(truncate("a", 0), "…");
}

#[test]
fn identity_strength_names() {
    assert_eq!(identity_strength_name(IdentityStrength::Deckungsgleich), "identity:deckungsgleich");
    assert_eq!(identity_strength_name(IdentityStrength::WidersprichtIn), "identity:widerspricht-in");
    assert_eq!(
        identity_strength_name(IdentityStrength::BekanntVerschieden),
        "identity:bekannt-verschieden"
    );
}

#[test]
fn type_marker_payload_is_the_versioned_path() {
    assert_eq!(hatchery_type_marker(), b"hatchery/type/v1".to_vec());
}

#[test]
fn marker_vocabulary_order_and_names() {
    let kinds = marker_kinds();
    assert_eq!(kinds.len(), 26);
    assert_eq!(marker_kind_name(kinds[0]), "unresolved");
    assert_eq!(marker_kind_name(kinds[8]), "supersedes");
    assert_eq!(marker_kind_name(kinds[20]), "identity:deckungsgleich");
    assert_eq!(marker_kind_name(kinds[25]), "type");
    assert_eq!(marker_kind_name(MarkerKind::MembershipGrade), "grade");
}

#[test]
fn marker_table_later_registration_wins() {
    let mut t = MarkerTable::new();
    assert_eq!(t.marker_name(&id(1)), None);
    t.register(id(1), MarkerKind::Anchor);
    t.register(id(2), MarkerKind::Origin);
    assert_eq!(t.marker_name(&id(1)), Some("anchor"));
    t.insert(id(1), "renamed");
    assert_eq!(t.marker_name(&id(1)), Some("renamed"));
    assert_eq!(t.marker_name(&id(2)), Some("origin"));
    assert_eq!(t.marker_name(&id(3)), None);
}

#[test]
fn leaf_labels_are_short_and_printable() {
    let long = "z".repeat(200);
    let payloads: Vec<Vec<u8>> = vec![
        vec![],
        b"plain".to_vec(),
        long.into_bytes(),
        vec![0, 1, 2, 3, 4, 5, 6],
        b"tab\there".to_vec(),
        vec![0xe2, 0x82],
    ];
    for p in &payloads {
        let label = leaf_label(p);
        assert!(label.chars().count() <= 33, "{label}");
        assert!(!label.chars().any(|c| c.is_control()), "{label}");
    }
}
