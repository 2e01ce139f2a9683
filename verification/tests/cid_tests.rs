use hatchery::cid::{cid_hex, parse_cid, CidError, ContentId};

fn sample_id() -> ContentId {
    let mut b = [0u8; 32];
    for (i, x) in b.iter_mut().enumerate() {
        *x = (i as u8).wrapping_mul(37).wrapping_add(5);
    }
    ContentId::from_bytes(b)
}

#[test]
fn hex_round_trip_gives_back_the_id() {
    let id = sample_id();
    let text = cid_hex(&id);
    assert_eq!(text.len(), 64);
    let back = parse_cid(&text).unwrap();
    assert_eq!(back.bytes, id.bytes);
}

#[test]
fn hex_text_is_lowercase_high_nibble_first() {
    let mut b = [0u8; 32];
    b[0] = 0xab;
    b[31] = 0x0f;
    let text = cid_hex(&ContentId::from_bytes(b));
    assert!(text.starts_with("ab00"));
    assert!(text.ends_with("000f"));
}

#[test]
fn parse_accepts_uppercase_and_surrounding_space() {
    let s = format!("  \t{}\n", "AB".repeat(32));
    let id = parse_cid(&s).unwrap();
    assert!(id.bytes.iter().all(|b| *b == 0xab));
}

#[test]
fn parse_rejects_a_plus_sign_group() {
    // Every byte is two hex digits; a sign is not a digit.
    let s = format!("+f{}", "00".repeat(31));
    assert_eq!(parse_cid(&s).err(), Some(CidError::InvalidDigit));
    assert_eq!(parse_cid(&"+0".repeat(32)).err(), Some(CidError::InvalidDigit));
}

#[test]
fn uppercase_hex_with_white_space_reads_back() {
    let id = sample_id();
    let s = format!(" {}\n", cid_hex(&id).to_uppercase());
    assert_eq!(parse_cid(&s).unwrap().bytes, id.bytes);
}

#[test]
fn parse_rejects_wrong_length() {
    assert_eq!(parse_cid("abcd").err(), Some(CidError::WrongLength));
    assert_eq!(parse_cid(&"0".repeat(65)).err(), Some(CidError::WrongLength));
    assert_eq!(
        CidError::WrongLength.message(),
        "content id must be exactly 64 hex chars (§5.2)"
    );
}

#[test]
fn parse_rejects_invalid_digit() {
    let s = format!("{}zz", "00".repeat(31));
    assert_eq!(parse_cid(&s).err(), Some(CidError::InvalidDigit));
    let minus = format!("-1{}", "00".repeat(31));
    assert_eq!(parse_cid(&minus).err(), Some(CidError::InvalidDigit));
    assert_eq!(CidError::InvalidDigit.message(), "invalid digit found in string");
}

#[test]
fn non_ascii_text_is_an_error_not_a_panic() {
    // 'é' is two bytes; 64 bytes in all, but not 64 hex digits.
    let s = format!("aé{}", "0".repeat(61));
    assert_eq!(s.len(), 64);
    assert_eq!(parse_cid(&s).err(), Some(CidError::InvalidDigit));
    let t = format!("zzaé{}", "0".repeat(59));
    assert_eq!(parse_cid(&t).err(), Some(CidError::InvalidDigit));
}

#[test]
fn same_compares_bytes() {
    let a = sample_id();
    let mut b = a;
    assert!(a.same(&b));
    b.bytes[7] ^= 1;
    assert!(!a.same(&b));
}
