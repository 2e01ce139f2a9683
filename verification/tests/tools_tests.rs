use hatchery::cid::{cid_hex, CidError, ContentId};
use hatchery::tools::{
    parse_strength, parse_tool_call, Direction, JsonField, ToolCall, ToolError, ToolInput,
};
use hatchery::vocab::IdentityStrength;

fn id(n: u8) -> ContentId {
    ContentId::from_bytes([n; 32])
}

fn input(fields: Vec<(&str, JsonField)>) -> ToolInput {
    ToolInput { fields: fields.into_iter().map(|(k, v)| (k.to_string(), v)).collect() }
}

fn s(x: &str) -> JsonField {
    JsonField::Str(x.to_string())
}

#[test]
fn get_reads_the_id() {
    let inp = input(vec![("id", s(&cid_hex(&id(3))))]);
    match parse_tool_call("get", &inp) {
        Ok(ToolCall::Get { id: c }) => assert_eq!(c.bytes, [3u8; 32]),
        _ => panic!("expected get"),
    }
}

#[test]
fn traverse_defaults_and_truncation() {
    let inp = input(vec![("start", s(&cid_hex(&id(1))))]);
    match parse_tool_call("traverse", &inp) {
        Ok(ToolCall::Traverse { direction, max_depth, max_nodes, .. }) => {
            assert_eq!(direction, Direction::Forward);
            assert_eq!(max_depth, 6);
            assert_eq!(max_nodes, 256);
        }
        _ => panic!("expected traverse"),
    }
    let inp = input(vec![
        ("start", s(&cid_hex(&id(1)))),
        ("direction", s("both")),
        ("max_depth", JsonField::UInt((1u64 << 32) + 5)),
        ("max_nodes", JsonField::UInt(9)),
    ]);
    match parse_tool_call("traverse", &inp) {
        Ok(ToolCall::Traverse { direction, max_depth, max_nodes, .. }) => {
            assert_eq!(direction, Direction::Both);
            assert_eq!(max_depth, 5);
            assert_eq!(max_nodes, 9);
        }
        _ => panic!("expected traverse"),
    }
}

#[test]
fn missing_and_bad_parameters() {
    let inp = input(vec![("a", s(&cid_hex(&id(1))))]);
    match parse_tool_call("content_equal", &inp) {
        Err(e @ ToolError::MissingString(_)) => {
            assert_eq!(e.message(), "missing string parameter 'b'")
        }
        _ => panic!("expected missing b"),
    }
    let inp = input(vec![("a", s("xyz")), ("b", s("also bad"))]);
    match parse_tool_call("content_equal", &inp) {
        Err(ToolError::Cid(CidError::WrongLength)) => {}
        _ => panic!("expected wrong length"),
    }
    let inp = input(vec![("text", JsonField::UInt(1))]);
    assert!(matches!(parse_tool_call("append_leaf", &inp), Err(ToolError::MissingString(_))));
}

#[test]
fn unknown_tool_is_refused() {
    match parse_tool_call("delete_everything", &input(vec![])) {
        Err(e @ ToolError::UnknownTool(_)) => {
            assert_eq!(e.message(), "unknown tool 'delete_everything'")
        }
        _ => panic!("expected unknown tool"),
    }
}

#[test]
fn append_node_needs_an_owned_context() {
    let inp = input(vec![("owns", JsonField::Array(vec![]))]);
    match parse_tool_call("append_node", &inp) {
        Err(e @ ToolError::EmptyOwns) => {
            assert_eq!(e.message(), "a node must own at least one context (§K2.1)")
        }
        _ => panic!("expected empty owns"),
    }
    // Non-string elements are skipped; strings are read in order.
    let inp = input(vec![(
        "owns",
        JsonField::Array(vec![None, Some(cid_hex(&id(2))), Some(cid_hex(&id(4)))]),
    )]);
    match parse_tool_call("append_node", &inp) {
        Ok(ToolCall::AppendNode { owns }) => {
            assert_eq!(owns.len(), 2);
            assert_eq!(owns[1].bytes, [4u8; 32]);
        }
        _ => panic!("expected append_node"),
    }
    let inp = input(vec![("owns", JsonField::Array(vec![Some("nope".to_string())]))]);
    assert!(matches!(
        parse_tool_call("append_node", &inp),
        Err(ToolError::Cid(CidError::WrongLength))
    ));
}

#[test]
fn defaults_of_set_time_and_add_member() {
    let inp = input(vec![("time_value", s("2024-01-01"))]);
    match parse_tool_call("set_time", &inp) {
        Ok(ToolCall::SetTime { axis, recording, time_value }) => {
            assert_eq!(axis, "validity");
            assert!(!recording);
            assert_eq!(time_value, "2024-01-01");
        }
        _ => panic!("expected set_time"),
    }
    let inp = input(vec![("axis", s("recording")), ("time_value", s("t"))]);
    assert!(matches!(
        parse_tool_call("set_time", &inp),
        Ok(ToolCall::SetTime { recording: true, .. })
    ));
    let inp = input(vec![("anchor", s(&cid_hex(&id(8))))]);
    match parse_tool_call("add_member", &inp) {
        Ok(ToolCall::AddMember { grade, .. }) => assert_eq!(grade, "1.0"),
        _ => panic!("expected add_member"),
    }
}

#[test]
fn materialize_ignores_an_unreadable_replaces() {
    let inp = input(vec![
        ("inputs", JsonField::Array(vec![Some(cid_hex(&id(1)))])),
        ("replaces", s("not-an-id")),
    ]);
    match parse_tool_call("materialize", &inp) {
        Ok(ToolCall::Materialize { payload, inputs, replaces }) => {
            assert!(payload.is_empty());
            assert_eq!(inputs.len(), 1);
            assert!(replaces.is_none());
        }
        _ => panic!("expected materialize"),
    }
}

#[test]
fn identity_strength_spellings() {
    assert_eq!(parse_strength("Same"), IdentityStrength::Deckungsgleich);
    assert_eq!(parse_strength("ERGAENZT"), IdentityStrength::Ergaenzt);
    assert_eq!(parse_strength("ergänzt"), IdentityStrength::Ergaenzt);
    assert_eq!(parse_strength("Widerspricht_In"), IdentityStrength::WidersprichtIn);
    assert_eq!(parse_strength("known_different"), IdentityStrength::BekanntVerschieden);
    assert_eq!(parse_strength(""), IdentityStrength::VerwandtMit);
    assert_eq!(parse_strength("whatever"), IdentityStrength::VerwandtMit);
}

#[test]
fn write_tools_are_marked() {
    let inp = input(vec![("type_name", s("Person"))]);
    let call = parse_tool_call("set_type", &inp).ok().unwrap();
    assert!(call.is_write());
    let inp = input(vec![("input", s(&cid_hex(&id(1))))]);
    let call = parse_tool_call("find_dependents", &inp).ok().unwrap();
    assert!(!call.is_write());
}

/// 64 bytes whose first byte pair cuts a two-byte character in two.
fn cut_text() -> String {
    let mut t = String::from("a\u{e9}");
    t.push_str(&"a".repeat(61));
    assert_eq!(t.len(), 64);
    t
}

#[test]
fn ids_that_cut_characters_are_refused() {
    let cut = input(vec![("id", s(&cut_text()))]);
    assert!(matches!(parse_tool_call("get", &cut), Err(ToolError::Cid(CidError::InvalidDigit))));
    let owns = input(vec![("owns", JsonField::Array(vec![Some(cid_hex(&id(1))), Some(cut_text())]))]);
    assert!(matches!(parse_tool_call("append_node", &owns), Err(ToolError::Cid(CidError::InvalidDigit))));
}

#[test]
fn catalog_lists_every_tool_once() {
    let cat = hatchery::tools::tool_catalog();
    assert_eq!(cat.len(), 16);
    assert_eq!(cat[0].name, "get");
    assert_eq!(cat[15].name, "materialize");
    assert_eq!(cat[0].input_schema, r#"{"type":"object","properties":{"id":{"type":"string"}},"required":["id"]}"#);
    for t in &cat {
        let schema: serde_json::Value = serde_json::from_str(t.input_schema).unwrap();
        assert_eq!(schema["type"], "object");
        // The schema text names exactly the listed parameters, in order, and
        // requires exactly the listed ones.
        let keys: Vec<&str> = schema["properties"].as_object().unwrap().keys().map(|k| k.as_str()).collect();
        let mut listed = t.params.clone();
        listed.sort();
        assert_eq!(keys, listed, "{}", t.name);
        let required: Vec<&str> = schema["required"]
            .as_array()
            .map(|a| a.iter().map(|v| v.as_str().unwrap()).collect())
            .unwrap_or_default();
        assert_eq!(required, t.required, "{}", t.name);
        assert!(t.required.iter().all(|r| t.params.contains(r)));
    }
    assert_eq!(
        cat[6].description,
        "Append an atomic leaf datum with UTF-8 text payload. Returns its content id (deduped if already present, §5.3)."
    );
    for (i, t) in cat.iter().enumerate() {
        assert!(cat.iter().skip(i + 1).all(|u| u.name != t.name));
        // An advertised tool is never refused as unknown.
        let empty = input(vec![]);
        assert!(!matches!(parse_tool_call(t.name, &empty), Err(ToolError::UnknownTool(_))));
    }
}

#[test]
fn missing_parameters_are_the_required_ones() {
    let cat = hatchery::tools::tool_catalog();
    for t in &cat {
        if let Err(ToolError::MissingString(k)) = parse_tool_call(t.name, &input(vec![])) {
            assert!(t.required.contains(&k.as_str()), "{} {}", t.name, k);
        }
    }
    // Parameters outside the schema are not read.
    let with_extra = input(vec![("text", s("hi")), ("unrelated", s("x"))]);
    match parse_tool_call("append_leaf", &with_extra) {
        Ok(ToolCall::AppendLeaf { text }) => assert_eq!(text, "hi"),
        _ => panic!("expected append_leaf"),
    }
}
