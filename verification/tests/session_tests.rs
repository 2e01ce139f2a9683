use hatchery::cid::ContentId;
use hatchery::session::{instance_dir, session_title, SessionRegistry, SessionView};

fn id(n: u8) -> ContentId {
    ContentId::from_bytes([n; 32])
}

#[test]
fn view_registers_each_area_once_and_clears() {
    let mut v = SessionView::new();
    v.register_area(id(1));
    v.register_area(id(2));
    v.register_area(id(1));
    let areas = v.known_areas_vec();
    assert_eq!(areas.len(), 2);
    v.set_subject(Some(id(7)));
    assert_eq!(v.snapshot_subject().map(|s| s.bytes), Some([7u8; 32]));
    v.clear_view();
    assert!(v.snapshot_subject().is_none());
    assert!(v.known_areas_vec().is_empty());
}

#[test]
fn session_titles_default_when_blank() {
    assert_eq!(session_title(None, 3), "Session 3");
    assert_eq!(session_title(Some("  ".to_string()), 12), "Session 12");
    assert_eq!(session_title(Some("Mine".to_string()), 1), "Mine");
    assert_eq!(instance_dir("s4", 10), "s4-10");
}

#[test]
fn registry_creates_finds_lists_and_removes() {
    let mut reg: SessionRegistry<u32> = SessionRegistry::new();
    assert!(reg.first().is_none());
    let p1 = reg.plan_create(None);
    assert_eq!(p1.sid, "s1");
    assert_eq!(p1.title, "Session 1");
    assert_eq!(p1.dir, "s1-0");
    reg.commit_create(p1, 100);
    let p2 = reg.plan_create(Some("Fremdbestand".to_string()));
    assert_eq!(p2.sid, "s2");
    assert_eq!(p2.dir, "s2-1");
    reg.commit_create(p2, 200);
    assert_eq!(reg.get("s2"), Some(&200));
    assert_eq!(reg.resolve(None), Some(&100));
    assert_eq!(reg.resolve(Some("s1")), Some(&100));
    assert_eq!(reg.resolve(Some("s9")), None);
    assert_eq!(
        reg.list(),
        vec![
            ("s1".to_string(), "Session 1".to_string()),
            ("s2".to_string(), "Fremdbestand".to_string())
        ]
    );
    assert_eq!(reg.remove("s1"), Some(100));
    assert_eq!(reg.remove("s1"), None);
    assert_eq!(reg.get("s1"), None);
    assert_eq!(reg.first(), Some(&200));
    // Ids are never reused.
    let p3 = reg.plan_create(None);
    assert_eq!(p3.sid, "s3");
    assert_eq!(p3.title, "Session 3");
}

#[test]
fn registry_reset_keeps_place_and_title() {
    let mut reg: SessionRegistry<&str> = SessionRegistry::new();
    for v in ["a", "b", "c"] {
        let p = reg.plan_create(None);
        reg.commit_create(p, v);
    }
    let plan = reg.plan_reset("s2").unwrap();
    assert_eq!(plan.title, "Session 2");
    assert_eq!(plan.dir, "s2-3");
    assert_eq!(reg.replace("s2", "fresh"), Some("b"));
    assert_eq!(reg.get("s2"), Some(&"fresh"));
    assert_eq!(reg.list()[1], ("s2".to_string(), "Session 2".to_string()));
    assert!(reg.plan_reset("s9").is_none());
    assert_eq!(reg.replace("s9", "x"), None);
    assert_eq!(reg.title_of("s3"), Some("Session 3".to_string()));
}

#[test]
fn registry_keeps_creation_order_over_create_remove_reset() {
    let mut reg: SessionRegistry<u8> = SessionRegistry::new();
    for v in 0..4u8 {
        let p = reg.plan_create(None);
        reg.commit_create(p, v);
    }
    assert!(reg.remove("s2").is_some());
    let plan = reg.plan_reset("s3").unwrap();
    assert_eq!(plan.title, "Session 3");
    assert_eq!(reg.replace("s3", 9), Some(2));
    let p = reg.plan_create(None);
    reg.commit_create(p, 5);
    let ids: Vec<String> = reg.list().into_iter().map(|(sid, _)| sid).collect();
    assert_eq!(ids, vec!["s1", "s3", "s4", "s5"]);
    assert_eq!(reg.first(), Some(&0));
    assert_eq!(reg.get("s3"), Some(&9));
    assert_eq!(reg.get("s2"), None);
}

#[test]
fn first_titled_skips_the_excepted_session() {
    let mut reg: SessionRegistry<u8> = SessionRegistry::new();
    for (v, t) in [(1u8, "Fremdbestand"), (2, "x"), (3, "Fremdbestand")] {
        let p = reg.plan_create(Some(t.to_string()));
        reg.commit_create(p, v);
    }
    assert_eq!(reg.first_titled("Fremdbestand", "s9"), Some(&1));
    assert_eq!(reg.first_titled("Fremdbestand", "s1"), Some(&3));
    assert_eq!(reg.first_titled("nope", "s1"), None);
}
