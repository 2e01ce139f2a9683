use hatchery::scenario::{
    anchor_detail, atomicity_passed, dedup_detail, dedup_passed, doc_version, federation_detail,
    federation_passed, grade_label, list, person_name, representative_label,
    representative_number, scenario_kind, supersession_detail, traversal_detail, type_detail,
    type_person, ScenarioKind,
};

#[test]
fn catalog_lists_nine_scenarios() {
    let l = list();
    assert_eq!(l.len(), 9);
    assert_eq!((l[0].id, l[0].section, l[0].title), ("dedup", "§5.3", "Wert-Identität / Dedup"));
    assert_eq!(l[8].id, "federation");
    for info in &l {
        assert!(scenario_kind(info.id).is_some());
    }
    assert_eq!(scenario_kind("gate"), Some(ScenarioKind::Gate));
    assert_eq!(scenario_kind("nope"), None);
}

#[test]
fn dedup_verdict_and_detail() {
    assert!(dedup_passed(true, 4, 5));
    assert!(!dedup_passed(true, 4, 6));
    assert!(!dedup_passed(false, 4, 5));
    assert_eq!(dedup_detail(4, 5), "zweimal angehängt → eine ContentId; dedup_hit_count +1");
}

#[test]
fn type_scenario_person() {
    assert_eq!(person_name(Some("  Bob ".to_string())), Some("Bob".to_string()));
    assert_eq!(person_name(Some("   ".to_string())), None);
    assert_eq!(type_person(None), "Alice");
    assert!(type_detail("Bob").starts_with("„Bob“ bekommt den Typ „Person“"));
}

#[test]
fn anchor_representatives_and_grades() {
    assert_eq!(representative_number(0), 1);
    assert_eq!(grade_label(1), "0.80");
    assert_eq!(grade_label(20), "0.99");
    assert_eq!(grade_label(21), "0.80");
    assert_eq!(representative_label(3), "rep-Alice-3");
    assert_eq!(
        anchor_detail(2, "0.81", 2),
        "Repräsentant rep-Alice-2 (Konfidenz 0.81) verweist per gradierter Mitgliedschaft auf denselben Anker; jetzt 2 Repräsentant(en) — der Kernel wertet den Grad nie."
    );
}

#[test]
fn other_verdicts_and_details() {
    assert_eq!(doc_version(12), "doc-v12");
    assert_eq!(
        supersession_detail(3, 2),
        "doc-v3 überholt doc-v2; nichts gelöscht — der Kernel wählt NICHT 'die aktuelle' (§6.4)."
    );
    assert_eq!(
        traversal_detail(4),
        "Kette der Länge 5 → 4 Schritte; terminiert (Visited-Set, zyklensicher)."
    );
    assert!(atomicity_passed(true, false, true));
    assert!(!atomicity_passed(true, false, false));
    assert!(!atomicity_passed(false, true, false));
    assert!(federation_passed(true, true, 1));
    assert!(!federation_passed(true, true, 0));
    assert_eq!(
        federation_detail(1, 1),
        "Aus Tab „Fremdbestand“ aufgenommen: 1 neu, 1 per Inhalts-Hash kollabiert."
    );
}

#[test]
fn every_listed_scenario_runs_as_itself() {
    for info in hatchery::scenario::list() {
        let kind = hatchery::scenario::scenario_kind(info.id).expect("listed id is known");
        assert_eq!(hatchery::scenario::scenario_info(kind).id, info.id);
    }
    assert_eq!(hatchery::scenario::scenario_kind("nope"), None);
}
