//! The section lab: the catalog of self-asserting scenarios, and what each one
//! decides from the observations it makes (the verdict and the detail text).

use vstd::prelude::*;
use vstd::string::*;

use crate::text::{dec_text, push_decimal, push_str, str_eq, to_string, trim, trim_spec};

verus! {

/// Query of a scenario run: the session, and the person name the type scenario
/// uses.
pub struct RunQ {
    pub s: Option<String>,
    pub name: Option<String>,
}

/// The scenarios, one per section.
#[derive(Clone, Copy, PartialEq, Eq, Structural, Debug)]
pub enum ScenarioKind {
    Dedup,
    Type,
    Traversal,
    Supersession,
    Gate,
    Provenance,
    Anchor,
    Atomicity,
    Federation,
}

/// One catalog line: the scenario id, its section and its title.
pub struct ScenarioInfo {
    pub id: &'static str,
    pub section: &'static str,
    pub title: &'static str,
}

pub open spec fn scenario_id_spec(k: ScenarioKind) -> Seq<char> {
    match k {
        ScenarioKind::Dedup => "dedup"@,
        ScenarioKind::Type => "type"@,
        ScenarioKind::Traversal => "traversal"@,
        ScenarioKind::Supersession => "supersession"@,
        ScenarioKind::Gate => "gate"@,
        ScenarioKind::Provenance => "provenance"@,
        ScenarioKind::Anchor => "anchor"@,
        ScenarioKind::Atomicity => "atomicity"@,
        ScenarioKind::Federation => "federation"@,
    }
}

pub open spec fn scenario_section_spec(k: ScenarioKind) -> Seq<char> {
    match k {
        ScenarioKind::Dedup => "§5.3"@,
        ScenarioKind::Type => "§4"@,
        ScenarioKind::Traversal => "§1.2/§1.7a"@,
        ScenarioKind::Supersession => "§6.3"@,
        ScenarioKind::Gate => "§11.3"@,
        ScenarioKind::Provenance => "§10.3"@,
        ScenarioKind::Anchor => "§9.1"@,
        ScenarioKind::Atomicity => "§13"@,
        ScenarioKind::Federation => "§12.3"@,
    }
}

pub open spec fn scenario_title_spec(k: ScenarioKind) -> Seq<char> {
    match k {
        ScenarioKind::Dedup => "Wert-Identität / Dedup"@,
        ScenarioKind::Type => "Typ als Kontext"@,
        ScenarioKind::Traversal => "Beschränkte Traversierung"@,
        ScenarioKind::Supersession => "Ersetzung (append-only)"@,
        ScenarioKind::Gate => "Zugriffs-Tor / VANISH"@,
        ScenarioKind::Provenance => "Herkunft / find_dependents"@,
        ScenarioKind::Anchor => "Anker / Repräsentanten"@,
        ScenarioKind::Atomicity => "Aktiv-Marker / Atomarität"@,
        ScenarioKind::Federation => "Föderation / Inhalts-Kollaps"@,
    }
}

/// The scenarios in catalog order.
pub open spec fn scenario_order() -> Seq<ScenarioKind> {
    seq![
        ScenarioKind::Dedup,
        ScenarioKind::Type,
        ScenarioKind::Traversal,
        ScenarioKind::Supersession,
        ScenarioKind::Gate,
        ScenarioKind::Provenance,
        ScenarioKind::Anchor,
        ScenarioKind::Atomicity,
        ScenarioKind::Federation,
    ]
}

pub fn scenario_info(k: ScenarioKind) -> (r: ScenarioInfo)
    ensures
        r.id@ == scenario_id_spec(k),
        r.section@ == scenario_section_spec(k),
        r.title@ == scenario_title_spec(k),
{
    match k {
        ScenarioKind::Dedup => ScenarioInfo {
            id: "dedup",
            section: "§5.3",
            title: "Wert-Identität / Dedup",
        },
        ScenarioKind::Type => ScenarioInfo { id: "type", section: "§4", title: "Typ als Kontext" },
        ScenarioKind::Traversal => ScenarioInfo {
            id: "traversal",
            section: "§1.2/§1.7a",
            title: "Beschränkte Traversierung",
        },
        ScenarioKind::Supersession => ScenarioInfo {
            id: "supersession",
            section: "§6.3",
            title: "Ersetzung (append-only)",
        },
        ScenarioKind::Gate => ScenarioInfo {
            id: "gate",
            section: "§11.3",
            title: "Zugriffs-Tor / VANISH",
        },
        ScenarioKind::Provenance => ScenarioInfo {
            id: "provenance",
            section: "§10.3",
            title: "Herkunft / find_dependents",
        },
        ScenarioKind::Anchor => ScenarioInfo {
            id: "anchor",
            section: "§9.1",
            title: "Anker / Repräsentanten",
        },
        ScenarioKind::Atomicity => ScenarioInfo {
            id: "atomicity",
            section: "§13",
            title: "Aktiv-Marker / Atomarität",
        },
        ScenarioKind::Federation => ScenarioInfo {
            id: "federation",
            section: "§12.3",
            title: "Föderation / Inhalts-Kollaps",
        },
    }
}

/// The catalog: every scenario with its section and title, in order.
pub fn list() -> (r: Vec<ScenarioInfo>)
    ensures
        r@.len() == scenario_order().len(),
        forall|i: int|
            0 <= i < r@.len() ==> #[trigger] r@[i].id@ == scenario_id_spec(scenario_order()[i])
                && r@[i].section@ == scenario_section_spec(scenario_order()[i]) && r@[i].title@
                == scenario_title_spec(scenario_order()[i]),
{
    let kinds = [
        ScenarioKind::Dedup,
        ScenarioKind::Type,
        ScenarioKind::Traversal,
        ScenarioKind::Supersession,
        ScenarioKind::Gate,
        ScenarioKind::Provenance,
        ScenarioKind::Anchor,
        ScenarioKind::Atomicity,
        ScenarioKind::Federation,
    ];
    assert(kinds@ =~= scenario_order());
    let mut out: Vec<ScenarioInfo> = Vec::new();
    let mut i: usize = 0;
    while i < 9
        invariant
            i <= 9,
            kinds@ == scenario_order(),
            out@.len() == i,
            forall|j: int|
                0 <= j < i ==> #[trigger] out@[j].id@ == scenario_id_spec(scenario_order()[j])
                    && out@[j].section@ == scenario_section_spec(scenario_order()[j]) && out@[j].title@
                    == scenario_title_spec(scenario_order()[j]),
        decreases 9 - i,
    {
        out.push(scenario_info(kinds[i]));
        i = i + 1;
    }
    out
}

/// No two scenarios share an id, so every id of the catalog names exactly one
/// scenario.
pub proof fn law_scenario_ids_distinct(a: ScenarioKind, b: ScenarioKind)
    requires
        scenario_id_spec(a) == scenario_id_spec(b),
    ensures
        a == b,
{
    reveal_strlit("dedup");
    reveal_strlit("type");
    reveal_strlit("traversal");
    reveal_strlit("supersession");
    reveal_strlit("gate");
    reveal_strlit("provenance");
    reveal_strlit("anchor");
    reveal_strlit("atomicity");
    reveal_strlit("federation");
    if a != b {
        let x = scenario_id_spec(a);
        let y = scenario_id_spec(b);
        assert(x.len() == y.len());
        assert(x[0] == y[0]);
    }
}

/// The scenario an id names (the ids of `list`): each catalog id names its own
/// scenario, and nothing else names one.
pub fn scenario_kind(id: &str) -> (r: Option<ScenarioKind>)
    ensures
        match r {
            Some(k) => id@ == scenario_id_spec(k),
            None => forall|k: ScenarioKind| id@ != scenario_id_spec(k),
        },
        forall|k: ScenarioKind| id@ == scenario_id_spec(k) ==> r == Some(k),
{
    let r = if str_eq(id, "dedup") {
        Some(ScenarioKind::Dedup)
    } else if str_eq(id, "type") {
        Some(ScenarioKind::Type)
    } else if str_eq(id, "traversal") {
        Some(ScenarioKind::Traversal)
    } else if str_eq(id, "supersession") {
        Some(ScenarioKind::Supersession)
    } else if str_eq(id, "gate") {
        Some(ScenarioKind::Gate)
    } else if str_eq(id, "provenance") {
        Some(ScenarioKind::Provenance)
    } else if str_eq(id, "anchor") {
        Some(ScenarioKind::Anchor)
    } else if str_eq(id, "atomicity") {
        Some(ScenarioKind::Atomicity)
    } else if str_eq(id, "federation") {
        Some(ScenarioKind::Federation)
    } else {
        proof {
            assert forall|k: ScenarioKind| id@ != scenario_id_spec(k) by {
                match k {
                    ScenarioKind::Dedup => {},
                    ScenarioKind::Type => {},
                    ScenarioKind::Traversal => {},
                    ScenarioKind::Supersession => {},
                    ScenarioKind::Gate => {},
                    ScenarioKind::Provenance => {},
                    ScenarioKind::Anchor => {},
                    ScenarioKind::Atomicity => {},
                    ScenarioKind::Federation => {},
                }
            }
        }
        None
    };
    proof {
        assert forall|k: ScenarioKind| id@ == scenario_id_spec(k) implies r == Some(k) by {
            if let Some(j) = r {
                law_scenario_ids_distinct(j, k);
            }
        }
    }
    r
}

/// The person name of the type scenario: the given name trimmed, unless blank.
pub fn person_name(name: Option<String>) -> (r: Option<String>)
    ensures
        match name {
            Some(n) => if trim_spec(n@).len() > 0 {
                r matches Some(x) && x@ == trim_spec(n@)
            } else {
                r is None
            },
            None => r is None,
        },
{
    match name {
        Some(n) => {
            let t = trim(n.as_str());
            if t.unicode_len() > 0 {
                Some(to_string(t))
            } else {
                None
            }
        },
        None => None,
    }
}

// ---------------------------------------------------------------------------
// Dedup (§5.3)
// ---------------------------------------------------------------------------

/// Appending the same leaf twice gives one content id, and the second append
/// counts exactly one dedup hit.
pub fn dedup_passed(same_id: bool, hits_before: u64, hits_after: u64) -> (r: bool)
    requires
        hits_before < u64::MAX,
    ensures
        r == (same_id && hits_after == hits_before + 1),
{
    same_id && hits_after == hits_before + 1
}

pub fn dedup_detail(hits_before: u64, hits_after: u64) -> (r: String)
    requires
        hits_before <= hits_after,
    ensures
        r@ == "zweimal angehängt → eine ContentId; dedup_hit_count +"@ + dec_text(
            (hits_after - hits_before) as nat,
        ),
{
    let mut s = to_string("zweimal angehängt → eine ContentId; dedup_hit_count +");
    push_decimal(&mut s, hits_after - hits_before);
    s
}

// ---------------------------------------------------------------------------
// Type (§4)
// ---------------------------------------------------------------------------

/// The person the type scenario types: the given name, else `Alice`.
pub fn type_person(name: Option<&str>) -> (r: String)
    ensures
        r@ == match name {
            Some(n) => n@,
            None => "Alice"@,
        },
{
    match name {
        Some(n) => to_string(n),
        None => to_string("Alice"),
    }
}

pub fn type_detail(person: &str) -> (r: String)
    ensures
        r@ == "„"@ + person@
            + "“ bekommt den Typ „Person“ — ein Kontext, der auf das Typ-Daten zeigt (kein Schema, kein Meta-Typ-Regress)."@,
{
    let mut s = to_string("„");
    push_str(&mut s, person);
    push_str(
        &mut s,
        "“ bekommt den Typ „Person“ — ein Kontext, der auf das Typ-Daten zeigt (kein Schema, kein Meta-Typ-Regress).",
    );
    s
}

// ---------------------------------------------------------------------------
// Traversal (§1.2/§1.7a)
// ---------------------------------------------------------------------------

/// A chain of five data yields exactly four forward steps.
pub fn traversal_passed(steps: u32) -> (r: bool)
    ensures
        r == (steps == 4),
{
    steps == 4
}

pub fn traversal_detail(steps: u32) -> (r: String)
    ensures
        r@ == "Kette der Länge 5 → "@ + dec_text(steps as nat)
            + " Schritte; terminiert (Visited-Set, zyklensicher)."@,
{
    let mut s = to_string("Kette der Länge 5 → ");
    push_decimal(&mut s, steps as u64);
    push_str(&mut s, " Schritte; terminiert (Visited-Set, zyklensicher).");
    s
}

// ---------------------------------------------------------------------------
// Supersession (§6.3)
// ---------------------------------------------------------------------------

/// The content of document version `n`: `doc-v<n>`.
pub fn doc_version(n: u32) -> (r: String)
    ensures
        r@ == "doc-v"@ + dec_text(n as nat),
{
    let mut s = to_string("doc-v");
    push_decimal(&mut s, n as u64);
    s
}

pub fn supersession_detail(new_n: u32, latest_n: u32) -> (r: String)
    ensures
        r@ == "doc-v"@ + dec_text(new_n as nat) + " überholt doc-v"@ + dec_text(latest_n as nat)
            + "; nichts gelöscht — der Kernel wählt NICHT 'die aktuelle' (§6.4)."@,
{
    let mut s = doc_version(new_n);
    push_str(&mut s, " überholt doc-v");
    push_decimal(&mut s, latest_n as u64);
    push_str(&mut s, "; nichts gelöscht — der Kernel wählt NICHT 'die aktuelle' (§6.4).");
    s
}

// ---------------------------------------------------------------------------
// Anchor (§9.1)
// ---------------------------------------------------------------------------

/// The number of the next representative: one more than the members present
/// (counted in 32 bits).
pub fn representative_number(members: usize) -> (r: u32)
    requires
        (members as int) % 0x1_0000_0000 < u32::MAX,
    ensures
        r == (members as int) % 0x1_0000_0000 + 1,
{
    let low = (members as u64 % 0x1_0000_0000) as u32;
    low + 1
}

/// The confidence grade of representative `n`: `0.80` through `0.99`, cycling.
pub fn grade_label(n: u32) -> (r: String)
    requires
        n >= 1,
    ensures
        r@ == "0."@ + dec_text((80 + (n - 1) % 20) as nat),
{
    let mut s = to_string("0.");
    push_decimal(&mut s, (80 + (n - 1) % 20) as u64);
    s
}

/// The content of representative `n`: `rep-Alice-<n>`.
pub fn representative_label(n: u32) -> (r: String)
    ensures
        r@ == "rep-Alice-"@ + dec_text(n as nat),
{
    let mut s = to_string("rep-Alice-");
    push_decimal(&mut s, n as u64);
    s
}

pub fn anchor_detail(n: u32, grade: &str, members: usize) -> (r: String)
    ensures
        r@ == "Repräsentant rep-Alice-"@ + dec_text(n as nat) + " (Konfidenz "@ + grade@
            + ") verweist per gradierter Mitgliedschaft auf denselben Anker; jetzt "@ + dec_text(
            members as nat,
        ) + " Repräsentant(en) — der Kernel wertet den Grad nie."@,
{
    let mut s = to_string("Repräsentant rep-Alice-");
    push_decimal(&mut s, n as u64);
    push_str(&mut s, " (Konfidenz ");
    push_str(&mut s, grade);
    push_str(&mut s, ") verweist per gradierter Mitgliedschaft auf denselben Anker; jetzt ");
    push_decimal(&mut s, members as u64);
    push_str(&mut s, " Repräsentant(en) — der Kernel wertet den Grad nie.");
    s
}

// ---------------------------------------------------------------------------
// Atomicity (§13)
// ---------------------------------------------------------------------------

/// Both constituents are visible after the active marker, and the first was
/// hidden before it (unless an earlier run had already activated it).
pub fn atomicity_passed(after_visible: bool, before_hidden: bool, pre_active: bool) -> (r: bool)
    ensures
        r == (after_visible && (before_hidden || pre_active)),
{
    after_visible && (before_hidden || pre_active)
}

pub fn atomicity_detail(pre_active: bool) -> (r: &'static str)
    ensures
        pre_active ==> r@
            == "Konstituenten sind bereits aus einem früheren Lauf aktiv (§13.1, append-only); für die volle VANISH→sichtbar-Demo die Session zurücksetzen (↻)."@,
        !pre_active ==> r@
            == "Konstituenten sind unsichtbar bis der Aktiv-Marker sie GEMEINSAM freigibt — Atomarität ohne Transaktions-Maschinerie."@,
{
    if pre_active {
        "Konstituenten sind bereits aus einem früheren Lauf aktiv (§13.1, append-only); für die volle VANISH→sichtbar-Demo die Session zurücksetzen (↻)."
    } else {
        "Konstituenten sind unsichtbar bis der Aktiv-Marker sie GEMEINSAM freigibt — Atomarität ohne Transaktions-Maschinerie."
    }
}

// ---------------------------------------------------------------------------
// Gate (§11.3), provenance (§10.3), federation (§12.3)
// ---------------------------------------------------------------------------

/// Without a grant the restricted datum vanishes; the permitted subject sees it.
pub fn gate_passed(hidden_without_grant: bool, visible_to_subject: bool) -> (r: bool)
    ensures
        r == (hidden_without_grant && visible_to_subject),
{
    hidden_without_grant && visible_to_subject
}

/// The foreign-only datum and the shared datum are both present locally, and
/// at least one foreign datum collapsed onto local content.
pub fn federation_passed(foreign_only_local: bool, shared_local: bool, collapsed: u64) -> (r: bool)
    ensures
        r == (foreign_only_local && shared_local && collapsed >= 1),
{
    foreign_only_local && shared_local && collapsed >= 1
}

pub fn federation_detail(new_count: u64, collapsed: u64) -> (r: String)
    ensures
        r@ == "Aus Tab „Fremdbestand“ aufgenommen: "@ + dec_text(new_count as nat) + " neu, "@
            + dec_text(collapsed as nat) + " per Inhalts-Hash kollabiert."@,
{
    let mut s = to_string("Aus Tab „Fremdbestand“ aufgenommen: ");
    push_decimal(&mut s, new_count);
    push_str(&mut s, " neu, ");
    push_decimal(&mut s, collapsed);
    push_str(&mut s, " per Inhalts-Hash kollabiert.");
    s
}

/// The title of the tab that plays the foreign data instance.
pub fn foreign_title() -> (r: &'static str)
    ensures
        r@ == "Fremdbestand"@,
{
    "Fremdbestand"
}

} // verus!
