//! Role classification: which display role and label a datum gets, decided from
//! its shape and from the structural facts that the data model's matchers report
//! about it (most specific role first).

use vstd::prelude::*;

use crate::cid::{seq_has_id, ContentId, contains_id};
use crate::text::{dec_text, push_decimal, push_str, to_string};
use crate::vocab::{
    identity_strength_name, leaf_label, leaf_label_spec, marker_kind_name_spec, strength_name,
    table_get, IdentityStrength, MarkerKind, MarkerTable,
};

verus! {

/// A datum: either an atomic leaf with a byte payload, or a node that owns a
/// (canonically sorted) set of contexts.
pub enum DatumShape {
    Leaf { payload: Vec<u8> },
    Node { owns: Vec<ContentId> },
}

impl DatumShape {
    pub open spec fn is_leaf_spec(&self) -> bool {
        self is Leaf
    }

    /// The owned context ids (empty for a leaf).
    pub open spec fn owns_spec(&self) -> Seq<ContentId> {
        match self {
            DatumShape::Leaf { .. } => Seq::empty(),
            DatumShape::Node { owns } => owns@,
        }
    }

    pub fn is_leaf(&self) -> (r: bool)
        ensures
            r == self.is_leaf_spec(),
    {
        match self {
            DatumShape::Leaf { .. } => true,
            DatumShape::Node { .. } => false,
        }
    }
}

/// What the data model's structural matchers report about a datum. For a leaf
/// every matcher reports nothing.
pub struct RoleFacts {
    pub anchor: bool,
    pub identity: Option<IdentityStrength>,
    pub active_marker: bool,
    pub recording_time: bool,
    pub validity_time: bool,
    /// The datum this one supersedes, if it is a supersession.
    pub supersedes: Option<ContentId>,
    pub area_membership: bool,
    pub revocation: bool,
    pub curation_hide: bool,
    pub curation_unhide: bool,
    pub curation_replace: bool,
    pub erasure_audit: bool,
    pub origin: bool,
    pub permission: bool,
    pub membership: bool,
    pub placeholder: bool,
}

/// The role and label of a datum, most specific role first.
pub open spec fn classify_spec(
    id: Seq<u8>,
    d: DatumShape,
    f: RoleFacts,
    markers: MarkerTable,
    type_marker: Seq<u8>,
) -> (Seq<char>, Seq<char>) {
    match d {
        DatumShape::Leaf { payload } => {
            match table_get(markers.entries@, id) {
                Some(name) => ("marker"@, name),
                None => ("leaf"@, leaf_label_spec(payload@)),
            }
        },
        DatumShape::Node { owns } => {
            if f.anchor {
                ("anchor"@, "⚓ anchor"@)
            } else if f.identity is Some {
                ("identity"@, "≈ "@ + strength_name(f.identity->0))
            } else if f.active_marker {
                ("active-marker"@, "✓ active-marker"@)
            } else if f.recording_time {
                ("time-recording"@, "⏲ recording-time"@)
            } else if f.validity_time {
                ("time-validity"@, "⏲ validity-time"@)
            } else if f.supersedes is Some {
                ("supersedes"@, "⤳ supersedes"@)
            } else if f.area_membership {
                ("area-membership"@, "▣ ∈area"@)
            } else if f.revocation {
                ("revocation"@, "⊘ revocation"@)
            } else if f.curation_hide {
                ("curation"@, "🙈 hide"@)
            } else if f.curation_unhide {
                ("curation"@, "👁 unhide"@)
            } else if f.curation_replace {
                ("curation"@, "↔ replace"@)
            } else if f.erasure_audit {
                ("provenance"@, "🗑 erasure-audit"@)
            } else if f.origin {
                ("provenance"@, "↤ origin"@)
            } else if f.permission {
                ("permission"@, "🔑 permission"@)
            } else if f.membership {
                ("membership"@, "∈ membership"@)
            } else if f.placeholder {
                ("placeholder"@, "▢ placeholder"@)
            } else if seq_has_id(owns@, type_marker) {
                ("type-context"@, "⌖ type"@)
            } else {
                ("node"@, "⊳"@ + dec_text(owns@.len()))
            }
        },
    }
}

fn labelled(role: &'static str, label: &'static str) -> (r: (&'static str, String))
    ensures
        r.0@ == role@,
        r.1@ == label@,
{
    (role, to_string(label))
}

/// Classifies a datum into a (role, label) pair for the graph view.
/// `type_marker` is the content id of this service's type marker leaf.
pub fn classify(
    id: &ContentId,
    datum: &DatumShape,
    facts: &RoleFacts,
    markers: &MarkerTable,
    type_marker: &ContentId,
) -> (r: (&'static str, String))
    ensures
        (r.0@, r.1@) == classify_spec(id@, *datum, *facts, *markers, type_marker@),
{
    match datum {
        DatumShape::Leaf { payload } => {
            match markers.marker_name(id) {
                Some(name) => labelled("marker", name),
                None => ("leaf", leaf_label(payload.as_slice())),
            }
        },
        DatumShape::Node { owns } => {
            if facts.anchor {
                labelled("anchor", "⚓ anchor")
            } else if let Some(s) = facts.identity {
                let mut label = to_string("≈ ");
                push_str(&mut label, identity_strength_name(s));
                ("identity", label)
            } else if facts.active_marker {
                labelled("active-marker", "✓ active-marker")
            } else if facts.recording_time {
                labelled("time-recording", "⏲ recording-time")
            } else if facts.validity_time {
                labelled("time-validity", "⏲ validity-time")
            } else if facts.supersedes.is_some() {
                labelled("supersedes", "⤳ supersedes")
            } else if facts.area_membership {
                labelled("area-membership", "▣ ∈area")
            } else if facts.revocation {
                labelled("revocation", "⊘ revocation")
            } else if facts.curation_hide {
                labelled("curation", "🙈 hide")
            } else if facts.curation_unhide {
                labelled("curation", "👁 unhide")
            } else if facts.curation_replace {
                labelled("curation", "↔ replace")
            } else if facts.erasure_audit {
                labelled("provenance", "🗑 erasure-audit")
            } else if facts.origin {
                labelled("provenance", "↤ origin")
            } else if facts.permission {
                labelled("permission", "🔑 permission")
            } else if facts.membership {
                labelled("membership", "∈ membership")
            } else if facts.placeholder {
                labelled("placeholder", "▢ placeholder")
            } else if contains_id(owns, type_marker) {
                labelled("type-context", "⌖ type")
            } else {
                let mut label = to_string("⊳");
                push_decimal(&mut label, owns.len() as u64);
                ("node", label)
            }
        },
    }
}


/// The text after a label's symbol and space.
pub open spec fn label_tail(l: Seq<char>) -> Seq<char> {
    l.subrange(2, l.len() as int)
}

/// None of the first `n` matcher facts, in the order `classify` tries them,
/// holds of `f`.
pub open spec fn none_before(f: RoleFacts, n: int) -> bool {
    &&& (n > 0 ==> !f.anchor)
    &&& (n > 1 ==> f.identity is None)
    &&& (n > 2 ==> !f.active_marker)
    &&& (n > 3 ==> !f.recording_time)
    &&& (n > 4 ==> !f.validity_time)
    &&& (n > 5 ==> f.supersedes is None)
    &&& (n > 6 ==> !f.area_membership)
    &&& (n > 7 ==> !f.revocation)
    &&& (n > 8 ==> !f.curation_hide)
    &&& (n > 9 ==> !f.curation_unhide)
    &&& (n > 10 ==> !f.curation_replace)
    &&& (n > 11 ==> !f.erasure_audit)
    &&& (n > 12 ==> !f.origin)
    &&& (n > 13 ==> !f.permission)
    &&& (n > 14 ==> !f.membership)
    &&& (n > 15 ==> !f.placeholder)
}

/// A node's label names the marker of the context it is: after the symbol and a
/// space comes that marker's name (for curation contexts, the action the marker
/// names after `curation-`). So a recording-time context is labelled with the
/// recording-time marker's name, a validity-time context with the validity-time
/// marker's, a hide context with the hide marker's, and so on.
pub proof fn law_context_labels_name_their_markers(
    id: Seq<u8>,
    owns: Vec<ContentId>,
    f: RoleFacts,
    markers: MarkerTable,
    type_marker: Seq<u8>,
)
    ensures
        ({
            let l = classify_spec(id, DatumShape::Node { owns }, f, markers, type_marker).1;
            &&& none_before(f, 0) && f.anchor
                ==> label_tail(l) == marker_kind_name_spec(MarkerKind::Anchor)
            &&& none_before(f, 1) && f.identity is Some
                ==> label_tail(l) == marker_kind_name_spec(MarkerKind::Identity(f.identity->0))
            &&& none_before(f, 2) && f.active_marker
                ==> label_tail(l) == marker_kind_name_spec(MarkerKind::ActiveMarker)
            &&& none_before(f, 3) && f.recording_time
                ==> label_tail(l) == marker_kind_name_spec(MarkerKind::RecordingTime)
            &&& none_before(f, 4) && f.validity_time
                ==> label_tail(l) == marker_kind_name_spec(MarkerKind::ValidityTime)
            &&& none_before(f, 5) && f.supersedes is Some
                ==> label_tail(l) == marker_kind_name_spec(MarkerKind::Supersession)
            &&& none_before(f, 7) && f.revocation
                ==> label_tail(l) == marker_kind_name_spec(MarkerKind::Revocation)
            &&& none_before(f, 8) && f.curation_hide
                ==> "curation-"@ + label_tail(l) == marker_kind_name_spec(MarkerKind::CurationHide)
            &&& none_before(f, 9) && f.curation_unhide
                ==> "curation-"@ + label_tail(l) == marker_kind_name_spec(MarkerKind::CurationUnhide)
            &&& none_before(f, 10) && f.curation_replace
                ==> "curation-"@ + label_tail(l) == marker_kind_name_spec(MarkerKind::CurationReplace)
            &&& none_before(f, 11) && f.erasure_audit
                ==> label_tail(l) == marker_kind_name_spec(MarkerKind::ErasureAudit)
            &&& none_before(f, 12) && f.origin
                ==> label_tail(l) == marker_kind_name_spec(MarkerKind::Origin)
            &&& none_before(f, 13) && f.permission
                ==> label_tail(l) == marker_kind_name_spec(MarkerKind::Permission)
            &&& none_before(f, 14) && f.membership
                ==> label_tail(l) == marker_kind_name_spec(MarkerKind::Membership)
            &&& none_before(f, 16) && seq_has_id(owns@, type_marker)
                ==> label_tail(l) == marker_kind_name_spec(MarkerKind::HatcheryType)
        }),
{
    reveal_strlit("⚓ anchor");
    reveal_strlit("≈ ");
    reveal_strlit("✓ active-marker");
    reveal_strlit("⏲ recording-time");
    reveal_strlit("⏲ validity-time");
    reveal_strlit("⤳ supersedes");
    reveal_strlit("⊘ revocation");
    reveal_strlit("🙈 hide");
    reveal_strlit("👁 unhide");
    reveal_strlit("↔ replace");
    reveal_strlit("🗑 erasure-audit");
    reveal_strlit("↤ origin");
    reveal_strlit("🔑 permission");
    reveal_strlit("∈ membership");
    reveal_strlit("⌖ type");
    reveal_strlit("anchor");
    reveal_strlit("active-marker");
    reveal_strlit("recording-time");
    reveal_strlit("validity-time");
    reveal_strlit("supersedes");
    reveal_strlit("revocation");
    reveal_strlit("curation-hide");
    reveal_strlit("curation-unhide");
    reveal_strlit("curation-replace");
    reveal_strlit("erasure-audit");
    reveal_strlit("origin");
    reveal_strlit("permission");
    reveal_strlit("membership");
    reveal_strlit("type");
    reveal_strlit("hide");
    reveal_strlit("unhide");
    reveal_strlit("replace");
    reveal_strlit("curation-");
    assert("⚓ anchor"@.subrange(2, "⚓ anchor"@.len() as int) =~= "anchor"@);
    assert("✓ active-marker"@.subrange(2, "✓ active-marker"@.len() as int) =~= "active-marker"@);
    assert("⏲ recording-time"@.subrange(2, "⏲ recording-time"@.len() as int) =~= "recording-time"@);
    assert("⏲ validity-time"@.subrange(2, "⏲ validity-time"@.len() as int) =~= "validity-time"@);
    assert("⤳ supersedes"@.subrange(2, "⤳ supersedes"@.len() as int) =~= "supersedes"@);
    assert("⊘ revocation"@.subrange(2, "⊘ revocation"@.len() as int) =~= "revocation"@);
    assert("🙈 hide"@.subrange(2, "🙈 hide"@.len() as int) =~= "hide"@);
    assert("👁 unhide"@.subrange(2, "👁 unhide"@.len() as int) =~= "unhide"@);
    assert("↔ replace"@.subrange(2, "↔ replace"@.len() as int) =~= "replace"@);
    assert("🗑 erasure-audit"@.subrange(2, "🗑 erasure-audit"@.len() as int) =~= "erasure-audit"@);
    assert("↤ origin"@.subrange(2, "↤ origin"@.len() as int) =~= "origin"@);
    assert("🔑 permission"@.subrange(2, "🔑 permission"@.len() as int) =~= "permission"@);
    assert("∈ membership"@.subrange(2, "∈ membership"@.len() as int) =~= "membership"@);
    assert("⌖ type"@.subrange(2, "⌖ type"@.len() as int) =~= "type"@);
    match f.identity {
        Some(x) => {
            assert(("≈ "@ + strength_name(x)).subrange(2, ("≈ "@ + strength_name(x)).len() as int)
                =~= strength_name(x));
        },
        None => {},
    }
    assert("curation-"@ + "hide"@ =~= "curation-hide"@);
    assert("curation-"@ + "unhide"@ =~= "curation-unhide"@);
    assert("curation-"@ + "replace"@ =~= "curation-replace"@);
}

/// Recording-time and validity-time contexts never share a role or a label:
/// the view always tells the two time axes apart.
pub proof fn law_time_axes_apart(
    id1: Seq<u8>,
    owns1: Vec<ContentId>,
    f1: RoleFacts,
    id2: Seq<u8>,
    owns2: Vec<ContentId>,
    f2: RoleFacts,
    markers: MarkerTable,
    type_marker: Seq<u8>,
)
    requires
        none_before(f1, 3) && f1.recording_time,
        none_before(f2, 4) && f2.validity_time,
    ensures
        classify_spec(id1, DatumShape::Node { owns: owns1 }, f1, markers, type_marker).0
            != classify_spec(id2, DatumShape::Node { owns: owns2 }, f2, markers, type_marker).0,
        classify_spec(id1, DatumShape::Node { owns: owns1 }, f1, markers, type_marker).1
            != classify_spec(id2, DatumShape::Node { owns: owns2 }, f2, markers, type_marker).1,
{
    reveal_strlit("time-recording");
    reveal_strlit("time-validity");
    reveal_strlit("⏲ recording-time");
    reveal_strlit("⏲ validity-time");
    assert("time-recording"@[5] != "time-validity"@[5]);
    assert("⏲ recording-time"@[2] != "⏲ validity-time"@[2]);
}

/// A node's role names the marker of the context it is: anchor, active-marker,
/// supersession, area-membership, revocation, permission and membership
/// contexts are given their marker's name as role, and identity and curation
/// contexts a role that begins their marker's name (`identity`, `curation`).
pub proof fn law_context_roles_name_their_markers(
    id: Seq<u8>,
    owns: Vec<ContentId>,
    f: RoleFacts,
    markers: MarkerTable,
    type_marker: Seq<u8>,
)
    ensures
        ({
            let r = classify_spec(id, DatumShape::Node { owns }, f, markers, type_marker).0;
            &&& none_before(f, 0) && f.anchor
                ==> r == marker_kind_name_spec(MarkerKind::Anchor)
            &&& none_before(f, 1) && f.identity is Some
                ==> marker_kind_name_spec(MarkerKind::Identity(f.identity->0)).subrange(0, r.len() as int) == r
            &&& none_before(f, 2) && f.active_marker
                ==> r == marker_kind_name_spec(MarkerKind::ActiveMarker)
            &&& none_before(f, 5) && f.supersedes is Some
                ==> r == marker_kind_name_spec(MarkerKind::Supersession)
            &&& none_before(f, 6) && f.area_membership
                ==> r == marker_kind_name_spec(MarkerKind::AreaMembership)
            &&& none_before(f, 7) && f.revocation
                ==> r == marker_kind_name_spec(MarkerKind::Revocation)
            &&& none_before(f, 8) && f.curation_hide
                ==> marker_kind_name_spec(MarkerKind::CurationHide).subrange(0, r.len() as int) == r
            &&& none_before(f, 9) && f.curation_unhide
                ==> marker_kind_name_spec(MarkerKind::CurationUnhide).subrange(0, r.len() as int) == r
            &&& none_before(f, 10) && f.curation_replace
                ==> marker_kind_name_spec(MarkerKind::CurationReplace).subrange(0, r.len() as int) == r
            &&& none_before(f, 13) && f.permission
                ==> r == marker_kind_name_spec(MarkerKind::Permission)
            &&& none_before(f, 14) && f.membership
                ==> r == marker_kind_name_spec(MarkerKind::Membership)
        }),
{
    reveal_strlit("anchor");
    reveal_strlit("identity");
    reveal_strlit("active-marker");
    reveal_strlit("supersedes");
    reveal_strlit("area-membership");
    reveal_strlit("revocation");
    reveal_strlit("curation");
    reveal_strlit("permission");
    reveal_strlit("membership");
    reveal_strlit("identity:deckungsgleich");
    reveal_strlit("identity:ergaenzt");
    reveal_strlit("identity:widerspricht-in");
    reveal_strlit("identity:verwandt-mit");
    reveal_strlit("identity:bekannt-verschieden");
    reveal_strlit("curation-hide");
    reveal_strlit("curation-unhide");
    reveal_strlit("curation-replace");
    match f.identity {
        Some(x) => {
            assert(strength_name(x).subrange(0, 8) =~= "identity"@);
        },
        None => {},
    }
    assert("curation-hide"@.subrange(0, 8) =~= "curation"@);
    assert("curation-unhide"@.subrange(0, 8) =~= "curation"@);
    assert("curation-replace"@.subrange(0, 8) =~= "curation"@);
}

} // verus!
