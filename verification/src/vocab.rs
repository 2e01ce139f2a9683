//! The display vocabulary: the well-known marker data and their human names, the
//! names of the identity strengths, the type marker of this service, and the
//! short label shown for an opaque leaf payload.

use vstd::prelude::*;
use vstd::utf8::*;

use crate::cid::{lemma_hex_text_shape, ContentId};
use crate::text::{
    byte_hex, hex_char, chars_of, control, hex_digit, hex_text, is_control, lemma_hex_char_value, push_char,
    str_from_utf8,
    to_string,
};

verus! {

/// The graded strengths of a referential identity assertion.
#[derive(Clone, Copy, PartialEq, Eq, Structural, Debug)]
pub enum IdentityStrength {
    Deckungsgleich,
    Ergaenzt,
    WidersprichtIn,
    VerwandtMit,
    BekanntVerschieden,
}

pub open spec fn strength_name(s: IdentityStrength) -> Seq<char> {
    match s {
        IdentityStrength::Deckungsgleich => "identity:deckungsgleich"@,
        IdentityStrength::Ergaenzt => "identity:ergaenzt"@,
        IdentityStrength::WidersprichtIn => "identity:widerspricht-in"@,
        IdentityStrength::VerwandtMit => "identity:verwandt-mit"@,
        IdentityStrength::BekanntVerschieden => "identity:bekannt-verschieden"@,
    }
}

/// The display name of an identity strength.
pub fn identity_strength_name(s: IdentityStrength) -> (r: &'static str)
    ensures
        r@ == strength_name(s),
{
    match s {
        IdentityStrength::Deckungsgleich => "identity:deckungsgleich",
        IdentityStrength::Ergaenzt => "identity:ergaenzt",
        IdentityStrength::WidersprichtIn => "identity:widerspricht-in",
        IdentityStrength::VerwandtMit => "identity:verwandt-mit",
        IdentityStrength::BekanntVerschieden => "identity:bekannt-verschieden",
    }
}

/// The payload of this service's own "type" marker leaf.
pub open spec fn type_marker_payload() -> Seq<u8> {
    seq![
        104u8, 97u8, 116u8, 99u8, 104u8, 101u8, 114u8, 121u8, 47u8, 116u8, 121u8, 112u8, 101u8,
        47u8, 118u8, 49u8,
    ]
}

/// The payload bytes of the "type" marker leaf: the text `hatchery/type/v1`. A
/// type is a context that owns this marker leaf and points at a type datum.
pub fn hatchery_type_marker() -> (r: Vec<u8>)
    ensures
        r@ == type_marker_payload(),
{
    let v: Vec<u8> = vec![
        104u8,
        97u8,
        116u8,
        99u8,
        104u8,
        101u8,
        114u8,
        121u8,
        47u8,
        116u8,
        121u8,
        112u8,
        101u8,
        47u8,
        118u8,
        49u8,
    ];
    assert(v@ =~= type_marker_payload());
    v
}

/// The well-known marker leaves the graph view can name.
#[derive(Clone, Copy, PartialEq, Eq, Structural, Debug)]
pub enum MarkerKind {
    Unresolved,
    AreaMembership,
    PermissionSubject,
    PermissionArea,
    Permission,
    Revocation,
    RecordingTime,
    ValidityTime,
    Supersession,
    Anchor,
    Membership,
    MembershipGrade,
    CurationHide,
    CurationUnhide,
    CurationReplace,
    Origin,
    ActiveMarker,
    ReconcileRule,
    ErasureRight,
    ErasureAudit,
    Identity(IdentityStrength),
    HatcheryType,
}

pub open spec fn marker_kind_name_spec(k: MarkerKind) -> Seq<char> {
    match k {
        MarkerKind::Unresolved => "unresolved"@,
        MarkerKind::AreaMembership => "area-membership"@,
        MarkerKind::PermissionSubject => "perm-subject"@,
        MarkerKind::PermissionArea => "perm-area"@,
        MarkerKind::Permission => "permission"@,
        MarkerKind::Revocation => "revocation"@,
        MarkerKind::RecordingTime => "recording-time"@,
        MarkerKind::ValidityTime => "validity-time"@,
        MarkerKind::Supersession => "supersedes"@,
        MarkerKind::Anchor => "anchor"@,
        MarkerKind::Membership => "membership"@,
        MarkerKind::MembershipGrade => "grade"@,
        MarkerKind::CurationHide => "curation-hide"@,
        MarkerKind::CurationUnhide => "curation-unhide"@,
        MarkerKind::CurationReplace => "curation-replace"@,
        MarkerKind::Origin => "origin"@,
        MarkerKind::ActiveMarker => "active-marker"@,
        MarkerKind::ReconcileRule => "reconcile-rule"@,
        MarkerKind::ErasureRight => "erasure-right"@,
        MarkerKind::ErasureAudit => "erasure-audit"@,
        MarkerKind::Identity(s) => strength_name(s),
        MarkerKind::HatcheryType => "type"@,
    }
}

/// The human name shown for a marker leaf.
pub fn marker_kind_name(k: MarkerKind) -> (r: &'static str)
    ensures
        r@ == marker_kind_name_spec(k),
{
    match k {
        MarkerKind::Unresolved => "unresolved",
        MarkerKind::AreaMembership => "area-membership",
        MarkerKind::PermissionSubject => "perm-subject",
        MarkerKind::PermissionArea => "perm-area",
        MarkerKind::Permission => "permission",
        MarkerKind::Revocation => "revocation",
        MarkerKind::RecordingTime => "recording-time",
        MarkerKind::ValidityTime => "validity-time",
        MarkerKind::Supersession => "supersedes",
        MarkerKind::Anchor => "anchor",
        MarkerKind::Membership => "membership",
        MarkerKind::MembershipGrade => "grade",
        MarkerKind::CurationHide => "curation-hide",
        MarkerKind::CurationUnhide => "curation-unhide",
        MarkerKind::CurationReplace => "curation-replace",
        MarkerKind::Origin => "origin",
        MarkerKind::ActiveMarker => "active-marker",
        MarkerKind::ReconcileRule => "reconcile-rule",
        MarkerKind::ErasureRight => "erasure-right",
        MarkerKind::ErasureAudit => "erasure-audit",
        MarkerKind::Identity(s) => identity_strength_name(s),
        MarkerKind::HatcheryType => "type",
    }
}

/// Every marker the view names, in registration order.
pub open spec fn marker_kinds_spec() -> Seq<MarkerKind> {
    seq![
        MarkerKind::Unresolved,
        MarkerKind::AreaMembership,
        MarkerKind::PermissionSubject,
        MarkerKind::PermissionArea,
        MarkerKind::Permission,
        MarkerKind::Revocation,
        MarkerKind::RecordingTime,
        MarkerKind::ValidityTime,
        MarkerKind::Supersession,
        MarkerKind::Anchor,
        MarkerKind::Membership,
        MarkerKind::MembershipGrade,
        MarkerKind::CurationHide,
        MarkerKind::CurationUnhide,
        MarkerKind::CurationReplace,
        MarkerKind::Origin,
        MarkerKind::ActiveMarker,
        MarkerKind::ReconcileRule,
        MarkerKind::ErasureRight,
        MarkerKind::ErasureAudit,
        MarkerKind::Identity(IdentityStrength::Deckungsgleich),
        MarkerKind::Identity(IdentityStrength::Ergaenzt),
        MarkerKind::Identity(IdentityStrength::WidersprichtIn),
        MarkerKind::Identity(IdentityStrength::VerwandtMit),
        MarkerKind::Identity(IdentityStrength::BekanntVerschieden),
        MarkerKind::HatcheryType,
    ]
}

pub fn marker_kinds() -> (r: Vec<MarkerKind>)
    ensures
        r@ == marker_kinds_spec(),
{
    let v = vec![
        MarkerKind::Unresolved,
        MarkerKind::AreaMembership,
        MarkerKind::PermissionSubject,
        MarkerKind::PermissionArea,
        MarkerKind::Permission,
        MarkerKind::Revocation,
        MarkerKind::RecordingTime,
        MarkerKind::ValidityTime,
        MarkerKind::Supersession,
        MarkerKind::Anchor,
        MarkerKind::Membership,
        MarkerKind::MembershipGrade,
        MarkerKind::CurationHide,
        MarkerKind::CurationUnhide,
        MarkerKind::CurationReplace,
        MarkerKind::Origin,
        MarkerKind::ActiveMarker,
        MarkerKind::ReconcileRule,
        MarkerKind::ErasureRight,
        MarkerKind::ErasureAudit,
        MarkerKind::Identity(IdentityStrength::Deckungsgleich),
        MarkerKind::Identity(IdentityStrength::Ergaenzt),
        MarkerKind::Identity(IdentityStrength::WidersprichtIn),
        MarkerKind::Identity(IdentityStrength::VerwandtMit),
        MarkerKind::Identity(IdentityStrength::BekanntVerschieden),
        MarkerKind::HatcheryType,
    ];
    assert(v@ =~= marker_kinds_spec());
    v
}

/// One registered marker: its content id and its name.
#[derive(Clone, Copy)]
pub struct MarkerEntry {
    pub id: ContentId,
    pub name: &'static str,
}

/// The name registered last for `id` among `entries`, if any.
pub open spec fn table_get(entries: Seq<MarkerEntry>, id: Seq<u8>) -> Option<Seq<char>>
    decreases entries.len(),
{
    if entries.len() == 0 {
        None
    } else if entries.last().id@ == id {
        Some(entries.last().name@)
    } else {
        table_get(entries.drop_last(), id)
    }
}

/// A map from marker content ids to marker names; a later registration of the
/// same id replaces the earlier one.
pub struct MarkerTable {
    pub entries: Vec<MarkerEntry>,
}

impl MarkerTable {
    pub open spec fn get_spec(&self, id: Seq<u8>) -> Option<Seq<char>> {
        table_get(self.entries@, id)
    }

    pub fn new() -> (t: MarkerTable)
        ensures
            forall|id: Seq<u8>| t.get_spec(id) is None,
    {
        MarkerTable { entries: Vec::new() }
    }

    /// Registers `name` for `id`.
    pub fn insert(&mut self, id: ContentId, name: &'static str)
        ensures
            final(self).get_spec(id@) == Some(name@),
            forall|k: Seq<u8>| k != id@ ==> final(self).get_spec(k) == old(self).get_spec(k),
    {
        let ghost before = self.entries@;
        self.entries.push(MarkerEntry { id, name });
        assert(self.entries@.drop_last() =~= before);
    }

    /// Registers the name of `kind` for `id`.
    pub fn register(&mut self, id: ContentId, kind: MarkerKind)
        ensures
            final(self).get_spec(id@) == Some(marker_kind_name_spec(kind)),
            forall|k: Seq<u8>| k != id@ ==> final(self).get_spec(k) == old(self).get_spec(k),
    {
        self.insert(id, marker_kind_name(kind));
    }

    /// If `id` is a registered marker, its name.
    pub fn marker_name(&self, id: &ContentId) -> (r: Option<&'static str>)
        ensures
            r is Some <==> self.get_spec(id@) is Some,
            r matches Some(n) ==> self.get_spec(id@) == Some(n@),
    {
        let mut k = self.entries.len();
        assert(self.entries@.subrange(0, k as int) =~= self.entries@);
        while k > 0
            invariant
                k <= self.entries@.len(),
                table_get(self.entries@, id@) == table_get(self.entries@.subrange(0, k as int), id@),
            decreases k,
        {
            let e = self.entries[k - 1];
            assert(self.entries@.subrange(0, k as int).drop_last() =~= self.entries@.subrange(
                0,
                k as int - 1,
            ));
            if e.id.same(id) {
                return Some(e.name);
            }
            k = k - 1;
        }
        None
    }
}

// ---------------------------------------------------------------------------
// Leaf labels
// ---------------------------------------------------------------------------

/// No character of `s` is a control character.
pub open spec fn no_control(s: Seq<char>) -> bool {
    forall|i: int| 0 <= i < s.len() ==> !is_control(#[trigger] s[i])
}

/// At most `max` characters of `s`; a cut text ends in an ellipsis.
pub open spec fn truncate_spec(s: Seq<char>, max: nat) -> Seq<char> {
    if s.len() <= max {
        s
    } else {
        s.take(max as int).push('…')
    }
}

/// The label of a leaf payload: `∅` when empty, the text (cut to 32 characters)
/// when it is UTF-8 without control characters, else `0x`, the hex of at most
/// the first four bytes, and an ellipsis.
pub open spec fn leaf_label_spec(p: Seq<u8>) -> Seq<char> {
    if p.len() == 0 {
        seq!['∅']
    } else if valid_utf8(p) && no_control(decode_utf8(p)) {
        truncate_spec(decode_utf8(p), 32)
    } else {
        seq!['0', 'x'] + hex_text(p.take(if p.len() < 4 {
            p.len() as int
        } else {
            4
        })) + seq!['…']
    }
}

/// Cuts `s` to at most `max` characters, marking a cut with an ellipsis.
pub fn truncate(s: &str, max: usize) -> (r: String)
    ensures
        r@ == truncate_spec(s@, max as nat),
{
    let cs = chars_of(s);
    if cs.len() <= max {
        to_string(s)
    } else {
        let mut out = String::new();
        let mut i: usize = 0;
        while i < max
            invariant
                i <= max < cs@.len(),
                cs@ == s@,
                out@ == s@.take(i as int),
            decreases max - i,
        {
            push_char(&mut out, cs[i]);
            assert(out@ =~= s@.take(i as int + 1));
            i = i + 1;
        }
        push_char(&mut out, '…');
        out
    }
}

/// A short human label for an opaque leaf payload.
pub fn leaf_label(payload: &[u8]) -> (r: String)
    ensures
        r@ == leaf_label_spec(payload@),
{
    if payload.len() == 0 {
        let mut e = String::new();
        push_char(&mut e, '∅');
        return e;
    }
    match str_from_utf8(payload) {
        Some(s) => {
            let cs = chars_of(s);
            let mut i: usize = 0;
            let mut clean = true;
            while i < cs.len()
                invariant
                    i <= cs@.len(),
                    clean == (forall|j: int| 0 <= j < i ==> !is_control(#[trigger] cs@[j])),
                decreases cs.len() - i,
            {
                if control(cs[i]) {
                    clean = false;
                }
                i = i + 1;
            }
            if clean {
                return truncate(s, 32);
            }
        },
        None => {},
    }
    let n: usize = if payload.len() < 4 {
        payload.len()
    } else {
        4
    };
    let mut out = String::new();
    push_char(&mut out, '0');
    push_char(&mut out, 'x');
    let mut i: usize = 0;
    assert(payload@.take(0) =~= Seq::<u8>::empty());
    while i < n
        invariant
            i <= n <= payload@.len(),
            n == (if payload@.len() < 4 {
                payload@.len() as int
            } else {
                4
            }),
            out@ == seq!['0', 'x'] + hex_text(payload@.take(i as int)),
        decreases n - i,
    {
        let b = payload[i];
        push_char(&mut out, hex_digit(b / 16));
        push_char(&mut out, hex_digit(b % 16));
        assert(payload@.take(i as int + 1).drop_last() =~= payload@.take(i as int));
        assert(hex_text(payload@.take(i as int + 1)) == hex_text(payload@.take(i as int))
            + byte_hex(b));
        assert(out@ =~= seq!['0', 'x'] + hex_text(payload@.take(i as int + 1)));
        i = i + 1;
    }
    push_char(&mut out, '…');
    out
}

/// A leaf label is short and printable: at most 33 characters (32 and an
/// ellipsis), none of them a control character.
pub proof fn law_leaf_label_short_and_printable(p: Seq<u8>)
    ensures
        leaf_label_spec(p).len() <= 33,
        no_control(leaf_label_spec(p)),
{
    if p.len() == 0 {
        assert(no_control(seq!['∅']));
    } else if valid_utf8(p) && no_control(decode_utf8(p)) {
        let s = decode_utf8(p);
        let l = truncate_spec(s, 32);
        assert forall|i: int| 0 <= i < l.len() implies !is_control(#[trigger] l[i]) by {
            if s.len() > 32 && i < 32 {
                assert(l[i] == s[i]);
            }
        }
    } else {
        let n: int = if p.len() < 4 {
            p.len() as int
        } else {
            4
        };
        let q = p.take(n);
        let h = hex_text(q);
        lemma_hex_text_shape(q);
        let l = seq!['0', 'x'] + h + seq!['…'];
        assert forall|i: int| 0 <= i < l.len() implies !is_control(#[trigger] l[i]) by {
            if 2 <= i < 2 + h.len() {
                let k = (i - 2) / 2;
                assert(l[i] == h[i - 2]);
                lemma_hex_char_value((q[k] / 16) as nat);
                lemma_hex_char_value((q[k] % 16) as nat);
                if (i - 2) % 2 == 0 {
                    assert(h[2 * k] == hex_char((q[k] / 16) as nat));
                } else {
                    assert(h[2 * k + 1] == hex_char((q[k] % 16) as nat));
                }
            }
        }
        assert(leaf_label_spec(p) == l);
    }
}

/// Every marker the view names has a name of its own: no two markers share one.
pub proof fn law_marker_names_distinct()
    ensures
        forall|a: int, b: int|
            0 <= a < b < marker_kinds_spec().len() ==> #[trigger] marker_kind_name_spec(
                marker_kinds_spec()[a],
            ) != #[trigger] marker_kind_name_spec(marker_kinds_spec()[b]),
{
    reveal_strlit("unresolved");
    reveal_strlit("area-membership");
    reveal_strlit("perm-subject");
    reveal_strlit("perm-area");
    reveal_strlit("permission");
    reveal_strlit("revocation");
    reveal_strlit("recording-time");
    reveal_strlit("validity-time");
    reveal_strlit("supersedes");
    reveal_strlit("anchor");
    reveal_strlit("membership");
    reveal_strlit("grade");
    reveal_strlit("curation-hide");
    reveal_strlit("curation-unhide");
    reveal_strlit("curation-replace");
    reveal_strlit("origin");
    reveal_strlit("active-marker");
    reveal_strlit("reconcile-rule");
    reveal_strlit("erasure-right");
    reveal_strlit("erasure-audit");
    reveal_strlit("identity:deckungsgleich");
    reveal_strlit("identity:ergaenzt");
    reveal_strlit("identity:widerspricht-in");
    reveal_strlit("identity:verwandt-mit");
    reveal_strlit("identity:bekannt-verschieden");
    reveal_strlit("type");
    assert(marker_kind_name_spec(marker_kinds_spec()[0]).len() == 10 && marker_kind_name_spec(marker_kinds_spec()[0])[0] == 'u' && marker_kind_name_spec(marker_kinds_spec()[0])[9] == 'd' && marker_kind_name_spec(marker_kinds_spec()[0])[8] == 'e' && marker_kind_name_spec(marker_kinds_spec()[0])[7] == 'v');
    assert(marker_kind_name_spec(marker_kinds_spec()[1]).len() == 15 && marker_kind_name_spec(marker_kinds_spec()[1])[0] == 'a' && marker_kind_name_spec(marker_kinds_spec()[1])[14] == 'p' && marker_kind_name_spec(marker_kinds_spec()[1])[13] == 'i' && marker_kind_name_spec(marker_kinds_spec()[1])[12] == 'h');
    assert(marker_kind_name_spec(marker_kinds_spec()[2]).len() == 12 && marker_kind_name_spec(marker_kinds_spec()[2])[0] == 'p' && marker_kind_name_spec(marker_kinds_spec()[2])[11] == 't' && marker_kind_name_spec(marker_kinds_spec()[2])[10] == 'c' && marker_kind_name_spec(marker_kinds_spec()[2])[9] == 'e');
    assert(marker_kind_name_spec(marker_kinds_spec()[3]).len() == 9 && marker_kind_name_spec(marker_kinds_spec()[3])[0] == 'p' && marker_kind_name_spec(marker_kinds_spec()[3])[8] == 'a' && marker_kind_name_spec(marker_kinds_spec()[3])[7] == 'e' && marker_kind_name_spec(marker_kinds_spec()[3])[6] == 'r');
    assert(marker_kind_name_spec(marker_kinds_spec()[4]).len() == 10 && marker_kind_name_spec(marker_kinds_spec()[4])[0] == 'p' && marker_kind_name_spec(marker_kinds_spec()[4])[9] == 'n' && marker_kind_name_spec(marker_kinds_spec()[4])[8] == 'o' && marker_kind_name_spec(marker_kinds_spec()[4])[7] == 'i');
    assert(marker_kind_name_spec(marker_kinds_spec()[5]).len() == 10 && marker_kind_name_spec(marker_kinds_spec()[5])[0] == 'r' && marker_kind_name_spec(marker_kinds_spec()[5])[9] == 'n' && marker_kind_name_spec(marker_kinds_spec()[5])[8] == 'o' && marker_kind_name_spec(marker_kinds_spec()[5])[7] == 'i');
    assert(marker_kind_name_spec(marker_kinds_spec()[6]).len() == 14 && marker_kind_name_spec(marker_kinds_spec()[6])[0] == 'r' && marker_kind_name_spec(marker_kinds_spec()[6])[13] == 'e' && marker_kind_name_spec(marker_kinds_spec()[6])[12] == 'm' && marker_kind_name_spec(marker_kinds_spec()[6])[11] == 'i');
    assert(marker_kind_name_spec(marker_kinds_spec()[7]).len() == 13 && marker_kind_name_spec(marker_kinds_spec()[7])[0] == 'v' && marker_kind_name_spec(marker_kinds_spec()[7])[12] == 'e' && marker_kind_name_spec(marker_kinds_spec()[7])[11] == 'm' && marker_kind_name_spec(marker_kinds_spec()[7])[10] == 'i');
    assert(marker_kind_name_spec(marker_kinds_spec()[8]).len() == 10 && marker_kind_name_spec(marker_kinds_spec()[8])[0] == 's' && marker_kind_name_spec(marker_kinds_spec()[8])[9] == 's' && marker_kind_name_spec(marker_kinds_spec()[8])[8] == 'e' && marker_kind_name_spec(marker_kinds_spec()[8])[7] == 'd');
    assert(marker_kind_name_spec(marker_kinds_spec()[9]).len() == 6 && marker_kind_name_spec(marker_kinds_spec()[9])[0] == 'a' && marker_kind_name_spec(marker_kinds_spec()[9])[5] == 'r' && marker_kind_name_spec(marker_kinds_spec()[9])[4] == 'o' && marker_kind_name_spec(marker_kinds_spec()[9])[3] == 'h');
    assert(marker_kind_name_spec(marker_kinds_spec()[10]).len() == 10 && marker_kind_name_spec(marker_kinds_spec()[10])[0] == 'm' && marker_kind_name_spec(marker_kinds_spec()[10])[9] == 'p' && marker_kind_name_spec(marker_kinds_spec()[10])[8] == 'i' && marker_kind_name_spec(marker_kinds_spec()[10])[7] == 'h');
    assert(marker_kind_name_spec(marker_kinds_spec()[11]).len() == 5 && marker_kind_name_spec(marker_kinds_spec()[11])[0] == 'g' && marker_kind_name_spec(marker_kinds_spec()[11])[4] == 'e' && marker_kind_name_spec(marker_kinds_spec()[11])[3] == 'd' && marker_kind_name_spec(marker_kinds_spec()[11])[2] == 'a');
    assert(marker_kind_name_spec(marker_kinds_spec()[12]).len() == 13 && marker_kind_name_spec(marker_kinds_spec()[12])[0] == 'c' && marker_kind_name_spec(marker_kinds_spec()[12])[12] == 'e' && marker_kind_name_spec(marker_kinds_spec()[12])[11] == 'd' && marker_kind_name_spec(marker_kinds_spec()[12])[10] == 'i');
    assert(marker_kind_name_spec(marker_kinds_spec()[13]).len() == 15 && marker_kind_name_spec(marker_kinds_spec()[13])[0] == 'c' && marker_kind_name_spec(marker_kinds_spec()[13])[14] == 'e' && marker_kind_name_spec(marker_kinds_spec()[13])[13] == 'd' && marker_kind_name_spec(marker_kinds_spec()[13])[12] == 'i');
    assert(marker_kind_name_spec(marker_kinds_spec()[14]).len() == 16 && marker_kind_name_spec(marker_kinds_spec()[14])[0] == 'c' && marker_kind_name_spec(marker_kinds_spec()[14])[15] == 'e' && marker_kind_name_spec(marker_kinds_spec()[14])[14] == 'c' && marker_kind_name_spec(marker_kinds_spec()[14])[13] == 'a');
    assert(marker_kind_name_spec(marker_kinds_spec()[15]).len() == 6 && marker_kind_name_spec(marker_kinds_spec()[15])[0] == 'o' && marker_kind_name_spec(marker_kinds_spec()[15])[5] == 'n' && marker_kind_name_spec(marker_kinds_spec()[15])[4] == 'i' && marker_kind_name_spec(marker_kinds_spec()[15])[3] == 'g');
    assert(marker_kind_name_spec(marker_kinds_spec()[16]).len() == 13 && marker_kind_name_spec(marker_kinds_spec()[16])[0] == 'a' && marker_kind_name_spec(marker_kinds_spec()[16])[12] == 'r' && marker_kind_name_spec(marker_kinds_spec()[16])[11] == 'e' && marker_kind_name_spec(marker_kinds_spec()[16])[10] == 'k');
    assert(marker_kind_name_spec(marker_kinds_spec()[17]).len() == 14 && marker_kind_name_spec(marker_kinds_spec()[17])[0] == 'r' && marker_kind_name_spec(marker_kinds_spec()[17])[13] == 'e' && marker_kind_name_spec(marker_kinds_spec()[17])[12] == 'l' && marker_kind_name_spec(marker_kinds_spec()[17])[11] == 'u');
    assert(marker_kind_name_spec(marker_kinds_spec()[18]).len() == 13 && marker_kind_name_spec(marker_kinds_spec()[18])[0] == 'e' && marker_kind_name_spec(marker_kinds_spec()[18])[12] == 't' && marker_kind_name_spec(marker_kinds_spec()[18])[11] == 'h' && marker_kind_name_spec(marker_kinds_spec()[18])[10] == 'g');
    assert(marker_kind_name_spec(marker_kinds_spec()[19]).len() == 13 && marker_kind_name_spec(marker_kinds_spec()[19])[0] == 'e' && marker_kind_name_spec(marker_kinds_spec()[19])[12] == 't' && marker_kind_name_spec(marker_kinds_spec()[19])[11] == 'i' && marker_kind_name_spec(marker_kinds_spec()[19])[10] == 'd');
    assert(marker_kind_name_spec(marker_kinds_spec()[20]).len() == 23 && marker_kind_name_spec(marker_kinds_spec()[20])[0] == 'i' && marker_kind_name_spec(marker_kinds_spec()[20])[22] == 'h' && marker_kind_name_spec(marker_kinds_spec()[20])[21] == 'c' && marker_kind_name_spec(marker_kinds_spec()[20])[20] == 'i');
    assert(marker_kind_name_spec(marker_kinds_spec()[21]).len() == 17 && marker_kind_name_spec(marker_kinds_spec()[21])[0] == 'i' && marker_kind_name_spec(marker_kinds_spec()[21])[16] == 't' && marker_kind_name_spec(marker_kinds_spec()[21])[15] == 'z' && marker_kind_name_spec(marker_kinds_spec()[21])[14] == 'n');
    assert(marker_kind_name_spec(marker_kinds_spec()[22]).len() == 24 && marker_kind_name_spec(marker_kinds_spec()[22])[0] == 'i' && marker_kind_name_spec(marker_kinds_spec()[22])[23] == 'n' && marker_kind_name_spec(marker_kinds_spec()[22])[22] == 'i' && marker_kind_name_spec(marker_kinds_spec()[22])[21] == '-');
    assert(marker_kind_name_spec(marker_kinds_spec()[23]).len() == 21 && marker_kind_name_spec(marker_kinds_spec()[23])[0] == 'i' && marker_kind_name_spec(marker_kinds_spec()[23])[20] == 't' && marker_kind_name_spec(marker_kinds_spec()[23])[19] == 'i' && marker_kind_name_spec(marker_kinds_spec()[23])[18] == 'm');
    assert(marker_kind_name_spec(marker_kinds_spec()[24]).len() == 28 && marker_kind_name_spec(marker_kinds_spec()[24])[0] == 'i' && marker_kind_name_spec(marker_kinds_spec()[24])[27] == 'n' && marker_kind_name_spec(marker_kinds_spec()[24])[26] == 'e' && marker_kind_name_spec(marker_kinds_spec()[24])[25] == 'd');
    assert(marker_kind_name_spec(marker_kinds_spec()[25]).len() == 4 && marker_kind_name_spec(marker_kinds_spec()[25])[0] == 't' && marker_kind_name_spec(marker_kinds_spec()[25])[3] == 'e' && marker_kind_name_spec(marker_kinds_spec()[25])[2] == 'p' && marker_kind_name_spec(marker_kinds_spec()[25])[1] == 'y');
}

} // verus!
