//! Sessions: each session (a tab in the UI) owns one isolated data instance plus
//! its own view state. The registry keeps the sessions in creation order under
//! unique ids `s1`, `s2`, ...; the view state holds the read subject and the
//! areas granted to the admin projection.

use vstd::prelude::*;

use crate::cid::{contains_id, seq_has_id, ContentId};
use crate::text::{
    dec_text, digit_char, push_char, push_decimal, push_str, str_eq, to_string, trim, trim_spec,
};

verus! {

// ---------------------------------------------------------------------------
// View state of one session
// ---------------------------------------------------------------------------

/// The view state of a session: the active read subject (none: the admin
/// projection) and the areas known to the admin projection.
pub struct SessionView {
    known_areas: Vec<ContentId>,
    active_subject: Option<ContentId>,
}

impl SessionView {
    /// The known areas, as a set of ids.
    pub closed spec fn areas(&self) -> Set<Seq<u8>> {
        Set::new(|a: Seq<u8>| seq_has_id(self.known_areas@, a))
    }

    /// The active subject's id.
    pub closed spec fn subject(&self) -> Option<Seq<u8>> {
        match self.active_subject {
            Some(s) => Some(s@),
            None => None,
        }
    }

    /// No area is listed twice.
    pub closed spec fn wf(&self) -> bool {
        forall|i: int, j: int|
            0 <= i < j < self.known_areas@.len() ==> self.known_areas@[i]@
                != self.known_areas@[j]@
    }

    pub fn new() -> (v: SessionView)
        ensures
            v.wf(),
            v.subject() is None,
            v.areas() == Set::<Seq<u8>>::empty(),
    {
        let v = SessionView { known_areas: Vec::new(), active_subject: None };
        assert(v.areas() =~= Set::<Seq<u8>>::empty());
        v
    }

    /// Adds an area (created in this session) to the admin projection.
    pub fn register_area(&mut self, area: ContentId)
        requires
            old(self).wf(),
        ensures
            final(self).wf(),
            final(self).areas() == old(self).areas().insert(area@),
            final(self).subject() == old(self).subject(),
    {
        let ghost before = self.known_areas@;
        if !contains_id(&self.known_areas, &area) {
            self.known_areas.push(area);
            assert forall|a: Seq<u8>| seq_has_id(self.known_areas@, a) == (seq_has_id(before, a)
                || a == area@) by {
                if seq_has_id(self.known_areas@, a) {
                    let k = choose|k: int| 0 <= k < self.known_areas@.len() && #[trigger] self.known_areas@[k]@ == a;
                    if k < before.len() {
                        assert(before[k] == self.known_areas@[k]);
                    }
                }
                if seq_has_id(before, a) {
                    let k = choose|k: int| 0 <= k < before.len() && #[trigger] before[k]@ == a;
                    assert(self.known_areas@[k] == before[k]);
                }
                if a == area@ {
                    assert(self.known_areas@[before.len() as int] == area);
                }
            }
        }
        assert(self.areas() =~= old(self).areas().insert(area@));
    }

    /// The known areas, each once.
    pub fn known_areas_vec(&self) -> (r: Vec<ContentId>)
        requires
            self.wf(),
        ensures
            forall|a: Seq<u8>| seq_has_id(r@, a) <==> self.areas().contains(a),
            forall|i: int, j: int| 0 <= i < j < r@.len() ==> r@[i]@ != r@[j]@,
    {
        self.known_areas.clone()
    }

    /// The active read subject.
    pub fn snapshot_subject(&self) -> (r: Option<ContentId>)
        ensures
            match r {
                Some(s) => self.subject() == Some(s@),
                None => self.subject() is None,
            },
    {
        self.active_subject
    }

    /// Sets the active read subject (none selects the admin projection).
    pub fn set_subject(&mut self, s: Option<ContentId>)
        requires
            old(self).wf(),
        ensures
            final(self).wf(),
            final(self).areas() == old(self).areas(),
            match s {
                Some(x) => final(self).subject() == Some(x@),
                None => final(self).subject() is None,
            },
    {
        self.active_subject = s;
    }

    /// Resets the view (subject and admin area grants); the data stay.
    pub fn clear_view(&mut self)
        ensures
            final(self).wf(),
            final(self).subject() is None,
            final(self).areas() == Set::<Seq<u8>>::empty(),
    {
        self.active_subject = None;
        self.known_areas = Vec::new();
        assert(self.areas() =~= Set::<Seq<u8>>::empty());
    }
}

// ---------------------------------------------------------------------------
// Session ids, titles and instance directories
// ---------------------------------------------------------------------------

/// The id of the `n`-th session created: `s` followed by `n` in decimal.
pub open spec fn sid_text(n: nat) -> Seq<char> {
    seq!['s'] + dec_text(n)
}

/// The title of the `n`-th session: the given title unless it is absent or
/// blank, else `Session <n>`.
pub open spec fn session_title_spec(title: Option<Seq<char>>, n: nat) -> Seq<char> {
    match title {
        Some(t) => if trim_spec(t).len() > 0 {
            t
        } else {
            "Session "@ + dec_text(n)
        },
        None => "Session "@ + dec_text(n),
    }
}

/// The directory name of instance `inst` of session `sid`: `<sid>-<inst>`.
pub open spec fn instance_dir_spec(sid: Seq<char>, inst: nat) -> Seq<char> {
    sid + seq!['-'] + dec_text(inst)
}

pub fn session_title(title: Option<String>, n: u64) -> (r: String)
    ensures
        r@ == session_title_spec(
            match title {
                Some(t) => Some(t@),
                None => None,
            },
            n as nat,
        ),
{
    match title {
        Some(t) => {
            if trim(t.as_str()).unicode_len() > 0 {
                t
            } else {
                let mut s = to_string("Session ");
                push_decimal(&mut s, n);
                s
            }
        },
        None => {
            let mut s = to_string("Session ");
            push_decimal(&mut s, n);
            s
        },
    }
}

pub fn instance_dir(sid: &str, inst: u64) -> (r: String)
    ensures
        r@ == instance_dir_spec(sid@, inst as nat),
{
    let mut s = to_string(sid);
    push_char(&mut s, '-');
    push_decimal(&mut s, inst);
    s
}

fn sid_of(n: u64) -> (r: String)
    ensures
        r@ == sid_text(n as nat),
{
    let mut s = String::new();
    push_char(&mut s, 's');
    push_decimal(&mut s, n);
    assert(s@ =~= sid_text(n as nat));
    s
}

proof fn lemma_dec_text_len(n: nat)
    ensures
        dec_text(n).len() >= 1,
        n >= 10 ==> dec_text(n).len() >= 2,
    decreases n,
{
    if n >= 10 {
        lemma_dec_text_len(n / 10);
    }
}

/// Decimal texts of different numbers differ.
pub proof fn lemma_dec_text_injective(a: nat, b: nat)
    requires
        dec_text(a) == dec_text(b),
    ensures
        a == b,
    decreases a,
{
    lemma_dec_text_len(a);
    lemma_dec_text_len(b);
    if a < 10 && b < 10 {
        assert(dec_text(a) == seq![digit_char(a)]);
        assert(dec_text(b) == seq![digit_char(b)]);
        assert(seq![digit_char(a)][0] == digit_char(a));
        assert(seq![digit_char(b)][0] == digit_char(b));
        assert(dec_text(a)[0] == dec_text(b)[0]);
        assert(digit_char(a) == digit_char(b));
    } else if a >= 10 && b >= 10 {
        let da = dec_text(a);
        let db = dec_text(b);
        assert(da.last() == digit_char(a % 10));
        assert(db.last() == digit_char(b % 10));
        assert(a % 10 == b % 10);
        assert(da.drop_last() == dec_text(a / 10));
        assert(db.drop_last() == dec_text(b / 10));
        lemma_dec_text_injective(a / 10, b / 10);
    } else {
        assert(dec_text(a).len() != dec_text(b).len());
    }
}

/// Directories of different instances of a session differ.
pub proof fn lemma_instance_dir_injective(sid: Seq<char>, a: nat, b: nat)
    requires
        instance_dir_spec(sid, a) == instance_dir_spec(sid, b),
    ensures
        a == b,
{
    let n = sid.len() + 1;
    let x = instance_dir_spec(sid, a);
    let y = instance_dir_spec(sid, b);
    assert(x.subrange(n as int, x.len() as int) =~= dec_text(a));
    assert(y.subrange(n as int, y.len() as int) =~= dec_text(b));
    lemma_dec_text_injective(a, b);
}

/// Session ids of different numbers differ.
pub proof fn lemma_sid_injective(a: nat, b: nat)
    requires
        sid_text(a) == sid_text(b),
    ensures
        a == b,
{
    assert(sid_text(a).drop_first() =~= dec_text(a));
    assert(sid_text(b).drop_first() =~= dec_text(b));
    lemma_dec_text_injective(a, b);
}

// ---------------------------------------------------------------------------
// The session registry
// ---------------------------------------------------------------------------

/// One registered session: its creation number, its id, its title and its
/// instance.
pub struct SessionEntry<T> {
    pub number: u64,
    pub sid: String,
    pub title: String,
    pub value: T,
}

/// What a creation or reset needs before the instance exists: the session id,
/// its title and the name of the instance directory.
pub struct NewInstance {
    pub number: u64,
    pub sid: String,
    pub title: String,
    pub dir: String,
}

/// What a reset needs before the fresh instance exists: the kept title and the
/// name of the fresh instance directory.
pub struct ResetPlan {
    pub title: String,
    pub dir: String,
}

/// The sessions in creation order, with the counters that name new sessions and
/// new instances.
pub struct SessionRegistry<T> {
    entries: Vec<SessionEntry<T>>,
    sid_ctr: u64,
    inst_ctr: u64,
}

/// Some entry has id `sid`.
pub open spec fn has_sid<T>(e: Seq<SessionEntry<T>>, sid: Seq<char>) -> bool {
    exists|i: int| 0 <= i < e.len() && #[trigger] e[i].sid@ == sid
}

impl<T> SessionRegistry<T> {
    pub closed spec fn entries_spec(&self) -> Seq<SessionEntry<T>> {
        self.entries@
    }

    /// How many sessions were ever created.
    pub closed spec fn created(&self) -> nat {
        self.sid_ctr as nat
    }

    /// How many instances were ever made.
    pub closed spec fn instances(&self) -> nat {
        self.inst_ctr as nat
    }

    /// Every entry is the `m`-th session created, for some `1 <= m <= created()`,
    /// with id `s<m>`; the entries stand in creation order.
    pub closed spec fn wf(&self) -> bool {
        &&& forall|i: int|
            0 <= i < self.entries@.len() ==> 1 <= #[trigger] self.entries@[i].number
                <= self.sid_ctr && self.entries@[i].sid@ == sid_text(
                self.entries@[i].number as nat,
            )
        &&& forall|i: int, j: int|
            0 <= i < j < self.entries@.len() ==> #[trigger] self.entries@[i].number
                < #[trigger] self.entries@[j].number
    }

    pub fn new() -> (r: SessionRegistry<T>)
        ensures
            r.wf(),
            r.entries_spec().len() == 0,
            r.created() == 0,
            r.instances() == 0,
    {
        SessionRegistry { entries: Vec::new(), sid_ctr: 0, inst_ctr: 0 }
    }

    /// Room is left to name another session and another instance.
    pub fn can_create(&self) -> (r: bool)
        ensures
            r == (self.created() < u64::MAX && self.instances() < u64::MAX),
    {
        self.sid_ctr < u64::MAX && self.inst_ctr < u64::MAX
    }

    /// Names the next session: advances both counters and returns the new id
    /// `s<n>`, the title and the instance directory. The id is not in use.
    pub fn plan_create(&mut self, title: Option<String>) -> (p: NewInstance)
        requires
            old(self).wf(),
            old(self).created() < u64::MAX,
            old(self).instances() < u64::MAX,
        ensures
            final(self).wf(),
            final(self).entries_spec() == old(self).entries_spec(),
            final(self).created() == old(self).created() + 1,
            final(self).instances() == old(self).instances() + 1,
            p.number == final(self).created(),
            p.sid@ == sid_text(p.number as nat),
            p.title@ == session_title_spec(
                match title {
                    Some(t) => Some(t@),
                    None => None,
                },
                p.number as nat,
            ),
            p.dir@ == instance_dir_spec(p.sid@, old(self).instances()),
            !has_sid(final(self).entries_spec(), p.sid@),
            forall|m: nat| 1 <= m <= old(self).created() ==> #[trigger] sid_text(m) != p.sid@,
    {
        let n = self.sid_ctr + 1;
        self.sid_ctr = n;
        let inst = self.inst_ctr;
        self.inst_ctr = inst + 1;
        let sid = sid_of(n);
        let title = session_title(title, n);
        let dir = instance_dir(sid.as_str(), inst);
        proof {
            assert forall|i: int| 0 <= i < self.entries@.len() implies #[trigger] self.entries@[i].sid@
                != sid@ by {
                let m = self.entries@[i].number;
                if self.entries@[i].sid@ == sid@ {
                    lemma_sid_injective(m as nat, n as nat);
                }
            }
        }
        proof {
            assert forall|m: nat| 1 <= m <= old(self).sid_ctr implies #[trigger] sid_text(m) != sid@ by {
                if sid_text(m) == sid@ {
                    lemma_sid_injective(m, n as nat);
                }
            }
        }
        NewInstance { number: n, sid, title, dir }
    }

    /// Registers the instance of the session just planned at the end of the order.
    pub fn commit_create(&mut self, p: NewInstance, value: T)
        requires
            old(self).wf(),
            1 <= p.number == old(self).created(),
            p.sid@ == sid_text(p.number as nat),
            !has_sid(old(self).entries_spec(), p.sid@),
        ensures
            final(self).wf(),
            final(self).created() == old(self).created(),
            final(self).instances() == old(self).instances(),
            final(self).entries_spec().len() == old(self).entries_spec().len() + 1,
            forall|i: int|
                0 <= i < old(self).entries_spec().len() ==> #[trigger] final(self).entries_spec()[i]
                    == old(self).entries_spec()[i],
            final(self).entries_spec().last().number == p.number,
            final(self).entries_spec().last().sid@ == p.sid@,
            final(self).entries_spec().last().title@ == p.title@,
            final(self).entries_spec().last().value == value,
    {
        let ghost before = self.entries@;
        let ghost num = p.number;
        proof {
            assert forall|i: int| 0 <= i < before.len() implies #[trigger] before[i].number < num by {
                if before[i].number == num {
                    assert(before[i].sid@ == p.sid@);
                }
            }
        }
        self.entries.push(SessionEntry { number: p.number, sid: p.sid, title: p.title, value });
        proof {
            assert forall|i: int| 0 <= i < self.entries@.len() implies 1 <= #[trigger] self.entries@[i].number
                <= self.sid_ctr && self.entries@[i].sid@ == sid_text(
                self.entries@[i].number as nat,
            ) by {
                if i < before.len() {
                    assert(self.entries@[i] == before[i]);
                } else {
                    assert(self.entries@[i].number == num);
                    assert(self.entries@[i].sid@ == p.sid@);
                }
            }
            assert forall|i: int, j: int| 0 <= i < j < self.entries@.len() implies #[trigger] self.entries@[i].number
                < #[trigger] self.entries@[j].number by {
                assert(self.entries@[i] == before[i]);
                if j < before.len() {
                    assert(self.entries@[j] == before[j]);
                }
            }
        }
    }

    /// The index of the session with id `sid`.
    pub fn position(&self, sid: &str) -> (r: Option<usize>)
        ensures
            match r {
                Some(i) => i < self.entries_spec().len() && self.entries_spec()[i as int].sid@
                    == sid@ && forall|j: int|
                    0 <= j < i ==> #[trigger] self.entries_spec()[j].sid@ != sid@,
                None => !has_sid(self.entries_spec(), sid@),
            },
    {
        let mut i: usize = 0;
        while i < self.entries.len()
            invariant
                i <= self.entries@.len(),
                forall|j: int| 0 <= j < i ==> #[trigger] self.entries@[j].sid@ != sid@,
            decreases self.entries.len() - i,
        {
            if self.entries[i].sid.as_str().to_owned() == sid.to_owned() {
                return Some(i);
            }
            i = i + 1;
        }
        None
    }

    /// The session with id `sid`.
    pub fn get(&self, sid: &str) -> (r: Option<&T>)
        ensures
            match r {
                Some(v) => exists|i: int|
                    0 <= i < self.entries_spec().len() && self.entries_spec()[i].sid@ == sid@
                        && *v == self.entries_spec()[i].value,
                None => !has_sid(self.entries_spec(), sid@),
            },
    {
        match self.position(sid) {
            Some(i) => Some(&self.entries[i].value),
            None => None,
        }
    }

    /// The first session in creation order.
    pub fn first(&self) -> (r: Option<&T>)
        ensures
            match r {
                Some(v) => self.entries_spec().len() > 0 && *v == self.entries_spec()[0].value,
                None => self.entries_spec().len() == 0,
            },
    {
        if self.entries.len() == 0 {
            None
        } else {
            Some(&self.entries[0].value)
        }
    }

    /// The session named by `sid`, or the first session when no id is given.
    pub fn resolve(&self, sid: Option<&str>) -> (r: Option<&T>)
        ensures
            match sid {
                Some(id) => match r {
                    Some(v) => exists|i: int|
                        0 <= i < self.entries_spec().len() && self.entries_spec()[i].sid@ == id@
                            && *v == self.entries_spec()[i].value,
                    None => !has_sid(self.entries_spec(), id@),
                },
                None => match r {
                    Some(v) => self.entries_spec().len() > 0 && *v
                        == self.entries_spec()[0].value,
                    None => self.entries_spec().len() == 0,
                },
            },
    {
        match sid {
            Some(id) => self.get(id),
            None => self.first(),
        }
    }

    /// The (id, title) of every session, in order.
    pub fn list(&self) -> (r: Vec<(String, String)>)
        ensures
            r@.len() == self.entries_spec().len(),
            forall|i: int|
                0 <= i < r@.len() ==> #[trigger] r@[i].0@ == self.entries_spec()[i].sid@ && r@[i].1@
                    == self.entries_spec()[i].title@,
    {
        let mut out: Vec<(String, String)> = Vec::new();
        let mut i: usize = 0;
        while i < self.entries.len()
            invariant
                i <= self.entries@.len(),
                out@.len() == i,
                forall|k: int|
                    0 <= k < i ==> #[trigger] out@[k].0@ == self.entries@[k].sid@ && out@[k].1@
                        == self.entries@[k].title@,
            decreases self.entries.len() - i,
        {
            let e = &self.entries[i];
            let ghost before = out@;
            out.push((to_string(e.sid.as_str()), to_string(e.title.as_str())));
            assert forall|k: int| 0 <= k < i + 1 implies #[trigger] out@[k].0@
                == self.entries@[k].sid@ && out@[k].1@ == self.entries@[k].title@ by {
                if k < i {
                    assert(out@[k] == before[k]);
                }
            }
            i = i + 1;
        }
        out
    }

    /// The title of the session with id `sid`.
    pub fn title_of(&self, sid: &str) -> (r: Option<String>)
        ensures
            match r {
                Some(t) => exists|i: int|
                    0 <= i < self.entries_spec().len() && self.entries_spec()[i].sid@ == sid@
                        && t@ == self.entries_spec()[i].title@,
                None => !has_sid(self.entries_spec(), sid@),
            },
    {
        match self.position(sid) {
            Some(i) => Some(to_string(self.entries[i].title.as_str())),
            None => None,
        }
    }

    /// The first session, in creation order, titled `title` whose id is not
    /// `except`.
    pub fn first_titled(&self, title: &str, except: &str) -> (r: Option<&T>)
        ensures
            match r {
                Some(v) => exists|i: int|
                    0 <= i < self.entries_spec().len() && self.entries_spec()[i].title@ == title@
                        && self.entries_spec()[i].sid@ != except@ && *v
                        == self.entries_spec()[i].value && forall|j: int|
                        0 <= j < i ==> !(#[trigger] self.entries_spec()[j].title@ == title@
                            && self.entries_spec()[j].sid@ != except@),
                None => forall|j: int|
                    0 <= j < self.entries_spec().len() ==> !(
                    #[trigger] self.entries_spec()[j].title@ == title@
                        && self.entries_spec()[j].sid@ != except@),
            },
    {
        let mut i: usize = 0;
        while i < self.entries.len()
            invariant
                i <= self.entries@.len(),
                forall|j: int|
                    0 <= j < i ==> !(#[trigger] self.entries@[j].title@ == title@
                        && self.entries@[j].sid@ != except@),
            decreases self.entries.len() - i,
        {
            let e = &self.entries[i];
            if str_eq(e.title.as_str(), title) && !str_eq(e.sid.as_str(), except) {
                assert(self.entries_spec()[i as int].title@ == title@ && self.entries_spec()[i as int].sid@
                    != except@);
                return Some(&e.value);
            }
            i = i + 1;
        }
        None
    }

    /// Removes the session with id `sid`; its instance is handed back.
    pub fn remove(&mut self, sid: &str) -> (r: Option<T>)
        requires
            old(self).wf(),
        ensures
            final(self).wf(),
            final(self).created() == old(self).created(),
            final(self).instances() == old(self).instances(),
            !has_sid(final(self).entries_spec(), sid@),
            match r {
                Some(v) => exists|i: int|
                    0 <= i < old(self).entries_spec().len()
                        && old(self).entries_spec()[i].sid@ == sid@ && v
                        == old(self).entries_spec()[i].value && final(self).entries_spec()
                        == old(self).entries_spec().remove(i),
                None => !has_sid(old(self).entries_spec(), sid@) && final(self).entries_spec()
                    == old(self).entries_spec(),
            },
    {
        match self.position(sid) {
            Some(i) => {
                let ghost before = self.entries@;
                let e = self.entries.remove(i);
                proof {
                    assert(self.entries@ == before.remove(i as int));
                    assert forall|k: int| 0 <= k < self.entries@.len() implies #[trigger] self.entries@[k].sid@
                        != sid@ by {
                        if k < i {
                            assert(self.entries@[k] == before[k]);
                        } else {
                            assert(self.entries@[k] == before[k + 1]);
                            if before[k + 1].sid@ == before[i as int].sid@ {
                                lemma_sid_injective(
                                    before[k + 1].number as nat,
                                    before[i as int].number as nat,
                                );
                            }
                        }
                    }
                    assert forall|a: int| 0 <= a < self.entries@.len() implies 1
                        <= #[trigger] self.entries@[a].number <= self.sid_ctr
                        && self.entries@[a].sid@ == sid_text(self.entries@[a].number as nat) by {
                        if a < i {
                            assert(self.entries@[a] == before[a]);
                        } else {
                            assert(self.entries@[a] == before[a + 1]);
                        }
                    }
                    assert forall|a: int, b: int|
                        0 <= a < b < self.entries@.len() implies #[trigger] self.entries@[a].number
                        < #[trigger] self.entries@[b].number by {
                        let a2 = if a < i { a } else { a + 1 };
                        let b2 = if b < i { b } else { b + 1 };
                        assert(self.entries@[a] == before[a2]);
                        assert(self.entries@[b] == before[b2]);
                    }
                }
                Some(e.value)
            },
            None => None,
        }
    }

    /// Names the fresh instance that is to replace the data of session `sid`
    /// (advancing the instance counter); none when no such session exists.
    pub fn plan_reset(&mut self, sid: &str) -> (r: Option<ResetPlan>)
        requires
            old(self).wf(),
            old(self).instances() < u64::MAX,
        ensures
            final(self).wf(),
            final(self).entries_spec() == old(self).entries_spec(),
            final(self).created() == old(self).created(),
            match r {
                Some(p) => final(self).instances() == old(self).instances() + 1 && (forall|m: nat|
                    m < old(self).instances() ==> #[trigger] instance_dir_spec(sid@, m) != p.dir@)
                    && exists|i: int|
                    0 <= i < old(self).entries_spec().len()
                        && old(self).entries_spec()[i].sid@ == sid@ && p.title@
                        == old(self).entries_spec()[i].title@ && p.dir@ == instance_dir_spec(
                        sid@,
                        old(self).instances(),
                    ),
                None => !has_sid(old(self).entries_spec(), sid@) && final(self).instances()
                    == old(self).instances(),
            },
    {
        match self.position(sid) {
            Some(i) => {
                let title = to_string(self.entries[i].title.as_str());
                let inst = self.inst_ctr;
                self.inst_ctr = inst + 1;
                let dir = instance_dir(sid, inst);
                proof {
                    assert forall|m: nat| m < old(self).instances() implies #[trigger] instance_dir_spec(
                        sid@,
                        m,
                    ) != dir@ by {
                        if instance_dir_spec(sid@, m) == dir@ {
                            lemma_instance_dir_injective(sid@, m, inst as nat);
                        }
                    }
                }
                Some(ResetPlan { title, dir })
            },
            None => None,
        }
    }

    /// Swaps the instance of session `sid` for `value`, keeping its place and
    /// title; the old instance is handed back. Nothing changes when the session
    /// is gone.
    pub fn replace(&mut self, sid: &str, value: T) -> (r: Option<T>)
        requires
            old(self).wf(),
        ensures
            final(self).wf(),
            final(self).created() == old(self).created(),
            final(self).instances() == old(self).instances(),
            final(self).entries_spec().len() == old(self).entries_spec().len(),
            match r {
                Some(v) => exists|i: int|
                    0 <= i < old(self).entries_spec().len()
                        && old(self).entries_spec()[i].sid@ == sid@ && v
                        == old(self).entries_spec()[i].value && final(self).entries_spec()[i].value
                        == value && final(self).entries_spec()[i].sid@ == sid@ && final(self).entries_spec()[i].title@
                        == old(self).entries_spec()[i].title@ && forall|k: int|
                        0 <= k < old(self).entries_spec().len() && k != i
                            ==> #[trigger] final(self).entries_spec()[k]
                            == old(self).entries_spec()[k],
                None => !has_sid(old(self).entries_spec(), sid@) && final(self).entries_spec()
                    == old(self).entries_spec(),
            },
    {
        match self.position(sid) {
            Some(i) => {
                let ghost before = self.entries@;
                let sid_owned = to_string(self.entries[i].sid.as_str());
                let title = to_string(self.entries[i].title.as_str());
                let number = self.entries[i].number;
                let old_entry = self.entries.remove(i);
                self.entries.insert(i, SessionEntry { number, sid: sid_owned, title, value });
                proof {
                    assert forall|k: int| 0 <= k < before.len() && k != i implies #[trigger] self.entries@[k]
                        == before[k] by {}
                    assert forall|a: int| 0 <= a < self.entries@.len() implies 1
                        <= #[trigger] self.entries@[a].number <= self.sid_ctr
                        && self.entries@[a].sid@ == sid_text(self.entries@[a].number as nat) by {
                        if a != i {
                            assert(self.entries@[a] == before[a]);
                        }
                    }
                    assert forall|a: int, b: int|
                        0 <= a < b < self.entries@.len() implies #[trigger] self.entries@[a].number
                        < #[trigger] self.entries@[b].number by {
                        assert(self.entries@[a].number == before[a].number);
                        assert(self.entries@[b].number == before[b].number);
                    }
                }
                Some(old_entry.value)
            },
            None => None,
        }
    }
}

/// Session ids are unique: two registered sessions with the same id are the
/// same session.
pub proof fn law_session_ids_unique<T>(reg: SessionRegistry<T>)
    requires
        reg.wf(),
    ensures
        forall|i: int, j: int|
            0 <= i < reg.entries_spec().len() && 0 <= j < reg.entries_spec().len()
                && #[trigger] reg.entries_spec()[i].sid@ == #[trigger] reg.entries_spec()[j].sid@
                ==> i == j,
{
    assert forall|i: int, j: int|
        0 <= i < reg.entries_spec().len() && 0 <= j < reg.entries_spec().len()
            && #[trigger] reg.entries_spec()[i].sid@ == #[trigger] reg.entries_spec()[j].sid@
            implies i == j by {
        lemma_sid_injective(reg.entries@[i].number as nat, reg.entries@[j].number as nat);
        if i < j {
            assert(reg.entries@[i].number < reg.entries@[j].number);
        } else if j < i {
            assert(reg.entries@[j].number < reg.entries@[i].number);
        }
    }
}

/// Sessions stay in creation order: whatever sequence of creations, removals
/// and resets led to a registry, each session is the `m`-th created, with id
/// `s<m>` for some `m` no larger than the number of sessions created, and an
/// earlier session in the order was created before a later one.
pub proof fn law_sessions_in_creation_order<T>(reg: SessionRegistry<T>)
    requires
        reg.wf(),
    ensures
        forall|i: int|
            0 <= i < reg.entries_spec().len() ==> 1 <= #[trigger] reg.entries_spec()[i].number
                <= reg.created() && reg.entries_spec()[i].sid@ == sid_text(
                reg.entries_spec()[i].number as nat,
            ),
        forall|i: int, j: int|
            0 <= i < j < reg.entries_spec().len() ==> #[trigger] reg.entries_spec()[i].number
                < #[trigger] reg.entries_spec()[j].number,
{
}

} // verus!
