//! The tools the AI traverser may call: reading a tool's JSON input, and turning
//! a tool name plus input into a validated call (or the error fed back to the
//! model). Executing a call against the data instance is outside this module.

use vstd::prelude::*;
use vstd::string::*;

use crate::cid::{parse_cid, parse_cid_spec, CidError, ContentId};
use crate::text::{chars_of, push_char, push_str, str_eq, to_string};
use crate::vocab::{strength_name, IdentityStrength};

verus! {

// ---------------------------------------------------------------------------
// Tool input
// ---------------------------------------------------------------------------

/// One field value of a tool's JSON input, as far as the tools read it: a
/// string, an unsigned integer, an array (each element a string or not), or
/// anything else.
pub enum JsonField {
    Str(String),
    UInt(u64),
    Array(Vec<Option<String>>),
    Other,
}

/// The fields of a tool's JSON input object, in order (none when the input is
/// not an object).
pub struct ToolInput {
    pub fields: Vec<(String, JsonField)>,
}

/// The value of the first field named `k`.
pub open spec fn field_of(fields: Seq<(String, JsonField)>, k: Seq<char>) -> Option<JsonField>
    decreases fields.len(),
{
    if fields.len() == 0 {
        None
    } else if fields[0].0@ == k {
        Some(fields[0].1)
    } else {
        field_of(fields.drop_first(), k)
    }
}

/// Field `k` as a string.
pub open spec fn str_field(inp: ToolInput, k: Seq<char>) -> Option<Seq<char>> {
    match field_of(inp.fields@, k) {
        Some(JsonField::Str(s)) => Some(s@),
        _ => None,
    }
}

/// Field `k` as an unsigned integer, else `default`.
pub open spec fn u64_field(inp: ToolInput, k: Seq<char>, default: u64) -> u64 {
    match field_of(inp.fields@, k) {
        Some(JsonField::UInt(v)) => v,
        _ => default,
    }
}

/// The string elements of an array, in order (other elements skipped).
pub open spec fn strings_of(a: Seq<Option<String>>) -> Seq<Seq<char>>
    decreases a.len(),
{
    if a.len() == 0 {
        seq![]
    } else {
        match a[0] {
            Some(s) => seq![s@] + strings_of(a.drop_first()),
            None => strings_of(a.drop_first()),
        }
    }
}

/// The string elements of array field `k`, or none when `k` is not an array.
pub open spec fn array_field(inp: ToolInput, k: Seq<char>) -> Option<Seq<Seq<char>>> {
    match field_of(inp.fields@, k) {
        Some(JsonField::Array(a)) => Some(strings_of(a@)),
        _ => None,
    }
}

/// Reads each text as a content id; the first failure wins.
pub open spec fn cids_spec(strs: Seq<Seq<char>>) -> Result<Seq<Seq<u8>>, CidError>
    decreases strs.len(),
{
    if strs.len() == 0 {
        Ok(seq![])
    } else {
        match parse_cid_spec(strs[0]) {
            Err(e) => Err(e),
            Ok(v) => match cids_spec(strs.drop_first()) {
                Ok(vs) => Ok(seq![v] + vs),
                Err(e) => Err(e),
            },
        }
    }
}

/// Array field `k` read as content ids (an absent or non-array field is empty).
pub open spec fn list_spec(inp: ToolInput, k: Seq<char>) -> Result<Seq<Seq<u8>>, CidError> {
    match array_field(inp, k) {
        None => Ok(seq![]),
        Some(strs) => cids_spec(strs),
    }
}

/// Why a tool call is refused.
pub enum ToolError {
    /// A required string parameter is absent (or not a string).
    MissingString(String),
    /// A parameter is not a content id.
    Cid(CidError),
    /// A node append owns nothing.
    EmptyOwns,
    /// No tool has this name.
    UnknownTool(String),
}

pub enum ToolErrorV {
    MissingString(Seq<char>),
    Cid(CidError),
    EmptyOwns,
    UnknownTool(Seq<char>),
}

impl View for ToolError {
    type V = ToolErrorV;

    open spec fn view(&self) -> ToolErrorV {
        match self {
            ToolError::MissingString(k) => ToolErrorV::MissingString(k@),
            ToolError::Cid(e) => ToolErrorV::Cid(*e),
            ToolError::EmptyOwns => ToolErrorV::EmptyOwns,
            ToolError::UnknownTool(n) => ToolErrorV::UnknownTool(n@),
        }
    }
}

/// Required content id parameter `k`.
pub open spec fn req_cid_spec(inp: ToolInput, k: Seq<char>) -> Result<Seq<u8>, ToolErrorV> {
    match str_field(inp, k) {
        None => Err(ToolErrorV::MissingString(k)),
        Some(s) => match parse_cid_spec(s) {
            Ok(v) => Ok(v),
            Err(e) => Err(ToolErrorV::Cid(e)),
        },
    }
}

impl ToolInput {
    /// The value of the first field named `k`.
    pub fn get(&self, k: &str) -> (r: Option<&JsonField>)
        ensures
            match r {
                Some(v) => field_of(self.fields@, k@) == Some(*v),
                None => field_of(self.fields@, k@) is None,
            },
    {
        let mut i: usize = 0;
        assert(self.fields@.subrange(0, self.fields@.len() as int) =~= self.fields@);
        while i < self.fields.len()
            invariant
                i <= self.fields@.len(),
                field_of(self.fields@, k@) == field_of(self.fields@.subrange(i as int, self.fields@.len() as int), k@),
            decreases self.fields.len() - i,
        {
            assert(self.fields@.subrange(i as int, self.fields@.len() as int).drop_first()
                =~= self.fields@.subrange(i as int + 1, self.fields@.len() as int));
            if str_eq(self.fields[i].0.as_str(), k) {
                return Some(&self.fields[i].1);
            }
            i = i + 1;
        }
        None
    }
}

/// Optional string parameter `k`.
pub fn opt_str(input: &ToolInput, k: &str) -> (r: Option<String>)
    ensures
        match r {
            Some(s) => str_field(*input, k@) == Some(s@),
            None => str_field(*input, k@) is None,
        },
{
    match input.get(k) {
        Some(JsonField::Str(s)) => Some(to_string(s.as_str())),
        _ => None,
    }
}

/// Required string parameter `k`.
pub fn req_str(input: &ToolInput, k: &str) -> (r: Result<String, ToolError>)
    ensures
        match r {
            Ok(s) => str_field(*input, k@) == Some(s@),
            Err(e) => str_field(*input, k@) is None && e@ == ToolErrorV::MissingString(k@),
        },
{
    match opt_str(input, k) {
        Some(s) => Ok(s),
        None => Err(ToolError::MissingString(to_string(k))),
    }
}

/// Unsigned integer parameter `k`, else `default`.
pub fn opt_u64(input: &ToolInput, k: &str, default: u64) -> (r: u64)
    ensures
        r == u64_field(*input, k@, default),
{
    match input.get(k) {
        Some(JsonField::UInt(v)) => *v,
        _ => default,
    }
}

/// Required content id parameter `k`.
pub fn req_cid(input: &ToolInput, k: &str) -> (r: Result<ContentId, ToolError>)
    ensures
        match r {
            Ok(c) => req_cid_spec(*input, k@) == Ok::<Seq<u8>, ToolErrorV>(c@),
            Err(e) => req_cid_spec(*input, k@) == Err::<Seq<u8>, ToolErrorV>(e@),
        },
{
    let s = match req_str(input, k) {
        Ok(s) => s,
        Err(e) => return Err(e),
    };
    match parse_cid(s.as_str()) {
        Ok(c) => Ok(c),
        Err(e) => Err(ToolError::Cid(e)),
    }
}

/// The view of a list of content ids.
pub open spec fn ids_view(v: Seq<ContentId>) -> Seq<Seq<u8>> {
    v.map_values(|c: ContentId| c@)
}

/// Array parameter `k` read as content ids (absent: empty).
pub fn list_cids(input: &ToolInput, k: &str) -> (r: Result<Vec<ContentId>, CidError>)
    ensures
        match r {
            Ok(v) => list_spec(*input, k@) == Ok::<Seq<Seq<u8>>, CidError>(ids_view(v@)),
            Err(e) => list_spec(*input, k@) == Err::<Seq<Seq<u8>>, CidError>(e),
        },
{
    let a = match input.get(k) {
        Some(JsonField::Array(a)) => a,
        _ => {
            assert(ids_view(Seq::<ContentId>::empty()) =~= Seq::<Seq<u8>>::empty());
            return Ok(Vec::new());
        },
    };
    let mut out: Vec<ContentId> = Vec::new();
    let mut i: usize = 0;
    assert(a@.subrange(0, a@.len() as int) =~= a@);
    assert(ids_view(out@) =~= Seq::<Seq<u8>>::empty());
    while i < a.len()
        invariant
            i <= a@.len(),
            strings_of(a@) == strings_of(a@.subrange(0, i as int)) + strings_of(
                a@.subrange(i as int, a@.len() as int),
            ),
            cids_spec(strings_of(a@.subrange(0, i as int))) == Ok::<Seq<Seq<u8>>, CidError>(
                ids_view(out@),
            ),
            array_field(*input, k@) == Some(strings_of(a@)),
        decreases a.len() - i,
    {
        let ghost pre = strings_of(a@.subrange(0, i as int));
        let ghost one = strings_of(seq![a@[i as int]]);
        let ghost post = strings_of(a@.subrange(i as int + 1, a@.len() as int));
        proof {
            lemma_strings_of_split(a@, i as int);
            assert(strings_of(a@) == pre + (one + post));
            lemma_cids_append(pre, one + post);
            assert(seq![a@[i as int]].drop_first() =~= Seq::<Option<String>>::empty());
        }
        match &a[i] {
            Some(s) => {
                proof {
                    assert(one == seq![s@] + strings_of(Seq::<Option<String>>::empty()));
                    assert(one =~= seq![s@]);
                    assert((one + post)[0] == s@);
                }
                match parse_cid(s.as_str()) {
                    Ok(c) => {
                        let ghost before = out@;
                        out.push(c);
                        proof {
                            lemma_cids_append(pre, one);
                            assert(one.drop_first() =~= Seq::<Seq<char>>::empty());
                            assert(one[0] == s@);
                            assert(cids_spec(Seq::<Seq<char>>::empty()) == Ok::<Seq<Seq<u8>>, CidError>(Seq::<Seq<u8>>::empty()));
                            assert(cids_spec(one) == Ok::<Seq<Seq<u8>>, CidError>(seq![c@] + Seq::<Seq<u8>>::empty()));
                            assert(ids_view(out@) =~= ids_view(before) + seq![c@]);
                            assert(seq![c@] + Seq::<Seq<u8>>::empty() =~= seq![c@]);
                        }
                    },
                    Err(e) => {
                        proof {
                            assert(cids_spec(one + post) == Err::<Seq<Seq<u8>>, CidError>(e));
                        }
                        return Err(e);
                    },
                }
            },
            None => {
                proof {
                    assert(one =~= Seq::<Seq<char>>::empty());
                    assert(pre + one =~= pre);
                }
            },
        }
        proof {
            lemma_strings_of_split(a@, i as int + 1);
        }
        i = i + 1;
    }
    assert(a@.subrange(0, a@.len() as int) =~= a@);
    Ok(out)
}

/// Splitting an array splits its string elements.
pub proof fn lemma_strings_of_concat(x: Seq<Option<String>>, y: Seq<Option<String>>)
    ensures
        strings_of(x + y) == strings_of(x) + strings_of(y),
    decreases x.len(),
{
    if x.len() == 0 {
        assert(x + y =~= y);
    } else {
        assert((x + y).drop_first() =~= x.drop_first() + y);
        lemma_strings_of_concat(x.drop_first(), y);
        match x[0] {
            Some(s) => {
                assert(seq![s@] + (strings_of(x.drop_first()) + strings_of(y)) =~= (seq![s@]
                    + strings_of(x.drop_first())) + strings_of(y));
            },
            None => {},
        }
    }
}

proof fn lemma_strings_of_split(a: Seq<Option<String>>, i: int)
    requires
        0 <= i <= a.len(),
    ensures
        strings_of(a) == strings_of(a.subrange(0, i)) + strings_of(a.subrange(i, a.len() as int)),
        i < a.len() ==> strings_of(a.subrange(0, i + 1)) == strings_of(a.subrange(0, i))
            + strings_of(seq![a[i]]),
        i < a.len() ==> strings_of(a.subrange(i, a.len() as int)) == strings_of(seq![a[i]])
            + strings_of(a.subrange(i + 1, a.len() as int)),
{
    assert(a =~= a.subrange(0, i) + a.subrange(i, a.len() as int));
    lemma_strings_of_concat(a.subrange(0, i), a.subrange(i, a.len() as int));
    if i < a.len() {
        assert(a.subrange(0, i + 1) =~= a.subrange(0, i) + seq![a[i]]);
        lemma_strings_of_concat(a.subrange(0, i), seq![a[i]]);
        assert(a.subrange(i, a.len() as int) =~= seq![a[i]] + a.subrange(i + 1, a.len() as int));
        lemma_strings_of_concat(seq![a[i]], a.subrange(i + 1, a.len() as int));
    }
}

/// Reading a concatenation: the prefix first, then the rest.
proof fn lemma_cids_append(x: Seq<Seq<char>>, y: Seq<Seq<char>>)
    ensures
        cids_spec(x) is Ok ==> (cids_spec(x + y) == match cids_spec(y) {
            Ok(vs) => Ok(cids_spec(x)->Ok_0 + vs),
            Err(e) => Err::<Seq<Seq<u8>>, CidError>(e),
        }),
        cids_spec(x) is Err ==> cids_spec(x + y) == cids_spec(x),
    decreases x.len(),
{
    if x.len() == 0 {
        assert(x + y =~= y);
        assert(cids_spec(x)->Ok_0 =~= Seq::<Seq<u8>>::empty());
        if cids_spec(y) is Ok {
            assert(cids_spec(x)->Ok_0 + cids_spec(y)->Ok_0 =~= cids_spec(y)->Ok_0);
        }
    } else {
        assert((x + y).drop_first() =~= x.drop_first() + y);
        assert((x + y)[0] == x[0]);
        lemma_cids_append(x.drop_first(), y);
        if cids_spec(x) is Ok && cids_spec(y) is Ok {
            let v = parse_cid_spec(x[0])->Ok_0;
            assert(seq![v] + (cids_spec(x.drop_first())->Ok_0 + cids_spec(y)->Ok_0) =~= (seq![v]
                + cids_spec(x.drop_first())->Ok_0) + cids_spec(y)->Ok_0);
        }
    }
}

// ---------------------------------------------------------------------------
// Identity strengths as the model may spell them
// ---------------------------------------------------------------------------

/// ASCII letters lowered and `_` written as `-`.
pub open spec fn normalize_char(c: char) -> char {
    if 'A' <= c && c <= 'Z' {
        ((c as u8) + 32) as char
    } else if c == '_' {
        '-'
    } else {
        c
    }
}

pub open spec fn normalize_spec(s: Seq<char>) -> Seq<char> {
    s.map_values(|c: char| normalize_char(c))
}

/// The strength a (normalized) spelling names; anything unknown is
/// `verwandt-mit`.
pub open spec fn strength_spec(n: Seq<char>) -> IdentityStrength {
    if n == "deckungsgleich"@ || n == "same"@ || n == "equal"@ {
        IdentityStrength::Deckungsgleich
    } else if n == "ergaenzt"@ || n == "ergänzt"@ || n == "complements"@ {
        IdentityStrength::Ergaenzt
    } else if n == "widerspricht-in"@ || n == "contradicts"@ {
        IdentityStrength::WidersprichtIn
    } else if n == "bekannt-verschieden"@ || n == "known-different"@ {
        IdentityStrength::BekanntVerschieden
    } else {
        IdentityStrength::VerwandtMit
    }
}

fn normalize(s: &str) -> (r: String)
    ensures
        r@ == normalize_spec(s@),
{
    let cs = chars_of(s);
    let mut out = String::new();
    let mut i: usize = 0;
    while i < cs.len()
        invariant
            i <= cs@.len(),
            cs@ == s@,
            out@ == normalize_spec(s@.subrange(0, i as int)),
        decreases cs.len() - i,
    {
        let c = cs[i];
        let d = if 'A' <= c && c <= 'Z' {
            ((c as u8) + 32) as char
        } else if c == '_' {
            '-'
        } else {
            c
        };
        assert(d == normalize_char(c));
        push_char(&mut out, d);
        assert(s@.subrange(0, i as int + 1) =~= s@.subrange(0, i as int).push(c));
        assert(normalize_spec(s@.subrange(0, i as int + 1)) =~= normalize_spec(
            s@.subrange(0, i as int),
        ).push(normalize_char(c)));
        i = i + 1;
    }
    assert(s@.subrange(0, cs@.len() as int) =~= s@);
    out
}

/// Reads an identity strength as the model may spell it (case of ASCII letters
/// and `_`/`-` do not matter); unknown spellings read as `verwandt-mit`.
pub fn parse_strength(s: &str) -> (r: IdentityStrength)
    ensures
        r == strength_spec(normalize_spec(s@)),
{
    let n = normalize(s);
    let n = n.as_str();
    if str_eq(n, "deckungsgleich") || str_eq(n, "same") || str_eq(n, "equal") {
        IdentityStrength::Deckungsgleich
    } else if str_eq(n, "ergaenzt") || str_eq(n, "ergänzt") || str_eq(n, "complements") {
        IdentityStrength::Ergaenzt
    } else if str_eq(n, "widerspricht-in") || str_eq(n, "contradicts") {
        IdentityStrength::WidersprichtIn
    } else if str_eq(n, "bekannt-verschieden") || str_eq(n, "known-different") {
        IdentityStrength::BekanntVerschieden
    } else {
        IdentityStrength::VerwandtMit
    }
}

// ---------------------------------------------------------------------------
// Tool calls
// ---------------------------------------------------------------------------

/// The direction of a traversal.
#[derive(Clone, Copy, PartialEq, Eq, Structural, Debug)]
pub enum Direction {
    Forward,
    Backward,
    Both,
}

/// `backward` and `both` name their directions; anything else is forward.
pub open spec fn direction_spec(d: Option<Seq<char>>) -> Direction {
    match d {
        Some(s) => if s == "backward"@ {
            Direction::Backward
        } else if s == "both"@ {
            Direction::Both
        } else {
            Direction::Forward
        },
        None => Direction::Forward,
    }
}

/// A validated tool call.
pub enum ToolCall {
    /// Read one datum, if the reader may see it.
    Get { id: ContentId },
    /// Bounded walk from `start`.
    Traverse { start: ContentId, direction: Direction, max_depth: u32, max_nodes: u64 },
    /// Address equality of two content ids.
    ContentEqual { a: ContentId, b: ContentId },
    /// Does context `ctx` point to `target`?
    ContextPointsTo { ctx: ContentId, target: ContentId },
    /// Is `elem` a member of the set spanned by `set_ctx`?
    IsMemberOfSet { elem: ContentId, set_ctx: ContentId },
    /// Results that depend (one hop) on `input`.
    FindDependents { input: ContentId },
    /// Append a text leaf.
    AppendLeaf { text: String },
    /// Append a node owning `owns` (never empty).
    AppendNode { owns: Vec<ContentId> },
    /// Build a relation context `{relation, target}`.
    Relate { relation: String, target: ContentId },
    /// Build a type context for the type named `type_title`.
    SetType { type_title: String },
    /// Build a datum superseding `older`, owning `new_owns` besides.
    Supersede { older: ContentId, new_owns: Vec<ContentId> },
    /// Build a time context on the recording or the validity axis.
    SetTime { axis: String, recording: bool, time_value: String },
    /// Assert a graded identity between `a` and `b`.
    AssertIdentity {
        a: ContentId,
        b: ContentId,
        strength: IdentityStrength,
        sub_contexts: Vec<ContentId>,
    },
    /// Create an anchor datum.
    MakeAnchor { payload: Vec<ContentId> },
    /// Build a graded membership context for `anchor`.
    AddMember { anchor: ContentId, grade: String },
    /// Store a computed result bound to its inputs.
    Materialize { payload: Vec<ContentId>, inputs: Vec<ContentId>, replaces: Option<ContentId> },
}

pub enum ToolCallV {
    Get { id: Seq<u8> },
    Traverse { start: Seq<u8>, direction: Direction, max_depth: u32, max_nodes: u64 },
    ContentEqual { a: Seq<u8>, b: Seq<u8> },
    ContextPointsTo { ctx: Seq<u8>, target: Seq<u8> },
    IsMemberOfSet { elem: Seq<u8>, set_ctx: Seq<u8> },
    FindDependents { input: Seq<u8> },
    AppendLeaf { text: Seq<char> },
    AppendNode { owns: Seq<Seq<u8>> },
    Relate { relation: Seq<char>, target: Seq<u8> },
    SetType { type_title: Seq<char> },
    Supersede { older: Seq<u8>, new_owns: Seq<Seq<u8>> },
    SetTime { axis: Seq<char>, recording: bool, time_value: Seq<char> },
    AssertIdentity { a: Seq<u8>, b: Seq<u8>, strength: IdentityStrength, sub_contexts: Seq<Seq<u8>> },
    MakeAnchor { payload: Seq<Seq<u8>> },
    AddMember { anchor: Seq<u8>, grade: Seq<char> },
    Materialize { payload: Seq<Seq<u8>>, inputs: Seq<Seq<u8>>, replaces: Option<Seq<u8>> },
}

impl View for ToolCall {
    type V = ToolCallV;

    open spec fn view(&self) -> ToolCallV {
        match self {
            ToolCall::Get { id } => ToolCallV::Get { id: id@ },
            ToolCall::Traverse { start, direction, max_depth, max_nodes } => ToolCallV::Traverse {
                start: start@,
                direction: *direction,
                max_depth: *max_depth,
                max_nodes: *max_nodes,
            },
            ToolCall::ContentEqual { a, b } => ToolCallV::ContentEqual { a: a@, b: b@ },
            ToolCall::ContextPointsTo { ctx, target } => ToolCallV::ContextPointsTo {
                ctx: ctx@,
                target: target@,
            },
            ToolCall::IsMemberOfSet { elem, set_ctx } => ToolCallV::IsMemberOfSet {
                elem: elem@,
                set_ctx: set_ctx@,
            },
            ToolCall::FindDependents { input } => ToolCallV::FindDependents { input: input@ },
            ToolCall::AppendLeaf { text } => ToolCallV::AppendLeaf { text: text@ },
            ToolCall::AppendNode { owns } => ToolCallV::AppendNode { owns: ids_view(owns@) },
            ToolCall::Relate { relation, target } => ToolCallV::Relate {
                relation: relation@,
                target: target@,
            },
            ToolCall::SetType { type_title } => ToolCallV::SetType { type_title: type_title@ },
            ToolCall::Supersede { older, new_owns } => ToolCallV::Supersede {
                older: older@,
                new_owns: ids_view(new_owns@),
            },
            ToolCall::SetTime { axis, recording, time_value } => ToolCallV::SetTime {
                axis: axis@,
                recording: *recording,
                time_value: time_value@,
            },
            ToolCall::AssertIdentity { a, b, strength, sub_contexts } => ToolCallV::AssertIdentity {
                a: a@,
                b: b@,
                strength: *strength,
                sub_contexts: ids_view(sub_contexts@),
            },
            ToolCall::MakeAnchor { payload } => ToolCallV::MakeAnchor { payload: ids_view(payload@) },
            ToolCall::AddMember { anchor, grade } => ToolCallV::AddMember {
                anchor: anchor@,
                grade: grade@,
            },
            ToolCall::Materialize { payload, inputs, replaces } => ToolCallV::Materialize {
                payload: ids_view(payload@),
                inputs: ids_view(inputs@),
                replaces: match replaces {
                    Some(r) => Some(r@),
                    None => None,
                },
            },
        }
    }
}

/// Two required content ids, `k1` read first.
pub open spec fn two_cids_spec(inp: ToolInput, k1: Seq<char>, k2: Seq<char>) -> Result<
    (Seq<u8>, Seq<u8>),
    ToolErrorV,
> {
    match req_cid_spec(inp, k1) {
        Err(e) => Err(e),
        Ok(x) => match req_cid_spec(inp, k2) {
            Err(e) => Err(e),
            Ok(y) => Ok((x, y)),
        },
    }
}

/// An optional content id parameter: absent or unreadable reads as none.
pub open spec fn opt_cid_spec(inp: ToolInput, k: Seq<char>) -> Option<Seq<u8>> {
    match str_field(inp, k) {
        Some(s) => match parse_cid_spec(s) {
            Ok(v) => Some(v),
            Err(_) => None,
        },
        None => None,
    }
}

/// What the tool named `name` makes of `inp`: the validated call, or the error
/// of the first parameter (in the order the tool reads them) that fails.
pub open spec fn tool_spec(name: Seq<char>, inp: ToolInput) -> Result<ToolCallV, ToolErrorV> {
    if name == "get"@ {
        match req_cid_spec(inp, "id"@) {
            Err(e) => Err(e),
            Ok(id) => Ok(ToolCallV::Get { id }),
        }
    } else if name == "traverse"@ {
        match req_cid_spec(inp, "start"@) {
            Err(e) => Err(e),
            Ok(start) => Ok(
                ToolCallV::Traverse {
                    start,
                    direction: direction_spec(str_field(inp, "direction"@)),
                    max_depth: (u64_field(inp, "max_depth"@, 6) % 0x1_0000_0000) as u32,
                    max_nodes: u64_field(inp, "max_nodes"@, 256),
                },
            ),
        }
    } else if name == "content_equal"@ {
        match two_cids_spec(inp, "a"@, "b"@) {
            Err(e) => Err(e),
            Ok(p) => Ok(ToolCallV::ContentEqual { a: p.0, b: p.1 }),
        }
    } else if name == "context_points_to"@ {
        match two_cids_spec(inp, "ctx"@, "target"@) {
            Err(e) => Err(e),
            Ok(p) => Ok(ToolCallV::ContextPointsTo { ctx: p.0, target: p.1 }),
        }
    } else if name == "is_member_of_set"@ {
        match two_cids_spec(inp, "elem"@, "set_ctx"@) {
            Err(e) => Err(e),
            Ok(p) => Ok(ToolCallV::IsMemberOfSet { elem: p.0, set_ctx: p.1 }),
        }
    } else if name == "find_dependents"@ {
        match req_cid_spec(inp, "input"@) {
            Err(e) => Err(e),
            Ok(input) => Ok(ToolCallV::FindDependents { input }),
        }
    } else if name == "append_leaf"@ {
        match str_field(inp, "text"@) {
            None => Err(ToolErrorV::MissingString("text"@)),
            Some(text) => Ok(ToolCallV::AppendLeaf { text }),
        }
    } else if name == "append_node"@ {
        match list_spec(inp, "owns"@) {
            Err(e) => Err(ToolErrorV::Cid(e)),
            Ok(owns) => if owns.len() == 0 {
                Err(ToolErrorV::EmptyOwns)
            } else {
                Ok(ToolCallV::AppendNode { owns })
            },
        }
    } else if name == "relate"@ {
        match str_field(inp, "relation"@) {
            None => Err(ToolErrorV::MissingString("relation"@)),
            Some(relation) => match req_cid_spec(inp, "target"@) {
                Err(e) => Err(e),
                Ok(target) => Ok(ToolCallV::Relate { relation, target }),
            },
        }
    } else if name == "set_type"@ {
        match str_field(inp, "type_name"@) {
            None => Err(ToolErrorV::MissingString("type_name"@)),
            Some(type_title) => Ok(ToolCallV::SetType { type_title }),
        }
    } else if name == "supersede"@ {
        match req_cid_spec(inp, "older"@) {
            Err(e) => Err(e),
            Ok(older) => match list_spec(inp, "new_owns"@) {
                Err(e) => Err(ToolErrorV::Cid(e)),
                Ok(new_owns) => Ok(ToolCallV::Supersede { older, new_owns }),
            },
        }
    } else if name == "set_time"@ {
        let axis = match str_field(inp, "axis"@) {
            Some(a) => a,
            None => "validity"@,
        };
        match str_field(inp, "time_value"@) {
            None => Err(ToolErrorV::MissingString("time_value"@)),
            Some(time_value) => Ok(
                ToolCallV::SetTime { axis, recording: axis == "recording"@, time_value },
            ),
        }
    } else if name == "assert_identity"@ {
        match two_cids_spec(inp, "a"@, "b"@) {
            Err(e) => Err(e),
            Ok(p) => match list_spec(inp, "sub_contexts"@) {
                Err(e) => Err(ToolErrorV::Cid(e)),
                Ok(sub_contexts) => Ok(
                    ToolCallV::AssertIdentity {
                        a: p.0,
                        b: p.1,
                        strength: strength_spec(
                            normalize_spec(
                                match str_field(inp, "strength"@) {
                                    Some(s) => s,
                                    None => Seq::empty(),
                                },
                            ),
                        ),
                        sub_contexts,
                    },
                ),
            },
        }
    } else if name == "make_anchor"@ {
        match list_spec(inp, "payload"@) {
            Err(e) => Err(ToolErrorV::Cid(e)),
            Ok(payload) => Ok(ToolCallV::MakeAnchor { payload }),
        }
    } else if name == "add_member"@ {
        match req_cid_spec(inp, "anchor"@) {
            Err(e) => Err(e),
            Ok(anchor) => Ok(
                ToolCallV::AddMember {
                    anchor,
                    grade: match str_field(inp, "grade"@) {
                        Some(g) => g,
                        None => "1.0"@,
                    },
                },
            ),
        }
    } else if name == "materialize"@ {
        match list_spec(inp, "payload"@) {
            Err(e) => Err(ToolErrorV::Cid(e)),
            Ok(payload) => match list_spec(inp, "inputs"@) {
                Err(e) => Err(ToolErrorV::Cid(e)),
                Ok(inputs) => Ok(
                    ToolCallV::Materialize { payload, inputs, replaces: opt_cid_spec(inp, "replaces"@) },
                ),
            },
        }
    } else {
        Err(ToolErrorV::UnknownTool(name))
    }
}

fn two_cids(input: &ToolInput, k1: &str, k2: &str) -> (r: Result<(ContentId, ContentId), ToolError>)
    ensures
        match r {
            Ok(p) => two_cids_spec(*input, k1@, k2@) == Ok::<(Seq<u8>, Seq<u8>), ToolErrorV>(
                (p.0@, p.1@),
            ),
            Err(e) => two_cids_spec(*input, k1@, k2@) == Err::<(Seq<u8>, Seq<u8>), ToolErrorV>(e@),
        },
{
    let x = match req_cid(input, k1) {
        Ok(x) => x,
        Err(e) => return Err(e),
    };
    let y = match req_cid(input, k2) {
        Ok(y) => y,
        Err(e) => return Err(e),
    };
    Ok((x, y))
}

fn direction_of(d: Option<String>) -> (r: Direction)
    ensures
        r == direction_spec(
            match d {
                Some(s) => Some(s@),
                None => None,
            },
        ),
{
    match d {
        Some(s) => if str_eq(s.as_str(), "backward") {
            Direction::Backward
        } else if str_eq(s.as_str(), "both") {
            Direction::Both
        } else {
            Direction::Forward
        },
        None => Direction::Forward,
    }
}

/// Validates a tool call: reads the parameters the tool `name` takes from its
/// JSON input, in order, and stops at the first that fails.
pub fn parse_tool_call(name: &str, input: &ToolInput) -> (r: Result<ToolCall, ToolError>)
    ensures
        match r {
            Ok(c) => tool_spec(name@, *input) == Ok::<ToolCallV, ToolErrorV>(c@),
            Err(e) => tool_spec(name@, *input) == Err::<ToolCallV, ToolErrorV>(e@),
        },
{
    if str_eq(name, "get") {
        match req_cid(input, "id") {
            Err(e) => Err(e),
            Ok(id) => Ok(ToolCall::Get { id }),
        }
    } else if str_eq(name, "traverse") {
        match req_cid(input, "start") {
            Err(e) => Err(e),
            Ok(start) => {
                let direction = direction_of(opt_str(input, "direction"));
                let depth = opt_u64(input, "max_depth", 6);
                let max_depth = (depth % 0x1_0000_0000) as u32;
                let max_nodes = opt_u64(input, "max_nodes", 256);
                Ok(ToolCall::Traverse { start, direction, max_depth, max_nodes })
            },
        }
    } else if str_eq(name, "content_equal") {
        match two_cids(input, "a", "b") {
            Err(e) => Err(e),
            Ok(p) => Ok(ToolCall::ContentEqual { a: p.0, b: p.1 }),
        }
    } else if str_eq(name, "context_points_to") {
        match two_cids(input, "ctx", "target") {
            Err(e) => Err(e),
            Ok(p) => Ok(ToolCall::ContextPointsTo { ctx: p.0, target: p.1 }),
        }
    } else if str_eq(name, "is_member_of_set") {
        match two_cids(input, "elem", "set_ctx") {
            Err(e) => Err(e),
            Ok(p) => Ok(ToolCall::IsMemberOfSet { elem: p.0, set_ctx: p.1 }),
        }
    } else if str_eq(name, "find_dependents") {
        match req_cid(input, "input") {
            Err(e) => Err(e),
            Ok(c) => Ok(ToolCall::FindDependents { input: c }),
        }
    } else if str_eq(name, "append_leaf") {
        match req_str(input, "text") {
            Err(e) => Err(e),
            Ok(text) => Ok(ToolCall::AppendLeaf { text }),
        }
    } else if str_eq(name, "append_node") {
        match list_cids(input, "owns") {
            Err(e) => Err(ToolError::Cid(e)),
            Ok(owns) => if owns.len() == 0 {
                Err(ToolError::EmptyOwns)
            } else {
                Ok(ToolCall::AppendNode { owns })
            },
        }
    } else if str_eq(name, "relate") {
        match req_str(input, "relation") {
            Err(e) => Err(e),
            Ok(relation) => match req_cid(input, "target") {
                Err(e) => Err(e),
                Ok(target) => Ok(ToolCall::Relate { relation, target }),
            },
        }
    } else if str_eq(name, "set_type") {
        match req_str(input, "type_name") {
            Err(e) => Err(e),
            Ok(type_title) => Ok(ToolCall::SetType { type_title }),
        }
    } else if str_eq(name, "supersede") {
        match req_cid(input, "older") {
            Err(e) => Err(e),
            Ok(older) => match list_cids(input, "new_owns") {
                Err(e) => Err(ToolError::Cid(e)),
                Ok(new_owns) => Ok(ToolCall::Supersede { older, new_owns }),
            },
        }
    } else if str_eq(name, "set_time") {
        let axis = match opt_str(input, "axis") {
            Some(a) => a,
            None => to_string("validity"),
        };
        match req_str(input, "time_value") {
            Err(e) => Err(e),
            Ok(time_value) => {
                let recording = str_eq(axis.as_str(), "recording");
                Ok(ToolCall::SetTime { axis, recording, time_value })
            },
        }
    } else if str_eq(name, "assert_identity") {
        match two_cids(input, "a", "b") {
            Err(e) => Err(e),
            Ok(p) => {
                let spelled = match opt_str(input, "strength") {
                    Some(s) => s,
                    None => String::new(),
                };
                let strength = parse_strength(spelled.as_str());
                match list_cids(input, "sub_contexts") {
                    Err(e) => Err(ToolError::Cid(e)),
                    Ok(sub_contexts) => Ok(
                        ToolCall::AssertIdentity { a: p.0, b: p.1, strength, sub_contexts },
                    ),
                }
            },
        }
    } else if str_eq(name, "make_anchor") {
        match list_cids(input, "payload") {
            Err(e) => Err(ToolError::Cid(e)),
            Ok(payload) => Ok(ToolCall::MakeAnchor { payload }),
        }
    } else if str_eq(name, "add_member") {
        match req_cid(input, "anchor") {
            Err(e) => Err(e),
            Ok(anchor) => {
                let grade = match req_str(input, "grade") {
                    Ok(g) => g,
                    Err(_) => to_string("1.0"),
                };
                Ok(ToolCall::AddMember { anchor, grade })
            },
        }
    } else if str_eq(name, "materialize") {
        match list_cids(input, "payload") {
            Err(e) => Err(ToolError::Cid(e)),
            Ok(payload) => match list_cids(input, "inputs") {
                Err(e) => Err(ToolError::Cid(e)),
                Ok(inputs) => {
                    let replaces = match opt_str(input, "replaces") {
                        Some(s) => match parse_cid(s.as_str()) {
                            Ok(c) => Some(c),
                            Err(_) => None,
                        },
                        None => None,
                    };
                    Ok(ToolCall::Materialize { payload, inputs, replaces })
                },
            },
        }
    } else {
        Err(ToolError::UnknownTool(to_string(name)))
    }
}

// ---------------------------------------------------------------------------
// The tools advertised to the model
// ---------------------------------------------------------------------------

/// One tool as the model is told of it: its name and what it does.
pub struct ToolDoc {
    pub name: &'static str,
    pub description: &'static str,
    /// The JSON schema of the tool's input.
    pub input_schema: &'static str,
    /// The parameters the schema names, in order.
    pub params: Vec<&'static str>,
    /// The parameters the schema marks as required.
    pub required: Vec<&'static str>,
}

/// The texts of a list of string slices.
pub open spec fn strs_view(s: Seq<&'static str>) -> Seq<Seq<char>> {
    s.map_values(|x: &'static str| x@)
}

/// The advertised tool names, in the order the model is told of them.
pub open spec fn tool_names() -> Seq<Seq<char>> {
    seq![
        "get"@,
        "traverse"@,
        "content_equal"@,
        "context_points_to"@,
        "is_member_of_set"@,
        "find_dependents"@,
        "append_leaf"@,
        "append_node"@,
        "relate"@,
        "set_type"@,
        "supersede"@,
        "set_time"@,
        "assert_identity"@,
        "make_anchor"@,
        "add_member"@,
        "materialize"@,
    ]
}

/// The description of each advertised tool, in the same order.
pub open spec fn tool_descriptions() -> Seq<Seq<char>> {
    seq![
        "Fetch a datum by content id (hex). Returns kind, payload, owns."@,
        "Walk ownership/context edges from a start datum (bounded, cycle-safe §1.7a)."@,
        "Address equality of two content ids (§1.3 i)."@,
        "Does context ctx point to target? (§1.3 ii)"@,
        "Is elem a member of the set spanned by set_ctx? (§1.3 iii)"@,
        "Materialized results that depend (one hop) on input (§10.3)."@,
        "Append an atomic leaf datum with UTF-8 text payload. Returns its content id (deduped if already present, §5.3)."@,
        "Append a node datum owning the given context ids (build children first). Returns its content id."@,
        "Build a relation context {relation, target}. Returns context_id to include in the owner's owns (§3.3)."@,
        "Build a type context pointing at a type datum named type_name. Returns context_id for the entity to own (§4)."@,
        "Create a newer datum that supersedes 'older' (§6.3). new_owns are the newer datum's other contexts."@,
        "Build a time context (axis: recording|validity) carrying time_value. Returns time_context for the carrier to own (§6.2)."@,
        "Assert graded referential identity between a and b (§5.5). strength: deckungsgleich|ergaenzt|widerspricht-in|verwandt-mit|bekannt-verschieden."@,
        "Create an anchor datum (a class §9.1). payload: optional content ids (e.g. a name leaf)."@,
        "Build a graded membership context pointing at an anchor. Returns membership_context for the representative to own (§9.1/§9.3)."@,
        "Store a computed result bound to its inputs by provenance (§10.2). payload: content ids of the result body."@,
    ]
}

/// The JSON schema of each advertised tool's input, in the same order.
pub open spec fn tool_input_schemas() -> Seq<Seq<char>> {
    seq![
        "{\"type\":\"object\",\"properties\":{\"id\":{\"type\":\"string\"}},\"required\":[\"id\"]}"@,
        "{\"type\":\"object\",\"properties\":{\"start\":{\"type\":\"string\"},\"direction\":{\"type\":\"string\",\"enum\":[\"forward\",\"backward\",\"both\"]},\"max_depth\":{\"type\":\"integer\"},\"max_nodes\":{\"type\":\"integer\"}},\"required\":[\"start\"]}"@,
        "{\"type\":\"object\",\"properties\":{\"a\":{\"type\":\"string\"},\"b\":{\"type\":\"string\"}},\"required\":[\"a\",\"b\"]}"@,
        "{\"type\":\"object\",\"properties\":{\"ctx\":{\"type\":\"string\"},\"target\":{\"type\":\"string\"}},\"required\":[\"ctx\",\"target\"]}"@,
        "{\"type\":\"object\",\"properties\":{\"elem\":{\"type\":\"string\"},\"set_ctx\":{\"type\":\"string\"}},\"required\":[\"elem\",\"set_ctx\"]}"@,
        "{\"type\":\"object\",\"properties\":{\"input\":{\"type\":\"string\"}},\"required\":[\"input\"]}"@,
        "{\"type\":\"object\",\"properties\":{\"text\":{\"type\":\"string\"}},\"required\":[\"text\"]}"@,
        "{\"type\":\"object\",\"properties\":{\"owns\":{\"type\":\"array\",\"items\":{\"type\":\"string\"}}},\"required\":[\"owns\"]}"@,
        "{\"type\":\"object\",\"properties\":{\"relation\":{\"type\":\"string\"},\"target\":{\"type\":\"string\"}},\"required\":[\"relation\",\"target\"]}"@,
        "{\"type\":\"object\",\"properties\":{\"type_name\":{\"type\":\"string\"}},\"required\":[\"type_name\"]}"@,
        "{\"type\":\"object\",\"properties\":{\"older\":{\"type\":\"string\"},\"new_owns\":{\"type\":\"array\",\"items\":{\"type\":\"string\"}}},\"required\":[\"older\"]}"@,
        "{\"type\":\"object\",\"properties\":{\"axis\":{\"type\":\"string\",\"enum\":[\"recording\",\"validity\"]},\"time_value\":{\"type\":\"string\"}},\"required\":[\"time_value\"]}"@,
        "{\"type\":\"object\",\"properties\":{\"a\":{\"type\":\"string\"},\"b\":{\"type\":\"string\"},\"strength\":{\"type\":\"string\"},\"sub_contexts\":{\"type\":\"array\",\"items\":{\"type\":\"string\"}}},\"required\":[\"a\",\"b\"]}"@,
        "{\"type\":\"object\",\"properties\":{\"payload\":{\"type\":\"array\",\"items\":{\"type\":\"string\"}}}}"@,
        "{\"type\":\"object\",\"properties\":{\"anchor\":{\"type\":\"string\"},\"grade\":{\"type\":\"string\"}},\"required\":[\"anchor\"]}"@,
        "{\"type\":\"object\",\"properties\":{\"payload\":{\"type\":\"array\",\"items\":{\"type\":\"string\"}},\"inputs\":{\"type\":\"array\",\"items\":{\"type\":\"string\"}},\"replaces\":{\"type\":\"string\"}},\"required\":[\"inputs\"]}"@,
    ]
}

/// The parameters each advertised tool's schema names, in the same order.
pub open spec fn tool_params() -> Seq<Seq<Seq<char>>> {
    seq![
        seq!["id"@],
        seq!["start"@, "direction"@, "max_depth"@, "max_nodes"@],
        seq!["a"@, "b"@],
        seq!["ctx"@, "target"@],
        seq!["elem"@, "set_ctx"@],
        seq!["input"@],
        seq!["text"@],
        seq!["owns"@],
        seq!["relation"@, "target"@],
        seq!["type_name"@],
        seq!["older"@, "new_owns"@],
        seq!["axis"@, "time_value"@],
        seq!["a"@, "b"@, "strength"@, "sub_contexts"@],
        seq!["payload"@],
        seq!["anchor"@, "grade"@],
        seq!["payload"@, "inputs"@, "replaces"@],
    ]
}

/// The parameters each advertised tool's schema marks as required.
pub open spec fn tool_required() -> Seq<Seq<Seq<char>>> {
    seq![
        seq!["id"@],
        seq!["start"@],
        seq!["a"@, "b"@],
        seq!["ctx"@, "target"@],
        seq!["elem"@, "set_ctx"@],
        seq!["input"@],
        seq!["text"@],
        seq!["owns"@],
        seq!["relation"@, "target"@],
        seq!["type_name"@],
        seq!["older"@],
        seq!["time_value"@],
        seq!["a"@, "b"@],
        seq![],
        seq!["anchor"@],
        seq!["inputs"@],
    ]
}

/// The tools advertised to the model, in order.
pub fn tool_catalog() -> (r: Vec<ToolDoc>)
    ensures
        r@.len() == tool_names().len(),
        forall|i: int|
            0 <= i < r@.len() ==> r@[i].name@ == tool_names()[i] && r@[i].description@
                == tool_descriptions()[i] && r@[i].input_schema@ == tool_input_schemas()[i]
                && strs_view(r@[i].params@) == tool_params()[i] && strs_view(r@[i].required@)
                == tool_required()[i],
{
    let mut v: Vec<ToolDoc> = Vec::new();
    v.push(ToolDoc { name: "get", description: "Fetch a datum by content id (hex). Returns kind, payload, owns.", input_schema: "{\"type\":\"object\",\"properties\":{\"id\":{\"type\":\"string\"}},\"required\":[\"id\"]}", params: vec!["id"], required: vec!["id"] });
    v.push(ToolDoc { name: "traverse", description: "Walk ownership/context edges from a start datum (bounded, cycle-safe §1.7a).", input_schema: "{\"type\":\"object\",\"properties\":{\"start\":{\"type\":\"string\"},\"direction\":{\"type\":\"string\",\"enum\":[\"forward\",\"backward\",\"both\"]},\"max_depth\":{\"type\":\"integer\"},\"max_nodes\":{\"type\":\"integer\"}},\"required\":[\"start\"]}", params: vec!["start", "direction", "max_depth", "max_nodes"], required: vec!["start"] });
    v.push(ToolDoc { name: "content_equal", description: "Address equality of two content ids (§1.3 i).", input_schema: "{\"type\":\"object\",\"properties\":{\"a\":{\"type\":\"string\"},\"b\":{\"type\":\"string\"}},\"required\":[\"a\",\"b\"]}", params: vec!["a", "b"], required: vec!["a", "b"] });
    v.push(ToolDoc { name: "context_points_to", description: "Does context ctx point to target? (§1.3 ii)", input_schema: "{\"type\":\"object\",\"properties\":{\"ctx\":{\"type\":\"string\"},\"target\":{\"type\":\"string\"}},\"required\":[\"ctx\",\"target\"]}", params: vec!["ctx", "target"], required: vec!["ctx", "target"] });
    v.push(ToolDoc { name: "is_member_of_set", description: "Is elem a member of the set spanned by set_ctx? (§1.3 iii)", input_schema: "{\"type\":\"object\",\"properties\":{\"elem\":{\"type\":\"string\"},\"set_ctx\":{\"type\":\"string\"}},\"required\":[\"elem\",\"set_ctx\"]}", params: vec!["elem", "set_ctx"], required: vec!["elem", "set_ctx"] });
    v.push(ToolDoc { name: "find_dependents", description: "Materialized results that depend (one hop) on input (§10.3).", input_schema: "{\"type\":\"object\",\"properties\":{\"input\":{\"type\":\"string\"}},\"required\":[\"input\"]}", params: vec!["input"], required: vec!["input"] });
    v.push(ToolDoc { name: "append_leaf", description: "Append an atomic leaf datum with UTF-8 text payload. Returns its content id (deduped if already present, §5.3).", input_schema: "{\"type\":\"object\",\"properties\":{\"text\":{\"type\":\"string\"}},\"required\":[\"text\"]}", params: vec!["text"], required: vec!["text"] });
    v.push(ToolDoc { name: "append_node", description: "Append a node datum owning the given context ids (build children first). Returns its content id.", input_schema: "{\"type\":\"object\",\"properties\":{\"owns\":{\"type\":\"array\",\"items\":{\"type\":\"string\"}}},\"required\":[\"owns\"]}", params: vec!["owns"], required: vec!["owns"] });
    v.push(ToolDoc { name: "relate", description: "Build a relation context {relation, target}. Returns context_id to include in the owner's owns (§3.3).", input_schema: "{\"type\":\"object\",\"properties\":{\"relation\":{\"type\":\"string\"},\"target\":{\"type\":\"string\"}},\"required\":[\"relation\",\"target\"]}", params: vec!["relation", "target"], required: vec!["relation", "target"] });
    v.push(ToolDoc { name: "set_type", description: "Build a type context pointing at a type datum named type_name. Returns context_id for the entity to own (§4).", input_schema: "{\"type\":\"object\",\"properties\":{\"type_name\":{\"type\":\"string\"}},\"required\":[\"type_name\"]}", params: vec!["type_name"], required: vec!["type_name"] });
    v.push(ToolDoc { name: "supersede", description: "Create a newer datum that supersedes 'older' (§6.3). new_owns are the newer datum's other contexts.", input_schema: "{\"type\":\"object\",\"properties\":{\"older\":{\"type\":\"string\"},\"new_owns\":{\"type\":\"array\",\"items\":{\"type\":\"string\"}}},\"required\":[\"older\"]}", params: vec!["older", "new_owns"], required: vec!["older"] });
    v.push(ToolDoc { name: "set_time", description: "Build a time context (axis: recording|validity) carrying time_value. Returns time_context for the carrier to own (§6.2).", input_schema: "{\"type\":\"object\",\"properties\":{\"axis\":{\"type\":\"string\",\"enum\":[\"recording\",\"validity\"]},\"time_value\":{\"type\":\"string\"}},\"required\":[\"time_value\"]}", params: vec!["axis", "time_value"], required: vec!["time_value"] });
    v.push(ToolDoc { name: "assert_identity", description: "Assert graded referential identity between a and b (§5.5). strength: deckungsgleich|ergaenzt|widerspricht-in|verwandt-mit|bekannt-verschieden.", input_schema: "{\"type\":\"object\",\"properties\":{\"a\":{\"type\":\"string\"},\"b\":{\"type\":\"string\"},\"strength\":{\"type\":\"string\"},\"sub_contexts\":{\"type\":\"array\",\"items\":{\"type\":\"string\"}}},\"required\":[\"a\",\"b\"]}", params: vec!["a", "b", "strength", "sub_contexts"], required: vec!["a", "b"] });
    v.push(ToolDoc { name: "make_anchor", description: "Create an anchor datum (a class §9.1). payload: optional content ids (e.g. a name leaf).", input_schema: "{\"type\":\"object\",\"properties\":{\"payload\":{\"type\":\"array\",\"items\":{\"type\":\"string\"}}}}", params: vec!["payload"], required: vec![] });
    v.push(ToolDoc { name: "add_member", description: "Build a graded membership context pointing at an anchor. Returns membership_context for the representative to own (§9.1/§9.3).", input_schema: "{\"type\":\"object\",\"properties\":{\"anchor\":{\"type\":\"string\"},\"grade\":{\"type\":\"string\"}},\"required\":[\"anchor\"]}", params: vec!["anchor", "grade"], required: vec!["anchor"] });
    v.push(ToolDoc { name: "materialize", description: "Store a computed result bound to its inputs by provenance (§10.2). payload: content ids of the result body.", input_schema: "{\"type\":\"object\",\"properties\":{\"payload\":{\"type\":\"array\",\"items\":{\"type\":\"string\"}},\"inputs\":{\"type\":\"array\",\"items\":{\"type\":\"string\"}},\"replaces\":{\"type\":\"string\"}},\"required\":[\"inputs\"]}", params: vec!["payload", "inputs", "replaces"], required: vec!["inputs"] });
    v
}

/// Each advertised schema requires only parameters it names.
pub proof fn law_required_params_are_named(i: int, j: int)
    requires
        0 <= i < tool_required().len(),
        0 <= j < tool_required()[i].len(),
    ensures
        tool_params()[i].contains(tool_required()[i][j]),
{
    if i == 0 {
        assert(tool_params()[0][0] == "id"@);
    } else if i == 1 {
        assert(tool_params()[1][0] == "start"@);
    } else if i == 2 {
        assert(tool_params()[2][0] == "a"@);
        assert(tool_params()[2][1] == "b"@);
    } else if i == 3 {
        assert(tool_params()[3][0] == "ctx"@);
        assert(tool_params()[3][1] == "target"@);
    } else if i == 4 {
        assert(tool_params()[4][0] == "elem"@);
        assert(tool_params()[4][1] == "set_ctx"@);
    } else if i == 5 {
        assert(tool_params()[5][0] == "input"@);
    } else if i == 6 {
        assert(tool_params()[6][0] == "text"@);
    } else if i == 7 {
        assert(tool_params()[7][0] == "owns"@);
    } else if i == 8 {
        assert(tool_params()[8][0] == "relation"@);
        assert(tool_params()[8][1] == "target"@);
    } else if i == 9 {
        assert(tool_params()[9][0] == "type_name"@);
    } else if i == 10 {
        assert(tool_params()[10][0] == "older"@);
    } else if i == 11 {
        assert(tool_params()[11][1] == "time_value"@);
    } else if i == 12 {
        assert(tool_params()[12][0] == "a"@);
        assert(tool_params()[12][1] == "b"@);
    } else if i == 13 {

    } else if i == 14 {
        assert(tool_params()[14][0] == "anchor"@);
    } else if i == 15 {
        assert(tool_params()[15][1] == "inputs"@);
    }
}

/// The advertised tool names are pairwise different.
proof fn lemma_tool_names_distinct()
    ensures
        forall|a: int, b: int|
            0 <= a < b < tool_names().len() ==> #[trigger] tool_names()[a] != #[trigger] tool_names()[b],
{
    reveal_strlit("get");
    reveal_strlit("traverse");
    reveal_strlit("content_equal");
    reveal_strlit("context_points_to");
    reveal_strlit("is_member_of_set");
    reveal_strlit("find_dependents");
    reveal_strlit("append_leaf");
    reveal_strlit("append_node");
    reveal_strlit("relate");
    reveal_strlit("set_type");
    reveal_strlit("supersede");
    reveal_strlit("set_time");
    reveal_strlit("assert_identity");
    reveal_strlit("make_anchor");
    reveal_strlit("add_member");
    reveal_strlit("materialize");
    assert(tool_names()[0].len() == 3 && tool_names()[0][0] == 'g' && tool_names()[0][2] == 't'
        && tool_names()[0][1] == 'e');
    assert(tool_names()[1].len() == 8 && tool_names()[1][0] == 't' && tool_names()[1][7] == 'e'
        && tool_names()[1][6] == 's');
    assert(tool_names()[2].len() == 13 && tool_names()[2][0] == 'c' && tool_names()[2][12] == 'l'
        && tool_names()[2][11] == 'a');
    assert(tool_names()[3].len() == 17 && tool_names()[3][0] == 'c' && tool_names()[3][16] == 'o'
        && tool_names()[3][15] == 't');
    assert(tool_names()[4].len() == 16 && tool_names()[4][0] == 'i' && tool_names()[4][15] == 't'
        && tool_names()[4][14] == 'e');
    assert(tool_names()[5].len() == 15 && tool_names()[5][0] == 'f' && tool_names()[5][14] == 's'
        && tool_names()[5][13] == 't');
    assert(tool_names()[6].len() == 11 && tool_names()[6][0] == 'a' && tool_names()[6][10] == 'f'
        && tool_names()[6][9] == 'a');
    assert(tool_names()[7].len() == 11 && tool_names()[7][0] == 'a' && tool_names()[7][10] == 'e'
        && tool_names()[7][9] == 'd');
    assert(tool_names()[8].len() == 6 && tool_names()[8][0] == 'r' && tool_names()[8][5] == 'e'
        && tool_names()[8][4] == 't');
    assert(tool_names()[9].len() == 8 && tool_names()[9][0] == 's' && tool_names()[9][7] == 'e'
        && tool_names()[9][6] == 'p');
    assert(tool_names()[10].len() == 9 && tool_names()[10][0] == 's' && tool_names()[10][8] == 'e'
        && tool_names()[10][7] == 'd');
    assert(tool_names()[11].len() == 8 && tool_names()[11][0] == 's' && tool_names()[11][7] == 'e'
        && tool_names()[11][6] == 'm');
    assert(tool_names()[12].len() == 15 && tool_names()[12][0] == 'a' && tool_names()[12][14] == 'y'
        && tool_names()[12][13] == 't');
    assert(tool_names()[13].len() == 11 && tool_names()[13][0] == 'm' && tool_names()[13][10] == 'r'
        && tool_names()[13][9] == 'o');
    assert(tool_names()[14].len() == 10 && tool_names()[14][0] == 'a' && tool_names()[14][9] == 'r'
        && tool_names()[14][8] == 'e');
    assert(tool_names()[15].len() == 11 && tool_names()[15][0] == 'm' && tool_names()[15][10] == 'e'
        && tool_names()[15][9] == 'z');
}

/// Validation refuses a call for a missing parameter only when the advertised
/// schema marks that parameter as required.
#[verifier::rlimit(100)]
#[verifier::spinoff_prover]
pub proof fn law_missing_params_are_required(i: int, inp: ToolInput, k: Seq<char>)
    requires
        0 <= i < tool_names().len(),
        tool_spec(tool_names()[i], inp) == Err::<ToolCallV, ToolErrorV>(ToolErrorV::MissingString(k)),
    ensures
        tool_required()[i].contains(k),
{
    lemma_tool_names_distinct();
    if i == 0 {
        assert(tool_names()[0] == "get"@);
        assert(tool_required()[0][0] == "id"@);
    } else if i == 1 {
        assert(tool_names()[1] == "traverse"@);
        assert(tool_required()[1][0] == "start"@);
    } else if i == 2 {
        assert(tool_names()[2] == "content_equal"@);
        assert(tool_required()[2][0] == "a"@);
        assert(tool_required()[2][1] == "b"@);
    } else if i == 3 {
        assert(tool_names()[3] == "context_points_to"@);
        assert(tool_required()[3][0] == "ctx"@);
        assert(tool_required()[3][1] == "target"@);
    } else if i == 4 {
        assert(tool_names()[4] == "is_member_of_set"@);
        assert(tool_required()[4][0] == "elem"@);
        assert(tool_required()[4][1] == "set_ctx"@);
    } else if i == 5 {
        assert(tool_names()[5] == "find_dependents"@);
        assert(tool_required()[5][0] == "input"@);
    } else if i == 6 {
        assert(tool_names()[6] == "append_leaf"@);
        assert(tool_required()[6][0] == "text"@);
    } else if i == 7 {
        assert(tool_names()[7] == "append_node"@);
        assert(tool_required()[7][0] == "owns"@);
    } else if i == 8 {
        assert(tool_names()[8] == "relate"@);
        assert(tool_required()[8][0] == "relation"@);
        assert(tool_required()[8][1] == "target"@);
    } else if i == 9 {
        assert(tool_names()[9] == "set_type"@);
        assert(tool_required()[9][0] == "type_name"@);
    } else if i == 10 {
        assert(tool_names()[10] == "supersede"@);
        assert(tool_required()[10][0] == "older"@);
    } else if i == 11 {
        assert(tool_names()[11] == "set_time"@);
        assert(tool_required()[11][0] == "time_value"@);
    } else if i == 12 {
        assert(tool_names()[12] == "assert_identity"@);
        assert(tool_required()[12][0] == "a"@);
        assert(tool_required()[12][1] == "b"@);
    } else if i == 13 {
        assert(tool_names()[13] == "make_anchor"@);
    } else if i == 14 {
        assert(tool_names()[14] == "add_member"@);
        assert(tool_required()[14][0] == "anchor"@);
    } else if i == 15 {
        assert(tool_names()[15] == "materialize"@);
        assert(tool_required()[15][0] == "inputs"@);
    }
}

/// Validation reads only the parameters the advertised schema names: two inputs
/// that agree on those parameters validate alike.
#[verifier::rlimit(100)]
#[verifier::spinoff_prover]
pub proof fn law_validation_reads_named_params(i: int, inp1: ToolInput, inp2: ToolInput)
    requires
        0 <= i < tool_names().len(),
        forall|j: int|
            0 <= j < tool_params()[i].len() ==> field_of(inp1.fields@, #[trigger] tool_params()[i][j])
                == field_of(inp2.fields@, tool_params()[i][j]),
    ensures
        tool_spec(tool_names()[i], inp1) == tool_spec(tool_names()[i], inp2),
{
    lemma_tool_names_distinct();
    if i == 0 {
        assert(tool_names()[0] == "get"@);
        assert(tool_params()[0][0] == "id"@);
    } else if i == 1 {
        assert(tool_names()[1] == "traverse"@);
        assert(tool_params()[1][0] == "start"@);
        assert(tool_params()[1][1] == "direction"@);
        assert(tool_params()[1][2] == "max_depth"@);
        assert(tool_params()[1][3] == "max_nodes"@);
    } else if i == 2 {
        assert(tool_names()[2] == "content_equal"@);
        assert(tool_params()[2][0] == "a"@);
        assert(tool_params()[2][1] == "b"@);
    } else if i == 3 {
        assert(tool_names()[3] == "context_points_to"@);
        assert(tool_params()[3][0] == "ctx"@);
        assert(tool_params()[3][1] == "target"@);
    } else if i == 4 {
        assert(tool_names()[4] == "is_member_of_set"@);
        assert(tool_params()[4][0] == "elem"@);
        assert(tool_params()[4][1] == "set_ctx"@);
    } else if i == 5 {
        assert(tool_names()[5] == "find_dependents"@);
        assert(tool_params()[5][0] == "input"@);
    } else if i == 6 {
        assert(tool_names()[6] == "append_leaf"@);
        assert(tool_params()[6][0] == "text"@);
    } else if i == 7 {
        assert(tool_names()[7] == "append_node"@);
        assert(tool_params()[7][0] == "owns"@);
    } else if i == 8 {
        assert(tool_names()[8] == "relate"@);
        assert(tool_params()[8][0] == "relation"@);
        assert(tool_params()[8][1] == "target"@);
    } else if i == 9 {
        assert(tool_names()[9] == "set_type"@);
        assert(tool_params()[9][0] == "type_name"@);
    } else if i == 10 {
        assert(tool_names()[10] == "supersede"@);
        assert(tool_params()[10][0] == "older"@);
        assert(tool_params()[10][1] == "new_owns"@);
    } else if i == 11 {
        assert(tool_names()[11] == "set_time"@);
        assert(tool_params()[11][0] == "axis"@);
        assert(tool_params()[11][1] == "time_value"@);
    } else if i == 12 {
        assert(tool_names()[12] == "assert_identity"@);
        assert(tool_params()[12][0] == "a"@);
        assert(tool_params()[12][1] == "b"@);
        assert(tool_params()[12][2] == "strength"@);
        assert(tool_params()[12][3] == "sub_contexts"@);
    } else if i == 13 {
        assert(tool_names()[13] == "make_anchor"@);
        assert(tool_params()[13][0] == "payload"@);
    } else if i == 14 {
        assert(tool_names()[14] == "add_member"@);
        assert(tool_params()[14][0] == "anchor"@);
        assert(tool_params()[14][1] == "grade"@);
    } else if i == 15 {
        assert(tool_names()[15] == "materialize"@);
        assert(tool_params()[15][0] == "payload"@);
        assert(tool_params()[15][1] == "inputs"@);
        assert(tool_params()[15][2] == "replaces"@);
    }
}

/// Each field of a validated call is the tool parameter of the same name, read
/// from the input: content ids with `req_cid`, texts with `req_str`, lists with
/// `list_cids`; and each kind of call comes only from the tool of its name.
#[verifier::rlimit(100)]
#[verifier::spinoff_prover]
pub proof fn law_call_fields_are_named_params(name: Seq<char>, inp: ToolInput)
    ensures
        match tool_spec(name, inp) {
            Ok(ToolCallV::Get { id }) => name == "get"@ && req_cid_spec(inp, "id"@) == Ok::<
                Seq<u8>,
                ToolErrorV,
            >(id),
            Ok(ToolCallV::Traverse { start, max_depth, max_nodes, .. }) => name == "traverse"@
                && req_cid_spec(inp, "start"@) == Ok::<Seq<u8>, ToolErrorV>(start) && max_depth
                == u64_field(inp, "max_depth"@, 6) % 0x1_0000_0000 && max_nodes == u64_field(
                inp,
                "max_nodes"@,
                256,
            ),
            Ok(ToolCallV::ContentEqual { a, b }) => name == "content_equal"@ && req_cid_spec(
                inp,
                "a"@,
            ) == Ok::<Seq<u8>, ToolErrorV>(a) && req_cid_spec(inp, "b"@) == Ok::<
                Seq<u8>,
                ToolErrorV,
            >(b),
            Ok(ToolCallV::ContextPointsTo { ctx, target }) => name == "context_points_to"@
                && req_cid_spec(inp, "ctx"@) == Ok::<Seq<u8>, ToolErrorV>(ctx) && req_cid_spec(
                inp,
                "target"@,
            ) == Ok::<Seq<u8>, ToolErrorV>(target),
            Ok(ToolCallV::IsMemberOfSet { elem, set_ctx }) => name == "is_member_of_set"@
                && req_cid_spec(inp, "elem"@) == Ok::<Seq<u8>, ToolErrorV>(elem) && req_cid_spec(
                inp,
                "set_ctx"@,
            ) == Ok::<Seq<u8>, ToolErrorV>(set_ctx),
            Ok(ToolCallV::FindDependents { input }) => name == "find_dependents"@ && req_cid_spec(
                inp,
                "input"@,
            ) == Ok::<Seq<u8>, ToolErrorV>(input),
            Ok(ToolCallV::AppendLeaf { text }) => name == "append_leaf"@ && str_field(inp, "text"@)
                == Some(text),
            Ok(ToolCallV::AppendNode { owns }) => name == "append_node"@ && list_spec(inp, "owns"@)
                == Ok::<Seq<Seq<u8>>, CidError>(owns) && owns.len() > 0,
            Ok(ToolCallV::Relate { relation, target }) => name == "relate"@ && str_field(
                inp,
                "relation"@,
            ) == Some(relation) && req_cid_spec(inp, "target"@) == Ok::<Seq<u8>, ToolErrorV>(target),
            Ok(ToolCallV::SetType { type_title }) => name == "set_type"@ && str_field(
                inp,
                "type_name"@,
            ) == Some(type_title),
            Ok(ToolCallV::Supersede { older, new_owns }) => name == "supersede"@ && req_cid_spec(
                inp,
                "older"@,
            ) == Ok::<Seq<u8>, ToolErrorV>(older) && list_spec(inp, "new_owns"@) == Ok::<
                Seq<Seq<u8>>,
                CidError,
            >(new_owns),
            Ok(ToolCallV::SetTime { axis, recording, time_value }) => name == "set_time"@
                && axis == (match str_field(inp, "axis"@) {
                Some(a) => a,
                None => "validity"@,
            }) && recording == (axis == "recording"@) && str_field(inp, "time_value"@) == Some(
                time_value,
            ),
            Ok(ToolCallV::AssertIdentity { a, b, sub_contexts, .. }) => name == "assert_identity"@
                && req_cid_spec(inp, "a"@) == Ok::<Seq<u8>, ToolErrorV>(a) && req_cid_spec(
                inp,
                "b"@,
            ) == Ok::<Seq<u8>, ToolErrorV>(b) && list_spec(inp, "sub_contexts"@) == Ok::<
                Seq<Seq<u8>>,
                CidError,
            >(sub_contexts),
            Ok(ToolCallV::MakeAnchor { payload }) => name == "make_anchor"@ && list_spec(
                inp,
                "payload"@,
            ) == Ok::<Seq<Seq<u8>>, CidError>(payload),
            Ok(ToolCallV::AddMember { anchor, grade }) => name == "add_member"@ && req_cid_spec(
                inp,
                "anchor"@,
            ) == Ok::<Seq<u8>, ToolErrorV>(anchor) && grade == (match str_field(inp, "grade"@) {
                Some(g) => g,
                None => "1.0"@,
            }),
            Ok(ToolCallV::Materialize { payload, inputs, replaces }) => name == "materialize"@
                && list_spec(inp, "payload"@) == Ok::<Seq<Seq<u8>>, CidError>(payload) && list_spec(
                inp,
                "inputs"@,
            ) == Ok::<Seq<Seq<u8>>, CidError>(inputs) && replaces == opt_cid_spec(inp, "replaces"@),
            Err(_) => true,
        },
{
}

/// A traversal goes the way its `direction` parameter names: `backward` and
/// `both` name their directions, and anything else (or no direction) is forward.
pub proof fn law_traverse_direction_named(inp: ToolInput)
    requires
        req_cid_spec(inp, "start"@) is Ok,
    ensures
        tool_spec("traverse"@, inp) is Ok,
        str_field(inp, "direction"@) == Some("backward"@) ==> tool_spec("traverse"@, inp)->Ok_0
            matches ToolCallV::Traverse { direction: Direction::Backward, .. },
        str_field(inp, "direction"@) == Some("both"@) ==> tool_spec("traverse"@, inp)->Ok_0
            matches ToolCallV::Traverse { direction: Direction::Both, .. },
        str_field(inp, "direction"@) != Some("backward"@) && str_field(inp, "direction"@) != Some(
            "both"@,
        ) ==> tool_spec("traverse"@, inp)->Ok_0 matches ToolCallV::Traverse {
            direction: Direction::Forward,
            ..
        },
{
    lemma_tool_names_distinct();
    assert(tool_names()[0] == "get"@ && tool_names()[1] == "traverse"@);
    reveal_strlit("backward");
    reveal_strlit("both");
    assert("both"@ != "backward"@) by {
        assert("both"@.len() != "backward"@.len());
    }
}

/// Each identity strength's own name, as its display name spells it after
/// `identity:` (and as the `assert_identity` tool advertises it), reads back as
/// that strength.
pub proof fn law_strength_names_read_back(s: IdentityStrength)
    ensures
        strength_spec(normalize_spec(strength_name(s).subrange(9, strength_name(s).len() as int)))
            == s,
{
    reveal_strlit("identity:deckungsgleich");
    reveal_strlit("identity:ergaenzt");
    reveal_strlit("identity:widerspricht-in");
    reveal_strlit("identity:verwandt-mit");
    reveal_strlit("identity:bekannt-verschieden");
    reveal_strlit("deckungsgleich");
    reveal_strlit("same");
    reveal_strlit("equal");
    reveal_strlit("ergaenzt");
    reveal_strlit("ergänzt");
    reveal_strlit("complements");
    reveal_strlit("widerspricht-in");
    reveal_strlit("contradicts");
    reveal_strlit("bekannt-verschieden");
    reveal_strlit("known-different");
    reveal_strlit("verwandt-mit");
    let full = strength_name(s);
    let n = full.subrange(9, full.len() as int);
    assert(normalize_spec(n) =~= n);
    match s {
        IdentityStrength::Deckungsgleich => {
            assert(n =~= "deckungsgleich"@);
        },
        IdentityStrength::Ergaenzt => {
            assert(n =~= "ergaenzt"@);
            assert(n != "deckungsgleich"@ && n != "same"@ && n != "equal"@) by {
                assert(n.len() != "deckungsgleich"@.len());
                assert(n.len() != "same"@.len());
                assert(n.len() != "equal"@.len());
            }
        },
        IdentityStrength::WidersprichtIn => {
            assert(n =~= "widerspricht-in"@);
        },
        IdentityStrength::VerwandtMit => {
            assert(n =~= "verwandt-mit"@);
        },
        IdentityStrength::BekanntVerschieden => {
            assert(n =~= "bekannt-verschieden"@);
        },
    }
}

/// Validation refuses a call as unknown only when no tool of that name exists.
#[verifier::rlimit(100)]
#[verifier::spinoff_prover]
proof fn lemma_named_tool_known(name: Seq<char>, inp: ToolInput)
    requires
        tool_names().contains(name),
    ensures
        !(tool_spec(name, inp) matches Err(ToolErrorV::UnknownTool(_))),
{
    let k = choose|k: int| 0 <= k < tool_names().len() && tool_names()[k] == name;
    assert(name == tool_names()[k]);
}

/// Every tool advertised to the model is one that validation knows: whatever
/// input comes with it, the call is never refused as an unknown tool.
pub proof fn law_advertised_tools_are_known(i: int, inp: ToolInput)
    requires
        0 <= i < tool_names().len(),
    ensures
        !(tool_spec(tool_names()[i], inp) matches Err(ToolErrorV::UnknownTool(_))),
{
    lemma_named_tool_known(tool_names()[i], inp);
}

impl ToolCall {
    /// Whether the call appends data (and so changes the graph).
    pub open spec fn is_write_spec(&self) -> bool {
        !(self is Get || self is Traverse || self is ContentEqual || self is ContextPointsTo
            || self is IsMemberOfSet || self is FindDependents)
    }

    pub fn is_write(&self) -> (r: bool)
        ensures
            r == self.is_write_spec(),
    {
        match self {
            ToolCall::Get { .. } | ToolCall::Traverse { .. } | ToolCall::ContentEqual { .. }
            | ToolCall::ContextPointsTo { .. } | ToolCall::IsMemberOfSet { .. }
            | ToolCall::FindDependents { .. } => false,
            _ => true,
        }
    }
}

impl ToolError {
    /// The message fed back to the model.
    pub fn message(&self) -> (r: String)
        ensures
            match self {
                ToolError::MissingString(k) => r@ == "missing string parameter '"@ + k@ + "'"@,
                ToolError::Cid(e) => *e == CidError::WrongLength ==> r@
                    == "content id must be exactly 64 hex chars (§5.2)"@,
                ToolError::EmptyOwns => r@ == "a node must own at least one context (§K2.1)"@,
                ToolError::UnknownTool(n) => r@ == "unknown tool '"@ + n@ + "'"@,
            },
            self matches ToolError::Cid(e) && e == CidError::InvalidDigit ==> r@
                == "invalid digit found in string"@,
    {
        match self {
            ToolError::MissingString(k) => {
                let mut m = to_string("missing string parameter '");
                push_str(&mut m, k.as_str());
                push_str(&mut m, "'");
                m
            },
            ToolError::Cid(e) => to_string(e.message()),
            ToolError::EmptyOwns => to_string("a node must own at least one context (§K2.1)"),
            ToolError::UnknownTool(n) => {
                let mut m = to_string("unknown tool '");
                push_str(&mut m, n.as_str());
                push_str(&mut m, "'");
                m
            },
        }
    }
}

} // verus!
