//! Request bodies of the REST interface and the computations behind its
//! handlers: the graph projection of the visible data, the payload of a leaf
//! append, and the live event an append emits.

use vstd::prelude::*;
use vstd::string::*;
use vstd::utf8::*;

use crate::cid::{
    cid_hex, contains_id, pair_ok, pairs_ok, pairs_value, parse_cid, parse_cid_spec, read_pairs,
    seq_has_id, CidError, ContentId,
};
use crate::roles::{classify, classify_spec, DatumShape, RoleFacts};
use crate::text::{from_utf8_lossy, hex_text, read_pair_of, str_eq, trim, trim_spec, utf8_lossy};
use crate::viz_model::{Edge, GraphSnapshot, Node};
use crate::vocab::{table_get, MarkerTable};

verus! {

/// `?s=<session id>` carried by every session-scoped request.
pub struct SessionQ {
    pub s: Option<String>,
}

/// Body of a session creation.
pub struct CreateSession {
    pub title: Option<String>,
}

/// Body of a leaf append: UTF-8 text, or hex bytes, or neither (empty leaf).
pub struct AppendLeaf {
    pub text: Option<String>,
    pub hex: Option<String>,
}

/// Body of a node append: the owned context ids (hex).
pub struct AppendNode {
    pub owns: Vec<String>,
}

/// Body of a subject change; an absent or blank subject selects the admin view.
pub struct SetSubject {
    pub subject: Option<String>,
}

// ---------------------------------------------------------------------------
// Graph projection
// ---------------------------------------------------------------------------

/// A datum that passed the access gate, with its content id and the facts the
/// data model's matchers report about it.
pub struct VisibleDatum {
    pub id: ContentId,
    pub datum: DatumShape,
    pub facts: RoleFacts,
}

pub open spec fn ids_of(vis: Seq<VisibleDatum>) -> Seq<ContentId> {
    vis.map_values(|v: VisibleDatum| v.id)
}

/// `c` is the id of a visible datum.
pub open spec fn is_visible(vis: Seq<VisibleDatum>, c: Seq<u8>) -> bool {
    seq_has_id(ids_of(vis), c)
}

/// Some visible datum supersedes `c`.
pub open spec fn is_superseded(vis: Seq<VisibleDatum>, c: Seq<u8>) -> bool {
    exists|k: int|
        0 <= k < vis.len() && (#[trigger] vis[k].facts.supersedes matches Some(t) && t@ == c)
}

/// The owned ids, in order, that are visible.
pub open spec fn visible_targets(owns: Seq<ContentId>, vis: Seq<VisibleDatum>) -> Seq<Seq<u8>>
    decreases owns.len(),
{
    if owns.len() == 0 {
        seq![]
    } else {
        let r = visible_targets(owns.drop_last(), vis);
        if is_visible(vis, owns.last()@) {
            r.push(owns.last()@)
        } else {
            r
        }
    }
}

/// The ownership edges among the first `k` visible data: for each datum in order,
/// one edge to each of its visible owned contexts.
pub open spec fn edge_pairs(vis: Seq<VisibleDatum>, k: int) -> Seq<(Seq<u8>, Seq<u8>)>
    decreases k,
{
    if k <= 0 {
        seq![]
    } else {
        let v = vis[k - 1];
        edge_pairs(vis, k - 1) + visible_targets(v.datum.owns_spec(), vis).map_values(
            |t: Seq<u8>| (v.id@, t),
        )
    }
}

/// `n` is the graph node for the visible datum `v`.
pub open spec fn node_matches(
    n: Node,
    v: VisibleDatum,
    vis: Seq<VisibleDatum>,
    markers: MarkerTable,
    type_marker: Seq<u8>,
) -> bool {
    &&& n.id@ == hex_text(v.id@)
    &&& n.kind@ == (if v.datum.is_leaf_spec() {
        "leaf"@
    } else {
        "node"@
    })
    &&& (n.role@, n.label@) == classify_spec(v.id@, v.datum, v.facts, markers, type_marker)
    &&& n.owns@.len() == v.datum.owns_spec().len()
    &&& forall|j: int|
        0 <= j < n.owns@.len() ==> #[trigger] n.owns@[j]@ == hex_text(v.datum.owns_spec()[j]@)
    &&& n.is_marker == (table_get(markers.entries@, v.id@) is Some)
    &&& n.superseded == is_superseded(vis, v.id@)
}

/// `e` is the ownership edge `p.0 ⊳ p.1`.
pub open spec fn edge_matches(e: Edge, p: (Seq<u8>, Seq<u8>)) -> bool {
    &&& e.from@ == hex_text(p.0)
    &&& e.to@ == hex_text(p.1)
    &&& e.kind@ == "owns"@
}

fn owned_hex(owns: &Vec<ContentId>) -> (r: Vec<String>)
    ensures
        r@.len() == owns@.len(),
        forall|j: int| 0 <= j < r@.len() ==> #[trigger] r@[j]@ == hex_text(owns@[j]@),
{
    let mut out: Vec<String> = Vec::new();
    let mut j: usize = 0;
    while j < owns.len()
        invariant
            j <= owns@.len(),
            out@.len() == j,
            forall|k: int| 0 <= k < j ==> #[trigger] out@[k]@ == hex_text(owns@[k]@),
        decreases owns.len() - j,
    {
        out.push(cid_hex(&owns[j]));
        j = j + 1;
    }
    out
}

/// Appends one edge from `from` to each owned id that is visible.
fn push_edges(
    edges: &mut Vec<Edge>,
    from: &ContentId,
    owns: &Vec<ContentId>,
    ids: &Vec<ContentId>,
    Ghost(vis): Ghost<Seq<VisibleDatum>>,
)
    requires
        ids@ == ids_of(vis),
    ensures
        final(edges)@.len() == old(edges)@.len() + visible_targets(owns@, vis).len(),
        forall|k: int| 0 <= k < old(edges)@.len() ==> #[trigger] final(edges)@[k] == old(edges)@[k],
        forall|k: int|
            0 <= k < visible_targets(owns@, vis).len() ==> #[trigger] edge_matches(
                final(edges)@[old(edges)@.len() + k],
                (from@, visible_targets(owns@, vis)[k]),
            ),
{
    let ghost base = old(edges)@;
    let mut j: usize = 0;
    assert(owns@.take(0) =~= Seq::<ContentId>::empty());
    while j < owns.len()
        invariant
            j <= owns@.len(),
            ids@ == ids_of(vis),
            edges@.len() == base.len() + visible_targets(owns@.take(j as int), vis).len(),
            forall|k: int| 0 <= k < base.len() ==> #[trigger] edges@[k] == base[k],
            forall|k: int|
                0 <= k < visible_targets(owns@.take(j as int), vis).len() ==> #[trigger] edge_matches(
                    edges@[base.len() + k],
                    (from@, visible_targets(owns@.take(j as int), vis)[k]),
                ),
        decreases owns.len() - j,
    {
        let c = &owns[j];
        assert(owns@.take(j as int + 1).drop_last() =~= owns@.take(j as int));
        if contains_id(ids, c) {
            edges.push(Edge { from: cid_hex(from), to: cid_hex(c), kind: "owns" });
        }
        j = j + 1;
    }
    assert(owns@.take(owns@.len() as int) =~= owns@);
}

/// Projects the visible data (in the given order) onto graph nodes and ownership
/// edges. `markers` names the well-known marker leaves and `type_marker` is the
/// content id of this service's type marker.
pub fn build_graph(
    visible: &Vec<VisibleDatum>,
    subject: Option<ContentId>,
    markers: &MarkerTable,
    type_marker: &ContentId,
) -> (g: GraphSnapshot)
    ensures
        g.nodes@.len() == visible@.len(),
        forall|i: int|
            0 <= i < visible@.len() ==> #[trigger] node_matches(
                g.nodes@[i],
                visible@[i],
                visible@,
                *markers,
                type_marker@,
            ),
        g.edges@.len() == edge_pairs(visible@, visible@.len() as int).len(),
        forall|k: int|
            0 <= k < g.edges@.len() ==> #[trigger] edge_matches(
                g.edges@[k],
                edge_pairs(visible@, visible@.len() as int)[k],
            ),
        match subject {
            None => g.subject is None,
            Some(s) => g.subject matches Some(h) && h@ == hex_text(s@),
        },
{
    let ghost vis = visible@;
    // Ids of all visible data, and the targets of all visible supersessions.
    let mut ids: Vec<ContentId> = Vec::new();
    let mut older: Vec<ContentId> = Vec::new();
    let mut i: usize = 0;
    while i < visible.len()
        invariant
            i <= vis.len(),
            vis == visible@,
            ids@ == ids_of(vis).take(i as int),
            forall|c: Seq<u8>|
                #![trigger seq_has_id(older@, c)]
                seq_has_id(older@, c) <==> exists|k: int|
                    0 <= k < i && (#[trigger] vis[k].facts.supersedes matches Some(t) && t@ == c),
        decreases visible.len() - i,
    {
        let v = &visible[i];
        ids.push(v.id);
        let ghost before = older@;
        match v.facts.supersedes {
            Some(t) => {
                older.push(t);
                assert forall|c: Seq<u8>| #[trigger] seq_has_id(older@, c) == (seq_has_id(before, c)
                    || t@ == c) by {
                    if seq_has_id(older@, c) {
                        let k = choose|k: int| 0 <= k < older@.len() && older@[k]@ == c;
                        if k < before.len() {
                            assert(before[k] == older@[k]);
                        }
                    }
                    if seq_has_id(before, c) {
                        let k = choose|k: int| 0 <= k < before.len() && before[k]@ == c;
                        assert(older@[k] == before[k]);
                    }
                    if t@ == c {
                        assert(older@[before.len() as int] == t);
                    }
                }
            },
            None => {},
        }
        assert(ids@ =~= ids_of(vis).take(i as int + 1));
        i = i + 1;
    }
    assert(ids@ =~= ids_of(vis));

    let mut nodes: Vec<Node> = Vec::new();
    let mut edges: Vec<Edge> = Vec::new();
    let mut i: usize = 0;
    while i < visible.len()
        invariant
            i <= vis.len(),
            vis == visible@,
            ids@ == ids_of(vis),
            forall|c: Seq<u8>|
                #![trigger seq_has_id(older@, c)]
                seq_has_id(older@, c) <==> is_superseded(vis, c),
            nodes@.len() == i,
            forall|k: int|
                0 <= k < i ==> #[trigger] node_matches(
                    nodes@[k],
                    vis[k],
                    vis,
                    *markers,
                    type_marker@,
                ),
            edges@.len() == edge_pairs(vis, i as int).len(),
            forall|k: int|
                0 <= k < edges@.len() ==> #[trigger] edge_matches(
                    edges@[k],
                    edge_pairs(vis, i as int)[k],
                ),
        decreases visible.len() - i,
    {
        let v = &visible[i];
        let (role, label) = classify(&v.id, &v.datum, &v.facts, markers, type_marker);
        let leaf = v.datum.is_leaf();
        let owns = match &v.datum {
            DatumShape::Leaf { .. } => Vec::new(),
            DatumShape::Node { owns } => owned_hex(owns),
        };
        let ghost old_edges = edges@;
        let ghost tail = visible_targets(vis[i as int].datum.owns_spec(), vis).map_values(
            |t: Seq<u8>| (vis[i as int].id@, t),
        );
        match &v.datum {
            DatumShape::Leaf { .. } => {
                assert(tail =~= Seq::<(Seq<u8>, Seq<u8>)>::empty());
            },
            DatumShape::Node { owns } => {
                push_edges(&mut edges, &v.id, owns, &ids, Ghost(vis));
                assert forall|m: int| 0 <= m < tail.len() implies #[trigger] edge_matches(
                    edges@[old_edges.len() + m],
                    tail[m],
                ) by {
                    assert(edge_matches(
                        edges@[old_edges.len() + m],
                        (v.id@, visible_targets(owns@, vis)[m]),
                    ));
                }
            },
        }
        proof {
            assert(edge_pairs(vis, i as int + 1) == edge_pairs(vis, i as int) + tail);
            assert(edges@.len() == old_edges.len() + tail.len());
            assert forall|k: int| 0 <= k < edges@.len() implies #[trigger] edge_matches(
                edges@[k],
                edge_pairs(vis, i as int + 1)[k],
            ) by {
                if k < old_edges.len() {
                    assert(edges@[k] == old_edges[k]);
                    assert(edge_matches(old_edges[k], edge_pairs(vis, i as int)[k]));
                    assert(edge_pairs(vis, i as int + 1)[k] == edge_pairs(vis, i as int)[k]);
                } else {
                    let m = k - old_edges.len();
                    assert(edge_pairs(vis, i as int + 1)[k] == tail[m]);
                    assert(edge_matches(edges@[old_edges.len() + m], tail[m]));
                }
            }
        }
        let node = Node {
            id: cid_hex(&v.id),
            kind: if leaf {
                "leaf"
            } else {
                "node"
            },
            role,
            label,
            owns,
            is_marker: markers.marker_name(&v.id).is_some(),
            superseded: contains_id(&older, &v.id),
        };
        nodes.push(node);
        i = i + 1;
    }
    let subject_hex = match subject {
        Some(s) => Some(cid_hex(&s)),
        None => None,
    };
    GraphSnapshot { nodes, edges, subject: subject_hex }
}

/// Every ownership edge of the projection joins two visible data: no edge leads
/// to or from a datum the access gate hides.
pub proof fn law_edges_join_visible_data(vis: Seq<VisibleDatum>, n: int)
    requires
        0 <= n <= vis.len(),
    ensures
        forall|k: int|
            0 <= k < edge_pairs(vis, n).len() ==> is_visible(vis, #[trigger] edge_pairs(vis, n)[k].0)
                && is_visible(vis, edge_pairs(vis, n)[k].1),
    decreases n,
{
    if n > 0 {
        law_edges_join_visible_data(vis, n - 1);
        let v = vis[n - 1];
        let ts = visible_targets(v.datum.owns_spec(), vis);
        lemma_visible_targets_visible(v.datum.owns_spec(), vis);
        let tail = ts.map_values(|t: Seq<u8>| (v.id@, t));
        assert(edge_pairs(vis, n) == edge_pairs(vis, n - 1) + tail);
        assert(ids_of(vis)[n - 1] == v.id);
        assert forall|k: int| 0 <= k < edge_pairs(vis, n).len() implies is_visible(
            vis,
            #[trigger] edge_pairs(vis, n)[k].0,
        ) && is_visible(vis, edge_pairs(vis, n)[k].1) by {
            if k >= edge_pairs(vis, n - 1).len() {
                let m = k - edge_pairs(vis, n - 1).len();
                assert(edge_pairs(vis, n)[k] == tail[m]);
                assert(ids_of(vis)[n - 1]@ == v.id@);
            } else {
                assert(edge_pairs(vis, n)[k] == edge_pairs(vis, n - 1)[k]);
            }
        }
    }
}

proof fn lemma_visible_targets_visible(owns: Seq<ContentId>, vis: Seq<VisibleDatum>)
    ensures
        forall|k: int|
            0 <= k < visible_targets(owns, vis).len() ==> is_visible(
                vis,
                #[trigger] visible_targets(owns, vis)[k],
            ),
    decreases owns.len(),
{
    if owns.len() > 0 {
        let r = visible_targets(owns.drop_last(), vis);
        lemma_visible_targets_visible(owns.drop_last(), vis);
        assert forall|k: int| 0 <= k < visible_targets(owns, vis).len() implies is_visible(
            vis,
            #[trigger] visible_targets(owns, vis)[k],
        ) by {
            if k < r.len() {
                assert(visible_targets(owns, vis)[k] == r[k]);
            }
        }
    }
}

/// The ownership edges from one datum: one to each of its visible owned contexts.
pub open spec fn edges_of(v: VisibleDatum, vis: Seq<VisibleDatum>) -> Seq<(Seq<u8>, Seq<u8>)> {
    visible_targets(v.datum.owns_spec(), vis).map_values(|t: Seq<u8>| (v.id@, t))
}

/// The ownership edges from each datum of `s` in turn, visibility taken from `vis`.
pub open spec fn edges_from(s: Seq<VisibleDatum>, vis: Seq<VisibleDatum>) -> Seq<
    (Seq<u8>, Seq<u8>),
>
    decreases s.len(),
{
    if s.len() == 0 {
        seq![]
    } else {
        edges_from(s.drop_last(), vis) + edges_of(s.last(), vis)
    }
}

proof fn lemma_edge_pairs_from(vis: Seq<VisibleDatum>, n: int)
    requires
        0 <= n <= vis.len(),
    ensures
        edge_pairs(vis, n) == edges_from(vis.take(n), vis),
    decreases n,
{
    if n > 0 {
        lemma_edge_pairs_from(vis, n - 1);
        assert(vis.take(n).drop_last() =~= vis.take(n - 1));
        assert(vis.take(n).last() == vis[n - 1]);
    } else {
        assert(vis.take(0) =~= Seq::<VisibleDatum>::empty());
    }
}

proof fn lemma_visible_targets_same(owns: Seq<ContentId>, a: Seq<VisibleDatum>, b: Seq<VisibleDatum>)
    requires
        forall|c: Seq<u8>| is_visible(a, c) == is_visible(b, c),
    ensures
        visible_targets(owns, a) == visible_targets(owns, b),
    decreases owns.len(),
{
    if owns.len() > 0 {
        lemma_visible_targets_same(owns.drop_last(), a, b);
        assert(is_visible(a, owns.last()@) == is_visible(b, owns.last()@));
    }
}

proof fn lemma_edges_from_same_visibility(s: Seq<VisibleDatum>, a: Seq<VisibleDatum>, b: Seq<VisibleDatum>)
    requires
        forall|c: Seq<u8>| is_visible(a, c) == is_visible(b, c),
    ensures
        edges_from(s, a) == edges_from(s, b),
    decreases s.len(),
{
    if s.len() > 0 {
        lemma_edges_from_same_visibility(s.drop_last(), a, b);
        lemma_visible_targets_same(s.last().datum.owns_spec(), a, b);
    }
}

/// Taking one datum out of the sequence takes out exactly its edges.
proof fn lemma_edges_from_remove(s: Seq<VisibleDatum>, vis: Seq<VisibleDatum>, j: int)
    requires
        0 <= j < s.len(),
    ensures
        edges_from(s, vis).to_multiset() =~= edges_from(s.remove(j), vis).to_multiset().add(
            edges_of(s[j], vis).to_multiset(),
        ),
    decreases s.len(),
{
    broadcast use vstd::seq_lib::lemma_multiset_commutative;
    broadcast use vstd::multiset::group_multiset_axioms;

    let dl = s.drop_last();
    if j == s.len() - 1 {
        assert(s.remove(j) =~= dl);
    } else {
        lemma_edges_from_remove(dl, vis, j);
        let r = s.remove(j);
        assert(r.drop_last() =~= dl.remove(j));
        assert(r.last() == s.last());
        assert(dl[j] == s[j]);
        assert(edges_from(r, vis) == edges_from(dl.remove(j), vis) + edges_of(s.last(), vis));
    }
}

proof fn lemma_edges_from_permutation(s1: Seq<VisibleDatum>, s2: Seq<VisibleDatum>, vis: Seq<VisibleDatum>)
    requires
        s1.to_multiset() == s2.to_multiset(),
    ensures
        edges_from(s1, vis).to_multiset() =~= edges_from(s2, vis).to_multiset(),
    decreases s1.len(),
{
    broadcast use vstd::seq_lib::group_to_multiset_ensures;
    broadcast use vstd::seq_lib::lemma_multiset_commutative;
    broadcast use vstd::multiset::group_multiset_axioms;

    if s1.len() == 0 {
        assert(s2.to_multiset().len() == 0);
        assert(s2.len() == 0);
        assert(s2 =~= s1);
    } else {
        let x = s1.last();
        let dl = s1.drop_last();
        assert(dl.push(x) =~= s1);
        assert(s1.contains(x)) by {
            assert(s1[s1.len() - 1] == x);
        }
        assert(s2.to_multiset().count(x) > 0);
        assert(s2.contains(x));
        let j = choose|j: int| 0 <= j < s2.len() && s2[j] == x;
        let r = s2.remove(j);
        assert(r.to_multiset() =~= s2.to_multiset().remove(x));
        assert(s1.to_multiset() =~= dl.to_multiset().insert(x));
        assert(dl.to_multiset() =~= s1.to_multiset().remove(x));
        lemma_edges_from_permutation(dl, r, vis);
        lemma_edges_from_remove(s2, vis, j);
    }
}

/// The projection does not depend on the order in which the visible data come:
/// given the same data in another order, each datum gets the same node and the
/// graph has the same ownership edges (counted with multiplicity).
pub proof fn law_graph_order_independent(
    v1: Seq<VisibleDatum>,
    v2: Seq<VisibleDatum>,
    markers: MarkerTable,
    type_marker: Seq<u8>,
)
    requires
        v1.to_multiset() == v2.to_multiset(),
    ensures
        v1.len() == v2.len(),
        forall|n: Node, v: VisibleDatum|
            node_matches(n, v, v1, markers, type_marker) == node_matches(
                n,
                v,
                v2,
                markers,
                type_marker,
            ),
        edge_pairs(v1, v1.len() as int).to_multiset() =~= edge_pairs(
            v2,
            v2.len() as int,
        ).to_multiset(),
{
    broadcast use vstd::seq_lib::group_to_multiset_ensures;

    assert(v1.len() == v1.to_multiset().len());
    assert(v2.len() == v2.to_multiset().len());
    // Every datum of one sequence is a datum of the other.
    assert forall|x: VisibleDatum| v1.contains(x) <==> v2.contains(x) by {
        assert(v1.contains(x) <==> v1.to_multiset().count(x) > 0);
        assert(v2.contains(x) <==> v2.to_multiset().count(x) > 0);
    }
    assert forall|c: Seq<u8>| is_visible(v1, c) == is_visible(v2, c) by {
        if is_visible(v1, c) {
            let k = choose|k: int| 0 <= k < ids_of(v1).len() && #[trigger] ids_of(v1)[k]@ == c;
            assert(v1.contains(v1[k]));
            let m = choose|m: int| 0 <= m < v2.len() && v2[m] == v1[k];
            assert(ids_of(v2)[m]@ == c);
        }
        if is_visible(v2, c) {
            let k = choose|k: int| 0 <= k < ids_of(v2).len() && #[trigger] ids_of(v2)[k]@ == c;
            assert(v2.contains(v2[k]));
            let m = choose|m: int| 0 <= m < v1.len() && v1[m] == v2[k];
            assert(ids_of(v1)[m]@ == c);
        }
    }
    assert forall|c: Seq<u8>| is_superseded(v1, c) == is_superseded(v2, c) by {
        if is_superseded(v1, c) {
            let k = choose|k: int|
                0 <= k < v1.len() && (#[trigger] v1[k].facts.supersedes matches Some(t) && t@ == c);
            assert(v1.contains(v1[k]));
            let m = choose|m: int| 0 <= m < v2.len() && v2[m] == v1[k];
            assert(v2[m].facts.supersedes == v1[k].facts.supersedes);
        }
        if is_superseded(v2, c) {
            let k = choose|k: int|
                0 <= k < v2.len() && (#[trigger] v2[k].facts.supersedes matches Some(t) && t@ == c);
            assert(v2.contains(v2[k]));
            let m = choose|m: int| 0 <= m < v1.len() && v1[m] == v2[k];
            assert(v1[m].facts.supersedes == v2[k].facts.supersedes);
        }
    }
    lemma_edge_pairs_from(v1, v1.len() as int);
    lemma_edge_pairs_from(v2, v2.len() as int);
    assert(v1.take(v1.len() as int) =~= v1);
    assert(v2.take(v2.len() as int) =~= v2);
    lemma_edges_from_same_visibility(v1, v1, v2);
    lemma_edges_from_permutation(v1, v2, v2);
}

/// No two visible data share a content id (as in a content set).
pub open spec fn distinct_ids(vis: Seq<VisibleDatum>) -> bool {
    forall|i: int, j: int| 0 <= i < j < vis.len() ==> #[trigger] vis[i].id@ != #[trigger] vis[j].id@
}

/// The projection depends only on the set of visible data: two lists of the
/// same data, each without repeated ids, give every datum the same node and the
/// same ownership edges (counted with multiplicity).
pub proof fn law_graph_same_visible_set(
    v1: Seq<VisibleDatum>,
    v2: Seq<VisibleDatum>,
    markers: MarkerTable,
    type_marker: Seq<u8>,
)
    requires
        distinct_ids(v1),
        distinct_ids(v2),
        forall|x: VisibleDatum| v1.contains(x) <==> v2.contains(x),
    ensures
        v1.len() == v2.len(),
        forall|n: Node, v: VisibleDatum|
            node_matches(n, v, v1, markers, type_marker) == node_matches(
                n,
                v,
                v2,
                markers,
                type_marker,
            ),
        edge_pairs(v1, v1.len() as int).to_multiset() =~= edge_pairs(
            v2,
            v2.len() as int,
        ).to_multiset(),
{
    broadcast use vstd::seq_lib::group_to_multiset_ensures;

    assert(v1.no_duplicates()) by {
        assert forall|i: int, j: int| 0 <= i < v1.len() && 0 <= j < v1.len() && i != j implies v1[i]
            != v1[j] by {
            if i < j {
                assert(v1[i].id@ != v1[j].id@);
            } else {
                assert(v1[j].id@ != v1[i].id@);
            }
        }
    }
    assert(v2.no_duplicates()) by {
        assert forall|i: int, j: int| 0 <= i < v2.len() && 0 <= j < v2.len() && i != j implies v2[i]
            != v2[j] by {
            if i < j {
                assert(v2[i].id@ != v2[j].id@);
            } else {
                assert(v2[j].id@ != v2[i].id@);
            }
        }
    }
    v1.lemma_multiset_has_no_duplicates();
    v2.lemma_multiset_has_no_duplicates();
    assert forall|x: VisibleDatum| v1.to_multiset().count(x) == v2.to_multiset().count(x) by {
        assert(v1.contains(x) <==> v1.to_multiset().count(x) > 0);
        assert(v2.contains(x) <==> v2.to_multiset().count(x) > 0);
        if v1.contains(x) {
            assert(v1.to_multiset().contains(x));
            assert(v2.to_multiset().contains(x));
        }
    }
    assert(v1.to_multiset() =~= v2.to_multiset());
    law_graph_order_independent(v1, v2, markers, type_marker);
}

// ---------------------------------------------------------------------------
// Single-datum reads
// ---------------------------------------------------------------------------

/// What a read of one visible datum reports: its kind, its payload as text (a
/// leaf's, with invalid UTF-8 replaced) and the hex ids of the contexts it owns.
pub struct DatumReport {
    pub kind: &'static str,
    pub payload: Option<String>,
    pub owns: Vec<String>,
}

pub fn datum_report(d: &DatumShape) -> (r: DatumReport)
    ensures
        r.kind@ == (if d.is_leaf_spec() {
            "leaf"@
        } else {
            "node"@
        }),
        match d {
            DatumShape::Leaf { payload } => r.payload matches Some(t) && t@ == utf8_lossy(payload@),
            DatumShape::Node { .. } => r.payload is None,
        },
        r.owns@.len() == d.owns_spec().len(),
        forall|j: int| 0 <= j < r.owns@.len() ==> #[trigger] r.owns@[j]@ == hex_text(d.owns_spec()[j]@),
{
    match d {
        DatumShape::Leaf { payload } => DatumReport {
            kind: "leaf",
            payload: Some(from_utf8_lossy(payload.as_slice())),
            owns: Vec::new(),
        },
        DatumShape::Node { owns } => DatumReport { kind: "node", payload: None, owns: owned_hex(owns) },
    }
}

// ---------------------------------------------------------------------------
// Subject changes and node appends
// ---------------------------------------------------------------------------

/// The subject a subject-change body selects: none when absent or blank, else
/// the content id it names.
pub open spec fn subject_choice_spec(subject: Option<Seq<char>>) -> Result<Option<Seq<u8>>, CidError> {
    match subject {
        Some(s) => if trim_spec(s).len() > 0 {
            match parse_cid_spec(s) {
                Ok(v) => Ok(Some(v)),
                Err(e) => Err(e),
            }
        } else {
            Ok(None)
        },
        None => Ok(None),
    }
}

pub fn subject_choice(req: &SetSubject) -> (r: Result<Option<ContentId>, CidError>)
    ensures
        match r {
            Ok(Some(c)) => subject_choice_spec(match req.subject {
                Some(s) => Some(s@),
                None => None,
            }) == Ok::<Option<Seq<u8>>, CidError>(Some(c@)),
            Ok(None) => subject_choice_spec(match req.subject {
                Some(s) => Some(s@),
                None => None,
            }) == Ok::<Option<Seq<u8>>, CidError>(None),
            Err(e) => subject_choice_spec(match req.subject {
                Some(s) => Some(s@),
                None => None,
            }) == Err::<Option<Seq<u8>>, CidError>(e),
        },
{
    match &req.subject {
        Some(s) => {
            if trim(s.as_str()).unicode_len() > 0 {
                match parse_cid(s.as_str()) {
                    Ok(c) => Ok(Some(c)),
                    Err(e) => Err(e),
                }
            } else {
                Ok(None)
            }
        },
        None => Ok(None),
    }
}

/// Why a node append body is refused.
#[derive(Clone, Copy, PartialEq, Eq, Structural, Debug)]
pub enum NodeError {
    /// An owned id is not a content id.
    Cid(CidError),
    /// The node owns nothing.
    Empty,
}

impl NodeError {
    pub fn message(&self) -> (r: &'static str)
        ensures
            *self == NodeError::Empty ==> r@ == "a node must own at least one context (§K2.1)"@,
            *self == NodeError::Cid(CidError::WrongLength) ==> r@
                == "content id must be exactly 64 hex chars (§5.2)"@,
            *self == NodeError::Cid(CidError::InvalidDigit) ==> r@
                == "invalid digit found in string"@,
    {
        match self {
            NodeError::Cid(e) => e.message(),
            NodeError::Empty => "a node must own at least one context (§K2.1)",
        }
    }
}

/// The first index whose text is not a content id, reading in order.
pub open spec fn first_bad_owned(owns: Seq<String>, k: int) -> bool {
    0 <= k < owns.len() && parse_cid_spec(owns[k]@) is Err && forall|j: int|
        0 <= j < k ==> #[trigger] parse_cid_spec(owns[j]@) is Ok
}

/// Reads the owned ids of a node append: each must be a content id (the first
/// failure is reported), and there must be at least one.
pub fn parse_owns(req: &AppendNode) -> (r: Result<Vec<ContentId>, NodeError>)
    ensures
        match r {
            Ok(ids) => req.owns@.len() > 0 && ids@.len() == req.owns@.len() && forall|k: int|
                0 <= k < ids@.len() ==> parse_cid_spec(#[trigger] req.owns@[k]@)
                    == Ok::<Seq<u8>, CidError>(ids@[k]@),
            Err(NodeError::Empty) => req.owns@.len() == 0,
            Err(NodeError::Cid(e)) => exists|k: int|
                first_bad_owned(req.owns@, k) && parse_cid_spec(req.owns@[k]@) == Err::<
                    Seq<u8>,
                    CidError,
                >(e),
        },
{
    let mut ids: Vec<ContentId> = Vec::new();
    let mut i: usize = 0;
    while i < req.owns.len()
        invariant
            i <= req.owns@.len(),
            ids@.len() == i,
            forall|k: int|
                0 <= k < i ==> parse_cid_spec(#[trigger] req.owns@[k]@) == Ok::<Seq<u8>, CidError>(
                    ids@[k]@,
                ),
        decreases req.owns.len() - i,
    {
        match parse_cid(req.owns[i].as_str()) {
            Ok(c) => {
                ids.push(c);
            },
            Err(e) => {
                proof {
                    assert(first_bad_owned(req.owns@, i as int));
                }
                return Err(NodeError::Cid(e));
            },
        }
        i = i + 1;
    }
    if ids.len() == 0 {
        return Err(NodeError::Empty);
    }
    Ok(ids)
}

// ---------------------------------------------------------------------------
// The data model's specification documents
// ---------------------------------------------------------------------------

/// One readable specification document: its id, file name and title.
pub struct SpecDoc {
    pub id: &'static str,
    pub file: &'static str,
    pub title: &'static str,
}

/// The specification document an id names.
pub fn spec_doc(id: &str) -> (r: Option<SpecDoc>)
    ensures
        id@ == "lakearch"@ ==> (r matches Some(d) && d.file@ == "lakearch.md"@ && d.title@
            == "lakearch — Das Datenmodell"@),
        id@ != "lakearch"@ && id@ == "encoding"@ ==> (r matches Some(d) && d.file@
            == "canonical-encoding.md"@ && d.title@
            == "Kanonische Kodierung & Inhalts-Identität (v1)"@),
        id@ != "lakearch"@ && id@ != "encoding"@ ==> r is None,
{
    if str_eq(id, "lakearch") {
        Some(SpecDoc { id: "lakearch", file: "lakearch.md", title: "lakearch — Das Datenmodell" })
    } else if str_eq(id, "encoding") {
        Some(
            SpecDoc {
                id: "encoding",
                file: "canonical-encoding.md",
                title: "Kanonische Kodierung & Inhalts-Identität (v1)",
            },
        )
    } else {
        None
    }
}

// ---------------------------------------------------------------------------
// Leaf append payloads
// ---------------------------------------------------------------------------

/// Why a leaf append body has no payload.
#[derive(Clone, Copy, PartialEq, Eq, Structural, Debug)]
pub enum PayloadError {
    /// The trimmed hex text has an odd number of bytes.
    OddHexLength,
    /// Some two-byte group is not two hexadecimal digits.
    InvalidDigit,
}

impl PayloadError {
    pub fn message(&self) -> (r: &'static str)
        ensures
            *self == PayloadError::OddHexLength ==> r@ == "hex must have even length"@,
            *self == PayloadError::InvalidDigit ==> r@ == "invalid digit found in string"@,
    {
        match self {
            PayloadError::OddHexLength => "hex must have even length",
            PayloadError::InvalidDigit => "invalid digit found in string",
        }
    }
}

/// The bytes of the trimmed hex text.
pub open spec fn hex_source(h: Seq<char>) -> Seq<u8> {
    encode_utf8(trim_spec(h))
}

/// Byte group `i` can be cut out of the text as a string slice.
pub open spec fn pair_slice_valid(b: Seq<u8>, i: int) -> bool {
    is_char_boundary(b, 2 * i) && is_char_boundary(b, 2 * i + 2)
}

/// Reading the first `n` groups would cut a character in two: the reader reaches,
/// with all earlier groups valid, a group that is not a string slice.
pub open spec fn pairs_panic(b: Seq<u8>, n: int) -> bool {
    exists|i: int|
        0 <= i < n && (forall|j: int| 0 <= j < i ==> #[trigger] pair_ok(b, j, true))
            && !#[trigger] pair_slice_valid(b, i)
}

/// Whether reading `n` byte groups of `t` would cut a character in two.
fn pairs_would_panic(t: &str, n: usize) -> (r: bool)
    requires
        2 * n <= t.spec_bytes().len(),
    ensures
        r == pairs_panic(t.spec_bytes(), n as int),
{
    let b = t.as_bytes();
    let blen = b.len();
    proof {
        broadcast use vstd::utf8::group_utf8_lib;

        assert(valid_utf8(b@));
    }
    let mut i: usize = 0;
    while i < n
        invariant
            i <= n,
            2 * n <= b@.len(),
            blen == b@.len(),
            b@ == t.spec_bytes(),
            valid_utf8(b@),
            forall|j: int| 0 <= j < i ==> #[trigger] pair_ok(b@, j, true),
            forall|j: int| 0 <= j < i ==> #[trigger] pair_slice_valid(b@, j),
        decreases n - i,
    {
        let lo_ok = t.is_char_boundary(2 * i);
        let hi_ok = t.is_char_boundary(2 * i + 2);
        assert(lo_ok == is_char_boundary(b@, 2 * i as int));
        assert(hi_ok == is_char_boundary(b@, 2 * i as int + 2));
        if !(lo_ok && hi_ok) {
            assert(!pair_slice_valid(b@, i as int));
            return true;
        }
        assert(pair_slice_valid(b@, i as int));
        if read_pair_of(true, b[2 * i], b[2 * i + 1]).is_none() {
            proof {
                assert forall|k: int|
                    0 <= k < n && (forall|j: int| 0 <= j < k ==> #[trigger] pair_ok(b@, j, true))
                    implies #[trigger] pair_slice_valid(b@, k) by {
                    if k > i {
                        assert(pair_ok(b@, i as int, true));
                    }
                }
            }
            return false;
        }
        i = i + 1;
    }
    false
}

/// Reading the hex text would cut a character in two.
pub open spec fn hex_payload_panics(h: Seq<char>) -> bool {
    let b = hex_source(h);
    b.len() % 2 == 0 && pairs_panic(b, (b.len() / 2) as int)
}

/// The bytes a hex text denotes.
pub open spec fn hex_payload_spec(h: Seq<char>) -> Result<Seq<u8>, PayloadError> {
    let b = hex_source(h);
    if b.len() % 2 != 0 {
        Err(PayloadError::OddHexLength)
    } else if !pairs_ok(b, (b.len() / 2) as int, true) {
        Err(PayloadError::InvalidDigit)
    } else {
        Ok(pairs_value(b, (b.len() / 2) as int, true))
    }
}

/// Whether reading `h` as hex bytes would cut a character in two (the texts that
/// `decode_hex_payload` does not take).
pub fn hex_payload_would_panic(h: &str) -> (r: bool)
    ensures
        r == hex_payload_panics(h@),
{
    let t = trim(h);
    let n = t.as_bytes().len();
    if n % 2 != 0 {
        return false;
    }
    pairs_would_panic(t, n / 2)
}

/// Reads hex text (surrounding white space ignored) as bytes, one per two-byte
/// group as `u8::from_str_radix(.., 16)` reads it: two hex digits (either case),
/// or `+` and one hex digit; anything else is an error.
pub fn decode_hex_payload(h: &str) -> (r: Result<Vec<u8>, PayloadError>)
    requires
        !hex_payload_panics(h@),
    ensures
        match r {
            Ok(v) => hex_payload_spec(h@) == Ok::<Seq<u8>, PayloadError>(v@),
            Err(e) => hex_payload_spec(h@) == Err::<Seq<u8>, PayloadError>(e),
        },
{
    let t = trim(h);
    let b = t.as_bytes();
    if b.len() % 2 != 0 {
        return Err(PayloadError::OddHexLength);
    }
    match read_pairs(b, b.len() / 2, true) {
        None => Err(PayloadError::InvalidDigit),
        Some(v) => Ok(v),
    }
}

/// The payload of a leaf append: the text's UTF-8 bytes, else the hex bytes,
/// else nothing.
pub open spec fn leaf_payload_spec(req: AppendLeaf) -> Result<Seq<u8>, PayloadError> {
    match req.text {
        Some(t) => Ok(encode_utf8(t@)),
        None => match req.hex {
            Some(h) => hex_payload_spec(h@),
            None => Ok(Seq::empty()),
        },
    }
}

pub open spec fn leaf_payload_panics(req: AppendLeaf) -> bool {
    req.text is None && (req.hex matches Some(h) && hex_payload_panics(h@))
}

pub fn leaf_payload(req: &AppendLeaf) -> (r: Result<Vec<u8>, PayloadError>)
    requires
        !leaf_payload_panics(*req),
    ensures
        match r {
            Ok(v) => leaf_payload_spec(*req) == Ok::<Seq<u8>, PayloadError>(v@),
            Err(e) => leaf_payload_spec(*req) == Err::<Seq<u8>, PayloadError>(e),
        },
{
    match &req.text {
        Some(t) => Ok(t.as_str().as_bytes_vec()),
        None => match &req.hex {
            Some(h) => decode_hex_payload(h.as_str()),
            None => Ok(Vec::new()),
        },
    }
}

/// The type of the live event an append emits: `dedup` when the datum was
/// already present, else `node_added`.
pub fn append_event_type(deduped: bool) -> (r: &'static str)
    ensures
        deduped ==> r@ == "dedup"@,
        !deduped ==> r@ == "node_added"@,
{
    if deduped {
        "dedup"
    } else {
        "node_added"
    }
}

} // verus!
