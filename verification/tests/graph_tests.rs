use hatchery::api::{build_graph, VisibleDatum};
use hatchery::cid::{cid_hex, ContentId};
use hatchery::roles::{classify, DatumShape, RoleFacts};
use hatchery::vocab::{IdentityStrength, MarkerKind, MarkerTable};

fn id(n: u8) -> ContentId {
    ContentId::from_bytes([n; 32])
}

fn no_facts() -> RoleFacts {
    RoleFacts {
        anchor: false,
        identity: None,
        active_marker: false,
        recording_time: false,
        validity_time: false,
        supersedes: None,
        area_membership: false,
        revocation: false,
        curation_hide: false,
        curation_unhide: false,
        curation_replace: false,
        erasure_audit: false,
        origin: false,
        permission: false,
        membership: false,
        placeholder: false,
    }
}

fn leaf(p: &[u8]) -> DatumShape {
    DatumShape::Leaf { payload: p.to_vec() }
}

fn node(owns: Vec<ContentId>) -> DatumShape {
    DatumShape::Node { owns }
}

#[test]
fn classify_marker_and_plain_leaves() {
    let mut markers = MarkerTable::new();
    markers.register(id(9), MarkerKind::Supersession);
    let tm = id(200);
    let (role, label) = classify(&id(9), &leaf(b"x"), &no_facts(), &markers, &tm);
    assert_eq!((role, label.as_str()), ("marker", "supersedes"));
    let (role, label) = classify(&id(1), &leaf(b"Alice"), &no_facts(), &markers, &tm);
    assert_eq!((role, label.as_str()), ("leaf", "Alice"));
}

#[test]
fn classify_node_roles_most_specific_first() {
    let markers = MarkerTable::new();
    let tm = id(200);
    let mut f = no_facts();
    f.identity = Some(IdentityStrength::Ergaenzt);
    f.origin = true;
    let (role, label) = classify(&id(3), &node(vec![id(1)]), &f, &markers, &tm);
    assert_eq!((role, label.as_str()), ("identity", "≈ identity:ergaenzt"));
    f.anchor = true;
    let (role, label) = classify(&id(3), &node(vec![id(1)]), &f, &markers, &tm);
    assert_eq!((role, label.as_str()), ("anchor", "⚓ anchor"));
    let mut g = no_facts();
    g.supersedes = Some(id(1));
    let (role, _) = classify(&id(3), &node(vec![id(1)]), &g, &markers, &tm);
    assert_eq!(role, "supersedes");
    let mut h = no_facts();
    h.permission = true;
    h.membership = true;
    let (role, label) = classify(&id(3), &node(vec![id(1)]), &h, &markers, &tm);
    assert_eq!((role, label.as_str()), ("permission", "🔑 permission"));
}

#[test]
fn classify_type_context_and_plain_node() {
    let markers = MarkerTable::new();
    let tm = id(200);
    let (role, label) = classify(&id(3), &node(vec![id(1), id(200)]), &no_facts(), &markers, &tm);
    assert_eq!((role, label.as_str()), ("type-context", "⌖ type"));
    let owns: Vec<ContentId> = (1..=12).map(id).collect();
    let (role, label) = classify(&id(3), &node(owns), &no_facts(), &markers, &tm);
    assert_eq!((role, label.as_str()), ("node", "⊳12"));
}

#[test]
fn graph_projects_nodes_edges_and_supersession() {
    let mut markers = MarkerTable::new();
    markers.register(id(5), MarkerKind::Supersession);
    let tm = id(200);
    let mut sup = no_facts();
    sup.supersedes = Some(id(1));
    let visible = vec![
        VisibleDatum { id: id(1), datum: leaf(b"doc-v1"), facts: no_facts() },
        VisibleDatum { id: id(5), datum: leaf(b"m"), facts: no_facts() },
        // Owns a visible leaf and a datum the reader may not see (id 77).
        VisibleDatum { id: id(3), datum: node(vec![id(1), id(77)]), facts: no_facts() },
        VisibleDatum { id: id(4), datum: node(vec![id(5), id(1)]), facts: sup },
    ];
    let g = build_graph(&visible, Some(id(4)), &markers, &tm);
    assert_eq!(g.nodes.len(), 4);
    assert_eq!(g.nodes[0].id, cid_hex(&id(1)));
    assert_eq!(g.nodes[0].kind, "leaf");
    assert_eq!(g.nodes[0].label, "doc-v1");
    assert!(g.nodes[0].superseded);
    assert!(!g.nodes[2].superseded);
    assert!(g.nodes[1].is_marker);
    assert_eq!(g.nodes[1].role, "marker");
    assert_eq!(g.nodes[2].owns, vec![cid_hex(&id(1)), cid_hex(&id(77))]);
    assert_eq!(g.nodes[2].label, "⊳2");
    assert_eq!(g.nodes[3].role, "supersedes");
    // Edges only to visible data: 3→1, 4→5, 4→1 (not 3→77).
    assert_eq!(g.edges.len(), 3);
    assert_eq!(g.edges[0].from, cid_hex(&id(3)));
    assert_eq!(g.edges[0].to, cid_hex(&id(1)));
    assert_eq!(g.edges[1].to, cid_hex(&id(5)));
    assert_eq!(g.edges[2].to, cid_hex(&id(1)));
    assert!(g.edges.iter().all(|e| e.kind == "owns"));
    assert_eq!(g.subject, Some(cid_hex(&id(4))));
}

#[test]
fn graph_of_nothing_is_empty() {
    let g = build_graph(&Vec::new(), None, &MarkerTable::new(), &id(0));
    assert!(g.nodes.is_empty());
    assert!(g.edges.is_empty());
    assert_eq!(g.subject, None);
}

#[test]
fn graph_does_not_depend_on_the_order_of_the_data() {
    let markers = MarkerTable::new();
    let tm = id(200);
    let sup = || {
        let mut f = no_facts();
        f.supersedes = Some(id(1));
        f
    };
    let data = |order: &[u8]| -> Vec<VisibleDatum> {
        order
            .iter()
            .map(|n| match n {
                1 => VisibleDatum { id: id(1), datum: leaf(b"a"), facts: no_facts() },
                2 => VisibleDatum { id: id(2), datum: node(vec![id(1), id(7)]), facts: no_facts() },
                _ => VisibleDatum { id: id(3), datum: node(vec![id(1), id(2)]), facts: sup() },
            })
            .collect()
    };
    let g1 = build_graph(&data(&[1, 2, 3]), None, &markers, &tm);
    let g2 = build_graph(&data(&[3, 1, 2]), None, &markers, &tm);
    let mut n1: Vec<_> = g1.nodes.iter().map(|n| (n.id.clone(), n.role, n.label.clone(), n.superseded)).collect();
    let mut n2: Vec<_> = g2.nodes.iter().map(|n| (n.id.clone(), n.role, n.label.clone(), n.superseded)).collect();
    n1.sort();
    n2.sort();
    assert_eq!(n1, n2);
    let mut e1: Vec<_> = g1.edges.iter().map(|e| (e.from.clone(), e.to.clone())).collect();
    let mut e2: Vec<_> = g2.edges.iter().map(|e| (e.from.clone(), e.to.clone())).collect();
    e1.sort();
    e2.sort();
    assert_eq!(e1, e2);
    assert_eq!(e1.len(), 3);
}
