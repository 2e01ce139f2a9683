//! The graph model handed to the browser: a node is a datum, an edge is an
//! ownership `A ⊳ K`.

use vstd::prelude::*;

verus! {

/// One datum, ready to float.
#[derive(Clone)]
pub struct Node {
    /// Content id (hex).
    pub id: String,
    /// "leaf" or "node".
    pub kind: &'static str,
    /// Role class (drives the color).
    pub role: &'static str,
    pub label: String,
    /// Owned context ids (hex).
    pub owns: Vec<String>,
    /// True for a well-known marker leaf.
    pub is_marker: bool,
    /// True if some visible datum supersedes this one.
    pub superseded: bool,
}

/// An ownership edge `from ⊳ to`; `kind` is "owns".
#[derive(Clone)]
pub struct Edge {
    pub from: String,
    pub to: String,
    pub kind: &'static str,
}

/// A projection of the visible data for the current view.
#[derive(Clone)]
pub struct GraphSnapshot {
    pub nodes: Vec<Node>,
    pub edges: Vec<Edge>,
    /// The active read subject (hex), or none for the admin projection.
    pub subject: Option<String>,
}

} // verus!
