//! The canvas aggregate: the full set of nodes and edges, the uniqueness and
//! referential-integrity rules of the insertion API, and the document-level
//! entry points.
//!
//! Insertion is strict: a repeated identifier or a dangling edge endpoint is
//! rejected and the canvas is left untouched. Loading is lenient: a parsed
//! document may hold edges whose endpoints are not in the node set; callers
//! that need strict documents re-validate after parsing.

use vstd::prelude::*;

use crate::codec::{
    canvas_parse, canvas_text, decode_canvas, encode_canvas, seq_has_edge_id, seq_has_node_id,
};
use crate::edge::{edge_wf, Edge, EdgeV};
use crate::error::{ParseError, ParseErrorV};
use crate::id::{EdgeId, NodeId};
use crate::node::{node_generic, node_wf, GenericNodeInfo, Node, NodeV};
use crate::text::str_eq;

verus! {

/// Ghost mirror of [`JsonCanvas`].
#[verifier::ext_equal]
pub struct CanvasV {
    pub nodes: Seq<NodeV>,
    pub edges: Seq<EdgeV>,
}

/// The elementwise view of a node sequence.
pub open spec fn nodes_view(v: Seq<Node>) -> Seq<NodeV> {
    Seq::new(v.len(), |i: int| v[i]@)
}

/// The elementwise view of an edge sequence.
pub open spec fn edges_view(v: Seq<Edge>) -> Seq<EdgeV> {
    Seq::new(v.len(), |i: int| v[i]@)
}

/// A well-formed canvas: every node and edge well formed, node identifiers
/// pairwise distinct, edge identifiers pairwise distinct. Edge endpoints are
/// not part of this: a loaded document may reference absent nodes.
pub open spec fn canvas_wf(c: CanvasV) -> bool {
    &&& forall|i: int| 0 <= i < c.nodes.len() ==> node_wf(#[trigger] c.nodes[i])
    &&& forall|i: int, j: int|
        0 <= i < j < c.nodes.len() ==> node_generic(#[trigger] c.nodes[i]).id != node_generic(
            #[trigger] c.nodes[j],
        ).id
    &&& forall|i: int| 0 <= i < c.edges.len() ==> edge_wf(#[trigger] c.edges[i])
    &&& forall|i: int, j: int|
        0 <= i < j < c.edges.len() ==> (#[trigger] c.edges[i]).id != (#[trigger] c.edges[j]).id
}

/// Ghost mirror of [`JsonCanvasError`].
#[verifier::ext_equal]
pub enum JsonCanvasErrorV {
    NodeExists(Seq<char>),
    EdgeExists(Seq<char>),
    NodeNotExists(Seq<char>),
    ParseError(ParseErrorV),
}

/// What the canvas API can fail with: a duplicate node or edge identifier,
/// a dangling edge endpoint at insertion, or a document parse error.
#[derive(Debug)]
pub enum JsonCanvasError {
    NodeExists(NodeId),
    EdgeExists(EdgeId),
    NodeNotExists(NodeId),
    ParseError(ParseError),
}

impl View for JsonCanvasError {
    type V = JsonCanvasErrorV;

    open spec fn view(&self) -> JsonCanvasErrorV {
        match self {
            JsonCanvasError::NodeExists(id) => JsonCanvasErrorV::NodeExists(id@),
            JsonCanvasError::EdgeExists(id) => JsonCanvasErrorV::EdgeExists(id@),
            JsonCanvasError::NodeNotExists(id) => JsonCanvasErrorV::NodeNotExists(id@),
            JsonCanvasError::ParseError(e) => JsonCanvasErrorV::ParseError(e@),
        }
    }
}

/// The full document: a set of nodes and a set of edges, in insertion
/// order, keyed by their own identifiers.
#[derive(Debug)]
pub struct JsonCanvas {
    nodes: Vec<Node>,
    edges: Vec<Edge>,
}

impl View for JsonCanvas {
    type V = CanvasV;

    closed spec fn view(&self) -> CanvasV {
        CanvasV { nodes: nodes_view(self.nodes@), edges: edges_view(self.edges@) }
    }
}

impl Default for JsonCanvas {
    fn default() -> (r: JsonCanvas)
        ensures
            r@.nodes.len() == 0,
            r@.edges.len() == 0,
    {
        JsonCanvas { nodes: Vec::new(), edges: Vec::new() }
    }
}

impl JsonCanvas {
    /// An empty canvas.
    pub fn new() -> (r: JsonCanvas)
        ensures
            r@.nodes.len() == 0,
            r@.edges.len() == 0,
    {
        JsonCanvas { nodes: Vec::new(), edges: Vec::new() }
    }

    pub(crate) fn from_parts(nodes: Vec<Node>, edges: Vec<Edge>) -> (r: JsonCanvas)
        ensures
            r@ == (CanvasV { nodes: nodes_view(nodes@), edges: edges_view(edges@) }),
    {
        JsonCanvas { nodes, edges }
    }

    fn has_node_id(&self, id: &str) -> (r: bool)
        ensures
            r == seq_has_node_id(self@.nodes, id@),
    {
        let n = self.nodes.len();
        let mut k: usize = 0;
        while k < n
            invariant
                n == self.nodes@.len(),
                k <= n,
                forall|t: int|
                    0 <= t < k ==> node_generic(#[trigger] nodes_view(self.nodes@)[t]).id != id@,
            decreases n - k,
        {
            if str_eq(self.nodes[k].id().as_str(), id) {
                proof {
                    assert(node_generic(nodes_view(self.nodes@)[k as int]).id == id@);
                }
                return true;
            }
            k += 1;
        }
        false
    }

    fn has_edge_id(&self, id: &str) -> (r: bool)
        ensures
            r == seq_has_edge_id(self@.edges, id@),
    {
        let n = self.edges.len();
        let mut k: usize = 0;
        while k < n
            invariant
                n == self.edges@.len(),
                k <= n,
                forall|t: int| 0 <= t < k ==> (#[trigger] edges_view(self.edges@)[t]).id != id@,
            decreases n - k,
        {
            if str_eq(self.edges[k].id().as_str(), id) {
                proof {
                    assert(edges_view(self.edges@)[k as int].id == id@);
                }
                return true;
            }
            k += 1;
        }
        false
    }

    /// Inserts a node. Fails with `NodeExists` when a node with the same
    /// identifier is already present, leaving the canvas unchanged.
    pub fn add_node(&mut self, node: Node) -> (r: Result<(), JsonCanvasError>)
        ensures
            match r {
                Ok(_) => !seq_has_node_id(old(self)@.nodes, node_generic(node@).id)
                    && final(self)@ == (CanvasV {
                    nodes: old(self)@.nodes.push(node@),
                    edges: old(self)@.edges,
                }),
                Err(e) => seq_has_node_id(old(self)@.nodes, node_generic(node@).id)
                    && final(self)@ == old(self)@ && e@ == JsonCanvasErrorV::NodeExists(
                    node_generic(node@).id,
                ),
            },
    {
        if self.has_node_id(node.id().as_str()) {
            let id = node.id().clone();
            return Err(JsonCanvasError::NodeExists(id));
        }
        self.nodes.push(node);
        proof {
            assert(nodes_view(self.nodes@) =~= nodes_view(old(self).nodes@).push(node@));
            assert(final(self)@ =~= (CanvasV {
                nodes: old(self)@.nodes.push(node@),
                edges: old(self)@.edges,
            }));
        }
        Ok(())
    }

    /// Inserts an edge. Fails with `EdgeExists` on a repeated edge
    /// identifier and with `NodeNotExists` when either endpoint names a node
    /// the canvas does not hold; a failure leaves the canvas unchanged.
    pub fn add_edge(&mut self, edge: Edge) -> (r: Result<(), JsonCanvasError>)
        ensures
            match r {
                Ok(_) => !seq_has_edge_id(old(self)@.edges, edge@.id) && seq_has_node_id(
                    old(self)@.nodes,
                    edge@.from_node,
                ) && seq_has_node_id(old(self)@.nodes, edge@.to_node) && final(self)@ == (CanvasV {
                    nodes: old(self)@.nodes,
                    edges: old(self)@.edges.push(edge@),
                }),
                Err(e) => final(self)@ == old(self)@ && match e@ {
                    JsonCanvasErrorV::EdgeExists(id) => id == edge@.id && seq_has_edge_id(
                        old(self)@.edges,
                        edge@.id,
                    ),
                    JsonCanvasErrorV::NodeNotExists(id) => !seq_has_edge_id(
                        old(self)@.edges,
                        edge@.id,
                    ) && !seq_has_node_id(old(self)@.nodes, id) && (id == edge@.from_node || (id
                        == edge@.to_node && seq_has_node_id(
                        old(self)@.nodes,
                        edge@.from_node,
                    ))),
                    _ => false,
                },
            },
    {
        if self.has_edge_id(edge.id().as_str()) {
            let id = edge.id().clone();
            return Err(JsonCanvasError::EdgeExists(id));
        }
        if !self.has_node_id(edge.from_node().as_str()) {
            let id = edge.from_node().clone();
            return Err(JsonCanvasError::NodeNotExists(id));
        }
        if !self.has_node_id(edge.to_node().as_str()) {
            let id = edge.to_node().clone();
            return Err(JsonCanvasError::NodeNotExists(id));
        }
        self.edges.push(edge);
        proof {
            assert(edges_view(self.edges@) =~= edges_view(old(self).edges@).push(edge@));
            assert(final(self)@ =~= (CanvasV {
                nodes: old(self)@.nodes,
                edges: old(self)@.edges.push(edge@),
            }));
        }
        Ok(())
    }

    /// The node with this identifier, if the canvas holds one.
    pub fn get_node(&self, id: &NodeId) -> (r: Option<&Node>)
        ensures
            match r {
                Some(n) => node_generic(n@).id == id@ && exists|i: int|
                    0 <= i < self@.nodes.len() && #[trigger] self@.nodes[i] == n@,
                None => !seq_has_node_id(self@.nodes, id@),
            },
    {
        let n = self.nodes.len();
        let mut k: usize = 0;
        while k < n
            invariant
                n == self.nodes@.len(),
                k <= n,
                forall|t: int|
                    0 <= t < k ==> node_generic(#[trigger] nodes_view(self.nodes@)[t]).id != id@,
            decreases n - k,
        {
            if str_eq(self.nodes[k].id().as_str(), id.as_str()) {
                proof {
                    assert(self@.nodes[k as int] == self.nodes@[k as int]@);
                }
                return Some(&self.nodes[k]);
            }
            k += 1;
        }
        None
    }

    /// The edge with this identifier, if the canvas holds one.
    pub fn get_edge(&self, id: &EdgeId) -> (r: Option<&Edge>)
        ensures
            match r {
                Some(e) => e@.id == id@ && exists|i: int|
                    0 <= i < self@.edges.len() && #[trigger] self@.edges[i] == e@,
                None => !seq_has_edge_id(self@.edges, id@),
            },
    {
        let n = self.edges.len();
        let mut k: usize = 0;
        while k < n
            invariant
                n == self.edges@.len(),
                k <= n,
                forall|t: int| 0 <= t < k ==> (#[trigger] edges_view(self.edges@)[t]).id != id@,
            decreases n - k,
        {
            if str_eq(self.edges[k].id().as_str(), id.as_str()) {
                proof {
                    assert(self@.edges[k as int] == self.edges@[k as int]@);
                }
                return Some(&self.edges[k]);
            }
            k += 1;
        }
        None
    }

    /// All nodes, in insertion order.
    pub fn get_nodes(&self) -> (r: &Vec<Node>)
        ensures
            nodes_view(r@) == self@.nodes,
    {
        &self.nodes
    }

    /// All edges, in insertion order.
    pub fn get_edges(&self) -> (r: &Vec<Edge>)
        ensures
            edges_view(r@) == self@.edges,
    {
        &self.edges
    }

    /// The document text of this canvas: `nodes` and `edges` arrays in
    /// insertion order, each omitted entirely when empty.
    pub fn to_string(&self) -> (r: String)
        ensures
            r@ == canvas_text(self@),
    {
        let doc = encode_canvas(self);
        crate::json::render_document(&doc)
    }

    /// Parses a document text, rebuilding the canvas from its arrays. The
    /// result is exactly what [`canvas_parse`] ascribes to the text: `Ok` on
    /// precisely the well-formed documents, and the first decode error
    /// otherwise, wrapped in `ParseError`.
    pub fn from_str(s: &str) -> (r: Result<JsonCanvas, JsonCanvasError>)
        ensures
            match r {
                Ok(c) => canvas_parse(s@) == Ok::<CanvasV, ParseErrorV>(c@),
                Err(e) => e@ matches JsonCanvasErrorV::ParseError(pe) && canvas_parse(s@)
                    == Err::<CanvasV, ParseErrorV>(pe),
            },
    {
        match crate::json::parse_document(s) {
            Ok(doc) => match decode_canvas(&doc) {
                Ok(c) => Ok(c),
                Err(e) => Err(JsonCanvasError::ParseError(e)),
            },
            Err(e) => Err(JsonCanvasError::ParseError(e)),
        }
    }
}

} // verus!
