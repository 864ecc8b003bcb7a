//! The executable encoders, each proved against its wire specification.

use vstd::prelude::*;

use crate::edge::{Edge, End, Side};
use crate::json::{jarr_view, jobj_view, lemma_jarr_view_push, Json, JsonV};
use crate::jsoncanvas::JsonCanvas;
use crate::node::{BackgroundStyle, GenericNodeInfo, Node};

use super::{
    canvas_json, edge_json, edges_json, end_text, generic_fields, node_json, nodes_json,
    num_of_i64, opt_field, side_text, style_text, type_tag, variant_fields,
};

verus! {

fn num_json_i64(x: i64) -> (r: Json)
    ensures
        r@ == num_of_i64(x),
{
    if x < 0 {
        let mag: u64 = if x == i64::MIN {
            9223372036854775808u64
        } else {
            (-x) as u64
        };
        Json::Num { neg: true, mag }
    } else {
        Json::Num { neg: false, mag: x as u64 }
    }
}

fn side_token(s: &Side) -> (r: String)
    ensures
        r@ == side_text(*s),
{
    match s {
        Side::Top => String::from_str("top"),
        Side::Left => String::from_str("left"),
        Side::Right => String::from_str("right"),
        Side::Bottom => String::from_str("bottom"),
    }
}

fn end_token(e: &End) -> (r: String)
    ensures
        r@ == end_text(*e),
{
    match e {
        End::NoArrow => String::from_str("none"),
        End::Arrow => String::from_str("arrow"),
    }
}

fn style_token(b: &BackgroundStyle) -> (r: String)
    ensures
        r@ == style_text(*b),
{
    match b {
        BackgroundStyle::Cover => String::from_str("cover"),
        BackgroundStyle::Ratio => String::from_str("ratio"),
        BackgroundStyle::Repeat => String::from_str("repeat"),
    }
}

/// Encodes one node as its flat wire object: generic fields, `type` tag,
/// variant fields, optional fields only when set.
pub fn encode_node(n: &Node) -> (r: Json)
    ensures
        r@ == node_json(n@),
{
    let mut fields: Vec<(String, Json)> = Vec::new();
    let ghost g = crate::node::node_generic(n@);
    fields.push((String::from_str("id"), Json::Str(String::from_str(n.id().as_str()))));
    fields.push((String::from_str("x"), num_json_i64(n.get_x())));
    fields.push((String::from_str("y"), num_json_i64(n.get_y())));
    fields.push((String::from_str("width"), Json::Num { neg: false, mag: n.get_width() }));
    fields.push((String::from_str("height"), Json::Num { neg: false, mag: n.get_height() }));
    match n.color() {
        Some(c) => {
            fields.push((String::from_str("color"), Json::Str(c.encode())));
        },
        None => {},
    }
    proof {
        crate::json::lemma_jobj_view(fields@);
        assert(jobj_view(fields@) =~= generic_fields(g));
    }
    let tag: &str = match n {
        Node::Text(_) => "text",
        Node::File(_) => "file",
        Node::Link(_) => "link",
        Node::Group(_) => "group",
    };
    fields.push((String::from_str("type"), Json::Str(String::from_str(tag))));
    match n {
        Node::Text(t) => {
            fields.push((String::from_str("text"), Json::Str(String::from_str(t.text()))));
        },
        Node::File(f) => {
            fields.push((String::from_str("file"), Json::Str(String::from_str(f.file()))));
            match f.subpath() {
                Some(sp) => {
                    fields.push((String::from_str("subpath"), Json::Str(sp.clone())));
                },
                None => {},
            }
        },
        Node::Link(l) => {
            fields.push((String::from_str("url"), Json::Str(String::from_str(l.url()))));
        },
        Node::Group(gr) => {
            match gr.label() {
                Some(lb) => {
                    fields.push((String::from_str("label"), Json::Str(lb.clone())));
                },
                None => {},
            }
            match gr.background() {
                Some(b) => {
                    fields.push((
                        String::from_str("background"),
                        Json::Str(String::from_str(b.image())),
                    ));
                    match b.background_style() {
                        Some(st) => {
                            fields.push((
                                String::from_str("backgroundStyle"),
                                Json::Str(style_token(st)),
                            ));
                        },
                        None => {},
                    }
                },
                None => {},
            }
        },
    }
    proof {
        crate::json::lemma_jobj_view(fields@);
        assert(jobj_view(fields@) =~= generic_fields(g) + seq![
            ("type"@, JsonV::Str(type_tag(n@))),
        ] + variant_fields(n@));
        assert(JsonV::Obj(jobj_view(fields@)) == node_json(n@));
    }
    Json::Obj(fields)
}

/// Encodes one edge as its wire object, optional fields only when set.
#[verifier::rlimit(100)]
#[verifier::spinoff_prover]
pub fn encode_edge(e: &Edge) -> (r: Json)
    ensures
        r@ == edge_json(e@),
{
    let mut fields: Vec<(String, Json)> = Vec::new();
    fields.push((String::from_str("id"), Json::Str(String::from_str(e.id().as_str()))));
    fields.push((
        String::from_str("fromNode"),
        Json::Str(String::from_str(e.from_node().as_str())),
    ));
    let ghost p1 = seq![("id"@, JsonV::Str(e@.id)), ("fromNode"@, JsonV::Str(e@.from_node))];
    proof {
        crate::json::lemma_jobj_view(fields@);
        assert(jobj_view(fields@) =~= p1);
    }
    match e.from_side() {
        Some(s) => {
            fields.push((String::from_str("fromSide"), Json::Str(side_token(s))));
        },
        None => {},
    }
    let ghost p2 = p1 + opt_field(
        "fromSide"@,
        match e@.from_side {
            Some(s) => Some(JsonV::Str(side_text(s))),
            None => None,
        },
    );
    proof {
        crate::json::lemma_jobj_view(fields@);
        assert(jobj_view(fields@) =~= p2);
    }
    match e.from_end() {
        Some(x) => {
            fields.push((String::from_str("fromEnd"), Json::Str(end_token(x))));
        },
        None => {},
    }
    fields.push((
        String::from_str("toNode"),
        Json::Str(String::from_str(e.to_node().as_str())),
    ));
    let ghost p3 = p2 + opt_field(
        "fromEnd"@,
        match e@.from_end {
            Some(x) => Some(JsonV::Str(end_text(x))),
            None => None,
        },
    ) + seq![("toNode"@, JsonV::Str(e@.to_node))];
    proof {
        crate::json::lemma_jobj_view(fields@);
        assert(jobj_view(fields@) =~= p3);
    }
    match e.to_side() {
        Some(s) => {
            fields.push((String::from_str("toSide"), Json::Str(side_token(s))));
        },
        None => {},
    }
    match e.to_end() {
        Some(x) => {
            fields.push((String::from_str("toEnd"), Json::Str(end_token(x))));
        },
        None => {},
    }
    let ghost p4 = p3 + opt_field(
        "toSide"@,
        match e@.to_side {
            Some(s) => Some(JsonV::Str(side_text(s))),
            None => None,
        },
    ) + opt_field(
        "toEnd"@,
        match e@.to_end {
            Some(x) => Some(JsonV::Str(end_text(x))),
            None => None,
        },
    );
    proof {
        crate::json::lemma_jobj_view(fields@);
        assert(jobj_view(fields@) =~= p4);
    }
    match e.color() {
        Some(c) => {
            fields.push((String::from_str("color"), Json::Str(c.encode())));
        },
        None => {},
    }
    match e.label() {
        Some(lb) => {
            fields.push((String::from_str("label"), Json::Str(lb.clone())));
        },
        None => {},
    }
    let ghost p5 = p4 + opt_field(
        "color"@,
        match e@.color {
            Some(c) => Some(JsonV::Str(crate::color::color_text(c))),
            None => None,
        },
    ) + opt_field(
        "label"@,
        match e@.label {
            Some(lb) => Some(JsonV::Str(lb)),
            None => None,
        },
    );
    proof {
        crate::json::lemma_jobj_view(fields@);
        assert(jobj_view(fields@) =~= p5);
        assert(p5 =~= edge_json(e@)->Obj_0);
        assert(JsonV::Obj(jobj_view(fields@)) == edge_json(e@));
    }
    Json::Obj(fields)
}

/// Encodes a whole canvas: the `nodes` and `edges` arrays, each omitted
/// entirely when empty.
pub fn encode_canvas(c: &JsonCanvas) -> (r: Json)
    ensures
        r@ == canvas_json(c@),
{
    let mut fields: Vec<(String, Json)> = Vec::new();
    let nodes = c.get_nodes();
    if nodes.len() > 0 {
        let mut arr: Vec<Json> = Vec::new();
        let n = nodes.len();
        let mut k: usize = 0;
        while k < n
            invariant
                n == nodes@.len(),
                crate::jsoncanvas::nodes_view(nodes@) == c@.nodes,
                k <= n,
                jarr_view(arr@) =~= nodes_json(c@.nodes).take(k as int),
            decreases n - k,
        {
            let ghost arr0 = arr@;
            let j = encode_node(&nodes[k]);
            arr.push(j);
            proof {
                lemma_jarr_view_push(arr0, j);
                assert(jarr_view(arr@) =~= nodes_json(c@.nodes).take(k + 1 as int));
            }
            k += 1;
        }
        proof {
            assert(nodes_json(c@.nodes).take(n as int) =~= nodes_json(c@.nodes));
        }
        fields.push((String::from_str("nodes"), Json::Arr(arr)));
    }
    let edges = c.get_edges();
    if edges.len() > 0 {
        let mut arr: Vec<Json> = Vec::new();
        let n = edges.len();
        let mut k: usize = 0;
        while k < n
            invariant
                n == edges@.len(),
                crate::jsoncanvas::edges_view(edges@) == c@.edges,
                k <= n,
                jarr_view(arr@) =~= edges_json(c@.edges).take(k as int),
            decreases n - k,
        {
            let ghost arr0 = arr@;
            let j = encode_edge(&edges[k]);
            arr.push(j);
            proof {
                lemma_jarr_view_push(arr0, j);
                assert(jarr_view(arr@) =~= edges_json(c@.edges).take(k + 1 as int));
            }
            k += 1;
        }
        proof {
            assert(edges_json(c@.edges).take(n as int) =~= edges_json(c@.edges));
        }
        fields.push((String::from_str("edges"), Json::Arr(arr)));
    }
    proof {
        crate::json::lemma_jobj_view(fields@);
        assert(jobj_view(fields@) =~= canvas_json(c@)->Obj_0);
        assert(JsonV::Obj(jobj_view(fields@)) == canvas_json(c@));
    }
    Json::Obj(fields)
}

} // verus!
