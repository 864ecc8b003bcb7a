//! The codec between the data model and the wire format.
//!
//! Encoding flattens each node into one object: the generic fields, the
//! `type` tag, then the variant's own fields; optional fields that are unset
//! are left out entirely, never written as `null`. Decoding reads the `type`
//! tag, rejects unknown keys, requires the variant's mandatory fields, and
//! reports the first failure as a typed error. Key lookup takes the first
//! occurrence of a key; field order on the wire does not matter.

use vstd::prelude::*;

use crate::color::{color_from_text, color_text, ColorV};
use crate::edge::{EdgeV, End, Side};
use crate::error::ParseErrorV;
use crate::json::{obj_lookup, JsonV};
use crate::jsoncanvas::CanvasV;
use crate::node::{
    node_generic, BackgroundStyle, BackgroundV, FileNodeV, GenericNodeV, GroupNodeV, LinkNodeV,
    NodeV, TextNodeV,
};

mod dec;
mod enc;
pub mod laws;

pub use dec::{decode_canvas, decode_edge, decode_node};
pub use enc::{encode_canvas, encode_edge, encode_node};

verus! {

/// The wire token of an attachment side.
pub open spec fn side_text(s: Side) -> Seq<char> {
    match s {
        Side::Top => "top"@,
        Side::Left => "left"@,
        Side::Right => "right"@,
        Side::Bottom => "bottom"@,
    }
}

/// The side a wire token stands for, if any.
pub open spec fn side_from_text(t: Seq<char>) -> Option<Side> {
    if t == "top"@ {
        Some(Side::Top)
    } else if t == "left"@ {
        Some(Side::Left)
    } else if t == "right"@ {
        Some(Side::Right)
    } else if t == "bottom"@ {
        Some(Side::Bottom)
    } else {
        None
    }
}

/// The wire token of an arrowhead style.
pub open spec fn end_text(e: End) -> Seq<char> {
    match e {
        End::NoArrow => "none"@,
        End::Arrow => "arrow"@,
    }
}

/// The arrowhead style a wire token stands for, if any.
pub open spec fn end_from_text(t: Seq<char>) -> Option<End> {
    if t == "none"@ {
        Some(End::NoArrow)
    } else if t == "arrow"@ {
        Some(End::Arrow)
    } else {
        None
    }
}

/// The wire token of a background style.
pub open spec fn style_text(b: BackgroundStyle) -> Seq<char> {
    match b {
        BackgroundStyle::Cover => "cover"@,
        BackgroundStyle::Ratio => "ratio"@,
        BackgroundStyle::Repeat => "repeat"@,
    }
}

/// The background style a wire token stands for, if any.
pub open spec fn style_from_text(t: Seq<char>) -> Option<BackgroundStyle> {
    if t == "cover"@ {
        Some(BackgroundStyle::Cover)
    } else if t == "ratio"@ {
        Some(BackgroundStyle::Ratio)
    } else if t == "repeat"@ {
        Some(BackgroundStyle::Repeat)
    } else {
        None
    }
}

/// The `type` tag of a node variant.
pub open spec fn type_tag(n: NodeV) -> Seq<char> {
    match n {
        NodeV::Text(_) => "text"@,
        NodeV::File(_) => "file"@,
        NodeV::Link(_) => "link"@,
        NodeV::Group(_) => "group"@,
    }
}

/// One field when the value is present, nothing when it is not.
pub open spec fn opt_field(k: Seq<char>, v: Option<JsonV>) -> Seq<(Seq<char>, JsonV)> {
    match v {
        Some(x) => seq![(k, x)],
        None => Seq::empty(),
    }
}

/// A signed coordinate on the wire: sign and magnitude.
pub open spec fn num_of_i64(x: i64) -> JsonV {
    if x < 0 {
        JsonV::Num { neg: true, mag: (-(x as int)) as u64 }
    } else {
        JsonV::Num { neg: false, mag: x as u64 }
    }
}

/// An unsigned dimension on the wire.
pub open spec fn num_of_u64(x: u64) -> JsonV {
    JsonV::Num { neg: false, mag: x }
}

/// The generic fields every node carries: `id`, `x`, `y`, `width`,
/// `height`, and `color` only when set.
pub open spec fn generic_fields(g: GenericNodeV) -> Seq<(Seq<char>, JsonV)> {
    seq![
        ("id"@, JsonV::Str(g.id)),
        ("x"@, num_of_i64(g.x)),
        ("y"@, num_of_i64(g.y)),
        ("width"@, num_of_u64(g.width)),
        ("height"@, num_of_u64(g.height)),
    ] + opt_field(
        "color"@,
        match g.color {
            Some(c) => Some(JsonV::Str(color_text(c))),
            None => None,
        },
    )
}

/// The background fields of a group node, flattened into the node object.
pub open spec fn background_fields(b: Option<BackgroundV>) -> Seq<(Seq<char>, JsonV)> {
    match b {
        None => Seq::empty(),
        Some(bg) => seq![("background"@, JsonV::Str(bg.image))] + opt_field(
            "backgroundStyle"@,
            match bg.background_style {
                Some(st) => Some(JsonV::Str(style_text(st))),
                None => None,
            },
        ),
    }
}

/// The fields a node variant adds after the `type` tag.
pub open spec fn variant_fields(n: NodeV) -> Seq<(Seq<char>, JsonV)> {
    match n {
        NodeV::Text(t) => seq![("text"@, JsonV::Str(t.text))],
        NodeV::File(f) => seq![("file"@, JsonV::Str(f.file))] + opt_field(
            "subpath"@,
            match f.subpath {
                Some(sp) => Some(JsonV::Str(sp)),
                None => None,
            },
        ),
        NodeV::Link(l) => seq![("url"@, JsonV::Str(l.url))],
        NodeV::Group(g) => opt_field(
            "label"@,
            match g.label {
                Some(lb) => Some(JsonV::Str(lb)),
                None => None,
            },
        ) + background_fields(g.background),
    }
}

/// A node as one flat wire object: generic fields, the `type` tag, then the
/// variant's fields.
pub open spec fn node_json(n: NodeV) -> JsonV {
    JsonV::Obj(
        generic_fields(node_generic(n)) + seq![("type"@, JsonV::Str(type_tag(n)))]
            + variant_fields(n),
    )
}

/// An edge as one wire object, optional fields present only when set.
pub open spec fn edge_json(e: EdgeV) -> JsonV {
    JsonV::Obj(
        seq![("id"@, JsonV::Str(e.id)), ("fromNode"@, JsonV::Str(e.from_node))] + opt_field(
            "fromSide"@,
            match e.from_side {
                Some(s) => Some(JsonV::Str(side_text(s))),
                None => None,
            },
        ) + opt_field(
            "fromEnd"@,
            match e.from_end {
                Some(x) => Some(JsonV::Str(end_text(x))),
                None => None,
            },
        ) + seq![("toNode"@, JsonV::Str(e.to_node))] + opt_field(
            "toSide"@,
            match e.to_side {
                Some(s) => Some(JsonV::Str(side_text(s))),
                None => None,
            },
        ) + opt_field(
            "toEnd"@,
            match e.to_end {
                Some(x) => Some(JsonV::Str(end_text(x))),
                None => None,
            },
        ) + opt_field(
            "color"@,
            match e.color {
                Some(c) => Some(JsonV::Str(color_text(c))),
                None => None,
            },
        ) + opt_field(
            "label"@,
            match e.label {
                Some(lb) => Some(JsonV::Str(lb)),
                None => None,
            },
        ),
    )
}

/// The first key of `fields` that is not in `allowed`, scanning in order.
pub open spec fn first_unknown(
    fields: Seq<(Seq<char>, JsonV)>,
    allowed: Seq<Seq<char>>,
) -> Option<Seq<char>>
    decreases fields.len(),
{
    if fields.len() == 0 {
        None
    } else if !allowed.contains(fields[0].0) {
        Some(fields[0].0)
    } else {
        first_unknown(fields.skip(1), allowed)
    }
}

/// A required string field.
pub open spec fn dec_str(
    fields: Seq<(Seq<char>, JsonV)>,
    key: Seq<char>,
) -> Result<Seq<char>, ParseErrorV> {
    match obj_lookup(fields, key) {
        Some(JsonV::Str(s)) => Ok(s),
        Some(_) => Err(ParseErrorV::WrongType(key)),
        None => Err(ParseErrorV::MissingField(key)),
    }
}

/// An optional string field: absent is fine, a non-string value is not.
pub open spec fn dec_opt_str(
    fields: Seq<(Seq<char>, JsonV)>,
    key: Seq<char>,
) -> Result<Option<Seq<char>>, ParseErrorV> {
    match obj_lookup(fields, key) {
        Some(JsonV::Str(s)) => Ok(Some(s)),
        Some(_) => Err(ParseErrorV::WrongType(key)),
        None => Ok(None),
    }
}

/// A required signed coordinate; must fit an `i64`.
pub open spec fn dec_i64(
    fields: Seq<(Seq<char>, JsonV)>,
    key: Seq<char>,
) -> Result<i64, ParseErrorV> {
    match obj_lookup(fields, key) {
        Some(JsonV::Num { neg, mag }) => if neg {
            if mag <= 9223372036854775808u64 {
                Ok((-(mag as int)) as i64)
            } else {
                Err(ParseErrorV::NumberOutOfRange(key))
            }
        } else {
            if mag <= i64::MAX as u64 {
                Ok(mag as i64)
            } else {
                Err(ParseErrorV::NumberOutOfRange(key))
            }
        },
        Some(_) => Err(ParseErrorV::WrongType(key)),
        None => Err(ParseErrorV::MissingField(key)),
    }
}

/// A required unsigned dimension; a minus sign is rejected.
pub open spec fn dec_u64(
    fields: Seq<(Seq<char>, JsonV)>,
    key: Seq<char>,
) -> Result<u64, ParseErrorV> {
    match obj_lookup(fields, key) {
        Some(JsonV::Num { neg, mag }) => if neg {
            Err(ParseErrorV::NumberOutOfRange(key))
        } else {
            Ok(mag)
        },
        Some(_) => Err(ParseErrorV::WrongType(key)),
        None => Err(ParseErrorV::MissingField(key)),
    }
}

/// The optional `color` field, decoded per the color codec.
pub open spec fn dec_opt_color(
    fields: Seq<(Seq<char>, JsonV)>,
) -> Result<Option<ColorV>, ParseErrorV> {
    match obj_lookup(fields, "color"@) {
        Some(JsonV::Str(s)) => match color_from_text(s) {
            Ok(c) => Ok(Some(c)),
            Err(e) => Err(e),
        },
        Some(_) => Err(ParseErrorV::WrongType("color"@)),
        None => Ok(None),
    }
}

/// An optional fixed-vocabulary field (side or end), decoded through the
/// given token reader at the use sites.
pub open spec fn dec_opt_side(
    fields: Seq<(Seq<char>, JsonV)>,
    key: Seq<char>,
) -> Result<Option<Side>, ParseErrorV> {
    match obj_lookup(fields, key) {
        Some(JsonV::Str(s)) => match side_from_text(s) {
            Some(v) => Ok(Some(v)),
            None => Err(ParseErrorV::UnknownEnumValue(s)),
        },
        Some(_) => Err(ParseErrorV::WrongType(key)),
        None => Ok(None),
    }
}

/// The arrowhead counterpart of [`dec_opt_side`].
pub open spec fn dec_opt_end(
    fields: Seq<(Seq<char>, JsonV)>,
    key: Seq<char>,
) -> Result<Option<End>, ParseErrorV> {
    match obj_lookup(fields, key) {
        Some(JsonV::Str(s)) => match end_from_text(s) {
            Some(v) => Ok(Some(v)),
            None => Err(ParseErrorV::UnknownEnumValue(s)),
        },
        Some(_) => Err(ParseErrorV::WrongType(key)),
        None => Ok(None),
    }
}

/// The keys the generic record and the `type` tag occupy.
pub open spec fn base_keys() -> Seq<Seq<char>> {
    seq!["id"@, "x"@, "y"@, "width"@, "height"@, "color"@, "type"@]
}

/// The keys a node with the given tag may carry.
pub open spec fn node_keys(tag: Seq<char>) -> Seq<Seq<char>> {
    if tag == "text"@ {
        base_keys() + seq!["text"@]
    } else if tag == "file"@ {
        base_keys() + seq!["file"@, "subpath"@]
    } else if tag == "link"@ {
        base_keys() + seq!["url"@]
    } else {
        base_keys() + seq!["label"@, "background"@, "backgroundStyle"@]
    }
}

/// The keys an edge object may carry.
pub open spec fn edge_keys() -> Seq<Seq<char>> {
    seq![
        "id"@,
        "fromNode"@,
        "fromSide"@,
        "fromEnd"@,
        "toNode"@,
        "toSide"@,
        "toEnd"@,
        "color"@,
        "label"@,
    ]
}

/// Decodes the generic record out of a node object's fields.
pub open spec fn generic_from_fields(
    fields: Seq<(Seq<char>, JsonV)>,
) -> Result<GenericNodeV, ParseErrorV> {
    match dec_str(fields, "id"@) {
        Ok(id) => if id.len() == 0 {
            Err(ParseErrorV::EmptyIdentifier)
        } else {
            match dec_i64(fields, "x"@) {
                Ok(x) => match dec_i64(fields, "y"@) {
                    Ok(y) => match dec_u64(fields, "width"@) {
                        Ok(width) => match dec_u64(fields, "height"@) {
                            Ok(height) => match dec_opt_color(fields) {
                                Ok(color) => Ok(
                                    GenericNodeV { id, x, y, width, height, color },
                                ),
                                Err(e) => Err(e),
                            },
                            Err(e) => Err(e),
                        },
                        Err(e) => Err(e),
                    },
                    Err(e) => Err(e),
                },
                Err(e) => Err(e),
            }
        },
        Err(e) => Err(e),
    }
}

/// Decodes the variant payload named by the tag; the generic record is
/// already in hand.
pub open spec fn variant_from_fields(
    tag: Seq<char>,
    g: GenericNodeV,
    fields: Seq<(Seq<char>, JsonV)>,
) -> Result<NodeV, ParseErrorV> {
    if tag == "text"@ {
        match dec_str(fields, "text"@) {
            Ok(text) => Ok(NodeV::Text(TextNodeV { generic: g, text })),
            Err(e) => Err(e),
        }
    } else if tag == "file"@ {
        match dec_str(fields, "file"@) {
            Ok(file) => match dec_opt_str(fields, "subpath"@) {
                Ok(subpath) => Ok(NodeV::File(FileNodeV { generic: g, file, subpath })),
                Err(e) => Err(e),
            },
            Err(e) => Err(e),
        }
    } else if tag == "link"@ {
        match dec_str(fields, "url"@) {
            Ok(url) => if crate::node::is_valid_url(url) {
                Ok(NodeV::Link(LinkNodeV { generic: g, url }))
            } else {
                Err(ParseErrorV::MalformedUrl(url))
            },
            Err(e) => Err(e),
        }
    } else {
        match dec_opt_str(fields, "label"@) {
            Ok(label) => match dec_opt_str(fields, "background"@) {
                Ok(image) => match dec_opt_str(fields, "backgroundStyle"@) {
                    Ok(style_txt) => {
                        match image {
                            Some(img) => match style_txt {
                                Some(st) => match style_from_text(st) {
                                    Some(style) => Ok(
                                        NodeV::Group(
                                            GroupNodeV {
                                                generic: g,
                                                label,
                                                background: Some(
                                                    BackgroundV {
                                                        image: img,
                                                        background_style: Some(style),
                                                    },
                                                ),
                                            },
                                        ),
                                    ),
                                    None => Err(ParseErrorV::UnknownEnumValue(st)),
                                },
                                None => Ok(
                                    NodeV::Group(
                                        GroupNodeV {
                                            generic: g,
                                            label,
                                            background: Some(
                                                BackgroundV {
                                                    image: img,
                                                    background_style: None,
                                                },
                                            ),
                                        },
                                    ),
                                ),
                            },
                            None => match style_txt {
                                Some(_) => Err(ParseErrorV::MissingField("background"@)),
                                None => Ok(
                                    NodeV::Group(
                                        GroupNodeV { generic: g, label, background: None },
                                    ),
                                ),
                            },
                        }
                    },
                    Err(e) => Err(e),
                },
                Err(e) => Err(e),
            },
            Err(e) => Err(e),
        }
    }
}

/// Decodes one node object: the `type` tag picks the variant, unknown keys
/// fail, the variant's mandatory fields are required.
pub open spec fn node_from_json(j: JsonV) -> Result<NodeV, ParseErrorV> {
    match j {
        JsonV::Obj(fields) => match dec_str(fields, "type"@) {
            Ok(tag) => if tag == "text"@ || tag == "file"@ || tag == "link"@ || tag
                == "group"@ {
                match first_unknown(fields, node_keys(tag)) {
                    Some(k) => Err(ParseErrorV::UnknownField(k)),
                    None => match generic_from_fields(fields) {
                        Ok(g) => variant_from_fields(tag, g, fields),
                        Err(e) => Err(e),
                    },
                }
            } else {
                Err(ParseErrorV::UnknownEnumValue(tag))
            },
            Err(e) => Err(e),
        },
        _ => Err(ParseErrorV::WrongType("node"@)),
    }
}

/// Decodes one edge object: `id`, `fromNode` and `toNode` are required,
/// everything else optional; unknown keys fail.
pub open spec fn edge_from_json(j: JsonV) -> Result<EdgeV, ParseErrorV> {
    match j {
        JsonV::Obj(fields) => match first_unknown(fields, edge_keys()) {
            Some(k) => Err(ParseErrorV::UnknownField(k)),
            None => match dec_str(fields, "id"@) {
                Ok(id) => if id.len() == 0 {
                    Err(ParseErrorV::EmptyIdentifier)
                } else {
                    match dec_str(fields, "fromNode"@) {
                        Ok(from_node) => if from_node.len() == 0 {
                            Err(ParseErrorV::EmptyIdentifier)
                        } else {
                            match dec_str(fields, "toNode"@) {
                                Ok(to_node) => if to_node.len() == 0 {
                                    Err(ParseErrorV::EmptyIdentifier)
                                } else {
                                    match dec_opt_side(fields, "fromSide"@) {
                                        Ok(from_side) => match dec_opt_end(
                                            fields,
                                            "fromEnd"@,
                                        ) {
                                            Ok(from_end) => match dec_opt_side(
                                                fields,
                                                "toSide"@,
                                            ) {
                                                Ok(to_side) => match dec_opt_end(
                                                    fields,
                                                    "toEnd"@,
                                                ) {
                                                    Ok(to_end) => match dec_opt_color(fields) {
                                                        Ok(color) => match dec_opt_str(
                                                            fields,
                                                            "label"@,
                                                        ) {
                                                            Ok(label) => Ok(
                                                                EdgeV {
                                                                    id,
                                                                    from_node,
                                                                    from_side,
                                                                    from_end,
                                                                    to_node,
                                                                    to_side,
                                                                    to_end,
                                                                    color,
                                                                    label,
                                                                },
                                                            ),
                                                            Err(e) => Err(e),
                                                        },
                                                        Err(e) => Err(e),
                                                    },
                                                    Err(e) => Err(e),
                                                },
                                                Err(e) => Err(e),
                                            },
                                            Err(e) => Err(e),
                                        },
                                        Err(e) => Err(e),
                                    }
                                },
                                Err(e) => Err(e),
                            }
                        },
                        Err(e) => Err(e),
                    }
                },
                Err(e) => Err(e),
            },
        },
        _ => Err(ParseErrorV::WrongType("edge"@)),
    }
}

/// The elementwise view of a sequence of strings.
pub open spec fn strs_view(v: Seq<String>) -> Seq<Seq<char>> {
    Seq::new(v.len(), |i: int| v[i]@)
}

/// Whether some node in the sequence carries this identifier.
pub open spec fn seq_has_node_id(nodes: Seq<NodeV>, id: Seq<char>) -> bool {
    exists|i: int| 0 <= i < nodes.len() && node_generic(#[trigger] nodes[i]).id == id
}

/// Whether some edge in the sequence carries this identifier.
pub open spec fn seq_has_edge_id(edges: Seq<EdgeV>, id: Seq<char>) -> bool {
    exists|i: int| 0 <= i < edges.len() && (#[trigger] edges[i]).id == id
}

/// The node array of a canvas on the wire.
pub open spec fn nodes_json(nodes: Seq<NodeV>) -> Seq<JsonV> {
    nodes.map_values(|n: NodeV| node_json(n))
}

/// The edge array of a canvas on the wire.
pub open spec fn edges_json(edges: Seq<EdgeV>) -> Seq<JsonV> {
    edges.map_values(|e: EdgeV| edge_json(e))
}

/// A whole canvas on the wire: the `nodes` and `edges` arrays, each omitted
/// entirely when empty.
pub open spec fn canvas_json(c: CanvasV) -> JsonV {
    JsonV::Obj(
        (if c.nodes.len() == 0 {
            Seq::empty()
        } else {
            seq![("nodes"@, JsonV::Arr(nodes_json(c.nodes)))]
        }) + (if c.edges.len() == 0 {
            Seq::empty()
        } else {
            seq![("edges"@, JsonV::Arr(edges_json(c.edges)))]
        }),
    )
}

/// Decodes a node array in order, rejecting a repeated identifier.
pub open spec fn nodes_from_json(a: Seq<JsonV>) -> Result<Seq<NodeV>, ParseErrorV>
    decreases a.len(),
{
    if a.len() == 0 {
        Ok(Seq::empty())
    } else {
        match nodes_from_json(a.take(a.len() - 1)) {
            Ok(pre) => match node_from_json(a.last()) {
                Ok(n) => if seq_has_node_id(pre, node_generic(n).id) {
                    Err(ParseErrorV::DuplicateNodeId(node_generic(n).id))
                } else {
                    Ok(pre.push(n))
                },
                Err(e) => Err(e),
            },
            Err(e) => Err(e),
        }
    }
}

/// Decodes an edge array in order, rejecting a repeated identifier.
pub open spec fn edges_from_json(a: Seq<JsonV>) -> Result<Seq<EdgeV>, ParseErrorV>
    decreases a.len(),
{
    if a.len() == 0 {
        Ok(Seq::empty())
    } else {
        match edges_from_json(a.take(a.len() - 1)) {
            Ok(pre) => match edge_from_json(a.last()) {
                Ok(e) => if seq_has_edge_id(pre, e.id) {
                    Err(ParseErrorV::DuplicateEdgeId(e.id))
                } else {
                    Ok(pre.push(e))
                },
                Err(err) => Err(err),
            },
            Err(err) => Err(err),
        }
    }
}

/// Decodes a whole canvas object. Both arrays may be absent. Edge endpoints
/// are deliberately not checked against the node set here: a loaded document
/// may be lenient where the insertion API is strict.
pub open spec fn canvas_from_json(j: JsonV) -> Result<CanvasV, ParseErrorV> {
    match j {
        JsonV::Obj(fields) => match first_unknown(fields, seq!["nodes"@, "edges"@]) {
            Some(k) => Err(ParseErrorV::UnknownField(k)),
            None => {
                let nodes_r = match obj_lookup(fields, "nodes"@) {
                    None => Ok(Seq::<NodeV>::empty()),
                    Some(JsonV::Arr(a)) => nodes_from_json(a),
                    Some(_) => Err(ParseErrorV::WrongType("nodes"@)),
                };
                match nodes_r {
                    Ok(nodes) => {
                        let edges_r = match obj_lookup(fields, "edges"@) {
                            None => Ok(Seq::<EdgeV>::empty()),
                            Some(JsonV::Arr(a)) => edges_from_json(a),
                            Some(_) => Err(ParseErrorV::WrongType("edges"@)),
                        };
                        match edges_r {
                            Ok(edges) => Ok(CanvasV { nodes, edges }),
                            Err(e) => Err(e),
                        }
                    },
                    Err(e) => Err(e),
                }
            },
        },
        _ => Err(ParseErrorV::WrongType("document"@)),
    }
}

/// The document text of a canvas.
pub open spec fn canvas_text(c: CanvasV) -> Seq<char> {
    crate::json::print::print_json(canvas_json(c))
}

/// What parsing a document text yields: a canvas value or the first error.
pub open spec fn canvas_parse(s: Seq<char>) -> Result<CanvasV, ParseErrorV> {
    match crate::json::parse::parse_doc(s) {
        Some(j) => canvas_from_json(j),
        None => Err(ParseErrorV::Syntax),
    }
}

/// Scanning keys that are all allowed finds the first unknown further on.
pub proof fn lemma_first_unknown_skip(
    fields: Seq<(Seq<char>, JsonV)>,
    allowed: Seq<Seq<char>>,
    k: int,
)
    requires
        0 <= k <= fields.len(),
        forall|t: int| 0 <= t < k ==> allowed.contains(#[trigger] fields[t].0),
    ensures
        first_unknown(fields, allowed) == first_unknown(fields.skip(k), allowed),
    decreases k,
{
    if k > 0 {
        assert(allowed.contains(fields[0].0));
        assert(forall|t: int|
            0 <= t < k - 1 ==> #[trigger] fields.skip(1)[t] == fields[t + 1]);
        lemma_first_unknown_skip(fields.skip(1), allowed, k - 1);
        assert(fields.skip(1).skip(k - 1) =~= fields.skip(k));
    } else {
        assert(fields.skip(0) =~= fields);
    }
}

/// An error while decoding a prefix of the node array persists to the whole.
pub proof fn lemma_nodes_err_persists(a: Seq<JsonV>, k: int, e: ParseErrorV)
    requires
        0 <= k <= a.len(),
        nodes_from_json(a.take(k)) == Err::<Seq<NodeV>, ParseErrorV>(e),
    ensures
        nodes_from_json(a) == Err::<Seq<NodeV>, ParseErrorV>(e),
    decreases a.len() - k,
{
    if k < a.len() {
        assert(a.take(k + 1).take(k) =~= a.take(k));
        assert(a.take(k + 1).len() == k + 1);
        lemma_nodes_err_persists(a, k + 1, e);
    } else {
        assert(a.take(k) =~= a);
    }
}

/// An error while decoding a prefix of the edge array persists to the whole.
pub proof fn lemma_edges_err_persists(a: Seq<JsonV>, k: int, e: ParseErrorV)
    requires
        0 <= k <= a.len(),
        edges_from_json(a.take(k)) == Err::<Seq<EdgeV>, ParseErrorV>(e),
    ensures
        edges_from_json(a) == Err::<Seq<EdgeV>, ParseErrorV>(e),
    decreases a.len() - k,
{
    if k < a.len() {
        assert(a.take(k + 1).take(k) =~= a.take(k));
        assert(a.take(k + 1).len() == k + 1);
        lemma_edges_err_persists(a, k + 1, e);
    } else {
        assert(a.take(k) =~= a);
    }
}

} // verus!
