//! The executable decoders, each proved against its wire specification.

use vstd::prelude::*;

use crate::color::Color;
use crate::edge::{Edge, End, Side};
use crate::error::{ParseError, ParseErrorV};
use crate::id::{EdgeId, NodeId};
use crate::json::{
    jarr_view, jobj_view, lemma_jobj_view, lemma_obj_lookup_skip, obj_lookup, Json, JsonV,
};
use crate::jsoncanvas::{edges_view, nodes_view, CanvasV, JsonCanvas};
use crate::node::{
    Background, FileNode, GenericNodeInfo, GroupNode, LinkNode, Node, NodeV, TextNode,
};
use crate::text::str_eq;

use super::{
    canvas_from_json, dec_i64, dec_opt_color, dec_opt_end, dec_opt_side, dec_opt_str, dec_str,
    dec_u64, edge_from_json, edges_from_json, end_from_text, first_unknown,
    lemma_edges_err_persists, lemma_first_unknown_skip, lemma_nodes_err_persists, node_from_json,
    node_keys, nodes_from_json, seq_has_edge_id, seq_has_node_id, side_from_text,
    style_from_text, strs_view,
};

verus! {

fn lookup_field<'a>(fields: &'a Vec<(String, Json)>, key: &str) -> (r: Option<&'a Json>)
    ensures
        match r {
            Some(j) => obj_lookup(jobj_view(fields@), key@) == Some(j@),
            None => obj_lookup(jobj_view(fields@), key@) is None,
        },
{
    proof {
        lemma_jobj_view(fields@);
    }
    let n = fields.len();
    let mut k: usize = 0;
    while k < n
        invariant
            n == fields@.len(),
            k <= n,
            forall|t: int| 0 <= t < k ==> (#[trigger] jobj_view(fields@)[t]).0 != key@,
            jobj_view(fields@).len() == n,
            forall|t: int|
                0 <= t < n ==> #[trigger] jobj_view(fields@)[t] == (
                    fields@[t].0@,
                    fields@[t].1@,
                ),
        decreases n - k,
    {
        if str_eq(fields[k].0.as_str(), key) {
            proof {
                lemma_obj_lookup_skip(jobj_view(fields@), key@, k as int);
                assert(jobj_view(fields@).skip(k as int)[0] == jobj_view(fields@)[k as int]);
            }
            return Some(&fields[k].1);
        }
        k += 1;
    }
    proof {
        lemma_obj_lookup_skip(jobj_view(fields@), key@, n as int);
        assert(jobj_view(fields@).skip(n as int) =~= Seq::<(Seq<char>, JsonV)>::empty());
    }
    None
}

fn check_keys(fields: &Vec<(String, Json)>, allowed: &Vec<String>) -> (r: Option<String>)
    ensures
        match r {
            Some(k) => first_unknown(jobj_view(fields@), strs_view(allowed@)) == Some(k@),
            None => first_unknown(jobj_view(fields@), strs_view(allowed@)) is None,
        },
{
    proof {
        lemma_jobj_view(fields@);
    }
    let ghost fv = jobj_view(fields@);
    let ghost av = strs_view(allowed@);
    let n = fields.len();
    let mut i: usize = 0;
    while i < n
        invariant
            n == fields@.len(),
            i <= n,
            fv == jobj_view(fields@),
            av == strs_view(allowed@),
            fv.len() == n,
            forall|t: int| 0 <= t < n ==> #[trigger] fv[t] == (fields@[t].0@, fields@[t].1@),
            forall|t: int| 0 <= t < i ==> av.contains((#[trigger] fv[t]).0),
        decreases n - i,
    {
        let m = allowed.len();
        let mut k: usize = 0;
        let mut found: bool = false;
        while k < m && !found
            invariant
                m == allowed@.len(),
                k <= m,
                i < n,
                n == fields@.len(),
                fv == jobj_view(fields@),
                av == strs_view(allowed@),
                fv.len() == n,
                forall|t: int| 0 <= t < n ==> #[trigger] fv[t] == (fields@[t].0@, fields@[t].1@),
                !found ==> forall|t: int| 0 <= t < k ==> #[trigger] av[t] != fv[i as int].0,
                found ==> av.contains(fv[i as int].0),
            decreases m - k + (if found { 0int } else { 1int }),
        {
            if str_eq(fields[i].0.as_str(), allowed[k].as_str()) {
                found = true;
                proof {
                    assert(av[k as int] == allowed@[k as int]@);
                    assert(av.contains(fv[i as int].0));
                }
            } else {
                k += 1;
            }
        }
        if !found {
            proof {
                assert(forall|t: int| 0 <= t < av.len() ==> #[trigger] av[t] != fv[i as int].0);
                assert(!av.contains(fv[i as int].0));
                lemma_first_unknown_skip(fv, av, i as int);
                assert(fv.skip(i as int)[0] == fv[i as int]);
            }
            return Some(fields[i].0.clone());
        }
        i += 1;
    }
    proof {
        lemma_first_unknown_skip(fv, av, n as int);
        assert(fv.skip(n as int) =~= Seq::<(Seq<char>, JsonV)>::empty());
    }
    None
}

fn get_str(fields: &Vec<(String, Json)>, key: &str) -> (r: Result<String, ParseError>)
    ensures
        match r {
            Ok(s) => dec_str(jobj_view(fields@), key@) == Ok::<Seq<char>, ParseErrorV>(s@),
            Err(e) => dec_str(jobj_view(fields@), key@) == Err::<Seq<char>, ParseErrorV>(e@),
        },
{
    match lookup_field(fields, key) {
        Some(j) => match j {
            Json::Str(s) => Ok(s.clone()),
            _ => Err(ParseError::WrongType(String::from_str(key))),
        },
        None => Err(ParseError::MissingField(String::from_str(key))),
    }
}

fn get_opt_str(fields: &Vec<(String, Json)>, key: &str) -> (r: Result<
    Option<String>,
    ParseError,
>)
    ensures
        match r {
            Ok(s) => dec_opt_str(jobj_view(fields@), key@) == Ok::<
                Option<Seq<char>>,
                ParseErrorV,
            >(crate::opt_str_view(s)),
            Err(e) => dec_opt_str(jobj_view(fields@), key@) == Err::<
                Option<Seq<char>>,
                ParseErrorV,
            >(e@),
        },
{
    match lookup_field(fields, key) {
        Some(j) => match j {
            Json::Str(s) => Ok(Some(s.clone())),
            _ => Err(ParseError::WrongType(String::from_str(key))),
        },
        None => Ok(None),
    }
}

fn get_i64(fields: &Vec<(String, Json)>, key: &str) -> (r: Result<i64, ParseError>)
    ensures
        match r {
            Ok(v) => dec_i64(jobj_view(fields@), key@) == Ok::<i64, ParseErrorV>(v),
            Err(e) => dec_i64(jobj_view(fields@), key@) == Err::<i64, ParseErrorV>(e@),
        },
{
    match lookup_field(fields, key) {
        Some(j) => match j {
            Json::Num { neg, mag } => {
                if *neg {
                    if *mag <= 9223372036854775808u64 {
                        let v: i64 = if *mag == 9223372036854775808u64 {
                            i64::MIN
                        } else {
                            -((*mag) as i64)
                        };
                        proof {
                            assert(v as int == -((*mag) as int));
                        }
                        Ok(v)
                    } else {
                        Err(ParseError::NumberOutOfRange(String::from_str(key)))
                    }
                } else {
                    if *mag <= 9223372036854775807u64 {
                        Ok(*mag as i64)
                    } else {
                        Err(ParseError::NumberOutOfRange(String::from_str(key)))
                    }
                }
            },
            _ => Err(ParseError::WrongType(String::from_str(key))),
        },
        None => Err(ParseError::MissingField(String::from_str(key))),
    }
}

fn get_u64(fields: &Vec<(String, Json)>, key: &str) -> (r: Result<u64, ParseError>)
    ensures
        match r {
            Ok(v) => dec_u64(jobj_view(fields@), key@) == Ok::<u64, ParseErrorV>(v),
            Err(e) => dec_u64(jobj_view(fields@), key@) == Err::<u64, ParseErrorV>(e@),
        },
{
    match lookup_field(fields, key) {
        Some(j) => match j {
            Json::Num { neg, mag } => {
                if *neg {
                    Err(ParseError::NumberOutOfRange(String::from_str(key)))
                } else {
                    Ok(*mag)
                }
            },
            _ => Err(ParseError::WrongType(String::from_str(key))),
        },
        None => Err(ParseError::MissingField(String::from_str(key))),
    }
}

fn get_opt_color(fields: &Vec<(String, Json)>) -> (r: Result<Option<Color>, ParseError>)
    ensures
        match r {
            Ok(c) => dec_opt_color(jobj_view(fields@)) == Ok::<
                Option<crate::color::ColorV>,
                ParseErrorV,
            >(crate::color::opt_color_view(c)),
            Err(e) => dec_opt_color(jobj_view(fields@)) == Err::<
                Option<crate::color::ColorV>,
                ParseErrorV,
            >(e@),
        },
{
    match lookup_field(fields, "color") {
        Some(j) => match j {
            Json::Str(s) => match Color::decode(s.as_str()) {
                Ok(c) => Ok(Some(c)),
                Err(e) => Err(e),
            },
            _ => Err(ParseError::WrongType(String::from_str("color"))),
        },
        None => Ok(None),
    }
}

fn side_of(t: &str) -> (r: Option<Side>)
    ensures
        r == side_from_text(t@),
{
    if str_eq(t, "top") {
        Some(Side::Top)
    } else if str_eq(t, "left") {
        Some(Side::Left)
    } else if str_eq(t, "right") {
        Some(Side::Right)
    } else if str_eq(t, "bottom") {
        Some(Side::Bottom)
    } else {
        None
    }
}

fn end_of(t: &str) -> (r: Option<End>)
    ensures
        r == end_from_text(t@),
{
    if str_eq(t, "none") {
        Some(End::NoArrow)
    } else if str_eq(t, "arrow") {
        Some(End::Arrow)
    } else {
        None
    }
}

fn style_of(t: &str) -> (r: Option<crate::node::BackgroundStyle>)
    ensures
        r == style_from_text(t@),
{
    if str_eq(t, "cover") {
        Some(crate::node::BackgroundStyle::Cover)
    } else if str_eq(t, "ratio") {
        Some(crate::node::BackgroundStyle::Ratio)
    } else if str_eq(t, "repeat") {
        Some(crate::node::BackgroundStyle::Repeat)
    } else {
        None
    }
}

fn get_opt_side(fields: &Vec<(String, Json)>, key: &str) -> (r: Result<Option<Side>, ParseError>)
    ensures
        match r {
            Ok(v) => dec_opt_side(jobj_view(fields@), key@) == Ok::<Option<Side>, ParseErrorV>(v),
            Err(e) => dec_opt_side(jobj_view(fields@), key@) == Err::<
                Option<Side>,
                ParseErrorV,
            >(e@),
        },
{
    match lookup_field(fields, key) {
        Some(j) => match j {
            Json::Str(s) => match side_of(s.as_str()) {
                Some(v) => Ok(Some(v)),
                None => Err(ParseError::UnknownEnumValue(s.clone())),
            },
            _ => Err(ParseError::WrongType(String::from_str(key))),
        },
        None => Ok(None),
    }
}

fn get_opt_end(fields: &Vec<(String, Json)>, key: &str) -> (r: Result<Option<End>, ParseError>)
    ensures
        match r {
            Ok(v) => dec_opt_end(jobj_view(fields@), key@) == Ok::<Option<End>, ParseErrorV>(v),
            Err(e) => dec_opt_end(jobj_view(fields@), key@) == Err::<
                Option<End>,
                ParseErrorV,
            >(e@),
        },
{
    match lookup_field(fields, key) {
        Some(j) => match j {
            Json::Str(s) => match end_of(s.as_str()) {
                Some(v) => Ok(Some(v)),
                None => Err(ParseError::UnknownEnumValue(s.clone())),
            },
            _ => Err(ParseError::WrongType(String::from_str(key))),
        },
        None => Ok(None),
    }
}

fn node_keys_vec(tag: &str) -> (r: Vec<String>)
    ensures
        strs_view(r@) == node_keys(tag@),
{
    let mut v: Vec<String> = Vec::new();
    v.push(String::from_str("id"));
    v.push(String::from_str("x"));
    v.push(String::from_str("y"));
    v.push(String::from_str("width"));
    v.push(String::from_str("height"));
    v.push(String::from_str("color"));
    v.push(String::from_str("type"));
    if str_eq(tag, "text") {
        v.push(String::from_str("text"));
    } else if str_eq(tag, "file") {
        v.push(String::from_str("file"));
        v.push(String::from_str("subpath"));
    } else if str_eq(tag, "link") {
        v.push(String::from_str("url"));
    } else {
        v.push(String::from_str("label"));
        v.push(String::from_str("background"));
        v.push(String::from_str("backgroundStyle"));
    }
    proof {
        assert(strs_view(v@) =~= node_keys(tag@));
    }
    v
}

/// Decodes one node object, per [`node_from_json`].
#[verifier::rlimit(100)]
#[verifier::spinoff_prover]
pub fn decode_node(j: &Json) -> (r: Result<Node, ParseError>)
    ensures
        match r {
            Ok(n) => node_from_json(j@) == Ok::<NodeV, ParseErrorV>(n@),
            Err(e) => node_from_json(j@) == Err::<NodeV, ParseErrorV>(e@),
        },
{
    let fields = match j {
        Json::Obj(f) => f,
        _ => {
            return Err(ParseError::WrongType(String::from_str("node")));
        },
    };
    let tag = match get_str(fields, "type") {
        Ok(t) => t,
        Err(e) => {
            return Err(e);
        },
    };
    let is_text = str_eq(tag.as_str(), "text");
    let is_file = str_eq(tag.as_str(), "file");
    let is_link = str_eq(tag.as_str(), "link");
    let is_group = str_eq(tag.as_str(), "group");
    if !(is_text || is_file || is_link || is_group) {
        return Err(ParseError::UnknownEnumValue(tag));
    }
    let allowed = node_keys_vec(tag.as_str());
    match check_keys(fields, &allowed) {
        Some(k) => {
            return Err(ParseError::UnknownField(k));
        },
        None => {},
    }
    let id_s = match get_str(fields, "id") {
        Ok(v) => v,
        Err(e) => {
            return Err(e);
        },
    };
    let id = match NodeId::new(id_s) {
        Ok(v) => v,
        Err(_) => {
            return Err(ParseError::EmptyIdentifier);
        },
    };
    let x = match get_i64(fields, "x") {
        Ok(v) => v,
        Err(e) => {
            return Err(e);
        },
    };
    let y = match get_i64(fields, "y") {
        Ok(v) => v,
        Err(e) => {
            return Err(e);
        },
    };
    let width = match get_u64(fields, "width") {
        Ok(v) => v,
        Err(e) => {
            return Err(e);
        },
    };
    let height = match get_u64(fields, "height") {
        Ok(v) => v,
        Err(e) => {
            return Err(e);
        },
    };
    let color = match get_opt_color(fields) {
        Ok(v) => v,
        Err(e) => {
            return Err(e);
        },
    };
    if is_text {
        let text = match get_str(fields, "text") {
            Ok(v) => v,
            Err(e) => {
                return Err(e);
            },
        };
        Ok(Node::Text(TextNode::new(id, x, y, width, height, color, text)))
    } else if is_file {
        let file = match get_str(fields, "file") {
            Ok(v) => v,
            Err(e) => {
                return Err(e);
            },
        };
        let subpath = match get_opt_str(fields, "subpath") {
            Ok(v) => v,
            Err(e) => {
                return Err(e);
            },
        };
        Ok(Node::File(FileNode::new(id, x, y, width, height, color, file, subpath)))
    } else if is_link {
        let url = match get_str(fields, "url") {
            Ok(v) => v,
            Err(e) => {
                return Err(e);
            },
        };
        match LinkNode::new(id, x, y, width, height, color, url) {
            Ok(l) => Ok(Node::Link(l)),
            Err(e) => Err(e),
        }
    } else {
        let label = match get_opt_str(fields, "label") {
            Ok(v) => v,
            Err(e) => {
                return Err(e);
            },
        };
        let image = match get_opt_str(fields, "background") {
            Ok(v) => v,
            Err(e) => {
                return Err(e);
            },
        };
        let style_txt = match get_opt_str(fields, "backgroundStyle") {
            Ok(v) => v,
            Err(e) => {
                return Err(e);
            },
        };
        match image {
            Some(img) => {
                let style = match style_txt {
                    Some(st) => match style_of(st.as_str()) {
                        Some(v) => Some(v),
                        None => {
                            return Err(ParseError::UnknownEnumValue(st));
                        },
                    },
                    None => None,
                };
                Ok(
                    Node::Group(
                        GroupNode::new(
                            id,
                            x,
                            y,
                            width,
                            height,
                            color,
                            label,
                            Some(Background::new(img, style)),
                        ),
                    ),
                )
            },
            None => match style_txt {
                Some(_) => Err(ParseError::MissingField(String::from_str("background"))),
                None => Ok(
                    Node::Group(GroupNode::new(id, x, y, width, height, color, label, None)),
                ),
            },
        }
    }
}

/// Decodes one edge object, per [`edge_from_json`].
#[verifier::rlimit(100)]
#[verifier::spinoff_prover]
pub fn decode_edge(j: &Json) -> (r: Result<Edge, ParseError>)
    ensures
        match r {
            Ok(e) => edge_from_json(j@) == Ok::<crate::edge::EdgeV, ParseErrorV>(e@),
            Err(e) => edge_from_json(j@) == Err::<crate::edge::EdgeV, ParseErrorV>(e@),
        },
{
    let fields = match j {
        Json::Obj(f) => f,
        _ => {
            return Err(ParseError::WrongType(String::from_str("edge")));
        },
    };
    let mut allowed: Vec<String> = Vec::new();
    allowed.push(String::from_str("id"));
    allowed.push(String::from_str("fromNode"));
    allowed.push(String::from_str("fromSide"));
    allowed.push(String::from_str("fromEnd"));
    allowed.push(String::from_str("toNode"));
    allowed.push(String::from_str("toSide"));
    allowed.push(String::from_str("toEnd"));
    allowed.push(String::from_str("color"));
    allowed.push(String::from_str("label"));
    proof {
        assert(strs_view(allowed@) =~= super::edge_keys());
    }
    match check_keys(fields, &allowed) {
        Some(k) => {
            return Err(ParseError::UnknownField(k));
        },
        None => {},
    }
    let id_s = match get_str(fields, "id") {
        Ok(v) => v,
        Err(e) => {
            return Err(e);
        },
    };
    let id = match EdgeId::new(id_s) {
        Ok(v) => v,
        Err(_) => {
            return Err(ParseError::EmptyIdentifier);
        },
    };
    let from_s = match get_str(fields, "fromNode") {
        Ok(v) => v,
        Err(e) => {
            return Err(e);
        },
    };
    let from_node = match NodeId::new(from_s) {
        Ok(v) => v,
        Err(_) => {
            return Err(ParseError::EmptyIdentifier);
        },
    };
    let to_s = match get_str(fields, "toNode") {
        Ok(v) => v,
        Err(e) => {
            return Err(e);
        },
    };
    let to_node = match NodeId::new(to_s) {
        Ok(v) => v,
        Err(_) => {
            return Err(ParseError::EmptyIdentifier);
        },
    };
    let from_side = match get_opt_side(fields, "fromSide") {
        Ok(v) => v,
        Err(e) => {
            return Err(e);
        },
    };
    let from_end = match get_opt_end(fields, "fromEnd") {
        Ok(v) => v,
        Err(e) => {
            return Err(e);
        },
    };
    let to_side = match get_opt_side(fields, "toSide") {
        Ok(v) => v,
        Err(e) => {
            return Err(e);
        },
    };
    let to_end = match get_opt_end(fields, "toEnd") {
        Ok(v) => v,
        Err(e) => {
            return Err(e);
        },
    };
    let color = match get_opt_color(fields) {
        Ok(v) => v,
        Err(e) => {
            return Err(e);
        },
    };
    let label = match get_opt_str(fields, "label") {
        Ok(v) => v,
        Err(e) => {
            return Err(e);
        },
    };
    Ok(Edge::new(id, from_node, from_side, from_end, to_node, to_side, to_end, color, label))
}

fn vec_has_node_id(out: &Vec<Node>, id: &str) -> (r: bool)
    ensures
        r == seq_has_node_id(nodes_view(out@), id@),
{
    let n = out.len();
    let mut k: usize = 0;
    while k < n
        invariant
            n == out@.len(),
            k <= n,
            forall|t: int|
                0 <= t < k ==> crate::node::node_generic(
                    #[trigger] nodes_view(out@)[t],
                ).id != id@,
        decreases n - k,
    {
        if str_eq(out[k].id().as_str(), id) {
            proof {
                assert(crate::node::node_generic(nodes_view(out@)[k as int]).id == id@);
            }
            return true;
        }
        k += 1;
    }
    false
}

fn vec_has_edge_id(out: &Vec<Edge>, id: &str) -> (r: bool)
    ensures
        r == seq_has_edge_id(edges_view(out@), id@),
{
    let n = out.len();
    let mut k: usize = 0;
    while k < n
        invariant
            n == out@.len(),
            k <= n,
            forall|t: int| 0 <= t < k ==> (#[trigger] edges_view(out@)[t]).id != id@,
        decreases n - k,
    {
        if str_eq(out[k].id().as_str(), id) {
            proof {
                assert(edges_view(out@)[k as int].id == id@);
            }
            return true;
        }
        k += 1;
    }
    false
}

#[verifier::rlimit(100)]
#[verifier::spinoff_prover]
fn decode_nodes(arr: &Vec<Json>) -> (r: Result<Vec<Node>, ParseError>)
    ensures
        match r {
            Ok(ns) => nodes_from_json(jarr_view(arr@)) == Ok::<Seq<NodeV>, ParseErrorV>(
                nodes_view(ns@),
            ),
            Err(e) => nodes_from_json(jarr_view(arr@)) == Err::<Seq<NodeV>, ParseErrorV>(e@),
        },
{
    let ghost av = jarr_view(arr@);
    proof {
        crate::json::lemma_jarr_view(arr@);
    }
    let mut out: Vec<Node> = Vec::new();
    let n = arr.len();
    let mut k: usize = 0;
    proof {
        assert(av.take(0) =~= Seq::<JsonV>::empty());
        assert(nodes_view(out@) =~= Seq::<NodeV>::empty());
    }
    while k < n
        invariant
            n == arr@.len(),
            k <= n,
            av == jarr_view(arr@),
            av.len() == n,
            forall|i: int| 0 <= i < n ==> #[trigger] av[i] == arr@[i]@,
            nodes_from_json(av.take(k as int)) == Ok::<Seq<NodeV>, ParseErrorV>(
                nodes_view(out@),
            ),
        decreases n - k,
    {
        proof {
            assert(av.take(k + 1 as int).take(k as int) =~= av.take(k as int));
            assert(av.take(k + 1 as int).last() == av[k as int]);
        }
        let node = match decode_node(&arr[k]) {
            Ok(v) => v,
            Err(e) => {
                proof {
                    lemma_nodes_err_persists(av, k + 1 as int, e@);
                }
                return Err(e);
            },
        };
        if vec_has_node_id(&out, node.id().as_str()) {
            let e = ParseError::DuplicateNodeId(String::from_str(node.id().as_str()));
            proof {
                lemma_nodes_err_persists(av, k + 1 as int, e@);
            }
            return Err(e);
        }
        let ghost out0 = out@;
        out.push(node);
        proof {
            assert(nodes_view(out@) =~= nodes_view(out0).push(node@));
        }
        k += 1;
    }
    proof {
        assert(av.take(n as int) =~= av);
    }
    Ok(out)
}

#[verifier::rlimit(100)]
#[verifier::spinoff_prover]
fn decode_edges(arr: &Vec<Json>) -> (r: Result<Vec<Edge>, ParseError>)
    ensures
        match r {
            Ok(es) => edges_from_json(jarr_view(arr@)) == Ok::<
                Seq<crate::edge::EdgeV>,
                ParseErrorV,
            >(edges_view(es@)),
            Err(e) => edges_from_json(jarr_view(arr@)) == Err::<
                Seq<crate::edge::EdgeV>,
                ParseErrorV,
            >(e@),
        },
{
    let ghost av = jarr_view(arr@);
    proof {
        crate::json::lemma_jarr_view(arr@);
    }
    let mut out: Vec<Edge> = Vec::new();
    let n = arr.len();
    let mut k: usize = 0;
    proof {
        assert(av.take(0) =~= Seq::<JsonV>::empty());
        assert(edges_view(out@) =~= Seq::<crate::edge::EdgeV>::empty());
    }
    while k < n
        invariant
            n == arr@.len(),
            k <= n,
            av == jarr_view(arr@),
            av.len() == n,
            forall|i: int| 0 <= i < n ==> #[trigger] av[i] == arr@[i]@,
            edges_from_json(av.take(k as int)) == Ok::<Seq<crate::edge::EdgeV>, ParseErrorV>(
                edges_view(out@),
            ),
        decreases n - k,
    {
        proof {
            assert(av.take(k + 1 as int).take(k as int) =~= av.take(k as int));
            assert(av.take(k + 1 as int).last() == av[k as int]);
        }
        let edge = match decode_edge(&arr[k]) {
            Ok(v) => v,
            Err(e) => {
                proof {
                    lemma_edges_err_persists(av, k + 1 as int, e@);
                }
                return Err(e);
            },
        };
        if vec_has_edge_id(&out, edge.id().as_str()) {
            let e = ParseError::DuplicateEdgeId(String::from_str(edge.id().as_str()));
            proof {
                lemma_edges_err_persists(av, k + 1 as int, e@);
            }
            return Err(e);
        }
        let ghost out0 = out@;
        out.push(edge);
        proof {
            assert(edges_view(out@) =~= edges_view(out0).push(edge@));
        }
        k += 1;
    }
    proof {
        assert(av.take(n as int) =~= av);
    }
    Ok(out)
}

/// Decodes a whole canvas object, per [`canvas_from_json`].
#[verifier::rlimit(100)]
#[verifier::spinoff_prover]
pub fn decode_canvas(j: &Json) -> (r: Result<JsonCanvas, ParseError>)
    ensures
        match r {
            Ok(c) => canvas_from_json(j@) == Ok::<CanvasV, ParseErrorV>(c@),
            Err(e) => canvas_from_json(j@) == Err::<CanvasV, ParseErrorV>(e@),
        },
{
    let fields = match j {
        Json::Obj(f) => f,
        _ => {
            return Err(ParseError::WrongType(String::from_str("document")));
        },
    };
    let mut allowed: Vec<String> = Vec::new();
    allowed.push(String::from_str("nodes"));
    allowed.push(String::from_str("edges"));
    proof {
        assert(strs_view(allowed@) =~= seq!["nodes"@, "edges"@]);
    }
    match check_keys(fields, &allowed) {
        Some(k) => {
            return Err(ParseError::UnknownField(k));
        },
        None => {},
    }
    let nodes: Vec<Node> = match lookup_field(fields, "nodes") {
        None => {
            let empty: Vec<Node> = Vec::new();
            proof {
                assert(nodes_view(empty@) =~= Seq::<NodeV>::empty());
            }
            empty
        },
        Some(v) => match v {
            Json::Arr(a) => match decode_nodes(a) {
                Ok(ns) => ns,
                Err(e) => {
                    return Err(e);
                },
            },
            _ => {
                return Err(ParseError::WrongType(String::from_str("nodes")));
            },
        },
    };
    let edges: Vec<Edge> = match lookup_field(fields, "edges") {
        None => {
            let empty: Vec<Edge> = Vec::new();
            proof {
                assert(edges_view(empty@) =~= Seq::<crate::edge::EdgeV>::empty());
            }
            empty
        },
        Some(v) => match v {
            Json::Arr(a) => match decode_edges(a) {
                Ok(es) => es,
                Err(e) => {
                    return Err(e);
                },
            },
            _ => {
                return Err(ParseError::WrongType(String::from_str("edges")));
            },
        },
    };
    Ok(JsonCanvas::from_parts(nodes, edges))
}

} // verus!
