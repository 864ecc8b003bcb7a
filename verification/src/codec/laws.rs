//! The codec laws: what decoding makes of every encoded value.

use vstd::prelude::*;

use crate::color::{color_text, color_wf, lemma_color_round_trip, ColorV};
use crate::error::ParseErrorV;
use crate::json::{lemma_obj_lookup_skip, obj_has_key, obj_lookup, JsonV};
use crate::edge::EdgeV;
use crate::node::{node_generic, node_wf, GenericNodeV, NodeV};

use super::{
    dec_i64, dec_opt_color, dec_opt_str, dec_str, dec_u64, first_unknown, generic_fields,
    generic_from_fields, node_from_json, node_json, node_keys, num_of_i64, num_of_u64,
    opt_field, type_tag, variant_fields, variant_from_fields,
};

verus! {

/// The character sequences of every wire key and token, pinned down once so
/// that the lookup proofs can tell the keys apart.
pub proof fn lemma_wire_literals()
    ensures
        "id"@ == seq!['i', 'd'],
        "x"@ == seq!['x'],
        "y"@ == seq!['y'],
        "width"@ == seq!['w', 'i', 'd', 't', 'h'],
        "height"@ == seq!['h', 'e', 'i', 'g', 'h', 't'],
        "color"@ == seq!['c', 'o', 'l', 'o', 'r'],
        "type"@ == seq!['t', 'y', 'p', 'e'],
        "text"@ == seq!['t', 'e', 'x', 't'],
        "file"@ == seq!['f', 'i', 'l', 'e'],
        "subpath"@ == seq!['s', 'u', 'b', 'p', 'a', 't', 'h'],
        "url"@ == seq!['u', 'r', 'l'],
        "label"@ == seq!['l', 'a', 'b', 'e', 'l'],
        "background"@ == seq!['b', 'a', 'c', 'k', 'g', 'r', 'o', 'u', 'n', 'd'],
        "backgroundStyle"@ == seq!['b', 'a', 'c', 'k', 'g', 'r', 'o', 'u', 'n', 'd', 'S', 't', 'y', 'l', 'e'],
        "fromNode"@ == seq!['f', 'r', 'o', 'm', 'N', 'o', 'd', 'e'],
        "fromSide"@ == seq!['f', 'r', 'o', 'm', 'S', 'i', 'd', 'e'],
        "fromEnd"@ == seq!['f', 'r', 'o', 'm', 'E', 'n', 'd'],
        "toNode"@ == seq!['t', 'o', 'N', 'o', 'd', 'e'],
        "toSide"@ == seq!['t', 'o', 'S', 'i', 'd', 'e'],
        "toEnd"@ == seq!['t', 'o', 'E', 'n', 'd'],
        "nodes"@ == seq!['n', 'o', 'd', 'e', 's'],
        "edges"@ == seq!['e', 'd', 'g', 'e', 's'],
        "link"@ == seq!['l', 'i', 'n', 'k'],
        "group"@ == seq!['g', 'r', 'o', 'u', 'p'],
        "cover"@ == seq!['c', 'o', 'v', 'e', 'r'],
        "ratio"@ == seq!['r', 'a', 't', 'i', 'o'],
        "repeat"@ == seq!['r', 'e', 'p', 'e', 'a', 't'],
        "top"@ == seq!['t', 'o', 'p'],
        "left"@ == seq!['l', 'e', 'f', 't'],
        "right"@ == seq!['r', 'i', 'g', 'h', 't'],
        "bottom"@ == seq!['b', 'o', 't', 't', 'o', 'm'],
        "none"@ == seq!['n', 'o', 'n', 'e'],
        "arrow"@ == seq!['a', 'r', 'r', 'o', 'w'],
{
    reveal_strlit("id");
    assert("id"@ =~= seq!['i', 'd']);
    reveal_strlit("x");
    assert("x"@ =~= seq!['x']);
    reveal_strlit("y");
    assert("y"@ =~= seq!['y']);
    reveal_strlit("width");
    assert("width"@ =~= seq!['w', 'i', 'd', 't', 'h']);
    reveal_strlit("height");
    assert("height"@ =~= seq!['h', 'e', 'i', 'g', 'h', 't']);
    reveal_strlit("color");
    assert("color"@ =~= seq!['c', 'o', 'l', 'o', 'r']);
    reveal_strlit("type");
    assert("type"@ =~= seq!['t', 'y', 'p', 'e']);
    reveal_strlit("text");
    assert("text"@ =~= seq!['t', 'e', 'x', 't']);
    reveal_strlit("file");
    assert("file"@ =~= seq!['f', 'i', 'l', 'e']);
    reveal_strlit("subpath");
    assert("subpath"@ =~= seq!['s', 'u', 'b', 'p', 'a', 't', 'h']);
    reveal_strlit("url");
    assert("url"@ =~= seq!['u', 'r', 'l']);
    reveal_strlit("label");
    assert("label"@ =~= seq!['l', 'a', 'b', 'e', 'l']);
    reveal_strlit("background");
    assert("background"@ =~= seq!['b', 'a', 'c', 'k', 'g', 'r', 'o', 'u', 'n', 'd']);
    reveal_strlit("backgroundStyle");
    assert("backgroundStyle"@ =~= seq!['b', 'a', 'c', 'k', 'g', 'r', 'o', 'u', 'n', 'd', 'S', 't', 'y', 'l', 'e']);
    reveal_strlit("fromNode");
    assert("fromNode"@ =~= seq!['f', 'r', 'o', 'm', 'N', 'o', 'd', 'e']);
    reveal_strlit("fromSide");
    assert("fromSide"@ =~= seq!['f', 'r', 'o', 'm', 'S', 'i', 'd', 'e']);
    reveal_strlit("fromEnd");
    assert("fromEnd"@ =~= seq!['f', 'r', 'o', 'm', 'E', 'n', 'd']);
    reveal_strlit("toNode");
    assert("toNode"@ =~= seq!['t', 'o', 'N', 'o', 'd', 'e']);
    reveal_strlit("toSide");
    assert("toSide"@ =~= seq!['t', 'o', 'S', 'i', 'd', 'e']);
    reveal_strlit("toEnd");
    assert("toEnd"@ =~= seq!['t', 'o', 'E', 'n', 'd']);
    reveal_strlit("nodes");
    assert("nodes"@ =~= seq!['n', 'o', 'd', 'e', 's']);
    reveal_strlit("edges");
    assert("edges"@ =~= seq!['e', 'd', 'g', 'e', 's']);
    reveal_strlit("link");
    assert("link"@ =~= seq!['l', 'i', 'n', 'k']);
    reveal_strlit("group");
    assert("group"@ =~= seq!['g', 'r', 'o', 'u', 'p']);
    reveal_strlit("cover");
    assert("cover"@ =~= seq!['c', 'o', 'v', 'e', 'r']);
    reveal_strlit("ratio");
    assert("ratio"@ =~= seq!['r', 'a', 't', 'i', 'o']);
    reveal_strlit("repeat");
    assert("repeat"@ =~= seq!['r', 'e', 'p', 'e', 'a', 't']);
    reveal_strlit("top");
    assert("top"@ =~= seq!['t', 'o', 'p']);
    reveal_strlit("left");
    assert("left"@ =~= seq!['l', 'e', 'f', 't']);
    reveal_strlit("right");
    assert("right"@ =~= seq!['r', 'i', 'g', 'h', 't']);
    reveal_strlit("bottom");
    assert("bottom"@ =~= seq!['b', 'o', 't', 't', 'o', 'm']);
    reveal_strlit("none");
    assert("none"@ =~= seq!['n', 'o', 'n', 'e']);
    reveal_strlit("arrow");
    assert("arrow"@ =~= seq!['a', 'r', 'r', 'o', 'w']);
}

/// The wire keys and tokens are pairwise distinct.
#[verifier::rlimit(100)]
#[verifier::spinoff_prover]
pub proof fn lemma_node_keys_distinct()
    ensures
        "id"@ != "x"@,
        "id"@ != "y"@,
        "id"@ != "width"@,
        "id"@ != "height"@,
        "id"@ != "color"@,
        "id"@ != "type"@,
        "id"@ != "text"@,
        "id"@ != "file"@,
        "id"@ != "subpath"@,
        "id"@ != "url"@,
        "id"@ != "label"@,
        "id"@ != "background"@,
        "id"@ != "backgroundStyle"@,
        "id"@ != "nodes"@,
        "id"@ != "edges"@,
        "id"@ != "link"@,
        "id"@ != "group"@,
        "x"@ != "y"@,
        "x"@ != "width"@,
        "x"@ != "height"@,
        "x"@ != "color"@,
        "x"@ != "type"@,
        "x"@ != "text"@,
        "x"@ != "file"@,
        "x"@ != "subpath"@,
        "x"@ != "url"@,
        "x"@ != "label"@,
        "x"@ != "background"@,
        "x"@ != "backgroundStyle"@,
        "x"@ != "nodes"@,
        "x"@ != "edges"@,
        "x"@ != "link"@,
        "x"@ != "group"@,
        "y"@ != "width"@,
        "y"@ != "height"@,
        "y"@ != "color"@,
        "y"@ != "type"@,
        "y"@ != "text"@,
        "y"@ != "file"@,
        "y"@ != "subpath"@,
        "y"@ != "url"@,
        "y"@ != "label"@,
        "y"@ != "background"@,
        "y"@ != "backgroundStyle"@,
        "y"@ != "nodes"@,
        "y"@ != "edges"@,
        "y"@ != "link"@,
        "y"@ != "group"@,
        "width"@ != "height"@,
        "width"@ != "color"@,
        "width"@ != "type"@,
        "width"@ != "text"@,
        "width"@ != "file"@,
        "width"@ != "subpath"@,
        "width"@ != "url"@,
        "width"@ != "label"@,
        "width"@ != "background"@,
        "width"@ != "backgroundStyle"@,
        "width"@ != "nodes"@,
        "width"@ != "edges"@,
        "width"@ != "link"@,
        "width"@ != "group"@,
        "height"@ != "color"@,
        "height"@ != "type"@,
        "height"@ != "text"@,
        "height"@ != "file"@,
        "height"@ != "subpath"@,
        "height"@ != "url"@,
        "height"@ != "label"@,
        "height"@ != "background"@,
        "height"@ != "backgroundStyle"@,
        "height"@ != "nodes"@,
        "height"@ != "edges"@,
        "height"@ != "link"@,
        "height"@ != "group"@,
        "color"@ != "type"@,
        "color"@ != "text"@,
        "color"@ != "file"@,
        "color"@ != "subpath"@,
        "color"@ != "url"@,
        "color"@ != "label"@,
        "color"@ != "background"@,
        "color"@ != "backgroundStyle"@,
        "color"@ != "nodes"@,
        "color"@ != "edges"@,
        "color"@ != "link"@,
        "color"@ != "group"@,
        "type"@ != "text"@,
        "type"@ != "file"@,
        "type"@ != "subpath"@,
        "type"@ != "url"@,
        "type"@ != "label"@,
        "type"@ != "background"@,
        "type"@ != "backgroundStyle"@,
        "type"@ != "nodes"@,
        "type"@ != "edges"@,
        "type"@ != "link"@,
        "type"@ != "group"@,
        "text"@ != "file"@,
        "text"@ != "subpath"@,
        "text"@ != "url"@,
        "text"@ != "label"@,
        "text"@ != "background"@,
        "text"@ != "backgroundStyle"@,
        "text"@ != "nodes"@,
        "text"@ != "edges"@,
        "text"@ != "link"@,
        "text"@ != "group"@,
        "file"@ != "subpath"@,
        "file"@ != "url"@,
        "file"@ != "label"@,
        "file"@ != "background"@,
        "file"@ != "backgroundStyle"@,
        "file"@ != "nodes"@,
        "file"@ != "edges"@,
        "file"@ != "link"@,
        "file"@ != "group"@,
        "subpath"@ != "url"@,
        "subpath"@ != "label"@,
        "subpath"@ != "background"@,
        "subpath"@ != "backgroundStyle"@,
        "subpath"@ != "nodes"@,
        "subpath"@ != "edges"@,
        "subpath"@ != "link"@,
        "subpath"@ != "group"@,
        "url"@ != "label"@,
        "url"@ != "background"@,
        "url"@ != "backgroundStyle"@,
        "url"@ != "nodes"@,
        "url"@ != "edges"@,
        "url"@ != "link"@,
        "url"@ != "group"@,
        "label"@ != "background"@,
        "label"@ != "backgroundStyle"@,
        "label"@ != "nodes"@,
        "label"@ != "edges"@,
        "label"@ != "link"@,
        "label"@ != "group"@,
        "background"@ != "backgroundStyle"@,
        "background"@ != "nodes"@,
        "background"@ != "edges"@,
        "background"@ != "link"@,
        "background"@ != "group"@,
        "backgroundStyle"@ != "nodes"@,
        "backgroundStyle"@ != "edges"@,
        "backgroundStyle"@ != "link"@,
        "backgroundStyle"@ != "group"@,
        "nodes"@ != "edges"@,
        "nodes"@ != "link"@,
        "nodes"@ != "group"@,
        "edges"@ != "link"@,
        "edges"@ != "group"@,
        "link"@ != "group"@,
{
    lemma_wire_literals();
    assert("id"@.len() == 2);
    assert("x"@.len() == 1);
    assert("id"@ != "x"@);
    assert("id"@.len() == 2);
    assert("y"@.len() == 1);
    assert("id"@ != "y"@);
    assert("id"@.len() == 2);
    assert("width"@.len() == 5);
    assert("id"@ != "width"@);
    assert("id"@.len() == 2);
    assert("height"@.len() == 6);
    assert("id"@ != "height"@);
    assert("id"@.len() == 2);
    assert("color"@.len() == 5);
    assert("id"@ != "color"@);
    assert("id"@.len() == 2);
    assert("type"@.len() == 4);
    assert("id"@ != "type"@);
    assert("id"@.len() == 2);
    assert("text"@.len() == 4);
    assert("id"@ != "text"@);
    assert("id"@.len() == 2);
    assert("file"@.len() == 4);
    assert("id"@ != "file"@);
    assert("id"@.len() == 2);
    assert("subpath"@.len() == 7);
    assert("id"@ != "subpath"@);
    assert("id"@.len() == 2);
    assert("url"@.len() == 3);
    assert("id"@ != "url"@);
    assert("id"@.len() == 2);
    assert("label"@.len() == 5);
    assert("id"@ != "label"@);
    assert("id"@.len() == 2);
    assert("background"@.len() == 10);
    assert("id"@ != "background"@);
    assert("id"@.len() == 2);
    assert("backgroundStyle"@.len() == 15);
    assert("id"@ != "backgroundStyle"@);
    assert("id"@.len() == 2);
    assert("nodes"@.len() == 5);
    assert("id"@ != "nodes"@);
    assert("id"@.len() == 2);
    assert("edges"@.len() == 5);
    assert("id"@ != "edges"@);
    assert("id"@.len() == 2);
    assert("link"@.len() == 4);
    assert("id"@ != "link"@);
    assert("id"@.len() == 2);
    assert("group"@.len() == 5);
    assert("id"@ != "group"@);
    assert("x"@[0] != "y"@[0]);
    assert("x"@ != "y"@);
    assert("x"@.len() == 1);
    assert("width"@.len() == 5);
    assert("x"@ != "width"@);
    assert("x"@.len() == 1);
    assert("height"@.len() == 6);
    assert("x"@ != "height"@);
    assert("x"@.len() == 1);
    assert("color"@.len() == 5);
    assert("x"@ != "color"@);
    assert("x"@.len() == 1);
    assert("type"@.len() == 4);
    assert("x"@ != "type"@);
    assert("x"@.len() == 1);
    assert("text"@.len() == 4);
    assert("x"@ != "text"@);
    assert("x"@.len() == 1);
    assert("file"@.len() == 4);
    assert("x"@ != "file"@);
    assert("x"@.len() == 1);
    assert("subpath"@.len() == 7);
    assert("x"@ != "subpath"@);
    assert("x"@.len() == 1);
    assert("url"@.len() == 3);
    assert("x"@ != "url"@);
    assert("x"@.len() == 1);
    assert("label"@.len() == 5);
    assert("x"@ != "label"@);
    assert("x"@.len() == 1);
    assert("background"@.len() == 10);
    assert("x"@ != "background"@);
    assert("x"@.len() == 1);
    assert("backgroundStyle"@.len() == 15);
    assert("x"@ != "backgroundStyle"@);
    assert("x"@.len() == 1);
    assert("nodes"@.len() == 5);
    assert("x"@ != "nodes"@);
    assert("x"@.len() == 1);
    assert("edges"@.len() == 5);
    assert("x"@ != "edges"@);
    assert("x"@.len() == 1);
    assert("link"@.len() == 4);
    assert("x"@ != "link"@);
    assert("x"@.len() == 1);
    assert("group"@.len() == 5);
    assert("x"@ != "group"@);
    assert("y"@.len() == 1);
    assert("width"@.len() == 5);
    assert("y"@ != "width"@);
    assert("y"@.len() == 1);
    assert("height"@.len() == 6);
    assert("y"@ != "height"@);
    assert("y"@.len() == 1);
    assert("color"@.len() == 5);
    assert("y"@ != "color"@);
    assert("y"@.len() == 1);
    assert("type"@.len() == 4);
    assert("y"@ != "type"@);
    assert("y"@.len() == 1);
    assert("text"@.len() == 4);
    assert("y"@ != "text"@);
    assert("y"@.len() == 1);
    assert("file"@.len() == 4);
    assert("y"@ != "file"@);
    assert("y"@.len() == 1);
    assert("subpath"@.len() == 7);
    assert("y"@ != "subpath"@);
    assert("y"@.len() == 1);
    assert("url"@.len() == 3);
    assert("y"@ != "url"@);
    assert("y"@.len() == 1);
    assert("label"@.len() == 5);
    assert("y"@ != "label"@);
    assert("y"@.len() == 1);
    assert("background"@.len() == 10);
    assert("y"@ != "background"@);
    assert("y"@.len() == 1);
    assert("backgroundStyle"@.len() == 15);
    assert("y"@ != "backgroundStyle"@);
    assert("y"@.len() == 1);
    assert("nodes"@.len() == 5);
    assert("y"@ != "nodes"@);
    assert("y"@.len() == 1);
    assert("edges"@.len() == 5);
    assert("y"@ != "edges"@);
    assert("y"@.len() == 1);
    assert("link"@.len() == 4);
    assert("y"@ != "link"@);
    assert("y"@.len() == 1);
    assert("group"@.len() == 5);
    assert("y"@ != "group"@);
    assert("width"@.len() == 5);
    assert("height"@.len() == 6);
    assert("width"@ != "height"@);
    assert("width"@[0] != "color"@[0]);
    assert("width"@ != "color"@);
    assert("width"@.len() == 5);
    assert("type"@.len() == 4);
    assert("width"@ != "type"@);
    assert("width"@.len() == 5);
    assert("text"@.len() == 4);
    assert("width"@ != "text"@);
    assert("width"@.len() == 5);
    assert("file"@.len() == 4);
    assert("width"@ != "file"@);
    assert("width"@.len() == 5);
    assert("subpath"@.len() == 7);
    assert("width"@ != "subpath"@);
    assert("width"@.len() == 5);
    assert("url"@.len() == 3);
    assert("width"@ != "url"@);
    assert("width"@[0] != "label"@[0]);
    assert("width"@ != "label"@);
    assert("width"@.len() == 5);
    assert("background"@.len() == 10);
    assert("width"@ != "background"@);
    assert("width"@.len() == 5);
    assert("backgroundStyle"@.len() == 15);
    assert("width"@ != "backgroundStyle"@);
    assert("width"@[0] != "nodes"@[0]);
    assert("width"@ != "nodes"@);
    assert("width"@[0] != "edges"@[0]);
    assert("width"@ != "edges"@);
    assert("width"@.len() == 5);
    assert("link"@.len() == 4);
    assert("width"@ != "link"@);
    assert("width"@[0] != "group"@[0]);
    assert("width"@ != "group"@);
    assert("height"@.len() == 6);
    assert("color"@.len() == 5);
    assert("height"@ != "color"@);
    assert("height"@.len() == 6);
    assert("type"@.len() == 4);
    assert("height"@ != "type"@);
    assert("height"@.len() == 6);
    assert("text"@.len() == 4);
    assert("height"@ != "text"@);
    assert("height"@.len() == 6);
    assert("file"@.len() == 4);
    assert("height"@ != "file"@);
    assert("height"@.len() == 6);
    assert("subpath"@.len() == 7);
    assert("height"@ != "subpath"@);
    assert("height"@.len() == 6);
    assert("url"@.len() == 3);
    assert("height"@ != "url"@);
    assert("height"@.len() == 6);
    assert("label"@.len() == 5);
    assert("height"@ != "label"@);
    assert("height"@.len() == 6);
    assert("background"@.len() == 10);
    assert("height"@ != "background"@);
    assert("height"@.len() == 6);
    assert("backgroundStyle"@.len() == 15);
    assert("height"@ != "backgroundStyle"@);
    assert("height"@.len() == 6);
    assert("nodes"@.len() == 5);
    assert("height"@ != "nodes"@);
    assert("height"@.len() == 6);
    assert("edges"@.len() == 5);
    assert("height"@ != "edges"@);
    assert("height"@.len() == 6);
    assert("link"@.len() == 4);
    assert("height"@ != "link"@);
    assert("height"@.len() == 6);
    assert("group"@.len() == 5);
    assert("height"@ != "group"@);
    assert("color"@.len() == 5);
    assert("type"@.len() == 4);
    assert("color"@ != "type"@);
    assert("color"@.len() == 5);
    assert("text"@.len() == 4);
    assert("color"@ != "text"@);
    assert("color"@.len() == 5);
    assert("file"@.len() == 4);
    assert("color"@ != "file"@);
    assert("color"@.len() == 5);
    assert("subpath"@.len() == 7);
    assert("color"@ != "subpath"@);
    assert("color"@.len() == 5);
    assert("url"@.len() == 3);
    assert("color"@ != "url"@);
    assert("color"@[0] != "label"@[0]);
    assert("color"@ != "label"@);
    assert("color"@.len() == 5);
    assert("background"@.len() == 10);
    assert("color"@ != "background"@);
    assert("color"@.len() == 5);
    assert("backgroundStyle"@.len() == 15);
    assert("color"@ != "backgroundStyle"@);
    assert("color"@[0] != "nodes"@[0]);
    assert("color"@ != "nodes"@);
    assert("color"@[0] != "edges"@[0]);
    assert("color"@ != "edges"@);
    assert("color"@.len() == 5);
    assert("link"@.len() == 4);
    assert("color"@ != "link"@);
    assert("color"@[0] != "group"@[0]);
    assert("color"@ != "group"@);
    assert("type"@[1] != "text"@[1]);
    assert("type"@ != "text"@);
    assert("type"@[0] != "file"@[0]);
    assert("type"@ != "file"@);
    assert("type"@.len() == 4);
    assert("subpath"@.len() == 7);
    assert("type"@ != "subpath"@);
    assert("type"@.len() == 4);
    assert("url"@.len() == 3);
    assert("type"@ != "url"@);
    assert("type"@.len() == 4);
    assert("label"@.len() == 5);
    assert("type"@ != "label"@);
    assert("type"@.len() == 4);
    assert("background"@.len() == 10);
    assert("type"@ != "background"@);
    assert("type"@.len() == 4);
    assert("backgroundStyle"@.len() == 15);
    assert("type"@ != "backgroundStyle"@);
    assert("type"@.len() == 4);
    assert("nodes"@.len() == 5);
    assert("type"@ != "nodes"@);
    assert("type"@.len() == 4);
    assert("edges"@.len() == 5);
    assert("type"@ != "edges"@);
    assert("type"@[0] != "link"@[0]);
    assert("type"@ != "link"@);
    assert("type"@.len() == 4);
    assert("group"@.len() == 5);
    assert("type"@ != "group"@);
    assert("text"@[0] != "file"@[0]);
    assert("text"@ != "file"@);
    assert("text"@.len() == 4);
    assert("subpath"@.len() == 7);
    assert("text"@ != "subpath"@);
    assert("text"@.len() == 4);
    assert("url"@.len() == 3);
    assert("text"@ != "url"@);
    assert("text"@.len() == 4);
    assert("label"@.len() == 5);
    assert("text"@ != "label"@);
    assert("text"@.len() == 4);
    assert("background"@.len() == 10);
    assert("text"@ != "background"@);
    assert("text"@.len() == 4);
    assert("backgroundStyle"@.len() == 15);
    assert("text"@ != "backgroundStyle"@);
    assert("text"@.len() == 4);
    assert("nodes"@.len() == 5);
    assert("text"@ != "nodes"@);
    assert("text"@.len() == 4);
    assert("edges"@.len() == 5);
    assert("text"@ != "edges"@);
    assert("text"@[0] != "link"@[0]);
    assert("text"@ != "link"@);
    assert("text"@.len() == 4);
    assert("group"@.len() == 5);
    assert("text"@ != "group"@);
    assert("file"@.len() == 4);
    assert("subpath"@.len() == 7);
    assert("file"@ != "subpath"@);
    assert("file"@.len() == 4);
    assert("url"@.len() == 3);
    assert("file"@ != "url"@);
    assert("file"@.len() == 4);
    assert("label"@.len() == 5);
    assert("file"@ != "label"@);
    assert("file"@.len() == 4);
    assert("background"@.len() == 10);
    assert("file"@ != "background"@);
    assert("file"@.len() == 4);
    assert("backgroundStyle"@.len() == 15);
    assert("file"@ != "backgroundStyle"@);
    assert("file"@.len() == 4);
    assert("nodes"@.len() == 5);
    assert("file"@ != "nodes"@);
    assert("file"@.len() == 4);
    assert("edges"@.len() == 5);
    assert("file"@ != "edges"@);
    assert("file"@[0] != "link"@[0]);
    assert("file"@ != "link"@);
    assert("file"@.len() == 4);
    assert("group"@.len() == 5);
    assert("file"@ != "group"@);
    assert("subpath"@.len() == 7);
    assert("url"@.len() == 3);
    assert("subpath"@ != "url"@);
    assert("subpath"@.len() == 7);
    assert("label"@.len() == 5);
    assert("subpath"@ != "label"@);
    assert("subpath"@.len() == 7);
    assert("background"@.len() == 10);
    assert("subpath"@ != "background"@);
    assert("subpath"@.len() == 7);
    assert("backgroundStyle"@.len() == 15);
    assert("subpath"@ != "backgroundStyle"@);
    assert("subpath"@.len() == 7);
    assert("nodes"@.len() == 5);
    assert("subpath"@ != "nodes"@);
    assert("subpath"@.len() == 7);
    assert("edges"@.len() == 5);
    assert("subpath"@ != "edges"@);
    assert("subpath"@.len() == 7);
    assert("link"@.len() == 4);
    assert("subpath"@ != "link"@);
    assert("subpath"@.len() == 7);
    assert("group"@.len() == 5);
    assert("subpath"@ != "group"@);
    assert("url"@.len() == 3);
    assert("label"@.len() == 5);
    assert("url"@ != "label"@);
    assert("url"@.len() == 3);
    assert("background"@.len() == 10);
    assert("url"@ != "background"@);
    assert("url"@.len() == 3);
    assert("backgroundStyle"@.len() == 15);
    assert("url"@ != "backgroundStyle"@);
    assert("url"@.len() == 3);
    assert("nodes"@.len() == 5);
    assert("url"@ != "nodes"@);
    assert("url"@.len() == 3);
    assert("edges"@.len() == 5);
    assert("url"@ != "edges"@);
    assert("url"@.len() == 3);
    assert("link"@.len() == 4);
    assert("url"@ != "link"@);
    assert("url"@.len() == 3);
    assert("group"@.len() == 5);
    assert("url"@ != "group"@);
    assert("label"@.len() == 5);
    assert("background"@.len() == 10);
    assert("label"@ != "background"@);
    assert("label"@.len() == 5);
    assert("backgroundStyle"@.len() == 15);
    assert("label"@ != "backgroundStyle"@);
    assert("label"@[0] != "nodes"@[0]);
    assert("label"@ != "nodes"@);
    assert("label"@[0] != "edges"@[0]);
    assert("label"@ != "edges"@);
    assert("label"@.len() == 5);
    assert("link"@.len() == 4);
    assert("label"@ != "link"@);
    assert("label"@[0] != "group"@[0]);
    assert("label"@ != "group"@);
    assert("background"@.len() == 10);
    assert("backgroundStyle"@.len() == 15);
    assert("background"@ != "backgroundStyle"@);
    assert("background"@.len() == 10);
    assert("nodes"@.len() == 5);
    assert("background"@ != "nodes"@);
    assert("background"@.len() == 10);
    assert("edges"@.len() == 5);
    assert("background"@ != "edges"@);
    assert("background"@.len() == 10);
    assert("link"@.len() == 4);
    assert("background"@ != "link"@);
    assert("background"@.len() == 10);
    assert("group"@.len() == 5);
    assert("background"@ != "group"@);
    assert("backgroundStyle"@.len() == 15);
    assert("nodes"@.len() == 5);
    assert("backgroundStyle"@ != "nodes"@);
    assert("backgroundStyle"@.len() == 15);
    assert("edges"@.len() == 5);
    assert("backgroundStyle"@ != "edges"@);
    assert("backgroundStyle"@.len() == 15);
    assert("link"@.len() == 4);
    assert("backgroundStyle"@ != "link"@);
    assert("backgroundStyle"@.len() == 15);
    assert("group"@.len() == 5);
    assert("backgroundStyle"@ != "group"@);
    assert("nodes"@[0] != "edges"@[0]);
    assert("nodes"@ != "edges"@);
    assert("nodes"@.len() == 5);
    assert("link"@.len() == 4);
    assert("nodes"@ != "link"@);
    assert("nodes"@[0] != "group"@[0]);
    assert("nodes"@ != "group"@);
    assert("edges"@.len() == 5);
    assert("link"@.len() == 4);
    assert("edges"@ != "link"@);
    assert("edges"@[0] != "group"@[0]);
    assert("edges"@ != "group"@);
    assert("link"@.len() == 4);
    assert("group"@.len() == 5);
    assert("link"@ != "group"@);
}

/// The edge keys are pairwise distinct.
#[verifier::rlimit(100)]
#[verifier::spinoff_prover]
pub proof fn lemma_edge_keys_distinct()
    ensures
        "id"@ != "fromNode"@,
        "id"@ != "fromSide"@,
        "id"@ != "fromEnd"@,
        "id"@ != "toNode"@,
        "id"@ != "toSide"@,
        "id"@ != "toEnd"@,
        "id"@ != "color"@,
        "id"@ != "label"@,
        "fromNode"@ != "fromSide"@,
        "fromNode"@ != "fromEnd"@,
        "fromNode"@ != "toNode"@,
        "fromNode"@ != "toSide"@,
        "fromNode"@ != "toEnd"@,
        "fromNode"@ != "color"@,
        "fromNode"@ != "label"@,
        "fromSide"@ != "fromEnd"@,
        "fromSide"@ != "toNode"@,
        "fromSide"@ != "toSide"@,
        "fromSide"@ != "toEnd"@,
        "fromSide"@ != "color"@,
        "fromSide"@ != "label"@,
        "fromEnd"@ != "toNode"@,
        "fromEnd"@ != "toSide"@,
        "fromEnd"@ != "toEnd"@,
        "fromEnd"@ != "color"@,
        "fromEnd"@ != "label"@,
        "toNode"@ != "toSide"@,
        "toNode"@ != "toEnd"@,
        "toNode"@ != "color"@,
        "toNode"@ != "label"@,
        "toSide"@ != "toEnd"@,
        "toSide"@ != "color"@,
        "toSide"@ != "label"@,
        "toEnd"@ != "color"@,
        "toEnd"@ != "label"@,
        "color"@ != "label"@,
{
    lemma_wire_literals();
    assert("id"@.len() == 2);
    assert("fromNode"@.len() == 8);
    assert("id"@ != "fromNode"@);
    assert("id"@.len() == 2);
    assert("fromSide"@.len() == 8);
    assert("id"@ != "fromSide"@);
    assert("id"@.len() == 2);
    assert("fromEnd"@.len() == 7);
    assert("id"@ != "fromEnd"@);
    assert("id"@.len() == 2);
    assert("toNode"@.len() == 6);
    assert("id"@ != "toNode"@);
    assert("id"@.len() == 2);
    assert("toSide"@.len() == 6);
    assert("id"@ != "toSide"@);
    assert("id"@.len() == 2);
    assert("toEnd"@.len() == 5);
    assert("id"@ != "toEnd"@);
    assert("id"@.len() == 2);
    assert("color"@.len() == 5);
    assert("id"@ != "color"@);
    assert("id"@.len() == 2);
    assert("label"@.len() == 5);
    assert("id"@ != "label"@);
    assert("fromNode"@[4] != "fromSide"@[4]);
    assert("fromNode"@ != "fromSide"@);
    assert("fromNode"@.len() == 8);
    assert("fromEnd"@.len() == 7);
    assert("fromNode"@ != "fromEnd"@);
    assert("fromNode"@.len() == 8);
    assert("toNode"@.len() == 6);
    assert("fromNode"@ != "toNode"@);
    assert("fromNode"@.len() == 8);
    assert("toSide"@.len() == 6);
    assert("fromNode"@ != "toSide"@);
    assert("fromNode"@.len() == 8);
    assert("toEnd"@.len() == 5);
    assert("fromNode"@ != "toEnd"@);
    assert("fromNode"@.len() == 8);
    assert("color"@.len() == 5);
    assert("fromNode"@ != "color"@);
    assert("fromNode"@.len() == 8);
    assert("label"@.len() == 5);
    assert("fromNode"@ != "label"@);
    assert("fromSide"@.len() == 8);
    assert("fromEnd"@.len() == 7);
    assert("fromSide"@ != "fromEnd"@);
    assert("fromSide"@.len() == 8);
    assert("toNode"@.len() == 6);
    assert("fromSide"@ != "toNode"@);
    assert("fromSide"@.len() == 8);
    assert("toSide"@.len() == 6);
    assert("fromSide"@ != "toSide"@);
    assert("fromSide"@.len() == 8);
    assert("toEnd"@.len() == 5);
    assert("fromSide"@ != "toEnd"@);
    assert("fromSide"@.len() == 8);
    assert("color"@.len() == 5);
    assert("fromSide"@ != "color"@);
    assert("fromSide"@.len() == 8);
    assert("label"@.len() == 5);
    assert("fromSide"@ != "label"@);
    assert("fromEnd"@.len() == 7);
    assert("toNode"@.len() == 6);
    assert("fromEnd"@ != "toNode"@);
    assert("fromEnd"@.len() == 7);
    assert("toSide"@.len() == 6);
    assert("fromEnd"@ != "toSide"@);
    assert("fromEnd"@.len() == 7);
    assert("toEnd"@.len() == 5);
    assert("fromEnd"@ != "toEnd"@);
    assert("fromEnd"@.len() == 7);
    assert("color"@.len() == 5);
    assert("fromEnd"@ != "color"@);
    assert("fromEnd"@.len() == 7);
    assert("label"@.len() == 5);
    assert("fromEnd"@ != "label"@);
    assert("toNode"@[2] != "toSide"@[2]);
    assert("toNode"@ != "toSide"@);
    assert("toNode"@.len() == 6);
    assert("toEnd"@.len() == 5);
    assert("toNode"@ != "toEnd"@);
    assert("toNode"@.len() == 6);
    assert("color"@.len() == 5);
    assert("toNode"@ != "color"@);
    assert("toNode"@.len() == 6);
    assert("label"@.len() == 5);
    assert("toNode"@ != "label"@);
    assert("toSide"@.len() == 6);
    assert("toEnd"@.len() == 5);
    assert("toSide"@ != "toEnd"@);
    assert("toSide"@.len() == 6);
    assert("color"@.len() == 5);
    assert("toSide"@ != "color"@);
    assert("toSide"@.len() == 6);
    assert("label"@.len() == 5);
    assert("toSide"@ != "label"@);
    assert("toEnd"@[0] != "color"@[0]);
    assert("toEnd"@ != "color"@);
    assert("toEnd"@[0] != "label"@[0]);
    assert("toEnd"@ != "label"@);
    assert("color"@[0] != "label"@[0]);
    assert("color"@ != "label"@);
}

/// The value at a position whose key no earlier position carries.
proof fn lemma_obj_lookup_at(fields: Seq<(Seq<char>, JsonV)>, key: Seq<char>, i: int)
    requires
        0 <= i < fields.len(),
        fields[i].0 == key,
        forall|t: int| 0 <= t < i ==> (#[trigger] fields[t]).0 != key,
    ensures
        obj_lookup(fields, key) == Some(fields[i].1),
{
    lemma_obj_lookup_skip(fields, key, i);
    assert(fields.skip(i)[0] == fields[i]);
}

/// A key no position carries is not found.
proof fn lemma_obj_lookup_absent(fields: Seq<(Seq<char>, JsonV)>, key: Seq<char>)
    requires
        forall|t: int| 0 <= t < fields.len() ==> (#[trigger] fields[t]).0 != key,
    ensures
        obj_lookup(fields, key) is None,
{
    lemma_obj_lookup_skip(fields, key, fields.len() as int);
    assert(fields.skip(fields.len() as int) =~= Seq::<(Seq<char>, JsonV)>::empty());
}

/// When every key is allowed, no key is unknown.
proof fn lemma_first_unknown_none(fields: Seq<(Seq<char>, JsonV)>, allowed: Seq<Seq<char>>)
    requires
        forall|i: int| 0 <= i < fields.len() ==> allowed.contains((#[trigger] fields[i]).0),
    ensures
        first_unknown(fields, allowed) is None,
    decreases fields.len(),
{
    if fields.len() > 0 {
        assert(allowed.contains(fields[0].0));
        assert(forall|i: int|
            0 <= i < fields.len() - 1 ==> #[trigger] fields.skip(1)[i] == fields[i + 1]);
        lemma_first_unknown_none(fields.skip(1), allowed);
    }
}

/// Where each generic field sits and what it holds; every key of the
/// generic part is one of its six.
proof fn lemma_generic_fields_props(g: GenericNodeV)
    ensures
        obj_lookup(generic_fields(g), "id"@) == Some(JsonV::Str(g.id)),
        obj_lookup(generic_fields(g), "x"@) == Some(num_of_i64(g.x)),
        obj_lookup(generic_fields(g), "y"@) == Some(num_of_i64(g.y)),
        obj_lookup(generic_fields(g), "width"@) == Some(num_of_u64(g.width)),
        obj_lookup(generic_fields(g), "height"@) == Some(num_of_u64(g.height)),
        obj_lookup(generic_fields(g), "color"@) == (match g.color {
            Some(c) => Some(JsonV::Str(color_text(c))),
            None => None::<JsonV>,
        }),
        forall|i: int|
            0 <= i < generic_fields(g).len() ==> ((#[trigger] generic_fields(g)[i]).0 == "id"@
                || generic_fields(g)[i].0 == "x"@ || generic_fields(g)[i].0 == "y"@
                || generic_fields(g)[i].0 == "width"@ || generic_fields(g)[i].0 == "height"@
                || generic_fields(g)[i].0 == "color"@),
{
    lemma_node_keys_distinct();
    let gf = generic_fields(g);
    match g.color {
        Some(c) => {
            assert(gf =~= seq![
                ("id"@, JsonV::Str(g.id)),
                ("x"@, num_of_i64(g.x)),
                ("y"@, num_of_i64(g.y)),
                ("width"@, num_of_u64(g.width)),
                ("height"@, num_of_u64(g.height)),
                ("color"@, JsonV::Str(color_text(c))),
            ]);
            lemma_obj_lookup_at(gf, "id"@, 0);
            lemma_obj_lookup_at(gf, "x"@, 1);
            lemma_obj_lookup_at(gf, "y"@, 2);
            lemma_obj_lookup_at(gf, "width"@, 3);
            lemma_obj_lookup_at(gf, "height"@, 4);
            lemma_obj_lookup_at(gf, "color"@, 5);
        },
        None => {
            assert(gf =~= seq![
                ("id"@, JsonV::Str(g.id)),
                ("x"@, num_of_i64(g.x)),
                ("y"@, num_of_i64(g.y)),
                ("width"@, num_of_u64(g.width)),
                ("height"@, num_of_u64(g.height)),
            ]);
            lemma_obj_lookup_at(gf, "id"@, 0);
            lemma_obj_lookup_at(gf, "x"@, 1);
            lemma_obj_lookup_at(gf, "y"@, 2);
            lemma_obj_lookup_at(gf, "width"@, 3);
            lemma_obj_lookup_at(gf, "height"@, 4);
            lemma_obj_lookup_absent(gf, "color"@);
        },
    }
}

/// Each fixed-vocabulary token decodes back to its own value.
pub proof fn lemma_token_round_trips()
    ensures
        forall|s: crate::edge::Side| #[trigger] super::side_from_text(super::side_text(s)) == Some(s),
        forall|e: crate::edge::End| #[trigger] super::end_from_text(super::end_text(e)) == Some(e),
        forall|b: crate::node::BackgroundStyle| #[trigger] super::style_from_text(
            super::style_text(b),
        ) == Some(b),
{
    lemma_wire_literals();
    assert("top"@.len() == 3 && "left"@.len() == 4 && "right"@.len() == 5 && "bottom"@.len()
        == 6);
    assert("none"@.len() == 4 && "arrow"@.len() == 5);
    assert("cover"@[0] != "ratio"@[0]);
    assert("cover"@.len() == 5 && "ratio"@.len() == 5 && "repeat"@.len() == 6);
    assert forall|s: crate::edge::Side| #[trigger] super::side_from_text(super::side_text(s))
        == Some(s) by {
        match s {
            crate::edge::Side::Top => {},
            crate::edge::Side::Left => {
                assert("left"@ != "top"@);
            },
            crate::edge::Side::Right => {
                assert("right"@ != "top"@ && "right"@ != "left"@);
            },
            crate::edge::Side::Bottom => {
                assert("bottom"@ != "top"@ && "bottom"@ != "left"@ && "bottom"@ != "right"@);
            },
        }
    }
    assert forall|e: crate::edge::End| #[trigger] super::end_from_text(super::end_text(e))
        == Some(e) by {
        match e {
            crate::edge::End::NoArrow => {},
            crate::edge::End::Arrow => {
                assert("arrow"@ != "none"@);
            },
        }
    }
    assert forall|b: crate::node::BackgroundStyle| #[trigger] super::style_from_text(
        super::style_text(b),
    ) == Some(b) by {
        match b {
            crate::node::BackgroundStyle::Cover => {},
            crate::node::BackgroundStyle::Ratio => {
                assert("ratio"@ != "cover"@);
            },
            crate::node::BackgroundStyle::Repeat => {
                assert("repeat"@ != "cover"@ && "repeat"@ != "ratio"@);
            },
        }
    }
}

/// Routes a key lookup on a node object to the part that holds it: the
/// generic fields first, then the `type` tag, then the variant fields.
proof fn lemma_obj_lookup_concat(
    a: Seq<(Seq<char>, JsonV)>,
    b: Seq<(Seq<char>, JsonV)>,
    key: Seq<char>,
)
    ensures
        obj_lookup(a + b, key) == (if obj_has_key(a, key) {
            obj_lookup(a, key)
        } else {
            obj_lookup(b, key)
        }),
    decreases a.len(),
{
    if a.len() == 0 {
        assert(a + b =~= b);
    } else {
        assert((a + b)[0] == a[0]);
        assert((a + b).skip(1) =~= a.skip(1) + b);
        lemma_obj_lookup_concat(a.skip(1), b, key);
    }
}

proof fn lemma_node_lookup(n: NodeV, key: Seq<char>)
    ensures
        obj_lookup(node_json(n)->Obj_0, key) == (if obj_has_key(
            generic_fields(node_generic(n)),
            key,
        ) {
            obj_lookup(generic_fields(node_generic(n)), key)
        } else if key == "type"@ {
            Some(JsonV::Str(type_tag(n)))
        } else {
            obj_lookup(variant_fields(n), key)
        }),
{
    let gf = generic_fields(node_generic(n));
    let tf = seq![("type"@, JsonV::Str(type_tag(n)))];
    let vf = variant_fields(n);
    assert(node_json(n)->Obj_0 == gf + tf + vf);
    lemma_obj_lookup_concat(gf + tf, vf, key);
    lemma_obj_lookup_concat(gf, tf, key);
    assert(tf.skip(1) =~= Seq::<(Seq<char>, JsonV)>::empty());
    assert(obj_lookup(Seq::<(Seq<char>, JsonV)>::empty(), key) is None);
    assert(obj_lookup(tf, key) == (if key == "type"@ {
        Some(JsonV::Str(type_tag(n)))
    } else {
        None::<JsonV>
    }));
}

/// Where each variant field sits and what it holds; every key of the
/// variant part is one of its seven.
#[verifier::rlimit(100)]
#[verifier::spinoff_prover]
proof fn lemma_variant_fields_props(n: NodeV)
    ensures
        forall|i: int|
            0 <= i < variant_fields(n).len() ==> ((#[trigger] variant_fields(n)[i]).0 == "text"@
                || variant_fields(n)[i].0 == "file"@ || variant_fields(n)[i].0 == "subpath"@
                || variant_fields(n)[i].0 == "url"@ || variant_fields(n)[i].0 == "label"@
                || variant_fields(n)[i].0 == "background"@ || variant_fields(n)[i].0
                == "backgroundStyle"@),
        n matches NodeV::Text(t) ==> obj_lookup(variant_fields(n), "text"@) == Some(
            JsonV::Str(t.text),
        ),
        n is Text ==> forall|i: int|
            0 <= i < variant_fields(n).len() ==> (#[trigger] variant_fields(n)[i]).0 == "text"@,
        n is File ==> forall|i: int|
            0 <= i < variant_fields(n).len() ==> ((#[trigger] variant_fields(n)[i]).0 == "file"@
                || variant_fields(n)[i].0 == "subpath"@),
        n is Link ==> forall|i: int|
            0 <= i < variant_fields(n).len() ==> (#[trigger] variant_fields(n)[i]).0 == "url"@,
        n is Group ==> forall|i: int|
            0 <= i < variant_fields(n).len() ==> ((#[trigger] variant_fields(n)[i]).0 == "label"@
                || variant_fields(n)[i].0 == "background"@ || variant_fields(n)[i].0
                == "backgroundStyle"@),
        n matches NodeV::File(f) ==> obj_lookup(variant_fields(n), "file"@) == Some(
            JsonV::Str(f.file),
        ) && obj_lookup(variant_fields(n), "subpath"@) == (match f.subpath {
            Some(sp) => Some(JsonV::Str(sp)),
            None => None::<JsonV>,
        }),
        n matches NodeV::Link(l) ==> obj_lookup(variant_fields(n), "url"@) == Some(
            JsonV::Str(l.url),
        ),
        n matches NodeV::Group(gr) ==> obj_lookup(variant_fields(n), "label"@) == (
        match gr.label {
            Some(lb) => Some(JsonV::Str(lb)),
            None => None::<JsonV>,
        }) && obj_lookup(variant_fields(n), "background"@) == (match gr.background {
            Some(bg) => Some(JsonV::Str(bg.image)),
            None => None::<JsonV>,
        }) && obj_lookup(variant_fields(n), "backgroundStyle"@) == (match gr.background {
            Some(bg) => match bg.background_style {
                Some(st) => Some(JsonV::Str(super::style_text(st))),
                None => None::<JsonV>,
            },
            None => None::<JsonV>,
        }),
{
    lemma_node_keys_distinct();
    let vf = variant_fields(n);
    match n {
        NodeV::Text(t) => {
            assert(vf =~= seq![("text"@, JsonV::Str(t.text))]);
            lemma_obj_lookup_at(vf, "text"@, 0);
        },
        NodeV::File(f) => {
            match f.subpath {
                Some(sp) => {
                    assert(vf =~= seq![
                        ("file"@, JsonV::Str(f.file)),
                        ("subpath"@, JsonV::Str(sp)),
                    ]);
                    lemma_obj_lookup_at(vf, "file"@, 0);
                    lemma_obj_lookup_at(vf, "subpath"@, 1);
                },
                None => {
                    assert(vf =~= seq![("file"@, JsonV::Str(f.file))]);
                    lemma_obj_lookup_at(vf, "file"@, 0);
                    lemma_obj_lookup_absent(vf, "subpath"@);
                },
            }
        },
        NodeV::Link(l) => {
            assert(vf =~= seq![("url"@, JsonV::Str(l.url))]);
            lemma_obj_lookup_at(vf, "url"@, 0);
        },
        NodeV::Group(gr) => {
            match gr.label {
                Some(lb) => {
                    match gr.background {
                        Some(bg) => {
                            match bg.background_style {
                                Some(st) => {
                                    assert(vf =~= seq![
                                        ("label"@, JsonV::Str(lb)),
                                        ("background"@, JsonV::Str(bg.image)),
                                        ("backgroundStyle"@, JsonV::Str(super::style_text(st))),
                                    ]);
                                    lemma_obj_lookup_at(vf, "label"@, 0);
                                    lemma_obj_lookup_at(vf, "background"@, 1);
                                    lemma_obj_lookup_at(vf, "backgroundStyle"@, 2);
                                },
                                None => {
                                    assert(vf =~= seq![
                                        ("label"@, JsonV::Str(lb)),
                                        ("background"@, JsonV::Str(bg.image)),
                                    ]);
                                    lemma_obj_lookup_at(vf, "label"@, 0);
                                    lemma_obj_lookup_at(vf, "background"@, 1);
                                    lemma_obj_lookup_absent(vf, "backgroundStyle"@);
                                },
                            }
                        },
                        None => {
                            assert(vf =~= seq![("label"@, JsonV::Str(lb))]);
                            lemma_obj_lookup_at(vf, "label"@, 0);
                            lemma_obj_lookup_absent(vf, "background"@);
                            lemma_obj_lookup_absent(vf, "backgroundStyle"@);
                        },
                    }
                },
                None => {
                    match gr.background {
                        Some(bg) => {
                            match bg.background_style {
                                Some(st) => {
                                    assert(vf =~= seq![
                                        ("background"@, JsonV::Str(bg.image)),
                                        ("backgroundStyle"@, JsonV::Str(super::style_text(st))),
                                    ]);
                                    lemma_obj_lookup_at(vf, "background"@, 0);
                                    lemma_obj_lookup_at(vf, "backgroundStyle"@, 1);
                                    lemma_obj_lookup_absent(vf, "label"@);
                                },
                                None => {
                                    assert(vf =~= seq![("background"@, JsonV::Str(bg.image))]);
                                    lemma_obj_lookup_at(vf, "background"@, 0);
                                    lemma_obj_lookup_absent(vf, "label"@);
                                    lemma_obj_lookup_absent(vf, "backgroundStyle"@);
                                },
                            }
                        },
                        None => {
                            assert(vf =~= Seq::<(Seq<char>, JsonV)>::empty());
                            lemma_obj_lookup_absent(vf, "label"@);
                            lemma_obj_lookup_absent(vf, "background"@);
                            lemma_obj_lookup_absent(vf, "backgroundStyle"@);
                        },
                    }
                },
            }
        },
    }
}

proof fn lemma_dec_i64_of_num(fields: Seq<(Seq<char>, JsonV)>, key: Seq<char>, x: i64)
    requires
        obj_lookup(fields, key) == Some(num_of_i64(x)),
    ensures
        dec_i64(fields, key) == Ok::<i64, ParseErrorV>(x),
{
    if x < 0 {
        let m = (-(x as int)) as u64;
        assert(-(x as int) <= 0x8000000000000000);
        assert(m as int == -(x as int));
        assert((-(m as int)) as i64 == x);
    } else {
        assert((x as u64) as i64 == x);
    }
}

/// Decoding an encoded node gives back exactly that node, for every
/// well-formed node value.
#[verifier::rlimit(100)]
#[verifier::spinoff_prover]
pub proof fn lemma_node_round_trip(n: NodeV)
    requires
        node_wf(n),
    ensures
        node_from_json(node_json(n)) == Ok::<NodeV, ParseErrorV>(n),
{
    lemma_node_keys_distinct();
    lemma_token_round_trips();
    let g = node_generic(n);
    let tag = type_tag(n);
    let fields = node_json(n)->Obj_0;
    let gf = generic_fields(g);
    let vf = variant_fields(n);
    lemma_generic_fields_props(g);
    lemma_variant_fields_props(n);
    // the type tag
    assert(forall|t: int| 0 <= t < gf.len() ==> (#[trigger] gf[t]).0 != "type"@);
    lemma_obj_lookup_absent(gf, "type"@);
    lemma_node_lookup(n, "type"@);
    assert(dec_str(fields, "type"@) == Ok::<Seq<char>, ParseErrorV>(tag));
    assert(tag == "text"@ || tag == "file"@ || tag == "link"@ || tag == "group"@);
    // every key of the object is allowed for this tag
    let allowed = node_keys(tag);
    assert(allowed[0] == "id"@ && allowed[1] == "x"@ && allowed[2] == "y"@ && allowed[3]
        == "width"@ && allowed[4] == "height"@ && allowed[5] == "color"@ && allowed[6]
        == "type"@);
    assert(allowed.contains("id"@) && allowed.contains("x"@) && allowed.contains("y"@)
        && allowed.contains("width"@) && allowed.contains("height"@) && allowed.contains(
        "color"@,
    ) && allowed.contains("type"@));
    match n {
        NodeV::Text(_) => {
            assert(allowed[7] == "text"@);
            assert(allowed.contains("text"@));
        },
        NodeV::File(_) => {
            assert(allowed[7] == "file"@ && allowed[8] == "subpath"@);
            assert(allowed.contains("file"@) && allowed.contains("subpath"@));
        },
        NodeV::Link(_) => {
            assert(allowed[7] == "url"@);
            assert(allowed.contains("url"@));
        },
        NodeV::Group(_) => {
            assert(allowed[7] == "label"@ && allowed[8] == "background"@ && allowed[9]
                == "backgroundStyle"@);
            assert(allowed.contains("label"@) && allowed.contains("background"@)
                && allowed.contains("backgroundStyle"@));
        },
    }
    let tf = seq![("type"@, JsonV::Str(tag))];
    assert(fields == gf + tf + vf);
    assert forall|i: int| 0 <= i < fields.len() implies allowed.contains(
        (#[trigger] fields[i]).0,
    ) by {
        let gl = gf.len() as int;
        if i < gl {
            assert(fields[i] == gf[i]);
        } else if i == gl {
            assert(fields[i] == tf[0]);
        } else {
            assert(fields[i] == vf[i - gl - 1]);
        }
    }
    lemma_first_unknown_none(fields, allowed);
    // the generic record
    lemma_node_lookup(n, "id"@);
    lemma_node_lookup(n, "x"@);
    lemma_node_lookup(n, "y"@);
    lemma_node_lookup(n, "width"@);
    lemma_node_lookup(n, "height"@);
    lemma_node_lookup(n, "color"@);
    assert(dec_str(fields, "id"@) == Ok::<Seq<char>, ParseErrorV>(g.id));
    assert(g.id.len() > 0);
    lemma_dec_i64_of_num(fields, "x"@, g.x);
    lemma_dec_i64_of_num(fields, "y"@, g.y);
    assert(dec_u64(fields, "width"@) == Ok::<u64, ParseErrorV>(g.width));
    assert(dec_u64(fields, "height"@) == Ok::<u64, ParseErrorV>(g.height));
    match g.color {
        Some(c) => {
            assert(color_wf(c));
            lemma_color_round_trip(c);
            assert(dec_opt_color(fields) == Ok::<Option<ColorV>, ParseErrorV>(Some(c)));
        },
        None => {
            assert(forall|q: int| 0 <= q < vf.len() ==> (#[trigger] vf[q]).0 != "color"@);
            lemma_obj_lookup_absent(vf, "color"@);
            assert(dec_opt_color(fields) == Ok::<Option<ColorV>, ParseErrorV>(None));
        },
    }
    assert(generic_from_fields(fields) =~~= Ok::<GenericNodeV, ParseErrorV>(g));
    // the variant payload
    match n {
        NodeV::Text(t) => {
            assert(forall|q: int| 0 <= q < gf.len() ==> (#[trigger] gf[q]).0 != "text"@);
            lemma_obj_lookup_absent(gf, "text"@);
            lemma_node_lookup(n, "text"@);
            assert(dec_str(fields, "text"@) == Ok::<Seq<char>, ParseErrorV>(t.text));
            assert(t =~= (crate::node::TextNodeV { generic: g, text: t.text }));
            assert(variant_from_fields(tag, g, fields) =~~= Ok::<NodeV, ParseErrorV>(n));
        },
        NodeV::File(f) => {
            assert(forall|q: int| 0 <= q < gf.len() ==> (#[trigger] gf[q]).0 != "file"@);
            assert(forall|q: int| 0 <= q < gf.len() ==> (#[trigger] gf[q]).0 != "subpath"@);
            lemma_obj_lookup_absent(gf, "file"@);
            lemma_obj_lookup_absent(gf, "subpath"@);
            lemma_node_lookup(n, "file"@);
            lemma_node_lookup(n, "subpath"@);
            assert(dec_str(fields, "file"@) == Ok::<Seq<char>, ParseErrorV>(f.file));
            assert(dec_opt_str(fields, "subpath"@) == Ok::<Option<Seq<char>>, ParseErrorV>(
                f.subpath,
            ));
            assert(tag != "text"@);
            assert(f =~= (crate::node::FileNodeV {
                generic: g,
                file: f.file,
                subpath: f.subpath,
            }));
            assert(variant_from_fields(tag, g, fields) =~~= Ok::<NodeV, ParseErrorV>(n));
        },
        NodeV::Link(l) => {
            assert(forall|q: int| 0 <= q < gf.len() ==> (#[trigger] gf[q]).0 != "url"@);
            lemma_obj_lookup_absent(gf, "url"@);
            lemma_node_lookup(n, "url"@);
            assert(dec_str(fields, "url"@) == Ok::<Seq<char>, ParseErrorV>(l.url));
            assert(crate::node::is_valid_url(l.url));
            assert(tag != "text"@ && tag != "file"@);
            assert(l =~= (crate::node::LinkNodeV { generic: g, url: l.url }));
            assert(variant_from_fields(tag, g, fields) =~~= Ok::<NodeV, ParseErrorV>(n));
        },
        NodeV::Group(gr) => {
            assert(forall|q: int| 0 <= q < gf.len() ==> (#[trigger] gf[q]).0 != "label"@);
            assert(forall|q: int| 0 <= q < gf.len() ==> (#[trigger] gf[q]).0 != "background"@);
            assert(forall|q: int|
                0 <= q < gf.len() ==> (#[trigger] gf[q]).0 != "backgroundStyle"@);
            lemma_obj_lookup_absent(gf, "label"@);
            lemma_obj_lookup_absent(gf, "background"@);
            lemma_obj_lookup_absent(gf, "backgroundStyle"@);
            lemma_node_lookup(n, "label"@);
            lemma_node_lookup(n, "background"@);
            lemma_node_lookup(n, "backgroundStyle"@);
            assert(dec_opt_str(fields, "label"@) == Ok::<Option<Seq<char>>, ParseErrorV>(
                gr.label,
            ));
            assert(tag != "text"@ && tag != "file"@ && tag != "link"@);
            match gr.background {
                Some(bg) => {
                    assert(dec_opt_str(fields, "background"@) == Ok::<
                        Option<Seq<char>>,
                        ParseErrorV,
                    >(Some(bg.image)));
                    match bg.background_style {
                        Some(st) => {
                            assert(dec_opt_str(fields, "backgroundStyle"@) == Ok::<
                                Option<Seq<char>>,
                                ParseErrorV,
                            >(Some(super::style_text(st))));
                            assert(super::style_from_text(super::style_text(st)) == Some(st));
                        },
                        None => {
                            assert(dec_opt_str(fields, "backgroundStyle"@) == Ok::<
                                Option<Seq<char>>,
                                ParseErrorV,
                            >(None));
                        },
                    }
                    assert(bg =~= (crate::node::BackgroundV {
                        image: bg.image,
                        background_style: bg.background_style,
                    }));
                },
                None => {
                    assert(dec_opt_str(fields, "background"@) == Ok::<
                        Option<Seq<char>>,
                        ParseErrorV,
                    >(None));
                    assert(dec_opt_str(fields, "backgroundStyle"@) == Ok::<
                        Option<Seq<char>>,
                        ParseErrorV,
                    >(None));
                },
            }
            assert(gr =~= (crate::node::GroupNodeV {
                generic: g,
                label: gr.label,
                background: gr.background,
            }));
            assert(variant_from_fields(tag, g, fields) =~~= Ok::<NodeV, ParseErrorV>(n));
        },
    }
    assert(node_from_json(node_json(n)) =~~= Ok::<NodeV, ParseErrorV>(n));
}

proof fn lemma_opt_field_lookup(k: Seq<char>, v: Option<JsonV>, key: Seq<char>)
    ensures
        obj_lookup(opt_field(k, v), key) == (if key == k {
            match v {
                Some(x) => Some(x),
                None => None::<JsonV>,
            }
        } else {
            None::<JsonV>
        }),
        forall|i: int| 0 <= i < opt_field(k, v).len() ==> (#[trigger] opt_field(k, v)[i]).0 == k,
{
    assert(obj_lookup(Seq::<(Seq<char>, JsonV)>::empty(), key) is None);
    match v {
        Some(x) => {
            assert(opt_field(k, v).skip(1) =~= Seq::<(Seq<char>, JsonV)>::empty());
        },
        None => {},
    }
}

/// Where each edge field sits and what it holds; every key of an edge
/// object is one of its nine.
#[verifier::rlimit(100)]
#[verifier::spinoff_prover]
proof fn lemma_edge_fields_props(e: EdgeV)
    ensures
        ({
            let fields = super::edge_json(e)->Obj_0;
            &&& obj_lookup(fields, "id"@) == Some(JsonV::Str(e.id))
            &&& obj_lookup(fields, "fromNode"@) == Some(JsonV::Str(e.from_node))
            &&& obj_lookup(fields, "toNode"@) == Some(JsonV::Str(e.to_node))
            &&& obj_lookup(fields, "fromSide"@) == (match e.from_side {
                Some(sd) => Some(JsonV::Str(super::side_text(sd))),
                None => None::<JsonV>,
            })
            &&& obj_lookup(fields, "fromEnd"@) == (match e.from_end {
                Some(en) => Some(JsonV::Str(super::end_text(en))),
                None => None::<JsonV>,
            })
            &&& obj_lookup(fields, "toSide"@) == (match e.to_side {
                Some(sd) => Some(JsonV::Str(super::side_text(sd))),
                None => None::<JsonV>,
            })
            &&& obj_lookup(fields, "toEnd"@) == (match e.to_end {
                Some(en) => Some(JsonV::Str(super::end_text(en))),
                None => None::<JsonV>,
            })
            &&& obj_lookup(fields, "color"@) == (match e.color {
                Some(c) => Some(JsonV::Str(color_text(c))),
                None => None::<JsonV>,
            })
            &&& obj_lookup(fields, "label"@) == (match e.label {
                Some(lb) => Some(JsonV::Str(lb)),
                None => None::<JsonV>,
            })
            &&& forall|i: int|
                0 <= i < fields.len() ==> ((#[trigger] fields[i]).0 == "id"@ || fields[i].0
                    == "fromNode"@ || fields[i].0 == "fromSide"@ || fields[i].0 == "fromEnd"@
                    || fields[i].0 == "toNode"@ || fields[i].0 == "toSide"@ || fields[i].0
                    == "toEnd"@ || fields[i].0 == "color"@ || fields[i].0 == "label"@)
        }),
{
    lemma_edge_keys_distinct();
    let s1 = seq![("id"@, JsonV::Str(e.id)), ("fromNode"@, JsonV::Str(e.from_node))];
    let o1 = opt_field(
        "fromSide"@,
        match e.from_side {
            Some(sd) => Some(JsonV::Str(super::side_text(sd))),
            None => None,
        },
    );
    let o2 = opt_field(
        "fromEnd"@,
        match e.from_end {
            Some(en) => Some(JsonV::Str(super::end_text(en))),
            None => None,
        },
    );
    let s2 = seq![("toNode"@, JsonV::Str(e.to_node))];
    let o3 = opt_field(
        "toSide"@,
        match e.to_side {
            Some(sd) => Some(JsonV::Str(super::side_text(sd))),
            None => None,
        },
    );
    let o4 = opt_field(
        "toEnd"@,
        match e.to_end {
            Some(en) => Some(JsonV::Str(super::end_text(en))),
            None => None,
        },
    );
    let o5 = opt_field(
        "color"@,
        match e.color {
            Some(c) => Some(JsonV::Str(color_text(c))),
            None => None,
        },
    );
    let o6 = opt_field(
        "label"@,
        match e.label {
            Some(lb) => Some(JsonV::Str(lb)),
            None => None,
        },
    );
    let fields = super::edge_json(e)->Obj_0;
    assert(fields == s1 + o1 + o2 + s2 + o3 + o4 + o5 + o6);
    let keys = seq![
        "id"@,
        "fromNode"@,
        "fromSide"@,
        "fromEnd"@,
        "toNode"@,
        "toSide"@,
        "toEnd"@,
        "color"@,
        "label"@,
    ];
    assert forall|t: int| 0 <= t < keys.len() implies ({
        let key = #[trigger] keys[t];
        obj_lookup(fields, key) == (if key == "id"@ {
            Some(JsonV::Str(e.id))
        } else if key == "fromNode"@ {
            Some(JsonV::Str(e.from_node))
        } else if key == "toNode"@ {
            Some(JsonV::Str(e.to_node))
        } else if key == "fromSide"@ {
            obj_lookup(o1, key)
        } else if key == "fromEnd"@ {
            obj_lookup(o2, key)
        } else if key == "toSide"@ {
            obj_lookup(o3, key)
        } else if key == "toEnd"@ {
            obj_lookup(o4, key)
        } else if key == "color"@ {
            obj_lookup(o5, key)
        } else {
            obj_lookup(o6, key)
        })
    }) by {
        let key = keys[t];
        lemma_opt_field_lookup("fromSide"@, match e.from_side {
            Some(sd) => Some(JsonV::Str(super::side_text(sd))),
            None => None,
        }, key);
        lemma_opt_field_lookup("fromEnd"@, match e.from_end {
            Some(en) => Some(JsonV::Str(super::end_text(en))),
            None => None,
        }, key);
        lemma_opt_field_lookup("toSide"@, match e.to_side {
            Some(sd) => Some(JsonV::Str(super::side_text(sd))),
            None => None,
        }, key);
        lemma_opt_field_lookup("toEnd"@, match e.to_end {
            Some(en) => Some(JsonV::Str(super::end_text(en))),
            None => None,
        }, key);
        lemma_opt_field_lookup("color"@, match e.color {
            Some(c) => Some(JsonV::Str(color_text(c))),
            None => None,
        }, key);
        lemma_opt_field_lookup("label"@, match e.label {
            Some(lb) => Some(JsonV::Str(lb)),
            None => None,
        }, key);
        lemma_obj_lookup_concat(s1 + o1 + o2 + s2 + o3 + o4 + o5, o6, key);
        lemma_obj_lookup_concat(s1 + o1 + o2 + s2 + o3 + o4, o5, key);
        lemma_obj_lookup_concat(s1 + o1 + o2 + s2 + o3, o4, key);
        lemma_obj_lookup_concat(s1 + o1 + o2 + s2, o3, key);
        lemma_obj_lookup_concat(s1 + o1 + o2, s2, key);
        lemma_obj_lookup_concat(s1 + o1, o2, key);
        lemma_obj_lookup_concat(s1, o1, key);
        assert(s1.skip(1) =~= seq![("fromNode"@, JsonV::Str(e.from_node))]);
        assert(s1.skip(1).skip(1) =~= Seq::<(Seq<char>, JsonV)>::empty());
        assert(s2.skip(1) =~= Seq::<(Seq<char>, JsonV)>::empty());
        assert(obj_lookup(Seq::<(Seq<char>, JsonV)>::empty(), key) is None);
        assert(obj_lookup(s1.skip(1), key) == (if key == "fromNode"@ {
            Some(JsonV::Str(e.from_node))
        } else {
            None::<JsonV>
        }));
        assert(obj_lookup(s1, key) == (if key == "id"@ {
            Some(JsonV::Str(e.id))
        } else {
            obj_lookup(s1.skip(1), key)
        }));
        assert(obj_lookup(s2, key) == (if key == "toNode"@ {
            Some(JsonV::Str(e.to_node))
        } else {
            None::<JsonV>
        }));
    }
    assert(keys[0] == "id"@ && keys[1] == "fromNode"@ && keys[2] == "fromSide"@ && keys[3]
        == "fromEnd"@ && keys[4] == "toNode"@ && keys[5] == "toSide"@ && keys[6] == "toEnd"@
        && keys[7] == "color"@ && keys[8] == "label"@);
    assert forall|i: int| 0 <= i < fields.len() implies ((#[trigger] fields[i]).0 == "id"@
        || fields[i].0 == "fromNode"@ || fields[i].0 == "fromSide"@ || fields[i].0 == "fromEnd"@
        || fields[i].0 == "toNode"@ || fields[i].0 == "toSide"@ || fields[i].0 == "toEnd"@
        || fields[i].0 == "color"@ || fields[i].0 == "label"@) by {
        let l1 = s1.len() as int;
        let l2 = l1 + o1.len() as int;
        let l3 = l2 + o2.len() as int;
        let l4 = l3 + s2.len() as int;
        let l5 = l4 + o3.len() as int;
        let l6 = l5 + o4.len() as int;
        let l7 = l6 + o5.len() as int;
        if i < l1 {
            assert(fields[i] == s1[i]);
        } else if i < l2 {
            assert(fields[i] == o1[i - l1]);
        } else if i < l3 {
            assert(fields[i] == o2[i - l2]);
        } else if i < l4 {
            assert(fields[i] == s2[i - l3]);
        } else if i < l5 {
            assert(fields[i] == o3[i - l4]);
        } else if i < l6 {
            assert(fields[i] == o4[i - l5]);
        } else if i < l7 {
            assert(fields[i] == o5[i - l6]);
        } else {
            assert(fields[i] == o6[i - l7]);
        }
    }
}

/// Decoding an encoded edge gives back exactly that edge, for every
/// well-formed edge value.
#[verifier::rlimit(100)]
#[verifier::spinoff_prover]
pub proof fn lemma_edge_round_trip(e: EdgeV)
    requires
        crate::edge::edge_wf(e),
    ensures
        super::edge_from_json(super::edge_json(e)) == Ok::<EdgeV, ParseErrorV>(e),
{
    lemma_edge_keys_distinct();
    lemma_token_round_trips();
    lemma_edge_fields_props(e);
    let fields = super::edge_json(e)->Obj_0;
    let allowed = super::edge_keys();
    assert(allowed[0] == "id"@ && allowed[1] == "fromNode"@ && allowed[2] == "fromSide"@
        && allowed[3] == "fromEnd"@ && allowed[4] == "toNode"@ && allowed[5] == "toSide"@
        && allowed[6] == "toEnd"@ && allowed[7] == "color"@ && allowed[8] == "label"@);
    assert(allowed.contains("id"@) && allowed.contains("fromNode"@) && allowed.contains(
        "fromSide"@,
    ) && allowed.contains("fromEnd"@) && allowed.contains("toNode"@) && allowed.contains(
        "toSide"@,
    ) && allowed.contains("toEnd"@) && allowed.contains("color"@) && allowed.contains(
        "label"@,
    ));
    lemma_first_unknown_none(fields, allowed);
    assert(dec_str(fields, "id"@) == Ok::<Seq<char>, ParseErrorV>(e.id));
    assert(dec_str(fields, "fromNode"@) == Ok::<Seq<char>, ParseErrorV>(e.from_node));
    assert(dec_str(fields, "toNode"@) == Ok::<Seq<char>, ParseErrorV>(e.to_node));
    assert(e.id.len() > 0 && e.from_node.len() > 0 && e.to_node.len() > 0);
    assert(super::dec_opt_side(fields, "fromSide"@) == Ok::<
        Option<crate::edge::Side>,
        ParseErrorV,
    >(e.from_side));
    assert(super::dec_opt_end(fields, "fromEnd"@) == Ok::<
        Option<crate::edge::End>,
        ParseErrorV,
    >(e.from_end));
    assert(super::dec_opt_side(fields, "toSide"@) == Ok::<
        Option<crate::edge::Side>,
        ParseErrorV,
    >(e.to_side));
    assert(super::dec_opt_end(fields, "toEnd"@) == Ok::<Option<crate::edge::End>, ParseErrorV>(
        e.to_end,
    ));
    match e.color {
        Some(c) => {
            lemma_color_round_trip(c);
            assert(dec_opt_color(fields) == Ok::<Option<ColorV>, ParseErrorV>(Some(c)));
        },
        None => {
            assert(dec_opt_color(fields) == Ok::<Option<ColorV>, ParseErrorV>(None));
        },
    }
    assert(dec_opt_str(fields, "label"@) == Ok::<Option<Seq<char>>, ParseErrorV>(e.label));
    assert(e =~= (EdgeV {
        id: e.id,
        from_node: e.from_node,
        from_side: e.from_side,
        from_end: e.from_end,
        to_node: e.to_node,
        to_side: e.to_side,
        to_end: e.to_end,
        color: e.color,
        label: e.label,
    }));
    assert(super::edge_from_json(super::edge_json(e)) =~~= Ok::<EdgeV, ParseErrorV>(e));
}

/// A decoded color is always well formed.
proof fn lemma_color_from_text_wf()
    ensures
        forall|s: Seq<char>|
            (#[trigger] crate::color::color_from_text(s)) matches Ok(c) ==> color_wf(c),
{
    assert forall|s: Seq<char>|
        (#[trigger] crate::color::color_from_text(s)) is Ok implies color_wf(
        crate::color::color_from_text(s)->Ok_0,
    ) by {
        if s.len() > 0 && s[0] == '#' {
        } else {
        }
    }
}

/// A decoded node is always well formed: its identifier is non-empty, its
/// color well formed, a link's URL valid.
proof fn lemma_node_from_json_wf(j: JsonV)
    ensures
        node_from_json(j) matches Ok(n) ==> node_wf(n),
{
    lemma_color_from_text_wf();
}

/// A decoded edge is always well formed.
proof fn lemma_edge_from_json_wf(j: JsonV)
    ensures
        super::edge_from_json(j) matches Ok(e) ==> crate::edge::edge_wf(e),
{
    lemma_color_from_text_wf();
}

/// A decoded node array holds well-formed nodes with pairwise distinct
/// identifiers.
proof fn lemma_nodes_from_json_wf(a: Seq<JsonV>)
    ensures
        super::nodes_from_json(a) matches Ok(ns) ==> {
            &&& forall|i: int| 0 <= i < ns.len() ==> node_wf(#[trigger] ns[i])
            &&& forall|i: int, j: int|
                0 <= i < j < ns.len() ==> node_generic(#[trigger] ns[i]).id != node_generic(
                    #[trigger] ns[j],
                ).id
        },
    decreases a.len(),
{
    if a.len() > 0 {
        lemma_nodes_from_json_wf(a.take(a.len() - 1));
        lemma_node_from_json_wf(a.last());
    }
}

/// A decoded edge array holds well-formed edges with pairwise distinct
/// identifiers.
proof fn lemma_edges_from_json_wf(a: Seq<JsonV>)
    ensures
        super::edges_from_json(a) matches Ok(es) ==> {
            &&& forall|i: int| 0 <= i < es.len() ==> crate::edge::edge_wf(#[trigger] es[i])
            &&& forall|i: int, j: int|
                0 <= i < j < es.len() ==> (#[trigger] es[i]).id != (#[trigger] es[j]).id
        },
    decreases a.len(),
{
    if a.len() > 0 {
        lemma_edges_from_json_wf(a.take(a.len() - 1));
        lemma_edge_from_json_wf(a.last());
    }
}

/// Whatever a document decodes to is a well-formed canvas.
pub proof fn lemma_canvas_parse_wf(s: Seq<char>)
    ensures
        super::canvas_parse(s) matches Ok(c) ==> crate::jsoncanvas::canvas_wf(c),
{
    match crate::json::parse::parse_doc(s) {
        Some(j) => {
            match j {
                JsonV::Obj(fields) => {
                    match obj_lookup(fields, "nodes"@) {
                        Some(JsonV::Arr(a)) => {
                            lemma_nodes_from_json_wf(a);
                        },
                        _ => {},
                    }
                    match obj_lookup(fields, "edges"@) {
                        Some(JsonV::Arr(a)) => {
                            lemma_edges_from_json_wf(a);
                        },
                        _ => {},
                    }
                },
                _ => {},
            }
        },
        None => {},
    }
}

/// Decoding an encoded node array restores it, element for element.
proof fn lemma_nodes_round_trip(nodes: Seq<NodeV>)
    requires
        forall|i: int| 0 <= i < nodes.len() ==> node_wf(#[trigger] nodes[i]),
        forall|i: int, j: int|
            0 <= i < j < nodes.len() ==> node_generic(#[trigger] nodes[i]).id != node_generic(
                #[trigger] nodes[j],
            ).id,
    ensures
        super::nodes_from_json(super::nodes_json(nodes)) == Ok::<Seq<NodeV>, ParseErrorV>(
            nodes,
        ),
    decreases nodes.len(),
{
    let a = super::nodes_json(nodes);
    if nodes.len() == 0 {
        assert(nodes =~= Seq::<NodeV>::empty());
    } else {
        let pre = nodes.take(nodes.len() - 1);
        let last = nodes.last();
        lemma_nodes_round_trip(pre);
        assert(a.take(a.len() - 1) =~= super::nodes_json(pre));
        assert(a.last() == node_json(last));
        lemma_node_round_trip(last);
        assert(!super::seq_has_node_id(pre, node_generic(last).id)) by {
            if super::seq_has_node_id(pre, node_generic(last).id) {
                let i = choose|i: int|
                    0 <= i < pre.len() && node_generic(#[trigger] pre[i]).id == node_generic(
                        last,
                    ).id;
                assert(nodes[i] == pre[i]);
                assert(node_generic(nodes[i]).id != node_generic(
                    nodes[nodes.len() - 1],
                ).id);
            }
        }
        assert(pre.push(last) =~= nodes);
    }
}

/// Decoding an encoded edge array restores it, element for element.
proof fn lemma_edges_round_trip(edges: Seq<EdgeV>)
    requires
        forall|i: int| 0 <= i < edges.len() ==> crate::edge::edge_wf(#[trigger] edges[i]),
        forall|i: int, j: int|
            0 <= i < j < edges.len() ==> (#[trigger] edges[i]).id != (#[trigger] edges[j]).id,
    ensures
        super::edges_from_json(super::edges_json(edges)) == Ok::<Seq<EdgeV>, ParseErrorV>(
            edges,
        ),
    decreases edges.len(),
{
    let a = super::edges_json(edges);
    if edges.len() == 0 {
        assert(edges =~= Seq::<EdgeV>::empty());
    } else {
        let pre = edges.take(edges.len() - 1);
        let last = edges.last();
        lemma_edges_round_trip(pre);
        assert(a.take(a.len() - 1) =~= super::edges_json(pre));
        assert(a.last() == super::edge_json(last));
        lemma_edge_round_trip(last);
        assert(!super::seq_has_edge_id(pre, last.id)) by {
            if super::seq_has_edge_id(pre, last.id) {
                let i = choose|i: int|
                    0 <= i < pre.len() && (#[trigger] pre[i]).id == last.id;
                assert(edges[i] == pre[i]);
                assert(edges[i].id != edges[edges.len() - 1].id);
            }
        }
        assert(pre.push(last) =~= edges);
    }
}

/// Decoding an encoded canvas object restores it.
#[verifier::rlimit(100)]
#[verifier::spinoff_prover]
proof fn lemma_canvas_json_round_trip(c: crate::jsoncanvas::CanvasV)
    requires
        crate::jsoncanvas::canvas_wf(c),
    ensures
        super::canvas_from_json(super::canvas_json(c)) == Ok::<
            crate::jsoncanvas::CanvasV,
            ParseErrorV,
        >(c),
{
    lemma_node_keys_distinct();
    let fields = super::canvas_json(c)->Obj_0;
    let allowed = seq!["nodes"@, "edges"@];
    assert(allowed.contains("nodes"@) && allowed.contains("edges"@)) by {
        assert(allowed[0] == "nodes"@);
        assert(allowed[1] == "edges"@);
    }
    let np = if c.nodes.len() == 0 {
        Seq::<(Seq<char>, JsonV)>::empty()
    } else {
        seq![("nodes"@, JsonV::Arr(super::nodes_json(c.nodes)))]
    };
    let ep = if c.edges.len() == 0 {
        Seq::<(Seq<char>, JsonV)>::empty()
    } else {
        seq![("edges"@, JsonV::Arr(super::edges_json(c.edges)))]
    };
    assert(fields == np + ep);
    lemma_obj_lookup_concat(np, ep, "nodes"@);
    lemma_obj_lookup_concat(np, ep, "edges"@);
    assert(obj_lookup(Seq::<(Seq<char>, JsonV)>::empty(), "nodes"@) is None);
    assert(obj_lookup(Seq::<(Seq<char>, JsonV)>::empty(), "edges"@) is None);
    if c.nodes.len() > 0 {
        assert(np.skip(1) =~= Seq::<(Seq<char>, JsonV)>::empty());
    }
    if c.edges.len() > 0 {
        assert(ep.skip(1) =~= Seq::<(Seq<char>, JsonV)>::empty());
    }
    assert forall|i: int| 0 <= i < fields.len() implies allowed.contains(
        (#[trigger] fields[i]).0,
    ) by {
        let nl = np.len() as int;
        if i < nl {
            assert(fields[i] == np[i]);
        } else {
            assert(fields[i] == ep[i - nl]);
        }
    }
    lemma_first_unknown_none(fields, allowed);
    lemma_nodes_round_trip(c.nodes);
    lemma_edges_round_trip(c.edges);
    if c.nodes.len() == 0 {
        assert(c.nodes =~= Seq::<NodeV>::empty());
    }
    if c.edges.len() == 0 {
        assert(c.edges =~= Seq::<EdgeV>::empty());
    }
    assert(c =~= (crate::jsoncanvas::CanvasV { nodes: c.nodes, edges: c.edges }));
    assert(super::canvas_from_json(super::canvas_json(c)) =~~= Ok::<
        crate::jsoncanvas::CanvasV,
        ParseErrorV,
    >(c));
}

/// Round trip: parsing the document text of any well-formed canvas
/// restores an equal canvas, node for node and edge for edge.
pub proof fn lemma_canvas_round_trip(c: crate::jsoncanvas::CanvasV)
    requires
        crate::jsoncanvas::canvas_wf(c),
    ensures
        super::canvas_parse(super::canvas_text(c)) == Ok::<
            crate::jsoncanvas::CanvasV,
            ParseErrorV,
        >(c),
{
    crate::json::lemma_parse_print_doc(super::canvas_json(c));
    lemma_canvas_json_round_trip(c);
}

/// Idempotence: whatever a document parses to is well formed, and printing
/// it and parsing again yields the same canvas value.
pub proof fn lemma_parse_idempotent(s: Seq<char>, c: crate::jsoncanvas::CanvasV)
    requires
        super::canvas_parse(s) == Ok::<crate::jsoncanvas::CanvasV, ParseErrorV>(c),
    ensures
        crate::jsoncanvas::canvas_wf(c),
        super::canvas_parse(super::canvas_text(c)) == Ok::<
            crate::jsoncanvas::CanvasV,
            ParseErrorV,
        >(c),
{
    lemma_canvas_parse_wf(s);
    lemma_canvas_round_trip(c);
}

/// Field omission: an unset optional field leaves no key at all in the
/// node's wire object — and a set one always leaves its key.
#[verifier::rlimit(100)]
#[verifier::spinoff_prover]
pub proof fn lemma_node_field_presence(n: NodeV)
    ensures
        obj_has_key(node_json(n)->Obj_0, "color"@) <==> node_generic(n).color is Some,
        n matches NodeV::File(f) ==> (obj_has_key(node_json(n)->Obj_0, "subpath"@)
            <==> f.subpath is Some),
        n matches NodeV::Group(gr) ==> (obj_has_key(node_json(n)->Obj_0, "label"@)
            <==> gr.label is Some),
        n matches NodeV::Group(gr) ==> (obj_has_key(node_json(n)->Obj_0, "background"@)
            <==> gr.background is Some),
        n matches NodeV::Group(gr) ==> (obj_has_key(node_json(n)->Obj_0, "backgroundStyle"@)
            <==> (gr.background matches Some(bg) && bg.background_style is Some)),
{
    lemma_node_keys_distinct();
    let g = node_generic(n);
    let gf = generic_fields(g);
    let vf = variant_fields(n);
    lemma_generic_fields_props(g);
    lemma_variant_fields_props(n);
    lemma_node_lookup(n, "color"@);
    lemma_node_lookup(n, "subpath"@);
    lemma_node_lookup(n, "label"@);
    lemma_node_lookup(n, "background"@);
    lemma_node_lookup(n, "backgroundStyle"@);
    if g.color is None {
        assert(forall|q: int| 0 <= q < vf.len() ==> (#[trigger] vf[q]).0 != "color"@);
        lemma_obj_lookup_absent(vf, "color"@);
    }
    assert(forall|q: int| 0 <= q < gf.len() ==> (#[trigger] gf[q]).0 != "subpath"@);
    assert(forall|q: int| 0 <= q < gf.len() ==> (#[trigger] gf[q]).0 != "label"@);
    assert(forall|q: int| 0 <= q < gf.len() ==> (#[trigger] gf[q]).0 != "background"@);
    assert(forall|q: int| 0 <= q < gf.len() ==> (#[trigger] gf[q]).0 != "backgroundStyle"@);
    lemma_obj_lookup_absent(gf, "subpath"@);
    lemma_obj_lookup_absent(gf, "label"@);
    lemma_obj_lookup_absent(gf, "background"@);
    lemma_obj_lookup_absent(gf, "backgroundStyle"@);
}

/// The edge counterpart of [`lemma_node_field_presence`]: each of the six
/// optional edge fields appears on the wire exactly when it is set.
pub proof fn lemma_edge_field_presence(e: EdgeV)
    ensures
        obj_has_key(super::edge_json(e)->Obj_0, "fromSide"@) <==> e.from_side is Some,
        obj_has_key(super::edge_json(e)->Obj_0, "fromEnd"@) <==> e.from_end is Some,
        obj_has_key(super::edge_json(e)->Obj_0, "toSide"@) <==> e.to_side is Some,
        obj_has_key(super::edge_json(e)->Obj_0, "toEnd"@) <==> e.to_end is Some,
        obj_has_key(super::edge_json(e)->Obj_0, "color"@) <==> e.color is Some,
        obj_has_key(super::edge_json(e)->Obj_0, "label"@) <==> e.label is Some,
{
    lemma_edge_fields_props(e);
}

} // verus!
