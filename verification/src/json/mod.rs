//! A small JSON engine specialised to this wire format.
//!
//! The format's values are strings, integers, arrays and objects; `true`,
//! `false`, `null` and fraction or exponent parts of numbers are not part of
//! the format. The printer emits the compact canonical form; the parser also
//! accepts whitespace between tokens, `\uXXXX` escapes up to `\u007F`, the
//! solidus escape `\/`, and leading zeros in numbers.

use vstd::prelude::*;

mod invert;
pub mod parse;
pub mod print;

pub use invert::{lemma_parse_print_doc, lemma_parse_print_value};

pub use parse::parse_document;
pub use print::render_document;

verus! {

/// Ghost mirror of [`Json`]: a value of the wire format.
#[verifier::ext_equal]
pub enum JsonV {
    Str(Seq<char>),
    Num { neg: bool, mag: u64 },
    Arr(Seq<JsonV>),
    Obj(Seq<(Seq<char>, JsonV)>),
}

/// A value of the wire format: a string, an integer (sign and magnitude),
/// an array, or an object with ordered fields.
#[derive(Debug)]
pub enum Json {
    Str(String),
    Num { neg: bool, mag: u64 },
    Arr(Vec<Json>),
    Obj(Vec<(String, Json)>),
}

impl View for Json {
    type V = JsonV;

    open spec fn view(&self) -> JsonV
        decreases self,
    {
        match self {
            Json::Str(s) => JsonV::Str(s@),
            Json::Num { neg, mag } => JsonV::Num { neg: *neg, mag: *mag },
            Json::Arr(elems) => JsonV::Arr(jarr_view(elems@)),
            Json::Obj(fields) => JsonV::Obj(jobj_view(fields@)),
        }
    }
}

/// The elementwise view of a sequence of wire values.
pub open spec fn jarr_view(v: Seq<Json>) -> Seq<JsonV>
    decreases v,
{
    if v.len() == 0 {
        Seq::empty()
    } else {
        seq![v[0]@] + jarr_view(v.subrange(1, v.len() as int))
    }
}

/// The elementwise view of a sequence of object fields.
pub open spec fn jobj_view(v: Seq<(String, Json)>) -> Seq<(Seq<char>, JsonV)>
    decreases v,
{
    if v.len() == 0 {
        Seq::empty()
    } else {
        seq![(v[0].0@, v[0].1@)] + jobj_view(v.subrange(1, v.len() as int))
    }
}

/// The view of a sequence of wire values is its elementwise view.
pub proof fn lemma_jarr_view(v: Seq<Json>)
    ensures
        jarr_view(v).len() == v.len(),
        forall|i: int| 0 <= i < v.len() ==> #[trigger] jarr_view(v)[i] == v[i]@,
    decreases v.len(),
{
    if v.len() > 0 {
        let tail = v.subrange(1, v.len() as int);
        lemma_jarr_view(tail);
        assert(jarr_view(v) == seq![v[0]@] + jarr_view(tail));
        assert forall|i: int| 0 <= i < v.len() implies #[trigger] jarr_view(v)[i] == v[i]@ by {
            if i > 0 {
                assert(jarr_view(v)[i] == jarr_view(tail)[i - 1]);
                assert(jarr_view(tail)[i - 1] == tail[i - 1]@);
                assert(tail[i - 1] == v[i]);
            } else {
                assert(jarr_view(v)[0] == v[0]@);
            }
        }
    }
}

/// The view of a sequence of object fields is its elementwise view.
pub proof fn lemma_jobj_view(v: Seq<(String, Json)>)
    ensures
        jobj_view(v).len() == v.len(),
        forall|i: int|
            0 <= i < v.len() ==> #[trigger] jobj_view(v)[i] == (v[i].0@, v[i].1@),
    decreases v.len(),
{
    if v.len() > 0 {
        let tail = v.subrange(1, v.len() as int);
        lemma_jobj_view(tail);
        assert(jobj_view(v) == seq![(v[0].0@, v[0].1@)] + jobj_view(tail));
        assert forall|i: int|
            0 <= i < v.len() implies #[trigger] jobj_view(v)[i] == (v[i].0@, v[i].1@) by {
            if i > 0 {
                assert(jobj_view(v)[i] == jobj_view(tail)[i - 1]);
                assert(jobj_view(tail)[i - 1] == (tail[i - 1].0@, tail[i - 1].1@));
                assert(tail[i - 1] == v[i]);
            } else {
                assert(jobj_view(v)[0] == (v[0].0@, v[0].1@));
            }
        }
    }
}

/// Viewing distributes over appending one wire value.
pub proof fn lemma_jarr_view_push(v: Seq<Json>, x: Json)
    ensures
        jarr_view(v.push(x)) == jarr_view(v).push(x@),
    decreases v.len(),
{
    let p = v.push(x);
    if v.len() == 0 {
        assert(p[0] == x);
        assert(p.subrange(1, 1) =~= Seq::<Json>::empty());
        assert(jarr_view(Seq::<Json>::empty()) == Seq::<JsonV>::empty());
        assert(jarr_view(p) == seq![p[0]@] + jarr_view(p.subrange(1, p.len() as int)));
        assert(jarr_view(p) =~= jarr_view(v).push(x@));
    } else {
        assert(p[0] == v[0]);
        assert(p.subrange(1, p.len() as int) =~= v.subrange(1, v.len() as int).push(x));
        lemma_jarr_view_push(v.subrange(1, v.len() as int), x);
        assert(jarr_view(p) == seq![p[0]@] + jarr_view(p.subrange(1, p.len() as int)));
        assert(jarr_view(v) == seq![v[0]@] + jarr_view(v.subrange(1, v.len() as int)));
        assert(jarr_view(p) =~= jarr_view(v).push(x@));
    }
}

/// Viewing distributes over appending one object field.
pub proof fn lemma_jobj_view_push(v: Seq<(String, Json)>, x: (String, Json))
    ensures
        jobj_view(v.push(x)) == jobj_view(v).push((x.0@, x.1@)),
    decreases v.len(),
{
    let p = v.push(x);
    if v.len() == 0 {
        assert(p[0] == x);
        assert(p.subrange(1, 1) =~= Seq::<(String, Json)>::empty());
        assert(jobj_view(Seq::<(String, Json)>::empty()) == Seq::<(Seq<char>, JsonV)>::empty());
        assert(jobj_view(p) == seq![(p[0].0@, p[0].1@)] + jobj_view(p.subrange(1, p.len() as int)));
        assert(jobj_view(p) =~= jobj_view(v).push((x.0@, x.1@)));
    } else {
        assert(p[0] == v[0]);
        assert(p.subrange(1, p.len() as int) =~= v.subrange(1, v.len() as int).push(x));
        lemma_jobj_view_push(v.subrange(1, v.len() as int), x);
        assert(jobj_view(p) == seq![(p[0].0@, p[0].1@)] + jobj_view(p.subrange(1, p.len() as int)));
        assert(jobj_view(v) == seq![(v[0].0@, v[0].1@)] + jobj_view(v.subrange(1, v.len() as int)));
        assert(jobj_view(p) =~= jobj_view(v).push((x.0@, x.1@)));
    }
}

/// The value at the first occurrence of `key`, if any.
pub open spec fn obj_lookup(fields: Seq<(Seq<char>, JsonV)>, key: Seq<char>) -> Option<JsonV>
    decreases fields.len(),
{
    if fields.len() == 0 {
        None
    } else if fields[0].0 == key {
        Some(fields[0].1)
    } else {
        obj_lookup(fields.skip(1), key)
    }
}

/// Whether an object carries `key` at all.
pub open spec fn obj_has_key(fields: Seq<(Seq<char>, JsonV)>, key: Seq<char>) -> bool {
    obj_lookup(fields, key) is Some
}

/// Looking a key up past a prefix that does not carry it.
pub proof fn lemma_obj_lookup_skip(fields: Seq<(Seq<char>, JsonV)>, key: Seq<char>, k: int)
    requires
        0 <= k <= fields.len(),
        forall|t: int| 0 <= t < k ==> (#[trigger] fields[t]).0 != key,
    ensures
        obj_lookup(fields, key) == obj_lookup(fields.skip(k), key),
    decreases k,
{
    if k > 0 {
        assert(fields[0].0 != key);
        assert(forall|t: int| 0 <= t < k - 1 ==> #[trigger] fields.skip(1)[t] == fields[t + 1]);
        lemma_obj_lookup_skip(fields.skip(1), key, k - 1);
        assert(fields.skip(1).skip(k - 1) =~= fields.skip(k));
    } else {
        assert(fields.skip(0) =~= fields);
    }
}

} // verus!
