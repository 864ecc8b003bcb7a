//! The printer: the canonical compact text of a wire value.

use vstd::prelude::*;

use crate::color::{hex_digit_char, hex_digit_upper};
use crate::text::chars_to_string;

use super::{Json, JsonV};

verus! {

/// The decimal digits of a number, most significant first.
pub open spec fn dec_digits(n: nat) -> Seq<char>
    decreases n,
{
    if n < 10 {
        seq![hex_digit_upper(n)]
    } else {
        dec_digits(n / 10).push(hex_digit_upper(n % 10))
    }
}

/// The text of an integer: an optional minus sign, then decimal digits.
pub open spec fn print_num(neg: bool, mag: u64) -> Seq<char> {
    if neg {
        seq!['-'] + dec_digits(mag as nat)
    } else {
        dec_digits(mag as nat)
    }
}

/// How one character appears inside a string literal: `"`, `\` and the named
/// control characters as two-character escapes, other control characters as
/// `\u00XX`, everything else verbatim.
pub open spec fn esc_char(c: char) -> Seq<char> {
    if c == '"' {
        seq!['\\', '"']
    } else if c == '\\' {
        seq!['\\', '\\']
    } else if c == '\n' {
        seq!['\\', 'n']
    } else if c == '\r' {
        seq!['\\', 'r']
    } else if c == '\t' {
        seq!['\\', 't']
    } else if (c as u32) < 32 {
        seq![
            '\\',
            'u',
            '0',
            '0',
            hex_digit_upper(((c as u32) / 16) as nat),
            hex_digit_upper(((c as u32) % 16) as nat),
        ]
    } else {
        seq![c]
    }
}

/// The escaped body of a string literal.
pub open spec fn esc_text(s: Seq<char>) -> Seq<char>
    decreases s.len(),
{
    if s.len() == 0 {
        Seq::empty()
    } else {
        esc_char(s[0]) + esc_text(s.skip(1))
    }
}

/// A string literal: the escaped body between double quotes.
pub open spec fn print_str(s: Seq<char>) -> Seq<char> {
    seq!['"'] + esc_text(s) + seq!['"']
}

/// The compact text of a wire value.
pub open spec fn print_json(j: JsonV) -> Seq<char>
    decreases j,
{
    match j {
        JsonV::Str(s) => print_str(s),
        JsonV::Num { neg, mag } => print_num(neg, mag),
        JsonV::Arr(elems) => seq!['['] + print_elems(elems) + seq![']'],
        JsonV::Obj(fields) => seq!['{'] + print_fields(fields) + seq!['}'],
    }
}

/// Array elements joined by commas.
pub open spec fn print_elems(elems: Seq<JsonV>) -> Seq<char>
    decreases elems,
{
    if elems.len() == 0 {
        Seq::empty()
    } else if elems.len() == 1 {
        print_json(elems[0])
    } else {
        print_json(elems[0]) + seq![','] + print_elems(elems.subrange(1, elems.len() as int))
    }
}

/// One object field: the key as a string literal, a colon, the value.
pub open spec fn print_field(f: (Seq<char>, JsonV)) -> Seq<char>
    decreases f,
{
    print_str(f.0) + seq![':'] + print_json(f.1)
}

/// Object fields joined by commas.
pub open spec fn print_fields(fields: Seq<(Seq<char>, JsonV)>) -> Seq<char>
    decreases fields,
{
    if fields.len() == 0 {
        Seq::empty()
    } else if fields.len() == 1 {
        print_field(fields[0])
    } else {
        print_field(fields[0]) + seq![','] + print_fields(
            fields.subrange(1, fields.len() as int),
        )
    }
}

/// Appending one element extends the comma-joined text by a comma (when the
/// sequence was non-empty) and the element's text.
pub proof fn lemma_print_elems_snoc(elems: Seq<JsonV>, x: JsonV)
    ensures
        elems.len() == 0 ==> print_elems(elems.push(x)) == print_json(x),
        elems.len() > 0 ==> print_elems(elems.push(x)) == print_elems(elems) + seq![',']
            + print_json(x),
    decreases elems.len(),
{
    let p = elems.push(x);
    if elems.len() == 0 {
        assert(p.len() == 1);
        assert(p[0] == x);
    } else {
        assert(p[0] == elems[0]);
        assert(p.subrange(1, p.len() as int) =~= elems.subrange(1, elems.len() as int).push(x));
        lemma_print_elems_snoc(elems.subrange(1, elems.len() as int), x);
        if elems.len() == 1 {
            assert(elems.subrange(1, 1) =~= Seq::<JsonV>::empty());
        }
    }
}

/// The field counterpart of [`lemma_print_elems_snoc`].
pub proof fn lemma_print_fields_snoc(fields: Seq<(Seq<char>, JsonV)>, x: (Seq<char>, JsonV))
    ensures
        fields.len() == 0 ==> print_fields(fields.push(x)) == print_field(x),
        fields.len() > 0 ==> print_fields(fields.push(x)) == print_fields(fields) + seq![',']
            + print_field(x),
    decreases fields.len(),
{
    let p = fields.push(x);
    if fields.len() == 0 {
        assert(p.len() == 1);
        assert(p[0] == x);
    } else {
        assert(p[0] == fields[0]);
        assert(p.subrange(1, p.len() as int) =~= fields.subrange(
            1,
            fields.len() as int,
        ).push(x));
        lemma_print_fields_snoc(fields.subrange(1, fields.len() as int), x);
        if fields.len() == 1 {
            assert(fields.subrange(1, 1) =~= Seq::<(Seq<char>, JsonV)>::empty());
        }
    }
}

/// Escaping distributes over appending one character.
pub proof fn lemma_esc_text_snoc(s: Seq<char>, c: char)
    ensures
        esc_text(s.push(c)) == esc_text(s) + esc_char(c),
    decreases s.len(),
{
    let p = s.push(c);
    if s.len() == 0 {
        assert(p.skip(1) =~= Seq::<char>::empty());
        assert(esc_text(s) + esc_char(c) =~= esc_char(c));
        assert(esc_text(p) == esc_char(p[0]) + esc_text(p.skip(1)));
        assert(esc_char(p[0]) + esc_text(p.skip(1)) =~= esc_char(c));
    } else {
        assert(p[0] == s[0]);
        assert(p.skip(1) =~= s.skip(1).push(c));
        lemma_esc_text_snoc(s.skip(1), c);
        assert(esc_text(p) == esc_char(s[0]) + (esc_text(s.skip(1)) + esc_char(c)));
        assert(esc_char(s[0]) + (esc_text(s.skip(1)) + esc_char(c)) =~= esc_text(s) + esc_char(
            c,
        ));
    }
}

fn write_digits(n: u64, out: &mut Vec<char>)
    ensures
        final(out)@ == old(out)@ + dec_digits(n as nat),
    decreases n,
{
    if n < 10 {
        out.push(hex_digit_char(n as u8));
    } else {
        write_digits(n / 10, out);
        out.push(hex_digit_char((n % 10) as u8));
        proof {
            assert(out@ =~= old(out)@ + dec_digits(n as nat));
        }
    }
}

fn write_esc_char(c: char, out: &mut Vec<char>)
    ensures
        final(out)@ == old(out)@ + esc_char(c),
{
    if c == '"' {
        out.push('\\');
        out.push('"');
    } else if c == '\\' {
        out.push('\\');
        out.push('\\');
    } else if c == '\n' {
        out.push('\\');
        out.push('n');
    } else if c == '\r' {
        out.push('\\');
        out.push('r');
    } else if c == '\t' {
        out.push('\\');
        out.push('t');
    } else if (c as u32) < 32 {
        let u = c as u32;
        out.push('\\');
        out.push('u');
        out.push('0');
        out.push('0');
        out.push(hex_digit_char((u / 16) as u8));
        out.push(hex_digit_char((u % 16) as u8));
    } else {
        out.push(c);
    }
    proof {
        assert(out@ =~= old(out)@ + esc_char(c));
    }
}

fn write_str_lit(s: &str, out: &mut Vec<char>)
    ensures
        final(out)@ == old(out)@ + print_str(s@),
{
    out.push('"');
    let cs = crate::text::str_to_chars(s);
    let n = cs.len();
    let mut i: usize = 0;
    while i < n
        invariant
            n == cs@.len(),
            cs@ == s@,
            i <= n,
            out@ == old(out)@ + seq!['"'] + esc_text(s@.take(i as int)),
        decreases n - i,
    {
        write_esc_char(cs[i], out);
        proof {
            assert(s@.take(i as int).push(s@[i as int]) =~= s@.take(i + 1 as int));
            lemma_esc_text_snoc(s@.take(i as int), s@[i as int]);
            assert(out@ =~= old(out)@ + seq!['"'] + esc_text(s@.take(i + 1 as int)));
        }
        i += 1;
    }
    out.push('"');
    proof {
        assert(s@.take(n as int) =~= s@);
        assert(out@ =~= old(out)@ + print_str(s@));
    }
}

/// Writes the compact text of `j` onto `out`.
#[verifier::loop_isolation(false)]
pub fn write_json(j: &Json, out: &mut Vec<char>)
    ensures
        final(out)@ == old(out)@ + print_json(j@),
    decreases *j,
{
    match j {
        Json::Str(s) => {
            write_str_lit(s.as_str(), out);
        },
        Json::Num { neg, mag } => {
            if *neg {
                out.push('-');
            }
            write_digits(*mag, out);
            proof {
                assert(out@ =~= old(out)@ + print_num(*neg, *mag));
            }
        },
        Json::Arr(elems) => {
            let ghost vs = super::jarr_view(elems@);
            proof {
                super::lemma_jarr_view(elems@);
            }
            out.push('[');
            let n = elems.len();
            let mut k: usize = 0;
            while k < n
                invariant
                    n == elems@.len(),
                    vs == super::jarr_view(elems@),
                    vs.len() == n,
                    forall|i: int| 0 <= i < n ==> #[trigger] vs[i] == elems@[i]@,
                    k <= n,
                    out@ == old(out)@ + seq!['['] + print_elems(vs.take(k as int)),
                decreases n - k,
            {
                if k > 0 {
                    out.push(',');
                }
                proof {
                    assert(decreases_to!(*j => (*j)->Arr_0));
                    assert(decreases_to!((*j)->Arr_0 => (*j)->Arr_0[k as int]));
                    assert((*j)->Arr_0[k as int] == elems@[k as int]);
                    assert(decreases_to!(*j => elems@[k as int]));
                }
                write_json(&elems[k], out);
                proof {
                    assert(vs.take(k as int).push(vs[k as int]) =~= vs.take(k + 1 as int));
                    lemma_print_elems_snoc(vs.take(k as int), vs[k as int]);
                    assert(elems@[k as int]@ == vs[k as int]);
                    assert(out@ =~= old(out)@ + seq!['['] + print_elems(vs.take(k + 1 as int)));
                }
                k += 1;
            }
            out.push(']');
            proof {
                assert(vs.take(n as int) =~= vs);
                assert(out@ =~= old(out)@ + print_json(j@));
            }
        },
        Json::Obj(fields) => {
            let ghost vs = super::jobj_view(fields@);
            proof {
                super::lemma_jobj_view(fields@);
            }
            out.push('{');
            let n = fields.len();
            let mut k: usize = 0;
            while k < n
                invariant
                    n == fields@.len(),
                    vs == super::jobj_view(fields@),
                    vs.len() == n,
                    forall|i: int|
                        0 <= i < n ==> #[trigger] vs[i] == (fields@[i].0@, fields@[i].1@),
                    k <= n,
                    out@ == old(out)@ + seq!['{'] + print_fields(vs.take(k as int)),
                decreases n - k,
            {
                if k > 0 {
                    out.push(',');
                }
                write_str_lit(fields[k].0.as_str(), out);
                out.push(':');
                proof {
                    assert(decreases_to!(*j => (*j)->Obj_0));
                    assert(decreases_to!((*j)->Obj_0 => (*j)->Obj_0[k as int]));
                    assert(decreases_to!((*j)->Obj_0[k as int] => (*j)->Obj_0[k as int].1));
                    assert((*j)->Obj_0[k as int] == fields@[k as int]);
                    assert(decreases_to!(*j => fields@[k as int].1));
                }
                write_json(&fields[k].1, out);
                proof {
                    assert(vs.take(k as int).push(vs[k as int]) =~= vs.take(k + 1 as int));
                    lemma_print_fields_snoc(vs.take(k as int), vs[k as int]);
                    assert((fields@[k as int].0@, fields@[k as int].1@) == vs[k as int]);
                    assert(out@ =~= old(out)@ + seq!['{'] + print_fields(vs.take(k + 1 as int)));
                }
                k += 1;
            }
            out.push('}');
            proof {
                assert(vs.take(n as int) =~= vs);
                assert(out@ =~= old(out)@ + print_json(j@));
            }
        },
    }
}

/// The compact document text of a wire value.
pub fn render_document(j: &Json) -> (r: String)
    ensures
        r@ == print_json(j@),
{
    let mut out: Vec<char> = Vec::new();
    write_json(j, &mut out);
    chars_to_string(&out)
}

} // verus!
