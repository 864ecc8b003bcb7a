//! The inversion laws of the engine: parsing recovers exactly what the
//! printer wrote, whatever the value.

use vstd::prelude::*;

use crate::color::{hex_digit_upper, hex_digit_val, lemma_hex_digit_round};

use super::parse::{
    chop, digit_count, digit_of, digits_val, is_digit, is_ws, lemma_digit_count_exact,
    parse_arr_items, parse_doc, parse_num, parse_obj_field, parse_obj_items, parse_str_body,
    parse_value, unescape, ws_count,
};
use super::print::{
    dec_digits, esc_char, esc_text, print_elems, print_field, print_fields, print_json,
    print_num, print_str,
};
use super::JsonV;

verus! {

/// Decimal digit texts are non-empty, all digits, and carry the value back.
pub proof fn lemma_dec_digits_props(n: nat)
    ensures
        dec_digits(n).len() >= 1,
        forall|i: int| 0 <= i < dec_digits(n).len() ==> is_digit(#[trigger] dec_digits(n)[i]),
        digits_val(dec_digits(n)) == n,
    decreases n,
{
    if n < 10 {
        assert(hex_digit_upper(n) as u32 == n + 48);
        assert(is_digit(dec_digits(n)[0]));
        assert(dec_digits(n).take(0) =~= Seq::<char>::empty());
        assert(digits_val(Seq::<char>::empty()) == 0);
        assert(digits_val(dec_digits(n)) == digit_of(hex_digit_upper(n)));
        assert(digit_of(hex_digit_upper(n)) == n);
    } else {
        lemma_dec_digits_props(n / 10);
        let x = dec_digits(n / 10);
        let d = hex_digit_upper(n % 10);
        assert(d as u32 == n % 10 + 48);
        assert(dec_digits(n) == x.push(d));
        assert(forall|i: int|
            0 <= i < x.len() ==> #[trigger] x.push(d)[i] == x[i]);
        assert(x.push(d)[x.len() as int] == d);
        assert(x.push(d).take(x.len() as int) =~= x);
        assert(digits_val(x.push(d)) == digits_val(x) * 10 + digit_of(d));
        assert(digit_of(d) == n % 10);
        vstd::arithmetic::div_mod::lemma_fundamental_div_mod(n as int, 10);
    }
}

/// A digit run of length `k` followed by a non-digit has count `k` and its
/// value is read off the prefix.
proof fn lemma_digits_then_rest(digits: Seq<char>, rest: Seq<char>)
    requires
        digits.len() >= 1,
        forall|i: int| 0 <= i < digits.len() ==> is_digit(#[trigger] digits[i]),
        rest.len() == 0 || !is_digit(rest[0]),
    ensures
        digit_count(digits + rest) == digits.len(),
        (digits + rest).take(digits.len() as int) == digits,
{
    let s = digits + rest;
    assert(forall|i: int| 0 <= i < digits.len() ==> is_digit(#[trigger] s[i]));
    if digits.len() < s.len() {
        assert(s[digits.len() as int] == rest[0]);
    }
    lemma_digit_count_exact(s, digits.len());
    assert(s.take(digits.len() as int) =~= digits);
}

/// A printed integer parses back to exactly that integer.
pub proof fn lemma_parse_print_num(neg: bool, mag: u64, rest: Seq<char>)
    requires
        rest.len() == 0 || !is_digit(rest[0]),
    ensures
        parse_num(print_num(neg, mag) + rest) == Some((JsonV::Num { neg, mag }, print_num(
            neg,
            mag,
        ).len() as nat)),
{
    lemma_dec_digits_props(mag as nat);
    let dd = dec_digits(mag as nat);
    if neg {
        let s = print_num(true, mag) + rest;
        assert(s[0] == '-');
        assert(!is_digit('-'));
        assert(chop(s, 1) =~= dd + rest);
        lemma_digits_then_rest(dd, rest);
        assert(digits_val(chop(s, 1).take(dd.len() as int)) == mag as nat);
    } else {
        let s = print_num(false, mag) + rest;
        assert(s[0] == dd[0]);
        assert(is_digit(s[0]));
        assert(s[0] != '-');
        assert(s =~= dd + rest);
        lemma_digits_then_rest(dd, rest);
        assert(digits_val(s.take(dd.len() as int)) == mag as nat);
    }
}

/// The escaped body of a string, the closing quote and anything after it
/// parse back to exactly that string.
pub proof fn lemma_parse_str_body_esc(s: Seq<char>, rest: Seq<char>)
    ensures
        parse_str_body(esc_text(s) + seq!['"'] + rest) == Some((s, (esc_text(s).len() + 1) as nat)),
    decreases s.len(),
{
    let full = esc_text(s) + seq!['"'] + rest;
    if s.len() == 0 {
        assert(full[0] == '"');
    } else {
        let c = s[0];
        let tail = s.skip(1);
        assert(esc_text(s) == esc_char(c) + esc_text(tail));
        let sub = esc_text(tail) + seq!['"'] + rest;
        lemma_parse_str_body_esc(tail, rest);
        assert(seq![c] + tail =~= s);
        if c == '"' || c == '\\' || c == '\n' || c == '\r' || c == '\t' {
            assert(esc_char(c).len() == 2);
            assert(full[0] == '\\');
            assert(full[1] == esc_char(c)[1]);
            assert(full.len() >= 3);
            assert(full[1] != 'u');
            assert(unescape(full[1]) == Some(c));
            assert(chop(full, 2) =~= sub);
        } else if (c as u32) < 32 {
            let u = c as u32;
            assert(esc_char(c).len() == 6);
            assert(full[0] == '\\');
            assert(full[1] == 'u');
            assert(full.len() >= 7);
            assert(full[2] == '0');
            assert(full[3] == '0');
            assert(full[4] == hex_digit_upper((u / 16) as nat));
            assert(full[5] == hex_digit_upper((u % 16) as nat));
            assert(hex_digit_val('0') == Some(0u8));
            lemma_hex_digit_round((u / 16) as u8);
            lemma_hex_digit_round((u % 16) as u8);
            let v = 4096 * (0 as nat) + 256 * (0 as nat) + 16 * ((u / 16) as nat) + ((
            u % 16) as nat);
            vstd::arithmetic::div_mod::lemma_fundamental_div_mod(u as int, 16);
            assert(v == u as nat);
            assert(v < 128);
            vstd::utf8::char_u32_cast(c, u);
            assert((u as char) == c);
            assert((v as char) == (u as char));
            assert((v as char) == c);
            assert(chop(full, 6) =~= sub);
        } else {
            assert(esc_char(c) =~= seq![c]);
            assert(full[0] == c);
            assert(full[0] != '"' && full[0] != '\\');
            assert((full[0] as u32) >= 32);
            assert(chop(full, 1) =~= sub);
        }
    }
}

/// The first character of a printed value: a quote, a brace or bracket, a
/// minus sign or a digit — never whitespace, never a delimiter, and it tells
/// the variants apart.
pub proof fn lemma_print_json_first(j: JsonV)
    ensures
        print_json(j).len() > 0,
        ({
            let c = print_json(j)[0];
            &&& !is_ws(c) && c != ']' && c != '}' && c != ',' && c != ':'
            &&& (j is Str <==> c == '"')
            &&& (j is Arr <==> c == '[')
            &&& (j is Obj <==> c == '{')
            &&& (j is Num ==> c == '-' || is_digit(c))
        }),
{
    match j {
        JsonV::Str(s) => {
            assert(print_json(j)[0] == '"');
        },
        JsonV::Num { neg, mag } => {
            lemma_dec_digits_props(mag as nat);
            if neg {
                assert(print_json(j)[0] == '-');
            } else {
                assert(print_json(j)[0] == dec_digits(mag as nat)[0]);
                assert(is_digit(print_json(j)[0]));
            }
        },
        JsonV::Arr(_) => {
            assert(print_json(j)[0] == '[');
        },
        JsonV::Obj(_) => {
            assert(print_json(j)[0] == '{');
        },
    }
}

/// A printed value followed by a non-digit parses back to exactly that
/// value, consuming exactly the printed text.
#[verifier::rlimit(100)]
#[verifier::spinoff_prover]
pub proof fn lemma_parse_print_value(j: JsonV, rest: Seq<char>)
    requires
        rest.len() == 0 || !is_digit(rest[0]),
    ensures
        parse_value(print_json(j) + rest) == Some((j, print_json(j).len() as nat)),
    decreases j, 0int,
{
    let p = print_json(j);
    let s = p + rest;
    lemma_print_json_first(j);
    match j {
        JsonV::Str(sv) => {
            assert(s[0] == '"');
            assert(chop(s, 1) =~= esc_text(sv) + seq!['"'] + rest);
            lemma_parse_str_body_esc(sv, rest);
        },
        JsonV::Num { neg, mag } => {
            assert(s[0] != '"' && s[0] != '[' && s[0] != '{');
            assert(s =~= print_num(neg, mag) + rest);
            lemma_parse_print_num(neg, mag, rest);
        },
        JsonV::Arr(elems) => {
            assert(s[0] == '[');
            if elems.len() == 0 {
                assert(elems =~= Seq::<JsonV>::empty());
                assert(print_elems(elems) == Seq::<char>::empty());
                assert(chop(s, 1) =~= seq![']'] + rest);
                assert(chop(s, 1)[0] == ']');
                assert(!is_ws(']'));
                assert(ws_count(chop(s, 1)) == 0);
                assert(chop(s, 1 + 0) == chop(s, 1));
                assert(p.len() == 2);
            } else {
                let inner = print_elems(elems) + seq![']'] + rest;
                assert(chop(s, 1) =~= inner);
                lemma_print_json_first(elems[0]);
                assert(print_elems(elems)[0] == print_json(elems[0])[0]);
                assert(inner[0] == print_json(elems[0])[0]);
                assert(!is_ws(inner[0]));
                assert(ws_count(inner) == 0);
                assert(chop(s, 1 + 0) == chop(s, 1));
                assert(inner[0] != ']');
                lemma_parse_print_arr_items(elems, rest);
                assert(parse_arr_items(chop(s, 1)) == Some(
                    (elems, (print_elems(elems).len() + 1) as nat),
                ));
                assert(p.len() == print_elems(elems).len() + 2);
            }
        },
        JsonV::Obj(fields) => {
            assert(s[0] == '{');
            if fields.len() == 0 {
                assert(fields =~= Seq::<(Seq<char>, JsonV)>::empty());
                assert(print_fields(fields) == Seq::<char>::empty());
                assert(chop(s, 1) =~= seq!['}'] + rest);
                assert(chop(s, 1)[0] == '}');
                assert(ws_count(chop(s, 1)) == 0);
                assert(chop(s, 1 + 0) == chop(s, 1));
                assert(p.len() == 2);
            } else {
                let inner = print_fields(fields) + seq!['}'] + rest;
                assert(chop(s, 1) =~= inner);
                assert(print_field(fields[0])[0] == '"');
                assert(print_fields(fields)[0] == print_field(fields[0])[0]);
                assert(inner[0] == '"');
                assert(!is_ws('"'));
                assert(ws_count(inner) == 0);
                assert(chop(s, 1 + 0) == chop(s, 1));
                assert(inner[0] != '}');
                lemma_parse_print_obj_items(fields, rest);
                assert(parse_obj_items(chop(s, 1)) == Some(
                    (fields, (print_fields(fields).len() + 1) as nat),
                ));
                assert(p.len() == print_fields(fields).len() + 2);
            }
        },
    }
    assert(parse_value(print_json(j) + rest) =~~= Some((j, print_json(j).len() as nat)));
}

/// Printed array items, the closing bracket and anything after it parse
/// back to exactly those items.
#[verifier::rlimit(100)]
#[verifier::spinoff_prover]
pub proof fn lemma_parse_print_arr_items(elems: Seq<JsonV>, rest: Seq<char>)
    requires
        elems.len() >= 1,
    ensures
        parse_arr_items(print_elems(elems) + seq![']'] + rest) == Some(
            (elems, (print_elems(elems).len() + 1) as nat),
        ),
    decreases elems, 1int,
{
    let s = print_elems(elems) + seq![']'] + rest;
    let e0 = elems[0];
    let p0 = print_json(e0);
    lemma_print_json_first(e0);
    if elems.len() == 1 {
        assert(print_elems(elems) == p0);
        assert(s =~= p0 + (seq![']'] + rest));
        assert(!is_digit(']'));
        lemma_parse_print_value(e0, seq![']'] + rest);
        assert(parse_value(s) == Some((e0, p0.len() as nat)));
        assert(ws_count(s) == 0);
        assert(chop(s, 0) =~= s);
        assert(chop(s, p0.len() as nat) =~= seq![']'] + rest);
        assert(ws_count(seq![']'] + rest) == 0);
        assert((seq![']'] + rest)[0] == ']');
        assert(seq![e0] =~= elems);
        assert(parse_arr_items(s) =~~= Some((elems, (print_elems(elems).len() + 1) as nat)));
    } else {
        let tail = elems.subrange(1, elems.len() as int);
        let pt = print_elems(tail);
        assert(print_elems(elems) == p0 + seq![','] + pt);
        let after0 = seq![','] + pt + seq![']'] + rest;
        assert(s =~= p0 + after0);
        assert(!is_digit(','));
        lemma_parse_print_value(e0, after0);
        assert(parse_value(s) == Some((e0, p0.len() as nat)));
        assert(ws_count(s) == 0);
        assert(chop(s, 0) =~= s);
        assert(chop(s, p0.len() as nat) =~= after0);
        assert(ws_count(after0) == 0);
        assert(after0[0] == ',');
        assert(chop(s, (p0.len() + 1) as nat) =~= pt + seq![']'] + rest);
        lemma_parse_print_arr_items(tail, rest);
        assert(parse_arr_items(chop(s, (p0.len() + 1) as nat)) == Some(
            (tail, (pt.len() + 1) as nat),
        ));
        assert(seq![e0] + tail =~= elems);
        assert(print_elems(elems).len() == p0.len() + 1 + pt.len());
        assert(parse_arr_items(s) =~~= Some((elems, (print_elems(elems).len() + 1) as nat)));
    }
}

/// One printed field followed by a delimiter parses back to exactly that
/// field, consuming exactly the printed text.
#[verifier::rlimit(100)]
#[verifier::spinoff_prover]
proof fn lemma_parse_print_obj_field(f: (Seq<char>, JsonV), after_field: Seq<char>)
    requires
        after_field.len() > 0,
        after_field[0] == '}' || after_field[0] == ',',
    ensures
        parse_obj_field(print_field(f) + after_field) == Some((f, print_field(f).len() as nat)),
    decreases f, 0int,
{
    let key = f.0;
    let v0 = f.1;
    let pv = print_json(v0);
    let pf = print_field(f);
    assert(pf == print_str(key) + seq![':'] + pv);
    let s = pf + after_field;
    assert(s[0] == '"');
    assert(ws_count(s) == 0);
    assert(chop(s, 0) =~= s);
    assert(chop(s, 1) =~= esc_text(key) + seq!['"'] + (seq![':'] + pv + after_field));
    lemma_parse_str_body_esc(key, seq![':'] + pv + after_field);
    let kn = (esc_text(key).len() + 1) as nat;
    assert(chop(s, 1 + kn) =~= seq![':'] + pv + after_field);
    assert(ws_count(seq![':'] + pv + after_field) == 0);
    assert((seq![':'] + pv + after_field)[0] == ':');
    lemma_print_json_first(v0);
    assert(chop(seq![':'] + pv + after_field, 1) =~= pv + after_field);
    assert(ws_count(pv + after_field) == 0);
    assert(chop(seq![':'] + pv + after_field, 1 + 0) == chop(
        seq![':'] + pv + after_field,
        1,
    ));
    assert(!is_digit(after_field[0]));
    lemma_parse_print_value(v0, after_field);
    assert(parse_value(pv + after_field) == Some((v0, pv.len() as nat)));
    assert((f.0, f.1) == f);
    assert(parse_obj_field(s) =~~= Some((f, (1 + kn + 1 + pv.len()) as nat)));
    assert(pf.len() == 1 + kn + 1 + pv.len());
}

/// Printed object fields, the closing brace and anything after it parse
/// back to exactly those fields.
#[verifier::rlimit(100)]
#[verifier::spinoff_prover]
pub proof fn lemma_parse_print_obj_items(fields: Seq<(Seq<char>, JsonV)>, rest: Seq<char>)
    requires
        fields.len() >= 1,
    ensures
        parse_obj_items(print_fields(fields) + seq!['}'] + rest) == Some(
            (fields, (print_fields(fields).len() + 1) as nat),
        ),
    decreases fields, 1int,
{
    let s = print_fields(fields) + seq!['}'] + rest;
    let f0 = fields[0];
    let pf = print_field(f0);
    let after_field: Seq<char> = if fields.len() == 1 {
        seq!['}'] + rest
    } else {
        seq![','] + print_fields(fields.subrange(1, fields.len() as int)) + seq!['}'] + rest
    };
    if fields.len() == 1 {
        assert(print_fields(fields) == pf);
        assert(s =~= pf + after_field);
        assert(after_field[0] == '}');
    } else {
        assert(print_fields(fields) == pf + seq![','] + print_fields(
            fields.subrange(1, fields.len() as int),
        ));
        assert(s =~= pf + after_field);
        assert(after_field[0] == ',');
    }
    lemma_parse_print_obj_field(f0, after_field);
    assert(parse_obj_field(s) == Some((f0, pf.len() as nat)));
    assert(chop(s, pf.len() as nat) =~= after_field);
    assert(ws_count(after_field) == 0);
    assert(chop(s, pf.len() as nat + 0) == chop(s, pf.len() as nat));
    if fields.len() == 1 {
        assert(seq![f0] =~= fields);
        assert(parse_obj_items(s) =~~= Some((fields, (print_fields(fields).len() + 1) as nat)));
    } else {
        let tail = fields.subrange(1, fields.len() as int);
        assert(chop(s, pf.len() as nat + 0 + 1) =~= print_fields(tail) + seq!['}'] + rest);
        lemma_parse_print_obj_items(tail, rest);
        assert(parse_obj_items(chop(s, pf.len() as nat + 0 + 1)) == Some(
            (tail, (print_fields(tail).len() + 1) as nat),
        ));
        assert(seq![f0] + tail =~= fields);
        assert(print_fields(fields).len() == pf.len() + 1 + print_fields(tail).len());
        assert(parse_obj_items(s) =~~= Some((fields, (print_fields(fields).len() + 1) as nat)));
    }
}

/// A printed document parses back to exactly the printed value.
pub proof fn lemma_parse_print_doc(j: JsonV)
    ensures
        parse_doc(print_json(j)) == Some(j),
{
    let p = print_json(j);
    lemma_print_json_first(j);
    assert(ws_count(p) == 0);
    assert(chop(p, 0) =~= p);
    assert(p =~= p + Seq::<char>::empty());
    lemma_parse_print_value(j, Seq::<char>::empty());
    assert(parse_value(p) == Some((j, p.len() as nat)));
    assert(chop(p, p.len() as nat) =~= Seq::<char>::empty());
    assert(ws_count(Seq::<char>::empty()) == 0);
}

} // verus!
