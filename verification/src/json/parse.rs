//! The parser: from document text back to wire values.
//!
//! The specification-level parser works on suffixes of the input; each
//! function returns the value read and the number of characters consumed.

use vstd::prelude::*;

use crate::color::hex_digit_val;
use crate::error::ParseError;
use crate::text::chars_to_string;

use super::{Json, JsonV};

verus! {

/// The whitespace the parser skips between tokens.
pub open spec fn is_ws(c: char) -> bool {
    c == ' ' || c == '\t' || c == '\n' || c == '\r'
}

/// A decimal digit.
pub open spec fn is_digit(c: char) -> bool {
    48 <= (c as u32) <= 57
}

/// The suffix of `s` after its first `n` characters; empty when `n` runs past
/// the end.
pub open spec fn chop(s: Seq<char>, n: nat) -> Seq<char> {
    if n <= s.len() {
        s.skip(n as int)
    } else {
        Seq::empty()
    }
}

/// How many whitespace characters `s` starts with.
pub open spec fn ws_count(s: Seq<char>) -> nat
    decreases s.len(),
{
    if s.len() > 0 && is_ws(s[0]) {
        1 + ws_count(s.skip(1))
    } else {
        0
    }
}

/// How many decimal digits `s` starts with.
pub open spec fn digit_count(s: Seq<char>) -> nat
    decreases s.len(),
{
    if s.len() > 0 && is_digit(s[0]) {
        1 + digit_count(s.skip(1))
    } else {
        0
    }
}

/// The value of one digit character.
pub open spec fn digit_of(c: char) -> nat {
    (((c as u32) - 48) as u32) as nat
}

/// The value of a run of digit characters, most significant first.
pub open spec fn digits_val(s: Seq<char>) -> nat
    decreases s.len(),
{
    if s.len() == 0 {
        0
    } else {
        digits_val(s.take(s.len() - 1)) * 10 + digit_of(s[s.len() - 1])
    }
}

/// What a two-character escape after the backslash stands for.
pub open spec fn unescape(c: char) -> Option<char> {
    if c == '"' {
        Some('"')
    } else if c == '\\' {
        Some('\\')
    } else if c == '/' {
        Some('/')
    } else if c == 'n' {
        Some('\n')
    } else if c == 'r' {
        Some('\r')
    } else if c == 't' {
        Some('\t')
    } else if c == 'b' {
        Some(8u8 as char)
    } else if c == 'f' {
        Some(12u8 as char)
    } else {
        None
    }
}

/// Reads a string literal body up to and including the closing quote,
/// starting just after the opening quote. Returns the decoded text and the
/// count of characters consumed. Raw control characters are rejected;
/// `\uXXXX` escapes are accepted up to `\u007F`.
pub open spec fn parse_str_body(s: Seq<char>) -> Option<(Seq<char>, nat)>
    decreases s.len(),
{
    if s.len() == 0 {
        None
    } else if s[0] == '"' {
        Some((Seq::empty(), 1))
    } else if s[0] == '\\' {
        if s.len() < 2 {
            None
        } else if s[1] == 'u' {
            if s.len() < 6 {
                None
            } else {
                match (
                    hex_digit_val(s[2]),
                    hex_digit_val(s[3]),
                    hex_digit_val(s[4]),
                    hex_digit_val(s[5]),
                ) {
                    (Some(a), Some(b), Some(c), Some(d)) => {
                        let v = 4096 * (a as nat) + 256 * (b as nat) + 16 * (c as nat) + (
                        d as nat);
                        if v < 128 {
                            match parse_str_body(chop(s, 6)) {
                                Some((t, n)) => Some((seq![v as char] + t, n + 6)),
                                None => None,
                            }
                        } else {
                            None
                        }
                    },
                    _ => None,
                }
            }
        } else {
            match unescape(s[1]) {
                Some(d) => match parse_str_body(chop(s, 2)) {
                    Some((t, n)) => Some((seq![d] + t, n + 2)),
                    None => None,
                },
                None => None,
            }
        }
    } else if (s[0] as u32) < 32 {
        None
    } else {
        match parse_str_body(chop(s, 1)) {
            Some((t, n)) => Some((seq![s[0]] + t, n + 1)),
            None => None,
        }
    }
}

/// Reads an integer: an optional minus sign, then at least one digit, taken
/// greedily; fails when the magnitude exceeds `u64::MAX`.
pub open spec fn parse_num(s: Seq<char>) -> Option<(JsonV, nat)> {
    if s.len() > 0 && s[0] == '-' {
        let k = digit_count(chop(s, 1));
        if k == 0 {
            None
        } else {
            let v = digits_val(chop(s, 1).take(k as int));
            if v <= u64::MAX {
                Some((JsonV::Num { neg: true, mag: v as u64 }, k + 1))
            } else {
                None
            }
        }
    } else {
        let k = digit_count(s);
        if k == 0 {
            None
        } else {
            let v = digits_val(s.take(k as int));
            if v <= u64::MAX {
                Some((JsonV::Num { neg: false, mag: v as u64 }, k))
            } else {
                None
            }
        }
    }
}

/// Reads one wire value. Consumed counts include everything up to the last
/// character of the value.
pub open spec fn parse_value(s: Seq<char>) -> Option<(JsonV, nat)>
    decreases s.len(), 0int,
{
    if s.len() == 0 {
        None
    } else if s[0] == '"' {
        match parse_str_body(chop(s, 1)) {
            Some((t, n)) => Some((JsonV::Str(t), n + 1)),
            None => None,
        }
    } else if s[0] == '[' {
        let w = ws_count(chop(s, 1));
        let r = chop(s, 1 + w);
        if r.len() > 0 && r[0] == ']' {
            Some((JsonV::Arr(Seq::empty()), 1 + w + 1))
        } else {
            match parse_arr_items(chop(s, 1)) {
                Some((elems, n)) => Some((JsonV::Arr(elems), n + 1)),
                None => None,
            }
        }
    } else if s[0] == '{' {
        let w = ws_count(chop(s, 1));
        let r = chop(s, 1 + w);
        if r.len() > 0 && r[0] == '}' {
            Some((JsonV::Obj(Seq::empty()), 1 + w + 1))
        } else {
            match parse_obj_items(chop(s, 1)) {
                Some((fields, n)) => Some((JsonV::Obj(fields), n + 1)),
                None => None,
            }
        }
    } else {
        parse_num(s)
    }
}

/// Reads the items of a non-empty array, starting just after the opening
/// bracket; consumes up to and including the closing bracket.
pub open spec fn parse_arr_items(s: Seq<char>) -> Option<(Seq<JsonV>, nat)>
    decreases s.len(), 1int,
{
    let w1 = ws_count(s);
    let s1 = chop(s, w1);
    match parse_value(s1) {
        Some((v, n)) => {
            let w2 = ws_count(chop(s1, n));
            let rest = chop(s1, n + w2);
            if rest.len() > 0 && rest[0] == ',' {
                match parse_arr_items(chop(s, w1 + n + w2 + 1)) {
                    Some((more, m)) => Some((seq![v] + more, w1 + n + w2 + 1 + m)),
                    None => None,
                }
            } else if rest.len() > 0 && rest[0] == ']' {
                Some((seq![v], w1 + n + w2 + 1))
            } else {
                None
            }
        },
        None => None,
    }
}

/// Reads one object field: whitespace, a key string, whitespace, a colon,
/// whitespace, a value.
pub open spec fn parse_obj_field(s: Seq<char>) -> Option<((Seq<char>, JsonV), nat)>
    decreases s.len(), 1int,
{
    let w1 = ws_count(s);
    let s1 = chop(s, w1);
    if s1.len() > 0 && s1[0] == '"' {
        match parse_str_body(chop(s1, 1)) {
            Some((key, kn)) => {
                let w2 = ws_count(chop(s1, 1 + kn));
                let s2 = chop(s1, 1 + kn + w2);
                if s2.len() > 0 && s2[0] == ':' {
                    let w3 = ws_count(chop(s2, 1));
                    let s3 = chop(s2, 1 + w3);
                    match parse_value(s3) {
                        Some((v, vn)) => Some(((key, v), w1 + 1 + kn + w2 + 1 + w3 + vn)),
                        None => None,
                    }
                } else {
                    None
                }
            },
            None => None,
        }
    } else {
        None
    }
}

/// Reads the fields of a non-empty object, starting just after the opening
/// brace; consumes up to and including the closing brace.
pub open spec fn parse_obj_items(s: Seq<char>) -> Option<(Seq<(Seq<char>, JsonV)>, nat)>
    decreases s.len(), 2int,
{
    match parse_obj_field(s) {
        Some((kv, used)) => {
            let w4 = ws_count(chop(s, used));
            let s4 = chop(s, used + w4);
            if s4.len() > 0 && s4[0] == ',' {
                match parse_obj_items(chop(s, used + w4 + 1)) {
                    Some((more, m)) => Some((seq![kv] + more, used + w4 + 1 + m)),
                    None => None,
                }
            } else if s4.len() > 0 && s4[0] == '}' {
                Some((seq![kv], used + w4 + 1))
            } else {
                None
            }
        },
        None => None,
    }
}

/// Reads a whole document: one wire value, possibly surrounded by
/// whitespace, spanning the entire text.
pub open spec fn parse_doc(s: Seq<char>) -> Option<JsonV> {
    let w1 = ws_count(s);
    match parse_value(chop(s, w1)) {
        Some((v, n)) => {
            let rest = chop(s, w1 + n);
            if ws_count(rest) == rest.len() {
                Some(v)
            } else {
                None
            }
        },
        None => None,
    }
}

/// Leading whitespace is never longer than the text.
pub proof fn lemma_ws_count_le(s: Seq<char>)
    ensures
        ws_count(s) <= s.len(),
    decreases s.len(),
{
    if s.len() > 0 && is_ws(s[0]) {
        lemma_ws_count_le(s.skip(1));
    }
}

/// Chopping a suffix of `s` skips further into `s`.
pub proof fn lemma_chop_at(s: Seq<char>, i: int, a: nat)
    requires
        0 <= i,
        i + a <= s.len(),
    ensures
        chop(s.skip(i), a) == s.skip(i + a),
{
    assert(chop(s.skip(i), a) =~= s.skip(i + a));
}

/// A text that starts with `k` digits and then stops has a digit run of
/// exactly `k`.
pub proof fn lemma_digit_count_exact(s: Seq<char>, k: nat)
    requires
        k <= s.len(),
        forall|t: int| 0 <= t < k ==> is_digit(#[trigger] s[t]),
        k == s.len() || !is_digit(s[k as int]),
    ensures
        digit_count(s) == k,
    decreases k,
{
    if k == 0 {
    } else {
        assert(is_digit(s[0]));
        assert(forall|t: int| 0 <= t < k - 1 ==> is_digit(#[trigger] s.skip(1)[t]) == is_digit(
            s[t + 1],
        ));
        lemma_digit_count_exact(s.skip(1), (k - 1) as nat);
    }
}

fn skip_ws_at(s: &Vec<char>, i: usize) -> (n: usize)
    requires
        i <= s@.len(),
    ensures
        i <= n <= s@.len(),
        (n - i) as nat == ws_count(s@.skip(i as int)),
    decreases s@.len() - i,
{
    if i == s.len() {
        return i;
    }
    let c = s[i];
    proof {
        assert(s@.skip(i as int)[0] == s@[i as int]);
    }
    if c == ' ' || c == '\t' || c == '\n' || c == '\r' {
        proof {
            assert(s@.skip(i as int).skip(1) =~= s@.skip(i + 1 as int));
        }
        skip_ws_at(s, i + 1)
    } else {
        i
    }
}

#[verifier::rlimit(50)]
fn str_body_at(s: &Vec<char>, i: usize) -> (r: Option<(Vec<char>, usize)>)
    requires
        i <= s@.len(),
    ensures
        match r {
            Some((t, n)) => i < n <= s@.len() && parse_str_body(s@.skip(i as int)) == Some(
                (t@, (n - i) as nat),
            ),
            None => parse_str_body(s@.skip(i as int)) is None,
        },
    decreases s@.len() - i,
{
    let ghost su = s@.skip(i as int);
    if i == s.len() {
        return None;
    }
    let c = s[i];
    proof {
        assert(su[0] == s@[i as int]);
    }
    if c == '"' {
        let t: Vec<char> = Vec::new();
        proof {
            assert(t@ =~= Seq::<char>::empty());
        }
        return Some((t, i + 1));
    }
    if c == '\\' {
        if i + 1 == s.len() {
            return None;
        }
        let e = s[i + 1];
        proof {
            assert(su[1] == s@[i + 1 as int]);
        }
        if e == 'u' {
            if s.len() - i < 6 {
                return None;
            }
            proof {
                assert(su[2] == s@[i + 2 as int]);
                assert(su[3] == s@[i + 3 as int]);
                assert(su[4] == s@[i + 4 as int]);
                assert(su[5] == s@[i + 5 as int]);
            }
            let ha = crate::color::hex_val_char(s[i + 2]);
            let hb = crate::color::hex_val_char(s[i + 3]);
            let hc = crate::color::hex_val_char(s[i + 4]);
            let hd = crate::color::hex_val_char(s[i + 5]);
            let (va, vb, vc, vd) = match (ha, hb, hc, hd) {
                (Some(a), Some(b), Some(cc), Some(d)) => (a, b, cc, d),
                _ => {
                    return None;
                },
            };
            let v: u32 = 4096 * (va as u32) + 256 * (vb as u32) + 16 * (vc as u32) + (vd as u32);
            if v >= 128 {
                return None;
            }
            let d = (v as u8) as char;
            proof {
                lemma_chop_at(s@, i as int, 6);
            }
            match str_body_at(s, i + 6) {
                Some((t, n)) => {
                    let mut t2 = t;
                    let ghost t0 = t2@;
                    t2.insert(0, d);
                    proof {
                        let ghost v_nat = 4096 * (hex_digit_val(su[2])->0 as nat) + 256 * (
                        hex_digit_val(su[3])->0 as nat) + 16 * (hex_digit_val(su[4])->0 as nat) + (
                        hex_digit_val(su[5])->0 as nat);
                        assert(v as nat == v_nat);
                        assert(d == (v_nat as char));
                        assert(t2@ =~= seq![v_nat as char] + t0);
                    }
                    Some((t2, n))
                },
                None => None,
            }
        } else {
            let d: char = if e == '"' {
                '"'
            } else if e == '\\' {
                '\\'
            } else if e == '/' {
                '/'
            } else if e == 'n' {
                '\n'
            } else if e == 'r' {
                '\r'
            } else if e == 't' {
                '\t'
            } else if e == 'b' {
                8u8 as char
            } else if e == 'f' {
                12u8 as char
            } else {
                return None;
            };
            proof {
                lemma_chop_at(s@, i as int, 2);
                assert(unescape(su[1]) == Some(d));
            }
            match str_body_at(s, i + 2) {
                Some((t, n)) => {
                    let mut t2 = t;
                    let ghost t0 = t2@;
                    t2.insert(0, d);
                    proof {
                        assert(t2@ =~= seq![d] + t0);
                    }
                    Some((t2, n))
                },
                None => None,
            }
        }
    } else if (c as u32) < 32 {
        None
    } else {
        proof {
            lemma_chop_at(s@, i as int, 1);
        }
        match str_body_at(s, i + 1) {
            Some((t, n)) => {
                let mut t2 = t;
                let ghost t0 = t2@;
                t2.insert(0, c);
                proof {
                    assert(t2@ =~= seq![c] + t0);
                }
                Some((t2, n))
            },
            None => None,
        }
    }
}

fn digits_at(s: &Vec<char>, i: usize) -> (r: (usize, Option<u64>))
    requires
        i <= s@.len(),
    ensures
        ({
            let su = s@.skip(i as int);
            &&& i <= r.0 <= s@.len()
            &&& (r.0 - i) as nat == digit_count(su)
            &&& match r.1 {
                Some(v) => digits_val(su.take((r.0 - i) as int)) == v as nat,
                None => digits_val(su.take((r.0 - i) as int)) > u64::MAX,
            }
        }),
{
    let ghost su = s@.skip(i as int);
    let len = s.len();
    let mut j: usize = i;
    let mut done: bool = false;
    while !done
        invariant
            i <= j <= len,
            len == s@.len(),
            forall|t: int| i <= t < j ==> is_digit(#[trigger] s@[t]),
            done ==> (j == len || !is_digit(s@[j as int])),
        decreases len - j + (if done { 0int } else { 1int }),
    {
        if j == len {
            done = true;
        } else {
            let c = s[j];
            let u = c as u32;
            if 48 <= u && u <= 57 {
                j += 1;
            } else {
                done = true;
            }
        }
    }
    proof {
        assert(forall|t: int| 0 <= t < j - i ==> is_digit(#[trigger] su[t]) == is_digit(
            s@[i + t],
        ));
        if (j - i) as nat != su.len() {
            assert(su[(j - i) as int] == s@[j as int]);
        }
        lemma_digit_count_exact(su, (j - i) as nat);
    }
    let mut acc: u64 = 0;
    let mut t: usize = i;
    let mut over: bool = false;
    while t < j
        invariant
            i <= t <= j <= len,
            len == s@.len(),
            su == s@.skip(i as int),
            forall|q: int| i <= q < j ==> is_digit(#[trigger] s@[q]),
            !over ==> acc as nat == digits_val(su.take((t - i) as int)),
            over ==> digits_val(su.take((t - i) as int)) > u64::MAX,
        decreases j - t,
    {
        let c = s[t];
        let u = c as u32;
        proof {
            assert(su[(t - i) as int] == s@[t as int]);
            assert(is_digit(s@[t as int]));
        }
        let d = (u - 48) as u64;
        proof {
            assert(su.take((t - i) as int + 1).take((t - i) as int) =~= su.take((t - i) as int));
            assert(su.take((t - i) as int + 1)[(t - i) as int] == su[(t - i) as int]);
            assert(digits_val(su.take((t - i) as int + 1)) == digits_val(
                su.take((t - i) as int),
            ) * 10 + digit_of(s@[t as int]));
            assert(digit_of(s@[t as int]) == d as nat);
        }
        if over {
            proof {
                assert(digits_val(su.take((t - i) as int + 1)) > u64::MAX);
            }
        } else {
            let limit = (u64::MAX - d) / 10;
            proof {
                vstd::arithmetic::div_mod::lemma_fundamental_div_mod(
                    (u64::MAX - d) as int,
                    10int,
                );
            }
            if acc > limit {
                over = true;
                proof {
                    assert(acc as nat * 10 + d as nat > u64::MAX) by (nonlinear_arith)
                        requires
                            acc as nat > ((u64::MAX - d) as nat) / 10,
                            d as nat <= 9,
                            (u64::MAX - d) as int == 10int * (((u64::MAX - d) as int) / 10int) + (
                            (u64::MAX - d) as int) % 10int,
                            0 <= ((u64::MAX - d) as int) % 10int < 10,
                    ;
                }
            } else {
                proof {
                    assert(acc as nat * 10 + d as nat <= u64::MAX) by (nonlinear_arith)
                        requires
                            acc as nat <= ((u64::MAX - d) as nat) / 10,
                            d as nat <= 9,
                            (u64::MAX - d) as int == 10int * (((u64::MAX - d) as int) / 10int) + (
                            (u64::MAX - d) as int) % 10int,
                            0 <= ((u64::MAX - d) as int) % 10int < 10,
                    ;
                }
                acc = acc * 10 + d;
            }
        }
        t += 1;
    }
    (j, if over { None } else { Some(acc) })
}

fn num_at(s: &Vec<char>, i: usize) -> (r: Option<(Json, usize)>)
    requires
        i <= s@.len(),
    ensures
        match r {
            Some((j, n)) => i < n <= s@.len() && parse_num(s@.skip(i as int)) == Some(
                (j@, (n - i) as nat),
            ),
            None => parse_num(s@.skip(i as int)) is None,
        },
{
    let ghost su = s@.skip(i as int);
    let len = s.len();
    if i < len && s[i] == '-' {
        proof {
            assert(su[0] == s@[i as int]);
            lemma_chop_at(s@, i as int, 1);
        }
        let (j, v) = digits_at(s, i + 1);
        if j == i + 1 {
            return None;
        }
        match v {
            Some(mag) => Some((Json::Num { neg: true, mag }, j)),
            None => None,
        }
    } else {
        proof {
            if i < len {
                assert(su[0] == s@[i as int]);
            }
        }
        let (j, v) = digits_at(s, i);
        if j == i {
            return None;
        }
        match v {
            Some(mag) => Some((Json::Num { neg: false, mag }, j)),
            None => None,
        }
    }
}

#[verifier::rlimit(100)]
#[verifier::spinoff_prover]
fn value_at(s: &Vec<char>, i: usize) -> (r: Option<(Json, usize)>)
    requires
        i <= s@.len(),
    ensures
        match r {
            Some((j, n)) => i < n <= s@.len() && parse_value(s@.skip(i as int)) == Some(
                (j@, (n - i) as nat),
            ),
            None => parse_value(s@.skip(i as int)) is None,
        },
    decreases s@.len() - i, 0int,
{
    let ghost su = s@.skip(i as int);
    if i == s.len() {
        return None;
    }
    let c = s[i];
    proof {
        assert(su[0] == s@[i as int]);
    }
    if c == '"' {
        proof {
            lemma_chop_at(s@, i as int, 1);
        }
        match str_body_at(s, i + 1) {
            Some((t, n)) => {
                let txt = chars_to_string(&t);
                Some((Json::Str(txt), n))
            },
            None => None,
        }
    } else if c == '[' {
        proof {
            lemma_chop_at(s@, i as int, 1);
        }
        let w = skip_ws_at(s, i + 1);
        proof {
            lemma_chop_at(s@, i as int, (1 + (w - (i + 1))) as nat);
        }
        if w < s.len() && s[w] == ']' {
            let items: Vec<Json> = Vec::new();
            proof {
                assert(s@.skip(w as int)[0] == s@[w as int]);
                assert(super::jarr_view(items@) =~= Seq::<JsonV>::empty());
            }
            Some((Json::Arr(items), w + 1))
        } else {
            proof {
                if w < s.len() {
                    assert(s@.skip(w as int)[0] == s@[w as int]);
                }
            }
            match arr_items_at(s, i + 1) {
                Some((items, n)) => Some((Json::Arr(items), n)),
                None => None,
            }
        }
    } else if c == '{' {
        proof {
            lemma_chop_at(s@, i as int, 1);
        }
        let w = skip_ws_at(s, i + 1);
        proof {
            lemma_chop_at(s@, i as int, (1 + (w - (i + 1))) as nat);
        }
        if w < s.len() && s[w] == '}' {
            let fields: Vec<(String, Json)> = Vec::new();
            proof {
                assert(s@.skip(w as int)[0] == s@[w as int]);
                assert(super::jobj_view(fields@) =~= Seq::<(Seq<char>, JsonV)>::empty());
            }
            Some((Json::Obj(fields), w + 1))
        } else {
            proof {
                if w < s.len() {
                    assert(s@.skip(w as int)[0] == s@[w as int]);
                }
            }
            match obj_items_at(s, i + 1) {
                Some((fields, n)) => Some((Json::Obj(fields), n)),
                None => None,
            }
        }
    } else {
        num_at(s, i)
    }
}

#[verifier::rlimit(100)]
#[verifier::spinoff_prover]
fn arr_items_at(s: &Vec<char>, i: usize) -> (r: Option<(Vec<Json>, usize)>)
    requires
        i <= s@.len(),
    ensures
        match r {
            Some((items, n)) => i < n <= s@.len() && parse_arr_items(s@.skip(i as int)) == Some(
                (super::jarr_view(items@), (n - i) as nat),
            ),
            None => parse_arr_items(s@.skip(i as int)) is None,
        },
    decreases s@.len() - i, 1int,
{
    let ghost su = s@.skip(i as int);
    let w1 = skip_ws_at(s, i);
    proof {
        lemma_chop_at(s@, i as int, (w1 - i) as nat);
    }
    match value_at(s, w1) {
        Some((v, n)) => {
            proof {
                lemma_chop_at(s@, w1 as int, (n - w1) as nat);
            }
            let w2 = skip_ws_at(s, n);
            proof {
                lemma_chop_at(s@, w1 as int, ((n - w1) + (w2 - n)) as nat);
            }
            if w2 == s.len() {
                return None;
            }
            let c = s[w2];
            proof {
                assert(s@.skip(w2 as int)[0] == s@[w2 as int]);
            }
            if c == ',' {
                proof {
                    lemma_chop_at(s@, i as int, ((w2 + 1) - i) as nat);
                }
                match arr_items_at(s, w2 + 1) {
                    Some((more, m)) => {
                        let mut items = more;
                        let ghost more0 = items@;
                        items.insert(0, v);
                        proof {
                            assert(items@[0] == v);
                            assert(items@.subrange(1, items@.len() as int) =~= more0);
                            assert(super::jarr_view(items@) == seq![v@] + super::jarr_view(
                                more0,
                            ));
                        }
                        Some((items, m))
                    },
                    None => None,
                }
            } else if c == ']' {
                let mut items: Vec<Json> = Vec::new();
                items.push(v);
                proof {
                    assert(items@[0] == v);
                    assert(items@.subrange(1, 1) =~= Seq::<Json>::empty());
                    assert(super::jarr_view(Seq::<Json>::empty()) == Seq::<JsonV>::empty());
                    assert(super::jarr_view(items@) =~= seq![v@]);
                }
                Some((items, w2 + 1))
            } else {
                None
            }
        },
        None => None,
    }
}

#[verifier::rlimit(100)]
#[verifier::spinoff_prover]
fn obj_field_at(s: &Vec<char>, i: usize) -> (r: Option<(Vec<char>, Json, usize)>)
    requires
        i <= s@.len(),
    ensures
        match r {
            Some((kc, v, n)) => i < n <= s@.len() && parse_obj_field(s@.skip(i as int)) == Some(
                ((kc@, v@), (n - i) as nat),
            ),
            None => parse_obj_field(s@.skip(i as int)) is None,
        },
    decreases s@.len() - i, 1int,
{
    let ghost su = s@.skip(i as int);
    let w1 = skip_ws_at(s, i);
    proof {
        lemma_chop_at(s@, i as int, (w1 - i) as nat);
    }
    if w1 == s.len() {
        return None;
    }
    if s[w1] != '"' {
        proof {
            assert(s@.skip(w1 as int)[0] == s@[w1 as int]);
        }
        return None;
    }
    proof {
        assert(s@.skip(w1 as int)[0] == s@[w1 as int]);
        lemma_chop_at(s@, w1 as int, 1);
    }
    match str_body_at(s, w1 + 1) {
        Some((kchars, kend)) => {
            proof {
                lemma_chop_at(s@, w1 as int, (1 + (kend - (w1 + 1))) as nat);
            }
            let w2 = skip_ws_at(s, kend);
            proof {
                lemma_chop_at(s@, w1 as int, ((kend - w1) + (w2 - kend)) as nat);
            }
            if w2 == s.len() {
                return None;
            }
            if s[w2] != ':' {
                proof {
                    assert(s@.skip(w2 as int)[0] == s@[w2 as int]);
                }
                return None;
            }
            proof {
                assert(s@.skip(w2 as int)[0] == s@[w2 as int]);
                lemma_chop_at(s@, w2 as int, 1);
            }
            let w3 = skip_ws_at(s, w2 + 1);
            proof {
                lemma_chop_at(s@, w2 as int, (1 + (w3 - (w2 + 1))) as nat);
            }
            match value_at(s, w3) {
                Some((v, vend)) => Some((kchars, v, vend)),
                None => None,
            }
        },
        None => None,
    }
}

#[verifier::rlimit(100)]
#[verifier::spinoff_prover]
fn obj_items_at(s: &Vec<char>, i: usize) -> (r: Option<(Vec<(String, Json)>, usize)>)
    requires
        i <= s@.len(),
    ensures
        match r {
            Some((fields, n)) => i < n <= s@.len() && parse_obj_items(s@.skip(i as int)) == Some(
                (super::jobj_view(fields@), (n - i) as nat),
            ),
            None => parse_obj_items(s@.skip(i as int)) is None,
        },
    decreases s@.len() - i, 2int,
{
    let ghost su = s@.skip(i as int);
    match obj_field_at(s, i) {
        Some((kchars, v, fend)) => {
            proof {
                lemma_chop_at(s@, i as int, (fend - i) as nat);
            }
            let w4 = skip_ws_at(s, fend);
            proof {
                lemma_chop_at(s@, i as int, ((fend - i) + (w4 - fend)) as nat);
            }
            if w4 == s.len() {
                return None;
            }
            let c4 = s[w4];
            proof {
                assert(s@.skip(w4 as int)[0] == s@[w4 as int]);
            }
            if c4 == ',' {
                proof {
                    lemma_chop_at(s@, i as int, ((w4 + 1) - i) as nat);
                }
                match obj_items_at(s, w4 + 1) {
                    Some((more, m)) => {
                        let key = chars_to_string(&kchars);
                        let mut fields = more;
                        let ghost more0 = fields@;
                        fields.insert(0, (key, v));
                        proof {
                            assert(fields@[0].0@ == kchars@);
                            assert(fields@[0].1 == v);
                            assert(fields@.subrange(1, fields@.len() as int) =~= more0);
                            assert(super::jobj_view(fields@) == seq![(kchars@, v@)]
                                + super::jobj_view(more0));
                        }
                        Some((fields, m))
                    },
                    None => None,
                }
            } else if c4 == '}' {
                let key = chars_to_string(&kchars);
                let mut fields: Vec<(String, Json)> = Vec::new();
                fields.push((key, v));
                proof {
                    assert(fields@[0].0@ == kchars@);
                    assert(fields@[0].1 == v);
                    assert(fields@.subrange(1, 1) =~= Seq::<(String, Json)>::empty());
                    assert(super::jobj_view(Seq::<(String, Json)>::empty()) == Seq::<(
                        Seq<char>,
                        JsonV,
                    )>::empty());
                    assert(super::jobj_view(fields@) =~= seq![(kchars@, v@)]);
                }
                Some((fields, w4 + 1))
            } else {
                None
            }
        },
        None => None,
    }
}

/// Parses a whole document, per [`parse_doc`]: one value, optionally
/// surrounded by whitespace, spanning the entire text.
pub fn parse_document(s: &str) -> (r: Result<Json, ParseError>)
    ensures
        match r {
            Ok(j) => parse_doc(s@) == Some(j@),
            Err(e) => parse_doc(s@) is None && e@ == crate::error::ParseErrorV::Syntax,
        },
{
    let cs = crate::text::str_to_chars(s);
    proof {
        assert(cs@.skip(0) =~= cs@);
    }
    let w1 = skip_ws_at(&cs, 0);
    match value_at(&cs, w1) {
        Some((j, m)) => {
            let w2 = skip_ws_at(&cs, m);
            if w2 == cs.len() {
                Ok(j)
            } else {
                proof {
                    lemma_ws_count_le(s@.skip(m as int));
                }
                Err(ParseError::Syntax)
            }
        },
        None => Err(ParseError::Syntax),
    }
}

} // verus!
