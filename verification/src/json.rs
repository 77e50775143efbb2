//! JSON document model and its text form.
//!
//! The OSV wire protocol exchanges JSON documents. This module holds the
//! document model (`JsonValue`), its mathematical counterpart (`JsonV`), the
//! grammar of the text form written as spec functions, and verified printing
//! and parsing between the two. Numbers are kept as their literal text, so a
//! document round-trips without any floating-point interpretation.

use vstd::prelude::*;

verus! {

broadcast use
    vstd::std_specs::vec::axiom_vec_decreases_to_view,
    vstd::seq::axiom_seq_index_decreases;

/// Mathematical form of a JSON document: strings as character sequences,
/// numbers as the character sequence of their literal.
pub enum JsonV {
    Null,
    Bool(bool),
    Num(Seq<char>),
    Str(Seq<char>),
    Arr(Seq<JsonV>),
    Obj(Seq<(Seq<char>, JsonV)>),
}

/// A JSON document. A number is kept as the exact literal text it had on the
/// wire (or is given for encoding), so no numeric interpretation is imposed.
#[derive(Debug, PartialEq)]
pub enum JsonValue {
    Null,
    Bool(bool),
    Num(String),
    Str(String),
    Arr(Vec<JsonValue>),
    Obj(Vec<(String, JsonValue)>),
}

impl DeepView for JsonValue {
    type V = JsonV;

    open spec fn deep_view(&self) -> JsonV {
        self.view()
    }
}

impl View for JsonValue {
    type V = JsonV;

    open spec fn view(&self) -> JsonV
        decreases self, 0int,
    {
        match self {
            JsonValue::Null => JsonV::Null,
            JsonValue::Bool(b) => JsonV::Bool(*b),
            JsonValue::Num(s) => JsonV::Num(s@),
            JsonValue::Str(s) => JsonV::Str(s@),
            JsonValue::Arr(vs) => JsonV::Arr(view_arr(vs@, 0)),
            JsonValue::Obj(ms) => JsonV::Obj(view_obj(ms@, 0)),
        }
    }
}

/// Views of the elements of `vs` from position `k` on.
pub open spec fn view_arr(vs: Seq<JsonValue>, k: int) -> Seq<JsonV>
    decreases vs, vs.len() - k,
{
    if k < 0 || k >= vs.len() {
        Seq::empty()
    } else {
        seq![vs[k]@] + view_arr(vs, k + 1)
    }
}

/// Views of the members of `ms` from position `k` on.
pub open spec fn view_obj(ms: Seq<(String, JsonValue)>, k: int) -> Seq<(Seq<char>, JsonV)>
    decreases ms, ms.len() - k,
{
    if k < 0 || k >= ms.len() {
        Seq::empty()
    } else {
        seq![(ms[k].0@, ms[k].1@)] + view_obj(ms, k + 1)
    }
}

/// First value bound to key `k` in an object member list; members past the
/// first occurrence of a key are shadowed, as this client reads objects.
pub open spec fn obj_get(ms: Seq<(Seq<char>, JsonV)>, k: Seq<char>) -> Option<JsonV>
    decreases ms.len(),
{
    if ms.len() == 0 {
        None
    } else if ms[0].0 == k {
        Some(ms[0].1)
    } else {
        obj_get(ms.drop_first(), k)
    }
}

/// Whether key `k` is bound at all in an object member list.
pub open spec fn obj_has(ms: Seq<(Seq<char>, JsonV)>, k: Seq<char>) -> bool {
    obj_get(ms, k) is Some
}

/// The hexadecimal digit for `v` (lower case), for `0 <= v < 16`.
pub open spec fn hex_digit(v: int) -> char {
    if v < 10 {
        (48 + v) as char
    } else {
        (87 + v) as char
    }
}

/// How one character of a string is written inside quotes: `"` and `\` get a
/// backslash, control characters become a `\u00..` escape, all others stand
/// as themselves.
pub open spec fn escape_char(c: char) -> Seq<char> {
    if c == '"' {
        seq!['\\', '"']
    } else if c == '\\' {
        seq!['\\', '\\']
    } else if (c as u32) < 32 {
        seq!['\\', 'u', '0', '0', hex_digit(c as u32 as int / 16), hex_digit(c as u32 as int % 16)]
    } else {
        seq![c]
    }
}

/// The escaped text of `s` from position `k` on.
pub open spec fn escape_from(s: Seq<char>, k: int) -> Seq<char>
    decreases s.len() - k,
{
    if k < 0 || k >= s.len() {
        Seq::empty()
    } else {
        escape_char(s[k]) + escape_from(s, k + 1)
    }
}

/// The quoted, escaped text of string `s`.
pub open spec fn print_string(s: Seq<char>) -> Seq<char> {
    seq!['"'] + escape_from(s, 0) + seq!['"']
}

/// The text this client writes for a JSON document: no whitespace, members
/// and elements in order, strings escaped by `escape_char`.
pub open spec fn print_json(v: JsonV) -> Seq<char>
    decreases v, 1int,
{
    match v {
        JsonV::Null => seq!['n', 'u', 'l', 'l'],
        JsonV::Bool(b) => if b {
            seq!['t', 'r', 'u', 'e']
        } else {
            seq!['f', 'a', 'l', 's', 'e']
        },
        JsonV::Num(s) => s,
        JsonV::Str(s) => print_string(s),
        JsonV::Arr(vs) => seq!['['] + print_elems(vs, 0) + seq![']'],
        JsonV::Obj(ms) => seq!['{'] + print_members(ms, 0) + seq!['}'],
    }
}

/// The comma-separated text of elements `k..` of an array.
pub open spec fn print_elems(vs: Seq<JsonV>, k: int) -> Seq<char>
    decreases vs, vs.len() - k,
{
    if k < 0 || k >= vs.len() {
        Seq::empty()
    } else if k == vs.len() - 1 {
        print_json(vs[k])
    } else {
        print_json(vs[k]) + seq![','] + print_elems(vs, k + 1)
    }
}

/// The comma-separated text of members `k..` of an object.
pub open spec fn print_members(ms: Seq<(Seq<char>, JsonV)>, k: int) -> Seq<char>
    decreases ms, ms.len() - k,
{
    if k < 0 || k >= ms.len() {
        Seq::empty()
    } else if k == ms.len() - 1 {
        print_string(ms[k].0) + seq![':'] + print_json(ms[k].1)
    } else {
        print_string(ms[k].0) + seq![':'] + print_json(ms[k].1) + seq![','] + print_members(
            ms,
            k + 1,
        )
    }
}

/// JSON whitespace.
pub open spec fn is_ws(c: char) -> bool {
    c == ' ' || c == '\t' || c == '\n' || c == '\r'
}

/// Decimal digit.
pub open spec fn is_digit(c: char) -> bool {
    48 <= c as u32 <= 57
}

/// Hexadecimal digit, either case.
pub open spec fn is_hex(c: char) -> bool {
    48 <= c as u32 <= 57 || 97 <= c as u32 <= 102 || 65 <= c as u32 <= 70
}

/// Value of a hexadecimal digit.
pub open spec fn hex_val(c: char) -> int {
    if 48 <= c as u32 <= 57 {
        c as u32 - 48
    } else if 97 <= c as u32 <= 102 {
        c as u32 - 87
    } else if 65 <= c as u32 <= 70 {
        c as u32 - 55
    } else {
        0
    }
}

/// First position at or after `i` holding no whitespace.
pub open spec fn skip_ws(s: Seq<char>, i: int) -> int
    decreases s.len() - i,
{
    if 0 <= i < s.len() && is_ws(s[i]) {
        skip_ws(s, i + 1)
    } else {
        i
    }
}

/// First position at or after `i` holding no digit.
pub open spec fn scan_digits(s: Seq<char>, i: int) -> int
    decreases s.len() - i,
{
    if 0 <= i < s.len() && is_digit(s[i]) {
        scan_digits(s, i + 1)
    } else {
        i
    }
}

proof fn lemma_skip_ws_bounds(s: Seq<char>, i: int)
    requires
        0 <= i <= s.len(),
    ensures
        i <= skip_ws(s, i) <= s.len(),
    decreases s.len() - i,
{
    if i < s.len() && is_ws(s[i]) {
        lemma_skip_ws_bounds(s, i + 1);
    }
}

proof fn lemma_scan_digits_bounds(s: Seq<char>, i: int)
    requires
        0 <= i <= s.len(),
    ensures
        i <= scan_digits(s, i) <= s.len(),
    decreases s.len() - i,
{
    if i < s.len() && is_digit(s[i]) {
        lemma_scan_digits_bounds(s, i + 1);
    }
}

/// A number literal starting at `i`: optional minus, an integer part with no
/// leading zero, optional fraction, optional exponent. Yields the literal's
/// characters and the position after it.
pub open spec fn parse_number(s: Seq<char>, i: int) -> Option<(JsonV, int)> {
    let p = if 0 <= i < s.len() && s[i] == '-' {
        i + 1
    } else {
        i
    };
    if !(0 <= p < s.len() && is_digit(s[p])) {
        None
    } else {
        let ie = if s[p] == '0' {
            p + 1
        } else {
            scan_digits(s, p)
        };
        let fe = if ie < s.len() && s[ie] == '.' {
            if ie + 1 < s.len() && is_digit(s[ie + 1]) {
                scan_digits(s, ie + 1)
            } else {
                -1
            }
        } else {
            ie
        };
        if fe < 0 {
            None
        } else {
            let ee = if fe < s.len() && (s[fe] == 'e' || s[fe] == 'E') {
                let q = if fe + 1 < s.len() && (s[fe + 1] == '+' || s[fe + 1] == '-') {
                    fe + 2
                } else {
                    fe + 1
                };
                if q < s.len() && is_digit(s[q]) {
                    scan_digits(s, q)
                } else {
                    -1
                }
            } else {
                fe
            };
            if ee < 0 {
                None
            } else {
                Some((JsonV::Num(s.subrange(i, ee)), ee))
            }
        }
    }
}

/// The character written by a one-letter escape, if the letter is one.
pub open spec fn simple_escape(e: char) -> Option<char> {
    if e == '"' {
        Some('"')
    } else if e == '\\' {
        Some('\\')
    } else if e == '/' {
        Some('/')
    } else if e == 'b' {
        Some('\u{08}')
    } else if e == 'f' {
        Some('\u{0C}')
    } else if e == 'n' {
        Some('\n')
    } else if e == 'r' {
        Some('\r')
    } else if e == 't' {
        Some('\t')
    } else {
        None
    }
}

/// Four hexadecimal digits at `i`, as a number.
pub open spec fn hex4(s: Seq<char>, i: int) -> Option<int> {
    if 0 <= i && i + 4 <= s.len() && is_hex(s[i]) && is_hex(s[i + 1]) && is_hex(s[i + 2]) && is_hex(
        s[i + 3],
    ) {
        Some(4096 * hex_val(s[i]) + 256 * hex_val(s[i + 1]) + 16 * hex_val(s[i + 2]) + hex_val(
            s[i + 3],
        ))
    } else {
        None
    }
}

/// The body of a string literal from `i` (just after the opening quote) to
/// its closing quote: unescapes one-letter escapes and `\u` escapes,
/// combining a surrogate pair into one character, and refuses raw control
/// characters and lone surrogates.
pub open spec fn parse_string_body(s: Seq<char>, i: int) -> Option<(Seq<char>, int)>
    decreases s.len() - i,
{
    if !(0 <= i < s.len()) {
        None
    } else {
        let c = s[i];
        if c == '"' {
            Some((Seq::empty(), i + 1))
        } else if c == '\\' {
            if i + 1 >= s.len() {
                None
            } else {
                let e = s[i + 1];
                if e == 'u' {
                    match hex4(s, i + 2) {
                        None => None,
                        Some(h) => {
                            if 0xD800 <= h < 0xDC00 {
                                if s.len() - i > 7 && s[i + 6] == '\\' && s[i + 7] == 'u' {
                                    match hex4(s, i + 8) {
                                        None => None,
                                        Some(l) => if 0xDC00 <= l < 0xE000 {
                                            match parse_string_body(s, i + 12) {
                                                None => None,
                                                Some((t, j)) => Some(
                                                    (
                                                        seq![
                                                            (0x10000 + (h - 0xD800) * 0x400 + (l
                                                                - 0xDC00)) as char,
                                                        ] + t,
                                                        j,
                                                    ),
                                                ),
                                            }
                                        } else {
                                            None
                                        },
                                    }
                                } else {
                                    None
                                }
                            } else if 0xDC00 <= h < 0xE000 {
                                None
                            } else {
                                match parse_string_body(s, i + 6) {
                                    None => None,
                                    Some((t, j)) => Some((seq![h as char] + t, j)),
                                }
                            }
                        },
                    }
                } else {
                    match simple_escape(e) {
                        None => None,
                        Some(d) => match parse_string_body(s, i + 2) {
                            None => None,
                            Some((t, j)) => Some((seq![d] + t, j)),
                        },
                    }
                }
            }
        } else if (c as u32) < 32 {
            None
        } else {
            match parse_string_body(s, i + 1) {
                None => None,
                Some((t, j)) => Some((seq![c] + t, j)),
            }
        }
    }
}

/// `j` clamped into `[lo, hi]`; the parser applies it where an index is
/// already known to lie in that range, so the measure of a recursive call is
/// plainly smaller.
pub open spec fn clamp_idx(lo: int, hi: int, j: int) -> int {
    if j < lo {
        lo
    } else if j > hi {
        hi
    } else {
        j
    }
}

/// A JSON value starting exactly at `i`: one of the two keyword literals,
/// `null`, a number, a string, an array or an object.
pub open spec fn parse_value(s: Seq<char>, i: int) -> Option<(JsonV, int)>
    decreases s.len() - i, 0int,
{
    if !(0 <= i < s.len()) {
        None
    } else {
        let c = s[i];
        if c == 'n' {
            if i + 4 <= s.len() && s[i + 1] == 'u' && s[i + 2] == 'l' && s[i + 3] == 'l' {
                Some((JsonV::Null, i + 4))
            } else {
                None
            }
        } else if c == 't' {
            if i + 4 <= s.len() && s[i + 1] == 'r' && s[i + 2] == 'u' && s[i + 3] == 'e' {
                Some((JsonV::Bool(true), i + 4))
            } else {
                None
            }
        } else if c == 'f' {
            if i + 5 <= s.len() && s[i + 1] == 'a' && s[i + 2] == 'l' && s[i + 3] == 's' && s[i + 4]
                == 'e' {
                Some((JsonV::Bool(false), i + 5))
            } else {
                None
            }
        } else if c == '"' {
            match parse_string_body(s, i + 1) {
                None => None,
                Some((t, j)) => Some((JsonV::Str(t), j)),
            }
        } else if c == '-' || is_digit(c) {
            parse_number(s, i)
        } else if c == '[' {
            let j = clamp_idx(i + 1, s.len() as int, skip_ws(s, i + 1));
            if j < s.len() && s[j] == ']' {
                Some((JsonV::Arr(Seq::empty()), j + 1))
            } else {
                match parse_elems(s, j) {
                    None => None,
                    Some((vs, j2)) => Some((JsonV::Arr(vs), j2)),
                }
            }
        } else if c == '{' {
            let j = clamp_idx(i + 1, s.len() as int, skip_ws(s, i + 1));
            if j < s.len() && s[j] == '}' {
                Some((JsonV::Obj(Seq::empty()), j + 1))
            } else {
                match parse_members(s, j) {
                    None => None,
                    Some((ms, j2)) => Some((JsonV::Obj(ms), j2)),
                }
            }
        } else {
            None
        }
    }
}

/// One or more comma-separated elements from `i` and the closing `]`.
pub open spec fn parse_elems(s: Seq<char>, i: int) -> Option<(Seq<JsonV>, int)>
    decreases s.len() - i, 1int,
{
    if !(0 <= i < s.len()) {
        None
    } else {
        let j = clamp_idx(i, s.len() as int, skip_ws(s, i));
        match parse_value(s, j) {
            None => None,
            Some((v, j2)) => {
                let j3 = skip_ws(s, j2);
                if 0 <= j3 < s.len() && s[j3] == ',' {
                    match parse_elems(s, clamp_idx(i + 1, s.len() as int, j3 + 1)) {
                        None => None,
                        Some((rest, j4)) => Some((seq![v] + rest, j4)),
                    }
                } else if 0 <= j3 < s.len() && s[j3] == ']' {
                    Some((seq![v], j3 + 1))
                } else {
                    None
                }
            },
        }
    }
}

/// One or more comma-separated `"key": value` members from `i` and the
/// closing `}`.
pub open spec fn parse_members(s: Seq<char>, i: int) -> Option<(Seq<(Seq<char>, JsonV)>, int)>
    decreases s.len() - i, 1int,
{
    if !(0 <= i < s.len()) {
        None
    } else {
        let j = clamp_idx(i, s.len() as int, skip_ws(s, i));
        if !(j < s.len() && s[j] == '"') {
            None
        } else {
            match parse_string_body(s, j + 1) {
                None => None,
                Some((k, j2)) => {
                    let j3 = skip_ws(s, j2);
                    if !(0 <= j3 < s.len() && s[j3] == ':') {
                        None
                    } else {
                        let j4 = clamp_idx(i + 1, s.len() as int, skip_ws(s, j3 + 1));
                        match parse_value(s, j4) {
                            None => None,
                            Some((v, j5)) => {
                                let j6 = skip_ws(s, j5);
                                if 0 <= j6 < s.len() && s[j6] == ',' {
                                    match parse_members(
                                        s,
                                        clamp_idx(i + 1, s.len() as int, j6 + 1),
                                    ) {
                                        None => None,
                                        Some((rest, j7)) => Some((seq![(k, v)] + rest, j7)),
                                    }
                                } else if 0 <= j6 < s.len() && s[j6] == '}' {
                                    Some((seq![(k, v)], j6 + 1))
                                } else {
                                    None
                                }
                            },
                        }
                    }
                },
            }
        }
    }
}

/// A whole JSON document: one value, possibly surrounded by whitespace, and
/// nothing else.
pub open spec fn parse_json(s: Seq<char>) -> Option<JsonV> {
    let i = skip_ws(s, 0);
    match parse_value(s, i) {
        None => None,
        Some((v, j)) => if skip_ws(s, j) == s.len() {
            Some(v)
        } else {
            None
        },
    }
}

/// Relates the element views from position `k` to direct indexing.
pub(crate) proof fn lemma_view_arr_index(vs: Seq<JsonValue>, k: int)
    requires
        0 <= k <= vs.len(),
    ensures
        view_arr(vs, k).len() == vs.len() - k,
        forall|j: int| k <= j < vs.len() ==> view_arr(vs, k)[j - k] == vs[j]@,
    decreases vs.len() - k,
{
    if k < vs.len() {
        lemma_view_arr_index(vs, k + 1);
        assert forall|j: int| k <= j < vs.len() implies view_arr(vs, k)[j - k] == vs[j]@ by {
            assert(view_arr(vs, k) == seq![vs[k]@] + view_arr(vs, k + 1));
            if j == k {
                assert((seq![vs[k]@] + view_arr(vs, k + 1))[0] == vs[k]@);
            } else {
                assert((seq![vs[k]@] + view_arr(vs, k + 1))[j - k] == view_arr(vs, k + 1)[j - k
                    - 1]);
                assert(view_arr(vs, k + 1)[j - (k + 1)] == vs[j]@);
            }
        }
    }
}

/// Appending an element appends its view.
pub(crate) proof fn lemma_view_arr_push(vs: Seq<JsonValue>, x: JsonValue)
    ensures
        view_arr(vs.push(x), 0) == view_arr(vs, 0).push(x@),
{
    lemma_view_arr_index(vs.push(x), 0);
    lemma_view_arr_index(vs, 0);
    assert forall|j: int| 0 <= j < vs.len() + 1 implies view_arr(vs.push(x), 0)[j] == view_arr(
        vs,
        0,
    ).push(x@)[j] by {
        if j < vs.len() {
            assert(vs.push(x)[j] == vs[j]);
        } else {
            assert(vs.push(x)[j] == x);
        }
    }
    assert(view_arr(vs.push(x), 0) =~= view_arr(vs, 0).push(x@));
}

/// Relates the member views from position `k` to direct indexing.
pub(crate) proof fn lemma_view_obj_index(ms: Seq<(String, JsonValue)>, k: int)
    requires
        0 <= k <= ms.len(),
    ensures
        view_obj(ms, k).len() == ms.len() - k,
        forall|j: int| k <= j < ms.len() ==> view_obj(ms, k)[j - k] == (ms[j].0@, ms[j].1@),
    decreases ms.len() - k,
{
    if k < ms.len() {
        lemma_view_obj_index(ms, k + 1);
        assert forall|j: int| k <= j < ms.len() implies view_obj(ms, k)[j - k] == (
        ms[j].0@,
        ms[j].1@,
        ) by {
            assert(view_obj(ms, k) == seq![(ms[k].0@, ms[k].1@)] + view_obj(ms, k + 1));
            if j == k {
                assert((seq![(ms[k].0@, ms[k].1@)] + view_obj(ms, k + 1))[0] == (
                ms[k].0@,
                ms[k].1@,
                ));
            } else {
                assert((seq![(ms[k].0@, ms[k].1@)] + view_obj(ms, k + 1))[j - k] == view_obj(
                ms,
                k + 1,
                )[j - k - 1]);
                assert(view_obj(ms, k + 1)[j - (k + 1)] == (ms[j].0@, ms[j].1@));
            }
        }
    }
}

/// Appending a member appends its view.
pub(crate) proof fn lemma_view_obj_push(ms: Seq<(String, JsonValue)>, k: String, x: JsonValue)
    ensures
        view_obj(ms.push((k, x)), 0) == view_obj(ms, 0).push((k@, x@)),
{
    lemma_view_obj_index(ms.push((k, x)), 0);
    lemma_view_obj_index(ms, 0);
    assert forall|j: int| 0 <= j < ms.len() + 1 implies view_obj(ms.push((k, x)), 0)[j]
        == view_obj(ms, 0).push((k@, x@))[j] by {
        if j < ms.len() {
            assert(ms.push((k, x))[j] == ms[j]);
        } else {
            assert(ms.push((k, x))[j] == (k, x));
        }
    }
    assert(view_obj(ms.push((k, x)), 0) =~= view_obj(ms, 0).push((k@, x@)));
}

/// Builds the `String` holding exactly the given characters.
/// Relies on `String`'s `FromIterator<char>`: collecting characters yields
/// the string of those characters in order.
#[verifier::external_body]
fn chars_to_string(v: Vec<char>) -> (r: String)
    ensures
        r@ == v@,
{
    v.into_iter().collect()
}

/// The character for hexadecimal digit `v`.
fn hex_digit_ch(v: u8) -> (r: char)
    requires
        v < 16,
    ensures
        r == hex_digit(v as int),
{
    let d: u8 = if v < 10 {
        48 + v
    } else {
        87 + v
    };
    d as char
}

/// Appends the characters of `s` to `out` unchanged.
fn push_str_chars(s: &str, out: &mut Vec<char>)
    ensures
        final(out)@ == old(out)@ + s@,
{
    let ghost pre = out@;
    let l = s.unicode_len();
    let mut i: usize = 0;
    while i < l
        invariant
            i <= l,
            l == s@.len(),
            out@ == pre + s@.subrange(0, i as int),
        decreases l - i,
    {
        let c = s.get_char(i);
        out.push(c);
        proof {
            assert(pre + s@.subrange(0, i as int) + seq![s@[i as int]] =~= pre + s@.subrange(
                0,
                i as int + 1,
            ));
        }
        i = i + 1;
    }
    proof {
        assert(s@.subrange(0, l as int) =~= s@);
    }
}

/// Appends the quoted, escaped form of `s` to `out`.
fn print_string_chars(s: &str, out: &mut Vec<char>)
    ensures
        final(out)@ == old(out)@ + print_string(s@),
{
    let ghost pre = out@;
    out.push('"');
    let l = s.unicode_len();
    let mut i: usize = 0;
    while i < l
        invariant
            i <= l,
            l == s@.len(),
            out@ + escape_from(s@, i as int) == pre + seq!['"'] + escape_from(s@, 0),
        decreases l - i,
    {
        let c = s.get_char(i);
        let ghost before = out@;
        if c == '"' {
            out.push('\\');
            out.push('"');
        } else if c == '\\' {
            out.push('\\');
            out.push('\\');
        } else if (c as u32) < 32 {
            out.push('\\');
            out.push('u');
            out.push('0');
            out.push('0');
            let u: u32 = c as u32;
            let hi: u8 = (u / 16) as u8;
            let lo: u8 = (u % 16) as u8;
            proof {
                assert(u < 32 ==> ((u / 16) as u8) as int == u as int / 16 && ((u % 16) as u8)
                    as int == u as int % 16) by (bit_vector);
            }
            let h1 = hex_digit_ch(hi);
            let h2 = hex_digit_ch(lo);
            out.push(h1);
            out.push(h2);
        } else {
            out.push(c);
        }
        proof {
            assert(out@ =~= before + escape_char(s@[i as int]));
            assert(escape_from(s@, i as int) == escape_char(s@[i as int]) + escape_from(
                s@,
                i as int + 1,
            ));
            assert(out@ + escape_from(s@, i as int + 1) =~= before + escape_from(s@, i as int));
        }
        i = i + 1;
    }
    out.push('"');
    proof {
        assert(out@ =~= pre + print_string(s@));
    }
}

/// Appends the text of `v` to `out`.
fn print_value(v: &JsonValue, out: &mut Vec<char>)
    ensures
        final(out)@ == old(out)@ + print_json(v@),
    decreases v, 1int,
{
    match v {
        JsonValue::Null => {
            out.push('n');
            out.push('u');
            out.push('l');
            out.push('l');
            proof {
                assert(out@ =~= old(out)@ + print_json(v@));
            }
        },
        JsonValue::Bool(b) => {
            if *b {
                out.push('t');
                out.push('r');
                out.push('u');
                out.push('e');
            } else {
                out.push('f');
                out.push('a');
                out.push('l');
                out.push('s');
                out.push('e');
            }
            proof {
                assert(out@ =~= old(out)@ + print_json(v@));
            }
        },
        JsonValue::Num(s) => {
            push_str_chars(s.as_str(), out);
        },
        JsonValue::Str(s) => {
            print_string_chars(s.as_str(), out);
        },
        JsonValue::Arr(vs) => {
            out.push('[');
            print_elems_at(vs, 0, out);
            out.push(']');
            proof {
                assert(out@ =~= old(out)@ + print_json(v@));
            }
        },
        JsonValue::Obj(ms) => {
            out.push('{');
            print_members_at(ms, 0, out);
            out.push('}');
            proof {
                assert(out@ =~= old(out)@ + print_json(v@));
            }
        },
    }
}

/// Appends the comma-separated text of elements `k..` of `vs` to `out`.
fn print_elems_at(vs: &Vec<JsonValue>, k: usize, out: &mut Vec<char>)
    requires
        k <= vs@.len(),
    ensures
        final(out)@ == old(out)@ + print_elems(view_arr(vs@, 0), k as int),
    decreases vs, vs@.len() - k,
{
    proof {
        lemma_view_arr_index(vs@, 0);
    }
    if k < vs.len() {
        print_value(&vs[k], out);
        if k + 1 < vs.len() {
            out.push(',');
            print_elems_at(vs, k + 1, out);
            proof {
                assert(out@ =~= old(out)@ + print_elems(view_arr(vs@, 0), k as int));
            }
        } else {
            proof {
                assert(out@ =~= old(out)@ + print_elems(view_arr(vs@, 0), k as int));
            }
        }
    }
}

/// Appends the comma-separated text of members `k..` of `ms` to `out`.
fn print_members_at(ms: &Vec<(String, JsonValue)>, k: usize, out: &mut Vec<char>)
    requires
        k <= ms@.len(),
    ensures
        final(out)@ == old(out)@ + print_members(view_obj(ms@, 0), k as int),
    decreases ms, ms@.len() - k,
{
    proof {
        lemma_view_obj_index(ms@, 0);
    }
    if k < ms.len() {
        print_string_chars(ms[k].0.as_str(), out);
        out.push(':');
        print_value(&ms[k].1, out);
        if k + 1 < ms.len() {
            out.push(',');
            print_members_at(ms, k + 1, out);
            proof {
                assert(out@ =~= old(out)@ + print_members(view_obj(ms@, 0), k as int));
            }
        } else {
            proof {
                assert(out@ =~= old(out)@ + print_members(view_obj(ms@, 0), k as int));
            }
        }
    }
}

/// Writes the text form of a JSON document: exactly `print_json` of it.
pub fn encode_json(v: &JsonValue) -> (r: String)
    ensures
        r@ == print_json(v@),
{
    let mut out: Vec<char> = Vec::new();
    print_value(v, &mut out);
    chars_to_string(out)
}

/// The characters of `s`, in order.
fn str_chars(s: &str) -> (r: Vec<char>)
    ensures
        r@ == s@,
{
    let l = s.unicode_len();
    let mut r: Vec<char> = Vec::new();
    let mut i: usize = 0;
    while i < l
        invariant
            i <= l,
            l == s@.len(),
            r@ == s@.subrange(0, i as int),
        decreases l - i,
    {
        let c = s.get_char(i);
        r.push(c);
        proof {
            assert(r@ =~= s@.subrange(0, i as int + 1));
        }
        i = i + 1;
    }
    proof {
        assert(r@ =~= s@);
    }
    r
}

/// The characters of `s` in positions `from..to`, in order.
fn copy_range(s: &Vec<char>, from: usize, to: usize) -> (r: Vec<char>)
    requires
        from <= to <= s@.len(),
    ensures
        r@ == s@.subrange(from as int, to as int),
{
    let mut r: Vec<char> = Vec::new();
    let mut i: usize = from;
    while i < to
        invariant
            from <= i <= to <= s@.len(),
            r@ == s@.subrange(from as int, i as int),
        decreases to - i,
    {
        let c = s[i];
        r.push(c);
        proof {
            assert(r@ =~= s@.subrange(from as int, i as int + 1));
        }
        i = i + 1;
    }
    r
}

/// The one character of this Unicode scalar value.
/// Relies on `char::from_u32`: it returns `Some` exactly for values that are
/// no surrogate and at most `0x10FFFF`, and the character has that value.
#[verifier::external_body]
fn char_from_u32(u: u32) -> (r: Option<char>)
    ensures
        r matches Some(c) ==> c as u32 == u,
        r is Some <==> (u < 0xD800 || (0xE000 <= u && u <= 0x10FFFF)),
{
    char::from_u32(u)
}

fn is_ws_ch(c: char) -> (r: bool)
    ensures
        r == is_ws(c),
{
    c == ' ' || c == '\t' || c == '\n' || c == '\r'
}

fn is_digit_ch(c: char) -> (r: bool)
    ensures
        r == is_digit(c),
{
    let u = c as u32;
    48 <= u && u <= 57
}

fn is_hex_ch(c: char) -> (r: bool)
    ensures
        r == is_hex(c),
{
    let u = c as u32;
    (48 <= u && u <= 57) || (97 <= u && u <= 102) || (65 <= u && u <= 70)
}

fn hex_val_ch(c: char) -> (r: u32)
    requires
        is_hex(c),
    ensures
        r as int == hex_val(c),
        r < 16,
{
    let u = c as u32;
    if 48 <= u && u <= 57 {
        u - 48
    } else if 97 <= u && u <= 102 {
        u - 87
    } else {
        u - 55
    }
}

fn skip_ws_at(s: &Vec<char>, i: usize) -> (r: usize)
    requires
        i <= s@.len(),
    ensures
        r as int == skip_ws(s@, i as int),
        i <= r <= s@.len(),
    decreases s@.len() - i,
{
    if i < s.len() && is_ws_ch(s[i]) {
        skip_ws_at(s, i + 1)
    } else {
        i
    }
}

fn scan_digits_at(s: &Vec<char>, i: usize) -> (r: usize)
    requires
        i <= s@.len(),
    ensures
        r as int == scan_digits(s@, i as int),
        i <= r <= s@.len(),
    decreases s@.len() - i,
{
    if i < s.len() && is_digit_ch(s[i]) {
        scan_digits_at(s, i + 1)
    } else {
        i
    }
}

fn hex4_at(s: &Vec<char>, i: usize) -> (r: Option<u32>)
    requires
        i <= s@.len(),
    ensures
        match r {
            Some(h) => hex4(s@, i as int) == Some(h as int) && h < 0x10000,
            None => hex4(s@, i as int) is None,
        },
{
    if s.len() - i >= 4 && is_hex_ch(s[i]) && is_hex_ch(s[i + 1]) && is_hex_ch(s[i + 2])
        && is_hex_ch(s[i + 3]) {
        let h = 4096 * hex_val_ch(s[i]) + 256 * hex_val_ch(s[i + 1]) + 16 * hex_val_ch(s[i + 2])
            + hex_val_ch(s[i + 3]);
        Some(h)
    } else {
        None
    }
}

fn p_number(s: &Vec<char>, i: usize) -> (r: Option<(JsonValue, usize)>)
    requires
        i < s@.len(),
    ensures
        match r {
            Some((v, j)) => parse_number(s@, i as int) == Some((v@, j as int)) && i < j <= s@.len(),
            None => parse_number(s@, i as int) is None,
        },
{
    let n = s.len();
    let p: usize = if s[i] == '-' {
        i + 1
    } else {
        i
    };
    if !(p < n && is_digit_ch(s[p])) {
        return None;
    }
    let ie: usize = if s[p] == '0' {
        p + 1
    } else {
        let r = scan_digits_at(s, p);
        proof {
            lemma_scan_digits_bounds(s@, p as int + 1);
            assert(scan_digits(s@, p as int) == scan_digits(s@, p as int + 1));
        }
        r
    };
    let fe: usize = if ie < n && s[ie] == '.' {
        if n - ie > 1 && is_digit_ch(s[ie + 1]) {
            scan_digits_at(s, ie + 1)
        } else {
            return None;
        }
    } else {
        ie
    };
    let ee: usize = if fe < n && (s[fe] == 'e' || s[fe] == 'E') {
        let q: usize = if n - fe > 1 && (s[fe + 1] == '+' || s[fe + 1] == '-') {
            fe + 2
        } else {
            fe + 1
        };
        if q < n && is_digit_ch(s[q]) {
            scan_digits_at(s, q)
        } else {
            return None;
        }
    } else {
        fe
    };
    let lit = copy_range(s, i, ee);
    let v = JsonValue::Num(chars_to_string(lit));
    Some((v, ee))
}

fn p_string_body(s: &Vec<char>, i: usize) -> (r: Option<(Vec<char>, usize)>)
    requires
        i <= s@.len(),
    ensures
        match r {
            Some((t, j)) => parse_string_body(s@, i as int) == Some((t@, j as int)) && i < j
                <= s@.len(),
            None => parse_string_body(s@, i as int) is None,
        },
    decreases s@.len() - i,
{
    if i >= s.len() {
        return None;
    }
    let c = s[i];
    if c == '"' {
        let t: Vec<char> = Vec::new();
        proof {
            assert(t@ =~= Seq::<char>::empty());
        }
        Some((t, i + 1))
    } else if c == '\\' {
        if i + 1 >= s.len() {
            return None;
        }
        let e = s[i + 1];
        if e == 'u' {
            match hex4_at(s, i + 2) {
                None => None,
                Some(h) => {
                    if 0xD800 <= h && h < 0xDC00 {
                        if s.len() - i > 7 && s[i + 6] == '\\' && s[i + 7] == 'u' {
                            match hex4_at(s, i + 8) {
                                None => None,
                                Some(l) => {
                                    if 0xDC00 <= l && l < 0xE000 {
                                        let u: u32 = 0x10000 + (h - 0xD800) * 0x400 + (l - 0xDC00);
                                        let c2 = char_from_u32(u).unwrap();
                                        proof {
                                            vstd::utf8::char_u32_cast(c2, u);
                                        }
                                        match p_string_body(s, i + 12) {
                                            None => None,
                                            Some((t, j)) => {
                                                let ghost tv = t@;
                                                let mut t2 = t;
                                                t2.insert(0, c2);
                                                proof {
                                                    assert(t2@ =~= seq![c2] + tv);
                                                }
                                                Some((t2, j))
                                            },
                                        }
                                    } else {
                                        None
                                    }
                                },
                            }
                        } else {
                            None
                        }
                    } else if 0xDC00 <= h && h < 0xE000 {
                        None
                    } else {
                        let c2 = char_from_u32(h).unwrap();
                        proof {
                            vstd::utf8::char_u32_cast(c2, h);
                        }
                        match p_string_body(s, i + 6) {
                            None => None,
                            Some((t, j)) => {
                                let ghost tv = t@;
                                let mut t2 = t;
                                t2.insert(0, c2);
                                proof {
                                    assert(t2@ =~= seq![c2] + tv);
                                }
                                Some((t2, j))
                            },
                        }
                    }
                },
            }
        } else {
            let d: char;
            if e == '"' {
                d = '"';
            } else if e == '\\' {
                d = '\\';
            } else if e == '/' {
                d = '/';
            } else if e == 'b' {
                d = '\u{08}';
            } else if e == 'f' {
                d = '\u{0C}';
            } else if e == 'n' {
                d = '\n';
            } else if e == 'r' {
                d = '\r';
            } else if e == 't' {
                d = '\t';
            } else {
                return None;
            }
            match p_string_body(s, i + 2) {
                None => None,
                Some((t, j)) => {
                    let ghost tv = t@;
                    let mut t2 = t;
                    t2.insert(0, d);
                    proof {
                        assert(t2@ =~= seq![d] + tv);
                    }
                    Some((t2, j))
                },
            }
        }
    } else if (c as u32) < 32 {
        None
    } else {
        match p_string_body(s, i + 1) {
            None => None,
            Some((t, j)) => {
                let ghost tv = t@;
                let mut t2 = t;
                t2.insert(0, c);
                proof {
                    assert(t2@ =~= seq![c] + tv);
                }
                Some((t2, j))
            },
        }
    }
}

fn p_value(s: &Vec<char>, i: usize) -> (r: Option<(JsonValue, usize)>)
    requires
        i <= s@.len(),
    ensures
        match r {
            Some((v, j)) => parse_value(s@, i as int) == Some((v@, j as int)) && i < j <= s@.len(),
            None => parse_value(s@, i as int) is None,
        },
    decreases s@.len() - i, 0int,
{
    if i >= s.len() {
        return None;
    }
    let c = s[i];
    if c == 'n' {
        if s.len() - i >= 4 && s[i + 1] == 'u' && s[i + 2] == 'l' && s[i + 3] == 'l' {
            Some((JsonValue::Null, i + 4))
        } else {
            None
        }
    } else if c == 't' {
        if s.len() - i >= 4 && s[i + 1] == 'r' && s[i + 2] == 'u' && s[i + 3] == 'e' {
            Some((JsonValue::Bool(true), i + 4))
        } else {
            None
        }
    } else if c == 'f' {
        if s.len() - i >= 5 && s[i + 1] == 'a' && s[i + 2] == 'l' && s[i + 3] == 's' && s[i + 4]
            == 'e' {
            Some((JsonValue::Bool(false), i + 5))
        } else {
            None
        }
    } else if c == '"' {
        match p_string_body(s, i + 1) {
            None => None,
            Some((t, j)) => Some((JsonValue::Str(chars_to_string(t)), j)),
        }
    } else if c == '-' || is_digit_ch(c) {
        p_number(s, i)
    } else if c == '[' {
        let j = skip_ws_at(s, i + 1);
        proof {
            assert(j as int == clamp_idx(i as int + 1, s@.len() as int, skip_ws(s@, i as int + 1)));
        }
        if j < s.len() && s[j] == ']' {
            let vs: Vec<JsonValue> = Vec::new();
            let v = JsonValue::Arr(vs);
            proof {
                assert(v@ =~= JsonV::Arr(Seq::<JsonV>::empty()));
            }
            Some((v, j + 1))
        } else {
            match p_elems(s, j) {
                None => None,
                Some((vs, j2)) => Some((JsonValue::Arr(vs), j2)),
            }
        }
    } else if c == '{' {
        let j = skip_ws_at(s, i + 1);
        proof {
            assert(j as int == clamp_idx(i as int + 1, s@.len() as int, skip_ws(s@, i as int + 1)));
        }
        if j < s.len() && s[j] == '}' {
            let ms: Vec<(String, JsonValue)> = Vec::new();
            let v = JsonValue::Obj(ms);
            proof {
                assert(v@ =~= JsonV::Obj(Seq::<(Seq<char>, JsonV)>::empty()));
            }
            Some((v, j + 1))
        } else {
            match p_members(s, j) {
                None => None,
                Some((ms, j2)) => Some((JsonValue::Obj(ms), j2)),
            }
        }
    } else {
        None
    }
}

fn p_elems(s: &Vec<char>, i: usize) -> (r: Option<(Vec<JsonValue>, usize)>)
    requires
        i <= s@.len(),
    ensures
        match r {
            Some((vs, j)) => parse_elems(s@, i as int) == Some((view_arr(vs@, 0), j as int)) && i
                < j <= s@.len(),
            None => parse_elems(s@, i as int) is None,
        },
    decreases s@.len() - i, 1int,
{
    if i >= s.len() {
        return None;
    }
    let j = skip_ws_at(s, i);
    proof {
        assert(j as int == clamp_idx(i as int, s@.len() as int, skip_ws(s@, i as int)));
    }
    match p_value(s, j) {
        None => None,
        Some((v, j2)) => {
            let j3 = skip_ws_at(s, j2);
            if j3 < s.len() && s[j3] == ',' {
                proof {
                    assert(j3 as int + 1 == clamp_idx(i as int + 1, s@.len() as int, j3 as int + 1));
                }
                match p_elems(s, j3 + 1) {
                    None => None,
                    Some((rest, j4)) => {
                        let ghost restv = view_arr(rest@, 0);
                        let ghost restseq = rest@;
                        proof {
                            lemma_view_arr_index(rest@, 0);
                        }
                        let mut out = rest;
                        out.insert(0, v);
                        proof {
                            lemma_view_arr_index(out@, 0);
                            assert forall|q: int| 0 <= q < out@.len() implies view_arr(out@, 0)[q]
                                == (seq![v@] + restv)[q] by {
                                if q > 0 {
                                    assert(out@[q] == restseq[q - 1]);
                                }
                            }
                            assert(view_arr(out@, 0) =~= seq![v@] + restv);
                        }
                        Some((out, j4))
                    },
                }
            } else if j3 < s.len() && s[j3] == ']' {
                let mut out: Vec<JsonValue> = Vec::new();
                out.push(v);
                proof {
                    lemma_view_arr_index(out@, 0);
                    assert(view_arr(out@, 0) =~= seq![v@]);
                }
                Some((out, j3 + 1))
            } else {
                None
            }
        },
    }
}

fn p_members(s: &Vec<char>, i: usize) -> (r: Option<(Vec<(String, JsonValue)>, usize)>)
    requires
        i <= s@.len(),
    ensures
        match r {
            Some((ms, j)) => parse_members(s@, i as int) == Some((view_obj(ms@, 0), j as int)) && i
                < j <= s@.len(),
            None => parse_members(s@, i as int) is None,
        },
    decreases s@.len() - i, 1int,
{
    if i >= s.len() {
        return None;
    }
    let j = skip_ws_at(s, i);
    proof {
        assert(j as int == clamp_idx(i as int, s@.len() as int, skip_ws(s@, i as int)));
    }
    if !(j < s.len() && s[j] == '"') {
        return None;
    }
    match p_string_body(s, j + 1) {
        None => None,
        Some((k, j2)) => {
            let j3 = skip_ws_at(s, j2);
            if !(j3 < s.len() && s[j3] == ':') {
                return None;
            }
            let j4 = skip_ws_at(s, j3 + 1);
            proof {
                assert(j4 as int == clamp_idx(
                    i as int + 1,
                    s@.len() as int,
                    skip_ws(s@, j3 as int + 1),
                ));
            }
            match p_value(s, j4) {
                None => None,
                Some((v, j5)) => {
                    let j6 = skip_ws_at(s, j5);
                    let key = chars_to_string(k);
                    if j6 < s.len() && s[j6] == ',' {
                        proof {
                            assert(j6 as int + 1 == clamp_idx(
                                i as int + 1,
                                s@.len() as int,
                                j6 as int + 1,
                            ));
                        }
                        match p_members(s, j6 + 1) {
                            None => None,
                            Some((rest, j7)) => {
                                let ghost restv = view_obj(rest@, 0);
                                let ghost restseq = rest@;
                                proof {
                                    lemma_view_obj_index(rest@, 0);
                                }
                                let mut out = rest;
                                out.insert(0, (key, v));
                                proof {
                                    lemma_view_obj_index(out@, 0);
                                    assert forall|q: int| 0 <= q < out@.len() implies view_obj(
                                        out@,
                                        0,
                                    )[q] == (seq![(key@, v@)] + restv)[q] by {
                                        if q > 0 {
                                            assert(out@[q] == restseq[q - 1]);
                                        }
                                    }
                                    assert(view_obj(out@, 0) =~= seq![(key@, v@)] + restv);
                                }
                                Some((out, j7))
                            },
                        }
                    } else if j6 < s.len() && s[j6] == '}' {
                        let mut out: Vec<(String, JsonValue)> = Vec::new();
                        out.push((key, v));
                        proof {
                            lemma_view_obj_index(out@, 0);
                            assert(view_obj(out@, 0) =~= seq![(key@, v@)]);
                        }
                        Some((out, j6 + 1))
                    } else {
                        None
                    }
                },
            }
        },
    }
}

/// Reads the text form of a JSON document: exactly the value `parse_json`
/// gives, or nothing where the text is not a JSON document.
pub fn decode_json(s: &str) -> (r: Option<JsonValue>)
    ensures
        match r {
            Some(v) => parse_json(s@) == Some(v@),
            None => parse_json(s@) is None,
        },
{
    let cs = str_chars(s);
    let i = skip_ws_at(&cs, 0);
    match p_value(&cs, i) {
        None => None,
        Some((v, j)) => {
            let j2 = skip_ws_at(&cs, j);
            if j2 == cs.len() {
                Some(v)
            } else {
                None
            }
        },
    }
}



/// A copy of a JSON document equal to it member for member.
#[verifier::loop_isolation(false)]
pub fn clone_json(v: &JsonValue) -> (r: JsonValue)
    ensures
        r@ == v@,
    decreases v,
{
    match v {
        JsonValue::Null => JsonValue::Null,
        JsonValue::Bool(b) => JsonValue::Bool(*b),
        JsonValue::Num(s) => JsonValue::Num(s.clone()),
        JsonValue::Str(s) => JsonValue::Str(s.clone()),
        JsonValue::Arr(vs) => {
            let mut out: Vec<JsonValue> = Vec::new();
            let mut i: usize = 0;
            proof {
                lemma_view_arr_index(vs@, 0);
            }
            while i < vs.len()
                invariant
                    i <= vs@.len(),
                    view_arr(out@, 0).len() == i as int,
                    view_arr(vs@, 0).len() == vs@.len(),
                    forall|q: int|
                        0 <= q < i ==> view_arr(out@, 0)[q] == view_arr(vs@, 0)[q],
                decreases vs@.len() - i,
            {
                proof {
                    assert(decreases_to!(*vs => vs@));
                    assert(decreases_to!(vs@ => vs@[i as int]));
                }
                let c = clone_json(&vs[i]);
                let ghost pre = out@;
                out.push(c);
                proof {
                    lemma_view_arr_push(pre, c);
                    lemma_view_arr_index(vs@, 0);
                }
                i = i + 1;
            }
            let r = JsonValue::Arr(out);
            proof {
                assert(view_arr(out@, 0) =~= view_arr(vs@, 0));
            }
            r
        },
        JsonValue::Obj(ms) => {
            let mut out: Vec<(String, JsonValue)> = Vec::new();
            let mut i: usize = 0;
            proof {
                lemma_view_obj_index(ms@, 0);
            }
            while i < ms.len()
                invariant
                    i <= ms@.len(),
                    view_obj(out@, 0).len() == i as int,
                    view_obj(ms@, 0).len() == ms@.len(),
                    forall|q: int|
                        0 <= q < i ==> view_obj(out@, 0)[q] == view_obj(ms@, 0)[q],
                decreases ms@.len() - i,
            {
                let k = ms[i].0.clone();
                proof {
                    assert(decreases_to!(*ms => ms@));
                    assert(decreases_to!(ms@ => ms@[i as int]));
                }
                let c = clone_json(&ms[i].1);
                let ghost pre = out@;
                out.push((k, c));
                proof {
                    lemma_view_obj_push(pre, k, c);
                    lemma_view_obj_index(ms@, 0);
                }
                i = i + 1;
            }
            let r = JsonValue::Obj(out);
            proof {
                assert(view_obj(out@, 0) =~= view_obj(ms@, 0));
            }
            r
        },
    }
}

/// The value of the first member bound to `key` at or past position `i`.
fn get_key_from<'a>(ms: &'a Vec<(String, JsonValue)>, i: usize, key: &String) -> (r: Option<
    &'a JsonValue,
>)
    requires
        i <= ms@.len(),
    ensures
        match r {
            Some(v) => obj_get(view_obj(ms@, 0).skip(i as int), key@) == Some(v@),
            None => obj_get(view_obj(ms@, 0).skip(i as int), key@) is None,
        },
    decreases ms@.len() - i,
{
    proof {
        lemma_view_obj_index(ms@, 0);
    }
    if i >= ms.len() {
        proof {
            assert(view_obj(ms@, 0).skip(i as int) =~= Seq::<(Seq<char>, JsonV)>::empty());
        }
        None
    } else {
        proof {
            assert(view_obj(ms@, 0).skip(i as int)[0] == (ms@[i as int].0@, ms@[i as int].1@));
            assert(view_obj(ms@, 0).skip(i as int).drop_first() =~= view_obj(ms@, 0).skip(
                i as int + 1,
            ));
        }
        if ms[i].0 == *key {
            Some(&ms[i].1)
        } else {
            get_key_from(ms, i + 1, key)
        }
    }
}

/// The value of the first member bound to `key`, if the key is bound.
pub fn get_key<'a>(ms: &'a Vec<(String, JsonValue)>, key: &String) -> (r: Option<&'a JsonValue>)
    ensures
        match r {
            Some(v) => obj_get(view_obj(ms@, 0), key@) == Some(v@),
            None => obj_get(view_obj(ms@, 0), key@) is None,
        },
{
    let r = get_key_from(ms, 0, key);
    proof {
        assert(view_obj(ms@, 0).skip(0) =~= view_obj(ms@, 0));
    }
    r
}

} // verus!
