//! The JSON reader.
//!
//! `parse_json_text` is the mathematical reading of a character sequence as
//! one JSON document: whitespace between tokens, the full number grammar,
//! string escapes including surrogate pairs, and nothing after the value.
//! The executable reader `parse_json` returns exactly what it says.

use vstd::prelude::*;

use crate::json::{chars_to_string, is_ws, jv, jv_entries, jv_list, lemma_jv_entries_index, lemma_jv_list_index, str_to_chars, Json, JsonV};
use crate::numtext::is_digit;

verus! {

/// Position after the run of whitespace starting at `i`.
pub open spec fn skip_ws(s: Seq<char>, i: int) -> int
    decreases s.len() - i,
{
    if 0 <= i < s.len() && is_ws(s[i]) {
        skip_ws(s, i + 1)
    } else {
        i
    }
}

pub proof fn lemma_skip_ws_bounds(s: Seq<char>, i: int)
    requires
        0 <= i <= s.len(),
    ensures
        i <= skip_ws(s, i) <= s.len(),
    decreases s.len() - i,
{
    if i < s.len() && is_ws(s[i]) {
        lemma_skip_ws_bounds(s, i + 1);
    }
}

/// The value of a hexadecimal digit character, or `-1` for any other
/// character.
pub open spec fn hex_val(c: char) -> int {
    if is_digit(c) {
        (c as u32) as int - ('0' as u32) as int
    } else if 'a' <= c && c <= 'f' {
        (c as u32) as int - ('a' as u32) as int + 10
    } else if 'A' <= c && c <= 'F' {
        (c as u32) as int - ('A' as u32) as int + 10
    } else {
        -1
    }
}

/// Whether four hexadecimal digits stand at position `i`.
pub open spec fn is_hex4(s: Seq<char>, i: int) -> bool {
    &&& 0 <= i
    &&& i + 4 <= s.len()
    &&& hex_val(s[i]) >= 0
    &&& hex_val(s[i + 1]) >= 0
    &&& hex_val(s[i + 2]) >= 0
    &&& hex_val(s[i + 3]) >= 0
}

/// The value of the four hexadecimal digits at position `i`.
pub open spec fn hex4_val(s: Seq<char>, i: int) -> int {
    4096 * hex_val(s[i]) + 256 * hex_val(s[i + 1]) + 16 * hex_val(s[i + 2]) + hex_val(s[i + 3])
}

/// The character with the given scalar value.
pub open spec fn code_char(v: u32) -> char {
    choose|c: char| #[trigger] (c as u32) == v
}

/// The character a short escape stands for, if the letter is one of the
/// eight JSON short escapes.
pub open spec fn unescape_short(e: char) -> Option<char> {
    if e == '"' {
        Some('"')
    } else if e == '\\' {
        Some('\\')
    } else if e == '/' {
        Some('/')
    } else if e == 'b' {
        Some('\u{0008}')
    } else if e == 'f' {
        Some('\u{000C}')
    } else if e == 'n' {
        Some('\n')
    } else if e == 'r' {
        Some('\r')
    } else if e == 't' {
        Some('\t')
    } else {
        None
    }
}

/// Reads a string body starting after the opening quote: the characters it
/// stands for and the position after the closing quote.
pub open spec fn parse_string_body(s: Seq<char>, i: int) -> Option<(Seq<char>, int)>
    decreases s.len() - i,
{
    if !(0 <= i < s.len()) {
        None
    } else {
        let c = s[i];
        if c == '"' {
            Some((Seq::<char>::empty(), i + 1))
        } else if c == '\\' {
            if i + 1 >= s.len() {
                None
            } else {
                let e = s[i + 1];
                if e == 'u' {
                    if is_hex4(s, i + 2) {
                        let v = hex4_val(s, i + 2);
                        if 0xD800 <= v < 0xDC00 {
                            if i + 12 <= s.len() && s[i + 6] == '\\' && s[i + 7] == 'u' && is_hex4(
                                s,
                                i + 8,
                            ) {
                                let w = hex4_val(s, i + 8);
                                if 0xDC00 <= w < 0xE000 {
                                    let code = 0x10000 + (v - 0xD800) * 0x400 + (w - 0xDC00);
                                    match parse_string_body(s, i + 12) {
                                        Some((t, p)) => Some(
                                            (seq![code_char(code as u32)] + t, p),
                                        ),
                                        None => None,
                                    }
                                } else {
                                    None
                                }
                            } else {
                                None
                            }
                        } else if 0xDC00 <= v < 0xE000 {
                            None
                        } else {
                            match parse_string_body(s, i + 6) {
                                Some((t, p)) => Some((seq![code_char(v as u32)] + t, p)),
                                None => None,
                            }
                        }
                    } else {
                        None
                    }
                } else {
                    match unescape_short(e) {
                        Some(d) => match parse_string_body(s, i + 2) {
                            Some((t, p)) => Some((seq![d] + t, p)),
                            None => None,
                        },
                        None => None,
                    }
                }
            }
        } else if (c as u32) < 32 {
            None
        } else {
            match parse_string_body(s, i + 1) {
                Some((t, p)) => Some((seq![c] + t, p)),
                None => None,
            }
        }
    }
}

pub proof fn lemma_parse_string_body_bounds(s: Seq<char>, i: int)
    ensures
        parse_string_body(s, i) matches Some((t, p)) ==> i < p <= s.len(),
    decreases s.len() - i,
{
    if 0 <= i < s.len() {
        lemma_parse_string_body_bounds(s, i + 1);
        if i + 2 <= s.len() {
            lemma_parse_string_body_bounds(s, i + 2);
        }
        if i + 6 <= s.len() {
            lemma_parse_string_body_bounds(s, i + 6);
        }
        if i + 12 <= s.len() {
            lemma_parse_string_body_bounds(s, i + 12);
        }
    }
}

/// Position after the run of decimal digits starting at `i`.
pub open spec fn scan_digits(s: Seq<char>, i: int) -> int
    decreases s.len() - i,
{
    if 0 <= i < s.len() && is_digit(s[i]) {
        scan_digits(s, i + 1)
    } else {
        i
    }
}

pub proof fn lemma_scan_digits_bounds(s: Seq<char>, i: int)
    requires
        0 <= i <= s.len(),
    ensures
        i <= scan_digits(s, i) <= s.len(),
    decreases s.len() - i,
{
    if i < s.len() && is_digit(s[i]) {
        lemma_scan_digits_bounds(s, i + 1);
    }
}

/// Position after the fraction part, if any stands at `int_end`; `None` for
/// a bare decimal point with no digits.
pub open spec fn num_frac_end(s: Seq<char>, int_end: int) -> Option<int> {
    if 0 <= int_end < s.len() && s[int_end] == '.' {
        let d = scan_digits(s, int_end + 1);
        if d > int_end + 1 {
            Some(d)
        } else {
            None
        }
    } else {
        Some(int_end)
    }
}

/// Position after the exponent part, if any stands at `frac_end`; `None`
/// for an exponent mark with no digits.
pub open spec fn num_exp_end(s: Seq<char>, frac_end: int) -> Option<int> {
    if 0 <= frac_end < s.len() && (s[frac_end] == 'e' || s[frac_end] == 'E') {
        let j = if frac_end + 1 < s.len() && (s[frac_end + 1] == '+' || s[frac_end + 1] == '-') {
            frac_end + 2
        } else {
            frac_end + 1
        };
        let d = scan_digits(s, j);
        if d > j && d >= frac_end + 2 {
            Some(d)
        } else {
            None
        }
    } else {
        Some(frac_end)
    }
}

/// Reads a number starting at `i`: its exact text and the position after it.
pub open spec fn parse_number_at(s: Seq<char>, i: int) -> Option<(Seq<char>, int)> {
    if !(0 <= i <= s.len()) {
        None
    } else {
        let i1 = if i < s.len() && s[i] == '-' {
            i + 1
        } else {
            i
        };
        if i1 < s.len() && is_digit(s[i1]) {
            let int_end = if s[i1] == '0' {
                i1 + 1
            } else {
                scan_digits(s, i1)
            };
            match num_frac_end(s, int_end) {
                None => None,
                Some(frac_end) => match num_exp_end(s, frac_end) {
                    None => None,
                    Some(exp_end) => Some((s.subrange(i, exp_end), exp_end)),
                },
            }
        } else {
            None
        }
    }
}


/// Whether a character sequence is exactly one JSON number.
#[verifier::opaque]
pub open spec fn is_number_text(t: Seq<char>) -> bool {
    t.len() >= 1 && parse_number_at(t, 0) == Some((t, t.len() as int))
}

/// Well-formedness of a JSON value model: every number holds exact number
/// text. Every parsed document satisfies it, and the writer's output reads
/// back only for well-formed values.
pub open spec fn wf_jsonv(v: JsonV) -> bool
    decreases v, 0int,
{
    match v {
        JsonV::Null => true,
        JsonV::Bool(_) => true,
        JsonV::Num(t) => is_number_text(t),
        JsonV::Str(_) => true,
        JsonV::Arr(items) => wf_jv_list(items),
        JsonV::Obj(entries) => wf_jv_entries(entries),
    }
}

/// Well-formedness of every element of a list.
pub open spec fn wf_jv_list(items: Seq<JsonV>) -> bool
    decreases items, 1int,
{
    items.len() == 0 || (wf_jsonv(items[0]) && wf_jv_list(items.drop_first()))
}

/// Well-formedness of every entry value of an object.
pub open spec fn wf_jv_entries(entries: Seq<(Seq<char>, JsonV)>) -> bool
    decreases entries, 1int,
{
    entries.len() == 0 || (wf_jsonv(entries[0].1) && wf_jv_entries(entries.drop_first()))
}

/// A list is well-formed exactly when each element is.
pub proof fn lemma_wf_list_forall(items: Seq<JsonV>)
    ensures
        wf_jv_list(items) <==> (forall|k: int|
            0 <= k < items.len() ==> wf_jsonv(#[trigger] items[k])),
    decreases items.len(),
{
    if items.len() > 0 {
        lemma_wf_list_forall(items.drop_first());
        assert(forall|k: int|
            0 <= k < items.drop_first().len() ==> #[trigger] items.drop_first()[k] == items[k
                + 1]);
        if wf_jv_list(items) {
            assert forall|k: int| 0 <= k < items.len() implies wf_jsonv(#[trigger] items[k]) by {
                if k > 0 {
                    assert(items.drop_first()[k - 1] == items[k]);
                }
            }
        } else {
            if forall|k: int| 0 <= k < items.len() ==> wf_jsonv(#[trigger] items[k]) {
                assert forall|k: int|
                    0 <= k < items.drop_first().len() implies wf_jsonv(
                    #[trigger] items.drop_first()[k],
                ) by {
                    assert(items.drop_first()[k] == items[k + 1]);
                }
                assert(wf_jsonv(items[0]));
                assert(false);
            }
        }
    }
}

/// An object's entries are well-formed exactly when each value is.
pub proof fn lemma_wf_entries_forall(entries: Seq<(Seq<char>, JsonV)>)
    ensures
        wf_jv_entries(entries) <==> (forall|k: int|
            0 <= k < entries.len() ==> wf_jsonv((#[trigger] entries[k]).1)),
    decreases entries.len(),
{
    if entries.len() > 0 {
        lemma_wf_entries_forall(entries.drop_first());
        assert(forall|k: int|
            0 <= k < entries.drop_first().len() ==> #[trigger] entries.drop_first()[k] == entries[k
                + 1]);
        if wf_jv_entries(entries) {
            assert forall|k: int| 0 <= k < entries.len() implies wf_jsonv(
                (#[trigger] entries[k]).1,
            ) by {
                if k > 0 {
                    assert(entries.drop_first()[k - 1] == entries[k]);
                }
            }
        } else {
            if forall|k: int| 0 <= k < entries.len() ==> wf_jsonv((#[trigger] entries[k]).1) {
                assert forall|k: int|
                    0 <= k < entries.drop_first().len() implies wf_jsonv(
                    (#[trigger] entries.drop_first()[k]).1,
                ) by {
                    assert(entries.drop_first()[k] == entries[k + 1]);
                }
                assert(wf_jsonv(entries[0].1));
                assert(false);
            }
        }
    }
}

/// Reads one JSON value starting at `i`, whitespace already skipped: its
/// model and the position after it.
pub open spec fn parse_value_at(s: Seq<char>, i: int) -> Option<(JsonV, int)>
    decreases s.len() - i, 0int,
{
    if !(0 <= i < s.len()) {
        None
    } else {
        let c = s[i];
        if c == 'n' {
            if i + 4 <= s.len() && s[i + 1] == 'u' && s[i + 2] == 'l' && s[i + 3] == 'l' {
                Some((JsonV::Null, i + 4))
            } else {
                None
            }
        } else if c == 't' {
            if i + 4 <= s.len() && s[i + 1] == 'r' && s[i + 2] == 'u' && s[i + 3] == 'e' {
                Some((JsonV::Bool(true), i + 4))
            } else {
                None
            }
        } else if c == 'f' {
            if i + 5 <= s.len() && s[i + 1] == 'a' && s[i + 2] == 'l' && s[i + 3] == 's' && s[i + 4]
                == 'e' {
                Some((JsonV::Bool(false), i + 5))
            } else {
                None
            }
        } else if c == '"' {
            match parse_string_body(s, i + 1) {
                Some((t, p)) => Some((JsonV::Str(t), p)),
                None => None,
            }
        } else if c == '-' || is_digit(c) {
            match parse_number_at(s, i) {
                Some((t, p)) => Some((JsonV::Num(t), p)),
                None => None,
            }
        } else if c == '[' {
            let j = skip_ws(s, i + 1);
            if j < s.len() && s[j] == ']' {
                Some((JsonV::Arr(Seq::<JsonV>::empty()), j + 1))
            } else {
                match parse_arr_items(s, i + 1) {
                    Some((items, p)) => Some((JsonV::Arr(items), p)),
                    None => None,
                }
            }
        } else if c == '{' {
            let j = skip_ws(s, i + 1);
            if j < s.len() && s[j] == '}' {
                Some((JsonV::Obj(Seq::<(Seq<char>, JsonV)>::empty()), j + 1))
            } else {
                match parse_obj_items(s, i + 1) {
                    Some((entries, p)) => Some((JsonV::Obj(entries), p)),
                    None => None,
                }
            }
        } else {
            None
        }
    }
}

/// Reads the elements of an array from `i` up to and past the closing
/// bracket. The position bounds in the branch conditions always hold of
/// what `skip_ws` and `parse_value_at` return; they are spelled out so the
/// reading is visibly well-founded.
pub open spec fn parse_arr_items(s: Seq<char>, i: int) -> Option<(Seq<JsonV>, int)>
    decreases s.len() - i, 1int,
{
    if !(0 <= i <= s.len()) {
        None
    } else {
        let j = skip_ws(s, i);
        if !(i <= j <= s.len()) {
            None
        } else {
            match parse_value_at(s, j) {
                None => None,
                Some((v, p)) => if !(j < p <= s.len()) {
                    None
                } else {
                    let q = skip_ws(s, p);
                    if !(p <= q <= s.len()) {
                        None
                    } else if q < s.len() && s[q] == ',' {
                        match parse_arr_items(s, q + 1) {
                            Some((rest, r)) => Some((seq![v] + rest, r)),
                            None => None,
                        }
                    } else if q < s.len() && s[q] == ']' {
                        Some((seq![v], q + 1))
                    } else {
                        None
                    }
                },
            }
        }
    }
}

/// Reads the entries of an object from `i` up to and past the closing
/// brace, in the same style as `parse_arr_items`.
pub open spec fn parse_obj_items(s: Seq<char>, i: int) -> Option<(Seq<(Seq<char>, JsonV)>, int)>
    decreases s.len() - i, 1int,
{
    if !(0 <= i <= s.len()) {
        None
    } else {
        let j = skip_ws(s, i);
        if !(i <= j <= s.len()) {
            None
        } else if j < s.len() && s[j] == '"' {
            match parse_string_body(s, j + 1) {
                None => None,
                Some((k, p)) => if !(j < p <= s.len()) {
                    None
                } else {
                    let q = skip_ws(s, p);
                    if !(p <= q <= s.len()) {
                        None
                    } else if q < s.len() && s[q] == ':' {
                        let w = skip_ws(s, q + 1);
                        if !(q + 1 <= w <= s.len()) {
                            None
                        } else {
                        match parse_value_at(s, w) {
                            None => None,
                            Some((v, p2)) => if !(w < p2 <= s.len()) {
                                None
                            } else {
                                let q2 = skip_ws(s, p2);
                                if !(p2 <= q2 <= s.len()) {
                                    None
                                } else if q2 < s.len() && s[q2] == ',' {
                                    match parse_obj_items(s, q2 + 1) {
                                        Some((rest, r)) => Some((seq![(k, v)] + rest, r)),
                                        None => None,
                                    }
                                } else if q2 < s.len() && s[q2] == '}' {
                                    Some((seq![(k, v)], q2 + 1))
                                } else {
                                    None
                                }
                            },
                        }
                        }
                    } else {
                        None
                    }
                },
            }
        } else {
            None
        }
    }
}

/// The reading of a whole document: one value, with whitespace allowed
/// around it and nothing else after it.
pub open spec fn parse_json_text(s: Seq<char>) -> Option<JsonV> {
    match parse_value_at(s, skip_ws(s, 0)) {
        None => None,
        Some((v, p)) => if 0 <= p <= s.len() && skip_ws(s, p) == s.len() {
            Some(v)
        } else {
            None
        },
    }
}


/// Whether a character is JSON whitespace.
fn is_ws_exec(c: char) -> (r: bool)
    ensures
        r == is_ws(c),
{
    c == ' ' || c == '\t' || c == '\n' || c == '\r'
}

/// Executable run of `skip_ws`.
pub fn skip_ws_exec(s: &Vec<char>, i: usize) -> (r: usize)
    requires
        i <= s@.len(),
    ensures
        r as int == skip_ws(s@, i as int),
        i <= r <= s@.len(),
    decreases s@.len() - i,
{
    if i < s.len() && is_ws_exec(s[i]) {
        skip_ws_exec(s, i + 1)
    } else {
        i
    }
}

fn is_digit_exec(c: char) -> (r: bool)
    ensures
        r == is_digit(c),
{
    '0' <= c && c <= '9'
}

fn hex_val_exec(c: char) -> (r: i32)
    ensures
        r as int == hex_val(c),
{
    if '0' <= c && c <= '9' {
        ((c as u32) - ('0' as u32)) as i32
    } else if 'a' <= c && c <= 'f' {
        ((c as u32) - ('a' as u32) + 10) as i32
    } else if 'A' <= c && c <= 'F' {
        ((c as u32) - ('A' as u32) + 10) as i32
    } else {
        -1
    }
}

/// Relies on `char::from_u32`: it returns the character with the given
/// value exactly for Unicode scalar values (not surrogates, not above the
/// character range), and `None` otherwise.
#[verifier::external_body]
pub(crate) fn char_from_code(v: u32) -> (r: Option<char>)
    ensures
        (match r {
            Some(c) => c as u32 == v,
            None => true,
        }),
        (v < 0xD800 || (0xE000 <= v && v < 0x110000)) <==> r is Some,
{
    char::from_u32(v)
}

pub proof fn lemma_code_char_eq(c: char, v: u32)
    requires
        c as u32 == v,
    ensures
        code_char(v) == c,
{
    let c2 = code_char(v);
    assert(c2 as u32 == v);
    vstd::utf8::char_u32_cast(c, v);
    vstd::utf8::char_u32_cast(c2, v);
}

/// Executable run of `parse_string_body`, collecting the characters.
/// Reads four hexadecimal digits at `i`, if they stand there.
fn read_hex4(s: &Vec<char>, i: usize) -> (r: Option<u32>)
    requires
        i <= s@.len(),
    ensures
        (match r {
            None => !is_hex4(s@, i as int),
            Some(v) => is_hex4(s@, i as int) && v as int == hex4_val(s@, i as int) && v < 0x10000,
        }),
{
    if s.len() - i < 4 {
        return None;
    }
    let h0 = hex_val_exec(s[i]);
    let h1 = hex_val_exec(s[i + 1]);
    let h2 = hex_val_exec(s[i + 2]);
    let h3 = hex_val_exec(s[i + 3]);
    if h0 < 0 || h1 < 0 || h2 < 0 || h3 < 0 {
        return None;
    }
    Some((4096 * h0 + 256 * h1 + 16 * h2 + h3) as u32)
}

#[verifier::rlimit(100)]
#[verifier::spinoff_prover]
fn parse_string_body_exec(s: &Vec<char>, i: usize) -> (r: Option<(Vec<char>, usize)>)
    requires
        i <= s@.len(),
    ensures
        (match r {
            None => parse_string_body(s@, i as int) is None,
            Some((t, p)) => parse_string_body(s@, i as int) == Some((t@, p as int)) && i < p
                <= s@.len(),
        }),
    decreases s@.len() - i,
{
    if i >= s.len() {
        return None;
    }
    let c = s[i];
    if c == '"' {
        Some((Vec::new(), i + 1))
    } else if c == '\\' {
        if i + 1 >= s.len() {
            return None;
        }
        let e = s[i + 1];
        if e == 'u' {
            let v = match read_hex4(s, i + 2) {
                None => {
                    return None;
                },
                Some(v) => v,
            };
            if 0xD800 <= v && v < 0xDC00 {
                if s.len() - i < 12 {
                    return None;
                }
                if !(s[i + 6] == '\\' && s[i + 7] == 'u') {
                    return None;
                }
                let w = match read_hex4(s, i + 8) {
                    None => {
                        return None;
                    },
                    Some(w) => w,
                };
                if !(0xDC00 <= w && w < 0xE000) {
                    return None;
                }
                let code: u32 = 0x10000 + (v - 0xD800) * 0x400 + (w - 0xDC00);
                let ch_opt = char_from_code(code);
                match ch_opt {
                    None => {
                        proof {
                            assert(false);
                        }
                        None
                    },
                    Some(ch) => {
                        proof {
                            lemma_code_char_eq(ch, code);
                        }
                        match parse_string_body_exec(s, i + 12) {
                            None => None,
                            Some((mut t, p)) => {
                                t.insert(0, ch);
                                Some((t, p))
                            },
                        }
                    },
                }
            } else if 0xDC00 <= v && v < 0xE000 {
                None
            } else {
                let ch_opt = char_from_code(v);
                match ch_opt {
                    None => {
                        proof {
                            assert(false);
                        }
                        None
                    },
                    Some(ch) => {
                        proof {
                            lemma_code_char_eq(ch, v);
                        }
                        match parse_string_body_exec(s, i + 6) {
                            None => None,
                            Some((mut t, p)) => {
                                t.insert(0, ch);
                                Some((t, p))
                            },
                        }
                    },
                }
            }
        } else {
            let d_opt: Option<char> = if e == '"' {
                Some('"')
            } else if e == '\\' {
                Some('\\')
            } else if e == '/' {
                Some('/')
            } else if e == 'b' {
                Some('\u{0008}')
            } else if e == 'f' {
                Some('\u{000C}')
            } else if e == 'n' {
                Some('\n')
            } else if e == 'r' {
                Some('\r')
            } else if e == 't' {
                Some('\t')
            } else {
                None
            };
            match d_opt {
                None => None,
                Some(d) => match parse_string_body_exec(s, i + 2) {
                    None => None,
                    Some((mut t, p)) => {
                        t.insert(0, d);
                        Some((t, p))
                    },
                },
            }
        }
    } else if (c as u32) < 32 {
        None
    } else {
        match parse_string_body_exec(s, i + 1) {
            None => None,
            Some((mut t, p)) => {
                t.insert(0, c);
                Some((t, p))
            },
        }
    }
}

/// Executable run of `scan_digits`.
fn scan_digits_exec(s: &Vec<char>, i: usize) -> (r: usize)
    requires
        i <= s@.len(),
    ensures
        r as int == scan_digits(s@, i as int),
        i <= r <= s@.len(),
    decreases s@.len() - i,
{
    if i < s.len() && is_digit_exec(s[i]) {
        scan_digits_exec(s, i + 1)
    } else {
        i
    }
}

/// Executable run of `parse_number_at`, collecting the number's text.
pub fn parse_number_exec(s: &Vec<char>, i: usize) -> (r: Option<(Vec<char>, usize)>)
    requires
        i <= s@.len(),
    ensures
        (match r {
            None => parse_number_at(s@, i as int) is None,
            Some((t, p)) => parse_number_at(s@, i as int) == Some((t@, p as int)) && i < p
                <= s@.len(),
        }),
{
    let i1 = if i < s.len() && s[i] == '-' {
        i + 1
    } else {
        i
    };
    if !(i1 < s.len() && is_digit_exec(s[i1])) {
        return None;
    }
    let int_end = if s[i1] == '0' {
        i1 + 1
    } else {
        scan_digits_exec(s, i1)
    };
    proof {
        assert(scan_digits(s@, i1 as int) == scan_digits(s@, i1 as int + 1));
        lemma_scan_digits_bounds(s@, i1 as int + 1);
    }
    let frac_end = if int_end < s.len() && s[int_end] == '.' {
        let d = scan_digits_exec(s, int_end + 1);
        if d > int_end + 1 {
            d
        } else {
            return None;
        }
    } else {
        int_end
    };
    let exp_end = if frac_end < s.len() && (s[frac_end] == 'e' || s[frac_end] == 'E') {
        let j = if frac_end + 1 < s.len() && (s[frac_end + 1] == '+' || s[frac_end + 1] == '-') {
            frac_end + 2
        } else {
            frac_end + 1
        };
        if j > s.len() {
            return None;
        }
        let d = scan_digits_exec(s, j);
        if d > j && d >= frac_end + 2 {
            d
        } else {
            return None;
        }
    } else {
        frac_end
    };
    let mut t: Vec<char> = Vec::new();
    let mut k = i;
    while k < exp_end
        invariant
            i <= k <= exp_end <= s@.len(),
            t@ == s@.subrange(i as int, k as int),
        decreases exp_end - k,
    {
        t.push(s[k]);
        k = k + 1;
        proof {
            assert(t@ =~= s@.subrange(i as int, k as int));
        }
    }
    Some((t, exp_end))
}


/// Executable run of `parse_value_at`.
pub fn parse_value_exec(s: &Vec<char>, i: usize) -> (r: Option<(Json, usize)>)
    requires
        i <= s@.len(),
    ensures
        (match r {
            None => parse_value_at(s@, i as int) is None,
            Some((j, p)) => parse_value_at(s@, i as int) == Some((jv(j), p as int)) && i < p
                <= s@.len(),
        }),
    decreases s@.len() - i, 0int,
{
    if i >= s.len() {
        return None;
    }
    let c = s[i];
    if c == 'n' {
        if s.len() - i >= 4 && s[i + 1] == 'u' && s[i + 2] == 'l' && s[i + 3] == 'l' {
            Some((Json::Null, i + 4))
        } else {
            None
        }
    } else if c == 't' {
        if s.len() - i >= 4 && s[i + 1] == 'r' && s[i + 2] == 'u' && s[i + 3] == 'e' {
            Some((Json::Bool(true), i + 4))
        } else {
            None
        }
    } else if c == 'f' {
        if s.len() - i >= 5 && s[i + 1] == 'a' && s[i + 2] == 'l' && s[i + 3] == 's' && s[i + 4]
            == 'e' {
            Some((Json::Bool(false), i + 5))
        } else {
            None
        }
    } else if c == '"' {
        match parse_string_body_exec(s, i + 1) {
            None => None,
            Some((t, p)) => Some((Json::Str(chars_to_string(&t)), p)),
        }
    } else if c == '-' || is_digit_exec(c) {
        match parse_number_exec(s, i) {
            None => None,
            Some((t, p)) => Some((Json::Num(chars_to_string(&t)), p)),
        }
    } else if c == '[' {
        let j = skip_ws_exec(s, i + 1);
        if j < s.len() && s[j] == ']' {
            let items: Vec<Json> = Vec::new();
            proof {
                lemma_jv_list_index(items@);
                assert(jv_list(items@) =~= Seq::<JsonV>::empty());
            }
            Some((Json::Arr(items), j + 1))
        } else {
            match parse_arr_items_exec(s, i + 1) {
                None => None,
                Some((items, p)) => Some((Json::Arr(items), p)),
            }
        }
    } else if c == '{' {
        let j = skip_ws_exec(s, i + 1);
        if j < s.len() && s[j] == '}' {
            let entries: Vec<(String, Json)> = Vec::new();
            proof {
                lemma_jv_entries_index(entries@);
                assert(jv_entries(entries@) =~= Seq::<(Seq<char>, JsonV)>::empty());
            }
            Some((Json::Obj(entries), j + 1))
        } else {
            match parse_obj_items_exec(s, i + 1) {
                None => None,
                Some((entries, p)) => Some((Json::Obj(entries), p)),
            }
        }
    } else {
        None
    }
}

/// Executable run of `parse_arr_items`.
fn parse_arr_items_exec(s: &Vec<char>, i: usize) -> (r: Option<(Vec<Json>, usize)>)
    requires
        i <= s@.len(),
    ensures
        (match r {
            None => parse_arr_items(s@, i as int) is None,
            Some((items, p)) => parse_arr_items(s@, i as int) == Some((jv_list(items@), p as int))
                && i < p <= s@.len(),
        }),
    decreases s@.len() - i, 1int,
{
    let j = skip_ws_exec(s, i);
    match parse_value_exec(s, j) {
        None => None,
        Some((v, p)) => {
            let q = skip_ws_exec(s, p);
            if q < s.len() && s[q] == ',' {
                match parse_arr_items_exec(s, q + 1) {
                    None => None,
                    Some((mut items, r2)) => {
                        let ghost items0 = items@;
                        items.insert(0, v);
                        proof {
                            lemma_jv_list_index(items@);
                            lemma_jv_list_index(items0);
                            assert(jv_list(items@) =~= seq![jv(v)] + jv_list(items0));
                        }
                        Some((items, r2))
                    },
                }
            } else if q < s.len() && s[q] == ']' {
                let mut items: Vec<Json> = Vec::new();
                items.push(v);
                proof {
                    lemma_jv_list_index(items@);
                    assert(jv_list(items@) =~= seq![jv(v)]);
                }
                Some((items, q + 1))
            } else {
                None
            }
        },
    }
}

/// Executable run of `parse_obj_items`.
fn parse_obj_items_exec(s: &Vec<char>, i: usize) -> (r: Option<(Vec<(String, Json)>, usize)>)
    requires
        i <= s@.len(),
    ensures
        (match r {
            None => parse_obj_items(s@, i as int) is None,
            Some((entries, p)) => parse_obj_items(s@, i as int) == Some(
                (jv_entries(entries@), p as int),
            ) && i < p <= s@.len(),
        }),
    decreases s@.len() - i, 1int,
{
    let j = skip_ws_exec(s, i);
    if !(j < s.len() && s[j] == '"') {
        return None;
    }
    match parse_string_body_exec(s, j + 1) {
        None => None,
        Some((kt, p)) => {
            let key = chars_to_string(&kt);
            let q = skip_ws_exec(s, p);
            if !(q < s.len() && s[q] == ':') {
                return None;
            }
            let w = skip_ws_exec(s, q + 1);
            match parse_value_exec(s, w) {
                None => None,
                Some((v, p2)) => {
                    let q2 = skip_ws_exec(s, p2);
                    if q2 < s.len() && s[q2] == ',' {
                        match parse_obj_items_exec(s, q2 + 1) {
                            None => None,
                            Some((mut entries, r2)) => {
                                let ghost entries0 = entries@;
                                entries.insert(0, (key, v));
                                proof {
                                    lemma_jv_entries_index(entries@);
                                    lemma_jv_entries_index(entries0);
                                    assert(jv_entries(entries@) =~= seq![(kt@, jv(v))]
                                        + jv_entries(entries0));
                                }
                                Some((entries, r2))
                            },
                        }
                    } else if q2 < s.len() && s[q2] == '}' {
                        let mut entries: Vec<(String, Json)> = Vec::new();
                        entries.push((key, v));
                        proof {
                            lemma_jv_entries_index(entries@);
                            assert(jv_entries(entries@) =~= seq![(kt@, jv(v))]);
                        }
                        Some((entries, q2 + 1))
                    } else {
                        None
                    }
                },
            }
        },
    }
}

/// Reads a whole JSON document, exactly as `parse_json_text` says: `None`
/// on anything that is not one valid JSON value with nothing after it.
pub fn parse_json(s: &str) -> (r: Option<Json>)
    ensures
        (match r {
            None => parse_json_text(s@) is None,
            Some(j) => parse_json_text(s@) == Some(jv(j)),
        }),
{
    let cs = str_to_chars(s);
    let i = skip_ws_exec(&cs, 0);
    match parse_value_exec(&cs, i) {
        None => None,
        Some((j, p)) => {
            let e = skip_ws_exec(&cs, p);
            if e == cs.len() {
                Some(j)
            } else {
                None
            }
        },
    }
}

} // verus!
