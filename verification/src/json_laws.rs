//! Round trip: what the writer produces, the reader reads back unchanged.
//!
//! The main law is `lemma_json_round_trip`: for every well-formed value,
//! parsing the written text yields exactly that value. The helper lemmas
//! walk the text the writer lays down, one construct at a time.

use vstd::prelude::*;

use crate::json::{
    arr_pretty_from, arr_text_from, escape_char, is_ws, json_pretty_text, json_text,
    obj_pretty_from, obj_text_from, spaces, str_text_from, JsonV,
};
use crate::json_parse::{
    lemma_wf_entries_forall, lemma_wf_list_forall,
    code_char, hex4_val, hex_val, is_hex4, is_number_text, num_exp_end, num_frac_end,
    parse_arr_items, parse_json_text, parse_number_at, parse_obj_items, parse_string_body,
    parse_value_at, scan_digits, skip_ws, unescape_short, wf_jsonv,
};
use crate::numtext::{hex_char, is_digit};

verus! {

/// A region equality gives character-by-character equality.
pub proof fn lemma_region_index(s: Seq<char>, i: int, t: Seq<char>)
    requires
        0 <= i,
        i + t.len() <= s.len(),
        s.subrange(i, i + t.len() as int) == t,
    ensures
        forall|x: int| 0 <= x < t.len() ==> s[i + x] == #[trigger] t[x],
{
    assert forall|x: int| 0 <= x < t.len() implies s[i + x] == #[trigger] t[x] by {
        assert(s.subrange(i, i + t.len() as int)[x] == s[i + x]);
    }
}

/// The characters a number may continue with: anything else ends it.
pub open spec fn is_num_cont(c: char) -> bool {
    is_digit(c) || c == '.' || c == 'e' || c == 'E'
}

/// A digit run embedded in a larger text scans to the same end.
proof fn lemma_scan_digits_embed(t: Seq<char>, s: Seq<char>, i: int, k: int)
    requires
        0 <= k <= t.len(),
        0 <= i,
        i + t.len() <= s.len(),
        s.subrange(i, i + t.len() as int) == t,
        i + t.len() == s.len() || !is_digit(s[i + t.len()]),
    ensures
        scan_digits(s, i + k) == i + scan_digits(t, k),
    decreases t.len() - k,
{
    lemma_region_index(s, i, t);
    if k < t.len() && is_digit(t[k]) {
        lemma_scan_digits_embed(t, s, i, k + 1);
    }
}

/// A whole number text embedded in a larger text, followed by a character
/// that cannot continue a number, reads as exactly that text.
proof fn lemma_parse_number_embed(t: Seq<char>, s: Seq<char>, i: int)
    requires
        is_number_text(t),
        0 <= i,
        i + t.len() <= s.len(),
        s.subrange(i, i + t.len() as int) == t,
        i + t.len() == s.len() || !is_num_cont(s[i + t.len()]),
    ensures
        parse_number_at(s, i) == Some((t, i + t.len())),
    decreases t.len(),
{
    reveal(crate::json_parse::is_number_text);
    lemma_region_index(s, i, t);
    let n = t.len() as int;
    // The shape parse_number_at(t, 0) committed to.
    let i1t = if t[0] == '-' {
        1int
    } else {
        0int
    };
    assert(i1t < n && is_digit(t[i1t]));
    let int_end_t = if t[i1t] == '0' {
        i1t + 1
    } else {
        scan_digits(t, i1t)
    };
    assert(num_frac_end(t, int_end_t) matches Some(fe) && num_exp_end(t, fe) == Some(n));
    let fe_t = num_frac_end(t, int_end_t)->Some_0;

    let i1 = i + i1t;
    assert(s[i] == t[0] && s[i1] == t[i1t]);
    lemma_scan_digits_embed(t, s, i, i1t);
    assert(scan_digits(s, i1) == i + scan_digits(t, i1t));
    let int_end = if t[i1t] == '0' {
        i1 + 1
    } else {
        scan_digits(s, i1)
    };
    assert(int_end == i + int_end_t);

    // Fraction part.
    lemma_scan_digits_bounds_all(t, int_end_t);
    if int_end_t < n && t[int_end_t] == '.' {
        lemma_scan_digits_embed(t, s, i, int_end_t + 1);
        assert(num_frac_end(s, int_end) == Some(i + fe_t));
    } else {
        assert(fe_t == int_end_t);
        if int_end < s.len() {
            if int_end_t < n {
                assert(s[int_end] == t[int_end_t]);
                assert(t[int_end_t] != '.');
            } else {
                assert(int_end == i + n);
                assert(!is_num_cont(s[i + n]));
            }
        }
        assert(num_frac_end(s, int_end) == Some(i + fe_t));
    }

    // Exponent part.
    if fe_t < n && (t[fe_t] == 'e' || t[fe_t] == 'E') {
        let jt = if fe_t + 1 < n && (t[fe_t + 1] == '+' || t[fe_t + 1] == '-') {
            fe_t + 2
        } else {
            fe_t + 1
        };
        let j = if fe_t + 1 < n {
            if t[fe_t + 1] == '+' || t[fe_t + 1] == '-' {
                i + fe_t + 2
            } else {
                i + fe_t + 1
            }
        } else {
            i + fe_t + 1
        };
        assert(scan_digits(t, jt) == n);
        // The sign branch on `s` agrees with the one on `t`: the exponent has
        // at least one digit inside `t`, so position fe_t + 1 is inside `t`.
        assert(jt <= n);
        assert(fe_t + 1 < n || jt == fe_t + 1);
        if fe_t + 1 < n {
            assert(s[i + fe_t + 1] == t[fe_t + 1]);
        } else {
            // jt == fe_t + 1 == n and scan_digits(t, n) == n, but the
            // exponent demands a digit after the mark: contradiction with
            // num_exp_end(t, fe_t) == Some(n) requiring n >= fe_t + 2.
            assert(false);
        }
        lemma_scan_digits_embed(t, s, i, jt);
        assert(num_exp_end(s, i + fe_t) == Some(i + n));
    } else {
        assert(fe_t == n || !(t[fe_t] == 'e' || t[fe_t] == 'E'));
        if i + fe_t < s.len() {
            if fe_t < n {
                assert(s[i + fe_t] == t[fe_t]);
            } else {
                assert(!is_num_cont(s[i + n]));
            }
        }
        assert(num_exp_end(s, i + fe_t) == Some(i + fe_t));
        assert(fe_t == n);
    }
    assert(parse_number_at(s, i) == Some((s.subrange(i, i + n), i + n)));
    assert(s.subrange(i, i + n) == t);
}

proof fn lemma_scan_digits_bounds_all(t: Seq<char>, i: int)
    ensures
        0 <= i <= t.len() ==> i <= scan_digits(t, i) <= t.len(),
{
    if 0 <= i <= t.len() {
        crate::json_parse::lemma_scan_digits_bounds(t, i);
    }
}


/// Writing then reading one hexadecimal digit gives the digit back.
proof fn lemma_hex_char_val(d: int)
    requires
        0 <= d < 16,
    ensures
        hex_val(hex_char(d)) == d,
{
}

/// An escaped string body embedded before a closing quote reads back as
/// the characters it was written from.
proof fn lemma_parse_string_embed(t: Seq<char>, k: int, s: Seq<char>, i: int)
    requires
        0 <= k <= t.len(),
        0 <= i,
        i + str_text_from(t, k).len() + 1 <= s.len(),
        s.subrange(i, i + str_text_from(t, k).len() as int) == str_text_from(t, k),
        s[i + str_text_from(t, k).len()] == '"',
    ensures
        parse_string_body(s, i) == Some(
            (t.subrange(k, t.len() as int), i + str_text_from(t, k).len() + 1),
        ),
    decreases t.len() - k,
{
    let tt = str_text_from(t, k);
    let ln = tt.len() as int;
    lemma_region_index(s, i, tt);
    if k == t.len() {
        assert(tt =~= Seq::<char>::empty());
        assert(s[i] == '"');
        assert(t.subrange(k, t.len() as int) =~= Seq::<char>::empty());
    } else {
        let c = t[k];
        let e = escape_char(c);
        let rest = str_text_from(t, k + 1);
        assert(tt == e + rest);
        let el = e.len() as int;
        // The region for the remainder of the string.
        assert(s.subrange(i + el, i + el + rest.len() as int) =~= rest) by {
            assert forall|y: int| 0 <= y < rest.len() implies s[i + el + y] == rest[y] by {
                assert(tt[el + y] == rest[y]);
            }
        }
        assert(s[i + el + rest.len()] == '"');
        assert forall|x: int| 0 <= x < el implies s[i + x] == e[x] by {
            assert(s[i + x] == tt[x]);
            assert(tt[x] == e[x]);
        }
        lemma_parse_string_embed(t, k + 1, s, i + el);
        assert(parse_string_body(s, i + el) == Some(
            (t.subrange(k + 1, t.len() as int), i + el + rest.len() + 1),
        ));
        assert(seq![c] + t.subrange(k + 1, t.len() as int) =~= t.subrange(k, t.len() as int));
        if c == '"' {
            assert(e[0] == '\\' && e[1] == '"');
            assert(s[i + 0] == '\\' && s[i + 1] == '"');
            assert(unescape_short('"') == Some('"'));
        } else if c == '\\' {
            assert(e[0] == '\\' && e[1] == '\\');
            assert(s[i + 0] == '\\' && s[i + 1] == '\\');
            assert(unescape_short('\\') == Some('\\'));
        } else if (c as u32) < 32 {
            let v = c as u32;
            assert(e[0] == '\\' && e[1] == 'u' && e[2] == '0' && e[3] == '0' && e[4]
                == hex_char(v as int / 16) && e[5] == hex_char(v as int % 16));
            assert(s[i + 0] == '\\' && s[i + 1] == 'u');
            assert(s[i + 2] == '0' && s[i + 3] == '0');
            assert(s[i + 4] == hex_char(v as int / 16) && s[i + 5] == hex_char(v as int % 16));
            lemma_hex_char_val(v as int / 16);
            lemma_hex_char_val(v as int % 16);
            assert(hex_val('0') == 0);
            assert(is_hex4(s, i + 2));
            assert(hex4_val(s, i + 2) == v as int);
            assert(0 <= v < 32);
            crate::json_parse::lemma_code_char_eq(c, v);
            assert(code_char(v) == c);
        } else {
            assert(e[0] == c);
            assert(s[i + 0] == c);
            assert(!(c == '"' || c == '\\' || (c as u32) < 32));
        }
    }
}


/// The first character of a written value: never whitespace, never a
/// closing bracket.
proof fn lemma_json_text_first(v: JsonV)
    requires
        wf_jsonv(v),
    ensures
        json_text(v).len() >= 1,
        !is_ws(json_text(v)[0]),
        json_text(v)[0] != ']',
        json_text(v)[0] != '}',
{
    match v {
        JsonV::Num(t) => {
            reveal(crate::json_parse::is_number_text);
            assert(t[0] == '-' || is_digit(t[0]));
            assert(json_text(v)[0] == t[0]);
        },
        _ => {},
    }
}

/// Array elements embedded before a closing bracket read back as the
/// remaining elements.
#[verifier::rlimit(100)]
proof fn lemma_arr_items_embed(s: Seq<char>, pos: int, items: Seq<JsonV>, k: int)
    requires
        forall|x: int| 0 <= x < items.len() ==> wf_jsonv(#[trigger] items[x]),
        0 <= k < items.len(),
        0 <= pos,
        pos + (json_text(items[k]) + arr_text_from(items, k + 1)).len() + 1 <= s.len(),
        s.subrange(
            pos,
            pos + (json_text(items[k]) + arr_text_from(items, k + 1)).len() as int,
        ) == json_text(items[k]) + arr_text_from(items, k + 1),
        s[pos + (json_text(items[k]) + arr_text_from(items, k + 1)).len()] == ']',
    ensures
        parse_arr_items(s, pos) == Some(
            (
                items.subrange(k, items.len() as int),
                pos + (json_text(items[k]) + arr_text_from(items, k + 1)).len() + 1,
            ),
        ),
    decreases items, items.len() - k,
{
    let tail = json_text(items[k]) + arr_text_from(items, k + 1);
    let vt = json_text(items[k]);
    let vl = vt.len() as int;
    let rl = arr_text_from(items, k + 1).len() as int;
    lemma_region_index(s, pos, tail);
    lemma_json_text_first(items[k]);
    assert(s.subrange(pos, pos + vl) =~= vt) by {
        assert forall|x: int| 0 <= x < vl implies s[pos + x] == vt[x] by {
            assert(s[pos + x] == tail[x]);
        }
    }
    assert(s[pos + 0] == vt[0]);
    let after = pos + vl;
    if k + 1 < items.len() {
        assert(arr_text_from(items, k + 1) == seq![','] + json_text(items[k + 1])
            + arr_text_from(items, k + 2));
        assert(s[after] == tail[vl + 0]);
        assert(s[after] == ',');
    } else {
        assert(arr_text_from(items, k + 1) =~= Seq::<char>::empty());
        assert(after == pos + tail.len());
        assert(s[after] == ']');
    }
    assert(!is_num_cont(s[after]) && !is_ws(s[after]));
    lemma_parse_value_embed(s, pos, items[k]);
    assert(skip_ws(s, pos) == pos);
    assert(skip_ws(s, after) == after);
    if k + 1 < items.len() {
        let tail2 = json_text(items[k + 1]) + arr_text_from(items, k + 2);
        assert(arr_text_from(items, k + 1) == seq![','] + json_text(items[k + 1])
            + arr_text_from(items, k + 2));
        assert(s.subrange(after + 1, after + 1 + tail2.len() as int) =~= tail2) by {
            assert forall|y: int| 0 <= y < tail2.len() implies s[after + 1 + y] == tail2[y] by {
                assert(s[after + 1 + y] == tail[vl + 1 + y]);
                assert(tail[vl + 1 + y] == arr_text_from(items, k + 1)[1 + y]);
                assert(arr_text_from(items, k + 1)[1 + y] == tail2[y]);
            }
        }
        assert(vl + 1 + tail2.len() == tail.len());
        assert(s[after + 1 + tail2.len()] == ']');
        lemma_arr_items_embed(s, after + 1, items, k + 1);
        assert(parse_arr_items(s, after + 1) == Some(
            (items.subrange(k + 1, items.len() as int), after + 1 + tail2.len() + 1),
        ));
        assert(seq![items[k]] + items.subrange(k + 1, items.len() as int) =~= items.subrange(
            k,
            items.len() as int,
        ));
        assert(parse_arr_items(s, pos) == Some(
            (items.subrange(k, items.len() as int), pos + tail.len() + 1),
        ));
    } else {
        assert(seq![items[k]] =~= items.subrange(k, items.len() as int));
        assert(parse_arr_items(s, pos) == Some(
            (items.subrange(k, items.len() as int), pos + tail.len() + 1),
        ));
    }
}

/// The writing of one object entry: quoted key, colon, value.
pub open spec fn obj_entry_text(e: (Seq<char>, JsonV)) -> Seq<char> {
    seq!['"'] + str_text_from(e.0, 0) + seq!['"', ':'] + json_text(e.1)
}

proof fn lemma_obj_text_unfold(entries: Seq<(Seq<char>, JsonV)>, i: int)
    requires
        0 <= i < entries.len(),
    ensures
        obj_text_from(entries, i) == (if i > 0 {
            seq![',']
        } else {
            Seq::<char>::empty()
        }) + obj_entry_text(entries[i]) + obj_text_from(entries, i + 1),
{
    assert(obj_text_from(entries, i) =~= (if i > 0 {
        seq![',']
    } else {
        Seq::<char>::empty()
    }) + obj_entry_text(entries[i]) + obj_text_from(entries, i + 1));
}


/// One object entry, laid out before `endch`, parses as its key and value.
#[verifier::rlimit(100)]
proof fn lemma_obj_entry_parse(s: Seq<char>, pos: int, key: Seq<char>, val: JsonV, endch: char)
    requires
        wf_jsonv(val),
        0 <= pos,
        pos + obj_entry_text((key, val)).len() + 1 <= s.len(),
        s.subrange(pos, pos + obj_entry_text((key, val)).len() as int) == obj_entry_text(
            (key, val),
        ),
        s[pos + obj_entry_text((key, val)).len()] == endch,
        endch == ',' || endch == '}',
    ensures
        s[pos] == '"',
        parse_string_body(s, pos + 1) == Some((key, pos + str_text_from(key, 0).len() + 2)),
        s[pos + str_text_from(key, 0).len() + 2] == ':',
        parse_value_at(s, pos + str_text_from(key, 0).len() + 3) == Some(
            (val, pos + obj_entry_text((key, val)).len()),
        ),
    decreases val, 2int,
{
    let kt = str_text_from(key, 0);
    let kl = kt.len() as int;
    let vt = json_text(val);
    let vl = vt.len() as int;
    let et = obj_entry_text((key, val));
    lemma_region_index(s, pos, et);
    assert(et == seq!['"'] + kt + seq!['"', ':'] + vt);
    assert(et[0] == '"');
    assert(s[pos + 0] == '"');
    assert(et[1 + kl] == '"');
    assert(s[pos + 1 + kl] == et[1 + kl]);
    assert(et[2 + kl] == ':');
    assert(s[pos + 2 + kl] == et[2 + kl]);
    assert(s.subrange(pos + 1, pos + 1 + kl) =~= kt) by {
        assert forall|x: int| 0 <= x < kl implies s[pos + 1 + x] == kt[x] by {
            assert(s[pos + 1 + x] == et[1 + x]);
        }
    }
    lemma_parse_string_embed(key, 0, s, pos + 1);
    assert(key.subrange(0, key.len() as int) =~= key);
    assert(s.subrange(pos + 3 + kl, pos + 3 + kl + vl) =~= vt) by {
        assert forall|y: int| 0 <= y < vl implies s[pos + 3 + kl + y] == vt[y] by {
            assert(s[pos + 3 + kl + y] == et[3 + kl + y]);
        }
    }
    assert(!is_num_cont(s[pos + 3 + kl + vl]));
    lemma_parse_value_embed(s, pos + 3 + kl, val);
}

#[verifier::rlimit(100)]
proof fn lemma_obj_items_embed(s: Seq<char>, pos: int, entries: Seq<(Seq<char>, JsonV)>, k: int)
    requires
        forall|x: int| 0 <= x < entries.len() ==> wf_jsonv(#[trigger] entries[x].1),
        0 <= k < entries.len(),
        0 <= pos,
        pos + (obj_entry_text(entries[k]) + obj_text_from(entries, k + 1)).len() + 1 <= s.len(),
        s.subrange(
            pos,
            pos + (obj_entry_text(entries[k]) + obj_text_from(entries, k + 1)).len() as int,
        ) == obj_entry_text(entries[k]) + obj_text_from(entries, k + 1),
        s[pos + (obj_entry_text(entries[k]) + obj_text_from(entries, k + 1)).len()] == '}',
    ensures
        parse_obj_items(s, pos) == Some(
            (
                entries.subrange(k, entries.len() as int),
                pos + (obj_entry_text(entries[k]) + obj_text_from(entries, k + 1)).len() + 1,
            ),
        ),
    decreases entries, 2 * (entries.len() - k) + 1,
{
    if k + 1 < entries.len() {
        lemma_obj_items_embed_step(s, pos, entries, k);
    } else {
        lemma_obj_items_embed_last(s, pos, entries, k);
    }
}

#[verifier::rlimit(100)]
proof fn lemma_obj_items_embed_last(
    s: Seq<char>,
    pos: int,
    entries: Seq<(Seq<char>, JsonV)>,
    k: int,
)
    requires
        forall|x: int| 0 <= x < entries.len() ==> wf_jsonv(#[trigger] entries[x].1),
        0 <= k < entries.len(),
        k + 1 == entries.len(),
        0 <= pos,
        pos + (obj_entry_text(entries[k]) + obj_text_from(entries, k + 1)).len() + 1 <= s.len(),
        s.subrange(
            pos,
            pos + (obj_entry_text(entries[k]) + obj_text_from(entries, k + 1)).len() as int,
        ) == obj_entry_text(entries[k]) + obj_text_from(entries, k + 1),
        s[pos + (obj_entry_text(entries[k]) + obj_text_from(entries, k + 1)).len()] == '}',
    ensures
        parse_obj_items(s, pos) == Some(
            (
                entries.subrange(k, entries.len() as int),
                pos + (obj_entry_text(entries[k]) + obj_text_from(entries, k + 1)).len() + 1,
            ),
        ),
    decreases entries, 2 * (entries.len() - k),
{
    let key = entries[k].0;
    let val = entries[k].1;
    let kl = str_text_from(key, 0).len() as int;
    let et = obj_entry_text(entries[k]);
    let rest = obj_text_from(entries, k + 1);
    let tail = et + rest;
    assert(rest =~= Seq::<char>::empty());
    assert(tail =~= et);
    let after = pos + et.len();
    assert(s[after] == '}');
    assert(entries[k] == (key, val));
    lemma_obj_entry_parse(s, pos, key, val, '}');
    let p = pos + kl + 2;
    assert(skip_ws(s, pos) == pos);
    assert(skip_ws(s, p) == p);
    assert(skip_ws(s, after) == after);
    assert(seq![(key, val)] =~= entries.subrange(k, entries.len() as int));
    assert(parse_obj_items(s, pos) == Some(
        (entries.subrange(k, entries.len() as int), pos + tail.len() + 1),
    ));
}

#[verifier::rlimit(100)]
proof fn lemma_obj_step_regions(s: Seq<char>, pos: int, e0: (Seq<char>, JsonV), rest: Seq<char>)
    requires
        0 <= pos,
        pos + (obj_entry_text(e0) + rest).len() <= s.len(),
        s.subrange(pos, pos + (obj_entry_text(e0) + rest).len() as int) == obj_entry_text(e0)
            + rest,
        rest.len() >= 1,
    ensures
        s.subrange(pos, pos + obj_entry_text(e0).len() as int) == obj_entry_text(e0),
        s[pos + obj_entry_text(e0).len()] == rest[0],
        s.subrange(
            pos + obj_entry_text(e0).len() + 1,
            pos + (obj_entry_text(e0) + rest).len() as int,
        ) == rest.subrange(1, rest.len() as int),
{
    let et = obj_entry_text(e0);
    let el = et.len() as int;
    let tail = et + rest;
    lemma_region_index(s, pos, tail);
    assert(s.subrange(pos, pos + el) =~= et) by {
        assert forall|x: int| 0 <= x < el implies s[pos + x] == et[x] by {
            assert(s[pos + x] == tail[x]);
        }
    }
    assert(s[pos + el] == tail[el]);
    assert(s.subrange(pos + el + 1, pos + tail.len() as int) =~= rest.subrange(
        1,
        rest.len() as int,
    )) by {
        assert forall|y: int|
            0 <= y < rest.len() - 1 implies #[trigger] s.subrange(
            pos + el + 1,
            pos + tail.len() as int,
        )[y] == rest.subrange(1, rest.len() as int)[y] by {
            assert(s[pos + el + 1 + y] == tail[el + 1 + y]);
            assert(tail[el + 1 + y] == rest[1 + y]);
        }
    }
}

#[verifier::rlimit(100)]
#[verifier::spinoff_prover]
proof fn lemma_obj_items_embed_step(
    s: Seq<char>,
    pos: int,
    entries: Seq<(Seq<char>, JsonV)>,
    k: int,
)
    requires
        forall|x: int| 0 <= x < entries.len() ==> wf_jsonv(#[trigger] entries[x].1),
        0 <= k < entries.len(),
        k + 1 < entries.len(),
        0 <= pos,
        pos + (obj_entry_text(entries[k]) + obj_text_from(entries, k + 1)).len() + 1 <= s.len(),
        s.subrange(
            pos,
            pos + (obj_entry_text(entries[k]) + obj_text_from(entries, k + 1)).len() as int,
        ) == obj_entry_text(entries[k]) + obj_text_from(entries, k + 1),
        s[pos + (obj_entry_text(entries[k]) + obj_text_from(entries, k + 1)).len()] == '}',
    ensures
        parse_obj_items(s, pos) == Some(
            (
                entries.subrange(k, entries.len() as int),
                pos + (obj_entry_text(entries[k]) + obj_text_from(entries, k + 1)).len() + 1,
            ),
        ),
    decreases entries, 2 * (entries.len() - k),
{
    let key = entries[k].0;
    let val = entries[k].1;
    let kl = str_text_from(key, 0).len() as int;
    let et = obj_entry_text(entries[k]);
    let rest = obj_text_from(entries, k + 1);
    let tail = et + rest;
    let tail2 = obj_entry_text(entries[k + 1]) + obj_text_from(entries, k + 2);
    lemma_obj_text_unfold(entries, k + 1);
    assert(rest =~= seq![','] + tail2);
    assert(rest[0] == ',');
    lemma_obj_step_regions(s, pos, entries[k], rest);
    let after = pos + et.len();
    assert(s[after] == ',');
    assert(entries[k] == (key, val));
    lemma_obj_entry_parse(s, pos, key, val, ',');
    let p = pos + kl + 2;
    assert(skip_ws(s, pos) == pos);
    assert(skip_ws(s, p) == p);
    assert(skip_ws(s, after) == after);
    assert(rest.subrange(1, rest.len() as int) =~= tail2);
    assert(s.subrange(after + 1, after + 1 + tail2.len() as int) == tail2);
    assert(1 + tail2.len() == rest.len());
    assert(s[after + 1 + tail2.len()] == '}');
    lemma_obj_items_embed(s, after + 1, entries, k + 1);
    assert(seq![(key, val)] + entries.subrange(k + 1, entries.len() as int) =~= entries.subrange(
        k,
        entries.len() as int,
    ));
    assert(parse_obj_items(s, pos) == Some(
        (entries.subrange(k, entries.len() as int), pos + tail.len() + 1),
    ));
}

#[verifier::rlimit(100)]
#[verifier::spinoff_prover]
proof fn lemma_value_embed_simple(s: Seq<char>, i: int, v: JsonV)
    requires
        wf_jsonv(v),
        !(v is Arr) && !(v is Obj),
        0 <= i,
        i + json_text(v).len() <= s.len(),
        s.subrange(i, i + json_text(v).len() as int) == json_text(v),
        i + json_text(v).len() == s.len() || !is_num_cont(s[i + json_text(v).len()]),
    ensures
        parse_value_at(s, i) == Some((v, i + json_text(v).len())),
{
    let vt = json_text(v);
    let n = vt.len() as int;
    lemma_region_index(s, i, vt);
    lemma_json_text_first(v);
    match v {
        JsonV::Null => {
            assert(vt[0] == 'n' && vt[1] == 'u' && vt[2] == 'l' && vt[3] == 'l');
            assert(s[i + 0] == 'n' && s[i + 1] == 'u' && s[i + 2] == 'l' && s[i + 3] == 'l');
            assert(s[i] == 'n');
        },
        JsonV::Bool(b) => {
            if b {
                assert(vt[0] == 't' && vt[1] == 'r' && vt[2] == 'u' && vt[3] == 'e');
                assert(s[i + 0] == 't' && s[i + 1] == 'r' && s[i + 2] == 'u' && s[i + 3] == 'e');
                assert(s[i] == 't');
            } else {
                assert(vt[0] == 'f' && vt[1] == 'a' && vt[2] == 'l' && vt[3] == 's' && vt[4]
                    == 'e');
                assert(s[i + 0] == 'f' && s[i + 1] == 'a' && s[i + 2] == 'l' && s[i + 3] == 's'
                    && s[i + 4] == 'e');
                assert(s[i] == 'f');
            }
        },
        JsonV::Num(t) => {
            reveal(crate::json_parse::is_number_text);
            assert(vt == t);
            assert(t[0] == '-' || is_digit(t[0]));
            assert(s[i + 0] == t[0]);
            assert(s[i] == t[0]);
            lemma_parse_number_embed(t, s, i);
        },
        JsonV::Str(u) => {
            let ul = str_text_from(u, 0).len() as int;
            assert(vt == seq!['"'] + str_text_from(u, 0) + seq!['"']);
            assert(s[i + 0] == '"');
            assert(s[i] == '"');
            assert(s.subrange(i + 1, i + 1 + ul) =~= str_text_from(u, 0)) by {
                assert forall|y: int| 0 <= y < ul implies s[i + 1 + y] == str_text_from(u, 0)[y] by {
                    assert(s[i + 1 + y] == vt[1 + y]);
                }
            }
            assert(s[i + 1 + ul] == vt[1 + ul]);
            assert(vt[1 + ul] == '"');
            lemma_parse_string_embed(u, 0, s, i + 1);
            assert(u.subrange(0, u.len() as int) =~= u);
            assert(parse_string_body(s, i + 1) == Some((u, i + ul + 2)));
        },
        _ => {},
    }
}

#[verifier::rlimit(100)]
proof fn lemma_value_embed_arr(s: Seq<char>, i: int, items: Seq<JsonV>)
    requires
        wf_jsonv(JsonV::Arr(items)),
        0 <= i,
        i + json_text(JsonV::Arr(items)).len() <= s.len(),
        s.subrange(i, i + json_text(JsonV::Arr(items)).len() as int) == json_text(
            JsonV::Arr(items),
        ),
    ensures
        parse_value_at(s, i) == Some(
            (JsonV::Arr(items), i + json_text(JsonV::Arr(items)).len()),
        ),
    decreases JsonV::Arr(items), 0int,
{
    let v = JsonV::Arr(items);
    let vt = json_text(v);
    let n = vt.len() as int;
    lemma_region_index(s, i, vt);
    assert(vt == seq!['['] + arr_text_from(items, 0) + seq![']']);
    assert(vt[0] == '[');
    assert(s[i + 0] == '[');
    assert(s[i] == '[');
    let al = arr_text_from(items, 0).len() as int;
    assert(s[i + 1 + al] == vt[1 + al]);
    assert(vt[1 + al] == ']');
    if items.len() == 0 {
        assert(items =~= Seq::<JsonV>::empty());
        assert(arr_text_from(items, 0) =~= Seq::<char>::empty());
        assert(s[i + 1] == ']');
        assert(skip_ws(s, i + 1) == i + 1);
        assert(parse_value_at(s, i) == Some((v, i + 2)));
    } else {
        let tail = json_text(items[0]) + arr_text_from(items, 1);
        assert(arr_text_from(items, 0) =~= tail);
        assert(s.subrange(i + 1, i + 1 + al) =~= arr_text_from(items, 0)) by {
            assert forall|y: int| 0 <= y < al implies s[i + 1 + y] == arr_text_from(
                items,
                0,
            )[y] by {
                assert(s[i + 1 + y] == vt[1 + y]);
            }
        }
        lemma_wf_list_forall(items);
        lemma_json_text_first(items[0]);
        assert(s[i + 1] == arr_text_from(items, 0)[0]);
        assert(arr_text_from(items, 0)[0] == json_text(items[0])[0]);
        assert(!is_ws(s[i + 1]) && s[i + 1] != ']');
        assert(skip_ws(s, i + 1) == i + 1);
        lemma_arr_items_embed(s, i + 1, items, 0);
        assert(items.subrange(0, items.len() as int) =~= items);
        assert(parse_arr_items(s, i + 1) == Some((items, i + 1 + al + 1)));
    }
}

#[verifier::rlimit(100)]
proof fn lemma_value_embed_obj(s: Seq<char>, i: int, entries: Seq<(Seq<char>, JsonV)>)
    requires
        wf_jsonv(JsonV::Obj(entries)),
        0 <= i,
        i + json_text(JsonV::Obj(entries)).len() <= s.len(),
        s.subrange(i, i + json_text(JsonV::Obj(entries)).len() as int) == json_text(
            JsonV::Obj(entries),
        ),
    ensures
        parse_value_at(s, i) == Some(
            (JsonV::Obj(entries), i + json_text(JsonV::Obj(entries)).len()),
        ),
    decreases JsonV::Obj(entries), 0int,
{
    let v = JsonV::Obj(entries);
    let vt = json_text(v);
    let n = vt.len() as int;
    lemma_region_index(s, i, vt);
    assert(vt == seq!['{'] + obj_text_from(entries, 0) + seq!['}']);
    assert(vt[0] == '{');
    assert(s[i + 0] == '{');
    assert(s[i] == '{');
    let ol = obj_text_from(entries, 0).len() as int;
    assert(s[i + 1 + ol] == vt[1 + ol]);
    assert(vt[1 + ol] == '}');
    if entries.len() == 0 {
        assert(entries =~= Seq::<(Seq<char>, JsonV)>::empty());
        assert(obj_text_from(entries, 0) =~= Seq::<char>::empty());
        assert(s[i + 1] == '}');
        assert(skip_ws(s, i + 1) == i + 1);
        assert(parse_value_at(s, i) == Some((v, i + 2)));
    } else {
        let tail = obj_entry_text(entries[0]) + obj_text_from(entries, 1);
        assert(obj_text_from(entries, 0) =~= tail) by {
            lemma_obj_text_unfold(entries, 0);
        }
        assert(s.subrange(i + 1, i + 1 + ol) =~= obj_text_from(entries, 0)) by {
            assert forall|y: int| 0 <= y < ol implies s[i + 1 + y] == obj_text_from(
                entries,
                0,
            )[y] by {
                assert(s[i + 1 + y] == vt[1 + y]);
            }
        }
        lemma_wf_entries_forall(entries);
        assert(s[i + 1] == obj_text_from(entries, 0)[0]);
        assert(obj_text_from(entries, 0)[0] == '"');
        assert(skip_ws(s, i + 1) == i + 1);
        lemma_obj_items_embed(s, i + 1, entries, 0);
        assert(entries.subrange(0, entries.len() as int) =~= entries);
        assert(parse_obj_items(s, i + 1) == Some((entries, i + 1 + ol + 1)));
    }
}

/// A written value embedded in a larger text reads back as itself.
pub proof fn lemma_parse_value_embed(s: Seq<char>, i: int, v: JsonV)
    requires
        wf_jsonv(v),
        0 <= i,
        i + json_text(v).len() <= s.len(),
        s.subrange(i, i + json_text(v).len() as int) == json_text(v),
        i + json_text(v).len() == s.len() || !is_num_cont(s[i + json_text(v).len()]),
    ensures
        parse_value_at(s, i) == Some((v, i + json_text(v).len())),
    decreases v, 1int,
{
    match v {
        JsonV::Arr(items) => {
            lemma_value_embed_arr(s, i, items);
        },
        JsonV::Obj(entries) => {
            lemma_value_embed_obj(s, i, entries);
        },
        _ => {
            lemma_value_embed_simple(s, i, v);
        },
    }
}

/// Round trip: the written text of any well-formed value reads back as
/// exactly that value.
pub proof fn lemma_json_round_trip(v: JsonV)
    requires
        wf_jsonv(v),
    ensures
        parse_json_text(json_text(v)) == Some(v),
{
    let s = json_text(v);
    lemma_json_text_first(v);
    assert(skip_ws(s, 0) == 0);
    assert(s.subrange(0, s.len() as int) =~= s);
    lemma_parse_value_embed(s, 0, v);
    assert(skip_ws(s, s.len() as int) == s.len());
}


/// A stretch of whitespace characters.
pub open spec fn ws_run(s: Seq<char>, a: int, b: int) -> bool {
    0 <= a <= b <= s.len() && forall|x: int| a <= x < b ==> is_ws(#[trigger] s[x])
}

/// Skipping whitespace from the start of a whitespace run lands exactly on
/// the first character after it.
proof fn lemma_skip_ws_run(s: Seq<char>, a: int, b: int)
    requires
        ws_run(s, a, b),
        b == s.len() || !is_ws(s[b]),
    ensures
        skip_ws(s, a) == b,
    decreases b - a,
{
    if a < b {
        lemma_skip_ws_run(s, a + 1, b);
    }
}

/// A run of spaces: its length and its characters.
proof fn lemma_spaces_ws(n: nat)
    ensures
        spaces(n).len() == n,
        forall|k: int| 0 <= k < n ==> is_ws(#[trigger] spaces(n)[k]),
    decreases n,
{
    if n > 0 {
        lemma_spaces_ws((n - 1) as nat);
        assert(forall|k: int|
            0 <= k < n - 1 ==> #[trigger] spaces(n)[k] == spaces((n - 1) as nat)[k]);
        assert(spaces(n)[n - 1] == ' ');
    }
}

/// The first character of a pretty-written value: never whitespace, never
/// a closing bracket.
proof fn lemma_json_pretty_first(v: JsonV, ind: nat)
    requires
        wf_jsonv(v),
    ensures
        json_pretty_text(v, ind).len() >= 1,
        !is_ws(json_pretty_text(v, ind)[0]),
        json_pretty_text(v, ind)[0] != ']',
        json_pretty_text(v, ind)[0] != '}',
{
    match v {
        JsonV::Arr(items) => {
            assert(json_pretty_text(v, ind)[0] == '[');
        },
        JsonV::Obj(entries) => {
            assert(json_pretty_text(v, ind)[0] == '{');
        },
        _ => {
            assert(json_pretty_text(v, ind) == json_text(v));
            lemma_json_text_first(v);
        },
    }
}

/// One pretty array element: its own line at the given indent.
pub open spec fn arr_pretty_tail(items: Seq<JsonV>, k: int, ind: nat) -> Seq<char> {
    seq!['\n'] + spaces(ind) + json_pretty_text(items[k], ind) + arr_pretty_from(
        items,
        k + 1,
        ind,
    )
}

proof fn lemma_arr_pretty_unfold(items: Seq<JsonV>, k: int, ind: nat)
    requires
        0 <= k < items.len(),
    ensures
        arr_pretty_from(items, k, ind) == (if k > 0 {
            seq![',']
        } else {
            Seq::<char>::empty()
        }) + arr_pretty_tail(items, k, ind),
{
    assert(arr_pretty_from(items, k, ind) =~= (if k > 0 {
        seq![',']
    } else {
        Seq::<char>::empty()
    }) + arr_pretty_tail(items, k, ind));
}

/// One pretty object entry: its own line, quoted key, colon, one space,
/// then the value.
pub open spec fn obj_pretty_entry(e0: (Seq<char>, JsonV), ind: nat) -> Seq<char> {
    seq!['\n'] + spaces(ind) + seq!['"'] + str_text_from(e0.0, 0) + seq!['"', ':', ' ']
        + json_pretty_text(e0.1, ind)
}

proof fn lemma_obj_pretty_unfold(entries: Seq<(Seq<char>, JsonV)>, k: int, ind: nat)
    requires
        0 <= k < entries.len(),
    ensures
        obj_pretty_from(entries, k, ind) == (if k > 0 {
            seq![',']
        } else {
            Seq::<char>::empty()
        }) + obj_pretty_entry(entries[k], ind) + obj_pretty_from(entries, k + 1, ind),
{
    assert(obj_pretty_from(entries, k, ind) =~= (if k > 0 {
        seq![',']
    } else {
        Seq::<char>::empty()
    }) + obj_pretty_entry(entries[k], ind) + obj_pretty_from(entries, k + 1, ind));
}


/// A pretty-written value embedded in a larger text reads back as itself.
pub proof fn lemma_pretty_value_embed(s: Seq<char>, i: int, v: JsonV, ind: nat)
    requires
        wf_jsonv(v),
        0 <= i,
        i + json_pretty_text(v, ind).len() <= s.len(),
        s.subrange(i, i + json_pretty_text(v, ind).len() as int) == json_pretty_text(v, ind),
        i + json_pretty_text(v, ind).len() == s.len() || !is_num_cont(
            s[i + json_pretty_text(v, ind).len()],
        ),
    ensures
        parse_value_at(s, i) == Some((v, i + json_pretty_text(v, ind).len())),
    decreases v, 1int,
{
    match v {
        JsonV::Arr(items) => {
            lemma_pretty_value_embed_arr(s, i, items, ind);
        },
        JsonV::Obj(entries) => {
            lemma_pretty_value_embed_obj(s, i, entries, ind);
        },
        _ => {
            assert(json_pretty_text(v, ind) == json_text(v));
            lemma_value_embed_simple(s, i, v);
        },
    }
}

#[verifier::rlimit(100)]
#[verifier::spinoff_prover]
proof fn lemma_pretty_value_embed_arr(s: Seq<char>, i: int, items: Seq<JsonV>, ind: nat)
    requires
        wf_jsonv(JsonV::Arr(items)),
        0 <= i,
        i + json_pretty_text(JsonV::Arr(items), ind).len() <= s.len(),
        s.subrange(i, i + json_pretty_text(JsonV::Arr(items), ind).len() as int)
            == json_pretty_text(JsonV::Arr(items), ind),
    ensures
        parse_value_at(s, i) == Some(
            (JsonV::Arr(items), i + json_pretty_text(JsonV::Arr(items), ind).len()),
        ),
    decreases JsonV::Arr(items), 0int,
{
    let v = JsonV::Arr(items);
    let vt = json_pretty_text(v, ind);
    let n = vt.len() as int;
    lemma_region_index(s, i, vt);
    lemma_spaces_ws(ind);
    lemma_wf_list_forall(items);
    assert(vt[0] == '[');
    assert(s[i + 0] == '[');
    assert(s[i] == '[');
    if items.len() == 0 {
        assert(items =~= Seq::<JsonV>::empty());
        assert(vt[1] == ']');
        assert(s[i + 1] == ']');
        assert(skip_ws(s, i + 1) == i + 1);
        assert(parse_value_at(s, i) == Some((v, i + 2)));
    } else {
        let ap = arr_pretty_from(items, 0, ind + 2);
        let al = ap.len() as int;
        lemma_spaces_ws((ind + 2) as nat);
        lemma_arr_pretty_unfold(items, 0, ind + 2);
        let tail = arr_pretty_tail(items, 0, ind + 2);
        assert(ap =~= tail);
        assert(vt == seq!['['] + ap + seq!['\n'] + spaces(ind) + seq![']']);
        let endpos = i + 1 + al + 1 + ind;
        assert(s.subrange(i + 1, i + 1 + al) =~= ap) by {
            assert forall|y: int| 0 <= y < al implies s[i + 1 + y] == ap[y] by {
                assert(s[i + 1 + y] == vt[1 + y]);
            }
        }
        assert(ws_run(s, i + 1 + al, endpos)) by {
            assert forall|x: int| i + 1 + al <= x < endpos implies is_ws(#[trigger] s[x]) by {
                assert(s[x] == vt[x - i]);
                if x == i + 1 + al {
                    assert(vt[x - i] == '\n');
                } else {
                    assert(vt[x - i] == spaces(ind)[x - (i + 2 + al)]);
                }
            }
        }
        assert(s[endpos] == vt[endpos - i]);
        assert(vt[endpos - i] == ']');
        // The bracket is followed by the end of the pretty text.
        assert(endpos + 1 == i + n);
        lemma_json_pretty_first(items[0], ind + 2);
        assert(ap[0] == '\n');
        lemma_pretty_arr_items_embed(s, i + 1, items, 0, (ind + 2) as nat, endpos);
        assert(items.subrange(0, items.len() as int) =~= items);
        // The parser's own steps on this layout.
        let vs = i + 2 + ind + 2;
        assert(ws_run(s, i + 1, vs)) by {
            assert forall|x: int| i + 1 <= x < vs implies is_ws(#[trigger] s[x]) by {
                assert(s[x] == vt[x - i]);
                assert(vt[x - i] == ap[x - i - 1]);
                if x == i + 1 {
                    assert(ap[0] == '\n');
                } else {
                    assert(ap[x - i - 1] == spaces((ind + 2) as nat)[x - i - 2]) by {
                        lemma_spaces_ws((ind + 2) as nat);
                    }
                    lemma_spaces_ws((ind + 2) as nat);
                }
            }
        }
        assert(s[vs] == vt[vs - i]);
        assert(vt[vs - i] == json_pretty_text(items[0], ind + 2)[0]) by {
            assert(ap[vs - i - 1] == json_pretty_text(items[0], ind + 2)[0]);
        }
        assert(!is_ws(s[vs]) && s[vs] != ']');
        lemma_skip_ws_run(s, i + 1, vs);
        assert(skip_ws(s, i + 1) == vs);
        assert(parse_value_at(s, i) == Some((v, endpos + 1)));
    }
}

#[verifier::rlimit(100)]
proof fn lemma_pretty_arr_items_embed(
    s: Seq<char>,
    pos: int,
    items: Seq<JsonV>,
    k: int,
    ind: nat,
    endpos: int,
)
    requires
        forall|x: int| 0 <= x < items.len() ==> wf_jsonv(#[trigger] items[x]),
        0 <= k < items.len(),
        0 <= pos,
        pos + arr_pretty_tail(items, k, ind).len() <= endpos < s.len(),
        s.subrange(pos, pos + arr_pretty_tail(items, k, ind).len() as int) == arr_pretty_tail(
            items,
            k,
            ind,
        ),
        ws_run(s, pos + arr_pretty_tail(items, k, ind).len() as int, endpos),
        s[endpos] == ']',
    ensures
        parse_arr_items(s, pos) == Some((items.subrange(k, items.len() as int), endpos + 1)),
    decreases items, items.len() - k,
{
    let tail = arr_pretty_tail(items, k, ind);
    let vp = json_pretty_text(items[k], ind);
    let vl = vp.len() as int;
    let rest = arr_pretty_from(items, k + 1, ind);
    let rl = rest.len() as int;
    lemma_region_index(s, pos, tail);
    lemma_spaces_ws(ind);
    lemma_json_pretty_first(items[k], ind);
    let vs = pos + 1 + ind;
    assert(ws_run(s, pos, vs)) by {
        assert forall|x: int| pos <= x < vs implies is_ws(#[trigger] s[x]) by {
            assert(s[x] == tail[x - pos]);
            if x == pos {
                assert(tail[0] == '\n');
            } else {
                assert(tail[x - pos] == spaces(ind)[x - pos - 1]);
            }
        }
    }
    assert(s[vs] == tail[1 + ind as int]);
    assert(tail[1 + ind as int] == vp[0]);
    lemma_skip_ws_run(s, pos, vs);
    assert(skip_ws(s, pos) == vs);
    assert(s.subrange(vs, vs + vl) =~= vp) by {
        assert forall|y: int| 0 <= y < vl implies s[vs + y] == vp[y] by {
            assert(s[vs + y] == tail[1 + ind as int + y]);
        }
    }
    let p = vs + vl;
    if k + 1 < items.len() {
        lemma_arr_pretty_unfold(items, k + 1, ind);
        assert(rest[0] == ',');
        assert(s[p] == tail[1 + ind as int + vl]);
        assert(tail[1 + ind as int + vl] == rest[0]);
        assert(s[p] == ',');
        assert(!is_num_cont(s[p]));
    } else {
        assert(rest =~= Seq::<char>::empty());
        assert(p == pos + tail.len());
        if p == endpos {
            assert(s[p] == ']');
        } else {
            assert(is_ws(s[p]));
        }
        assert(!is_num_cont(s[p]));
    }
    lemma_pretty_value_embed(s, vs, items[k], ind);
    assert(parse_value_at(s, vs) == Some((items[k], p)));
    if k + 1 < items.len() {
        assert(skip_ws(s, p) == p);
        let tail2 = arr_pretty_tail(items, k + 1, ind);
        assert(rest =~= seq![','] + tail2);
        assert(s.subrange(p + 1, p + 1 + tail2.len() as int) =~= tail2) by {
            assert forall|y: int| 0 <= y < tail2.len() implies #[trigger] s.subrange(
                p + 1,
                p + 1 + tail2.len() as int,
            )[y] == tail2[y] by {
                assert(s[p + 1 + y] == tail[1 + ind as int + vl + 1 + y]);
                assert(tail[1 + ind as int + vl + 1 + y] == rest[1 + y]);
                assert(rest[1 + y] == tail2[y]);
            }
        }
        assert(p + 1 + tail2.len() == pos + tail.len());
        lemma_pretty_arr_items_embed(s, p + 1, items, k + 1, ind, endpos);
        assert(seq![items[k]] + items.subrange(k + 1, items.len() as int) =~= items.subrange(
            k,
            items.len() as int,
        ));
        assert(parse_arr_items(s, pos) == Some(
            (items.subrange(k, items.len() as int), endpos + 1),
        ));
    } else {
        lemma_skip_ws_run(s, p, endpos);
        assert(skip_ws(s, p) == endpos);
        assert(seq![items[k]] =~= items.subrange(k, items.len() as int));
        assert(parse_arr_items(s, pos) == Some(
            (items.subrange(k, items.len() as int), endpos + 1),
        ));
    }
}


#[verifier::rlimit(100)]
#[verifier::spinoff_prover]
proof fn lemma_pretty_value_embed_obj(
    s: Seq<char>,
    i: int,
    entries: Seq<(Seq<char>, JsonV)>,
    ind: nat,
)
    requires
        wf_jsonv(JsonV::Obj(entries)),
        0 <= i,
        i + json_pretty_text(JsonV::Obj(entries), ind).len() <= s.len(),
        s.subrange(i, i + json_pretty_text(JsonV::Obj(entries), ind).len() as int)
            == json_pretty_text(JsonV::Obj(entries), ind),
    ensures
        parse_value_at(s, i) == Some(
            (JsonV::Obj(entries), i + json_pretty_text(JsonV::Obj(entries), ind).len()),
        ),
    decreases JsonV::Obj(entries), 0int,
{
    let v = JsonV::Obj(entries);
    let vt = json_pretty_text(v, ind);
    let n = vt.len() as int;
    lemma_region_index(s, i, vt);
    lemma_spaces_ws(ind);
    lemma_wf_entries_forall(entries);
    assert(vt[0] == '{');
    assert(s[i + 0] == '{');
    assert(s[i] == '{');
    if entries.len() == 0 {
        assert(entries =~= Seq::<(Seq<char>, JsonV)>::empty());
        assert(vt[1] == '}');
        assert(s[i + 1] == '}');
        assert(skip_ws(s, i + 1) == i + 1);
        assert(parse_value_at(s, i) == Some((v, i + 2)));
    } else {
        let op = obj_pretty_from(entries, 0, ind + 2);
        let ol = op.len() as int;
        lemma_spaces_ws((ind + 2) as nat);
        lemma_obj_pretty_unfold(entries, 0, ind + 2);
        let tail = obj_pretty_entry(entries[0], ind + 2) + obj_pretty_from(entries, 1, ind + 2);
        assert(op =~= tail);
        assert(vt == seq!['{'] + op + seq!['\n'] + spaces(ind) + seq!['}']);
        let endpos = i + 1 + ol + 1 + ind;
        assert(s.subrange(i + 1, i + 1 + ol) =~= op) by {
            assert forall|y: int| 0 <= y < ol implies s[i + 1 + y] == op[y] by {
                assert(s[i + 1 + y] == vt[1 + y]);
            }
        }
        assert(ws_run(s, i + 1 + ol, endpos)) by {
            assert forall|x: int| i + 1 + ol <= x < endpos implies is_ws(#[trigger] s[x]) by {
                assert(s[x] == vt[x - i]);
                if x == i + 1 + ol {
                    assert(vt[x - i] == '\n');
                } else {
                    assert(vt[x - i] == spaces(ind)[x - (i + 2 + ol)]);
                }
            }
        }
        assert(s[endpos] == vt[endpos - i]);
        assert(vt[endpos - i] == '}');
        assert(endpos + 1 == i + n);
        lemma_pretty_obj_items_embed(s, i + 1, entries, 0, (ind + 2) as nat, endpos);
        assert(entries.subrange(0, entries.len() as int) =~= entries);
        // The parser's own first step on this layout: whitespace runs to
        // the opening quote of the first key.
        let ks = i + 2 + ind + 2;
        assert(ws_run(s, i + 1, ks)) by {
            lemma_spaces_ws((ind + 2) as nat);
            assert forall|x: int| i + 1 <= x < ks implies is_ws(#[trigger] s[x]) by {
                assert(s[x] == vt[x - i]);
                assert(vt[x - i] == op[x - i - 1]);
                if x == i + 1 {
                    assert(op[0] == '\n');
                } else {
                    assert(op[x - i - 1] == spaces((ind + 2) as nat)[x - i - 2]);
                }
            }
        }
        assert(s[ks] == vt[ks - i]);
        assert(vt[ks - i] == '"') by {
            assert(ks - i - 1 == 1 + (ind + 2) as int);
            assert(obj_pretty_entry(entries[0], ind + 2)[1 + (ind + 2) as int] == '"');
            assert(tail[ks - i - 1] == obj_pretty_entry(entries[0], ind + 2)[ks - i - 1]);
            assert(op[ks - i - 1] == tail[ks - i - 1]);
            assert(vt[ks - i] == op[ks - i - 1]);
        }
        lemma_skip_ws_run(s, i + 1, ks);
        assert(skip_ws(s, i + 1) == ks);
        assert(parse_value_at(s, i) == Some((v, endpos + 1)));
    }
}

/// One pretty object entry parses as its key and value: the line break and
/// indent, the quoted key, the colon, one space, then the value.
#[verifier::rlimit(100)]
#[verifier::spinoff_prover]
proof fn lemma_pretty_obj_entry_parse(
    s: Seq<char>,
    pos: int,
    key: Seq<char>,
    val: JsonV,
    ind: nat,
)
    requires
        wf_jsonv(val),
        0 <= pos,
        pos + obj_pretty_entry((key, val), ind).len() < s.len(),
        s.subrange(pos, pos + obj_pretty_entry((key, val), ind).len() as int) == obj_pretty_entry(
            (key, val),
            ind,
        ),
        !is_num_cont(s[pos + obj_pretty_entry((key, val), ind).len()]),
    ensures
        skip_ws(s, pos) == pos + 1 + ind,
        s[pos + 1 + ind] == '"',
        parse_string_body(s, pos + 2 + ind) == Some(
            (key, pos + ind + str_text_from(key, 0).len() + 3),
        ),
        s[pos + ind + str_text_from(key, 0).len() + 3] == ':',
        skip_ws(s, pos + ind + str_text_from(key, 0).len() + 4) == pos + ind + str_text_from(
            key,
            0,
        ).len() + 5,
        parse_value_at(s, pos + ind + str_text_from(key, 0).len() + 5) == Some(
            (val, pos + obj_pretty_entry((key, val), ind).len()),
        ),
    decreases val, 2int,
{
    let oe = obj_pretty_entry((key, val), ind);
    let kt = str_text_from(key, 0);
    let kl = kt.len() as int;
    let vp = json_pretty_text(val, ind);
    let vl = vp.len() as int;
    lemma_region_index(s, pos, oe);
    lemma_spaces_ws(ind);
    lemma_json_pretty_first(val, ind);
    assert(oe == seq!['\n'] + spaces(ind) + seq!['"'] + kt + seq!['"', ':', ' '] + vp);
    let ks = pos + 1 + ind;
    assert(ws_run(s, pos, ks)) by {
        assert forall|x: int| pos <= x < ks implies is_ws(#[trigger] s[x]) by {
            assert(s[x] == oe[x - pos]);
            if x == pos {
                assert(oe[0] == '\n');
            } else {
                assert(oe[x - pos] == spaces(ind)[x - pos - 1]);
            }
        }
    }
    assert(s[ks] == oe[1 + ind as int]);
    assert(oe[1 + ind as int] == '"');
    lemma_skip_ws_run(s, pos, ks);
    assert(s.subrange(ks + 1, ks + 1 + kl) =~= kt) by {
        assert forall|y: int| 0 <= y < kl implies s[ks + 1 + y] == kt[y] by {
            assert(s[ks + 1 + y] == oe[2 + ind as int + y]);
        }
    }
    assert(s[ks + 1 + kl] == oe[2 + ind as int + kl]);
    assert(oe[2 + ind as int + kl] == '"');
    lemma_parse_string_embed(key, 0, s, ks + 1);
    assert(key.subrange(0, key.len() as int) =~= key);
    let cp = pos + ind + kl + 3;
    assert(parse_string_body(s, ks + 1) == Some((key, cp)));
    assert(s[cp] == oe[3 + ind as int + kl]);
    assert(oe[3 + ind as int + kl] == ':');
    assert(s[cp + 1] == oe[4 + ind as int + kl]);
    assert(oe[4 + ind as int + kl] == ' ');
    let vs = cp + 2;
    assert(s[vs] == oe[5 + ind as int + kl]);
    assert(oe[5 + ind as int + kl] == vp[0]);
    assert(ws_run(s, cp + 1, vs));
    lemma_skip_ws_run(s, cp + 1, vs);
    assert(s.subrange(vs, vs + vl) =~= vp) by {
        assert forall|y: int| 0 <= y < vl implies s[vs + y] == vp[y] by {
            assert(s[vs + y] == oe[5 + ind as int + kl + y]);
        }
    }
    assert(vs + vl == pos + oe.len());
    lemma_pretty_value_embed(s, vs, val, ind);
}

/// A region holding a concatenation splits into regions for its parts.
proof fn lemma_concat_region(s: Seq<char>, pos: int, a: Seq<char>, b: Seq<char>)
    requires
        0 <= pos,
        pos + a.len() + b.len() <= s.len(),
        s.subrange(pos, pos + a.len() + b.len() as int) == a + b,
    ensures
        s.subrange(pos, pos + a.len() as int) == a,
        s.subrange(pos + a.len() as int, pos + a.len() + b.len() as int) == b,
{
    lemma_region_index(s, pos, a + b);
    assert(s.subrange(pos, pos + a.len() as int) =~= a) by {
        assert forall|x: int| 0 <= x < a.len() implies s[pos + x] == a[x] by {
            assert(s[pos + x] == (a + b)[x]);
        }
    }
    assert(s.subrange(pos + a.len() as int, pos + a.len() + b.len() as int) =~= b) by {
        assert forall|y: int| 0 <= y < b.len() implies s[pos + a.len() + y] == b[y] by {
            assert(s[pos + a.len() + y] == (a + b)[a.len() + y]);
        }
    }
}

/// Every parser step across one pretty entry, packaged for the walk over
/// an object's entries.
#[verifier::rlimit(100)]
proof fn lemma_pretty_entry_steps(
    s: Seq<char>,
    pos: int,
    entries: Seq<(Seq<char>, JsonV)>,
    k: int,
    ind: nat,
)
    requires
        0 <= k < entries.len(),
        wf_jsonv(entries[k].1),
        0 <= pos,
        pos + obj_pretty_entry(entries[k], ind).len() < s.len(),
        s.subrange(pos, pos + obj_pretty_entry(entries[k], ind).len() as int) == obj_pretty_entry(
            entries[k],
            ind,
        ),
        !is_num_cont(s[pos + obj_pretty_entry(entries[k], ind).len()]),
    ensures
        skip_ws(s, pos) == pos + 1 + ind,
        pos <= pos + 1 + ind <= s.len(),
        s[pos + 1 + ind] == '"',
        parse_string_body(s, pos + 2 + ind) == Some(
            (entries[k].0, pos + ind + str_text_from(entries[k].0, 0).len() + 3),
        ),
        pos + 1 + ind < pos + ind + str_text_from(entries[k].0, 0).len() + 3 <= s.len(),
        s[pos + ind + str_text_from(entries[k].0, 0).len() + 3] == ':',
        skip_ws(s, pos + ind + str_text_from(entries[k].0, 0).len() + 3) == pos + ind
            + str_text_from(entries[k].0, 0).len() + 3,
        skip_ws(s, pos + ind + str_text_from(entries[k].0, 0).len() + 4) == pos + ind
            + str_text_from(entries[k].0, 0).len() + 5,
        pos + ind + str_text_from(entries[k].0, 0).len() + 4 <= pos + ind + str_text_from(
            entries[k].0,
            0,
        ).len() + 5 <= s.len(),
        parse_value_at(s, pos + ind + str_text_from(entries[k].0, 0).len() + 5) == Some(
            (entries[k].1, pos + obj_pretty_entry(entries[k], ind).len()),
        ),
        pos + ind + str_text_from(entries[k].0, 0).len() + 5 < pos + obj_pretty_entry(
            entries[k],
            ind,
        ).len() <= s.len(),
    decreases entries[k].1, 3int,
{
    let key = entries[k].0;
    let val = entries[k].1;
    let kl = str_text_from(key, 0).len() as int;
    assert(entries[k] == (key, val));
    lemma_spaces_ws(ind);
    lemma_json_pretty_first(val, ind);
    lemma_pretty_obj_entry_parse(s, pos, key, val, ind);
    let cp = pos + ind as int + kl + 3;
    assert(skip_ws(s, cp) == cp) by {
        assert(s[cp] == ':');
    }
}

#[verifier::rlimit(100)]
proof fn lemma_pretty_obj_items_embed(
    s: Seq<char>,
    pos: int,
    entries: Seq<(Seq<char>, JsonV)>,
    k: int,
    ind: nat,
    endpos: int,
)
    requires
        forall|x: int| 0 <= x < entries.len() ==> wf_jsonv(#[trigger] entries[x].1),
        0 <= k < entries.len(),
        0 <= pos,
        pos + (obj_pretty_entry(entries[k], ind) + obj_pretty_from(entries, k + 1, ind)).len()
            <= endpos < s.len(),
        s.subrange(
            pos,
            pos + (obj_pretty_entry(entries[k], ind) + obj_pretty_from(entries, k + 1, ind)).len()
                as int,
        ) == obj_pretty_entry(entries[k], ind) + obj_pretty_from(entries, k + 1, ind),
        ws_run(
            s,
            pos + (obj_pretty_entry(entries[k], ind) + obj_pretty_from(entries, k + 1, ind)).len()
                as int,
            endpos,
        ),
        s[endpos] == '}',
    ensures
        parse_obj_items(s, pos) == Some((entries.subrange(k, entries.len() as int), endpos + 1)),
    decreases entries, 2 * (entries.len() - k) + 1,
{
    if k + 1 < entries.len() {
        lemma_pretty_obj_items_step(s, pos, entries, k, ind, endpos);
    } else {
        lemma_pretty_obj_items_last(s, pos, entries, k, ind, endpos);
    }
}

#[verifier::rlimit(100)]
#[verifier::spinoff_prover]
proof fn lemma_pretty_obj_items_last(
    s: Seq<char>,
    pos: int,
    entries: Seq<(Seq<char>, JsonV)>,
    k: int,
    ind: nat,
    endpos: int,
)
    requires
        forall|x: int| 0 <= x < entries.len() ==> wf_jsonv(#[trigger] entries[x].1),
        0 <= k < entries.len(),
        0 <= pos,
        pos + (obj_pretty_entry(entries[k], ind) + obj_pretty_from(entries, k + 1, ind)).len()
            <= endpos < s.len(),
        s.subrange(
            pos,
            pos + (obj_pretty_entry(entries[k], ind) + obj_pretty_from(entries, k + 1, ind)).len()
                as int,
        ) == obj_pretty_entry(entries[k], ind) + obj_pretty_from(entries, k + 1, ind),
        ws_run(
            s,
            pos + (obj_pretty_entry(entries[k], ind) + obj_pretty_from(entries, k + 1, ind)).len()
                as int,
            endpos,
        ),
        s[endpos] == '}',
        k + 1 == entries.len(),
    ensures
        parse_obj_items(s, pos) == Some((entries.subrange(k, entries.len() as int), endpos + 1)),
    decreases entries, 2 * (entries.len() - k),
{
    let key = entries[k].0;
    let val = entries[k].1;
    let kl = str_text_from(key, 0).len() as int;
    let oe = obj_pretty_entry(entries[k], ind);
    let rest = obj_pretty_from(entries, k + 1, ind);
    let tail = oe + rest;
    lemma_spaces_ws(ind);
    lemma_region_index(s, pos, tail);
    assert(s.subrange(pos, pos + oe.len() as int) =~= oe) by {
        assert forall|x: int| 0 <= x < oe.len() implies s[pos + x] == oe[x] by {
            assert(s[pos + x] == tail[x]);
        }
    }
    let p2 = pos + oe.len();
    assert(rest =~= Seq::<char>::empty());
    assert(p2 == pos + tail.len());
    if p2 == endpos {
        assert(s[p2] == '}');
    } else {
        assert(is_ws(s[p2]));
    }
    assert(!is_num_cont(s[p2]));
    assert(entries[k] == (key, val));
    lemma_pretty_entry_steps(s, pos, entries, k, ind);
    lemma_skip_ws_run(s, p2, endpos);
    assert(skip_ws(s, p2) == endpos);
    assert(seq![(key, val)] =~= entries.subrange(k, entries.len() as int));
    assert(parse_obj_items(s, pos) == Some(
        (entries.subrange(k, entries.len() as int), endpos + 1),
    ));
}

#[verifier::rlimit(100)]
#[verifier::spinoff_prover]
proof fn lemma_pretty_obj_items_step(
    s: Seq<char>,
    pos: int,
    entries: Seq<(Seq<char>, JsonV)>,
    k: int,
    ind: nat,
    endpos: int,
)
    requires
        forall|x: int| 0 <= x < entries.len() ==> wf_jsonv(#[trigger] entries[x].1),
        0 <= k < entries.len(),
        0 <= pos,
        pos + (obj_pretty_entry(entries[k], ind) + obj_pretty_from(entries, k + 1, ind)).len()
            <= endpos < s.len(),
        s.subrange(
            pos,
            pos + (obj_pretty_entry(entries[k], ind) + obj_pretty_from(entries, k + 1, ind)).len()
                as int,
        ) == obj_pretty_entry(entries[k], ind) + obj_pretty_from(entries, k + 1, ind),
        ws_run(
            s,
            pos + (obj_pretty_entry(entries[k], ind) + obj_pretty_from(entries, k + 1, ind)).len()
                as int,
            endpos,
        ),
        s[endpos] == '}',
        k + 1 < entries.len(),
    ensures
        parse_obj_items(s, pos) == Some((entries.subrange(k, entries.len() as int), endpos + 1)),
    decreases entries, 2 * (entries.len() - k),
{
    let key = entries[k].0;
    let val = entries[k].1;
    let oe = obj_pretty_entry(entries[k], ind);
    let rest = obj_pretty_from(entries, k + 1, ind);
    let tail = oe + rest;
    let tail2 = obj_pretty_entry(entries[k + 1], ind) + obj_pretty_from(entries, k + 2, ind);
    lemma_obj_pretty_unfold(entries, k + 1, ind);
    assert(rest =~= seq![','] + tail2);
    lemma_concat_region(s, pos, oe, rest);
    let p2 = pos + oe.len();
    lemma_concat_region(s, p2, seq![','], tail2);
    assert(s[p2] == ',') by {
        assert(s.subrange(p2, p2 + 1)[0] == s[p2]);
    }
    assert(!is_num_cont(s[p2]));
    assert(entries[k] == (key, val));
    lemma_pretty_entry_steps(s, pos, entries, k, ind);
    assert(skip_ws(s, p2) == p2);
    assert(s.subrange(p2 + 1, p2 + 1 + tail2.len() as int) == tail2);
    assert(p2 + 1 + tail2.len() == pos + tail.len());
    lemma_pretty_obj_items_embed(s, p2 + 1, entries, k + 1, ind, endpos);
    assert(seq![(key, val)] + entries.subrange(k + 1, entries.len() as int) =~= entries.subrange(
        k,
        entries.len() as int,
    ));
    assert(parse_obj_items(s, pos) == Some(
        (entries.subrange(k, entries.len() as int), endpos + 1),
    ));
}

/// Round trip for the pretty writing: the artifact text of any well-formed
/// value reads back as exactly that value.
pub proof fn lemma_json_pretty_round_trip(v: JsonV)
    requires
        wf_jsonv(v),
    ensures
        parse_json_text(json_pretty_text(v, 0)) == Some(v),
{
    let s = json_pretty_text(v, 0);
    lemma_json_pretty_first(v, 0);
    assert(skip_ws(s, 0) == 0);
    assert(s.subrange(0, s.len() as int) =~= s);
    lemma_pretty_value_embed(s, 0, v, 0);
    assert(skip_ws(s, s.len() as int) == s.len());
}

} // verus!
