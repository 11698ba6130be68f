//! The JSON value model and its writer.
//!
//! Numbers are carried as their exact wire text, so a parsed document can be
//! written back without loss and no floating point is involved. The
//! mathematical model of a value is `JsonV`, where strings are character
//! sequences; `json_text` is the compact writing used for wire payloads.

use vstd::prelude::*;

use crate::numtext::hex_char;
use crate::numtext::hex_char_exec;

verus! {

/// One JSON value. Object entries keep their wire order.
#[derive(Debug, PartialEq)]
pub enum Json {
    Null,
    Bool(bool),
    /// The exact text of a JSON number, as written on the wire.
    Num(String),
    Str(String),
    Arr(Vec<Json>),
    Obj(Vec<(String, Json)>),
}

/// The mathematical model of a JSON value.
pub enum JsonV {
    Null,
    Bool(bool),
    Num(Seq<char>),
    Str(Seq<char>),
    Arr(Seq<JsonV>),
    Obj(Seq<(Seq<char>, JsonV)>),
}

/// The model of a JSON value: strings become character sequences.
pub open spec fn jv(j: Json) -> JsonV
    decreases j, 0int,
{
    match j {
        Json::Null => JsonV::Null,
        Json::Bool(b) => JsonV::Bool(b),
        Json::Num(t) => JsonV::Num(t@),
        Json::Str(s) => JsonV::Str(s@),
        Json::Arr(items) => JsonV::Arr(jv_list(items@)),
        Json::Obj(entries) => JsonV::Obj(jv_entries(entries@)),
    }
}

/// The models of a sequence of JSON values, element by element.
pub open spec fn jv_list(items: Seq<Json>) -> Seq<JsonV>
    decreases items, 1int,
{
    if items.len() == 0 {
        Seq::<JsonV>::empty()
    } else {
        jv_list(items.drop_last()).push(jv(items.last()))
    }
}

/// The models of a sequence of object entries, element by element.
pub open spec fn jv_entries(entries: Seq<(String, Json)>) -> Seq<(Seq<char>, JsonV)>
    decreases entries, 1int,
{
    if entries.len() == 0 {
        Seq::<(Seq<char>, JsonV)>::empty()
    } else {
        jv_entries(entries.drop_last()).push((entries.last().0@, jv(entries.last().1)))
    }
}

impl View for Json {
    type V = JsonV;

    open spec fn view(&self) -> JsonV {
        jv(*self)
    }
}

pub proof fn lemma_jv_list_index(items: Seq<Json>)
    ensures
        jv_list(items).len() == items.len(),
        forall|k: int| 0 <= k < items.len() ==> #[trigger] jv_list(items)[k] == jv(items[k]),
    decreases items.len(),
{
    if items.len() > 0 {
        lemma_jv_list_index(items.drop_last());
    }
}

pub proof fn lemma_jv_entries_index(entries: Seq<(String, Json)>)
    ensures
        jv_entries(entries).len() == entries.len(),
        forall|k: int| 0 <= k < entries.len() ==> #[trigger] jv_entries(entries)[k] == (
        entries[k].0@,
        jv(entries[k].1),
        ),
    decreases entries.len(),
{
    if entries.len() > 0 {
        lemma_jv_entries_index(entries.drop_last());
    }
}

/// Whether a character is JSON whitespace.
pub open spec fn is_ws(c: char) -> bool {
    c == ' ' || c == '\t' || c == '\n' || c == '\r'
}

/// How one character of a string is written: quotes and backslashes get a
/// backslash escape, control characters a `\u00..` escape, all else stands
/// as it is.
pub open spec fn escape_char(c: char) -> Seq<char> {
    if c == '"' {
        seq!['\\', '"']
    } else if c == '\\' {
        seq!['\\', '\\']
    } else if (c as u32) < 32 {
        seq!['\\', 'u', '0', '0', hex_char((c as u32) as int / 16), hex_char((c as u32) as int % 16)]
    } else {
        seq![c]
    }
}

/// The writing of a string body from position `i` on, without the quotes.
pub open spec fn str_text_from(s: Seq<char>, i: int) -> Seq<char>
    decreases s.len() - i,
{
    if i < 0 || i >= s.len() {
        Seq::<char>::empty()
    } else {
        escape_char(s[i]) + str_text_from(s, i + 1)
    }
}

/// The compact writing of a JSON value: no whitespace between tokens.
pub open spec fn json_text(j: JsonV) -> Seq<char>
    decreases j, 0int,
{
    match j {
        JsonV::Null => seq!['n', 'u', 'l', 'l'],
        JsonV::Bool(b) => if b {
            seq!['t', 'r', 'u', 'e']
        } else {
            seq!['f', 'a', 'l', 's', 'e']
        },
        JsonV::Num(t) => t,
        JsonV::Str(s) => seq!['"'] + str_text_from(s, 0) + seq!['"'],
        JsonV::Arr(items) => seq!['['] + arr_text_from(items, 0) + seq![']'],
        JsonV::Obj(entries) => seq!['{'] + obj_text_from(entries, 0) + seq!['}'],
    }
}

/// The writing of array elements from index `i` on, with their separating
/// commas.
pub open spec fn arr_text_from(items: Seq<JsonV>, i: int) -> Seq<char>
    decreases items, items.len() - i,
{
    if i < 0 || i >= items.len() {
        Seq::<char>::empty()
    } else {
        (if i > 0 {
            seq![',']
        } else {
            Seq::<char>::empty()
        }) + json_text(items[i]) + arr_text_from(items, i + 1)
    }
}

/// The writing of object entries from index `i` on: quoted key, colon,
/// value, with their separating commas.
pub open spec fn obj_text_from(entries: Seq<(Seq<char>, JsonV)>, i: int) -> Seq<char>
    decreases entries, entries.len() - i,
{
    if i < 0 || i >= entries.len() {
        Seq::<char>::empty()
    } else {
        (if i > 0 {
            seq![',']
        } else {
            Seq::<char>::empty()
        }) + seq!['"'] + str_text_from(entries[i].0, 0) + seq!['"', ':'] + json_text(entries[i].1)
            + obj_text_from(entries, i + 1)
    }
}

/// Turns a character sequence into a `String`.
/// Relies on `String`'s `FromIterator` impl: collecting characters
/// concatenates them in order.
#[verifier::external_body]
pub(crate) fn chars_to_string(v: &Vec<char>) -> (r: String)
    ensures
        r@ == v@,
{
    v.iter().collect()
}

/// Builds a `Vec` of the characters of `s`, in order.
pub fn str_to_chars(s: &str) -> (r: Vec<char>)
    ensures
        r@ == s@,
{
    let n = s.unicode_len();
    let mut r: Vec<char> = Vec::new();
    let mut i: usize = 0;
    while i < n
        invariant
            n == s@.len(),
            i <= n,
            r@ == s@.subrange(0, i as int),
        decreases n - i,
    {
        r.push(s.get_char(i));
        i = i + 1;
        proof {
            assert(r@ =~= s@.subrange(0, i as int));
        }
    }
    proof {
        assert(r@ =~= s@);
    }
    r
}

fn write_str_from(s: &Vec<char>, i: usize, out: &mut Vec<char>)
    requires
        i <= s@.len(),
    ensures
        final(out)@ == old(out)@ + str_text_from(s@, i as int),
    decreases s@.len() - i,
{
    if i < s.len() {
        let c = s[i];
        if c == '"' {
            out.push('\\');
            out.push('"');
        } else if c == '\\' {
            out.push('\\');
            out.push('\\');
        } else if (c as u32) < 32 {
            out.push('\\');
            out.push('u');
            out.push('0');
            out.push('0');
            out.push(hex_char_exec((c as u32) / 16));
            out.push(hex_char_exec((c as u32) % 16));
        } else {
            out.push(c);
        }
        proof {
            assert(out@ =~= old(out)@ + escape_char(c));
        }
        write_str_from(s, i + 1, out);
        proof {
            assert(out@ =~= old(out)@ + str_text_from(s@, i as int));
        }
    } else {
        proof {
            assert(out@ =~= old(out)@ + str_text_from(s@, i as int));
        }
    }
}

/// Appends the compact writing of `j` to `out`.
pub fn write_json(j: &Json, out: &mut Vec<char>)
    ensures
        final(out)@ == old(out)@ + json_text(j@),
    decreases *j, 0int,
{
    match j {
        Json::Null => {
            out.push('n');
            out.push('u');
            out.push('l');
            out.push('l');
        },
        Json::Bool(b) => {
            if *b {
                out.push('t');
                out.push('r');
                out.push('u');
                out.push('e');
            } else {
                out.push('f');
                out.push('a');
                out.push('l');
                out.push('s');
                out.push('e');
            }
        },
        Json::Num(t) => {
            let cs = str_to_chars(t.as_str());
            let mut k: usize = 0;
            while k < cs.len()
                invariant
                    cs@ == t@,
                    k <= cs@.len(),
                    out@ == old(out)@ + t@.subrange(0, k as int),
                decreases cs@.len() - k,
            {
                out.push(cs[k]);
                k = k + 1;
                proof {
                    assert(old(out)@ + t@.subrange(0, k as int) =~= out@);
                }
            }
            proof {
                assert(t@.subrange(0, t@.len() as int) =~= t@);
            }
        },
        Json::Str(s) => {
            out.push('"');
            let cs = str_to_chars(s.as_str());
            write_str_from(&cs, 0, out);
            out.push('"');
        },
        Json::Arr(items) => {
            out.push('[');
            write_arr_from(items, 0, out);
            out.push(']');
            proof {
                lemma_jv_list_index(items@);
                assert(out@ =~= old(out)@ + json_text(j@));
            }
        },
        Json::Obj(entries) => {
            out.push('{');
            write_obj_from(entries, 0, out);
            out.push('}');
            proof {
                lemma_jv_entries_index(entries@);
                assert(out@ =~= old(out)@ + json_text(j@));
            }
        },
    }
}

fn write_arr_from(items: &Vec<Json>, i: usize, out: &mut Vec<char>)
    requires
        i <= items@.len(),
    ensures
        final(out)@ == old(out)@ + arr_text_from(jv_list(items@), i as int),
    decreases items@, items@.len() - i,
{
    proof {
        lemma_jv_list_index(items@);
    }
    if i < items.len() {
        if i > 0 {
            out.push(',');
        }
        write_json(&items[i], out);
        write_arr_from(items, i + 1, out);
        proof {
            assert(out@ =~= old(out)@ + arr_text_from(jv_list(items@), i as int));
        }
    } else {
        proof {
            assert(out@ =~= old(out)@ + arr_text_from(jv_list(items@), i as int));
        }
    }
}

fn write_obj_from(entries: &Vec<(String, Json)>, i: usize, out: &mut Vec<char>)
    requires
        i <= entries@.len(),
    ensures
        final(out)@ == old(out)@ + obj_text_from(jv_entries(entries@), i as int),
    decreases entries@, entries@.len() - i,
{
    proof {
        lemma_jv_entries_index(entries@);
    }
    if i < entries.len() {
        if i > 0 {
            out.push(',');
        }
        out.push('"');
        let cs = str_to_chars(entries[i].0.as_str());
        write_str_from(&cs, 0, out);
        out.push('"');
        out.push(':');
        write_json(&entries[i].1, out);
        write_obj_from(entries, i + 1, out);
        proof {
            assert(out@ =~= old(out)@ + obj_text_from(jv_entries(entries@), i as int));
        }
    } else {
        proof {
            assert(out@ =~= old(out)@ + obj_text_from(jv_entries(entries@), i as int));
        }
    }
}

/// The compact wire text of a JSON value.
pub fn json_to_string(j: &Json) -> (r: String)
    ensures
        r@ == json_text(j@),
{
    let mut out: Vec<char> = Vec::new();
    write_json(j, &mut out);
    chars_to_string(&out)
}


/// A run of spaces of the given width.
pub open spec fn spaces(n: nat) -> Seq<char>
    decreases n,
{
    if n == 0 {
        Seq::<char>::empty()
    } else {
        spaces((n - 1) as nat) + seq![' ']
    }
}

proof fn lemma_all_spaces(s: Seq<char>)
    requires
        forall|k: int| 0 <= k < s.len() ==> s[k] == ' ',
    ensures
        s == spaces(s.len()),
    decreases s.len(),
{
    if s.len() > 0 {
        lemma_all_spaces(s.drop_last());
        assert(s =~= s.drop_last() + seq![' ']);
    }
}

/// The pretty writing of a JSON value at a given indent: what the artifact
/// files hold. Two spaces per level, one entry per line, a space after each
/// colon.
pub open spec fn json_pretty_text(j: JsonV, ind: nat) -> Seq<char>
    decreases j, 0int,
{
    match j {
        JsonV::Arr(items) => {
            if items.len() == 0 {
                seq!['[', ']']
            } else {
                seq!['['] + arr_pretty_from(items, 0, ind + 2) + seq!['\n'] + spaces(ind) + seq![
                    ']',
                ]
            }
        },
        JsonV::Obj(entries) => {
            if entries.len() == 0 {
                seq!['{', '}']
            } else {
                seq!['{'] + obj_pretty_from(entries, 0, ind + 2) + seq!['\n'] + spaces(ind) + seq![
                    '}',
                ]
            }
        },
        _ => json_text(j),
    }
}

/// The pretty writing of array elements from index `i` on, each on its own
/// line.
pub open spec fn arr_pretty_from(items: Seq<JsonV>, i: int, ind: nat) -> Seq<char>
    decreases items, items.len() - i,
{
    if i < 0 || i >= items.len() {
        Seq::<char>::empty()
    } else {
        (if i > 0 {
            seq![',']
        } else {
            Seq::<char>::empty()
        }) + seq!['\n'] + spaces(ind) + json_pretty_text(items[i], ind) + arr_pretty_from(
            items,
            i + 1,
            ind,
        )
    }
}

/// The pretty writing of object entries from index `i` on, each on its own
/// line.
pub open spec fn obj_pretty_from(entries: Seq<(Seq<char>, JsonV)>, i: int, ind: nat) -> Seq<char>
    decreases entries, entries.len() - i,
{
    if i < 0 || i >= entries.len() {
        Seq::<char>::empty()
    } else {
        (if i > 0 {
            seq![',']
        } else {
            Seq::<char>::empty()
        }) + seq!['\n'] + spaces(ind) + seq!['"'] + str_text_from(entries[i].0, 0) + seq![
            '"',
            ':',
            ' ',
        ] + json_pretty_text(entries[i].1, ind) + obj_pretty_from(entries, i + 1, ind)
    }
}

fn write_spaces(indent: &Vec<char>, out: &mut Vec<char>)
    ensures
        final(out)@ == old(out)@ + indent@,
{
    let mut k: usize = 0;
    while k < indent.len()
        invariant
            k <= indent@.len(),
            out@ == old(out)@ + indent@.subrange(0, k as int),
        decreases indent@.len() - k,
    {
        out.push(indent[k]);
        k = k + 1;
        proof {
            assert(out@ =~= old(out)@ + indent@.subrange(0, k as int));
        }
    }
    proof {
        assert(out@ =~= old(out)@ + indent@);
    }
}

/// Appends the pretty writing of `j` to `out`; `indent` holds the current
/// run of leading spaces.
pub fn write_json_pretty(j: &Json, indent: &mut Vec<char>, out: &mut Vec<char>)
    requires
        forall|k: int| 0 <= k < old(indent)@.len() ==> old(indent)@[k] == ' ',
    ensures
        final(out)@ == old(out)@ + json_pretty_text(j@, old(indent)@.len()),
        final(indent)@ == old(indent)@,
    decreases *j, 0int,
{
    proof {
        lemma_all_spaces(indent@);
    }
    match j {
        Json::Arr(items) => {
            if items.len() == 0 {
                out.push('[');
                out.push(']');
                proof {
                    lemma_jv_list_index(items@);
                    assert(out@ =~= old(out)@ + json_pretty_text(j@, old(indent)@.len()));
                }
            } else {
                out.push('[');
                indent.push(' ');
                indent.push(' ');
                write_arr_pretty_from(items, 0, indent, out);
                indent.pop();
                indent.pop();
                out.push('\n');
                write_spaces(indent, out);
                out.push(']');
                proof {
                    lemma_jv_list_index(items@);
                    assert(indent@ =~= old(indent)@);
                    assert(out@ =~= old(out)@ + json_pretty_text(j@, old(indent)@.len()));
                }
            }
        },
        Json::Obj(entries) => {
            if entries.len() == 0 {
                out.push('{');
                out.push('}');
                proof {
                    lemma_jv_entries_index(entries@);
                    assert(out@ =~= old(out)@ + json_pretty_text(j@, old(indent)@.len()));
                }
            } else {
                out.push('{');
                indent.push(' ');
                indent.push(' ');
                write_obj_pretty_from(entries, 0, indent, out);
                indent.pop();
                indent.pop();
                out.push('\n');
                write_spaces(indent, out);
                out.push('}');
                proof {
                    lemma_jv_entries_index(entries@);
                    assert(indent@ =~= old(indent)@);
                    assert(out@ =~= old(out)@ + json_pretty_text(j@, old(indent)@.len()));
                }
            }
        },
        _ => {
            write_json(j, out);
            proof {
                assert(json_pretty_text(j@, old(indent)@.len()) == json_text(j@));
            }
        },
    }
}

fn write_arr_pretty_from(items: &Vec<Json>, i: usize, indent: &mut Vec<char>, out: &mut Vec<char>)
    requires
        i <= items@.len(),
        forall|k: int| 0 <= k < old(indent)@.len() ==> old(indent)@[k] == ' ',
    ensures
        final(out)@ == old(out)@ + arr_pretty_from(jv_list(items@), i as int, old(indent)@.len()),
        final(indent)@ == old(indent)@,
    decreases items@, items@.len() - i,
{
    proof {
        lemma_jv_list_index(items@);
        lemma_all_spaces(indent@);
    }
    if i < items.len() {
        if i > 0 {
            out.push(',');
        }
        out.push('\n');
        write_spaces(indent, out);
        write_json_pretty(&items[i], indent, out);
        write_arr_pretty_from(items, i + 1, indent, out);
        proof {
            assert(out@ =~= old(out)@ + arr_pretty_from(
                jv_list(items@),
                i as int,
                old(indent)@.len(),
            ));
        }
    } else {
        proof {
            assert(out@ =~= old(out)@ + arr_pretty_from(
                jv_list(items@),
                i as int,
                old(indent)@.len(),
            ));
        }
    }
}

#[verifier::rlimit(100)]
fn write_obj_pretty_from(
    entries: &Vec<(String, Json)>,
    i: usize,
    indent: &mut Vec<char>,
    out: &mut Vec<char>,
)
    requires
        i <= entries@.len(),
        forall|k: int| 0 <= k < old(indent)@.len() ==> old(indent)@[k] == ' ',
    ensures
        final(out)@ == old(out)@ + obj_pretty_from(
            jv_entries(entries@),
            i as int,
            old(indent)@.len(),
        ),
        final(indent)@ == old(indent)@,
    decreases entries@, entries@.len() - i,
{
    proof {
        lemma_jv_entries_index(entries@);
        lemma_all_spaces(indent@);
    }
    if i < entries.len() {
        if i > 0 {
            out.push(',');
        }
        out.push('\n');
        write_spaces(indent, out);
        out.push('"');
        let cs = str_to_chars(entries[i].0.as_str());
        write_str_from(&cs, 0, out);
        out.push('"');
        out.push(':');
        out.push(' ');
        write_json_pretty(&entries[i].1, indent, out);
        write_obj_pretty_from(entries, i + 1, indent, out);
        proof {
            assert(out@ =~= old(out)@ + obj_pretty_from(
                jv_entries(entries@),
                i as int,
                old(indent)@.len(),
            ));
        }
    } else {
        proof {
            assert(out@ =~= old(out)@ + obj_pretty_from(
                jv_entries(entries@),
                i as int,
                old(indent)@.len(),
            ));
        }
    }
}

/// The pretty text of a JSON value, as the artifact files hold it.
pub fn json_to_pretty_string(j: &Json) -> (r: String)
    ensures
        r@ == json_pretty_text(j@, 0),
{
    let mut out: Vec<char> = Vec::new();
    let mut indent: Vec<char> = Vec::new();
    write_json_pretty(j, &mut indent, &mut out);
    chars_to_string(&out)
}

} // verus!
