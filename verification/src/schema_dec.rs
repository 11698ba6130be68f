//! Reading schema values out of parsed JSON, with the same acceptance rules
//! the wire contract states: every named field must be present exactly once
//! and well-typed, unknown fields are ignored, optional fields may be
//! absent or null, and the deliverable's populated variant must agree with
//! its tag.

use vstd::prelude::*;

use crate::json::{jv, jv_entries, jv_list, lemma_jv_entries_index, lemma_jv_list_index, Json, JsonV};
use crate::json_parse::{is_number_text, wf_jsonv, wf_jv_entries, wf_jv_list};
use crate::numtext::{dec_val, digit_val, is_digit};
use crate::schema::{
    CheckResult, CheckResultV, CodeArtifact, CodeArtifactV, Deliverable, DeliverableType,
    DeliverableV, Evidence, EvidenceV, ModelUsed, ModelUsedV, Severity, SolutionV, SolutionV1,
    Usage, ValidationV, ValidationV1, Verdict,
};
use crate::strutil::str_eq;

verus! {

/// How many entries of an object carry the given key.
pub open spec fn key_count(e: Seq<(Seq<char>, JsonV)>, key: Seq<char>) -> nat
    decreases e.len(),
{
    if e.len() == 0 {
        0
    } else {
        (if e[0].0 == key {
            1nat
        } else {
            0nat
        }) + key_count(e.drop_first(), key)
    }
}

/// The value of the first entry carrying the given key.
pub open spec fn key_first(e: Seq<(Seq<char>, JsonV)>, key: Seq<char>) -> JsonV
    decreases e.len(),
{
    if e.len() == 0 {
        JsonV::Null
    } else if e[0].0 == key {
        e[0].1
    } else {
        key_first(e.drop_first(), key)
    }
}

/// A required string field: present exactly once, and a string.
pub open spec fn req_str(e: Seq<(Seq<char>, JsonV)>, key: Seq<char>) -> Option<Seq<char>> {
    if key_count(e, key) == 1 {
        match key_first(e, key) {
            JsonV::Str(s) => Some(s),
            _ => None,
        }
    } else {
        None
    }
}

/// An optional string field: absent or null stands for nothing; any other
/// value must be a string. The outer `None` is a type error.
pub open spec fn opt_str(e: Seq<(Seq<char>, JsonV)>, key: Seq<char>) -> Option<
    Option<Seq<char>>,
> {
    if key_count(e, key) == 0 {
        Some(None)
    } else if key_count(e, key) == 1 {
        match key_first(e, key) {
            JsonV::Str(s) => Some(Some(s)),
            JsonV::Null => Some(None),
            _ => None,
        }
    } else {
        None
    }
}

/// Digit-only text: what an unsigned integer field accepts.
pub open spec fn digits_only(t: Seq<char>) -> bool {
    t.len() >= 1 && forall|k: int| 0 <= k < t.len() ==> is_digit(#[trigger] t[k])
}

/// The reading of a deliverable type word.
pub open spec fn dec_dt(s: Seq<char>) -> Option<DeliverableType> {
    if s == "text"@ {
        Some(DeliverableType::Text)
    } else if s == "json"@ {
        Some(DeliverableType::Json)
    } else if s == "code"@ {
        Some(DeliverableType::Code)
    } else {
        None
    }
}

/// The reading of a verdict word.
pub open spec fn dec_verdict(s: Seq<char>) -> Option<Verdict> {
    if s == "pass"@ {
        Some(Verdict::Pass)
    } else if s == "warn"@ {
        Some(Verdict::Warn)
    } else if s == "fail"@ {
        Some(Verdict::Fail)
    } else {
        None
    }
}

/// The reading of a severity word.
pub open spec fn dec_severity(s: Seq<char>) -> Option<Severity> {
    if s == "minor"@ {
        Some(Severity::Minor)
    } else if s == "major"@ {
        Some(Severity::Major)
    } else {
        None
    }
}

/// The reading of a model descriptor.
pub open spec fn dec_model_used(v: JsonV) -> Option<ModelUsedV> {
    match v {
        JsonV::Obj(e) => {
            if key_count(e, "temperature"@) == 1 {
                match (req_str(e, "name"@), key_first(e, "temperature"@)) {
                    (Some(name), JsonV::Num(t)) => if is_number_text(t) {
                        Some(ModelUsedV { name: name, temperature: t })
                    } else {
                        None
                    },
                    _ => None,
                }
            } else {
                None
            }
        },
        _ => None,
    }
}

/// The reading of a code artifact.
pub open spec fn dec_code(v: JsonV) -> Option<CodeArtifactV> {
    match v {
        JsonV::Obj(e) => match (req_str(e, "language"@), req_str(e, "content"@)) {
            (Some(language), Some(content)) => Some(
                CodeArtifactV { language: language, content: content },
            ),
            _ => None,
        },
        _ => None,
    }
}

/// The reading of a deliverable block against its tag: each present field
/// must be well-typed, and exactly the tagged variant must be populated.
pub open spec fn dec_deliverable(v: JsonV, tag: DeliverableType) -> Option<DeliverableV> {
    match v {
        JsonV::Obj(e) => {
            let text_n = key_count(e, "text"@);
            let json_n = key_count(e, "json"@);
            let code_n = key_count(e, "code"@);
            if text_n > 1 || json_n > 1 || code_n > 1 {
                None
            } else {
                match tag {
                    DeliverableType::Text => {
                        if json_n == 0 || key_first(e, "json"@) is Null {
                            if code_n == 0 || key_first(e, "code"@) is Null {
                                match opt_str(e, "text"@) {
                                    Some(Some(t)) => Some(DeliverableV::Text(t)),
                                    _ => None,
                                }
                            } else {
                                None
                            }
                        } else {
                            None
                        }
                    },
                    DeliverableType::Json => {
                        if text_n == 0 || key_first(e, "text"@) is Null {
                            if code_n == 0 || key_first(e, "code"@) is Null {
                                if json_n == 1 && !(key_first(e, "json"@) is Null) && wf_jsonv(
                                    key_first(e, "json"@),
                                ) {
                                    Some(DeliverableV::Json(key_first(e, "json"@)))
                                } else {
                                    None
                                }
                            } else {
                                None
                            }
                        } else {
                            None
                        }
                    },
                    DeliverableType::Code => {
                        if text_n == 0 || key_first(e, "text"@) is Null {
                            if json_n == 0 || key_first(e, "json"@) is Null {
                                if code_n == 1 {
                                    match dec_code(key_first(e, "code"@)) {
                                        Some(c) => Some(DeliverableV::Code(c)),
                                        None => None,
                                    }
                                } else {
                                    None
                                }
                            } else {
                                None
                            }
                        } else {
                            None
                        }
                    },
                }
            }
        },
        _ => None,
    }
}

/// The reading of an evidence block.
pub open spec fn dec_evidence(v: JsonV) -> Option<EvidenceV> {
    match v {
        JsonV::Obj(e) => match (req_str(e, "system_prompt"@), opt_str(e, "usage_note"@)) {
            (Some(sp), Some(note)) => Some(EvidenceV { system_prompt: sp, usage_note: note }),
            _ => None,
        },
        _ => None,
    }
}

/// A token-count field: a digit-only number that fits in 32 bits.
pub open spec fn dec_u32_field(e: Seq<(Seq<char>, JsonV)>, key: Seq<char>) -> Option<u32> {
    if key_count(e, key) == 1 {
        match key_first(e, key) {
            JsonV::Num(t) => if digits_only(t) && dec_val(t) <= 0xFFFF_FFFF {
                Some(dec_val(t) as u32)
            } else {
                None
            },
            _ => None,
        }
    } else {
        None
    }
}

/// The reading of a usage pair.
pub open spec fn dec_usage(v: JsonV) -> Option<Usage> {
    match v {
        JsonV::Obj(e) => match (dec_u32_field(e, "prompt_tokens"@), dec_u32_field(
            e,
            "completion_tokens"@,
        )) {
            (Some(p), Some(c)) => Some(Usage { prompt_tokens: p, completion_tokens: c }),
            _ => None,
        },
        _ => None,
    }
}

/// The reading of a whole solution.
pub open spec fn dec_solution(v: JsonV) -> Option<SolutionV> {
    match v {
        JsonV::Obj(e) => {
            if key_count(e, "model_used"@) == 1 && key_count(e, "deliverable_type"@) == 1
                && key_count(e, "deliverable"@) == 1 && key_count(e, "evidence"@) == 1 && key_count(
                e,
                "usage"@,
            ) == 1 {
                match (req_str(e, "schema_version"@), req_str(e, "task_id"@), req_str(
                    e,
                    "solution_id"@,
                ), req_str(e, "created_at"@)) {
                    (Some(sv), Some(tid), Some(sid), Some(ca)) => {
                        match (dec_model_used(key_first(e, "model_used"@)), req_str(
                            e,
                            "deliverable_type"@,
                        )) {
                            (Some(mu), Some(dts)) => match dec_dt(dts) {
                                Some(dt) => {
                                    match (dec_deliverable(key_first(e, "deliverable"@), dt),
                                    dec_evidence(key_first(e, "evidence"@)), dec_usage(
                                        key_first(e, "usage"@),
                                    )) {
                                        (Some(d), Some(ev), Some(us)) => Some(
                                            SolutionV {
                                                schema_version: sv,
                                                task_id: tid,
                                                solution_id: sid,
                                                model_used: mu,
                                                deliverable_type: dt,
                                                deliverable: d,
                                                evidence: ev,
                                                usage: us,
                                                created_at: ca,
                                            },
                                        ),
                                        _ => None,
                                    }
                                },
                                None => None,
                            },
                            _ => None,
                        }
                    },
                    _ => None,
                }
            } else {
                None
            }
        },
        _ => None,
    }
}

/// The reading of one check result.
pub open spec fn dec_check(v: JsonV) -> Option<CheckResultV> {
    match v {
        JsonV::Obj(e) => {
            if key_count(e, "pass"@) == 1 {
                match (req_str(e, "criterion"@), key_first(e, "pass"@), req_str(e, "reason"@),
                req_str(e, "severity"@), opt_str(e, "suggested_fix"@)) {
                    (Some(cr), JsonV::Bool(p), Some(re), Some(sevs), Some(fix)) => {
                        match dec_severity(sevs) {
                            Some(sev) => Some(
                                CheckResultV {
                                    criterion: cr,
                                    pass_: p,
                                    reason: re,
                                    severity: sev,
                                    suggested_fix: fix,
                                },
                            ),
                            None => None,
                        }
                    },
                    _ => None,
                }
            } else {
                None
            }
        },
        _ => None,
    }
}

/// The reading of a list of check results: every element must read.
pub open spec fn dec_checks(items: Seq<JsonV>) -> Option<Seq<CheckResultV>>
    decreases items.len(),
{
    if items.len() == 0 {
        Some(Seq::<CheckResultV>::empty())
    } else {
        match (dec_check(items[0]), dec_checks(items.drop_first())) {
            (Some(c), Some(rest)) => Some(seq![c] + rest),
            _ => None,
        }
    }
}

/// The reading of a whole validation.
pub open spec fn dec_validation(v: JsonV) -> Option<ValidationV> {
    match v {
        JsonV::Obj(e) => {
            if key_count(e, "verdict"@) == 1 && key_count(e, "score"@) == 1 && key_count(
                e,
                "checks"@,
            ) == 1 && key_count(e, "model_used"@) == 1 && key_count(e, "suggested_rewrite"@)
                <= 1 {
                match (req_str(e, "schema_version"@), req_str(e, "task_id"@), req_str(
                    e,
                    "solution_id"@,
                ), req_str(e, "created_at"@), req_str(e, "verdict"@)) {
                    (Some(sv), Some(tid), Some(sid), Some(ca), Some(ver)) => {
                        match (dec_verdict(ver), key_first(e, "score"@), key_first(e, "checks"@)) {
                            (Some(verd), JsonV::Num(score), JsonV::Arr(chk)) => {
                                if is_number_text(score) {
                                    match (dec_checks(chk), dec_model_used(
                                        key_first(e, "model_used"@),
                                    )) {
                                        (Some(checks), Some(mu)) => {
                                            let rw = if key_count(e, "suggested_rewrite"@) == 0 {
                                                Some(None)
                                            } else if key_first(e, "suggested_rewrite"@) is Null {
                                                Some(None)
                                            } else if wf_jsonv(key_first(e, "suggested_rewrite"@)) {
                                                Some(Some(key_first(e, "suggested_rewrite"@)))
                                            } else {
                                                None
                                            };
                                            match rw {
                                                Some(rewrite) => Some(
                                                    ValidationV {
                                                        schema_version: sv,
                                                        task_id: tid,
                                                        solution_id: sid,
                                                        verdict: verd,
                                                        score: score,
                                                        checks: checks,
                                                        suggested_rewrite: rewrite,
                                                        model_used: mu,
                                                        created_at: ca,
                                                    },
                                                ),
                                                None => None,
                                            }
                                        },
                                        _ => None,
                                    }
                                } else {
                                    None
                                }
                            },
                            _ => None,
                        }
                    },
                    _ => None,
                }
            } else {
                None
            }
        },
        _ => None,
    }
}


proof fn lemma_key_suffix(e: Seq<(Seq<char>, JsonV)>, key: Seq<char>, i: int)
    requires
        0 <= i < e.len(),
    ensures
        key_count(e.subrange(i, e.len() as int), key) == (if e[i].0 == key {
            1nat
        } else {
            0nat
        }) + key_count(e.subrange(i + 1, e.len() as int), key),
        e[i].0 == key ==> key_first(e.subrange(i, e.len() as int), key) == e[i].1,
        e[i].0 != key ==> key_first(e.subrange(i, e.len() as int), key) == key_first(
            e.subrange(i + 1, e.len() as int),
            key,
        ),
{
    let suf = e.subrange(i, e.len() as int);
    assert(suf[0] == e[i]);
    assert(suf.drop_first() =~= e.subrange(i + 1, e.len() as int));
}

/// How often a key occurs in an object, and the first value under it.
pub(crate) fn obj_lookup<'a>(entries: &'a Vec<(String, Json)>, key: &str) -> (r: (usize, Option<&'a Json>))
    ensures
        r.0 == key_count(jv_entries(entries@), key@),
        (r.0 == 0) <==> (r.1 is None),
        (match r.1 {
            Some(j) => jv(*j) == key_first(jv_entries(entries@), key@),
            None => true,
        }),
{
    let ghost e = jv_entries(entries@);
    proof {
        lemma_jv_entries_index(entries@);
        assert(e.subrange(0, e.len() as int) =~= e);
    }
    let mut count: usize = 0;
    let mut found: Option<&Json> = None;
    let mut i: usize = 0;
    while i < entries.len()
        invariant
            i <= entries@.len(),
            e == jv_entries(entries@),
            e.len() == entries@.len(),
            forall|x: int|
                0 <= x < entries@.len() ==> #[trigger] e[x] == (entries@[x].0@, jv(
                    entries@[x].1,
                )),
            count <= i,
            count + key_count(e.subrange(i as int, e.len() as int), key@) == key_count(e, key@),
            (count == 0) <==> (found is None),
            (match found {
                Some(j) => jv(*j) == key_first(e, key@),
                None => key_first(e, key@) == key_first(
                    e.subrange(i as int, e.len() as int),
                    key@,
                ),
            }),
        decreases entries@.len() - i,
    {
        proof {
            lemma_key_suffix(e, key@, i as int);
        }
        if str_eq(entries[i].0.as_str(), key) {
            if count == 0 {
                found = Some(&entries[i].1);
            }
            count = count + 1;
        }
        i = i + 1;
    }
    proof {
        assert(e.subrange(e.len() as int, e.len() as int) =~= Seq::<(Seq<char>, JsonV)>::empty());
    }
    (count, found)
}

/// Whether the text is exactly one JSON number.
pub fn check_number_text(t: &str) -> (r: bool)
    ensures
        r == is_number_text(t@),
{
    let cs = crate::json::str_to_chars(t);
    proof {
        reveal(is_number_text);
    }
    match crate::json_parse::parse_number_exec(&cs, 0) {
        None => false,
        Some((tx, p)) => {
            proof {
                if p == cs.len() {
                    assert(tx@ =~= t@);
                }
            }
            p == cs.len()
        },
    }
}

proof fn lemma_wf_list_suffix(items: Seq<JsonV>, k: int)
    requires
        0 <= k < items.len(),
    ensures
        wf_jv_list(items.subrange(k, items.len() as int)) == (wf_jsonv(items[k]) && wf_jv_list(
            items.subrange(k + 1, items.len() as int),
        )),
{
    let suf = items.subrange(k, items.len() as int);
    assert(suf[0] == items[k]);
    assert(suf.drop_first() =~= items.subrange(k + 1, items.len() as int));
}

proof fn lemma_wf_entries_suffix(entries: Seq<(Seq<char>, JsonV)>, k: int)
    requires
        0 <= k < entries.len(),
    ensures
        wf_jv_entries(entries.subrange(k, entries.len() as int)) == (wf_jsonv(entries[k].1)
            && wf_jv_entries(entries.subrange(k + 1, entries.len() as int))),
{
    let suf = entries.subrange(k, entries.len() as int);
    assert(suf[0] == entries[k]);
    assert(suf.drop_first() =~= entries.subrange(k + 1, entries.len() as int));
}

/// Whether every element from `k` on is well-formed.
fn wf_items_check(items: &Vec<Json>, k: usize) -> (r: bool)
    requires
        k <= items@.len(),
    ensures
        r == wf_jv_list(jv_list(items@).subrange(k as int, items@.len() as int)),
    decreases items@, items@.len() - k,
{
    proof {
        lemma_jv_list_index(items@);
    }
    if k < items.len() {
        proof {
            lemma_wf_list_suffix(jv_list(items@), k as int);
        }
        let a = json_wf_check(&items[k]);
        if !a {
            return false;
        }
        wf_items_check(items, k + 1)
    } else {
        proof {
            assert(jv_list(items@).subrange(k as int, items@.len() as int) =~= Seq::<
                JsonV,
            >::empty());
        }
        true
    }
}

/// Whether every entry value from `k` on is well-formed.
fn wf_entries_check(entries: &Vec<(String, Json)>, k: usize) -> (r: bool)
    requires
        k <= entries@.len(),
    ensures
        r == wf_jv_entries(jv_entries(entries@).subrange(k as int, entries@.len() as int)),
    decreases entries@, entries@.len() - k,
{
    proof {
        lemma_jv_entries_index(entries@);
    }
    if k < entries.len() {
        proof {
            lemma_wf_entries_suffix(jv_entries(entries@), k as int);
        }
        let a = json_wf_check(&entries[k].1);
        if !a {
            return false;
        }
        wf_entries_check(entries, k + 1)
    } else {
        proof {
            assert(jv_entries(entries@).subrange(k as int, entries@.len() as int) =~= Seq::<(
                Seq<char>,
                JsonV,
            )>::empty());
        }
        true
    }
}

/// Whether a value is well-formed: every number in it is exact number
/// text.
pub fn json_wf_check(j: &Json) -> (r: bool)
    ensures
        r == wf_jsonv(j@),
    decreases *j, 0int,
{
    match j {
        Json::Null => true,
        Json::Bool(_) => true,
        Json::Str(_) => true,
        Json::Num(t) => check_number_text(t.as_str()),
        Json::Arr(items) => {
            let r = wf_items_check(items, 0);
            proof {
                lemma_jv_list_index(items@);
                assert(jv_list(items@).subrange(0, items@.len() as int) =~= jv_list(items@));
            }
            r
        },
        Json::Obj(entries) => {
            let r = wf_entries_check(entries, 0);
            proof {
                lemma_jv_entries_index(entries@);
                assert(jv_entries(entries@).subrange(0, entries@.len() as int) =~= jv_entries(
                    entries@,
                ));
            }
            r
        },
    }
}

/// Reads digit-only text as a 32-bit count.
fn dec_u32_text(t: &str) -> (r: Option<u32>)
    ensures
        (match r {
            Some(n) => digits_only(t@) && dec_val(t@) <= 0xFFFF_FFFF && n == dec_val(t@),
            None => !(digits_only(t@) && dec_val(t@) <= 0xFFFF_FFFF),
        }),
{
    let n = t.unicode_len();
    if n == 0 {
        return None;
    }
    let mut acc: u64 = 0;
    let mut ok = true;
    let mut i: usize = 0;
    while i < n
        invariant
            n == t@.len(),
            i <= n,
            forall|x: int| 0 <= x < i ==> is_digit(#[trigger] t@[x]),
            ok ==> acc == dec_val(t@.subrange(0, i as int)) && acc <= 0xFFFF_FFFF,
            !ok ==> dec_val(t@.subrange(0, i as int)) > 0xFFFF_FFFF,
        decreases n - i,
    {
        let c = t.get_char(i);
        if !('0' <= c && c <= '9') {
            return None;
        }
        let d: u64 = (c as u64) - ('0' as u64);
        proof {
            assert(t@.subrange(0, i as int + 1).drop_last() =~= t@.subrange(0, i as int));
            assert(t@.subrange(0, i as int + 1).last() == t@[i as int]);
            assert(d == digit_val(t@[i as int]));
        }
        if ok {
            let na: u64 = acc * 10 + d;
            if na > 0xFFFF_FFFF {
                ok = false;
            } else {
                acc = na;
            }
        }
        i = i + 1;
    }
    proof {
        assert(t@.subrange(0, n as int) =~= t@);
    }
    if ok {
        Some(acc as u32)
    } else {
        None
    }
}


/// Reads a model descriptor.
fn decode_model_used(j: &Json) -> (r: Option<ModelUsed>)
    ensures
        (match r {
            Some(m) => dec_model_used(j@) == Some(m@),
            None => dec_model_used(j@) is None,
        }),
{
    match j {
        Json::Obj(entries) => {
            let (nc, nf) = obj_lookup(entries, "name");
            let (tc, tf) = obj_lookup(entries, "temperature");
            if nc != 1 || tc != 1 {
                return None;
            }
            let name = match nf {
                Some(Json::Str(s)) => s.clone(),
                _ => {
                    return None;
                },
            };
            let temperature = match tf {
                Some(Json::Num(t)) => {
                    if check_number_text(t.as_str()) {
                        t.clone()
                    } else {
                        return None;
                    }
                },
                _ => {
                    return None;
                },
            };
            Some(ModelUsed { name, temperature })
        },
        _ => None,
    }
}

/// Reads a code artifact.
fn decode_code(j: &Json) -> (r: Option<CodeArtifact>)
    ensures
        (match r {
            Some(c) => dec_code(j@) == Some(c@),
            None => dec_code(j@) is None,
        }),
{
    match j {
        Json::Obj(entries) => {
            let (lc, lf) = obj_lookup(entries, "language");
            let (cc, cf) = obj_lookup(entries, "content");
            if lc != 1 || cc != 1 {
                return None;
            }
            let language = match lf {
                Some(Json::Str(s)) => s.clone(),
                _ => {
                    return None;
                },
            };
            let content = match cf {
                Some(Json::Str(s)) => s.clone(),
                _ => {
                    return None;
                },
            };
            Some(CodeArtifact { language, content })
        },
        _ => None,
    }
}

/// Reads a deliverable block against its tag.
fn decode_deliverable(j: &Json, tag: DeliverableType) -> (r: Option<Deliverable>)
    ensures
        (match r {
            Some(d) => dec_deliverable(j@, tag) == Some(d@),
            None => dec_deliverable(j@, tag) is None,
        }),
{
    match j {
        Json::Obj(entries) => {
            let (tn, tf) = obj_lookup(entries, "text");
            let (jn, jf) = obj_lookup(entries, "json");
            let (cn, cf) = obj_lookup(entries, "code");
            if tn > 1 || jn > 1 || cn > 1 {
                return None;
            }
            let text_absent = match tf {
                None => true,
                Some(Json::Null) => true,
                Some(_) => false,
            };
            let json_absent = match jf {
                None => true,
                Some(Json::Null) => true,
                Some(_) => false,
            };
            let code_absent = match cf {
                None => true,
                Some(Json::Null) => true,
                Some(_) => false,
            };
            match tag {
                DeliverableType::Text => {
                    if !json_absent || !code_absent {
                        return None;
                    }
                    match tf {
                        Some(Json::Str(s)) => Some(Deliverable::Text(s.clone())),
                        _ => None,
                    }
                },
                DeliverableType::Json => {
                    if !text_absent || !code_absent {
                        return None;
                    }
                    match jf {
                        Some(Json::Null) => None,
                        Some(v) => {
                            if json_wf_check(v) {
                                Some(Deliverable::Json(crate::schema_enc::json_dup(v)))
                            } else {
                                None
                            }
                        },
                        None => None,
                    }
                },
                DeliverableType::Code => {
                    if !text_absent || !json_absent {
                        return None;
                    }
                    match cf {
                        Some(v) => match decode_code(v) {
                            Some(c) => Some(Deliverable::Code(c)),
                            None => None,
                        },
                        None => None,
                    }
                },
            }
        },
        _ => None,
    }
}

/// Reads an evidence block.
fn decode_evidence(j: &Json) -> (r: Option<Evidence>)
    ensures
        (match r {
            Some(e) => dec_evidence(j@) == Some(e@),
            None => dec_evidence(j@) is None,
        }),
{
    match j {
        Json::Obj(entries) => {
            let (sc, sf) = obj_lookup(entries, "system_prompt");
            let (nc, nf) = obj_lookup(entries, "usage_note");
            if sc != 1 || nc > 1 {
                return None;
            }
            let system_prompt = match sf {
                Some(Json::Str(s)) => s.clone(),
                _ => {
                    return None;
                },
            };
            let usage_note = match nf {
                None => None,
                Some(Json::Null) => None,
                Some(Json::Str(s)) => Some(s.clone()),
                Some(_) => {
                    return None;
                },
            };
            Some(Evidence { system_prompt, usage_note })
        },
        _ => None,
    }
}

/// Reads a usage pair.
fn decode_usage(j: &Json) -> (r: Option<Usage>)
    ensures
        (match r {
            Some(u) => dec_usage(j@) == Some(u),
            None => dec_usage(j@) is None,
        }),
{
    match j {
        Json::Obj(entries) => {
            let (pc, pf) = obj_lookup(entries, "prompt_tokens");
            let (cc, cf) = obj_lookup(entries, "completion_tokens");
            if pc != 1 || cc != 1 {
                return None;
            }
            let prompt_tokens = match pf {
                Some(Json::Num(t)) => match dec_u32_text(t.as_str()) {
                    Some(n) => n,
                    None => {
                        return None;
                    },
                },
                _ => {
                    return None;
                },
            };
            let completion_tokens = match cf {
                Some(Json::Num(t)) => match dec_u32_text(t.as_str()) {
                    Some(n) => n,
                    None => {
                        return None;
                    },
                },
                _ => {
                    return None;
                },
            };
            Some(Usage { prompt_tokens, completion_tokens })
        },
        _ => None,
    }
}

/// Reads the deliverable type word.
pub fn decode_dt(s: &str) -> (r: Option<DeliverableType>)
    ensures
        r == dec_dt(s@),
{
    if str_eq(s, "text") {
        Some(DeliverableType::Text)
    } else if str_eq(s, "json") {
        Some(DeliverableType::Json)
    } else if str_eq(s, "code") {
        Some(DeliverableType::Code)
    } else {
        None
    }
}

/// Reads the verdict word.
pub fn decode_verdict(s: &str) -> (r: Option<Verdict>)
    ensures
        r == dec_verdict(s@),
{
    if str_eq(s, "pass") {
        Some(Verdict::Pass)
    } else if str_eq(s, "warn") {
        Some(Verdict::Warn)
    } else if str_eq(s, "fail") {
        Some(Verdict::Fail)
    } else {
        None
    }
}

/// Reads the severity word.
pub fn decode_severity(s: &str) -> (r: Option<Severity>)
    ensures
        r == dec_severity(s@),
{
    if str_eq(s, "minor") {
        Some(Severity::Minor)
    } else if str_eq(s, "major") {
        Some(Severity::Major)
    } else {
        None
    }
}

/// Reads a whole solution out of a parsed document.
pub fn decode_solution(j: &Json) -> (r: Option<SolutionV1>)
    ensures
        (match r {
            Some(sol) => dec_solution(j@) == Some(sol@),
            None => dec_solution(j@) is None,
        }),
{
    match j {
        Json::Obj(entries) => {
            let (muc, muf) = obj_lookup(entries, "model_used");
            let (dtc, dtf) = obj_lookup(entries, "deliverable_type");
            let (dc, df) = obj_lookup(entries, "deliverable");
            let (ec, ef) = obj_lookup(entries, "evidence");
            let (uc, uf) = obj_lookup(entries, "usage");
            if muc != 1 || dtc != 1 || dc != 1 || ec != 1 || uc != 1 {
                return None;
            }
            let (svc, svf) = obj_lookup(entries, "schema_version");
            let (tic, tif) = obj_lookup(entries, "task_id");
            let (sic, sif) = obj_lookup(entries, "solution_id");
            let (cac, caf) = obj_lookup(entries, "created_at");
            if svc != 1 || tic != 1 || sic != 1 || cac != 1 {
                return None;
            }
            let schema_version = match svf {
                Some(Json::Str(s)) => s.clone(),
                _ => {
                    return None;
                },
            };
            let task_id = match tif {
                Some(Json::Str(s)) => s.clone(),
                _ => {
                    return None;
                },
            };
            let solution_id = match sif {
                Some(Json::Str(s)) => s.clone(),
                _ => {
                    return None;
                },
            };
            let created_at = match caf {
                Some(Json::Str(s)) => s.clone(),
                _ => {
                    return None;
                },
            };
            let model_used = match muf {
                Some(v) => match decode_model_used(v) {
                    Some(m) => m,
                    None => {
                        return None;
                    },
                },
                None => {
                    return None;
                },
            };
            let dts = match dtf {
                Some(Json::Str(s)) => s.clone(),
                _ => {
                    return None;
                },
            };
            let deliverable_type = match decode_dt(dts.as_str()) {
                Some(t) => t,
                None => {
                    return None;
                },
            };
            let deliverable = match df {
                Some(v) => match decode_deliverable(v, deliverable_type) {
                    Some(d) => d,
                    None => {
                        return None;
                    },
                },
                None => {
                    return None;
                },
            };
            let evidence = match ef {
                Some(v) => match decode_evidence(v) {
                    Some(e) => e,
                    None => {
                        return None;
                    },
                },
                None => {
                    return None;
                },
            };
            let usage = match uf {
                Some(v) => match decode_usage(v) {
                    Some(u) => u,
                    None => {
                        return None;
                    },
                },
                None => {
                    return None;
                },
            };
            Some(
                SolutionV1 {
                    schema_version,
                    task_id,
                    solution_id,
                    model_used,
                    deliverable_type,
                    deliverable,
                    evidence,
                    usage,
                    created_at,
                },
            )
        },
        _ => None,
    }
}

fn decode_check(j: &Json) -> (r: Option<CheckResult>)
    ensures
        (match r {
            Some(c) => dec_check(j@) == Some(c@),
            None => dec_check(j@) is None,
        }),
{
    match j {
        Json::Obj(entries) => {
            let (pc, pf) = obj_lookup(entries, "pass");
            if pc != 1 {
                return None;
            }
            let (crc, crf) = obj_lookup(entries, "criterion");
            let (rec, ref_) = obj_lookup(entries, "reason");
            let (sec, sef) = obj_lookup(entries, "severity");
            let (fc, ff) = obj_lookup(entries, "suggested_fix");
            if crc != 1 || rec != 1 || sec != 1 || fc > 1 {
                return None;
            }
            let criterion = match crf {
                Some(Json::Str(s)) => s.clone(),
                _ => {
                    return None;
                },
            };
            let pass_ = match pf {
                Some(Json::Bool(b)) => *b,
                _ => {
                    return None;
                },
            };
            let reason = match ref_ {
                Some(Json::Str(s)) => s.clone(),
                _ => {
                    return None;
                },
            };
            let sevs = match sef {
                Some(Json::Str(s)) => s.clone(),
                _ => {
                    return None;
                },
            };
            let severity = match decode_severity(sevs.as_str()) {
                Some(s) => s,
                None => {
                    return None;
                },
            };
            let suggested_fix = match ff {
                None => None,
                Some(Json::Null) => None,
                Some(Json::Str(s)) => Some(s.clone()),
                Some(_) => {
                    return None;
                },
            };
            Some(CheckResult { criterion, pass_, reason, severity, suggested_fix })
        },
        _ => None,
    }
}

proof fn lemma_dec_checks_suffix(items: Seq<JsonV>, k: int)
    requires
        0 <= k < items.len(),
    ensures
        dec_checks(items.subrange(k, items.len() as int)) == (match (dec_check(items[k]),
        dec_checks(items.subrange(k + 1, items.len() as int))) {
            (Some(c), Some(rest)) => Some(seq![c] + rest),
            _ => None::<Seq<CheckResultV>>,
        }),
{
    let suf = items.subrange(k, items.len() as int);
    assert(suf[0] == items[k]);
    assert(suf.drop_first() =~= items.subrange(k + 1, items.len() as int));
}

fn decode_checks_from(items: &Vec<Json>, k: usize) -> (r: Option<Vec<CheckResult>>)
    requires
        k <= items@.len(),
    ensures
        (match r {
            Some(cs) => dec_checks(jv_list(items@).subrange(k as int, items@.len() as int))
                == Some(cs@.map_values(|c: CheckResult| c@)),
            None => dec_checks(jv_list(items@).subrange(k as int, items@.len() as int)) is None,
        }),
    decreases items@.len() - k,
{
    proof {
        lemma_jv_list_index(items@);
    }
    if k < items.len() {
        proof {
            lemma_dec_checks_suffix(jv_list(items@), k as int);
        }
        let c = match decode_check(&items[k]) {
            Some(c) => c,
            None => {
                return None;
            },
        };
        match decode_checks_from(items, k + 1) {
            Some(mut rest) => {
                rest.insert(0, c);
                proof {
                    assert(rest@.map_values(|c: CheckResult| c@) =~= seq![rest@[0]@]
                        + rest@.drop_first().map_values(|c: CheckResult| c@));
                }
                Some(rest)
            },
            None => None,
        }
    } else {
        proof {
            assert(jv_list(items@).subrange(k as int, items@.len() as int) =~= Seq::<
                JsonV,
            >::empty());
            assert(Seq::<CheckResult>::empty().map_values(|c: CheckResult| c@) =~= Seq::<
                CheckResultV,
            >::empty());
        }
        Some(Vec::new())
    }
}

/// Reads a whole validation out of a parsed document.
pub fn decode_validation(j: &Json) -> (r: Option<ValidationV1>)
    ensures
        (match r {
            Some(v) => dec_validation(j@) == Some(v@),
            None => dec_validation(j@) is None,
        }),
{
    match j {
        Json::Obj(entries) => {
            let (vc, vf) = obj_lookup(entries, "verdict");
            let (scc, scf) = obj_lookup(entries, "score");
            let (chc, chf) = obj_lookup(entries, "checks");
            let (muc, muf) = obj_lookup(entries, "model_used");
            let (rwc, rwf) = obj_lookup(entries, "suggested_rewrite");
            if vc != 1 || scc != 1 || chc != 1 || muc != 1 || rwc > 1 {
                return None;
            }
            let (svc, svf) = obj_lookup(entries, "schema_version");
            let (tic, tif) = obj_lookup(entries, "task_id");
            let (sic, sif) = obj_lookup(entries, "solution_id");
            let (cac, caf) = obj_lookup(entries, "created_at");
            if svc != 1 || tic != 1 || sic != 1 || cac != 1 {
                return None;
            }
            let schema_version = match svf {
                Some(Json::Str(s)) => s.clone(),
                _ => {
                    return None;
                },
            };
            let task_id = match tif {
                Some(Json::Str(s)) => s.clone(),
                _ => {
                    return None;
                },
            };
            let solution_id = match sif {
                Some(Json::Str(s)) => s.clone(),
                _ => {
                    return None;
                },
            };
            let created_at = match caf {
                Some(Json::Str(s)) => s.clone(),
                _ => {
                    return None;
                },
            };
            let vs = match vf {
                Some(Json::Str(s)) => s.clone(),
                _ => {
                    return None;
                },
            };
            let verdict = match decode_verdict(vs.as_str()) {
                Some(v) => v,
                None => {
                    return None;
                },
            };
            let score = match scf {
                Some(Json::Num(t)) => {
                    if check_number_text(t.as_str()) {
                        t.clone()
                    } else {
                        return None;
                    }
                },
                _ => {
                    return None;
                },
            };
            let checks = match chf {
                Some(Json::Arr(items)) => {
                    proof {
                        crate::json::lemma_jv_list_index(items@);
                        assert(jv_list(items@).subrange(0, items@.len() as int) =~= jv_list(
                            items@,
                        ));
                    }
                    match decode_checks_from(items, 0) {
                        Some(cs) => cs,
                        None => {
                            return None;
                        },
                    }
                },
                _ => {
                    return None;
                },
            };
            let model_used = match muf {
                Some(v) => match decode_model_used(v) {
                    Some(m) => m,
                    None => {
                        return None;
                    },
                },
                None => {
                    return None;
                },
            };
            let suggested_rewrite = match rwf {
                None => None,
                Some(Json::Null) => None,
                Some(v) => {
                    if json_wf_check(v) {
                        Some(crate::schema_enc::json_dup(v))
                    } else {
                        return None;
                    }
                },
            };
            Some(
                ValidationV1 {
                    schema_version,
                    task_id,
                    solution_id,
                    verdict,
                    score,
                    checks,
                    suggested_rewrite,
                    model_used,
                    created_at,
                },
            )
        },
        _ => None,
    }
}


/// The reading of a list of strings: every element must be a string.
pub open spec fn dec_str_list(items: Seq<JsonV>) -> Option<Seq<Seq<char>>>
    decreases items.len(),
{
    if items.len() == 0 {
        Some(Seq::<Seq<char>>::empty())
    } else {
        match (items[0], dec_str_list(items.drop_first())) {
            (JsonV::Str(s), Some(rest)) => Some(seq![s] + rest),
            _ => None,
        }
    }
}

/// The reading of a whole task specification.
pub open spec fn dec_task_spec(v: JsonV) -> Option<crate::schema::TaskSpecV> {
    match v {
        JsonV::Obj(e) => {
            if key_count(e, "acceptance_criteria"@) == 1 {
                match (req_str(e, "task_id"@), req_str(e, "goal"@), req_str(e, "input"@), req_str(
                    e,
                    "deliverable_type"@,
                ), opt_str(e, "hints"@), key_first(e, "acceptance_criteria"@)) {
                    (Some(tid), Some(goal), Some(input), Some(dts), Some(hints), JsonV::Arr(ac)) => {
                        match (dec_dt(dts), dec_str_list(ac)) {
                            (Some(dt), Some(crits)) => Some(
                                crate::schema::TaskSpecV {
                                    task_id: tid,
                                    goal: goal,
                                    input: input,
                                    acceptance_criteria: crits,
                                    deliverable_type: dt,
                                    hints: hints,
                                },
                            ),
                            _ => None,
                        }
                    },
                    _ => None,
                }
            } else {
                None
            }
        },
        _ => None,
    }
}

proof fn lemma_dec_str_list_suffix(items: Seq<JsonV>, k: int)
    requires
        0 <= k < items.len(),
    ensures
        dec_str_list(items.subrange(k, items.len() as int)) == (match (items[k], dec_str_list(
            items.subrange(k + 1, items.len() as int),
        )) {
            (JsonV::Str(s), Some(rest)) => Some(seq![s] + rest),
            _ => None::<Seq<Seq<char>>>,
        }),
{
    let suf = items.subrange(k, items.len() as int);
    assert(suf[0] == items[k]);
    assert(suf.drop_first() =~= items.subrange(k + 1, items.len() as int));
}

fn decode_str_list_from(items: &Vec<Json>, k: usize) -> (r: Option<Vec<String>>)
    requires
        k <= items@.len(),
    ensures
        (match r {
            Some(ss) => dec_str_list(jv_list(items@).subrange(k as int, items@.len() as int))
                == Some(ss@.map_values(|s: String| s@)),
            None => dec_str_list(jv_list(items@).subrange(k as int, items@.len() as int)) is None,
        }),
    decreases items@.len() - k,
{
    proof {
        lemma_jv_list_index(items@);
    }
    if k < items.len() {
        proof {
            lemma_dec_str_list_suffix(jv_list(items@), k as int);
        }
        let s = match &items[k] {
            Json::Str(s) => s.clone(),
            _ => {
                return None;
            },
        };
        match decode_str_list_from(items, k + 1) {
            Some(mut rest) => {
                rest.insert(0, s);
                proof {
                    assert(rest@.map_values(|s: String| s@) =~= seq![rest@[0]@]
                        + rest@.drop_first().map_values(|s: String| s@));
                }
                Some(rest)
            },
            None => None,
        }
    } else {
        proof {
            assert(jv_list(items@).subrange(k as int, items@.len() as int) =~= Seq::<
                JsonV,
            >::empty());
            assert(Seq::<String>::empty().map_values(|s: String| s@) =~= Seq::<Seq<char>>::empty());
        }
        Some(Vec::new())
    }
}

/// Reads a whole task specification out of a parsed document.
pub fn decode_task_spec(j: &Json) -> (r: Option<crate::schema::TaskSpec>)
    ensures
        (match r {
            Some(t) => dec_task_spec(j@) == Some(t@),
            None => dec_task_spec(j@) is None,
        }),
{
    match j {
        Json::Obj(entries) => {
            let (acc, acf) = obj_lookup(entries, "acceptance_criteria");
            if acc != 1 {
                return None;
            }
            let (tic, tif) = obj_lookup(entries, "task_id");
            let (gc, gf) = obj_lookup(entries, "goal");
            let (ic, inf) = obj_lookup(entries, "input");
            let (dtc, dtf) = obj_lookup(entries, "deliverable_type");
            let (hc, hf) = obj_lookup(entries, "hints");
            if tic != 1 || gc != 1 || ic != 1 || dtc != 1 || hc > 1 {
                return None;
            }
            let task_id = match tif {
                Some(Json::Str(s)) => s.clone(),
                _ => {
                    return None;
                },
            };
            let goal = match gf {
                Some(Json::Str(s)) => s.clone(),
                _ => {
                    return None;
                },
            };
            let input = match inf {
                Some(Json::Str(s)) => s.clone(),
                _ => {
                    return None;
                },
            };
            let dts = match dtf {
                Some(Json::Str(s)) => s.clone(),
                _ => {
                    return None;
                },
            };
            let deliverable_type = match decode_dt(dts.as_str()) {
                Some(t) => t,
                None => {
                    return None;
                },
            };
            let hints = match hf {
                None => None,
                Some(Json::Null) => None,
                Some(Json::Str(s)) => Some(s.clone()),
                Some(_) => {
                    return None;
                },
            };
            let acceptance_criteria = match acf {
                Some(Json::Arr(items)) => {
                    proof {
                        lemma_jv_list_index(items@);
                        assert(jv_list(items@).subrange(0, items@.len() as int) =~= jv_list(
                            items@,
                        ));
                    }
                    match decode_str_list_from(items, 0) {
                        Some(ss) => ss,
                        None => {
                            return None;
                        },
                    }
                },
                _ => {
                    return None;
                },
            };
            Some(
                crate::schema::TaskSpec {
                    task_id,
                    goal,
                    input,
                    acceptance_criteria,
                    deliverable_type,
                    hints,
                },
            )
        },
        _ => None,
    }
}

} // verus!
