//! The schema-stability and repair laws.
//!
//! Round trip: writing a well-formed solution or validation as JSON and
//! reading it back yields a value equal in all fields. Defaulting: repair
//! touches only an empty schema version and a blank creation time, and
//! running it again changes nothing.

use vstd::prelude::*;

use crate::json::{json_text, JsonV};
use crate::json_laws::lemma_json_round_trip;
use crate::json_parse::{
    is_number_text, parse_json_text, scan_digits, wf_jsonv, wf_jv_entries, wf_jv_list,
};
use crate::numtext::{dec_rep, dec_val, is_digit, lemma_dec_rep_digits};
use crate::schema::{
    wf_solution, wf_validation, CheckResultV, DeliverableV, SolutionV, ValidationV,
};
use crate::schema_dec::{
    dec_check, dec_checks, dec_code, dec_deliverable, dec_dt, dec_evidence, dec_model_used,
    dec_severity, dec_solution, dec_u32_field, dec_usage, dec_validation, dec_verdict,
    digits_only, key_count, key_first, req_str,
};
use crate::schema_enc::{
    check_jv, code_artifact_jv, deliverable_jv, dt_text, evidence_jv, model_used_jv, severity_text,
    solution_jv, usage_jv, validation_jv, verdict_text,
};
use crate::stages::{spec_default_solution, spec_default_validation};
use crate::strutil::is_blank;

verus! {

proof fn lemma_scan_all_digits(t: Seq<char>, i: int)
    requires
        0 <= i <= t.len(),
        forall|k: int| 0 <= k < t.len() ==> is_digit(#[trigger] t[k]),
    ensures
        scan_digits(t, i) == t.len(),
    decreases t.len() - i,
{
    if i < t.len() {
        lemma_scan_all_digits(t, i + 1);
    }
}

/// The decimal writing of a number is exact JSON number text.
pub proof fn lemma_dec_rep_number_text(n: nat)
    ensures
        is_number_text(dec_rep(n)),
        digits_only(dec_rep(n)),
        dec_val(dec_rep(n)) == n,
{
    reveal(crate::json_parse::is_number_text);
    lemma_dec_rep_digits(n);
    let t = dec_rep(n);
    lemma_scan_all_digits(t, 0);
    if n < 10 {
        assert(t =~= seq![crate::numtext::digit_char(n as int)]);
        assert(t.subrange(0, 1) =~= t);
    } else {
        assert(t[0] != '0');
        assert(t.subrange(0, t.len() as int) =~= t);
    }
    lemma_dec_val_dec_rep(n);
}

proof fn lemma_dec_val_dec_rep(n: nat)
    ensures
        dec_val(dec_rep(n)) == n,
    decreases n,
{
    if n < 10 {
        assert(dec_rep(n) =~= seq![crate::numtext::digit_char(n as int)]);
        assert(dec_rep(n).drop_last() =~= Seq::<char>::empty());
        assert(dec_val(Seq::<char>::empty()) == 0);
        assert(dec_rep(n).last() == crate::numtext::digit_char(n as int));
        assert(crate::numtext::digit_val(crate::numtext::digit_char(n as int)) == n as int);
        assert(dec_val(dec_rep(n)) == dec_val(dec_rep(n).drop_last()) * 10 + crate::numtext::digit_val(
            dec_rep(n).last(),
        ));
    } else {
        lemma_dec_val_dec_rep(n / 10);
        assert(dec_rep(n).drop_last() =~= dec_rep(n / 10));
        assert(dec_rep(n).last() == crate::numtext::digit_char((n % 10) as int));
        assert(crate::numtext::digit_val(crate::numtext::digit_char((n % 10) as int)) == (n
            % 10) as int);
        assert(dec_val(dec_rep(n)) == dec_val(dec_rep(n).drop_last()) * 10 + crate::numtext::digit_val(
            dec_rep(n).last(),
        ));
        assert(dec_val(dec_rep(n)) == (n / 10) * 10 + (n % 10));
    }
}

proof fn lemma_model_used_jv_wf(m: crate::schema::ModelUsedV)
    requires
        is_number_text(m.temperature),
    ensures
        wf_jsonv(model_used_jv(m)),
{
    reveal_with_fuel(wf_jv_entries, 4);
    reveal_with_fuel(crate::json_parse::wf_jsonv, 3);
    let e = model_used_jv(m)->Obj_0;
    assert(e.len() == 2);
    assert(e[0].1 == JsonV::Str(m.name));
    assert(wf_jsonv(e[0].1));
    assert(e.drop_first().len() == 1);
    assert(e.drop_first()[0].1 == JsonV::Num(m.temperature));
    assert(wf_jsonv(e.drop_first()[0].1));
    assert(e.drop_first().drop_first().len() == 0);
    assert(wf_jv_entries(e.drop_first().drop_first()));
    assert(wf_jv_entries(e.drop_first()));
    assert(wf_jv_entries(e));
    assert(wf_jsonv(model_used_jv(m)));
}

proof fn lemma_evidence_jv_wf(e: crate::schema::EvidenceV)
    ensures
        wf_jsonv(evidence_jv(e)),
{
    reveal_with_fuel(wf_jv_entries, 4);
    reveal_with_fuel(crate::json_parse::wf_jsonv, 3);
}

proof fn lemma_usage_jv_wf(u: crate::schema::Usage)
    ensures
        wf_jsonv(usage_jv(u)),
{
    lemma_dec_rep_number_text(u.prompt_tokens as nat);
    lemma_dec_rep_number_text(u.completion_tokens as nat);
    reveal_with_fuel(wf_jv_entries, 4);
    reveal_with_fuel(crate::json_parse::wf_jsonv, 3);
}

proof fn lemma_deliverable_jv_wf(d: DeliverableV)
    requires
        d matches DeliverableV::Json(j) ==> wf_jsonv(j),
    ensures
        wf_jsonv(deliverable_jv(d)),
{
    reveal_with_fuel(wf_jv_entries, 4);
    reveal_with_fuel(crate::json_parse::wf_jsonv, 4);
    let e = deliverable_jv(d)->Obj_0;
    match d {
        DeliverableV::Text(t) => {
            assert(e[0].1 == JsonV::Str(t));
            assert(wf_jsonv(e[0].1));
            assert(e.drop_first().len() == 0);
            assert(wf_jv_entries(e.drop_first()));
            assert(wf_jv_entries(e));
        },
        DeliverableV::Json(j) => {
            assert(e[0].1 == j);
            assert(wf_jsonv(e[0].1));
            assert(e.drop_first().len() == 0);
            assert(wf_jv_entries(e.drop_first()));
            assert(wf_jv_entries(e));
        },
        DeliverableV::Code(c) => {
            assert(wf_jsonv(code_artifact_jv(c))) by {
                let ce = code_artifact_jv(c)->Obj_0;
                assert(ce[0].1 == JsonV::Str(c.language));
                assert(wf_jsonv(ce[0].1));
                assert(ce.drop_first()[0].1 == JsonV::Str(c.content));
                assert(wf_jsonv(ce.drop_first()[0].1));
                assert(ce.drop_first().drop_first().len() == 0);
                assert(wf_jv_entries(ce.drop_first().drop_first()));
                assert(wf_jv_entries(ce.drop_first()));
                assert(wf_jv_entries(ce));
            }
            assert(e[0].1 == code_artifact_jv(c));
            assert(wf_jsonv(e[0].1));
            assert(e.drop_first().len() == 0);
            assert(wf_jv_entries(e.drop_first()));
            assert(wf_jv_entries(e));
        },
    }
    assert(wf_jsonv(deliverable_jv(d)));
}

proof fn lemma_check_jv_wf(c: CheckResultV)
    ensures
        wf_jsonv(check_jv(c)),
{
    reveal_with_fuel(wf_jv_entries, 7);
    reveal_with_fuel(crate::json_parse::wf_jsonv, 3);
    let e = check_jv(c)->Obj_0;
    match c.suggested_fix {
        Some(f) => {
            assert(e[0].1 == JsonV::Str(c.criterion));
            assert(wf_jsonv(e[0].1));
            assert(e.drop_first()[0].1 == JsonV::Bool(c.pass_));
            assert(wf_jsonv(e.drop_first()[0].1));
            assert(e.drop_first().drop_first()[0].1 == JsonV::Str(c.reason));
            assert(wf_jsonv(e.drop_first().drop_first()[0].1));
            assert(e.drop_first().drop_first().drop_first()[0].1 == JsonV::Str(severity_text(c.severity)));
            assert(wf_jsonv(e.drop_first().drop_first().drop_first()[0].1));
            assert(e.drop_first().drop_first().drop_first().drop_first()[0].1 == JsonV::Str(f));
            assert(wf_jsonv(e.drop_first().drop_first().drop_first().drop_first()[0].1));
            assert(e.drop_first().drop_first().drop_first().drop_first().drop_first().len() == 0);
            assert(wf_jv_entries(e.drop_first().drop_first().drop_first().drop_first().drop_first()));
            assert(wf_jv_entries(e.drop_first().drop_first().drop_first().drop_first()));
            assert(wf_jv_entries(e.drop_first().drop_first().drop_first()));
            assert(wf_jv_entries(e.drop_first().drop_first()));
            assert(wf_jv_entries(e.drop_first()));
            assert(wf_jv_entries(e));
        },
        None => {
            assert(e[0].1 == JsonV::Str(c.criterion));
            assert(wf_jsonv(e[0].1));
            assert(e.drop_first()[0].1 == JsonV::Bool(c.pass_));
            assert(wf_jsonv(e.drop_first()[0].1));
            assert(e.drop_first().drop_first()[0].1 == JsonV::Str(c.reason));
            assert(wf_jsonv(e.drop_first().drop_first()[0].1));
            assert(e.drop_first().drop_first().drop_first()[0].1 == JsonV::Str(severity_text(c.severity)));
            assert(wf_jsonv(e.drop_first().drop_first().drop_first()[0].1));
            assert(e.drop_first().drop_first().drop_first().drop_first().len() == 0);
            assert(wf_jv_entries(e.drop_first().drop_first().drop_first().drop_first()));
            assert(wf_jv_entries(e.drop_first().drop_first().drop_first()));
            assert(wf_jv_entries(e.drop_first().drop_first()));
            assert(wf_jv_entries(e.drop_first()));
            assert(wf_jv_entries(e));
        },
    }
    assert(wf_jsonv(check_jv(c)));
}

/// The writing of a well-formed solution is a well-formed document.
pub proof fn lemma_solution_jv_wf(s: SolutionV)
    requires
        wf_solution(s),
    ensures
        wf_jsonv(solution_jv(s)),
{
    lemma_model_used_jv_wf(s.model_used);
    lemma_evidence_jv_wf(s.evidence);
    lemma_usage_jv_wf(s.usage);
    lemma_deliverable_jv_wf(s.deliverable);
    reveal_with_fuel(wf_jv_entries, 11);
    reveal_with_fuel(crate::json_parse::wf_jsonv, 2);
    let e = solution_jv(s)->Obj_0;
    assert(e[0].1 == JsonV::Str(s.schema_version));
    assert(wf_jsonv(e[0].1));
    assert(e.drop_first()[0].1 == JsonV::Str(s.task_id));
    assert(wf_jsonv(e.drop_first()[0].1));
    assert(e.drop_first().drop_first()[0].1 == JsonV::Str(s.solution_id));
    assert(wf_jsonv(e.drop_first().drop_first()[0].1));
    assert(e.drop_first().drop_first().drop_first()[0].1 == model_used_jv(s.model_used));
    assert(wf_jsonv(e.drop_first().drop_first().drop_first()[0].1));
    assert(e.drop_first().drop_first().drop_first().drop_first()[0].1 == JsonV::Str(dt_text(s.deliverable_type)));
    assert(wf_jsonv(e.drop_first().drop_first().drop_first().drop_first()[0].1));
    assert(e.drop_first().drop_first().drop_first().drop_first().drop_first()[0].1 == deliverable_jv(s.deliverable));
    assert(wf_jsonv(e.drop_first().drop_first().drop_first().drop_first().drop_first()[0].1));
    assert(e.drop_first().drop_first().drop_first().drop_first().drop_first().drop_first()[0].1 == evidence_jv(s.evidence));
    assert(wf_jsonv(e.drop_first().drop_first().drop_first().drop_first().drop_first().drop_first()[0].1));
    assert(e.drop_first().drop_first().drop_first().drop_first().drop_first().drop_first().drop_first()[0].1 == usage_jv(s.usage));
    assert(wf_jsonv(e.drop_first().drop_first().drop_first().drop_first().drop_first().drop_first().drop_first()[0].1));
    assert(e.drop_first().drop_first().drop_first().drop_first().drop_first().drop_first().drop_first().drop_first()[0].1 == JsonV::Str(s.created_at));
    assert(wf_jsonv(e.drop_first().drop_first().drop_first().drop_first().drop_first().drop_first().drop_first().drop_first()[0].1));
    assert(e.drop_first().drop_first().drop_first().drop_first().drop_first().drop_first().drop_first().drop_first().drop_first().len() == 0);
    assert(wf_jv_entries(e.drop_first().drop_first().drop_first().drop_first().drop_first().drop_first().drop_first().drop_first().drop_first()));
    assert(wf_jv_entries(e.drop_first().drop_first().drop_first().drop_first().drop_first().drop_first().drop_first().drop_first()));
    assert(wf_jv_entries(e.drop_first().drop_first().drop_first().drop_first().drop_first().drop_first().drop_first()));
    assert(wf_jv_entries(e.drop_first().drop_first().drop_first().drop_first().drop_first().drop_first()));
    assert(wf_jv_entries(e.drop_first().drop_first().drop_first().drop_first().drop_first()));
    assert(wf_jv_entries(e.drop_first().drop_first().drop_first().drop_first()));
    assert(wf_jv_entries(e.drop_first().drop_first().drop_first()));
    assert(wf_jv_entries(e.drop_first().drop_first()));
    assert(wf_jv_entries(e.drop_first()));
    assert(wf_jv_entries(e));
    assert(wf_jsonv(solution_jv(s)));
}

/// The writing of a well-formed validation is a well-formed document.
pub proof fn lemma_validation_jv_wf(v: ValidationV)
    requires
        wf_validation(v),
    ensures
        wf_jsonv(validation_jv(v)),
{
    lemma_model_used_jv_wf(v.model_used);
    lemma_wf_checks_list(v.checks);
    reveal_with_fuel(wf_jv_entries, 12);
    reveal_with_fuel(crate::json_parse::wf_jsonv, 2);
    let e = validation_jv(v)->Obj_0;
    match v.suggested_rewrite {
        Some(j) => {
            assert(e[0].1 == JsonV::Str(v.schema_version));
            assert(wf_jsonv(e[0].1));
            assert(e.drop_first()[0].1 == JsonV::Str(v.task_id));
            assert(wf_jsonv(e.drop_first()[0].1));
            assert(e.drop_first().drop_first()[0].1 == JsonV::Str(v.solution_id));
            assert(wf_jsonv(e.drop_first().drop_first()[0].1));
            assert(e.drop_first().drop_first().drop_first()[0].1 == JsonV::Str(verdict_text(v.verdict)));
            assert(wf_jsonv(e.drop_first().drop_first().drop_first()[0].1));
            assert(e.drop_first().drop_first().drop_first().drop_first()[0].1 == JsonV::Num(v.score));
            assert(wf_jsonv(e.drop_first().drop_first().drop_first().drop_first()[0].1));
            assert(e.drop_first().drop_first().drop_first().drop_first().drop_first()[0].1 == JsonV::Arr(v.checks.map_values(|c: CheckResultV| check_jv(c))));
            assert(wf_jsonv(e.drop_first().drop_first().drop_first().drop_first().drop_first()[0].1));
            assert(e.drop_first().drop_first().drop_first().drop_first().drop_first().drop_first()[0].1 == j);
            assert(wf_jsonv(e.drop_first().drop_first().drop_first().drop_first().drop_first().drop_first()[0].1));
            assert(e.drop_first().drop_first().drop_first().drop_first().drop_first().drop_first().drop_first()[0].1 == model_used_jv(v.model_used));
            assert(wf_jsonv(e.drop_first().drop_first().drop_first().drop_first().drop_first().drop_first().drop_first()[0].1));
            assert(e.drop_first().drop_first().drop_first().drop_first().drop_first().drop_first().drop_first().drop_first()[0].1 == JsonV::Str(v.created_at));
            assert(wf_jsonv(e.drop_first().drop_first().drop_first().drop_first().drop_first().drop_first().drop_first().drop_first()[0].1));
            assert(e.drop_first().drop_first().drop_first().drop_first().drop_first().drop_first().drop_first().drop_first().drop_first().len() == 0);
            assert(wf_jv_entries(e.drop_first().drop_first().drop_first().drop_first().drop_first().drop_first().drop_first().drop_first().drop_first()));
            assert(wf_jv_entries(e.drop_first().drop_first().drop_first().drop_first().drop_first().drop_first().drop_first().drop_first()));
            assert(wf_jv_entries(e.drop_first().drop_first().drop_first().drop_first().drop_first().drop_first().drop_first()));
            assert(wf_jv_entries(e.drop_first().drop_first().drop_first().drop_first().drop_first().drop_first()));
            assert(wf_jv_entries(e.drop_first().drop_first().drop_first().drop_first().drop_first()));
            assert(wf_jv_entries(e.drop_first().drop_first().drop_first().drop_first()));
            assert(wf_jv_entries(e.drop_first().drop_first().drop_first()));
            assert(wf_jv_entries(e.drop_first().drop_first()));
            assert(wf_jv_entries(e.drop_first()));
            assert(wf_jv_entries(e));
        },
        None => {
            assert(e[0].1 == JsonV::Str(v.schema_version));
            assert(wf_jsonv(e[0].1));
            assert(e.drop_first()[0].1 == JsonV::Str(v.task_id));
            assert(wf_jsonv(e.drop_first()[0].1));
            assert(e.drop_first().drop_first()[0].1 == JsonV::Str(v.solution_id));
            assert(wf_jsonv(e.drop_first().drop_first()[0].1));
            assert(e.drop_first().drop_first().drop_first()[0].1 == JsonV::Str(verdict_text(v.verdict)));
            assert(wf_jsonv(e.drop_first().drop_first().drop_first()[0].1));
            assert(e.drop_first().drop_first().drop_first().drop_first()[0].1 == JsonV::Num(v.score));
            assert(wf_jsonv(e.drop_first().drop_first().drop_first().drop_first()[0].1));
            assert(e.drop_first().drop_first().drop_first().drop_first().drop_first()[0].1 == JsonV::Arr(v.checks.map_values(|c: CheckResultV| check_jv(c))));
            assert(wf_jsonv(e.drop_first().drop_first().drop_first().drop_first().drop_first()[0].1));
            assert(e.drop_first().drop_first().drop_first().drop_first().drop_first().drop_first()[0].1 == model_used_jv(v.model_used));
            assert(wf_jsonv(e.drop_first().drop_first().drop_first().drop_first().drop_first().drop_first()[0].1));
            assert(e.drop_first().drop_first().drop_first().drop_first().drop_first().drop_first().drop_first()[0].1 == JsonV::Str(v.created_at));
            assert(wf_jsonv(e.drop_first().drop_first().drop_first().drop_first().drop_first().drop_first().drop_first()[0].1));
            assert(e.drop_first().drop_first().drop_first().drop_first().drop_first().drop_first().drop_first().drop_first().len() == 0);
            assert(wf_jv_entries(e.drop_first().drop_first().drop_first().drop_first().drop_first().drop_first().drop_first().drop_first()));
            assert(wf_jv_entries(e.drop_first().drop_first().drop_first().drop_first().drop_first().drop_first().drop_first()));
            assert(wf_jv_entries(e.drop_first().drop_first().drop_first().drop_first().drop_first().drop_first()));
            assert(wf_jv_entries(e.drop_first().drop_first().drop_first().drop_first().drop_first()));
            assert(wf_jv_entries(e.drop_first().drop_first().drop_first().drop_first()));
            assert(wf_jv_entries(e.drop_first().drop_first().drop_first()));
            assert(wf_jv_entries(e.drop_first().drop_first()));
            assert(wf_jv_entries(e.drop_first()));
            assert(wf_jv_entries(e));
        },
    }
    assert(wf_jsonv(validation_jv(v)));
}

proof fn lemma_wf_checks_list(checks: Seq<CheckResultV>)
    ensures
        wf_jv_list(checks.map_values(|c: CheckResultV| check_jv(c))),
    decreases checks.len(),
{
    let m = checks.map_values(|c: CheckResultV| check_jv(c));
    if checks.len() == 0 {
        assert(m.len() == 0);
    } else {
        lemma_wf_checks_list(checks.drop_first());
        assert(checks.drop_first().map_values(|c: CheckResultV| check_jv(c)) =~= m.drop_first());
        lemma_check_jv_wf(checks[0]);
        assert(m[0] == check_jv(checks[0]));
        reveal_with_fuel(wf_jv_list, 2);
    }
}


proof fn lemma_dt_rt(t: crate::schema::DeliverableType)
    ensures
        dec_dt(dt_text(t)) == Some(t),
{
    reveal_strlit("text");
    reveal_strlit("json");
    reveal_strlit("code");
    assert("json"@ != "text"@) by {
        assert("json"@[0] == 'j' && "text"@[0] == 't');
    }
    assert("code"@ != "text"@) by {
        assert("code"@[0] == 'c' && "text"@[0] == 't');
    }
    assert("code"@ != "json"@) by {
        assert("code"@[0] == 'c' && "json"@[0] == 'j');
    }
}

proof fn lemma_verdict_rt(v: crate::schema::Verdict)
    ensures
        dec_verdict(verdict_text(v)) == Some(v),
{
    reveal_strlit("pass");
    reveal_strlit("warn");
    reveal_strlit("fail");
    assert("warn"@ != "pass"@) by {
        assert("warn"@[0] == 'w' && "pass"@[0] == 'p');
    }
    assert("fail"@ != "pass"@) by {
        assert("fail"@[0] == 'f' && "pass"@[0] == 'p');
    }
    assert("fail"@ != "warn"@) by {
        assert("fail"@[0] == 'f' && "warn"@[0] == 'w');
    }
}

proof fn lemma_severity_rt(v: crate::schema::Severity)
    ensures
        dec_severity(severity_text(v)) == Some(v),
{
    reveal_strlit("minor");
    reveal_strlit("major");
    assert("major"@ != "minor"@) by {
        assert("major"@[1] == 'a' && "minor"@[1] == 'i');
    }
}

proof fn lemma_model_used_rt(m: crate::schema::ModelUsedV)
    requires
        is_number_text(m.temperature),
    ensures
        dec_model_used(model_used_jv(m)) == Some(m),
{
    reveal_strlit("name");
    reveal_strlit("temperature");
    assert("name"@ != "temperature"@) by {
        assert("name"@.len() == 4 && "temperature"@.len() == 11);
    }
    let e = model_used_jv(m)->Obj_0;
    assert(e[0] == ("name"@, JsonV::Str(m.name)));
    assert(e.drop_first()[0] == ("temperature"@, JsonV::Num(m.temperature)));
    assert(e.drop_first().drop_first().len() == 0);
    assert(key_count(e.drop_first().drop_first(), "name"@) == 0);
    assert(key_count(e.drop_first(), "name"@) == 0);
    assert(key_count(e, "name"@) == 1);
    assert(key_first(e, "name"@) == JsonV::Str(m.name));
    assert(key_count(e.drop_first().drop_first(), "temperature"@) == 0);
    assert(key_count(e.drop_first(), "temperature"@) == 1);
    assert(key_count(e, "temperature"@) == 1);
    assert(key_first(e.drop_first(), "temperature"@) == JsonV::Num(m.temperature));
    assert(key_first(e, "temperature"@) == JsonV::Num(m.temperature));
}

proof fn lemma_code_rt(c: crate::schema::CodeArtifactV)
    ensures
        dec_code(code_artifact_jv(c)) == Some(c),
{
    reveal_strlit("language");
    reveal_strlit("content");
    assert("content"@ != "language"@) by {
        assert("content"@.len() == 7 && "language"@.len() == 8);
    }
    let e = code_artifact_jv(c)->Obj_0;
    assert(e[0] == ("language"@, JsonV::Str(c.language)));
    assert(e.drop_first()[0] == ("content"@, JsonV::Str(c.content)));
    assert(e.drop_first().drop_first().len() == 0);
    assert(key_count(e.drop_first().drop_first(), "language"@) == 0);
    assert(key_count(e.drop_first(), "language"@) == 0);
    assert(key_count(e, "language"@) == 1);
    assert(key_first(e, "language"@) == JsonV::Str(c.language));
    assert(key_count(e.drop_first().drop_first(), "content"@) == 0);
    assert(key_count(e.drop_first(), "content"@) == 1);
    assert(key_count(e, "content"@) == 1);
    assert(key_first(e.drop_first(), "content"@) == JsonV::Str(c.content));
    assert(key_first(e, "content"@) == JsonV::Str(c.content));
}

proof fn lemma_deliverable_rt(d: DeliverableV)
    requires
        d matches DeliverableV::Json(j) ==> wf_jsonv(j) && !(j is Null),
    ensures
        dec_deliverable(deliverable_jv(d), crate::schema::tag_of(d)) == Some(d),
{
    reveal_strlit("text");
    reveal_strlit("json");
    reveal_strlit("code");
    assert("code"@ != "json"@) by {
        assert("code"@[0] == 'c' && "json"@[0] == 'j');
    }
    assert("code"@ != "text"@) by {
        assert("code"@[0] == 'c' && "text"@[0] == 't');
    }
    assert("json"@ != "text"@) by {
        assert("json"@[0] == 'j' && "text"@[0] == 't');
    }
    let e = deliverable_jv(d)->Obj_0;
    match d {
        DeliverableV::Text(t) => {
            assert(e[0] == ("text"@, JsonV::Str(t)));
            assert(e.drop_first().len() == 0);
            assert(key_count(e.drop_first(), "text"@) == 0);
            assert(key_count(e, "text"@) == 1);
            assert(key_first(e, "text"@) == JsonV::Str(t));
            assert(key_count(e.drop_first(), "json"@) == 0);
            assert(key_count(e, "json"@) == 0);
            assert(key_count(e.drop_first(), "code"@) == 0);
            assert(key_count(e, "code"@) == 0);
        },
        DeliverableV::Json(j) => {
            assert(e[0] == ("json"@, j));
            assert(e.drop_first().len() == 0);
            assert(key_count(e.drop_first(), "json"@) == 0);
            assert(key_count(e, "json"@) == 1);
            assert(key_first(e, "json"@) == j);
            assert(key_count(e.drop_first(), "text"@) == 0);
            assert(key_count(e, "text"@) == 0);
            assert(key_count(e.drop_first(), "code"@) == 0);
            assert(key_count(e, "code"@) == 0);
        },
        DeliverableV::Code(c) => {
            lemma_code_rt(c);
            assert(e[0] == ("code"@, code_artifact_jv(c)));
            assert(e.drop_first().len() == 0);
            assert(key_count(e.drop_first(), "code"@) == 0);
            assert(key_count(e, "code"@) == 1);
            assert(key_first(e, "code"@) == code_artifact_jv(c));
            assert(key_count(e.drop_first(), "text"@) == 0);
            assert(key_count(e, "text"@) == 0);
            assert(key_count(e.drop_first(), "json"@) == 0);
            assert(key_count(e, "json"@) == 0);
        },
    }
}

proof fn lemma_evidence_rt(ev: crate::schema::EvidenceV)
    ensures
        dec_evidence(evidence_jv(ev)) == Some(ev),
{
    reveal_strlit("system_prompt");
    reveal_strlit("usage_note");
    assert("system_prompt"@ != "usage_note"@) by {
        assert("system_prompt"@.len() == 13 && "usage_note"@.len() == 10);
    }
    let e = evidence_jv(ev)->Obj_0;
    match ev.usage_note {
        Some(n) => {
            assert(e[0] == ("system_prompt"@, JsonV::Str(ev.system_prompt)));
            assert(e.drop_first()[0] == ("usage_note"@, JsonV::Str(n)));
            assert(e.drop_first().drop_first().len() == 0);
            assert(key_count(e.drop_first().drop_first(), "system_prompt"@) == 0);
            assert(key_count(e.drop_first(), "system_prompt"@) == 0);
            assert(key_count(e, "system_prompt"@) == 1);
            assert(key_first(e, "system_prompt"@) == JsonV::Str(ev.system_prompt));
            assert(key_count(e.drop_first().drop_first(), "usage_note"@) == 0);
            assert(key_count(e.drop_first(), "usage_note"@) == 1);
            assert(key_count(e, "usage_note"@) == 1);
            assert(key_first(e.drop_first(), "usage_note"@) == JsonV::Str(n));
            assert(key_first(e, "usage_note"@) == JsonV::Str(n));
        },
        None => {
            assert(e[0] == ("system_prompt"@, JsonV::Str(ev.system_prompt)));
            assert(e.drop_first().len() == 0);
            assert(key_count(e.drop_first(), "system_prompt"@) == 0);
            assert(key_count(e, "system_prompt"@) == 1);
            assert(key_first(e, "system_prompt"@) == JsonV::Str(ev.system_prompt));
            assert(key_count(e.drop_first(), "usage_note"@) == 0);
            assert(key_count(e, "usage_note"@) == 0);
        },
    }
}

proof fn lemma_usage_rt(u: crate::schema::Usage)
    ensures
        dec_usage(usage_jv(u)) == Some(u),
{
    reveal_strlit("prompt_tokens");
    reveal_strlit("completion_tokens");
    assert("completion_tokens"@ != "prompt_tokens"@) by {
        assert("completion_tokens"@.len() == 17 && "prompt_tokens"@.len() == 13);
    }
    lemma_dec_rep_number_text(u.prompt_tokens as nat);
    lemma_dec_rep_number_text(u.completion_tokens as nat);
    let e = usage_jv(u)->Obj_0;
    assert(e[0] == ("prompt_tokens"@, JsonV::Num(dec_rep(u.prompt_tokens as nat))));
    assert(e.drop_first()[0] == ("completion_tokens"@, JsonV::Num(dec_rep(u.completion_tokens as nat))));
    assert(e.drop_first().drop_first().len() == 0);
    assert(key_count(e.drop_first().drop_first(), "prompt_tokens"@) == 0);
    assert(key_count(e.drop_first(), "prompt_tokens"@) == 0);
    assert(key_count(e, "prompt_tokens"@) == 1);
    assert(key_first(e, "prompt_tokens"@) == JsonV::Num(dec_rep(u.prompt_tokens as nat)));
    assert(key_count(e.drop_first().drop_first(), "completion_tokens"@) == 0);
    assert(key_count(e.drop_first(), "completion_tokens"@) == 1);
    assert(key_count(e, "completion_tokens"@) == 1);
    assert(key_first(e.drop_first(), "completion_tokens"@) == JsonV::Num(dec_rep(u.completion_tokens as nat)));
    assert(key_first(e, "completion_tokens"@) == JsonV::Num(dec_rep(u.completion_tokens as nat)));
    assert(dec_u32_field(e, "prompt_tokens"@) == Some(u.prompt_tokens));
    assert(dec_u32_field(e, "completion_tokens"@) == Some(u.completion_tokens));
}

#[verifier::rlimit(100)]
proof fn lemma_check_rt(c: CheckResultV)
    ensures
        dec_check(check_jv(c)) == Some(c),
{
    reveal_strlit("criterion");
    reveal_strlit("pass");
    reveal_strlit("reason");
    reveal_strlit("severity");
    reveal_strlit("suggested_fix");
    assert("criterion"@ != "pass"@) by {
        assert("criterion"@.len() == 9 && "pass"@.len() == 4);
    }
    assert("criterion"@ != "reason"@) by {
        assert("criterion"@.len() == 9 && "reason"@.len() == 6);
    }
    assert("criterion"@ != "severity"@) by {
        assert("criterion"@.len() == 9 && "severity"@.len() == 8);
    }
    assert("criterion"@ != "suggested_fix"@) by {
        assert("criterion"@.len() == 9 && "suggested_fix"@.len() == 13);
    }
    assert("pass"@ != "reason"@) by {
        assert("pass"@.len() == 4 && "reason"@.len() == 6);
    }
    assert("pass"@ != "severity"@) by {
        assert("pass"@.len() == 4 && "severity"@.len() == 8);
    }
    assert("pass"@ != "suggested_fix"@) by {
        assert("pass"@.len() == 4 && "suggested_fix"@.len() == 13);
    }
    assert("reason"@ != "severity"@) by {
        assert("reason"@.len() == 6 && "severity"@.len() == 8);
    }
    assert("reason"@ != "suggested_fix"@) by {
        assert("reason"@.len() == 6 && "suggested_fix"@.len() == 13);
    }
    assert("severity"@ != "suggested_fix"@) by {
        assert("severity"@.len() == 8 && "suggested_fix"@.len() == 13);
    }
    lemma_severity_rt(c.severity);
    let e = check_jv(c)->Obj_0;
    match c.suggested_fix {
        Some(f) => {
            assert(e[0] == ("criterion"@, JsonV::Str(c.criterion)));
            assert(e.drop_first()[0] == ("pass"@, JsonV::Bool(c.pass_)));
            assert(e.drop_first().drop_first()[0] == ("reason"@, JsonV::Str(c.reason)));
            assert(e.drop_first().drop_first().drop_first()[0] == ("severity"@, JsonV::Str(severity_text(c.severity))));
            assert(e.drop_first().drop_first().drop_first().drop_first()[0] == ("suggested_fix"@, JsonV::Str(f)));
            assert(e.drop_first().drop_first().drop_first().drop_first().drop_first().len() == 0);
            assert(key_count(e.drop_first().drop_first().drop_first().drop_first().drop_first(), "criterion"@) == 0);
            assert(key_count(e.drop_first().drop_first().drop_first().drop_first(), "criterion"@) == 0);
            assert(key_count(e.drop_first().drop_first().drop_first(), "criterion"@) == 0);
            assert(key_count(e.drop_first().drop_first(), "criterion"@) == 0);
            assert(key_count(e.drop_first(), "criterion"@) == 0);
            assert(key_count(e, "criterion"@) == 1);
            assert(key_first(e, "criterion"@) == JsonV::Str(c.criterion));
            assert(key_count(e.drop_first().drop_first().drop_first().drop_first().drop_first(), "pass"@) == 0);
            assert(key_count(e.drop_first().drop_first().drop_first().drop_first(), "pass"@) == 0);
            assert(key_count(e.drop_first().drop_first().drop_first(), "pass"@) == 0);
            assert(key_count(e.drop_first().drop_first(), "pass"@) == 0);
            assert(key_count(e.drop_first(), "pass"@) == 1);
            assert(key_count(e, "pass"@) == 1);
            assert(key_first(e.drop_first(), "pass"@) == JsonV::Bool(c.pass_));
            assert(key_first(e, "pass"@) == JsonV::Bool(c.pass_));
            assert(key_count(e.drop_first().drop_first().drop_first().drop_first().drop_first(), "reason"@) == 0);
            assert(key_count(e.drop_first().drop_first().drop_first().drop_first(), "reason"@) == 0);
            assert(key_count(e.drop_first().drop_first().drop_first(), "reason"@) == 0);
            assert(key_count(e.drop_first().drop_first(), "reason"@) == 1);
            assert(key_count(e.drop_first(), "reason"@) == 1);
            assert(key_count(e, "reason"@) == 1);
            assert(key_first(e.drop_first().drop_first(), "reason"@) == JsonV::Str(c.reason));
            assert(key_first(e.drop_first(), "reason"@) == JsonV::Str(c.reason));
            assert(key_first(e, "reason"@) == JsonV::Str(c.reason));
            assert(key_count(e.drop_first().drop_first().drop_first().drop_first().drop_first(), "severity"@) == 0);
            assert(key_count(e.drop_first().drop_first().drop_first().drop_first(), "severity"@) == 0);
            assert(key_count(e.drop_first().drop_first().drop_first(), "severity"@) == 1);
            assert(key_count(e.drop_first().drop_first(), "severity"@) == 1);
            assert(key_count(e.drop_first(), "severity"@) == 1);
            assert(key_count(e, "severity"@) == 1);
            assert(key_first(e.drop_first().drop_first().drop_first(), "severity"@) == JsonV::Str(severity_text(c.severity)));
            assert(key_first(e.drop_first().drop_first(), "severity"@) == JsonV::Str(severity_text(c.severity)));
            assert(key_first(e.drop_first(), "severity"@) == JsonV::Str(severity_text(c.severity)));
            assert(key_first(e, "severity"@) == JsonV::Str(severity_text(c.severity)));
            assert(key_count(e.drop_first().drop_first().drop_first().drop_first().drop_first(), "suggested_fix"@) == 0);
            assert(key_count(e.drop_first().drop_first().drop_first().drop_first(), "suggested_fix"@) == 1);
            assert(key_count(e.drop_first().drop_first().drop_first(), "suggested_fix"@) == 1);
            assert(key_count(e.drop_first().drop_first(), "suggested_fix"@) == 1);
            assert(key_count(e.drop_first(), "suggested_fix"@) == 1);
            assert(key_count(e, "suggested_fix"@) == 1);
            assert(key_first(e.drop_first().drop_first().drop_first().drop_first(), "suggested_fix"@) == JsonV::Str(f));
            assert(key_first(e.drop_first().drop_first().drop_first(), "suggested_fix"@) == JsonV::Str(f));
            assert(key_first(e.drop_first().drop_first(), "suggested_fix"@) == JsonV::Str(f));
            assert(key_first(e.drop_first(), "suggested_fix"@) == JsonV::Str(f));
            assert(key_first(e, "suggested_fix"@) == JsonV::Str(f));
        },
        None => {
            assert(e[0] == ("criterion"@, JsonV::Str(c.criterion)));
            assert(e.drop_first()[0] == ("pass"@, JsonV::Bool(c.pass_)));
            assert(e.drop_first().drop_first()[0] == ("reason"@, JsonV::Str(c.reason)));
            assert(e.drop_first().drop_first().drop_first()[0] == ("severity"@, JsonV::Str(severity_text(c.severity))));
            assert(e.drop_first().drop_first().drop_first().drop_first().len() == 0);
            assert(key_count(e.drop_first().drop_first().drop_first().drop_first(), "criterion"@) == 0);
            assert(key_count(e.drop_first().drop_first().drop_first(), "criterion"@) == 0);
            assert(key_count(e.drop_first().drop_first(), "criterion"@) == 0);
            assert(key_count(e.drop_first(), "criterion"@) == 0);
            assert(key_count(e, "criterion"@) == 1);
            assert(key_first(e, "criterion"@) == JsonV::Str(c.criterion));
            assert(key_count(e.drop_first().drop_first().drop_first().drop_first(), "pass"@) == 0);
            assert(key_count(e.drop_first().drop_first().drop_first(), "pass"@) == 0);
            assert(key_count(e.drop_first().drop_first(), "pass"@) == 0);
            assert(key_count(e.drop_first(), "pass"@) == 1);
            assert(key_count(e, "pass"@) == 1);
            assert(key_first(e.drop_first(), "pass"@) == JsonV::Bool(c.pass_));
            assert(key_first(e, "pass"@) == JsonV::Bool(c.pass_));
            assert(key_count(e.drop_first().drop_first().drop_first().drop_first(), "reason"@) == 0);
            assert(key_count(e.drop_first().drop_first().drop_first(), "reason"@) == 0);
            assert(key_count(e.drop_first().drop_first(), "reason"@) == 1);
            assert(key_count(e.drop_first(), "reason"@) == 1);
            assert(key_count(e, "reason"@) == 1);
            assert(key_first(e.drop_first().drop_first(), "reason"@) == JsonV::Str(c.reason));
            assert(key_first(e.drop_first(), "reason"@) == JsonV::Str(c.reason));
            assert(key_first(e, "reason"@) == JsonV::Str(c.reason));
            assert(key_count(e.drop_first().drop_first().drop_first().drop_first(), "severity"@) == 0);
            assert(key_count(e.drop_first().drop_first().drop_first(), "severity"@) == 1);
            assert(key_count(e.drop_first().drop_first(), "severity"@) == 1);
            assert(key_count(e.drop_first(), "severity"@) == 1);
            assert(key_count(e, "severity"@) == 1);
            assert(key_first(e.drop_first().drop_first().drop_first(), "severity"@) == JsonV::Str(severity_text(c.severity)));
            assert(key_first(e.drop_first().drop_first(), "severity"@) == JsonV::Str(severity_text(c.severity)));
            assert(key_first(e.drop_first(), "severity"@) == JsonV::Str(severity_text(c.severity)));
            assert(key_first(e, "severity"@) == JsonV::Str(severity_text(c.severity)));
            assert(key_count(e.drop_first().drop_first().drop_first().drop_first(), "suggested_fix"@) == 0);
            assert(key_count(e.drop_first().drop_first().drop_first(), "suggested_fix"@) == 0);
            assert(key_count(e.drop_first().drop_first(), "suggested_fix"@) == 0);
            assert(key_count(e.drop_first(), "suggested_fix"@) == 0);
            assert(key_count(e, "suggested_fix"@) == 0);
        },
    }
}

proof fn lemma_checks_rt(checks: Seq<CheckResultV>)
    ensures
        dec_checks(checks.map_values(|c: CheckResultV| check_jv(c))) == Some(checks),
    decreases checks.len(),
{
    let m = checks.map_values(|c: CheckResultV| check_jv(c));
    if checks.len() == 0 {
        assert(m.len() == 0);
        assert(checks =~= Seq::<CheckResultV>::empty());
    } else {
        lemma_check_rt(checks[0]);
        lemma_checks_rt(checks.drop_first());
        assert(m[0] == check_jv(checks[0]));
        assert(m.drop_first() =~= checks.drop_first().map_values(|c: CheckResultV| check_jv(c)));
        assert(seq![checks[0]] + checks.drop_first() =~= checks);
    }
}

#[verifier::rlimit(100)]
#[verifier::spinoff_prover]
proof fn lemma_solution_enc_dec(s: SolutionV)
    requires
        wf_solution(s),
    ensures
        dec_solution(solution_jv(s)) == Some(s),
{
    reveal_strlit("schema_version");
    reveal_strlit("task_id");
    reveal_strlit("solution_id");
    reveal_strlit("model_used");
    reveal_strlit("deliverable_type");
    reveal_strlit("deliverable");
    reveal_strlit("evidence");
    reveal_strlit("usage");
    reveal_strlit("created_at");
    assert("created_at"@ != "deliverable"@) by {
        assert("created_at"@.len() == 10 && "deliverable"@.len() == 11);
    }
    assert("created_at"@ != "deliverable_type"@) by {
        assert("created_at"@.len() == 10 && "deliverable_type"@.len() == 16);
    }
    assert("created_at"@ != "evidence"@) by {
        assert("created_at"@.len() == 10 && "evidence"@.len() == 8);
    }
    assert("created_at"@ != "model_used"@) by {
        assert("created_at"@[0] == 'c' && "model_used"@[0] == 'm');
    }
    assert("created_at"@ != "schema_version"@) by {
        assert("created_at"@.len() == 10 && "schema_version"@.len() == 14);
    }
    assert("created_at"@ != "solution_id"@) by {
        assert("created_at"@.len() == 10 && "solution_id"@.len() == 11);
    }
    assert("created_at"@ != "task_id"@) by {
        assert("created_at"@.len() == 10 && "task_id"@.len() == 7);
    }
    assert("created_at"@ != "usage"@) by {
        assert("created_at"@.len() == 10 && "usage"@.len() == 5);
    }
    assert("deliverable"@ != "deliverable_type"@) by {
        assert("deliverable"@.len() == 11 && "deliverable_type"@.len() == 16);
    }
    assert("deliverable"@ != "evidence"@) by {
        assert("deliverable"@.len() == 11 && "evidence"@.len() == 8);
    }
    assert("deliverable"@ != "model_used"@) by {
        assert("deliverable"@.len() == 11 && "model_used"@.len() == 10);
    }
    assert("deliverable"@ != "schema_version"@) by {
        assert("deliverable"@.len() == 11 && "schema_version"@.len() == 14);
    }
    assert("deliverable"@ != "solution_id"@) by {
        assert("deliverable"@[0] == 'd' && "solution_id"@[0] == 's');
    }
    assert("deliverable"@ != "task_id"@) by {
        assert("deliverable"@.len() == 11 && "task_id"@.len() == 7);
    }
    assert("deliverable"@ != "usage"@) by {
        assert("deliverable"@.len() == 11 && "usage"@.len() == 5);
    }
    assert("deliverable_type"@ != "evidence"@) by {
        assert("deliverable_type"@.len() == 16 && "evidence"@.len() == 8);
    }
    assert("deliverable_type"@ != "model_used"@) by {
        assert("deliverable_type"@.len() == 16 && "model_used"@.len() == 10);
    }
    assert("deliverable_type"@ != "schema_version"@) by {
        assert("deliverable_type"@.len() == 16 && "schema_version"@.len() == 14);
    }
    assert("deliverable_type"@ != "solution_id"@) by {
        assert("deliverable_type"@.len() == 16 && "solution_id"@.len() == 11);
    }
    assert("deliverable_type"@ != "task_id"@) by {
        assert("deliverable_type"@.len() == 16 && "task_id"@.len() == 7);
    }
    assert("deliverable_type"@ != "usage"@) by {
        assert("deliverable_type"@.len() == 16 && "usage"@.len() == 5);
    }
    assert("evidence"@ != "model_used"@) by {
        assert("evidence"@.len() == 8 && "model_used"@.len() == 10);
    }
    assert("evidence"@ != "schema_version"@) by {
        assert("evidence"@.len() == 8 && "schema_version"@.len() == 14);
    }
    assert("evidence"@ != "solution_id"@) by {
        assert("evidence"@.len() == 8 && "solution_id"@.len() == 11);
    }
    assert("evidence"@ != "task_id"@) by {
        assert("evidence"@.len() == 8 && "task_id"@.len() == 7);
    }
    assert("evidence"@ != "usage"@) by {
        assert("evidence"@.len() == 8 && "usage"@.len() == 5);
    }
    assert("model_used"@ != "schema_version"@) by {
        assert("model_used"@.len() == 10 && "schema_version"@.len() == 14);
    }
    assert("model_used"@ != "solution_id"@) by {
        assert("model_used"@.len() == 10 && "solution_id"@.len() == 11);
    }
    assert("model_used"@ != "task_id"@) by {
        assert("model_used"@.len() == 10 && "task_id"@.len() == 7);
    }
    assert("model_used"@ != "usage"@) by {
        assert("model_used"@.len() == 10 && "usage"@.len() == 5);
    }
    assert("schema_version"@ != "solution_id"@) by {
        assert("schema_version"@.len() == 14 && "solution_id"@.len() == 11);
    }
    assert("schema_version"@ != "task_id"@) by {
        assert("schema_version"@.len() == 14 && "task_id"@.len() == 7);
    }
    assert("schema_version"@ != "usage"@) by {
        assert("schema_version"@.len() == 14 && "usage"@.len() == 5);
    }
    assert("solution_id"@ != "task_id"@) by {
        assert("solution_id"@.len() == 11 && "task_id"@.len() == 7);
    }
    assert("solution_id"@ != "usage"@) by {
        assert("solution_id"@.len() == 11 && "usage"@.len() == 5);
    }
    assert("task_id"@ != "usage"@) by {
        assert("task_id"@.len() == 7 && "usage"@.len() == 5);
    }
    lemma_model_used_rt(s.model_used);
    lemma_dt_rt(s.deliverable_type);
    lemma_deliverable_rt(s.deliverable);
    lemma_evidence_rt(s.evidence);
    lemma_usage_rt(s.usage);
    let e = solution_jv(s)->Obj_0;
    assert(e[0] == ("schema_version"@, JsonV::Str(s.schema_version)));
    assert(e.drop_first()[0] == ("task_id"@, JsonV::Str(s.task_id)));
    assert(e.drop_first().drop_first()[0] == ("solution_id"@, JsonV::Str(s.solution_id)));
    assert(e.drop_first().drop_first().drop_first()[0] == ("model_used"@, model_used_jv(s.model_used)));
    assert(e.drop_first().drop_first().drop_first().drop_first()[0] == ("deliverable_type"@, JsonV::Str(dt_text(s.deliverable_type))));
    assert(e.drop_first().drop_first().drop_first().drop_first().drop_first()[0] == ("deliverable"@, deliverable_jv(s.deliverable)));
    assert(e.drop_first().drop_first().drop_first().drop_first().drop_first().drop_first()[0] == ("evidence"@, evidence_jv(s.evidence)));
    assert(e.drop_first().drop_first().drop_first().drop_first().drop_first().drop_first().drop_first()[0] == ("usage"@, usage_jv(s.usage)));
    assert(e.drop_first().drop_first().drop_first().drop_first().drop_first().drop_first().drop_first().drop_first()[0] == ("created_at"@, JsonV::Str(s.created_at)));
    assert(e.drop_first().drop_first().drop_first().drop_first().drop_first().drop_first().drop_first().drop_first().drop_first().len() == 0);
    assert(key_count(e.drop_first().drop_first().drop_first().drop_first().drop_first().drop_first().drop_first().drop_first().drop_first(), "schema_version"@) == 0);
    assert(key_count(e.drop_first().drop_first().drop_first().drop_first().drop_first().drop_first().drop_first().drop_first(), "schema_version"@) == 0);
    assert(key_count(e.drop_first().drop_first().drop_first().drop_first().drop_first().drop_first().drop_first(), "schema_version"@) == 0);
    assert(key_count(e.drop_first().drop_first().drop_first().drop_first().drop_first().drop_first(), "schema_version"@) == 0);
    assert(key_count(e.drop_first().drop_first().drop_first().drop_first().drop_first(), "schema_version"@) == 0);
    assert(key_count(e.drop_first().drop_first().drop_first().drop_first(), "schema_version"@) == 0);
    assert(key_count(e.drop_first().drop_first().drop_first(), "schema_version"@) == 0);
    assert(key_count(e.drop_first().drop_first(), "schema_version"@) == 0);
    assert(key_count(e.drop_first(), "schema_version"@) == 0);
    assert(key_count(e, "schema_version"@) == 1);
    assert(key_first(e, "schema_version"@) == JsonV::Str(s.schema_version));
    assert(key_count(e.drop_first().drop_first().drop_first().drop_first().drop_first().drop_first().drop_first().drop_first().drop_first(), "task_id"@) == 0);
    assert(key_count(e.drop_first().drop_first().drop_first().drop_first().drop_first().drop_first().drop_first().drop_first(), "task_id"@) == 0);
    assert(key_count(e.drop_first().drop_first().drop_first().drop_first().drop_first().drop_first().drop_first(), "task_id"@) == 0);
    assert(key_count(e.drop_first().drop_first().drop_first().drop_first().drop_first().drop_first(), "task_id"@) == 0);
    assert(key_count(e.drop_first().drop_first().drop_first().drop_first().drop_first(), "task_id"@) == 0);
    assert(key_count(e.drop_first().drop_first().drop_first().drop_first(), "task_id"@) == 0);
    assert(key_count(e.drop_first().drop_first().drop_first(), "task_id"@) == 0);
    assert(key_count(e.drop_first().drop_first(), "task_id"@) == 0);
    assert(key_count(e.drop_first(), "task_id"@) == 1);
    assert(key_count(e, "task_id"@) == 1);
    assert(key_first(e.drop_first(), "task_id"@) == JsonV::Str(s.task_id));
    assert(key_first(e, "task_id"@) == JsonV::Str(s.task_id));
    assert(key_count(e.drop_first().drop_first().drop_first().drop_first().drop_first().drop_first().drop_first().drop_first().drop_first(), "solution_id"@) == 0);
    assert(key_count(e.drop_first().drop_first().drop_first().drop_first().drop_first().drop_first().drop_first().drop_first(), "solution_id"@) == 0);
    assert(key_count(e.drop_first().drop_first().drop_first().drop_first().drop_first().drop_first().drop_first(), "solution_id"@) == 0);
    assert(key_count(e.drop_first().drop_first().drop_first().drop_first().drop_first().drop_first(), "solution_id"@) == 0);
    assert(key_count(e.drop_first().drop_first().drop_first().drop_first().drop_first(), "solution_id"@) == 0);
    assert(key_count(e.drop_first().drop_first().drop_first().drop_first(), "solution_id"@) == 0);
    assert(key_count(e.drop_first().drop_first().drop_first(), "solution_id"@) == 0);
    assert(key_count(e.drop_first().drop_first(), "solution_id"@) == 1);
    assert(key_count(e.drop_first(), "solution_id"@) == 1);
    assert(key_count(e, "solution_id"@) == 1);
    assert(key_first(e.drop_first().drop_first(), "solution_id"@) == JsonV::Str(s.solution_id));
    assert(key_first(e.drop_first(), "solution_id"@) == JsonV::Str(s.solution_id));
    assert(key_first(e, "solution_id"@) == JsonV::Str(s.solution_id));
    assert(key_count(e.drop_first().drop_first().drop_first().drop_first().drop_first().drop_first().drop_first().drop_first().drop_first(), "model_used"@) == 0);
    assert(key_count(e.drop_first().drop_first().drop_first().drop_first().drop_first().drop_first().drop_first().drop_first(), "model_used"@) == 0);
    assert(key_count(e.drop_first().drop_first().drop_first().drop_first().drop_first().drop_first().drop_first(), "model_used"@) == 0);
    assert(key_count(e.drop_first().drop_first().drop_first().drop_first().drop_first().drop_first(), "model_used"@) == 0);
    assert(key_count(e.drop_first().drop_first().drop_first().drop_first().drop_first(), "model_used"@) == 0);
    assert(key_count(e.drop_first().drop_first().drop_first().drop_first(), "model_used"@) == 0);
    assert(key_count(e.drop_first().drop_first().drop_first(), "model_used"@) == 1);
    assert(key_count(e.drop_first().drop_first(), "model_used"@) == 1);
    assert(key_count(e.drop_first(), "model_used"@) == 1);
    assert(key_count(e, "model_used"@) == 1);
    assert(key_first(e.drop_first().drop_first().drop_first(), "model_used"@) == model_used_jv(s.model_used));
    assert(key_first(e.drop_first().drop_first(), "model_used"@) == model_used_jv(s.model_used));
    assert(key_first(e.drop_first(), "model_used"@) == model_used_jv(s.model_used));
    assert(key_first(e, "model_used"@) == model_used_jv(s.model_used));
    assert(key_count(e.drop_first().drop_first().drop_first().drop_first().drop_first().drop_first().drop_first().drop_first().drop_first(), "deliverable_type"@) == 0);
    assert(key_count(e.drop_first().drop_first().drop_first().drop_first().drop_first().drop_first().drop_first().drop_first(), "deliverable_type"@) == 0);
    assert(key_count(e.drop_first().drop_first().drop_first().drop_first().drop_first().drop_first().drop_first(), "deliverable_type"@) == 0);
    assert(key_count(e.drop_first().drop_first().drop_first().drop_first().drop_first().drop_first(), "deliverable_type"@) == 0);
    assert(key_count(e.drop_first().drop_first().drop_first().drop_first().drop_first(), "deliverable_type"@) == 0);
    assert(key_count(e.drop_first().drop_first().drop_first().drop_first(), "deliverable_type"@) == 1);
    assert(key_count(e.drop_first().drop_first().drop_first(), "deliverable_type"@) == 1);
    assert(key_count(e.drop_first().drop_first(), "deliverable_type"@) == 1);
    assert(key_count(e.drop_first(), "deliverable_type"@) == 1);
    assert(key_count(e, "deliverable_type"@) == 1);
    assert(key_first(e.drop_first().drop_first().drop_first().drop_first(), "deliverable_type"@) == JsonV::Str(dt_text(s.deliverable_type)));
    assert(key_first(e.drop_first().drop_first().drop_first(), "deliverable_type"@) == JsonV::Str(dt_text(s.deliverable_type)));
    assert(key_first(e.drop_first().drop_first(), "deliverable_type"@) == JsonV::Str(dt_text(s.deliverable_type)));
    assert(key_first(e.drop_first(), "deliverable_type"@) == JsonV::Str(dt_text(s.deliverable_type)));
    assert(key_first(e, "deliverable_type"@) == JsonV::Str(dt_text(s.deliverable_type)));
    assert(key_count(e.drop_first().drop_first().drop_first().drop_first().drop_first().drop_first().drop_first().drop_first().drop_first(), "deliverable"@) == 0);
    assert(key_count(e.drop_first().drop_first().drop_first().drop_first().drop_first().drop_first().drop_first().drop_first(), "deliverable"@) == 0);
    assert(key_count(e.drop_first().drop_first().drop_first().drop_first().drop_first().drop_first().drop_first(), "deliverable"@) == 0);
    assert(key_count(e.drop_first().drop_first().drop_first().drop_first().drop_first().drop_first(), "deliverable"@) == 0);
    assert(key_count(e.drop_first().drop_first().drop_first().drop_first().drop_first(), "deliverable"@) == 1);
    assert(key_count(e.drop_first().drop_first().drop_first().drop_first(), "deliverable"@) == 1);
    assert(key_count(e.drop_first().drop_first().drop_first(), "deliverable"@) == 1);
    assert(key_count(e.drop_first().drop_first(), "deliverable"@) == 1);
    assert(key_count(e.drop_first(), "deliverable"@) == 1);
    assert(key_count(e, "deliverable"@) == 1);
    assert(key_first(e.drop_first().drop_first().drop_first().drop_first().drop_first(), "deliverable"@) == deliverable_jv(s.deliverable));
    assert(key_first(e.drop_first().drop_first().drop_first().drop_first(), "deliverable"@) == deliverable_jv(s.deliverable));
    assert(key_first(e.drop_first().drop_first().drop_first(), "deliverable"@) == deliverable_jv(s.deliverable));
    assert(key_first(e.drop_first().drop_first(), "deliverable"@) == deliverable_jv(s.deliverable));
    assert(key_first(e.drop_first(), "deliverable"@) == deliverable_jv(s.deliverable));
    assert(key_first(e, "deliverable"@) == deliverable_jv(s.deliverable));
    assert(key_count(e.drop_first().drop_first().drop_first().drop_first().drop_first().drop_first().drop_first().drop_first().drop_first(), "evidence"@) == 0);
    assert(key_count(e.drop_first().drop_first().drop_first().drop_first().drop_first().drop_first().drop_first().drop_first(), "evidence"@) == 0);
    assert(key_count(e.drop_first().drop_first().drop_first().drop_first().drop_first().drop_first().drop_first(), "evidence"@) == 0);
    assert(key_count(e.drop_first().drop_first().drop_first().drop_first().drop_first().drop_first(), "evidence"@) == 1);
    assert(key_count(e.drop_first().drop_first().drop_first().drop_first().drop_first(), "evidence"@) == 1);
    assert(key_count(e.drop_first().drop_first().drop_first().drop_first(), "evidence"@) == 1);
    assert(key_count(e.drop_first().drop_first().drop_first(), "evidence"@) == 1);
    assert(key_count(e.drop_first().drop_first(), "evidence"@) == 1);
    assert(key_count(e.drop_first(), "evidence"@) == 1);
    assert(key_count(e, "evidence"@) == 1);
    assert(key_first(e.drop_first().drop_first().drop_first().drop_first().drop_first().drop_first(), "evidence"@) == evidence_jv(s.evidence));
    assert(key_first(e.drop_first().drop_first().drop_first().drop_first().drop_first(), "evidence"@) == evidence_jv(s.evidence));
    assert(key_first(e.drop_first().drop_first().drop_first().drop_first(), "evidence"@) == evidence_jv(s.evidence));
    assert(key_first(e.drop_first().drop_first().drop_first(), "evidence"@) == evidence_jv(s.evidence));
    assert(key_first(e.drop_first().drop_first(), "evidence"@) == evidence_jv(s.evidence));
    assert(key_first(e.drop_first(), "evidence"@) == evidence_jv(s.evidence));
    assert(key_first(e, "evidence"@) == evidence_jv(s.evidence));
    assert(key_count(e.drop_first().drop_first().drop_first().drop_first().drop_first().drop_first().drop_first().drop_first().drop_first(), "usage"@) == 0);
    assert(key_count(e.drop_first().drop_first().drop_first().drop_first().drop_first().drop_first().drop_first().drop_first(), "usage"@) == 0);
    assert(key_count(e.drop_first().drop_first().drop_first().drop_first().drop_first().drop_first().drop_first(), "usage"@) == 1);
    assert(key_count(e.drop_first().drop_first().drop_first().drop_first().drop_first().drop_first(), "usage"@) == 1);
    assert(key_count(e.drop_first().drop_first().drop_first().drop_first().drop_first(), "usage"@) == 1);
    assert(key_count(e.drop_first().drop_first().drop_first().drop_first(), "usage"@) == 1);
    assert(key_count(e.drop_first().drop_first().drop_first(), "usage"@) == 1);
    assert(key_count(e.drop_first().drop_first(), "usage"@) == 1);
    assert(key_count(e.drop_first(), "usage"@) == 1);
    assert(key_count(e, "usage"@) == 1);
    assert(key_first(e.drop_first().drop_first().drop_first().drop_first().drop_first().drop_first().drop_first(), "usage"@) == usage_jv(s.usage));
    assert(key_first(e.drop_first().drop_first().drop_first().drop_first().drop_first().drop_first(), "usage"@) == usage_jv(s.usage));
    assert(key_first(e.drop_first().drop_first().drop_first().drop_first().drop_first(), "usage"@) == usage_jv(s.usage));
    assert(key_first(e.drop_first().drop_first().drop_first().drop_first(), "usage"@) == usage_jv(s.usage));
    assert(key_first(e.drop_first().drop_first().drop_first(), "usage"@) == usage_jv(s.usage));
    assert(key_first(e.drop_first().drop_first(), "usage"@) == usage_jv(s.usage));
    assert(key_first(e.drop_first(), "usage"@) == usage_jv(s.usage));
    assert(key_first(e, "usage"@) == usage_jv(s.usage));
    assert(key_count(e.drop_first().drop_first().drop_first().drop_first().drop_first().drop_first().drop_first().drop_first().drop_first(), "created_at"@) == 0);
    assert(key_count(e.drop_first().drop_first().drop_first().drop_first().drop_first().drop_first().drop_first().drop_first(), "created_at"@) == 1);
    assert(key_count(e.drop_first().drop_first().drop_first().drop_first().drop_first().drop_first().drop_first(), "created_at"@) == 1);
    assert(key_count(e.drop_first().drop_first().drop_first().drop_first().drop_first().drop_first(), "created_at"@) == 1);
    assert(key_count(e.drop_first().drop_first().drop_first().drop_first().drop_first(), "created_at"@) == 1);
    assert(key_count(e.drop_first().drop_first().drop_first().drop_first(), "created_at"@) == 1);
    assert(key_count(e.drop_first().drop_first().drop_first(), "created_at"@) == 1);
    assert(key_count(e.drop_first().drop_first(), "created_at"@) == 1);
    assert(key_count(e.drop_first(), "created_at"@) == 1);
    assert(key_count(e, "created_at"@) == 1);
    assert(key_first(e.drop_first().drop_first().drop_first().drop_first().drop_first().drop_first().drop_first().drop_first(), "created_at"@) == JsonV::Str(s.created_at));
    assert(key_first(e.drop_first().drop_first().drop_first().drop_first().drop_first().drop_first().drop_first(), "created_at"@) == JsonV::Str(s.created_at));
    assert(key_first(e.drop_first().drop_first().drop_first().drop_first().drop_first().drop_first(), "created_at"@) == JsonV::Str(s.created_at));
    assert(key_first(e.drop_first().drop_first().drop_first().drop_first().drop_first(), "created_at"@) == JsonV::Str(s.created_at));
    assert(key_first(e.drop_first().drop_first().drop_first().drop_first(), "created_at"@) == JsonV::Str(s.created_at));
    assert(key_first(e.drop_first().drop_first().drop_first(), "created_at"@) == JsonV::Str(s.created_at));
    assert(key_first(e.drop_first().drop_first(), "created_at"@) == JsonV::Str(s.created_at));
    assert(key_first(e.drop_first(), "created_at"@) == JsonV::Str(s.created_at));
    assert(key_first(e, "created_at"@) == JsonV::Str(s.created_at));
}

proof fn lemma_validation_keys_distinct()
    ensures
        "checks"@ != "created_at"@,
        "checks"@ != "model_used"@,
        "checks"@ != "schema_version"@,
        "checks"@ != "score"@,
        "checks"@ != "solution_id"@,
        "checks"@ != "suggested_rewrite"@,
        "checks"@ != "task_id"@,
        "checks"@ != "verdict"@,
        "created_at"@ != "model_used"@,
        "created_at"@ != "schema_version"@,
        "created_at"@ != "score"@,
        "created_at"@ != "solution_id"@,
        "created_at"@ != "suggested_rewrite"@,
        "created_at"@ != "task_id"@,
        "created_at"@ != "verdict"@,
        "model_used"@ != "schema_version"@,
        "model_used"@ != "score"@,
        "model_used"@ != "solution_id"@,
        "model_used"@ != "suggested_rewrite"@,
        "model_used"@ != "task_id"@,
        "model_used"@ != "verdict"@,
        "schema_version"@ != "score"@,
        "schema_version"@ != "solution_id"@,
        "schema_version"@ != "suggested_rewrite"@,
        "schema_version"@ != "task_id"@,
        "schema_version"@ != "verdict"@,
        "score"@ != "solution_id"@,
        "score"@ != "suggested_rewrite"@,
        "score"@ != "task_id"@,
        "score"@ != "verdict"@,
        "solution_id"@ != "suggested_rewrite"@,
        "solution_id"@ != "task_id"@,
        "solution_id"@ != "verdict"@,
        "suggested_rewrite"@ != "task_id"@,
        "suggested_rewrite"@ != "verdict"@,
        "task_id"@ != "verdict"@,
{
    reveal_strlit("checks");
    reveal_strlit("created_at");
    reveal_strlit("model_used");
    reveal_strlit("schema_version");
    reveal_strlit("score");
    reveal_strlit("solution_id");
    reveal_strlit("suggested_rewrite");
    reveal_strlit("task_id");
    reveal_strlit("verdict");
    assert("checks"@ != "created_at"@) by {
        assert("checks"@.len() == 6 && "created_at"@.len() == 10);
    }
    assert("checks"@ != "model_used"@) by {
        assert("checks"@.len() == 6 && "model_used"@.len() == 10);
    }
    assert("checks"@ != "schema_version"@) by {
        assert("checks"@.len() == 6 && "schema_version"@.len() == 14);
    }
    assert("checks"@ != "score"@) by {
        assert("checks"@.len() == 6 && "score"@.len() == 5);
    }
    assert("checks"@ != "solution_id"@) by {
        assert("checks"@.len() == 6 && "solution_id"@.len() == 11);
    }
    assert("checks"@ != "suggested_rewrite"@) by {
        assert("checks"@.len() == 6 && "suggested_rewrite"@.len() == 17);
    }
    assert("checks"@ != "task_id"@) by {
        assert("checks"@.len() == 6 && "task_id"@.len() == 7);
    }
    assert("checks"@ != "verdict"@) by {
        assert("checks"@.len() == 6 && "verdict"@.len() == 7);
    }
    assert("created_at"@ != "model_used"@) by {
        assert("created_at"@[0] == 'c' && "model_used"@[0] == 'm');
    }
    assert("created_at"@ != "schema_version"@) by {
        assert("created_at"@.len() == 10 && "schema_version"@.len() == 14);
    }
    assert("created_at"@ != "score"@) by {
        assert("created_at"@.len() == 10 && "score"@.len() == 5);
    }
    assert("created_at"@ != "solution_id"@) by {
        assert("created_at"@.len() == 10 && "solution_id"@.len() == 11);
    }
    assert("created_at"@ != "suggested_rewrite"@) by {
        assert("created_at"@.len() == 10 && "suggested_rewrite"@.len() == 17);
    }
    assert("created_at"@ != "task_id"@) by {
        assert("created_at"@.len() == 10 && "task_id"@.len() == 7);
    }
    assert("created_at"@ != "verdict"@) by {
        assert("created_at"@.len() == 10 && "verdict"@.len() == 7);
    }
    assert("model_used"@ != "schema_version"@) by {
        assert("model_used"@.len() == 10 && "schema_version"@.len() == 14);
    }
    assert("model_used"@ != "score"@) by {
        assert("model_used"@.len() == 10 && "score"@.len() == 5);
    }
    assert("model_used"@ != "solution_id"@) by {
        assert("model_used"@.len() == 10 && "solution_id"@.len() == 11);
    }
    assert("model_used"@ != "suggested_rewrite"@) by {
        assert("model_used"@.len() == 10 && "suggested_rewrite"@.len() == 17);
    }
    assert("model_used"@ != "task_id"@) by {
        assert("model_used"@.len() == 10 && "task_id"@.len() == 7);
    }
    assert("model_used"@ != "verdict"@) by {
        assert("model_used"@.len() == 10 && "verdict"@.len() == 7);
    }
    assert("schema_version"@ != "score"@) by {
        assert("schema_version"@.len() == 14 && "score"@.len() == 5);
    }
    assert("schema_version"@ != "solution_id"@) by {
        assert("schema_version"@.len() == 14 && "solution_id"@.len() == 11);
    }
    assert("schema_version"@ != "suggested_rewrite"@) by {
        assert("schema_version"@.len() == 14 && "suggested_rewrite"@.len() == 17);
    }
    assert("schema_version"@ != "task_id"@) by {
        assert("schema_version"@.len() == 14 && "task_id"@.len() == 7);
    }
    assert("schema_version"@ != "verdict"@) by {
        assert("schema_version"@.len() == 14 && "verdict"@.len() == 7);
    }
    assert("score"@ != "solution_id"@) by {
        assert("score"@.len() == 5 && "solution_id"@.len() == 11);
    }
    assert("score"@ != "suggested_rewrite"@) by {
        assert("score"@.len() == 5 && "suggested_rewrite"@.len() == 17);
    }
    assert("score"@ != "task_id"@) by {
        assert("score"@.len() == 5 && "task_id"@.len() == 7);
    }
    assert("score"@ != "verdict"@) by {
        assert("score"@.len() == 5 && "verdict"@.len() == 7);
    }
    assert("solution_id"@ != "suggested_rewrite"@) by {
        assert("solution_id"@.len() == 11 && "suggested_rewrite"@.len() == 17);
    }
    assert("solution_id"@ != "task_id"@) by {
        assert("solution_id"@.len() == 11 && "task_id"@.len() == 7);
    }
    assert("solution_id"@ != "verdict"@) by {
        assert("solution_id"@.len() == 11 && "verdict"@.len() == 7);
    }
    assert("suggested_rewrite"@ != "task_id"@) by {
        assert("suggested_rewrite"@.len() == 17 && "task_id"@.len() == 7);
    }
    assert("suggested_rewrite"@ != "verdict"@) by {
        assert("suggested_rewrite"@.len() == 17 && "verdict"@.len() == 7);
    }
    assert("task_id"@ != "verdict"@) by {
        assert("task_id"@[0] == 't' && "verdict"@[0] == 'v');
    }
}

#[verifier::rlimit(100)]
#[verifier::spinoff_prover]
proof fn lemma_validation_enc_dec_none(v: ValidationV)
    requires
        wf_validation(v),
        v.suggested_rewrite is None,
    ensures
        dec_validation(validation_jv(v)) == Some(v),
{
    reveal_strlit("schema_version");
    reveal_strlit("task_id");
    reveal_strlit("solution_id");
    reveal_strlit("verdict");
    reveal_strlit("score");
    reveal_strlit("checks");
    reveal_strlit("suggested_rewrite");
    reveal_strlit("model_used");
    reveal_strlit("created_at");
    lemma_validation_keys_distinct();
    lemma_model_used_rt(v.model_used);
    lemma_verdict_rt(v.verdict);
    lemma_checks_rt(v.checks);
    let e = validation_jv(v)->Obj_0;
    assert(e[0] == ("schema_version"@, JsonV::Str(v.schema_version)));
    assert(e.drop_first()[0] == ("task_id"@, JsonV::Str(v.task_id)));
    assert(e.drop_first().drop_first()[0] == ("solution_id"@, JsonV::Str(v.solution_id)));
    assert(e.drop_first().drop_first().drop_first()[0] == ("verdict"@, JsonV::Str(verdict_text(v.verdict))));
    assert(e.drop_first().drop_first().drop_first().drop_first()[0] == ("score"@, JsonV::Num(v.score)));
    assert(e.drop_first().drop_first().drop_first().drop_first().drop_first()[0] == ("checks"@, JsonV::Arr(v.checks.map_values(|c: CheckResultV| check_jv(c)))));
    assert(e.drop_first().drop_first().drop_first().drop_first().drop_first().drop_first()[0] == ("model_used"@, model_used_jv(v.model_used)));
    assert(e.drop_first().drop_first().drop_first().drop_first().drop_first().drop_first().drop_first()[0] == ("created_at"@, JsonV::Str(v.created_at)));
    assert(e.drop_first().drop_first().drop_first().drop_first().drop_first().drop_first().drop_first().drop_first().len() == 0);
    assert(key_count(e.drop_first().drop_first().drop_first().drop_first().drop_first().drop_first().drop_first().drop_first(), "schema_version"@) == 0);
    assert(key_count(e.drop_first().drop_first().drop_first().drop_first().drop_first().drop_first().drop_first(), "schema_version"@) == 0);
    assert(key_count(e.drop_first().drop_first().drop_first().drop_first().drop_first().drop_first(), "schema_version"@) == 0);
    assert(key_count(e.drop_first().drop_first().drop_first().drop_first().drop_first(), "schema_version"@) == 0);
    assert(key_count(e.drop_first().drop_first().drop_first().drop_first(), "schema_version"@) == 0);
    assert(key_count(e.drop_first().drop_first().drop_first(), "schema_version"@) == 0);
    assert(key_count(e.drop_first().drop_first(), "schema_version"@) == 0);
    assert(key_count(e.drop_first(), "schema_version"@) == 0);
    assert(key_count(e, "schema_version"@) == 1);
    assert(key_first(e, "schema_version"@) == JsonV::Str(v.schema_version));
    assert(key_count(e.drop_first().drop_first().drop_first().drop_first().drop_first().drop_first().drop_first().drop_first(), "task_id"@) == 0);
    assert(key_count(e.drop_first().drop_first().drop_first().drop_first().drop_first().drop_first().drop_first(), "task_id"@) == 0);
    assert(key_count(e.drop_first().drop_first().drop_first().drop_first().drop_first().drop_first(), "task_id"@) == 0);
    assert(key_count(e.drop_first().drop_first().drop_first().drop_first().drop_first(), "task_id"@) == 0);
    assert(key_count(e.drop_first().drop_first().drop_first().drop_first(), "task_id"@) == 0);
    assert(key_count(e.drop_first().drop_first().drop_first(), "task_id"@) == 0);
    assert(key_count(e.drop_first().drop_first(), "task_id"@) == 0);
    assert(key_count(e.drop_first(), "task_id"@) == 1);
    assert(key_count(e, "task_id"@) == 1);
    assert(key_first(e.drop_first(), "task_id"@) == JsonV::Str(v.task_id));
    assert(key_first(e, "task_id"@) == JsonV::Str(v.task_id));
    assert(key_count(e.drop_first().drop_first().drop_first().drop_first().drop_first().drop_first().drop_first().drop_first(), "solution_id"@) == 0);
    assert(key_count(e.drop_first().drop_first().drop_first().drop_first().drop_first().drop_first().drop_first(), "solution_id"@) == 0);
    assert(key_count(e.drop_first().drop_first().drop_first().drop_first().drop_first().drop_first(), "solution_id"@) == 0);
    assert(key_count(e.drop_first().drop_first().drop_first().drop_first().drop_first(), "solution_id"@) == 0);
    assert(key_count(e.drop_first().drop_first().drop_first().drop_first(), "solution_id"@) == 0);
    assert(key_count(e.drop_first().drop_first().drop_first(), "solution_id"@) == 0);
    assert(key_count(e.drop_first().drop_first(), "solution_id"@) == 1);
    assert(key_count(e.drop_first(), "solution_id"@) == 1);
    assert(key_count(e, "solution_id"@) == 1);
    assert(key_first(e.drop_first().drop_first(), "solution_id"@) == JsonV::Str(v.solution_id));
    assert(key_first(e.drop_first(), "solution_id"@) == JsonV::Str(v.solution_id));
    assert(key_first(e, "solution_id"@) == JsonV::Str(v.solution_id));
    assert(key_count(e.drop_first().drop_first().drop_first().drop_first().drop_first().drop_first().drop_first().drop_first(), "verdict"@) == 0);
    assert(key_count(e.drop_first().drop_first().drop_first().drop_first().drop_first().drop_first().drop_first(), "verdict"@) == 0);
    assert(key_count(e.drop_first().drop_first().drop_first().drop_first().drop_first().drop_first(), "verdict"@) == 0);
    assert(key_count(e.drop_first().drop_first().drop_first().drop_first().drop_first(), "verdict"@) == 0);
    assert(key_count(e.drop_first().drop_first().drop_first().drop_first(), "verdict"@) == 0);
    assert(key_count(e.drop_first().drop_first().drop_first(), "verdict"@) == 1);
    assert(key_count(e.drop_first().drop_first(), "verdict"@) == 1);
    assert(key_count(e.drop_first(), "verdict"@) == 1);
    assert(key_count(e, "verdict"@) == 1);
    assert(key_first(e.drop_first().drop_first().drop_first(), "verdict"@) == JsonV::Str(verdict_text(v.verdict)));
    assert(key_first(e.drop_first().drop_first(), "verdict"@) == JsonV::Str(verdict_text(v.verdict)));
    assert(key_first(e.drop_first(), "verdict"@) == JsonV::Str(verdict_text(v.verdict)));
    assert(key_first(e, "verdict"@) == JsonV::Str(verdict_text(v.verdict)));
    assert(key_count(e.drop_first().drop_first().drop_first().drop_first().drop_first().drop_first().drop_first().drop_first(), "score"@) == 0);
    assert(key_count(e.drop_first().drop_first().drop_first().drop_first().drop_first().drop_first().drop_first(), "score"@) == 0);
    assert(key_count(e.drop_first().drop_first().drop_first().drop_first().drop_first().drop_first(), "score"@) == 0);
    assert(key_count(e.drop_first().drop_first().drop_first().drop_first().drop_first(), "score"@) == 0);
    assert(key_count(e.drop_first().drop_first().drop_first().drop_first(), "score"@) == 1);
    assert(key_count(e.drop_first().drop_first().drop_first(), "score"@) == 1);
    assert(key_count(e.drop_first().drop_first(), "score"@) == 1);
    assert(key_count(e.drop_first(), "score"@) == 1);
    assert(key_count(e, "score"@) == 1);
    assert(key_first(e.drop_first().drop_first().drop_first().drop_first(), "score"@) == JsonV::Num(v.score));
    assert(key_first(e.drop_first().drop_first().drop_first(), "score"@) == JsonV::Num(v.score));
    assert(key_first(e.drop_first().drop_first(), "score"@) == JsonV::Num(v.score));
    assert(key_first(e.drop_first(), "score"@) == JsonV::Num(v.score));
    assert(key_first(e, "score"@) == JsonV::Num(v.score));
    assert(key_count(e.drop_first().drop_first().drop_first().drop_first().drop_first().drop_first().drop_first().drop_first(), "checks"@) == 0);
    assert(key_count(e.drop_first().drop_first().drop_first().drop_first().drop_first().drop_first().drop_first(), "checks"@) == 0);
    assert(key_count(e.drop_first().drop_first().drop_first().drop_first().drop_first().drop_first(), "checks"@) == 0);
    assert(key_count(e.drop_first().drop_first().drop_first().drop_first().drop_first(), "checks"@) == 1);
    assert(key_count(e.drop_first().drop_first().drop_first().drop_first(), "checks"@) == 1);
    assert(key_count(e.drop_first().drop_first().drop_first(), "checks"@) == 1);
    assert(key_count(e.drop_first().drop_first(), "checks"@) == 1);
    assert(key_count(e.drop_first(), "checks"@) == 1);
    assert(key_count(e, "checks"@) == 1);
    assert(key_first(e.drop_first().drop_first().drop_first().drop_first().drop_first(), "checks"@) == JsonV::Arr(v.checks.map_values(|c: CheckResultV| check_jv(c))));
    assert(key_first(e.drop_first().drop_first().drop_first().drop_first(), "checks"@) == JsonV::Arr(v.checks.map_values(|c: CheckResultV| check_jv(c))));
    assert(key_first(e.drop_first().drop_first().drop_first(), "checks"@) == JsonV::Arr(v.checks.map_values(|c: CheckResultV| check_jv(c))));
    assert(key_first(e.drop_first().drop_first(), "checks"@) == JsonV::Arr(v.checks.map_values(|c: CheckResultV| check_jv(c))));
    assert(key_first(e.drop_first(), "checks"@) == JsonV::Arr(v.checks.map_values(|c: CheckResultV| check_jv(c))));
    assert(key_first(e, "checks"@) == JsonV::Arr(v.checks.map_values(|c: CheckResultV| check_jv(c))));
    assert(key_count(e.drop_first().drop_first().drop_first().drop_first().drop_first().drop_first().drop_first().drop_first(), "model_used"@) == 0);
    assert(key_count(e.drop_first().drop_first().drop_first().drop_first().drop_first().drop_first().drop_first(), "model_used"@) == 0);
    assert(key_count(e.drop_first().drop_first().drop_first().drop_first().drop_first().drop_first(), "model_used"@) == 1);
    assert(key_count(e.drop_first().drop_first().drop_first().drop_first().drop_first(), "model_used"@) == 1);
    assert(key_count(e.drop_first().drop_first().drop_first().drop_first(), "model_used"@) == 1);
    assert(key_count(e.drop_first().drop_first().drop_first(), "model_used"@) == 1);
    assert(key_count(e.drop_first().drop_first(), "model_used"@) == 1);
    assert(key_count(e.drop_first(), "model_used"@) == 1);
    assert(key_count(e, "model_used"@) == 1);
    assert(key_first(e.drop_first().drop_first().drop_first().drop_first().drop_first().drop_first(), "model_used"@) == model_used_jv(v.model_used));
    assert(key_first(e.drop_first().drop_first().drop_first().drop_first().drop_first(), "model_used"@) == model_used_jv(v.model_used));
    assert(key_first(e.drop_first().drop_first().drop_first().drop_first(), "model_used"@) == model_used_jv(v.model_used));
    assert(key_first(e.drop_first().drop_first().drop_first(), "model_used"@) == model_used_jv(v.model_used));
    assert(key_first(e.drop_first().drop_first(), "model_used"@) == model_used_jv(v.model_used));
    assert(key_first(e.drop_first(), "model_used"@) == model_used_jv(v.model_used));
    assert(key_first(e, "model_used"@) == model_used_jv(v.model_used));
    assert(key_count(e.drop_first().drop_first().drop_first().drop_first().drop_first().drop_first().drop_first().drop_first(), "created_at"@) == 0);
    assert(key_count(e.drop_first().drop_first().drop_first().drop_first().drop_first().drop_first().drop_first(), "created_at"@) == 1);
    assert(key_count(e.drop_first().drop_first().drop_first().drop_first().drop_first().drop_first(), "created_at"@) == 1);
    assert(key_count(e.drop_first().drop_first().drop_first().drop_first().drop_first(), "created_at"@) == 1);
    assert(key_count(e.drop_first().drop_first().drop_first().drop_first(), "created_at"@) == 1);
    assert(key_count(e.drop_first().drop_first().drop_first(), "created_at"@) == 1);
    assert(key_count(e.drop_first().drop_first(), "created_at"@) == 1);
    assert(key_count(e.drop_first(), "created_at"@) == 1);
    assert(key_count(e, "created_at"@) == 1);
    assert(key_first(e.drop_first().drop_first().drop_first().drop_first().drop_first().drop_first().drop_first(), "created_at"@) == JsonV::Str(v.created_at));
    assert(key_first(e.drop_first().drop_first().drop_first().drop_first().drop_first().drop_first(), "created_at"@) == JsonV::Str(v.created_at));
    assert(key_first(e.drop_first().drop_first().drop_first().drop_first().drop_first(), "created_at"@) == JsonV::Str(v.created_at));
    assert(key_first(e.drop_first().drop_first().drop_first().drop_first(), "created_at"@) == JsonV::Str(v.created_at));
    assert(key_first(e.drop_first().drop_first().drop_first(), "created_at"@) == JsonV::Str(v.created_at));
    assert(key_first(e.drop_first().drop_first(), "created_at"@) == JsonV::Str(v.created_at));
    assert(key_first(e.drop_first(), "created_at"@) == JsonV::Str(v.created_at));
    assert(key_first(e, "created_at"@) == JsonV::Str(v.created_at));
    assert(req_str(e, "schema_version"@) == Some(v.schema_version));
    assert(req_str(e, "task_id"@) == Some(v.task_id));
    assert(req_str(e, "solution_id"@) == Some(v.solution_id));
    assert(req_str(e, "created_at"@) == Some(v.created_at));
    assert(req_str(e, "verdict"@) == Some(verdict_text(v.verdict)));
    assert(dec_verdict(verdict_text(v.verdict)) == Some(v.verdict));
    assert(dec_checks(v.checks.map_values(|c: CheckResultV| check_jv(c))) == Some(
        v.checks,
    ));
    assert(dec_model_used(key_first(e, "model_used"@)) == Some(v.model_used));
    assert(is_number_text(v.score));
    assert(ValidationV {
        schema_version: v.schema_version,
        task_id: v.task_id,
        solution_id: v.solution_id,
        verdict: v.verdict,
        score: v.score,
        checks: v.checks,
        suggested_rewrite: None,
        model_used: v.model_used,
        created_at: v.created_at,
    } == v);
    assert(key_count(e.drop_first().drop_first().drop_first().drop_first().drop_first().drop_first().drop_first().drop_first(), "suggested_rewrite"@) == 0);
    assert(key_count(e.drop_first().drop_first().drop_first().drop_first().drop_first().drop_first().drop_first(), "suggested_rewrite"@) == 0);
    assert(key_count(e.drop_first().drop_first().drop_first().drop_first().drop_first().drop_first(), "suggested_rewrite"@) == 0);
    assert(key_count(e.drop_first().drop_first().drop_first().drop_first().drop_first(), "suggested_rewrite"@) == 0);
    assert(key_count(e.drop_first().drop_first().drop_first().drop_first(), "suggested_rewrite"@) == 0);
    assert(key_count(e.drop_first().drop_first().drop_first(), "suggested_rewrite"@) == 0);
    assert(key_count(e.drop_first().drop_first(), "suggested_rewrite"@) == 0);
    assert(key_count(e.drop_first(), "suggested_rewrite"@) == 0);
    assert(key_count(e, "suggested_rewrite"@) == 0);

    assert(dec_validation(validation_jv(v)) == Some(v));
}

#[verifier::rlimit(100)]
#[verifier::spinoff_prover]
proof fn lemma_validation_enc_dec(v: ValidationV)
    requires
        wf_validation(v),
    ensures
        dec_validation(validation_jv(v)) == Some(v),
{
    reveal_strlit("schema_version");
    reveal_strlit("task_id");
    reveal_strlit("solution_id");
    reveal_strlit("verdict");
    reveal_strlit("score");
    reveal_strlit("checks");
    reveal_strlit("suggested_rewrite");
    reveal_strlit("model_used");
    reveal_strlit("created_at");
    assert("checks"@ != "created_at"@) by {
        assert("checks"@.len() == 6 && "created_at"@.len() == 10);
    }
    assert("checks"@ != "model_used"@) by {
        assert("checks"@.len() == 6 && "model_used"@.len() == 10);
    }
    assert("checks"@ != "schema_version"@) by {
        assert("checks"@.len() == 6 && "schema_version"@.len() == 14);
    }
    assert("checks"@ != "score"@) by {
        assert("checks"@.len() == 6 && "score"@.len() == 5);
    }
    assert("checks"@ != "solution_id"@) by {
        assert("checks"@.len() == 6 && "solution_id"@.len() == 11);
    }
    assert("checks"@ != "suggested_rewrite"@) by {
        assert("checks"@.len() == 6 && "suggested_rewrite"@.len() == 17);
    }
    assert("checks"@ != "task_id"@) by {
        assert("checks"@.len() == 6 && "task_id"@.len() == 7);
    }
    assert("checks"@ != "verdict"@) by {
        assert("checks"@.len() == 6 && "verdict"@.len() == 7);
    }
    assert("created_at"@ != "model_used"@) by {
        assert("created_at"@[0] == 'c' && "model_used"@[0] == 'm');
    }
    assert("created_at"@ != "schema_version"@) by {
        assert("created_at"@.len() == 10 && "schema_version"@.len() == 14);
    }
    assert("created_at"@ != "score"@) by {
        assert("created_at"@.len() == 10 && "score"@.len() == 5);
    }
    assert("created_at"@ != "solution_id"@) by {
        assert("created_at"@.len() == 10 && "solution_id"@.len() == 11);
    }
    assert("created_at"@ != "suggested_rewrite"@) by {
        assert("created_at"@.len() == 10 && "suggested_rewrite"@.len() == 17);
    }
    assert("created_at"@ != "task_id"@) by {
        assert("created_at"@.len() == 10 && "task_id"@.len() == 7);
    }
    assert("created_at"@ != "verdict"@) by {
        assert("created_at"@.len() == 10 && "verdict"@.len() == 7);
    }
    assert("model_used"@ != "schema_version"@) by {
        assert("model_used"@.len() == 10 && "schema_version"@.len() == 14);
    }
    assert("model_used"@ != "score"@) by {
        assert("model_used"@.len() == 10 && "score"@.len() == 5);
    }
    assert("model_used"@ != "solution_id"@) by {
        assert("model_used"@.len() == 10 && "solution_id"@.len() == 11);
    }
    assert("model_used"@ != "suggested_rewrite"@) by {
        assert("model_used"@.len() == 10 && "suggested_rewrite"@.len() == 17);
    }
    assert("model_used"@ != "task_id"@) by {
        assert("model_used"@.len() == 10 && "task_id"@.len() == 7);
    }
    assert("model_used"@ != "verdict"@) by {
        assert("model_used"@.len() == 10 && "verdict"@.len() == 7);
    }
    assert("schema_version"@ != "score"@) by {
        assert("schema_version"@.len() == 14 && "score"@.len() == 5);
    }
    assert("schema_version"@ != "solution_id"@) by {
        assert("schema_version"@.len() == 14 && "solution_id"@.len() == 11);
    }
    assert("schema_version"@ != "suggested_rewrite"@) by {
        assert("schema_version"@.len() == 14 && "suggested_rewrite"@.len() == 17);
    }
    assert("schema_version"@ != "task_id"@) by {
        assert("schema_version"@.len() == 14 && "task_id"@.len() == 7);
    }
    assert("schema_version"@ != "verdict"@) by {
        assert("schema_version"@.len() == 14 && "verdict"@.len() == 7);
    }
    assert("score"@ != "solution_id"@) by {
        assert("score"@.len() == 5 && "solution_id"@.len() == 11);
    }
    assert("score"@ != "suggested_rewrite"@) by {
        assert("score"@.len() == 5 && "suggested_rewrite"@.len() == 17);
    }
    assert("score"@ != "task_id"@) by {
        assert("score"@.len() == 5 && "task_id"@.len() == 7);
    }
    assert("score"@ != "verdict"@) by {
        assert("score"@.len() == 5 && "verdict"@.len() == 7);
    }
    assert("solution_id"@ != "suggested_rewrite"@) by {
        assert("solution_id"@.len() == 11 && "suggested_rewrite"@.len() == 17);
    }
    assert("solution_id"@ != "task_id"@) by {
        assert("solution_id"@.len() == 11 && "task_id"@.len() == 7);
    }
    assert("solution_id"@ != "verdict"@) by {
        assert("solution_id"@.len() == 11 && "verdict"@.len() == 7);
    }
    assert("suggested_rewrite"@ != "task_id"@) by {
        assert("suggested_rewrite"@.len() == 17 && "task_id"@.len() == 7);
    }
    assert("suggested_rewrite"@ != "verdict"@) by {
        assert("suggested_rewrite"@.len() == 17 && "verdict"@.len() == 7);
    }
    assert("task_id"@ != "verdict"@) by {
        assert("task_id"@[0] == 't' && "verdict"@[0] == 'v');
    }
    lemma_model_used_rt(v.model_used);
    lemma_verdict_rt(v.verdict);
    lemma_checks_rt(v.checks);
    let e = validation_jv(v)->Obj_0;
    match v.suggested_rewrite {
        Some(j) => {
            assert(e[0] == ("schema_version"@, JsonV::Str(v.schema_version)));
            assert(e.drop_first()[0] == ("task_id"@, JsonV::Str(v.task_id)));
            assert(e.drop_first().drop_first()[0] == ("solution_id"@, JsonV::Str(v.solution_id)));
            assert(e.drop_first().drop_first().drop_first()[0] == ("verdict"@, JsonV::Str(verdict_text(v.verdict))));
            assert(e.drop_first().drop_first().drop_first().drop_first()[0] == ("score"@, JsonV::Num(v.score)));
            assert(e.drop_first().drop_first().drop_first().drop_first().drop_first()[0] == ("checks"@, JsonV::Arr(v.checks.map_values(|c: CheckResultV| check_jv(c)))));
            assert(e.drop_first().drop_first().drop_first().drop_first().drop_first().drop_first()[0] == ("suggested_rewrite"@, j));
            assert(e.drop_first().drop_first().drop_first().drop_first().drop_first().drop_first().drop_first()[0] == ("model_used"@, model_used_jv(v.model_used)));
            assert(e.drop_first().drop_first().drop_first().drop_first().drop_first().drop_first().drop_first().drop_first()[0] == ("created_at"@, JsonV::Str(v.created_at)));
            assert(e.drop_first().drop_first().drop_first().drop_first().drop_first().drop_first().drop_first().drop_first().drop_first().len() == 0);
            assert(key_count(e.drop_first().drop_first().drop_first().drop_first().drop_first().drop_first().drop_first().drop_first().drop_first(), "schema_version"@) == 0);
            assert(key_count(e.drop_first().drop_first().drop_first().drop_first().drop_first().drop_first().drop_first().drop_first(), "schema_version"@) == 0);
            assert(key_count(e.drop_first().drop_first().drop_first().drop_first().drop_first().drop_first().drop_first(), "schema_version"@) == 0);
            assert(key_count(e.drop_first().drop_first().drop_first().drop_first().drop_first().drop_first(), "schema_version"@) == 0);
            assert(key_count(e.drop_first().drop_first().drop_first().drop_first().drop_first(), "schema_version"@) == 0);
            assert(key_count(e.drop_first().drop_first().drop_first().drop_first(), "schema_version"@) == 0);
            assert(key_count(e.drop_first().drop_first().drop_first(), "schema_version"@) == 0);
            assert(key_count(e.drop_first().drop_first(), "schema_version"@) == 0);
            assert(key_count(e.drop_first(), "schema_version"@) == 0);
            assert(key_count(e, "schema_version"@) == 1);
            assert(key_first(e, "schema_version"@) == JsonV::Str(v.schema_version));
            assert(key_count(e.drop_first().drop_first().drop_first().drop_first().drop_first().drop_first().drop_first().drop_first().drop_first(), "task_id"@) == 0);
            assert(key_count(e.drop_first().drop_first().drop_first().drop_first().drop_first().drop_first().drop_first().drop_first(), "task_id"@) == 0);
            assert(key_count(e.drop_first().drop_first().drop_first().drop_first().drop_first().drop_first().drop_first(), "task_id"@) == 0);
            assert(key_count(e.drop_first().drop_first().drop_first().drop_first().drop_first().drop_first(), "task_id"@) == 0);
            assert(key_count(e.drop_first().drop_first().drop_first().drop_first().drop_first(), "task_id"@) == 0);
            assert(key_count(e.drop_first().drop_first().drop_first().drop_first(), "task_id"@) == 0);
            assert(key_count(e.drop_first().drop_first().drop_first(), "task_id"@) == 0);
            assert(key_count(e.drop_first().drop_first(), "task_id"@) == 0);
            assert(key_count(e.drop_first(), "task_id"@) == 1);
            assert(key_count(e, "task_id"@) == 1);
            assert(key_first(e.drop_first(), "task_id"@) == JsonV::Str(v.task_id));
            assert(key_first(e, "task_id"@) == JsonV::Str(v.task_id));
            assert(key_count(e.drop_first().drop_first().drop_first().drop_first().drop_first().drop_first().drop_first().drop_first().drop_first(), "solution_id"@) == 0);
            assert(key_count(e.drop_first().drop_first().drop_first().drop_first().drop_first().drop_first().drop_first().drop_first(), "solution_id"@) == 0);
            assert(key_count(e.drop_first().drop_first().drop_first().drop_first().drop_first().drop_first().drop_first(), "solution_id"@) == 0);
            assert(key_count(e.drop_first().drop_first().drop_first().drop_first().drop_first().drop_first(), "solution_id"@) == 0);
            assert(key_count(e.drop_first().drop_first().drop_first().drop_first().drop_first(), "solution_id"@) == 0);
            assert(key_count(e.drop_first().drop_first().drop_first().drop_first(), "solution_id"@) == 0);
            assert(key_count(e.drop_first().drop_first().drop_first(), "solution_id"@) == 0);
            assert(key_count(e.drop_first().drop_first(), "solution_id"@) == 1);
            assert(key_count(e.drop_first(), "solution_id"@) == 1);
            assert(key_count(e, "solution_id"@) == 1);
            assert(key_first(e.drop_first().drop_first(), "solution_id"@) == JsonV::Str(v.solution_id));
            assert(key_first(e.drop_first(), "solution_id"@) == JsonV::Str(v.solution_id));
            assert(key_first(e, "solution_id"@) == JsonV::Str(v.solution_id));
            assert(key_count(e.drop_first().drop_first().drop_first().drop_first().drop_first().drop_first().drop_first().drop_first().drop_first(), "verdict"@) == 0);
            assert(key_count(e.drop_first().drop_first().drop_first().drop_first().drop_first().drop_first().drop_first().drop_first(), "verdict"@) == 0);
            assert(key_count(e.drop_first().drop_first().drop_first().drop_first().drop_first().drop_first().drop_first(), "verdict"@) == 0);
            assert(key_count(e.drop_first().drop_first().drop_first().drop_first().drop_first().drop_first(), "verdict"@) == 0);
            assert(key_count(e.drop_first().drop_first().drop_first().drop_first().drop_first(), "verdict"@) == 0);
            assert(key_count(e.drop_first().drop_first().drop_first().drop_first(), "verdict"@) == 0);
            assert(key_count(e.drop_first().drop_first().drop_first(), "verdict"@) == 1);
            assert(key_count(e.drop_first().drop_first(), "verdict"@) == 1);
            assert(key_count(e.drop_first(), "verdict"@) == 1);
            assert(key_count(e, "verdict"@) == 1);
            assert(key_first(e.drop_first().drop_first().drop_first(), "verdict"@) == JsonV::Str(verdict_text(v.verdict)));
            assert(key_first(e.drop_first().drop_first(), "verdict"@) == JsonV::Str(verdict_text(v.verdict)));
            assert(key_first(e.drop_first(), "verdict"@) == JsonV::Str(verdict_text(v.verdict)));
            assert(key_first(e, "verdict"@) == JsonV::Str(verdict_text(v.verdict)));
            assert(key_count(e.drop_first().drop_first().drop_first().drop_first().drop_first().drop_first().drop_first().drop_first().drop_first(), "score"@) == 0);
            assert(key_count(e.drop_first().drop_first().drop_first().drop_first().drop_first().drop_first().drop_first().drop_first(), "score"@) == 0);
            assert(key_count(e.drop_first().drop_first().drop_first().drop_first().drop_first().drop_first().drop_first(), "score"@) == 0);
            assert(key_count(e.drop_first().drop_first().drop_first().drop_first().drop_first().drop_first(), "score"@) == 0);
            assert(key_count(e.drop_first().drop_first().drop_first().drop_first().drop_first(), "score"@) == 0);
            assert(key_count(e.drop_first().drop_first().drop_first().drop_first(), "score"@) == 1);
            assert(key_count(e.drop_first().drop_first().drop_first(), "score"@) == 1);
            assert(key_count(e.drop_first().drop_first(), "score"@) == 1);
            assert(key_count(e.drop_first(), "score"@) == 1);
            assert(key_count(e, "score"@) == 1);
            assert(key_first(e.drop_first().drop_first().drop_first().drop_first(), "score"@) == JsonV::Num(v.score));
            assert(key_first(e.drop_first().drop_first().drop_first(), "score"@) == JsonV::Num(v.score));
            assert(key_first(e.drop_first().drop_first(), "score"@) == JsonV::Num(v.score));
            assert(key_first(e.drop_first(), "score"@) == JsonV::Num(v.score));
            assert(key_first(e, "score"@) == JsonV::Num(v.score));
            assert(key_count(e.drop_first().drop_first().drop_first().drop_first().drop_first().drop_first().drop_first().drop_first().drop_first(), "checks"@) == 0);
            assert(key_count(e.drop_first().drop_first().drop_first().drop_first().drop_first().drop_first().drop_first().drop_first(), "checks"@) == 0);
            assert(key_count(e.drop_first().drop_first().drop_first().drop_first().drop_first().drop_first().drop_first(), "checks"@) == 0);
            assert(key_count(e.drop_first().drop_first().drop_first().drop_first().drop_first().drop_first(), "checks"@) == 0);
            assert(key_count(e.drop_first().drop_first().drop_first().drop_first().drop_first(), "checks"@) == 1);
            assert(key_count(e.drop_first().drop_first().drop_first().drop_first(), "checks"@) == 1);
            assert(key_count(e.drop_first().drop_first().drop_first(), "checks"@) == 1);
            assert(key_count(e.drop_first().drop_first(), "checks"@) == 1);
            assert(key_count(e.drop_first(), "checks"@) == 1);
            assert(key_count(e, "checks"@) == 1);
            assert(key_first(e.drop_first().drop_first().drop_first().drop_first().drop_first(), "checks"@) == JsonV::Arr(v.checks.map_values(|c: CheckResultV| check_jv(c))));
            assert(key_first(e.drop_first().drop_first().drop_first().drop_first(), "checks"@) == JsonV::Arr(v.checks.map_values(|c: CheckResultV| check_jv(c))));
            assert(key_first(e.drop_first().drop_first().drop_first(), "checks"@) == JsonV::Arr(v.checks.map_values(|c: CheckResultV| check_jv(c))));
            assert(key_first(e.drop_first().drop_first(), "checks"@) == JsonV::Arr(v.checks.map_values(|c: CheckResultV| check_jv(c))));
            assert(key_first(e.drop_first(), "checks"@) == JsonV::Arr(v.checks.map_values(|c: CheckResultV| check_jv(c))));
            assert(key_first(e, "checks"@) == JsonV::Arr(v.checks.map_values(|c: CheckResultV| check_jv(c))));
            assert(key_count(e.drop_first().drop_first().drop_first().drop_first().drop_first().drop_first().drop_first().drop_first().drop_first(), "suggested_rewrite"@) == 0);
            assert(key_count(e.drop_first().drop_first().drop_first().drop_first().drop_first().drop_first().drop_first().drop_first(), "suggested_rewrite"@) == 0);
            assert(key_count(e.drop_first().drop_first().drop_first().drop_first().drop_first().drop_first().drop_first(), "suggested_rewrite"@) == 0);
            assert(key_count(e.drop_first().drop_first().drop_first().drop_first().drop_first().drop_first(), "suggested_rewrite"@) == 1);
            assert(key_count(e.drop_first().drop_first().drop_first().drop_first().drop_first(), "suggested_rewrite"@) == 1);
            assert(key_count(e.drop_first().drop_first().drop_first().drop_first(), "suggested_rewrite"@) == 1);
            assert(key_count(e.drop_first().drop_first().drop_first(), "suggested_rewrite"@) == 1);
            assert(key_count(e.drop_first().drop_first(), "suggested_rewrite"@) == 1);
            assert(key_count(e.drop_first(), "suggested_rewrite"@) == 1);
            assert(key_count(e, "suggested_rewrite"@) == 1);
            assert(key_first(e.drop_first().drop_first().drop_first().drop_first().drop_first().drop_first(), "suggested_rewrite"@) == j);
            assert(key_first(e.drop_first().drop_first().drop_first().drop_first().drop_first(), "suggested_rewrite"@) == j);
            assert(key_first(e.drop_first().drop_first().drop_first().drop_first(), "suggested_rewrite"@) == j);
            assert(key_first(e.drop_first().drop_first().drop_first(), "suggested_rewrite"@) == j);
            assert(key_first(e.drop_first().drop_first(), "suggested_rewrite"@) == j);
            assert(key_first(e.drop_first(), "suggested_rewrite"@) == j);
            assert(key_first(e, "suggested_rewrite"@) == j);
            assert(v.suggested_rewrite == Some(j));
            assert(wf_jsonv(j) && !(j is Null));
            assert(!(key_first(e, "suggested_rewrite"@) is Null));
            assert(wf_jsonv(key_first(e, "suggested_rewrite"@)));
            assert(key_count(e.drop_first().drop_first().drop_first().drop_first().drop_first().drop_first().drop_first().drop_first().drop_first(), "model_used"@) == 0);
            assert(key_count(e.drop_first().drop_first().drop_first().drop_first().drop_first().drop_first().drop_first().drop_first(), "model_used"@) == 0);
            assert(key_count(e.drop_first().drop_first().drop_first().drop_first().drop_first().drop_first().drop_first(), "model_used"@) == 1);
            assert(key_count(e.drop_first().drop_first().drop_first().drop_first().drop_first().drop_first(), "model_used"@) == 1);
            assert(key_count(e.drop_first().drop_first().drop_first().drop_first().drop_first(), "model_used"@) == 1);
            assert(key_count(e.drop_first().drop_first().drop_first().drop_first(), "model_used"@) == 1);
            assert(key_count(e.drop_first().drop_first().drop_first(), "model_used"@) == 1);
            assert(key_count(e.drop_first().drop_first(), "model_used"@) == 1);
            assert(key_count(e.drop_first(), "model_used"@) == 1);
            assert(key_count(e, "model_used"@) == 1);
            assert(key_first(e.drop_first().drop_first().drop_first().drop_first().drop_first().drop_first().drop_first(), "model_used"@) == model_used_jv(v.model_used));
            assert(key_first(e.drop_first().drop_first().drop_first().drop_first().drop_first().drop_first(), "model_used"@) == model_used_jv(v.model_used));
            assert(key_first(e.drop_first().drop_first().drop_first().drop_first().drop_first(), "model_used"@) == model_used_jv(v.model_used));
            assert(key_first(e.drop_first().drop_first().drop_first().drop_first(), "model_used"@) == model_used_jv(v.model_used));
            assert(key_first(e.drop_first().drop_first().drop_first(), "model_used"@) == model_used_jv(v.model_used));
            assert(key_first(e.drop_first().drop_first(), "model_used"@) == model_used_jv(v.model_used));
            assert(key_first(e.drop_first(), "model_used"@) == model_used_jv(v.model_used));
            assert(key_first(e, "model_used"@) == model_used_jv(v.model_used));
            assert(key_count(e.drop_first().drop_first().drop_first().drop_first().drop_first().drop_first().drop_first().drop_first().drop_first(), "created_at"@) == 0);
            assert(key_count(e.drop_first().drop_first().drop_first().drop_first().drop_first().drop_first().drop_first().drop_first(), "created_at"@) == 1);
            assert(key_count(e.drop_first().drop_first().drop_first().drop_first().drop_first().drop_first().drop_first(), "created_at"@) == 1);
            assert(key_count(e.drop_first().drop_first().drop_first().drop_first().drop_first().drop_first(), "created_at"@) == 1);
            assert(key_count(e.drop_first().drop_first().drop_first().drop_first().drop_first(), "created_at"@) == 1);
            assert(key_count(e.drop_first().drop_first().drop_first().drop_first(), "created_at"@) == 1);
            assert(key_count(e.drop_first().drop_first().drop_first(), "created_at"@) == 1);
            assert(key_count(e.drop_first().drop_first(), "created_at"@) == 1);
            assert(key_count(e.drop_first(), "created_at"@) == 1);
            assert(key_count(e, "created_at"@) == 1);
            assert(key_first(e.drop_first().drop_first().drop_first().drop_first().drop_first().drop_first().drop_first().drop_first(), "created_at"@) == JsonV::Str(v.created_at));
            assert(key_first(e.drop_first().drop_first().drop_first().drop_first().drop_first().drop_first().drop_first(), "created_at"@) == JsonV::Str(v.created_at));
            assert(key_first(e.drop_first().drop_first().drop_first().drop_first().drop_first().drop_first(), "created_at"@) == JsonV::Str(v.created_at));
            assert(key_first(e.drop_first().drop_first().drop_first().drop_first().drop_first(), "created_at"@) == JsonV::Str(v.created_at));
            assert(key_first(e.drop_first().drop_first().drop_first().drop_first(), "created_at"@) == JsonV::Str(v.created_at));
            assert(key_first(e.drop_first().drop_first().drop_first(), "created_at"@) == JsonV::Str(v.created_at));
            assert(key_first(e.drop_first().drop_first(), "created_at"@) == JsonV::Str(v.created_at));
            assert(key_first(e.drop_first(), "created_at"@) == JsonV::Str(v.created_at));
            assert(key_first(e, "created_at"@) == JsonV::Str(v.created_at));
            assert(ValidationV {
                schema_version: v.schema_version,
                task_id: v.task_id,
                solution_id: v.solution_id,
                verdict: v.verdict,
                score: v.score,
                checks: v.checks,
                suggested_rewrite: Some(j),
                model_used: v.model_used,
                created_at: v.created_at,
            } == v);
            assert(dec_validation(validation_jv(v)) == Some(v));
        },
        None => {
            lemma_validation_enc_dec_none(v);
        },
    }
}

/// Round trip (solutions): the written JSON of any well-formed solution
/// parses back to the same document, and that document decodes to a value
/// equal in all fields.
pub proof fn lemma_solution_round_trip(s: SolutionV)
    requires
        wf_solution(s),
    ensures
        parse_json_text(json_text(solution_jv(s))) == Some(solution_jv(s)),
        dec_solution(solution_jv(s)) == Some(s),
{
    lemma_solution_jv_wf(s);
    lemma_json_round_trip(solution_jv(s));
    lemma_solution_enc_dec(s);
}

/// Round trip (validations), in the same form.
pub proof fn lemma_validation_round_trip(v: ValidationV)
    requires
        wf_validation(v),
    ensures
        parse_json_text(json_text(validation_jv(v))) == Some(validation_jv(v)),
        dec_validation(validation_jv(v)) == Some(v),
{
    lemma_validation_jv_wf(v);
    lemma_json_round_trip(validation_jv(v));
    lemma_validation_enc_dec(v);
}

/// Repair is the identity on a solution whose schema version and creation
/// time are already populated.
pub proof fn lemma_defaulting_noop_solution(s: SolutionV, now: Seq<char>)
    requires
        s.schema_version.len() > 0,
        !is_blank(s.created_at),
    ensures
        spec_default_solution(s, now) == s,
{
}

/// Repairing a repaired solution changes nothing, whatever the second
/// clock reading is: the first repair leaves both fields populated.
pub proof fn lemma_defaulting_idempotent_solution(s: SolutionV, now: Seq<char>, later: Seq<char>)
    requires
        now.len() > 0,
        !is_blank(now),
    ensures
        spec_default_solution(spec_default_solution(s, now), later) == spec_default_solution(
            s,
            now,
        ),
{
    reveal_strlit("solution_v1");
    assert("solution_v1"@.len() == 11);
}

/// Repair is the identity on a validation whose schema version and
/// creation time are already populated.
pub proof fn lemma_defaulting_noop_validation(v: ValidationV, now: Seq<char>)
    requires
        v.schema_version.len() > 0,
        !is_blank(v.created_at),
    ensures
        spec_default_validation(v, now) == v,
{
}

/// Repairing a repaired validation changes nothing, whatever the second
/// clock reading is.
pub proof fn lemma_defaulting_idempotent_validation(
    v: ValidationV,
    now: Seq<char>,
    later: Seq<char>,
)
    requires
        now.len() > 0,
        !is_blank(now),
    ensures
        spec_default_validation(spec_default_validation(v, now), later) == spec_default_validation(
            v,
            now,
        ),
{
    reveal_strlit("validation_v1");
    assert("validation_v1"@.len() == 13);
}


/// The persisted artifact round trip: the pretty text written to
/// `solution.json` for any well-formed, fully populated solution is
/// accepted back as exactly that solution, whatever the clock then reads.
pub proof fn lemma_solution_artifact_round_trip(s: SolutionV, now: Seq<char>)
    requires
        wf_solution(s),
        s.schema_version.len() > 0,
        !is_blank(s.created_at),
    ensures
        crate::stages::spec_accept_solution(
            crate::json::json_pretty_text(solution_jv(s), 0),
            now,
        ) == Some(s),
{
    lemma_solution_jv_wf(s);
    crate::json_laws::lemma_json_pretty_round_trip(solution_jv(s));
    lemma_solution_enc_dec(s);
    lemma_defaulting_noop_solution(s, now);
}

/// The persisted artifact round trip for validations, in the same form.
pub proof fn lemma_validation_artifact_round_trip(v: ValidationV, now: Seq<char>)
    requires
        wf_validation(v),
        v.schema_version.len() > 0,
        !is_blank(v.created_at),
    ensures
        crate::stages::spec_accept_validation(
            crate::json::json_pretty_text(validation_jv(v), 0),
            now,
        ) == Some(v),
{
    lemma_validation_jv_wf(v);
    crate::json_laws::lemma_json_pretty_round_trip(validation_jv(v));
    lemma_validation_enc_dec(v);
    lemma_defaulting_noop_validation(v, now);
}

} // verus!
