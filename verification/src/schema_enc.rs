//! Writing schema values as JSON, exactly as the wire and the artifact
//! files carry them: field order is declaration order, and absent optional
//! fields are left out.

use vstd::prelude::*;

use crate::json::{jv, jv_entries, jv_list, lemma_jv_entries_index, lemma_jv_list_index, Json, JsonV};
use crate::numtext::{dec_rep, push_dec_u64};
use crate::schema::{
    CheckResult, CheckResultV, CodeArtifact, CodeArtifactV, Deliverable, DeliverableType,
    DeliverableV, Evidence, EvidenceV, ModelUsed, ModelUsedV, Severity, SolutionV, SolutionV1,
    TaskSpec, TaskSpecV, Usage, ValidationV, ValidationV1, Verdict,
};
use crate::strutil::str_copy;

verus! {

/// The wire word for a deliverable type.
pub open spec fn dt_text(t: DeliverableType) -> Seq<char> {
    match t {
        DeliverableType::Text => "text"@,
        DeliverableType::Json => "json"@,
        DeliverableType::Code => "code"@,
    }
}

/// The wire word for a verdict.
pub open spec fn verdict_text(v: Verdict) -> Seq<char> {
    match v {
        Verdict::Pass => "pass"@,
        Verdict::Warn => "warn"@,
        Verdict::Fail => "fail"@,
    }
}

/// The wire word for a severity.
pub open spec fn severity_text(v: Severity) -> Seq<char> {
    match v {
        Severity::Minor => "minor"@,
        Severity::Major => "major"@,
    }
}

/// The JSON writing of a task specification.
pub open spec fn task_spec_jv(t: TaskSpecV) -> JsonV {
    JsonV::Obj(
        seq![
            ("task_id"@, JsonV::Str(t.task_id)),
            ("goal"@, JsonV::Str(t.goal)),
            ("input"@, JsonV::Str(t.input)),
            (
                "acceptance_criteria"@,
                JsonV::Arr(t.acceptance_criteria.map_values(|c: Seq<char>| JsonV::Str(c))),
            ),
            ("deliverable_type"@, JsonV::Str(dt_text(t.deliverable_type))),
        ] + match t.hints {
            Some(h) => seq![("hints"@, JsonV::Str(h))],
            None => Seq::<(Seq<char>, JsonV)>::empty(),
        },
    )
}

/// The JSON writing of a model descriptor.
pub open spec fn model_used_jv(m: ModelUsedV) -> JsonV {
    JsonV::Obj(
        seq![("name"@, JsonV::Str(m.name)), ("temperature"@, JsonV::Num(m.temperature))],
    )
}

/// The JSON writing of a code artifact.
pub open spec fn code_artifact_jv(c: CodeArtifactV) -> JsonV {
    JsonV::Obj(
        seq![("language"@, JsonV::Str(c.language)), ("content"@, JsonV::Str(c.content))],
    )
}

/// The JSON writing of a deliverable: only the populated variant's field.
pub open spec fn deliverable_jv(d: DeliverableV) -> JsonV {
    JsonV::Obj(
        match d {
            DeliverableV::Text(t) => seq![("text"@, JsonV::Str(t))],
            DeliverableV::Json(j) => seq![("json"@, j)],
            DeliverableV::Code(c) => seq![("code"@, code_artifact_jv(c))],
        },
    )
}

/// The JSON writing of an evidence block.
pub open spec fn evidence_jv(e: EvidenceV) -> JsonV {
    JsonV::Obj(
        seq![("system_prompt"@, JsonV::Str(e.system_prompt))] + match e.usage_note {
            Some(n) => seq![("usage_note"@, JsonV::Str(n))],
            None => Seq::<(Seq<char>, JsonV)>::empty(),
        },
    )
}

/// The JSON writing of a usage pair.
pub open spec fn usage_jv(u: Usage) -> JsonV {
    JsonV::Obj(
        seq![
            ("prompt_tokens"@, JsonV::Num(dec_rep(u.prompt_tokens as nat))),
            ("completion_tokens"@, JsonV::Num(dec_rep(u.completion_tokens as nat))),
        ],
    )
}

/// The JSON writing of a solution.
pub open spec fn solution_jv(s: SolutionV) -> JsonV {
    JsonV::Obj(
        seq![
            ("schema_version"@, JsonV::Str(s.schema_version)),
            ("task_id"@, JsonV::Str(s.task_id)),
            ("solution_id"@, JsonV::Str(s.solution_id)),
            ("model_used"@, model_used_jv(s.model_used)),
            ("deliverable_type"@, JsonV::Str(dt_text(s.deliverable_type))),
            ("deliverable"@, deliverable_jv(s.deliverable)),
            ("evidence"@, evidence_jv(s.evidence)),
            ("usage"@, usage_jv(s.usage)),
            ("created_at"@, JsonV::Str(s.created_at)),
        ],
    )
}

/// The JSON writing of one check result.
pub open spec fn check_jv(c: CheckResultV) -> JsonV {
    JsonV::Obj(
        seq![
            ("criterion"@, JsonV::Str(c.criterion)),
            ("pass"@, JsonV::Bool(c.pass_)),
            ("reason"@, JsonV::Str(c.reason)),
            ("severity"@, JsonV::Str(severity_text(c.severity))),
        ] + match c.suggested_fix {
            Some(f) => seq![("suggested_fix"@, JsonV::Str(f))],
            None => Seq::<(Seq<char>, JsonV)>::empty(),
        },
    )
}

/// The JSON writing of a validation.
pub open spec fn validation_jv(v: ValidationV) -> JsonV {
    JsonV::Obj(
        seq![
            ("schema_version"@, JsonV::Str(v.schema_version)),
            ("task_id"@, JsonV::Str(v.task_id)),
            ("solution_id"@, JsonV::Str(v.solution_id)),
            ("verdict"@, JsonV::Str(verdict_text(v.verdict))),
            ("score"@, JsonV::Num(v.score)),
            ("checks"@, JsonV::Arr(v.checks.map_values(|c: CheckResultV| check_jv(c)))),
        ] + (match v.suggested_rewrite {
            Some(j) => seq![("suggested_rewrite"@, j)],
            None => Seq::<(Seq<char>, JsonV)>::empty(),
        }) + seq![
            ("model_used"@, model_used_jv(v.model_used)),
            ("created_at"@, JsonV::Str(v.created_at)),
        ],
    )
}

/// A fresh JSON value with the same model.
pub fn json_dup(j: &Json) -> (r: Json)
    ensures
        r@ == j@,
    decreases *j, 0int,
{
    match j {
        Json::Null => Json::Null,
        Json::Bool(b) => Json::Bool(*b),
        Json::Num(t) => Json::Num(str_copy(t.as_str())),
        Json::Str(s) => Json::Str(str_copy(s.as_str())),
        Json::Arr(items) => {
            let mut out: Vec<Json> = Vec::new();
            json_dup_items(items, 0, &mut out);
            proof {
                lemma_jv_list_index(items@);
                assert(jv_list(Seq::<Json>::empty()) =~= Seq::<JsonV>::empty());
                assert(jv_list(items@).subrange(0, items@.len() as int) =~= jv_list(items@));
                assert(jv_list(out@) =~= jv_list(items@));
            }
            Json::Arr(out)
        },
        Json::Obj(entries) => {
            let mut out: Vec<(String, Json)> = Vec::new();
            json_dup_entries(entries, 0, &mut out);
            proof {
                lemma_jv_entries_index(entries@);
                assert(jv_entries(Seq::<(String, Json)>::empty()) =~= Seq::<(
                    Seq<char>,
                    JsonV,
                )>::empty());
                assert(jv_entries(entries@).subrange(0, entries@.len() as int) =~= jv_entries(
                    entries@,
                ));
                assert(jv_entries(out@) =~= jv_entries(entries@));
            }
            Json::Obj(out)
        },
    }
}

fn json_dup_items(items: &Vec<Json>, k: usize, out: &mut Vec<Json>)
    requires
        k <= items@.len(),
    ensures
        jv_list(final(out)@) == jv_list(old(out)@) + jv_list(items@).subrange(
            k as int,
            items@.len() as int,
        ),
    decreases items@, items@.len() - k,
{
    proof {
        lemma_jv_list_index(items@);
    }
    if k < items.len() {
        let ghost out0 = out@;
        let d = json_dup(&items[k]);
        out.push(d);
        proof {
            lemma_jv_list_index(out0);
            lemma_jv_list_index(out@);
            assert(jv_list(out@) =~= jv_list(out0) + seq![jv(items@[k as int])]);
        }
        json_dup_items(items, k + 1, out);
        proof {
            assert(jv_list(out@) =~= jv_list(out0) + jv_list(items@).subrange(
                k as int,
                items@.len() as int,
            ));
        }
    } else {
        proof {
            assert(jv_list(out@) =~= jv_list(out@) + jv_list(items@).subrange(
                k as int,
                items@.len() as int,
            ));
        }
    }
}

fn json_dup_entries(entries: &Vec<(String, Json)>, k: usize, out: &mut Vec<(String, Json)>)
    requires
        k <= entries@.len(),
    ensures
        jv_entries(final(out)@) == jv_entries(old(out)@) + jv_entries(entries@).subrange(
            k as int,
            entries@.len() as int,
        ),
    decreases entries@, entries@.len() - k,
{
    proof {
        lemma_jv_entries_index(entries@);
    }
    if k < entries.len() {
        let ghost out0 = out@;
        let key = str_copy(entries[k].0.as_str());
        let d = json_dup(&entries[k].1);
        out.push((key, d));
        proof {
            lemma_jv_entries_index(out0);
            lemma_jv_entries_index(out@);
            assert(jv_entries(out@) =~= jv_entries(out0) + seq![
                (entries@[k as int].0@, jv(entries@[k as int].1)),
            ]);
        }
        json_dup_entries(entries, k + 1, out);
        proof {
            assert(jv_entries(out@) =~= jv_entries(out0) + jv_entries(entries@).subrange(
                k as int,
                entries@.len() as int,
            ));
        }
    } else {
        proof {
            assert(jv_entries(out@) =~= jv_entries(out@) + jv_entries(entries@).subrange(
                k as int,
                entries@.len() as int,
            ));
        }
    }
}

fn u32_num(n: u32) -> (r: Json)
    ensures
        r@ == JsonV::Num(dec_rep(n as nat)),
{
    let mut out: Vec<char> = Vec::new();
    push_dec_u64(n as u64, &mut out);
    Json::Num(crate::json::chars_to_string(&out))
}

/// The executable writing of a task specification.
pub fn task_spec_to_json(t: &TaskSpec) -> (r: Json)
    ensures
        r@ == task_spec_jv(t@),
{
    let mut entries: Vec<(String, Json)> = Vec::new();
    entries.push((str_copy("task_id"), Json::Str(t.task_id.clone())));
    entries.push((str_copy("goal"), Json::Str(t.goal.clone())));
    entries.push((str_copy("input"), Json::Str(t.input.clone())));
    let mut crits: Vec<Json> = Vec::new();
    let mut k: usize = 0;
    while k < t.acceptance_criteria.len()
        invariant
            k <= t.acceptance_criteria@.len(),
            crits@.len() == k,
            forall|x: int| 0 <= x < k ==> jv(#[trigger] crits@[x]) == JsonV::Str(
                t.acceptance_criteria@[x]@,
            ),
        decreases t.acceptance_criteria@.len() - k,
    {
        crits.push(Json::Str(t.acceptance_criteria[k].clone()));
        k = k + 1;
    }
    proof {
        lemma_jv_list_index(crits@);
        assert(jv_list(crits@) =~= t@.acceptance_criteria.map_values(|c: Seq<char>| JsonV::Str(c)));
    }
    entries.push((str_copy("acceptance_criteria"), Json::Arr(crits)));
    entries.push((str_copy("deliverable_type"), Json::Str(dt_to_string(t.deliverable_type))));
    match &t.hints {
        Some(h) => {
            entries.push((str_copy("hints"), Json::Str(h.clone())));
        },
        None => {},
    }
    proof {
        lemma_jv_entries_index(entries@);
        assert(jv_entries(entries@) =~= task_spec_jv(t@)->Obj_0);
    }
    Json::Obj(entries)
}

/// The wire word for a deliverable type, as a fresh string.
pub fn dt_to_string(t: DeliverableType) -> (r: String)
    ensures
        r@ == dt_text(t),
{
    match t {
        DeliverableType::Text => str_copy("text"),
        DeliverableType::Json => str_copy("json"),
        DeliverableType::Code => str_copy("code"),
    }
}

/// The wire word for a verdict, as a fresh string.
pub fn verdict_to_string(v: Verdict) -> (r: String)
    ensures
        r@ == verdict_text(v),
{
    match v {
        Verdict::Pass => str_copy("pass"),
        Verdict::Warn => str_copy("warn"),
        Verdict::Fail => str_copy("fail"),
    }
}

/// The wire word for a severity, as a fresh string.
pub fn severity_to_string(v: Severity) -> (r: String)
    ensures
        r@ == severity_text(v),
{
    match v {
        Severity::Minor => str_copy("minor"),
        Severity::Major => str_copy("major"),
    }
}

fn model_used_to_json(m: &ModelUsed) -> (r: Json)
    ensures
        r@ == model_used_jv(m@),
{
    let mut entries: Vec<(String, Json)> = Vec::new();
    entries.push((str_copy("name"), Json::Str(m.name.clone())));
    entries.push((str_copy("temperature"), Json::Num(m.temperature.clone())));
    proof {
        lemma_jv_entries_index(entries@);
        assert(jv_entries(entries@) =~= model_used_jv(m@)->Obj_0);
    }
    Json::Obj(entries)
}

fn code_artifact_to_json(c: &CodeArtifact) -> (r: Json)
    ensures
        r@ == code_artifact_jv(c@),
{
    let mut entries: Vec<(String, Json)> = Vec::new();
    entries.push((str_copy("language"), Json::Str(c.language.clone())));
    entries.push((str_copy("content"), Json::Str(c.content.clone())));
    proof {
        lemma_jv_entries_index(entries@);
        assert(jv_entries(entries@) =~= code_artifact_jv(c@)->Obj_0);
    }
    Json::Obj(entries)
}

fn deliverable_to_json(d: &Deliverable) -> (r: Json)
    ensures
        r@ == deliverable_jv(d@),
{
    let mut entries: Vec<(String, Json)> = Vec::new();
    match d {
        Deliverable::Text(t) => {
            entries.push((str_copy("text"), Json::Str(t.clone())));
        },
        Deliverable::Json(j) => {
            entries.push((str_copy("json"), json_dup(j)));
        },
        Deliverable::Code(c) => {
            entries.push((str_copy("code"), code_artifact_to_json(c)));
        },
    }
    proof {
        lemma_jv_entries_index(entries@);
        assert(jv_entries(entries@) =~= deliverable_jv(d@)->Obj_0);
    }
    Json::Obj(entries)
}

fn evidence_to_json(e: &Evidence) -> (r: Json)
    ensures
        r@ == evidence_jv(e@),
{
    let mut entries: Vec<(String, Json)> = Vec::new();
    entries.push((str_copy("system_prompt"), Json::Str(e.system_prompt.clone())));
    match &e.usage_note {
        Some(n) => {
            entries.push((str_copy("usage_note"), Json::Str(n.clone())));
        },
        None => {},
    }
    proof {
        lemma_jv_entries_index(entries@);
        assert(jv_entries(entries@) =~= evidence_jv(e@)->Obj_0);
    }
    Json::Obj(entries)
}

fn usage_to_json(u: &Usage) -> (r: Json)
    ensures
        r@ == usage_jv(*u),
{
    let mut entries: Vec<(String, Json)> = Vec::new();
    entries.push((str_copy("prompt_tokens"), u32_num(u.prompt_tokens)));
    entries.push((str_copy("completion_tokens"), u32_num(u.completion_tokens)));
    proof {
        lemma_jv_entries_index(entries@);
        assert(jv_entries(entries@) =~= usage_jv(*u)->Obj_0);
    }
    Json::Obj(entries)
}

/// The executable writing of a solution.
pub fn solution_to_json(s: &SolutionV1) -> (r: Json)
    ensures
        r@ == solution_jv(s@),
{
    let mut entries: Vec<(String, Json)> = Vec::new();
    entries.push((str_copy("schema_version"), Json::Str(s.schema_version.clone())));
    entries.push((str_copy("task_id"), Json::Str(s.task_id.clone())));
    entries.push((str_copy("solution_id"), Json::Str(s.solution_id.clone())));
    entries.push((str_copy("model_used"), model_used_to_json(&s.model_used)));
    entries.push((str_copy("deliverable_type"), Json::Str(dt_to_string(s.deliverable_type))));
    entries.push((str_copy("deliverable"), deliverable_to_json(&s.deliverable)));
    entries.push((str_copy("evidence"), evidence_to_json(&s.evidence)));
    entries.push((str_copy("usage"), usage_to_json(&s.usage)));
    entries.push((str_copy("created_at"), Json::Str(s.created_at.clone())));
    proof {
        lemma_jv_entries_index(entries@);
        assert(jv_entries(entries@) =~= solution_jv(s@)->Obj_0);
    }
    Json::Obj(entries)
}

fn check_to_json(c: &CheckResult) -> (r: Json)
    ensures
        r@ == check_jv(c@),
{
    let mut entries: Vec<(String, Json)> = Vec::new();
    entries.push((str_copy("criterion"), Json::Str(c.criterion.clone())));
    entries.push((str_copy("pass"), Json::Bool(c.pass_)));
    entries.push((str_copy("reason"), Json::Str(c.reason.clone())));
    entries.push((str_copy("severity"), Json::Str(severity_to_string(c.severity))));
    match &c.suggested_fix {
        Some(f) => {
            entries.push((str_copy("suggested_fix"), Json::Str(f.clone())));
        },
        None => {},
    }
    proof {
        lemma_jv_entries_index(entries@);
        assert(jv_entries(entries@) =~= check_jv(c@)->Obj_0);
    }
    Json::Obj(entries)
}

/// The executable writing of a validation.
pub fn validation_to_json(v: &ValidationV1) -> (r: Json)
    ensures
        r@ == validation_jv(v@),
{
    let mut entries: Vec<(String, Json)> = Vec::new();
    entries.push((str_copy("schema_version"), Json::Str(v.schema_version.clone())));
    entries.push((str_copy("task_id"), Json::Str(v.task_id.clone())));
    entries.push((str_copy("solution_id"), Json::Str(v.solution_id.clone())));
    entries.push((str_copy("verdict"), Json::Str(verdict_to_string(v.verdict))));
    entries.push((str_copy("score"), Json::Num(v.score.clone())));
    let mut checks: Vec<Json> = Vec::new();
    let mut k: usize = 0;
    while k < v.checks.len()
        invariant
            k <= v.checks@.len(),
            checks@.len() == k,
            forall|x: int| 0 <= x < k ==> jv(#[trigger] checks@[x]) == check_jv(v.checks@[x]@),
        decreases v.checks@.len() - k,
    {
        let cj = check_to_json(&v.checks[k]);
        checks.push(cj);
        k = k + 1;
    }
    proof {
        lemma_jv_list_index(checks@);
        assert(jv_list(checks@) =~= v@.checks.map_values(|c: CheckResultV| check_jv(c)));
    }
    entries.push((str_copy("checks"), Json::Arr(checks)));
    match &v.suggested_rewrite {
        Some(j) => {
            entries.push((str_copy("suggested_rewrite"), json_dup(j)));
        },
        None => {},
    }
    entries.push((str_copy("model_used"), model_used_to_json(&v.model_used)));
    entries.push((str_copy("created_at"), Json::Str(v.created_at.clone())));
    proof {
        lemma_jv_entries_index(entries@);
        assert(jv_entries(entries@) =~= validation_jv(v@)->Obj_0);
    }
    Json::Obj(entries)
}

} // verus!
