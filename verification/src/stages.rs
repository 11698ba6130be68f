//! The two stages' verified core: the exact instruction and payload text
//! each stage sends, the reading and repair of the model's reply, and the
//! artifact text each stage persists. Sending the request and writing the
//! file stay outside; they hand the raw reply text in and take the artifact
//! text back.

use vstd::prelude::*;

use crate::errors::AgentError;
use crate::json::{json_pretty_text, json_text, json_to_pretty_string, json_to_string, JsonV};
use crate::json_parse::{parse_json, parse_json_text};
use crate::schema::{
    wf_solution, wf_validation, SolutionV, SolutionV1, TaskSpec, TaskSpecV, ValidationV,
    ValidationV1,
};
use crate::schema_dec::{dec_solution, dec_validation, decode_solution, decode_validation};
use crate::schema_enc::{solution_jv, task_spec_jv, validation_jv, solution_to_json,
    task_spec_to_json, validation_to_json};
use crate::strutil::{is_blank, str_copy, str_is_blank};
use crate::transport::ChatMessage;

verus! {

/// The Producer's fixed system instruction: the full solution schema.
pub const PRODUCER_SYSTEM_PROMPT: &'static str = "\nYou are Agent 1. Produce a solution strictly as JSON matching the schema below. Do not add commentary or markdown. Output ONLY a JSON object.\n\nDescriptions in the schema indicate expected data and type; replace them with actual values in your output.\n\nSchema (SolutionV1):\n{\n  \"schema_version\": \"Schema version identifier; must be 'solution_v1' (string)\",\n  \"task_id\": \"Identifier of the task being solved (string)\",\n  \"solution_id\": \"Unique identifier for this solution (string)\",\n  \"model_used\": {\n    \"name\": \"Model name used to generate the solution, e.g., 'deepseek-chat' (string)\",\n    \"temperature\": \"Sampling temperature used for generation (number)\"\n  },\n  \"deliverable_type\": \"Type of deliverable: 'text' | 'json' | 'code' (string)\",\n  \"deliverable\": {\n    \"text\": \"Plain text content if deliverable_type='text' (string or null)\",\n    \"json\": \"JSON content if deliverable_type='json' (object/array/value or null)\",\n    \"code\": {\n      \"language\": \"Programming language for the code deliverable, e.g., 'rs', 'py' (string)\",\n      \"content\": \"Source code content if deliverable_type='code' (string)\"\n    }\n  },\n  \"evidence\": {\n    \"system_prompt\": \"Truncated copy of the system prompt used (string)\",\n    \"usage_note\": \"Optional notes about generation context or constraints (string or null)\"\n  },\n  \"usage\": {\n    \"prompt_tokens\": \"Number of prompt tokens consumed (integer)\",\n    \"completion_tokens\": \"Number of completion tokens generated (integer)\"\n  },\n  \"created_at\": \"Creation timestamp in RFC3339 format, UTC (string)\"\n}\n";

/// The Auditor's fixed system instruction: the full validation schema.
pub const AUDITOR_SYSTEM_PROMPT: &'static str = "\nYou are Agent 2. Given TaskSpec and a SolutionV1, grade it strictly against acceptance_criteria. Output ONLY JSON matching ValidationV1.\n\nDescriptions in the schema indicate expected data and type; replace them with actual values in your output.\n\nSchema (ValidationV1):\n{\n  \"schema_version\": \"Schema version identifier; must be 'validation_v1' (string)\",\n  \"task_id\": \"Identifier of the task being validated (string)\",\n  \"solution_id\": \"Identifier of the solution under review (string)\",\n  \"verdict\": \"Overall result: 'pass' | 'warn' | 'fail' (string)\",\n  \"score\": \"Normalized score in [0.0, 1.0] reflecting quality/compliance (number)\",\n  \"checks\": [\n    {\n      \"criterion\": \"Acceptance criterion being assessed (string)\",\n      \"pass\": \"Whether this criterion passed (boolean)\",\n      \"reason\": \"Explanation for the outcome (string)\",\n      \"severity\": \"Impact level if failing: 'minor' | 'major' (string)\",\n      \"suggested_fix\": \"Optional suggestion to remediate a failure (string or null)\"\n    }\n  ],\n  \"suggested_rewrite\": \"Optional repaired content or structured fix (any JSON value or null)\",\n  \"model_used\": {\n    \"name\": \"Model name used for auditing, e.g., 'deepseek-reasoner' (string)\",\n    \"temperature\": \"Sampling temperature used for validation (number)\"\n  },\n  \"created_at\": \"Creation timestamp in RFC3339 format, UTC (string)\"\n}\n";

/// The instruction line sent beside the task specification.
pub const PRODUCER_INSTRUCTIONS: &'static str = "Use the deliverable_type from TaskSpec. Populate created_at with current time. Ensure only one of deliverable.text/json/code is present as per deliverable_type.";

/// The instruction line sent beside the task and the solution.
pub const AUDITOR_INSTRUCTIONS: &'static str = "Include one check per acceptance_criteria item. Set verdict and a score in [0.0, 1.0].";

/// The Producer's user payload: its instruction line and the task, as one
/// JSON object in key order.
pub open spec fn producer_payload_jv(t: TaskSpecV) -> JsonV {
    JsonV::Obj(
        seq![
            ("instructions"@, JsonV::Str(PRODUCER_INSTRUCTIONS@)),
            ("task_spec"@, task_spec_jv(t)),
        ],
    )
}

/// The Auditor's user payload: its instruction line, the solution under
/// review, and the task, as one JSON object in key order.
pub open spec fn auditor_payload_jv(t: TaskSpecV, s: SolutionV) -> JsonV {
    JsonV::Obj(
        seq![
            ("instructions"@, JsonV::Str(AUDITOR_INSTRUCTIONS@)),
            ("solution"@, solution_jv(s)),
            ("task_spec"@, task_spec_jv(t)),
        ],
    )
}

/// The two turns the Producer stage sends: its fixed system instruction,
/// then the task payload.
pub fn producer_messages(task: &TaskSpec) -> (r: Vec<ChatMessage>)
    ensures
        r@.len() == 2,
        r@[0]@.role == "system"@,
        r@[0]@.content == PRODUCER_SYSTEM_PROMPT@,
        r@[1]@.role == "user"@,
        r@[1]@.content == json_text(producer_payload_jv(task@)),
{
    let mut entries: Vec<(String, crate::json::Json)> = Vec::new();
    entries.push((str_copy("instructions"), crate::json::Json::Str(str_copy(
        PRODUCER_INSTRUCTIONS,
    ))));
    entries.push((str_copy("task_spec"), task_spec_to_json(task)));
    proof {
        crate::json::lemma_jv_entries_index(entries@);
        assert(crate::json::jv_entries(entries@) =~= producer_payload_jv(task@)->Obj_0);
    }
    let payload = crate::json::Json::Obj(entries);
    let mut r: Vec<ChatMessage> = Vec::new();
    r.push(ChatMessage { role: str_copy("system"), content: str_copy(PRODUCER_SYSTEM_PROMPT) });
    r.push(ChatMessage { role: str_copy("user"), content: json_to_string(&payload) });
    r
}

/// The two turns the Auditor stage sends: its fixed system instruction,
/// then the task and the solution under review.
pub fn auditor_messages(task: &TaskSpec, solution: &SolutionV1) -> (r: Vec<ChatMessage>)
    ensures
        r@.len() == 2,
        r@[0]@.role == "system"@,
        r@[0]@.content == AUDITOR_SYSTEM_PROMPT@,
        r@[1]@.role == "user"@,
        r@[1]@.content == json_text(auditor_payload_jv(task@, solution@)),
{
    let mut entries: Vec<(String, crate::json::Json)> = Vec::new();
    entries.push((str_copy("instructions"), crate::json::Json::Str(str_copy(
        AUDITOR_INSTRUCTIONS,
    ))));
    entries.push((str_copy("solution"), solution_to_json(solution)));
    entries.push((str_copy("task_spec"), task_spec_to_json(task)));
    proof {
        crate::json::lemma_jv_entries_index(entries@);
        assert(crate::json::jv_entries(entries@) =~= auditor_payload_jv(task@, solution@)->Obj_0);
    }
    let payload = crate::json::Json::Obj(entries);
    let mut r: Vec<ChatMessage> = Vec::new();
    r.push(ChatMessage { role: str_copy("system"), content: str_copy(AUDITOR_SYSTEM_PROMPT) });
    r.push(ChatMessage { role: str_copy("user"), content: json_to_string(&payload) });
    r
}

/// The current time in RFC3339 form.
/// Relies on `chrono::Utc::now().to_rfc3339()`: an RFC3339 date-time such
/// as `1996-12-19T16:39:57+00:00` is never empty and holds no whitespace.
#[verifier::external_body]
pub(crate) fn now_rfc3339() -> (r: String)
    ensures
        r@.len() > 0,
        !is_blank(r@),
        forall|k: int| 0 <= k < r@.len() ==> !crate::json::is_ws(#[trigger] r@[k]),
{
    chrono::Utc::now().to_rfc3339()
}

/// The repair of a freshly parsed solution: an empty schema version gets
/// the fixed literal, a blank creation time gets the given clock reading.
/// Nothing else changes.
pub open spec fn spec_default_solution(s: SolutionV, now: Seq<char>) -> SolutionV {
    SolutionV {
        schema_version: if s.schema_version.len() == 0 {
            "solution_v1"@
        } else {
            s.schema_version
        },
        created_at: if is_blank(s.created_at) {
            now
        } else {
            s.created_at
        },
        ..s
    }
}

/// The repair of a freshly parsed validation, with its own fixed literal.
pub open spec fn spec_default_validation(v: ValidationV, now: Seq<char>) -> ValidationV {
    ValidationV {
        schema_version: if v.schema_version.len() == 0 {
            "validation_v1"@
        } else {
            v.schema_version
        },
        created_at: if is_blank(v.created_at) {
            now
        } else {
            v.created_at
        },
        ..v
    }
}

/// Fills the two defaulted fields of a solution, exactly as
/// `spec_default_solution` says.
pub fn default_solution_fields(s: &mut SolutionV1, now: &str)
    ensures
        final(s)@ == spec_default_solution(old(s)@, now@),
{
    if s.schema_version.as_str().is_empty() {
        s.schema_version = str_copy("solution_v1");
    }
    if str_is_blank(s.created_at.as_str()) {
        s.created_at = str_copy(now);
    }
}

/// Fills the two defaulted fields of a validation, exactly as
/// `spec_default_validation` says.
pub fn default_validation_fields(v: &mut ValidationV1, now: &str)
    ensures
        final(v)@ == spec_default_validation(old(v)@, now@),
{
    if v.schema_version.as_str().is_empty() {
        v.schema_version = str_copy("validation_v1");
    }
    if str_is_blank(v.created_at.as_str()) {
        v.created_at = str_copy(now);
    }
}

/// What accepting a Producer reply yields for a given clock reading: the
/// parsed, decoded and repaired solution, or nothing for any text that is
/// not one JSON document in the solution shape.
pub open spec fn spec_accept_solution(raw: Seq<char>, now: Seq<char>) -> Option<SolutionV> {
    match parse_json_text(raw) {
        None => None,
        Some(v) => match dec_solution(v) {
            None => None,
            Some(sol) => Some(spec_default_solution(sol, now)),
        },
    }
}

/// What accepting an Auditor reply yields for a given clock reading.
pub open spec fn spec_accept_validation(raw: Seq<char>, now: Seq<char>) -> Option<ValidationV> {
    match parse_json_text(raw) {
        None => None,
        Some(v) => match dec_validation(v) {
            None => None,
            Some(val) => Some(spec_default_validation(val, now)),
        },
    }
}

/// Every decoded solution is well-formed: its temperature is number text
/// and its populated deliverable variant agrees with its tag.
pub proof fn lemma_dec_solution_wf(v: JsonV)
    ensures
        dec_solution(v) matches Some(s) ==> wf_solution(s),
{
}

/// Every decoded validation is well-formed.
pub proof fn lemma_dec_validation_wf(v: JsonV)
    ensures
        dec_validation(v) matches Some(x) ==> wf_validation(x),
{
}

/// Every accepted solution's populated deliverable variant agrees with its
/// own deliverable-type tag, whatever reply text and clock reading led to
/// it: a reply in contradiction of its tag is rejected instead.
pub proof fn lemma_accepted_deliverable_matches_tag(raw: Seq<char>, now: Seq<char>)
    ensures
        spec_accept_solution(raw, now) matches Some(s) ==> crate::schema::tag_of(s.deliverable)
            == s.deliverable_type,
{
    match parse_json_text(raw) {
        None => {},
        Some(v) => {
            lemma_dec_solution_wf(v);
        },
    }
}

/// Reads a Producer reply against the solution schema and repairs the two
/// defaulted fields with the given clock reading. Fails exactly on text
/// that is not one JSON document in the solution shape, and every accepted
/// solution is well-formed.
pub fn accept_solution(raw: &str, now: &str) -> (r: Result<SolutionV1, AgentError>)
    ensures
        (match r {
            Ok(sol) => spec_accept_solution(raw@, now@) == Some(sol@) && wf_solution(sol@),
            Err(e) => spec_accept_solution(raw@, now@) is None && e@ is Serde,
        }),
{
    let parsed = match parse_json(raw) {
        Some(v) => v,
        None => {
            return Err(AgentError::Serde(str_copy("reply is not valid JSON")));
        },
    };
    let mut sol = match decode_solution(&parsed) {
        Some(s) => s,
        None => {
            return Err(
                AgentError::Serde(str_copy("reply does not match the solution schema")),
            );
        },
    };
    proof {
        lemma_dec_solution_wf(parsed@);
    }
    default_solution_fields(&mut sol, now);
    Ok(sol)
}

/// Reads an Auditor reply against the validation schema and repairs the
/// two defaulted fields with the given clock reading.
pub fn accept_validation(raw: &str, now: &str) -> (r: Result<ValidationV1, AgentError>)
    ensures
        (match r {
            Ok(val) => spec_accept_validation(raw@, now@) == Some(val@) && wf_validation(val@),
            Err(e) => spec_accept_validation(raw@, now@) is None && e@ is Serde,
        }),
{
    let parsed = match parse_json(raw) {
        Some(v) => v,
        None => {
            return Err(AgentError::Serde(str_copy("reply is not valid JSON")));
        },
    };
    let mut val = match decode_validation(&parsed) {
        Some(v) => v,
        None => {
            return Err(
                AgentError::Serde(str_copy("reply does not match the validation schema")),
            );
        },
    };
    proof {
        lemma_dec_validation_wf(parsed@);
    }
    default_validation_fields(&mut val, now);
    Ok(val)
}

/// Reads a Producer reply, taking the clock reading itself. Whatever the
/// clock returned, an accepted solution is well-formed and its two
/// defaulted fields are filled.
pub fn accept_solution_now(raw: &str) -> (r: Result<SolutionV1, AgentError>)
    ensures
        (match r {
            Ok(sol) => {
                &&& wf_solution(sol@)
                &&& sol@.schema_version.len() > 0
                &&& !is_blank(sol@.created_at)
                &&& (exists|now: Seq<char>|
                    spec_accept_solution(raw@, now) == Some(sol@))
            },
            Err(e) => spec_accept_solution(raw@, Seq::<char>::empty()) is None && e@ is Serde,
        }),
{
    let now = now_rfc3339();
    let r = accept_solution(raw, now.as_str());
    proof {
        reveal_strlit("solution_v1");
        if r is Ok {
            assert(spec_accept_solution(raw@, now@) == Some(r->Ok_0@));
        } else {
            match parse_json_text(raw@) {
                None => {},
                Some(v) => {
                    assert(dec_solution(v) is None);
                },
            }
        }
    }
    r
}

/// Reads an Auditor reply, taking the clock reading itself.
pub fn accept_validation_now(raw: &str) -> (r: Result<ValidationV1, AgentError>)
    ensures
        (match r {
            Ok(val) => {
                &&& wf_validation(val@)
                &&& val@.schema_version.len() > 0
                &&& !is_blank(val@.created_at)
                &&& (exists|now: Seq<char>|
                    spec_accept_validation(raw@, now) == Some(val@))
            },
            Err(e) => spec_accept_validation(raw@, Seq::<char>::empty()) is None && e@ is Serde,
        }),
{
    let now = now_rfc3339();
    let r = accept_validation(raw, now.as_str());
    proof {
        reveal_strlit("validation_v1");
        if r is Ok {
            assert(spec_accept_validation(raw@, now@) == Some(r->Ok_0@));
        } else {
            match parse_json_text(raw@) {
                None => {},
                Some(v) => {
                    assert(dec_validation(v) is None);
                },
            }
        }
    }
    r
}

/// The pretty JSON text persisted to `solution.json`.
pub fn solution_artifact(s: &SolutionV1) -> (r: String)
    ensures
        r@ == json_pretty_text(solution_jv(s@), 0),
{
    let j = solution_to_json(s);
    json_to_pretty_string(&j)
}

/// The pretty JSON text persisted to `validation.json`.
pub fn validation_artifact(v: &ValidationV1) -> (r: String)
    ensures
        r@ == json_pretty_text(validation_jv(v@), 0),
{
    let j = validation_to_json(v);
    json_to_pretty_string(&j)
}

/// The compact JSON text of a task specification, as embedded in the
/// Producer's payload and as task files hold it.
pub fn task_spec_text(t: &TaskSpec) -> (r: String)
    ensures
        r@ == json_text(task_spec_jv(t@)),
{
    let j = task_spec_to_json(t);
    json_to_string(&j)
}

/// Reads a task specification from JSON text, as task files hold it.
pub fn parse_task_spec(raw: &str) -> (r: Result<TaskSpec, AgentError>)
    ensures
        (match r {
            Ok(t) => {
                &&& parse_json_text(raw@) matches Some(v)
                &&& crate::schema_dec::dec_task_spec(parse_json_text(raw@)->Some_0) == Some(t@)
            },
            Err(e) => (match parse_json_text(raw@) {
                None => true,
                Some(v) => crate::schema_dec::dec_task_spec(v) is None,
            }) && e@ is Serde,
        }),
{
    let parsed = match parse_json(raw) {
        Some(v) => v,
        None => {
            return Err(AgentError::Serde(str_copy("task file is not valid JSON")));
        },
    };
    match crate::schema_dec::decode_task_spec(&parsed) {
        Some(t) => Ok(t),
        None => Err(AgentError::Serde(str_copy("task file does not match the task schema"))),
    }
}

} // verus!
