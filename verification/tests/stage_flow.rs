//! The two stages on concrete replies: accepting, repairing, persisting,
//! and the schema round trip.

use deepseek_agents::json::Json;
use deepseek_agents::stages::{
    accept_solution, accept_solution_now, accept_validation, auditor_messages,
    default_solution_fields, parse_task_spec, producer_messages, solution_artifact, task_spec_text,
    validation_artifact, AUDITOR_SYSTEM_PROMPT, PRODUCER_SYSTEM_PROMPT,
};
use deepseek_agents::{
    AgentError, CheckResult, CodeArtifact, Deliverable, DeliverableType, Evidence, ModelUsed,
    Severity, SolutionV1, TaskSpec, Usage, ValidationV1, Verdict,
};

fn demo_task() -> TaskSpec {
    TaskSpec {
        task_id: "t-1".to_string(),
        goal: "Summarize into 3 bullets".to_string(),
        input: "Some context".to_string(),
        acceptance_criteria: vec![
            "exactly 3 bullets".to_string(),
            "<=80 words".to_string(),
            "no fluff".to_string(),
        ],
        deliverable_type: DeliverableType::Text,
        hints: None,
    }
}

fn solution_reply() -> &'static str {
    "{\"schema_version\":\"solution_v1\",\"task_id\":\"t-1\",\"solution_id\":\"s-1\",\"model_used\":{\"name\":\"deepseek-chat\",\"temperature\":0.7},\"deliverable_type\":\"text\",\"deliverable\":{\"text\":\"- a\\n- b\\n- c\"},\"evidence\":{\"system_prompt\":\"prompt copy\"},\"usage\":{\"prompt_tokens\":120,\"completion_tokens\":48},\"created_at\":\"2024-01-02T03:04:05+00:00\"}"
}

#[test]
fn producer_accepts_a_well_formed_reply() {
    // A mocked transport returns a full solution document: the stage hands
    // it back with every field as written.
    let sol = accept_solution(solution_reply(), "2030-01-01T00:00:00+00:00").unwrap();
    assert_eq!(sol.schema_version, "solution_v1");
    assert_eq!(sol.task_id, "t-1");
    assert_eq!(sol.solution_id, "s-1");
    assert_eq!(sol.model_used.name, "deepseek-chat");
    assert_eq!(sol.model_used.temperature, "0.7");
    assert_eq!(sol.deliverable_type, DeliverableType::Text);
    assert_eq!(sol.deliverable, Deliverable::Text("- a\n- b\n- c".to_string()));
    assert_eq!(sol.evidence.system_prompt, "prompt copy");
    assert_eq!(sol.evidence.usage_note, None);
    assert_eq!(sol.usage, Usage { prompt_tokens: 120, completion_tokens: 48 });
    assert_eq!(sol.created_at, "2024-01-02T03:04:05+00:00");
    // The artifact text it would persist is the pretty form and reads back
    // as the same document.
    let art = solution_artifact(&sol);
    assert!(art.starts_with("{\n  \"schema_version\": \"solution_v1\""));
    let back = accept_solution(&art, "2030-01-01T00:00:00+00:00").unwrap();
    assert_eq!(back, sol);
}

#[test]
fn auditor_accepts_a_well_formed_reply() {
    // The graded verdict over three checks comes back as written.
    let reply = "{\"schema_version\":\"validation_v1\",\"task_id\":\"t-1\",\"solution_id\":\"s-1\",\"verdict\":\"pass\",\"score\":0.9,\"checks\":[{\"criterion\":\"exactly 3 bullets\",\"pass\":true,\"reason\":\"three found\",\"severity\":\"minor\"},{\"criterion\":\"<=80 words\",\"pass\":true,\"reason\":\"short\",\"severity\":\"minor\"},{\"criterion\":\"no fluff\",\"pass\":true,\"reason\":\"plain\",\"severity\":\"major\",\"suggested_fix\":null}],\"model_used\":{\"name\":\"deepseek-reasoner\",\"temperature\":0.2},\"created_at\":\"2024-01-02T03:05:06+00:00\"}";
    let val = accept_validation(reply, "2030-01-01T00:00:00+00:00").unwrap();
    assert_eq!(val.schema_version, "validation_v1");
    assert_eq!(val.verdict, Verdict::Pass);
    assert_eq!(val.score, "0.9");
    assert_eq!(val.checks.len(), 3);
    assert_eq!(val.checks[0].criterion, "exactly 3 bullets");
    assert!(val.checks[0].pass_);
    assert_eq!(val.checks[2].severity, Severity::Major);
    assert_eq!(val.checks[2].suggested_fix, None);
    assert_eq!(val.suggested_rewrite, None);
    let art = validation_artifact(&val);
    let back = accept_validation(&art, "2030-01-01T00:00:00+00:00").unwrap();
    assert_eq!(back, val);
}

#[test]
fn defaulting_fills_only_the_two_fields() {
    let reply = "{\"schema_version\":\"\",\"task_id\":\"t-1\",\"solution_id\":\"s-2\",\"model_used\":{\"name\":\"deepseek-chat\",\"temperature\":1},\"deliverable_type\":\"code\",\"deliverable\":{\"code\":{\"language\":\"rs\",\"content\":\"fn main() {}\"}},\"evidence\":{\"system_prompt\":\"p\",\"usage_note\":\"n\"},\"usage\":{\"prompt_tokens\":1,\"completion_tokens\":2},\"created_at\":\"   \"}";
    let now = "2025-06-07T08:09:10+00:00";
    let sol = accept_solution(reply, now).unwrap();
    assert_eq!(sol.schema_version, "solution_v1");
    assert_eq!(sol.created_at, now);
    assert_eq!(
        sol.deliverable,
        Deliverable::Code(CodeArtifact { language: "rs".to_string(), content: "fn main() {}".to_string() })
    );
}

#[test]
fn defaulting_leaves_populated_fields_and_is_idempotent() {
    let mut sol = accept_solution(solution_reply(), "2030-01-01T00:00:00+00:00").unwrap();
    // The reply already held both fields: nothing changed.
    assert_eq!(sol.schema_version, "solution_v1");
    assert_eq!(sol.created_at, "2024-01-02T03:04:05+00:00");
    // Running the defaulting step again, with a different clock, is a no-op.
    let before = accept_solution(solution_reply(), "x").unwrap();
    default_solution_fields(&mut sol, "2099-12-31T23:59:59+00:00");
    assert_eq!(sol, before);
}

#[test]
fn accept_fills_with_the_real_clock() {
    let reply = "{\"schema_version\":\"\",\"task_id\":\"t\",\"solution_id\":\"s\",\"model_used\":{\"name\":\"m\",\"temperature\":0},\"deliverable_type\":\"text\",\"deliverable\":{\"text\":\"t\"},\"evidence\":{\"system_prompt\":\"p\"},\"usage\":{\"prompt_tokens\":0,\"completion_tokens\":0},\"created_at\":\"\"}";
    let sol = accept_solution_now(reply).unwrap();
    assert_eq!(sol.schema_version, "solution_v1");
    // The creation time came from the clock: an RFC3339 date-time, so it
    // holds a year, the date separator, and no whitespace.
    assert!(sol.created_at.len() >= 19);
    assert!(sol.created_at.contains('T'));
    assert!(!sol.created_at.contains(' '));
}

#[test]
fn rejects_text_that_is_not_json() {
    assert!(matches!(
        accept_solution("not json at all", "now"),
        Err(AgentError::Serde(_))
    ));
}

#[test]
fn rejects_a_reply_missing_required_fields() {
    assert!(matches!(accept_solution("{}", "now"), Err(AgentError::Serde(_))));
}

#[test]
fn rejects_a_deliverable_that_contradicts_its_tag() {
    // Tag says text, but only the json variant is populated.
    let reply = "{\"schema_version\":\"solution_v1\",\"task_id\":\"t\",\"solution_id\":\"s\",\"model_used\":{\"name\":\"m\",\"temperature\":0.5},\"deliverable_type\":\"text\",\"deliverable\":{\"json\":{\"k\":1}},\"evidence\":{\"system_prompt\":\"p\"},\"usage\":{\"prompt_tokens\":1,\"completion_tokens\":1},\"created_at\":\"2024-01-01T00:00:00+00:00\"}";
    assert!(matches!(accept_solution(reply, "now"), Err(AgentError::Serde(_))));
    // Tag says text with both text and code populated: also rejected.
    let reply2 = "{\"schema_version\":\"solution_v1\",\"task_id\":\"t\",\"solution_id\":\"s\",\"model_used\":{\"name\":\"m\",\"temperature\":0.5},\"deliverable_type\":\"text\",\"deliverable\":{\"text\":\"x\",\"code\":{\"language\":\"rs\",\"content\":\"y\"}},\"evidence\":{\"system_prompt\":\"p\"},\"usage\":{\"prompt_tokens\":1,\"completion_tokens\":1},\"created_at\":\"2024-01-01T00:00:00+00:00\"}";
    assert!(matches!(accept_solution(reply2, "now"), Err(AgentError::Serde(_))));
}

#[test]
fn producer_messages_carry_the_task() {
    let msgs = producer_messages(&demo_task());
    assert_eq!(msgs.len(), 2);
    assert_eq!(msgs[0].role, "system");
    assert_eq!(msgs[0].content, PRODUCER_SYSTEM_PROMPT);
    assert_eq!(msgs[1].role, "user");
    let expected_payload = "{\"instructions\":\"Use the deliverable_type from TaskSpec. Populate created_at with current time. Ensure only one of deliverable.text/json/code is present as per deliverable_type.\",\"task_spec\":{\"task_id\":\"t-1\",\"goal\":\"Summarize into 3 bullets\",\"input\":\"Some context\",\"acceptance_criteria\":[\"exactly 3 bullets\",\"<=80 words\",\"no fluff\"],\"deliverable_type\":\"text\"}}";
    assert_eq!(msgs[1].content, expected_payload);
}

#[test]
fn auditor_messages_carry_task_and_solution() {
    let sol = accept_solution(solution_reply(), "x").unwrap();
    let msgs = auditor_messages(&demo_task(), &sol);
    assert_eq!(msgs.len(), 2);
    assert_eq!(msgs[0].role, "system");
    assert_eq!(msgs[0].content, AUDITOR_SYSTEM_PROMPT);
    assert_eq!(msgs[1].role, "user");
    assert!(msgs[1].content.starts_with("{\"instructions\":\"Include one check per"));
    assert!(msgs[1].content.contains("\"solution\":{\"schema_version\":\"solution_v1\""));
    assert!(msgs[1].content.contains("\"task_spec\":{\"task_id\":\"t-1\""));
}

#[test]
fn task_files_round_trip() {
    let mut t = demo_task();
    t.hints = Some("Be concise".to_string());
    let text = task_spec_text(&t);
    assert!(text.ends_with("\"deliverable_type\":\"text\",\"hints\":\"Be concise\"}"));
    let back = parse_task_spec(&text).unwrap();
    assert_eq!(back, t);
}

#[test]
fn built_solution_round_trips_through_its_artifact() {
    // A solution built by hand, with every optional field populated,
    // written to its artifact text and read back unchanged.
    let sol = SolutionV1 {
        schema_version: "solution_v1".to_string(),
        task_id: "t-9".to_string(),
        solution_id: "s-9".to_string(),
        model_used: ModelUsed { name: "deepseek-chat".to_string(), temperature: "1.5e0".to_string() },
        deliverable_type: DeliverableType::Json,
        deliverable: Deliverable::Json(Json::Obj(vec![(
            "answer".to_string(),
            Json::Arr(vec![Json::Num("1".to_string()), Json::Str("two".to_string())]),
        )])),
        evidence: Evidence {
            system_prompt: "sys \"quoted\"".to_string(),
            usage_note: Some("note\nwith newline".to_string()),
        },
        usage: Usage { prompt_tokens: 4294967295, completion_tokens: 0 },
        created_at: "2024-12-31T23:59:59+00:00".to_string(),
    };
    let art = solution_artifact(&sol);
    let back = accept_solution(&art, "x").unwrap();
    assert_eq!(back, sol);
}

#[test]
fn built_validation_round_trips_through_its_artifact() {
    let val = ValidationV1 {
        schema_version: "validation_v1".to_string(),
        task_id: "t-9".to_string(),
        solution_id: "s-9".to_string(),
        verdict: Verdict::Warn,
        score: "0.55".to_string(),
        checks: vec![CheckResult {
            criterion: "c1".to_string(),
            pass_: false,
            reason: "missed".to_string(),
            severity: Severity::Major,
            suggested_fix: Some("try again".to_string()),
        }],
        suggested_rewrite: Some(Json::Str("rewrite this".to_string())),
        model_used: ModelUsed { name: "deepseek-reasoner".to_string(), temperature: "0.2".to_string() },
        created_at: "2024-12-31T23:59:59+00:00".to_string(),
    };
    let art = validation_artifact(&val);
    let back = accept_validation(&art, "x").unwrap();
    assert_eq!(back, val);
}

#[test]
fn rejects_token_counts_that_overflow() {
    let reply = "{\"schema_version\":\"solution_v1\",\"task_id\":\"t\",\"solution_id\":\"s\",\"model_used\":{\"name\":\"m\",\"temperature\":0.5},\"deliverable_type\":\"text\",\"deliverable\":{\"text\":\"x\"},\"evidence\":{\"system_prompt\":\"p\"},\"usage\":{\"prompt_tokens\":4294967296,\"completion_tokens\":1},\"created_at\":\"c\"}";
    assert!(matches!(accept_solution(reply, "now"), Err(AgentError::Serde(_))));
}

#[test]
fn rejects_a_duplicated_field() {
    let reply = "{\"schema_version\":\"solution_v1\",\"schema_version\":\"solution_v1\",\"task_id\":\"t\",\"solution_id\":\"s\",\"model_used\":{\"name\":\"m\",\"temperature\":0.5},\"deliverable_type\":\"text\",\"deliverable\":{\"text\":\"x\"},\"evidence\":{\"system_prompt\":\"p\"},\"usage\":{\"prompt_tokens\":1,\"completion_tokens\":1},\"created_at\":\"c\"}";
    assert!(matches!(accept_solution(reply, "now"), Err(AgentError::Serde(_))));
}

#[test]
fn rejects_a_verdict_outside_the_taxonomy() {
    let reply = "{\"schema_version\":\"validation_v1\",\"task_id\":\"t\",\"solution_id\":\"s\",\"verdict\":\"maybe\",\"score\":0.5,\"checks\":[],\"model_used\":{\"name\":\"m\",\"temperature\":0.1},\"created_at\":\"c\"}";
    assert!(matches!(accept_validation(reply, "now"), Err(AgentError::Serde(_))));
}

#[test]
fn rejects_a_score_that_is_not_a_number() {
    let reply = "{\"schema_version\":\"validation_v1\",\"task_id\":\"t\",\"solution_id\":\"s\",\"verdict\":\"pass\",\"score\":\"high\",\"checks\":[],\"model_used\":{\"name\":\"m\",\"temperature\":0.1},\"created_at\":\"c\"}";
    assert!(matches!(accept_validation(reply, "now"), Err(AgentError::Serde(_))));
}

#[test]
fn null_hints_read_as_absent() {
    let text = "{\"task_id\":\"t\",\"goal\":\"g\",\"input\":\"i\",\"acceptance_criteria\":[],\"deliverable_type\":\"json\",\"hints\":null}";
    let t = parse_task_spec(text).unwrap();
    assert_eq!(t.hints, None);
    assert_eq!(t.deliverable_type, DeliverableType::Json);
    assert!(t.acceptance_criteria.is_empty());
}
