//! The data shapes the two stages exchange: the task specification, the
//! Producer's `SolutionV1` and the Auditor's `ValidationV1`.
//!
//! Sampling temperatures and scores are carried as their exact JSON number
//! text, so no floating point stands in the model. The deliverable is a
//! tagged union, and a well-formed solution's tag agrees with it.

use vstd::prelude::*;

use crate::json::{Json, JsonV};
use crate::json_parse::{is_number_text, wf_jsonv};

verus! {

/// The kind of deliverable a task asks for.
#[derive(Debug, Clone, Copy, PartialEq, Eq, Structural)]
pub enum DeliverableType {
    Text,
    Json,
    Code,
}

/// The overall judgment of a validation.
#[derive(Debug, Clone, Copy, PartialEq, Eq, Structural)]
pub enum Verdict {
    Pass,
    Warn,
    Fail,
}

/// How much a failing check weighs.
#[derive(Debug, Clone, Copy, PartialEq, Eq, Structural)]
pub enum Severity {
    Minor,
    Major,
}

/// The immutable input: what to produce and how it will be judged.
#[derive(Debug, Clone, PartialEq)]
pub struct TaskSpec {
    pub task_id: String,
    pub goal: String,
    pub input: String,
    pub acceptance_criteria: Vec<String>,
    pub deliverable_type: DeliverableType,
    pub hints: Option<String>,
}

/// The model of a task specification.
pub struct TaskSpecV {
    pub task_id: Seq<char>,
    pub goal: Seq<char>,
    pub input: Seq<char>,
    pub acceptance_criteria: Seq<Seq<char>>,
    pub deliverable_type: DeliverableType,
    pub hints: Option<Seq<char>>,
}

impl View for TaskSpec {
    type V = TaskSpecV;

    open spec fn view(&self) -> TaskSpecV {
        TaskSpecV {
            task_id: self.task_id@,
            goal: self.goal@,
            input: self.input@,
            acceptance_criteria: self.acceptance_criteria@.map_values(|s: String| s@),
            deliverable_type: self.deliverable_type,
            hints: match self.hints {
                Some(h) => Some(h@),
                None => None,
            },
        }
    }
}

/// Which model produced an artifact, and at what sampling temperature
/// (kept as its JSON number text).
#[derive(Debug, Clone, PartialEq)]
pub struct ModelUsed {
    pub name: String,
    pub temperature: String,
}

pub struct ModelUsedV {
    pub name: Seq<char>,
    pub temperature: Seq<char>,
}

impl View for ModelUsed {
    type V = ModelUsedV;

    open spec fn view(&self) -> ModelUsedV {
        ModelUsedV { name: self.name@, temperature: self.temperature@ }
    }
}

/// A code deliverable: its language tag and its source text.
#[derive(Debug, Clone, PartialEq)]
pub struct CodeArtifact {
    pub language: String,
    pub content: String,
}

pub struct CodeArtifactV {
    pub language: Seq<char>,
    pub content: Seq<char>,
}

impl View for CodeArtifact {
    type V = CodeArtifactV;

    open spec fn view(&self) -> CodeArtifactV {
        CodeArtifactV { language: self.language@, content: self.content@ }
    }
}

/// The one populated payload of a solution, selected by its tag.
#[derive(Debug, PartialEq)]
pub enum Deliverable {
    Text(String),
    Json(Json),
    Code(CodeArtifact),
}

pub enum DeliverableV {
    Text(Seq<char>),
    Json(JsonV),
    Code(CodeArtifactV),
}

impl View for Deliverable {
    type V = DeliverableV;

    open spec fn view(&self) -> DeliverableV {
        match self {
            Deliverable::Text(t) => DeliverableV::Text(t@),
            Deliverable::Json(j) => DeliverableV::Json(j@),
            Deliverable::Code(c) => DeliverableV::Code(c@),
        }
    }
}

/// The tag a deliverable variant answers to.
pub open spec fn tag_of(d: DeliverableV) -> DeliverableType {
    match d {
        DeliverableV::Text(_) => DeliverableType::Text,
        DeliverableV::Json(_) => DeliverableType::Json,
        DeliverableV::Code(_) => DeliverableType::Code,
    }
}

/// What the Producer kept as evidence: the instruction it was given and an
/// optional note.
#[derive(Debug, Clone, PartialEq)]
pub struct Evidence {
    pub system_prompt: String,
    pub usage_note: Option<String>,
}

pub struct EvidenceV {
    pub system_prompt: Seq<char>,
    pub usage_note: Option<Seq<char>>,
}

impl View for Evidence {
    type V = EvidenceV;

    open spec fn view(&self) -> EvidenceV {
        EvidenceV {
            system_prompt: self.system_prompt@,
            usage_note: match self.usage_note {
                Some(n) => Some(n@),
                None => None,
            },
        }
    }
}

/// Token counts for one exchange.
#[derive(Debug, Clone, Copy, PartialEq, Eq, Structural, Default)]
pub struct Usage {
    pub prompt_tokens: u32,
    pub completion_tokens: u32,
}

/// The Producer's structured output artifact.
#[derive(Debug, PartialEq)]
pub struct SolutionV1 {
    pub schema_version: String,
    pub task_id: String,
    pub solution_id: String,
    pub model_used: ModelUsed,
    pub deliverable_type: DeliverableType,
    pub deliverable: Deliverable,
    pub evidence: Evidence,
    pub usage: Usage,
    pub created_at: String,
}

pub struct SolutionV {
    pub schema_version: Seq<char>,
    pub task_id: Seq<char>,
    pub solution_id: Seq<char>,
    pub model_used: ModelUsedV,
    pub deliverable_type: DeliverableType,
    pub deliverable: DeliverableV,
    pub evidence: EvidenceV,
    pub usage: Usage,
    pub created_at: Seq<char>,
}

impl View for SolutionV1 {
    type V = SolutionV;

    open spec fn view(&self) -> SolutionV {
        SolutionV {
            schema_version: self.schema_version@,
            task_id: self.task_id@,
            solution_id: self.solution_id@,
            model_used: self.model_used@,
            deliverable_type: self.deliverable_type,
            deliverable: self.deliverable@,
            evidence: self.evidence@,
            usage: self.usage,
            created_at: self.created_at@,
        }
    }
}

/// One per-criterion check inside a validation.
#[derive(Debug, Clone, PartialEq)]
pub struct CheckResult {
    pub criterion: String,
    pub pass_: bool,
    pub reason: String,
    pub severity: Severity,
    pub suggested_fix: Option<String>,
}

pub struct CheckResultV {
    pub criterion: Seq<char>,
    pub pass_: bool,
    pub reason: Seq<char>,
    pub severity: Severity,
    pub suggested_fix: Option<Seq<char>>,
}

impl View for CheckResult {
    type V = CheckResultV;

    open spec fn view(&self) -> CheckResultV {
        CheckResultV {
            criterion: self.criterion@,
            pass_: self.pass_,
            reason: self.reason@,
            severity: self.severity,
            suggested_fix: match self.suggested_fix {
                Some(f) => Some(f@),
                None => None,
            },
        }
    }
}

/// The Auditor's structured grading artifact. The score is kept as its
/// JSON number text.
#[derive(Debug, PartialEq)]
pub struct ValidationV1 {
    pub schema_version: String,
    pub task_id: String,
    pub solution_id: String,
    pub verdict: Verdict,
    pub score: String,
    pub checks: Vec<CheckResult>,
    pub suggested_rewrite: Option<Json>,
    pub model_used: ModelUsed,
    pub created_at: String,
}

pub struct ValidationV {
    pub schema_version: Seq<char>,
    pub task_id: Seq<char>,
    pub solution_id: Seq<char>,
    pub verdict: Verdict,
    pub score: Seq<char>,
    pub checks: Seq<CheckResultV>,
    pub suggested_rewrite: Option<JsonV>,
    pub model_used: ModelUsedV,
    pub created_at: Seq<char>,
}

impl View for ValidationV1 {
    type V = ValidationV;

    open spec fn view(&self) -> ValidationV {
        ValidationV {
            schema_version: self.schema_version@,
            task_id: self.task_id@,
            solution_id: self.solution_id@,
            verdict: self.verdict,
            score: self.score@,
            checks: self.checks@.map_values(|c: CheckResult| c@),
            suggested_rewrite: match self.suggested_rewrite {
                Some(j) => Some(j@),
                None => None,
            },
            model_used: self.model_used@,
            created_at: self.created_at@,
        }
    }
}

/// A well-formed solution: the temperature is number text, the populated
/// deliverable variant agrees with the tag, and a JSON deliverable is a
/// well-formed value other than bare null (which the wire treats as
/// absent).
pub open spec fn wf_solution(s: SolutionV) -> bool {
    &&& is_number_text(s.model_used.temperature)
    &&& tag_of(s.deliverable) == s.deliverable_type
    &&& (s.deliverable matches DeliverableV::Json(j) ==> wf_jsonv(j) && !(j is Null))
}

/// A well-formed validation: temperature and score are number text, and a
/// suggested rewrite, if present, is well-formed.
pub open spec fn wf_validation(v: ValidationV) -> bool {
    &&& is_number_text(v.model_used.temperature)
    &&& is_number_text(v.score)
    &&& (v.suggested_rewrite matches Some(j) ==> wf_jsonv(j) && !(j is Null))
}

} // verus!
