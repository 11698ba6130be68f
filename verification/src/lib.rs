//! A two-stage agent pipeline over a chat-completions transport.
//!
//! A Producer stage asks a remote model for a structured `SolutionV1`
//! deliverable, and an Auditor stage grades that deliverable into a
//! `ValidationV1`. The library holds the verified core: the JSON codec the
//! stages speak, the schema decoding and repair rules, the transport failure
//! taxonomy with its retry policy, and the exact request text each stage
//! sends. Network and file I/O stay outside, handing raw reply text in and
//! taking artifacts back out.

pub mod errors;
pub mod json;
pub mod json_laws;
pub mod json_parse;
pub mod numtext;
pub mod schema;
pub mod schema_dec;
pub mod schema_laws;
pub mod schema_enc;
pub mod stages;
pub mod strutil;
pub mod transport;

pub use errors::{AgentError, DeepSeekError};
pub use json::Json;
pub use schema::{
    CheckResult, CodeArtifact, Deliverable, DeliverableType, Evidence, ModelUsed, Severity,
    SolutionV1, TaskSpec, Usage, ValidationV1, Verdict,
};
pub use stages::{
    accept_solution, accept_solution_now, accept_validation, accept_validation_now,
    auditor_messages, default_solution_fields, default_validation_fields, parse_task_spec,
    producer_messages, solution_artifact, task_spec_text, validation_artifact,
};
pub use transport::{
    build_chat_request, classify_http_status, classify_transport_error, extract_reply,
    is_official_deepseek_host, map_model_string_to_ext, next_send_action, reasoner_config,
    ChatMessage, Config, ModelKind, RetryDecision,
};
