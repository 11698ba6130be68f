//! The transport failure taxonomy and the stage-level error type.

use vstd::prelude::*;

use crate::json::chars_to_string;
use crate::numtext::{dec_rep, push_dec_u64};
use crate::strutil::str_copy;

verus! {

/// A classified failure of the transport layer.
#[derive(Debug)]
pub enum DeepSeekError {
    /// Rate-limited or transiently unavailable (HTTP 429, 503, 502, 504).
    ServerBusy,
    /// Connection, DNS or other transport-level failure.
    NetworkError { message: String },
    /// The configured per-call timeout elapsed.
    Timeout { seconds: u64 },
    /// Any other non-success HTTP status, with the response body text.
    ApiError { status: u16, message: String },
    /// The reply body did not decode into the expected wire shape.
    ParseError { message: String },
    /// Invalid client configuration at construction time.
    ConfigError { message: String },
}

/// The model of a classified failure.
pub enum DeepSeekErrorV {
    ServerBusy,
    NetworkError { message: Seq<char> },
    Timeout { seconds: u64 },
    ApiError { status: u16, message: Seq<char> },
    ParseError { message: Seq<char> },
    ConfigError { message: Seq<char> },
}

impl View for DeepSeekError {
    type V = DeepSeekErrorV;

    open spec fn view(&self) -> DeepSeekErrorV {
        match self {
            DeepSeekError::ServerBusy => DeepSeekErrorV::ServerBusy,
            DeepSeekError::NetworkError { message } => DeepSeekErrorV::NetworkError {
                message: message@,
            },
            DeepSeekError::Timeout { seconds } => DeepSeekErrorV::Timeout { seconds: *seconds },
            DeepSeekError::ApiError { status, message } => DeepSeekErrorV::ApiError {
                status: *status,
                message: message@,
            },
            DeepSeekError::ParseError { message } => DeepSeekErrorV::ParseError {
                message: message@,
            },
            DeepSeekError::ConfigError { message } => DeepSeekErrorV::ConfigError {
                message: message@,
            },
        }
    }
}

/// The user-facing line for each failure kind.
pub open spec fn spec_user_message(e: DeepSeekErrorV) -> Seq<char> {
    match e {
        DeepSeekErrorV::ServerBusy =>
            "\u{1F6AB} DeepSeek servers are currently busy. Please try again in a few moments."@,
        DeepSeekErrorV::NetworkError { .. } =>
            "\u{1F310} Network connection failed. Please check your internet connection and try again."@,
        DeepSeekErrorV::Timeout { seconds } => "\u{23F0} Request timed out after "@ + dec_rep(
            seconds as nat,
        ) + " seconds. The server might be overloaded."@,
        DeepSeekErrorV::ApiError { status, .. } => {
            if status == 429 {
                "\u{1F6AB} Rate limit exceeded. Please wait a moment before trying again."@
            } else if status == 503 {
                "\u{1F6AB} Service temporarily unavailable. Please try again later."@
            } else if status == 502 || status == 504 {
                "\u{1F6AB} Server gateway error. Please try again in a few moments."@
            } else {
                "\u{274C} API error ("@ + dec_rep(status as nat)
                    + "). Please try again later."@
            }
        },
        DeepSeekErrorV::ParseError { .. } =>
            "\u{26A0}\u{FE0F} Failed to parse server response. Please try again."@,
        DeepSeekErrorV::ConfigError { message } => "\u{2699}\u{FE0F} Configuration error: "@
            + message,
    }
}

impl DeepSeekError {
    /// Whether the error reports that the server is busy.
    pub fn is_server_busy(&self) -> (r: bool)
        ensures
            r == (self@ is ServerBusy),
    {
        matches!(self, DeepSeekError::ServerBusy)
    }

    /// Whether the error is a network-level failure.
    pub fn is_network_error(&self) -> (r: bool)
        ensures
            r == (self@ is NetworkError),
    {
        matches!(self, DeepSeekError::NetworkError { .. })
    }

    /// The user-facing line for this failure.
    pub fn user_message(&self) -> (r: String)
        ensures
            r@ == spec_user_message(self@),
    {
        match self {
            DeepSeekError::ServerBusy => str_copy(
                "\u{1F6AB} DeepSeek servers are currently busy. Please try again in a few moments.",
            ),
            DeepSeekError::NetworkError { .. } => str_copy(
                "\u{1F310} Network connection failed. Please check your internet connection and try again.",
            ),
            DeepSeekError::Timeout { seconds } => {
                let mut out = str_copy("\u{23F0} Request timed out after ");
                let mut digits: Vec<char> = Vec::new();
                push_dec_u64(*seconds, &mut digits);
                let ds = chars_to_string(&digits);
                out.append(ds.as_str());
                out.append(" seconds. The server might be overloaded.");
                out
            },
            DeepSeekError::ApiError { status, .. } => {
                if *status == 429 {
                    str_copy(
                        "\u{1F6AB} Rate limit exceeded. Please wait a moment before trying again.",
                    )
                } else if *status == 503 {
                    str_copy("\u{1F6AB} Service temporarily unavailable. Please try again later.")
                } else if *status == 502 || *status == 504 {
                    str_copy("\u{1F6AB} Server gateway error. Please try again in a few moments.")
                } else {
                    let mut out = str_copy("\u{274C} API error (");
                    let mut digits: Vec<char> = Vec::new();
                    push_dec_u64(*status as u64, &mut digits);
                    let ds = chars_to_string(&digits);
                    out.append(ds.as_str());
                    out.append("). Please try again later.");
                    out
                }
            },
            DeepSeekError::ParseError { .. } => str_copy(
                "\u{26A0}\u{FE0F} Failed to parse server response. Please try again.",
            ),
            DeepSeekError::ConfigError { message } => {
                let mut out = str_copy("\u{2699}\u{FE0F} Configuration error: ");
                out.append(message.as_str());
                out
            },
        }
    }
}

/// A stage-level failure: a transport failure passed through, a filesystem
/// failure, a reply that did not decode, or an unexpected condition.
#[derive(Debug)]
pub enum AgentError {
    Llm(DeepSeekError),
    Io(String),
    Serde(String),
    Unexpected(String),
}

/// The model of a stage-level failure.
pub enum AgentErrorV {
    Llm(DeepSeekErrorV),
    Io(Seq<char>),
    Serde(Seq<char>),
    Unexpected(Seq<char>),
}

impl View for AgentError {
    type V = AgentErrorV;

    open spec fn view(&self) -> AgentErrorV {
        match self {
            AgentError::Llm(e) => AgentErrorV::Llm(e@),
            AgentError::Io(m) => AgentErrorV::Io(m@),
            AgentError::Serde(m) => AgentErrorV::Serde(m@),
            AgentError::Unexpected(m) => AgentErrorV::Unexpected(m@),
        }
    }
}

} // verus!
