//! The kubelet's health as the node scraper reports it: the answer of its
//! `/healthz` endpoint, or why none came.
use vstd::prelude::*;
use vstd::string::*;

use crate::decimal::{decimal_text, u16_decimal};
use crate::http::{json_string, json_string_literal};
use crate::text::owned;

verus! {

/// The outcome of asking the kubelet for its health.
#[derive(Debug, Clone)]
pub enum KubeletHealth {
    /// The kubelet answered with this status and body.
    Response { status_code: u16, response: String },
    /// No answer came; the message says why.
    ConnectionError { message: String },
}

/// The JSON object for an answer, given the JSON literal of its body.
pub open spec fn response_json(status_code: u16, quoted_response: Seq<char>) -> Seq<char> {
    "{\"status_code\":"@ + decimal_text(status_code as nat) + ",\"response\":"@ + quoted_response
        + "}"@
}

/// The JSON object for a failed connection, given the JSON literal of the
/// message.
pub open spec fn connection_error_json(quoted_message: Seq<char>) -> Seq<char> {
    "{\"message\":"@ + quoted_message + "}"@
}

/// The JSON object for an answer with status `status_code`, whose body is
/// written as the JSON literal `quoted_response`.
pub fn response_json_text(status_code: u16, quoted_response: &str) -> (r: String)
    ensures
        r@ == response_json(status_code, quoted_response@),
{
    let mut text = owned("{\"status_code\":");
    text.append(u16_decimal(status_code).as_str());
    text.append(",\"response\":");
    text.append(quoted_response);
    text.append("}");
    text
}

/// The JSON object for a failed connection whose message is written as the
/// JSON literal `quoted_message`.
pub fn connection_error_json_text(quoted_message: &str) -> (r: String)
    ensures
        r@ == connection_error_json(quoted_message@),
{
    let mut text = owned("{\"message\":");
    text.append(quoted_message);
    text.append("}");
    text
}

/// The wire form of a health record: the fields of its variant as a JSON
/// object, without naming the variant.
pub open spec fn spec_health_json(h: KubeletHealth) -> Seq<char> {
    match h {
        KubeletHealth::Response { status_code, response } => response_json(
            status_code,
            json_string(response@),
        ),
        KubeletHealth::ConnectionError { message } => connection_error_json(json_string(message@)),
    }
}

impl KubeletHealth {
    /// The record for the outcome of the request: the status and body of the
    /// answer, or the error message where none came.
    pub fn from_outcome(outcome: Result<(u16, String), String>) -> (h: KubeletHealth)
        ensures
            match outcome {
                Ok(answer) => h matches KubeletHealth::Response { status_code, response }
                    && status_code == answer.0 && response@ == answer.1@,
                Err(message) => h matches KubeletHealth::ConnectionError { message: m } && m@
                    == message@,
            },
    {
        match outcome {
            Ok((status_code, response)) => KubeletHealth::Response { status_code, response },
            Err(message) => KubeletHealth::ConnectionError { message },
        }
    }

    /// The wire form of the record; it is always written.
    pub fn to_json(&self) -> (r: Option<String>)
        ensures
            r matches Some(text) && text@ == spec_health_json(*self),
    {
        match self {
            KubeletHealth::Response { status_code, response } => {
                let quoted = json_string_literal(response.as_str())?;
                Some(response_json_text(*status_code, quoted.as_str()))
            },
            KubeletHealth::ConnectionError { message } => {
                let quoted = json_string_literal(message.as_str())?;
                Some(connection_error_json_text(quoted.as_str()))
            },
        }
    }
}

} // verus!
