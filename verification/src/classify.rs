//! Provider-specific classifiers turning heterogeneous error payloads
//! into the normalized "context length exceeded" diagnosis. Each
//! classifier is an independent pure predicate over one provider's error
//! shape; adding a provider adds a classifier without touching the
//! others.

use vstd::prelude::*;
use vstd::string::*;

use crate::chars::{spec_contains_seq, str_contains, str_eq};
use crate::errors::ContextLengthExceededError;
use crate::json::{get_key_of, json_as_str, json_get, spec_opt_str_field};

verus! {

/// The lowercase folding of a string, as str::to_lowercase computes it.
pub uninterp spec fn lower_of(s: Seq<char>) -> Seq<char>;

/// Relies on str::to_lowercase: the result depends on the characters
/// alone.
#[verifier::external_body]
fn lowercase(s: &str) -> (r: String)
    ensures
        r@ == lower_of(s@),
{
    s.to_lowercase()
}

/// A code the OpenAI shape reports for an overflowed context.
pub open spec fn spec_is_overflow_code(code: Seq<char>) -> bool {
    code == "context_length_exceeded"@ || code == "string_above_max_length"@
}

/// The OpenAI-shape rule on plain values: only the two exact overflow
/// codes match, whatever the message says; the message text is carried
/// over, defaulting when absent.
pub fn classify_openai_error(code: Option<&str>, message: Option<&str>) -> (r: Option<
    ContextLengthExceededError,
>)
    ensures
        match code {
            Some(c) => if spec_is_overflow_code(c@) {
                r matches Some(e) && e@ == (match message {
                    Some(m) => m@,
                    None => "Unknown error"@,
                })
            } else {
                r is None
            },
            None => r is None,
        },
{
    match code {
        Some(c) => {
            if str_eq(c, "context_length_exceeded") || str_eq(c, "string_above_max_length") {
                let msg = match message {
                    Some(m) => m.to_owned(),
                    None => String::from_str("Unknown error"),
                };
                Some(ContextLengthExceededError { message: msg })
            } else {
                None
            }
        },
        None => None,
    }
}

/// OpenAI shape: read `code` and `message` and apply the rule above.
pub fn check_openai_context_length_error(error: &serde_json::Value) -> (r: Option<
    ContextLengthExceededError,
>)
    ensures
        ({
            let code = spec_opt_str_field(*error, "code"@);
            let message = spec_opt_str_field(*error, "message"@);
            match code {
                Some(c) => if spec_is_overflow_code(c) {
                    r matches Some(e) && e@ == (match message {
                        Some(m) => m,
                        None => "Unknown error"@,
                    })
                } else {
                    r is None
                },
                None => r is None,
            }
        }),
{
    let code = match json_get(error, "code") {
        Some(c) => json_as_str(c),
        None => None,
    };
    let message = match json_get(error, "message") {
        Some(m) => json_as_str(m),
        None => None,
    };
    classify_openai_error(code, message)
}

/// The Bedrock-shape rule on plain values: the external model message must
/// exist and, case-insensitively, contain "too long"; it is carried over
/// verbatim, with no default.
pub fn classify_bedrock_error(message: Option<&str>) -> (r: Option<ContextLengthExceededError>)
    ensures
        match message {
            Some(m) => if spec_contains_seq(lower_of(m@), "too long"@) {
                r matches Some(e) && e@ == m@
            } else {
                r is None
            },
            None => r is None,
        },
{
    match message {
        Some(m) => {
            let lower = lowercase(m);
            if str_contains(lower.as_str(), "too long") {
                Some(ContextLengthExceededError { message: m.to_owned() })
            } else {
                None
            }
        },
        None => None,
    }
}

/// Bedrock shape: read `external_model_message.message` and apply the
/// rule above.
pub fn check_bedrock_context_length_error(error: &serde_json::Value) -> (r: Option<
    ContextLengthExceededError,
>)
    ensures
        ({
            let message = (match get_key_of(*error, "external_model_message"@) {
                Some(em) => spec_opt_str_field(em, "message"@),
                None => None,
            });
            match message {
                Some(m) => if spec_contains_seq(lower_of(m), "too long"@) {
                    r matches Some(e) && e@ == m
                } else {
                    r is None
                },
                None => r is None,
            }
        }),
{
    let message = match json_get(error, "external_model_message") {
        Some(em) => match json_get(em, "message") {
            Some(m) => json_as_str(m),
            None => None,
        },
        None => None,
    };
    classify_bedrock_error(message)
}

} // verus!
