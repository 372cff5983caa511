//! Token-usage extraction. Providers report any subset of the three
//! counts; a missing total is derived from input and output when both are
//! present.

use vstd::prelude::*;

use crate::errors::ProviderError;
use crate::json::{get_key_of, json_as_i64, json_get, spec_opt_i64_field};

verus! {

/// Normalized token accounting for one completed request.
#[derive(Debug, Clone, Copy, PartialEq, Eq)]
pub struct Usage {
    pub input_tokens: Option<i32>,
    pub output_tokens: Option<i32>,
    pub total_tokens: Option<i32>,
}

impl Usage {
    pub fn new(input_tokens: Option<i32>, output_tokens: Option<i32>, total_tokens: Option<i32>)
        -> (u: Usage)
        ensures
            u == (Usage { input_tokens, output_tokens, total_tokens }),
    {
        Usage { input_tokens, output_tokens, total_tokens }
    }
}

/// The usage record built from the three raw counts: each count is
/// narrowed to 32 bits as read, and a missing total is the 32-bit
/// (wrapping) sum of input and output when both are present, absent
/// otherwise.
pub open spec fn spec_usage_from_counts(
    input: Option<i64>,
    output: Option<i64>,
    total: Option<i64>,
) -> Usage {
    let it: Option<i32> = match input {
        Some(v) => Some(v as i32),
        None => None,
    };
    let ot: Option<i32> = match output {
        Some(v) => Some(v as i32),
        None => None,
    };
    let tt: Option<i32> = match total {
        Some(v) => Some(v as i32),
        None => if it is Some && ot is Some {
            Some(vstd::wrapping::i32_specs::wrapping_add(it->0, ot->0))
        } else {
            None
        },
    };
    Usage { input_tokens: it, output_tokens: ot, total_tokens: tt }
}

/// Combine the raw counts a provider reported into a usage record.
pub fn usage_from_counts(input: Option<i64>, output: Option<i64>, total: Option<i64>) -> (u: Usage)
    ensures
        u == spec_usage_from_counts(input, output, total),
{
    let it: Option<i32> = match input {
        Some(v) => Some(#[verifier::truncate] (v as i32)),
        None => None,
    };
    let ot: Option<i32> = match output {
        Some(v) => Some(#[verifier::truncate] (v as i32)),
        None => None,
    };
    let tt: Option<i32> = match total {
        Some(v) => Some(#[verifier::truncate] (v as i32)),
        None => match (it, ot) {
            (Some(a), Some(b)) => Some(a.wrapping_add(b)),
            _ => None,
        },
    };
    Usage { input_tokens: it, output_tokens: ot, total_tokens: tt }
}

/// Extract token usage from a response body. Fails exactly when the body
/// carries no `usage` object; once it exists, the three counts are read
/// as optional integers and combined by `usage_from_counts`.
pub fn get_openai_usage(data: &serde_json::Value) -> (r: Result<Usage, ProviderError>)
    ensures
        r is Err <==> get_key_of(*data, "usage"@) is None,
        r matches Err(e) ==> e is MissingUsageData,
        r matches Ok(u) ==> ({
            let usage = get_key_of(*data, "usage"@)->Some_0;
            u == spec_usage_from_counts(
                spec_opt_i64_field(usage, "prompt_tokens"@),
                spec_opt_i64_field(usage, "completion_tokens"@),
                spec_opt_i64_field(usage, "total_tokens"@),
            )
        }),
{
    match json_get(data, "usage") {
        Some(usage) => {
            let input = match json_get(usage, "prompt_tokens") {
                Some(v) => json_as_i64(v),
                None => None,
            };
            let output = match json_get(usage, "completion_tokens") {
                Some(v) => json_as_i64(v),
                None => None,
            };
            let total = match json_get(usage, "total_tokens") {
                Some(v) => json_as_i64(v),
                None => None,
            };
            Ok(usage_from_counts(input, output, total))
        },
        None => Err(ProviderError::MissingUsageData),
    }
}

} // verus!
