//! What has to be settled about a request before any byte is sent.

use vstd::prelude::*;

verus! {

/// A request that cannot be sent as it stands.
#[derive(Debug, Clone, Copy, PartialEq, Eq)]
pub enum RequestError {
    /// Neither the request nor the model says how many tokens may be produced.
    MaxTokensMissing,
}

impl RequestError {
    /// The failure as text.
    pub fn message(&self) -> (r: String)
        ensures
            r@ == "`max_tokens` must be set for Anthropic"@,
    {
        "`max_tokens` must be set for Anthropic".to_owned()
    }
}

/// The token budget of a request: the one that the request names, else the
/// model's default; a request with neither is refused.
pub fn resolve_max_tokens(requested: Option<u64>, default_max_tokens: Option<u64>) -> (r: Result<
    u64,
    RequestError,
>)
    ensures
        r == match (requested, default_max_tokens) {
            (Some(tokens), _) => Ok::<u64, RequestError>(tokens),
            (None, Some(tokens)) => Ok(tokens),
            (None, None) => Err(RequestError::MaxTokensMissing),
        },
{
    if let Some(tokens) = requested {
        Ok(tokens)
    } else if let Some(tokens) = default_max_tokens {
        Ok(tokens)
    } else {
        Err(RequestError::MaxTokensMissing)
    }
}

} // verus!
