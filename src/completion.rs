//! The one POST made to the chat-completion endpoint, laid out for the
//! HTTP client that sends it.
use vstd::prelude::*;
use crate::chat::{request_json, ChatRequest};
use crate::config::{Config, ConfigError};

verus! {

/// Where completions are asked for.
pub const COMPLETIONS_URL: &'static str = "https://api.openai.com/v1/chat/completions";

/// The content type of the request body.
pub const JSON_CONTENT_TYPE: &'static str = "application/json";

/// A POST ready to send: its address, its two headers and its body.
pub struct CompletionPost {
    pub url: String,
    pub authorization: String,
    pub content_type: String,
    pub body: String,
}

/// The `Authorization` header for a bearer credential.
pub open spec fn bearer_text(key: Seq<char>) -> Seq<char> {
    "Bearer "@ + key
}

/// `p` is the POST of `request` with credential `key`.
pub open spec fn is_post_for(p: CompletionPost, key: Seq<char>, request: ChatRequest) -> bool {
    &&& p.url@ == COMPLETIONS_URL@
    &&& p.authorization@ == bearer_text(key)
    &&& p.content_type@ == JSON_CONTENT_TYPE@
    &&& p.body@ == request_json(request@)
}

/// The `Authorization` header value for `key`.
pub fn bearer(key: &str) -> (r: String)
    ensures
        r@ == bearer_text(key@),
{
    String::from_str("Bearer ").concat(key)
}

/// Lays out the POST for `request`. Without a completion key nothing is to be
/// sent, and the missing key is reported instead.
pub fn prepare_completion(config: &Config, request: &ChatRequest) -> (r: Result<
    CompletionPost,
    ConfigError,
>)
    ensures
        r matches Err(e) ==> e == ConfigError::MissingApiKey,
        r is Ok <==> config@.1 is Some,
        r matches Ok(p) ==> is_post_for(p, config@.1->0, *request),
{
    match config.api_key() {
        None => Err(ConfigError::MissingApiKey),
        Some(key) => Ok(
            CompletionPost {
                url: String::from_str(COMPLETIONS_URL),
                authorization: bearer(key),
                content_type: String::from_str(JSON_CONTENT_TYPE),
                body: request.to_json(),
            },
        ),
    }
}

} // verus!
