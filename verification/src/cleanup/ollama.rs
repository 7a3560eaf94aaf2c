//! Ollama cleanup backend (local and remote), speaking the OpenAI-compatible
//! chat endpoint.
use vstd::prelude::*;
use vstd::string::*;
use crate::cleanup::{CleanupError, CleanupErrorView};
use crate::cleanup::http::{ChatRequest, chat_endpoint, endpoint, parse_error, unreachable_error};
use crate::cleanup::opt_string_view;
use crate::text::{trim, trimmed};

verus! {

/// System prompt sent to the model for every cleanup request.
pub const SYSTEM_PROMPT: &'static str = "You are a transcript editor. The user will give you a raw speech-to-text transcript. Your job is to fix grammar, remove filler words (um, uh, like, you know), and correct obvious transcription errors. Return ONLY the corrected transcript \u{2014} no explanations, no comments, no surrounding quotes. Preserve meaning exactly. Do not add content.";

/// Whether the client refuses plain HTTP.
pub const HTTPS_ONLY: bool = false;

/// Client timeout for Ollama requests, in seconds.
pub const TIMEOUT_SECS: u64 = 30;

/// An Ollama endpoint, with an optional bearer token.
pub struct OllamaBackend {
    pub url: String,
    pub model: String,
    pub bearer_token: Option<String>,
}

impl OllamaBackend {
    pub fn new(url: String, model: String, bearer_token: Option<String>) -> (r: Self)
        ensures
            r.url == url,
            r.model == model,
            r.bearer_token == bearer_token,
    {
        OllamaBackend { url, model, bearer_token }
    }

    /// The request that refines `raw`: the system prompt and `raw` as the
    /// two messages, `stream: false`, the bearer token if there is one, a
    /// 30 s timeout, plain HTTP allowed.
    pub fn request(&self, raw: &str) -> (r: ChatRequest)
        ensures
            r.endpoint@ == chat_endpoint(self.url@),
            r.model@ == self.model@,
            r.system_prompt@ == SYSTEM_PROMPT@,
            r.user_content@ == raw@,
            r.stream == Some(false),
            opt_string_view(r.bearer_token) == opt_string_view(self.bearer_token),
            r.timeout_secs == TIMEOUT_SECS,
            !r.https_only,
    {
        ChatRequest {
            endpoint: endpoint(self.url.as_str()),
            model: self.model.clone(),
            system_prompt: String::from_str(SYSTEM_PROMPT),
            user_content: String::from_str(raw),
            stream: Some(false),
            bearer_token: match &self.bearer_token {
                Some(t) => Some(t.clone()),
                None => None,
            },
            timeout_secs: TIMEOUT_SECS,
            https_only: HTTPS_ONLY,
        }
    }

    /// The error for a request that could not be sent.
    pub fn send_failed(&self, err: &str) -> (r: CleanupError)
        ensures
            r@ == CleanupErrorView::Unreachable(self.url@ + ": "@ + err@),
    {
        unreachable_error(self.url.as_str(), err)
    }

    /// The outcome of a successful (HTTP 200) response, given the parsed
    /// `message.content` of its body or the parse error: the content with
    /// surrounding whitespace trimmed.
    pub fn finish(&self, body: Result<String, String>) -> (r: Result<String, CleanupError>)
        ensures
            match body {
                Ok(content) => r matches Ok(s) && s@ == trimmed(content@),
                Err(e) => r matches Err(x) && x@ == CleanupErrorView::Request(
                    "parse response: "@ + e@,
                ),
            },
    {
        match body {
            Ok(content) => Ok(trim(content.as_str())),
            Err(e) => Err(parse_error(e.as_str())),
        }
    }
}

} // verus!
