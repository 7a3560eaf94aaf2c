//! Cleanup backend for any OpenAI-compatible chat-completions endpoint.
use vstd::prelude::*;
use vstd::string::*;
use crate::cleanup::{CleanupError, CleanupErrorView};
use crate::cleanup::http::{ChatRequest, chat_endpoint, endpoint, parse_error, unreachable_error};
use crate::text::{trim, trimmed};

verus! {

/// System prompt sent to the model for every cleanup request.
pub const SYSTEM_PROMPT: &'static str = "You are a transcript editor. Fix grammar, remove filler words (um, uh, like, you know), and correct obvious transcription errors. Return ONLY the corrected transcript \u{2014} no explanations, no comments, no surrounding quotes. Preserve meaning exactly.";

/// Whether the client refuses plain HTTP.
pub const HTTPS_ONLY: bool = true;

/// Client timeout for OpenAI-compatible requests, in seconds (cloud APIs can
/// be slower).
pub const TIMEOUT_SECS: u64 = 60;

/// An OpenAI-compatible endpoint and its API key.
pub struct OpenAiCompatBackend {
    pub url: String,
    pub model: String,
    pub api_key: String,
}

/// What a successful response yields, given the `message.content` of each
/// of its choices: the first choice, trimmed, or the raw transcript when
/// there is no choice.
pub open spec fn openai_result(raw: Seq<char>, choices: Seq<Seq<char>>) -> Seq<char> {
    if choices.len() > 0 {
        trimmed(choices[0])
    } else {
        raw
    }
}

/// A response with at least one choice yields the first choice, trimmed;
/// the raw transcript comes back only when there is no choice at all.
pub proof fn lemma_first_choice_wins(raw: Seq<char>, choices: Seq<Seq<char>>)
    ensures
        choices.len() > 0 ==> openai_result(raw, choices) == trimmed(choices[0]),
        choices.len() == 0 ==> openai_result(raw, choices) == raw,
{
}

impl OpenAiCompatBackend {
    pub fn new(url: String, model: String, api_key: String) -> (r: Self)
        ensures
            r.url == url,
            r.model == model,
            r.api_key == api_key,
    {
        OpenAiCompatBackend { url, model, api_key }
    }

    /// The request that refines `raw`: the system prompt and `raw` as the
    /// two messages, no `stream` field, the API key as bearer token, a 60 s
    /// timeout, HTTPS only (an API key is never sent over plain HTTP).
    pub fn request(&self, raw: &str) -> (r: ChatRequest)
        ensures
            r.endpoint@ == chat_endpoint(self.url@),
            r.model@ == self.model@,
            r.system_prompt@ == SYSTEM_PROMPT@,
            r.user_content@ == raw@,
            r.stream is None,
            r.bearer_token matches Some(k) && k@ == self.api_key@,
            r.timeout_secs == TIMEOUT_SECS,
            r.https_only,
    {
        ChatRequest {
            endpoint: endpoint(self.url.as_str()),
            model: self.model.clone(),
            system_prompt: String::from_str(SYSTEM_PROMPT),
            user_content: String::from_str(raw),
            stream: None,
            bearer_token: Some(self.api_key.clone()),
            timeout_secs: TIMEOUT_SECS,
            https_only: HTTPS_ONLY,
        }
    }

    /// The error for a request that could not be sent.
    pub fn send_failed(&self, err: &str) -> (r: CleanupError)
        ensures
            r@ == CleanupErrorView::Unreachable(self.url@ + ": "@ + err@),
    {
        unreachable_error(self.url.as_str(), err)
    }

    /// The outcome of a successful (HTTP 200) response, given the
    /// `message.content` of each choice in its body, or the parse error.
    pub fn finish(&self, raw: &str, body: Result<Vec<String>, String>) -> (r: Result<
        String,
        CleanupError,
    >)
        ensures
            match body {
                Ok(choices) => r matches Ok(s) && s@ == openai_result(
                    raw@,
                    choices@.map_values(|c: String| c@),
                ),
                Err(e) => r matches Err(x) && x@ == CleanupErrorView::Request(
                    "parse response: "@ + e@,
                ),
            },
            match body {
                Ok(choices) => if choices@.len() > 0 {
                    r matches Ok(s) && s@ == trimmed(choices@[0]@)
                } else {
                    r matches Ok(s) && s@ == raw@
                },
                Err(_) => r is Err,
            },
    {
        match body {
            Ok(choices) => {
                if choices.len() > 0 {
                    Ok(trim(choices[0].as_str()))
                } else {
                    Ok(String::from_str(raw))
                }
            },
            Err(e) => Err(parse_error(e.as_str())),
        }
    }
}

} // verus!
