//! The HTTP decisions shared by the chat-completion cleanup backends.
use vstd::prelude::*;
use crate::cleanup::{CleanupError, CleanupErrorView};
use crate::error::join_str;
use crate::text::{decimal, decimal_string, trim_trailing_slashes, without_trailing_slashes};

verus! {

/// Path of the chat-completions endpoint under a backend's base URL.
pub const CHAT_COMPLETIONS_PATH: &'static str = "/v1/chat/completions";

/// The endpoint a chat request goes to: the base URL without trailing
/// slashes, followed by the chat-completions path.
pub open spec fn chat_endpoint(url: Seq<char>) -> Seq<char> {
    without_trailing_slashes(url) + CHAT_COMPLETIONS_PATH@
}

/// The chat-completions endpoint under base URL `url`.
pub fn endpoint(url: &str) -> (r: String)
    ensures
        r@ == chat_endpoint(url@),
{
    let mut s = trim_trailing_slashes(url);
    s.append(CHAT_COMPLETIONS_PATH);
    s
}

/// How an HTTP status is judged: 200 is success, 401 and 403 are
/// authentication failures, 429 is rate limiting, and anything else is a
/// failed request reported as `HTTP <status>`.
pub open spec fn status_outcome(status: u16) -> Result<(), CleanupErrorView> {
    if status == 200 {
        Ok(())
    } else if status == 401 || status == 403 {
        Err(CleanupErrorView::Auth)
    } else if status == 429 {
        Err(CleanupErrorView::RateLimit)
    } else {
        Err(CleanupErrorView::Request("HTTP "@ + decimal(status as nat)))
    }
}

/// Judge the HTTP status a cleanup endpoint answered with.
pub fn check_status(status: u16) -> (r: Result<(), CleanupError>)
    ensures
        match status_outcome(status) {
            Ok(()) => r is Ok,
            Err(e) => r matches Err(x) && x@ == e,
        },
        r is Ok <==> status == 200,
        r == Err::<(), CleanupError>(CleanupError::Auth) <==> (status == 401 || status == 403),
        r == Err::<(), CleanupError>(CleanupError::RateLimit) <==> status == 429,
        status != 200 && status != 401 && status != 403 && status != 429 ==> (r matches Err(
            CleanupError::Request(m),
        ) && m@ == "HTTP "@ + decimal(status as nat)),
{
    if status == 200 {
        Ok(())
    } else if status == 401 || status == 403 {
        Err(CleanupError::Auth)
    } else if status == 429 {
        Err(CleanupError::RateLimit)
    } else {
        let code = decimal_string(status as u64);
        Err(CleanupError::Request(join_str("HTTP ", code.as_str())))
    }
}

/// The error for a request that could not be sent: the endpoint's base URL,
/// then the transport's error text.
pub fn unreachable_error(url: &str, err: &str) -> (r: CleanupError)
    ensures
        r@ == CleanupErrorView::Unreachable(url@ + ": "@ + err@),
{
    let mut s = join_str(url, ": ");
    s.append(err);
    CleanupError::Unreachable(s)
}

/// The error for a response body that could not be parsed.
pub fn parse_error(err: &str) -> (r: CleanupError)
    ensures
        r@ == CleanupErrorView::Request("parse response: "@ + err@),
{
    CleanupError::Request(join_str("parse response: ", err))
}

/// Everything needed to send one chat-completion request: where, to which
/// model, the two messages (system prompt, then the raw transcript), the
/// optional `stream` flag of the body, the bearer token, and the client's
/// timeout and HTTPS policy.
pub struct ChatRequest {
    pub endpoint: String,
    pub model: String,
    pub system_prompt: String,
    pub user_content: String,
    pub stream: Option<bool>,
    pub bearer_token: Option<String>,
    pub timeout_secs: u64,
    pub https_only: bool,
}

/// A trailing slash on the base URL does not change the endpoint.
pub proof fn lemma_endpoint_ignores_trailing_slash(url: Seq<char>)
    ensures
        chat_endpoint(url.push('/')) == chat_endpoint(url),
{
    assert(url.push('/').drop_last() == url);
}

/// How each status is judged: only 401 and 403 are authentication
/// failures, only 429 is rate limiting, and every other status except 200
/// is a failed request named by its decimal code.
pub proof fn lemma_status_judgement(status: u16)
    ensures
        status_outcome(status) == Err::<(), CleanupErrorView>(CleanupErrorView::Auth) <==> (status
            == 401 || status == 403),
        status_outcome(status) == Err::<(), CleanupErrorView>(CleanupErrorView::RateLimit) <==> status
            == 429,
        status != 200 && status != 401 && status != 403 && status != 429 ==> status_outcome(status)
            == Err::<(), CleanupErrorView>(CleanupErrorView::Request("HTTP "@ + decimal(status as nat))),
{
}

/// Every status other than 200 is a failure.
pub proof fn lemma_only_200_succeeds(status: u16)
    ensures
        status_outcome(status) is Ok <==> status == 200,
{
}

} // verus!
