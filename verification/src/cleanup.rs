//! Optional post-ASR text cleanup: which backend the settings select, the
//! errors the backends report, and the keychain lookup of their secrets.
use vstd::prelude::*;
use crate::error::{AppError, AppErrorView, error_code, join_str};
use crate::cleanup::http::status_outcome;
use crate::settings::{CleanupConfig, CleanupConfigView};

pub mod http;
pub mod noop;
pub mod ollama;
pub mod openai_compat;

use noop::NoOpCleanup;
use ollama::OllamaBackend;
use openai_compat::OpenAiCompatBackend;

verus! {

/// Errors from the cleanup layer.
#[derive(Debug, Clone, PartialEq, Eq)]
pub enum CleanupError {
    Unreachable(String),
    Auth,
    RateLimit,
    Request(String),
}

/// Mathematical model of a [`CleanupError`].
pub enum CleanupErrorView {
    Unreachable(Seq<char>),
    Auth,
    RateLimit,
    Request(Seq<char>),
}

impl View for CleanupError {
    type V = CleanupErrorView;

    open spec fn view(&self) -> CleanupErrorView {
        match self {
            CleanupError::Unreachable(m) => CleanupErrorView::Unreachable(m@),
            CleanupError::Auth => CleanupErrorView::Auth,
            CleanupError::RateLimit => CleanupErrorView::RateLimit,
            CleanupError::Request(m) => CleanupErrorView::Request(m@),
        }
    }
}

/// The human-readable message of a cleanup error.
pub open spec fn cleanup_error_message(e: CleanupErrorView) -> Seq<char> {
    match e {
        CleanupErrorView::Unreachable(m) => "Endpoint not reachable: "@ + m,
        CleanupErrorView::Auth => "Authentication failed (401/403)"@,
        CleanupErrorView::RateLimit => "Rate limited"@,
        CleanupErrorView::Request(m) => "Request failed: "@ + m,
    }
}

/// The application error a cleanup error is reported as.
pub open spec fn cleanup_to_app_error(e: CleanupErrorView) -> AppErrorView {
    match e {
        CleanupErrorView::Unreachable(u) => AppErrorView::CleanupUnreachable(u),
        CleanupErrorView::Auth => AppErrorView::CleanupAuth,
        CleanupErrorView::RateLimit => AppErrorView::CleanupRate,
        CleanupErrorView::Request(r) => AppErrorView::Internal(r),
    }
}

impl CleanupError {
    /// The human-readable message of this error.
    pub fn message(&self) -> (r: String)
        ensures
            r@ == cleanup_error_message(self@),
    {
        match self {
            CleanupError::Unreachable(m) => join_str("Endpoint not reachable: ", m.as_str()),
            CleanupError::Auth => String::from_str("Authentication failed (401/403)"),
            CleanupError::RateLimit => String::from_str("Rate limited"),
            CleanupError::Request(m) => join_str("Request failed: ", m.as_str()),
        }
    }
}

impl From<CleanupError> for AppError {
    fn from(e: CleanupError) -> (r: AppError) {
        match e {
            CleanupError::Unreachable(u) => AppError::CleanupUnreachable(u),
            CleanupError::Auth => AppError::CleanupAuth,
            CleanupError::RateLimit => AppError::CleanupRate,
            CleanupError::Request(r) => AppError::Internal(r),
        }
    }
}

impl vstd::std_specs::convert::FromSpecImpl<CleanupError> for AppError {
    open spec fn obeys_from_spec() -> bool {
        true
    }

    open spec fn from_spec(e: CleanupError) -> AppError {
        match e {
            CleanupError::Unreachable(u) => AppError::CleanupUnreachable(u),
            CleanupError::Auth => AppError::CleanupAuth,
            CleanupError::RateLimit => AppError::CleanupRate,
            CleanupError::Request(r) => AppError::Internal(r),
        }
    }
}

/// Converting a cleanup error keeps its message and picks the matching code.
pub proof fn lemma_cleanup_error_conversion(e: CleanupError)
    ensures
        <AppError as vstd::std_specs::convert::FromSpec<CleanupError>>::from_spec(e)@
            == cleanup_to_app_error(e@),
{
}

/// Keychain service name under which cleanup secrets are stored.
pub const KEYCHAIN_SERVICE: &'static str = "com.utter.app";

#[verifier::external_type_specification]
#[verifier::external_body]
pub struct ExKeyringEntry(keyring::Entry);

#[verifier::external_type_specification]
#[verifier::external_body]
pub struct ExKeyringError(keyring::Error);

/// Calls `keyring::Entry::new(service, account)`. Whether it succeeds
/// depends on the platform credential store, so nothing is promised of the
/// result. (It panics only if the keyring's internal builder lock is
/// poisoned, which no input can cause; that is not stated.)
#[verifier::external_body]
fn keychain_entry(service: &str, account: &str) -> Result<keyring::Entry, keyring::Error> {
    keyring::Entry::new(service, account)
}

/// Calls `keyring::Entry::get_password`. What it returns is whatever the
/// platform credential store holds, so nothing is promised of the result.
#[verifier::external_body]
fn keychain_password(entry: &keyring::Entry) -> Result<String, keyring::Error> {
    entry.get_password()
}

/// The keychain entry a secret for `account` is stored under: the service
/// [`KEYCHAIN_SERVICE`] and the account itself. An empty account names no
/// entry.
pub fn keychain_key(account: &str) -> (r: Option<(&'static str, &str)>)
    ensures
        account@.len() == 0 <==> r is None,
        r matches Some((service, acct)) ==> service@ == KEYCHAIN_SERVICE@ && acct@ == account@,
{
    if account.is_empty() {
        None
    } else {
        Some((KEYCHAIN_SERVICE, account))
    }
}

/// The secret a keychain lookup yields: a stored password comes back as it
/// is; no entry, or any other keychain error, gives `None`.
pub fn secret_from_lookup(lookup: Result<String, keyring::Error>) -> (r: Option<String>)
    ensures
        match lookup {
            Ok(secret) => r matches Some(s) && s@ == secret@,
            Err(_) => r is None,
        },
{
    match lookup {
        Ok(secret) => Some(secret),
        Err(_) => None,
    }
}

/// Read the secret stored for `account` in the OS keychain, under the entry
/// [`keychain_key`] names. An empty account means "no secret" and the
/// keychain is not consulted; otherwise the result is what
/// [`secret_from_lookup`] makes of the keychain's answer.
pub fn load_keychain_secret(account: &str) -> (r: Option<String>)
    ensures
        account@.len() == 0 ==> r is None,
{
    match keychain_key(account) {
        None => None,
        Some((service, acct)) => match keychain_entry(service, acct) {
            Ok(entry) => secret_from_lookup(keychain_password(&entry)),
            Err(e) => secret_from_lookup(Err(e)),
        },
    }
}

/// The cleanup backend selected by the settings.
pub enum Backend {
    NoOp(NoOpCleanup),
    Ollama(OllamaBackend),
    OpenAiCompat(OpenAiCompatBackend),
}

/// Mathematical model of a [`Backend`].
pub enum BackendView {
    NoOp,
    Ollama { url: Seq<char>, model: Seq<char>, bearer_token: Option<Seq<char>> },
    OpenAiCompat { url: Seq<char>, model: Seq<char>, api_key: Seq<char> },
}

impl View for Backend {
    type V = BackendView;

    open spec fn view(&self) -> BackendView {
        match self {
            Backend::NoOp(_) => BackendView::NoOp,
            Backend::Ollama(b) => BackendView::Ollama {
                url: b.url@,
                model: b.model@,
                bearer_token: match b.bearer_token {
                    Some(t) => Some(t@),
                    None => None,
                },
            },
            Backend::OpenAiCompat(b) => BackendView::OpenAiCompat {
                url: b.url@,
                model: b.model@,
                api_key: b.api_key@,
            },
        }
    }
}

/// The keychain account a configuration reads its secret from (empty when
/// it reads none).
pub open spec fn secret_account(c: CleanupConfigView) -> Seq<char> {
    match c {
        CleanupConfigView::RemoteOllama { keychain_account, .. } => keychain_account,
        CleanupConfigView::OpenAiCompat { keychain_account, .. } => keychain_account,
        _ => Seq::empty(),
    }
}

/// The backend a configuration selects, given the secret read from the
/// keychain for it. A missing OpenAI-compatible API key becomes the empty key.
pub open spec fn backend_spec(c: CleanupConfigView, secret: Option<Seq<char>>) -> BackendView {
    match c {
        CleanupConfigView::Disabled => BackendView::NoOp,
        CleanupConfigView::LocalOllama { url, model } => BackendView::Ollama {
            url,
            model,
            bearer_token: None,
        },
        CleanupConfigView::RemoteOllama { url, model, .. } => BackendView::Ollama {
            url,
            model,
            bearer_token: secret,
        },
        CleanupConfigView::OpenAiCompat { url, model, .. } => BackendView::OpenAiCompat {
            url,
            model,
            api_key: match secret {
                Some(k) => k,
                None => Seq::empty(),
            },
        },
    }
}

pub open spec fn opt_string_view(s: Option<String>) -> Option<Seq<char>> {
    match s {
        Some(t) => Some(t@),
        None => None,
    }
}

/// The keychain account whose secret a configuration needs: the configured
/// account of a remote Ollama or OpenAI-compatible backend, and the empty
/// account (no secret) for the others.
pub fn keychain_account_of(config: &CleanupConfig) -> (r: &str)
    ensures
        r@ == secret_account(config@),
{
    proof {
        reveal_strlit("");
    }
    match config {
        CleanupConfig::RemoteOllama { keychain_account, .. } => keychain_account.as_str(),
        CleanupConfig::OpenAiCompat { keychain_account, .. } => keychain_account.as_str(),
        _ => "",
    }
}

/// Build the backend a configuration selects, given the secret already read
/// for it from the keychain.
pub fn backend_for(config: &CleanupConfig, secret: Option<String>) -> (r: Backend)
    ensures
        r@ == backend_spec(config@, opt_string_view(secret)),
        match config {
            CleanupConfig::Disabled => r is NoOp,
            CleanupConfig::LocalOllama { url, model } => r matches Backend::Ollama(b) && b.url@
                == url@ && b.model@ == model@ && b.bearer_token is None,
            CleanupConfig::RemoteOllama { url, model, .. } => r matches Backend::Ollama(b) && b.url@
                == url@ && b.model@ == model@ && opt_string_view(b.bearer_token) == opt_string_view(
                secret,
            ),
            CleanupConfig::OpenAiCompat { url, model, .. } => r matches Backend::OpenAiCompat(b)
                && b.url@ == url@ && b.model@ == model@ && (secret matches Some(k) ==> b.api_key@
                == k@) && (secret is None ==> b.api_key@.len() == 0),
        },
{
    match config {
        CleanupConfig::Disabled => Backend::NoOp(NoOpCleanup),
        CleanupConfig::LocalOllama { url, model } => Backend::Ollama(
            OllamaBackend::new(url.clone(), model.clone(), None),
        ),
        CleanupConfig::RemoteOllama { url, model, .. } => Backend::Ollama(
            OllamaBackend::new(url.clone(), model.clone(), secret),
        ),
        CleanupConfig::OpenAiCompat { url, model, .. } => {
            let api_key = match secret {
                Some(k) => k,
                None => String::new(),
            };
            Backend::OpenAiCompat(OpenAiCompatBackend::new(url.clone(), model.clone(), api_key))
        },
    }
}

/// Build the backend the user's cleanup configuration selects. Remote
/// Ollama and OpenAI-compatible backends read their secret from the keychain
/// (never from the configuration); `None` selects the pass-through backend.
pub fn build_backend(config: &CleanupConfig) -> (r: Backend)
    ensures
        exists|secret: Option<Seq<char>>|
            r@ == #[trigger] backend_spec(config@, secret) && (secret_account(config@).len() == 0
                ==> secret is None),
{
    let secret = load_keychain_secret(keychain_account_of(config));
    let r = backend_for(config, secret);
    assert(r@ == backend_spec(config@, opt_string_view(secret)));
    r
}

/// The URL of a configuration that names an endpoint.
pub open spec fn config_endpoint(c: CleanupConfigView) -> Option<(Seq<char>, Seq<char>)> {
    match c {
        CleanupConfigView::Disabled => None,
        CleanupConfigView::LocalOllama { url, model } => Some((url, model)),
        CleanupConfigView::RemoteOllama { url, model, .. } => Some((url, model)),
        CleanupConfigView::OpenAiCompat { url, model, .. } => Some((url, model)),
    }
}

/// The URL and model a backend talks to.
pub open spec fn backend_endpoint(b: BackendView) -> Option<(Seq<char>, Seq<char>)> {
    match b {
        BackendView::NoOp => None,
        BackendView::Ollama { url, model, .. } => Some((url, model)),
        BackendView::OpenAiCompat { url, model, .. } => Some((url, model)),
    }
}

/// The selected backend talks to exactly the URL and model the settings
/// name, whatever secret was read; Ollama settings select an Ollama
/// backend, OpenAI-compatible settings an OpenAI-compatible one.
pub proof fn lemma_backend_keeps_endpoint(c: CleanupConfigView, secret: Option<Seq<char>>)
    ensures
        backend_endpoint(backend_spec(c, secret)) == config_endpoint(c),
        c is LocalOllama || c is RemoteOllama <==> backend_spec(c, secret) is Ollama,
        c is OpenAiCompat <==> backend_spec(c, secret) is OpenAiCompat,
        c is RemoteOllama ==> (backend_spec(c, secret) matches BackendView::Ollama {
            bearer_token,
            ..
        } && bearer_token == secret),
{
}

/// With cleanup off, the pass-through backend is selected, whatever the
/// keychain holds: the transcript is not sent anywhere.
pub proof fn lemma_cleanup_off_selects_noop(secret: Option<Seq<char>>)
    ensures
        backend_spec(CleanupConfigView::Disabled, secret) == BackendView::NoOp,
{
}

/// Only a remote Ollama or OpenAI-compatible backend ever carries a secret,
/// and it is the one read for its keychain account.
pub proof fn lemma_local_backends_carry_no_secret(c: CleanupConfigView, secret: Option<Seq<char>>)
    requires
        c is Disabled || c is LocalOllama,
    ensures
        backend_spec(c, secret) == backend_spec(c, None),
{
}

/// How the webview learns of an endpoint's refusal: 401 and 403 arrive as
/// `E_CLEANUP_AUTH`, 429 as `E_CLEANUP_RATE`, and an endpoint that cannot be
/// reached as `E_CLEANUP_UNREACHABLE` with the failure's text.
pub proof fn lemma_refusals_reach_webview_as_codes(status: u16, text: Seq<char>)
    ensures
        status == 401 || status == 403 ==> status_outcome(status) == Err::<(), CleanupErrorView>(
            CleanupErrorView::Auth,
        ) && error_code(cleanup_to_app_error(CleanupErrorView::Auth)) == "E_CLEANUP_AUTH"@,
        status == 429 ==> status_outcome(status) == Err::<(), CleanupErrorView>(
            CleanupErrorView::RateLimit,
        ) && error_code(cleanup_to_app_error(CleanupErrorView::RateLimit)) == "E_CLEANUP_RATE"@,
        cleanup_to_app_error(CleanupErrorView::Unreachable(text)) == AppErrorView::CleanupUnreachable(
            text,
        ) && error_code(cleanup_to_app_error(CleanupErrorView::Unreachable(text)))
            == "E_CLEANUP_UNREACHABLE"@,
{
}

} // verus!
