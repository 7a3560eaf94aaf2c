use utter::cleanup::http::{check_status, endpoint, parse_error, unreachable_error};
use utter::cleanup::noop::NoOpCleanup;
use utter::cleanup::{backend_for, build_backend, keychain_account_of, keychain_key, secret_from_lookup, load_keychain_secret, Backend, CleanupError, KEYCHAIN_SERVICE};
use utter::cleanup::{ollama, openai_compat};
use utter::settings::CleanupConfig;

#[test]
fn noop_returns_raw_unchanged() {
    assert_eq!(NoOpCleanup.refine("um hello uh").unwrap(), "um hello uh");
}

#[test]
fn disabled_config_builds_noop() {
    assert!(matches!(build_backend(&CleanupConfig::Disabled), Backend::NoOp(_)));
}

#[test]
fn local_ollama_has_no_token() {
    let cfg = CleanupConfig::LocalOllama { url: "http://localhost:11434".into(), model: "llama3".into() };
    match build_backend(&cfg) {
        Backend::Ollama(b) => {
            assert_eq!(b.url, "http://localhost:11434");
            assert_eq!(b.model, "llama3");
            assert_eq!(b.bearer_token, None);
        }
        _ => panic!("expected Ollama"),
    }
}

#[test]
fn remote_ollama_without_account_has_no_token() {
    let cfg = CleanupConfig::RemoteOllama { url: "https://o.example".into(), model: "m".into(), keychain_account: String::new() };
    match build_backend(&cfg) {
        Backend::Ollama(b) => assert_eq!(b.bearer_token, None),
        _ => panic!("expected Ollama"),
    }
}

#[test]
fn openai_without_account_has_empty_key() {
    let cfg = CleanupConfig::OpenAiCompat { url: "https://api.example".into(), model: "gpt".into(), keychain_account: String::new() };
    match build_backend(&cfg) {
        Backend::OpenAiCompat(b) => {
            assert_eq!(b.api_key, "");
            assert_eq!(b.url, "https://api.example");
            assert_eq!(b.model, "gpt");
        }
        _ => panic!("expected OpenAI-compatible"),
    }
}

#[test]
fn backend_for_uses_the_secret() {
    let remote = CleanupConfig::RemoteOllama { url: "u".into(), model: "m".into(), keychain_account: "acct".into() };
    match backend_for(&remote, Some("tok".into())) {
        Backend::Ollama(b) => assert_eq!(b.bearer_token, Some("tok".to_string())),
        _ => panic!("expected Ollama"),
    }
    let openai = CleanupConfig::OpenAiCompat { url: "u".into(), model: "m".into(), keychain_account: "acct".into() };
    match backend_for(&openai, Some("key".into())) {
        Backend::OpenAiCompat(b) => assert_eq!(b.api_key, "key"),
        _ => panic!("expected OpenAI-compatible"),
    }
    match backend_for(&CleanupConfig::Disabled, Some("ignored".into())) {
        Backend::NoOp(_) => {}
        _ => panic!("expected no-op"),
    }
}

#[test]
fn empty_account_reads_no_secret() {
    assert_eq!(load_keychain_secret(""), None);
    assert_eq!(KEYCHAIN_SERVICE, "com.utter.app");
}

#[test]
fn endpoint_strips_trailing_slashes() {
    assert_eq!(endpoint("http://localhost:11434"), "http://localhost:11434/v1/chat/completions");
    assert_eq!(endpoint("http://localhost:11434/"), "http://localhost:11434/v1/chat/completions");
    assert_eq!(endpoint("http://localhost:11434///"), "http://localhost:11434/v1/chat/completions");
}

#[test]
fn status_codes_are_judged() {
    assert_eq!(check_status(200), Ok(()));
    assert_eq!(check_status(401), Err(CleanupError::Auth));
    assert_eq!(check_status(403), Err(CleanupError::Auth));
    assert_eq!(check_status(429), Err(CleanupError::RateLimit));
    assert_eq!(check_status(500), Err(CleanupError::Request("HTTP 500".into())));
    assert_eq!(check_status(404), Err(CleanupError::Request("HTTP 404".into())));
}

#[test]
fn transport_and_parse_errors() {
    assert_eq!(unreachable_error("http://h", "connection refused"), CleanupError::Unreachable("http://h: connection refused".into()));
    assert_eq!(parse_error("EOF"), CleanupError::Request("parse response: EOF".into()));
}

#[test]
fn ollama_request_and_response() {
    let b = ollama::OllamaBackend::new("http://h/".into(), "llama3".into(), Some("t".into()));
    let r = b.request("um hi");
    assert_eq!(r.endpoint, "http://h/v1/chat/completions");
    assert_eq!(r.model, "llama3");
    assert_eq!(r.system_prompt, ollama::SYSTEM_PROMPT);
    assert_eq!(r.user_content, "um hi");
    assert_eq!(r.stream, Some(false));
    assert_eq!(r.bearer_token, Some("t".to_string()));
    assert_eq!(r.timeout_secs, 30);
    assert!(!r.https_only);
    assert_eq!(b.finish(Ok("  Hi.\n".into())), Ok("Hi.".to_string()));
    assert_eq!(b.finish(Err("bad json".into())), Err(CleanupError::Request("parse response: bad json".into())));
    assert_eq!(b.send_failed("timeout"), CleanupError::Unreachable("http://h/: timeout".into()));
}

#[test]
fn openai_request_and_response() {
    let b = openai_compat::OpenAiCompatBackend::new("https://api".into(), "gpt".into(), "sk".into());
    let r = b.request("raw text");
    assert_eq!(r.endpoint, "https://api/v1/chat/completions");
    assert_eq!(r.stream, None);
    assert_eq!(r.bearer_token, Some("sk".to_string()));
    assert_eq!(r.timeout_secs, 60);
    assert!(r.https_only);
    assert_eq!(r.system_prompt, openai_compat::SYSTEM_PROMPT);
    assert_eq!(b.finish("raw text", Ok(vec![" Clean. ".into(), "second".into()])), Ok("Clean.".to_string()));
    assert_eq!(b.finish("raw text", Ok(vec![])), Ok("raw text".to_string()));
    assert_eq!(b.finish("raw", Err("x".into())), Err(CleanupError::Request("parse response: x".into())));
}

#[test]
fn secret_account_comes_from_the_config() {
    assert_eq!(keychain_account_of(&CleanupConfig::Disabled), "");
    assert_eq!(keychain_account_of(&CleanupConfig::LocalOllama { url: "u".into(), model: "m".into() }), "");
    let remote = CleanupConfig::RemoteOllama { url: "u".into(), model: "m".into(), keychain_account: "acct".into() };
    assert_eq!(keychain_account_of(&remote), "acct");
    let openai = CleanupConfig::OpenAiCompat { url: "u".into(), model: "m".into(), keychain_account: "key".into() };
    assert_eq!(keychain_account_of(&openai), "key");
}

#[test]
fn keychain_entry_is_service_and_account() {
    assert_eq!(keychain_key(""), None);
    assert_eq!(keychain_key("work"), Some(("com.utter.app", "work")));
}

#[test]
fn keychain_answers_map_to_secrets() {
    assert_eq!(secret_from_lookup(Ok("s3cret".to_string())), Some("s3cret".to_string()));
    assert_eq!(secret_from_lookup(Err(keyring::Error::NoEntry)), None);
    assert_eq!(secret_from_lookup(Err(keyring::Error::Invalid("user".into(), "empty".into()))), None);
}
