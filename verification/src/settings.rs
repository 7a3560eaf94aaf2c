use vstd::prelude::*;
use vstd::string::*;
use crate::hotkey::HOTKEY;

verus! {

/// The default local Ollama endpoint.
pub const DEFAULT_OLLAMA_URL: &'static str = "http://localhost:11434";

/// The full application settings.
#[derive(Debug, Clone)]
pub struct Settings {
    /// Global hotkey string.
    pub hotkey: String,
    /// Path to the ASR model file. Empty = use bundled default.
    pub model_path: String,
    /// Audio input device name. Empty = system default.
    pub audio_device: String,
    /// Cleanup backend configuration.
    pub cleanup: CleanupConfig,
}

/// Which cleanup backend is active. Off by default (`None`).
#[derive(Debug, Clone, PartialEq, Eq)]
pub enum CleanupConfig {
    /// No cleanup: raw ASR output is inserted as-is.
    Disabled,
    /// Local Ollama instance.
    LocalOllama { url: String, model: String },
    /// Remote Ollama instance; the optional bearer token lives in the keychain.
    RemoteOllama { url: String, model: String, keychain_account: String },
    /// Any OpenAI-compatible endpoint; the API key lives in the keychain.
    OpenAiCompat { url: String, model: String, keychain_account: String },
}

/// Mathematical model of a [`CleanupConfig`].
pub enum CleanupConfigView {
    Disabled,
    LocalOllama { url: Seq<char>, model: Seq<char> },
    RemoteOllama { url: Seq<char>, model: Seq<char>, keychain_account: Seq<char> },
    OpenAiCompat { url: Seq<char>, model: Seq<char>, keychain_account: Seq<char> },
}

impl View for CleanupConfig {
    type V = CleanupConfigView;

    open spec fn view(&self) -> CleanupConfigView {
        match self {
            CleanupConfig::Disabled => CleanupConfigView::Disabled,
            CleanupConfig::LocalOllama { url, model } => CleanupConfigView::LocalOllama {
                url: url@,
                model: model@,
            },
            CleanupConfig::RemoteOllama { url, model, keychain_account } =>
                CleanupConfigView::RemoteOllama {
                url: url@,
                model: model@,
                keychain_account: keychain_account@,
            },
            CleanupConfig::OpenAiCompat { url, model, keychain_account } =>
                CleanupConfigView::OpenAiCompat {
                url: url@,
                model: model@,
                keychain_account: keychain_account@,
            },
        }
    }
}

/// The default Ollama URL, used when a local Ollama entry names none.
pub fn default_ollama_url() -> (r: String)
    ensures
        r@ == DEFAULT_OLLAMA_URL@,
{
    String::from_str(DEFAULT_OLLAMA_URL)
}

impl Default for Settings {
    /// The global hotkey, the bundled model, the system audio device, and
    /// no cleanup.
    fn default() -> (s: Self)
        ensures
            s.hotkey@ == HOTKEY@,
            s.model_path@.len() == 0,
            s.audio_device@.len() == 0,
            s.cleanup@ is Disabled,
    {
        Settings {
            hotkey: String::from_str(HOTKEY),
            model_path: String::new(),
            audio_device: String::new(),
            cleanup: CleanupConfig::Disabled,
        }
    }
}

} // verus!
