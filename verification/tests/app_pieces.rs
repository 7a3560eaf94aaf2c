use utter::commands::{get_logs, is_model_file, TEST_INPUT};
use utter::insert::{insert_text, insert_text_macos, insert_text_windows, Platform};
use utter::mic::{
    capture_conversion, device_error, find_device, list_input_devices, preferred_config, ConfigRange, Conversion,
    DeviceChoice, SampleFormat, TARGET_SAMPLE_RATE,
};
use utter::settings::{default_ollama_url, CleanupConfig, Settings};
use utter::AppError;

#[test]
fn default_settings() {
    let s = Settings::default();
    assert_eq!(s.hotkey, "CmdOrCtrl+Shift+D");
    assert_eq!(s.model_path, "");
    assert_eq!(s.audio_device, "");
    assert_eq!(s.cleanup, CleanupConfig::Disabled);
    assert_eq!(default_ollama_url(), "http://localhost:11434");
}

#[test]
fn model_files_by_suffix() {
    assert!(is_model_file("ggml-base.bin"));
    assert!(is_model_file("model.gguf"));
    assert!(is_model_file("parakeet.mlmodelc"));
    assert!(!is_model_file("readme.txt"));
    assert!(!is_model_file("bin"));
}

#[test]
fn logs_are_empty_and_test_input_fixed() {
    assert!(get_logs().is_empty());
    assert_eq!(TEST_INPUT, "um hello uh this is a test you know");
}

#[test]
fn insertion_per_platform() {
    assert_eq!(insert_text("", Platform::MacOs), Ok(()));
    assert_eq!(insert_text("", Platform::Windows), Ok(()));
    assert_eq!(insert_text("hi", Platform::Other), Ok(()));
    assert_eq!(
        insert_text("hi", Platform::MacOs),
        Err(AppError::Internal("insert_text_macos not yet implemented \u{2014} Phase 2".into()))
    );
    assert_eq!(
        insert_text("hi", Platform::Windows),
        Err(AppError::Internal("insert_text_windows not yet implemented \u{2014} Phase 3".into()))
    );
    assert!(insert_text_macos("x").is_err());
    assert!(insert_text_windows("x").is_err());
}

fn range(channels: u16, f: SampleFormat, lo: u32, hi: u32) -> ConfigRange {
    ConfigRange { channels, sample_format: f, min_sample_rate: lo, max_sample_rate: hi }
}

#[test]
fn preferred_config_is_first_16k_mono_f32() {
    assert_eq!(TARGET_SAMPLE_RATE, 16_000);
    let ranges = vec![
        range(2, SampleFormat::F32, 8_000, 48_000),
        range(1, SampleFormat::I16, 8_000, 48_000),
        range(1, SampleFormat::F32, 22_050, 48_000),
        range(1, SampleFormat::F32, 16_000, 16_000),
        range(1, SampleFormat::F32, 8_000, 48_000),
    ];
    assert_eq!(preferred_config(&ranges), Some(3));
    assert_eq!(preferred_config(&ranges[..3].to_vec()), None);
}

#[test]
fn device_lookup() {
    let devs = vec![Some("Built-in".to_string()), None, Some("USB Mic".to_string()), Some("USB Mic".to_string())];
    assert_eq!(find_device("", &devs), Ok(DeviceChoice::Default));
    assert_eq!(find_device("USB Mic", &devs), Ok(DeviceChoice::Index(2)));
    assert_eq!(find_device("Nope", &devs), Err(AppError::Internal("audio device not found: 'Nope'".into())));
    assert_eq!(list_input_devices(devs), vec!["Built-in".to_string(), "USB Mic".to_string(), "USB Mic".to_string()]);
    assert_eq!(device_error("list audio devices", "no host"), AppError::Internal("list audio devices: no host".into()));
}

#[test]
fn sample_format_conversion() {
    assert_eq!(capture_conversion(SampleFormat::F32, "F32"), Ok(Conversion::Direct));
    assert_eq!(capture_conversion(SampleFormat::I16, "I16"), Ok(Conversion::FromI16));
    assert_eq!(capture_conversion(SampleFormat::Other, "U8"), Err(AppError::Internal("unsupported sample format: U8".into())));
}

#[test]
fn model_infos_keep_model_files_in_order() {
    let entries = vec![
        ("a.bin".to_string(), "/m/a.bin".to_string(), 10u64),
        ("notes.txt".to_string(), "/m/notes.txt".to_string(), 3),
        ("b.gguf".to_string(), "/m/b.gguf".to_string(), 20),
        ("c.mlmodelc".to_string(), "/m/c.mlmodelc".to_string(), 0),
    ];
    let infos = utter::commands::model_infos(entries);
    let got: Vec<(String, String, u64)> = infos.into_iter().map(|m| (m.name, m.path, m.size_bytes)).collect();
    assert_eq!(
        got,
        vec![
            ("a.bin".to_string(), "/m/a.bin".to_string(), 10),
            ("b.gguf".to_string(), "/m/b.gguf".to_string(), 20),
            ("c.mlmodelc".to_string(), "/m/c.mlmodelc".to_string(), 0),
        ]
    );
}
