use utter::engine::apple_silicon::AppleSiliconEngine;
use utter::engine::macos_speech::{
    check_helper, dev_helper_candidates, finish_transcript, helper_error, resolve_helper_path, MacOsSpeechEngine,
    SessionEnd, HELPER_NOT_FOUND,
};
use utter::engine::whisper_cpp::WhisperCppEngine;
use utter::engine::EngineError;

#[test]
fn stub_engines_report_not_implemented() {
    let a = AppleSiliconEngine { model_path: String::new() };
    assert_eq!(a.start_session(), Err(EngineError::NotImplemented("AppleSiliconEngine::start_session \u{2014} Phase 2".into())));
    assert_eq!(a.feed_audio(1, &[]), Err(EngineError::NotImplemented("AppleSiliconEngine::feed_audio \u{2014} Phase 2".into())));
    assert_eq!(a.poll_partial(1), Err(EngineError::NotImplemented("AppleSiliconEngine::poll_partial \u{2014} Phase 2".into())));
    assert_eq!(a.end_session(1), Err(EngineError::NotImplemented("AppleSiliconEngine::end_session \u{2014} Phase 2".into())));
    let w = WhisperCppEngine { model_path: String::new() };
    assert_eq!(w.start_session(), Err(EngineError::NotImplemented("WhisperCppEngine::start_session \u{2014} Phase 3".into())));
    assert_eq!(w.feed_audio(1, &[]), Err(EngineError::NotImplemented("WhisperCppEngine::feed_audio \u{2014} Phase 3".into())));
    assert_eq!(w.poll_partial(1), Err(EngineError::NotImplemented("WhisperCppEngine::poll_partial \u{2014} Phase 3".into())));
    assert_eq!(w.end_session(1), Err(EngineError::NotImplemented("WhisperCppEngine::end_session \u{2014} Phase 3".into())));
}

#[test]
fn sessions_buffer_audio_until_they_end() {
    let mut e = MacOsSpeechEngine::new("/bin/helper".into());
    assert_eq!(e.helper_path(), "/bin/helper");
    let a = e.start_session().unwrap();
    let b = e.start_session().unwrap();
    assert_eq!((a, b), (1, 2));
    let s1 = [0.5f32.to_bits(), (-2.0f32).to_bits()];
    let s2 = [1.0f32.to_bits()];
    e.feed_audio(a, &s1).unwrap();
    e.feed_audio(a, &s2).unwrap();
    assert_eq!(e.poll_partial(a), Ok(None));
    let expected: Vec<u8> = [0.5f32, -2.0, 1.0].iter().flat_map(|x| x.to_le_bytes()).collect();
    match e.end_session(a).unwrap() {
        SessionEnd::RunHelper(bytes) => assert_eq!(bytes, expected),
        SessionEnd::Transcript(_) => panic!("expected helper run"),
    }
    match e.end_session(b).unwrap() {
        SessionEnd::Transcript(t) => assert_eq!(t, ""),
        SessionEnd::RunHelper(_) => panic!("expected empty transcript"),
    }
    assert_eq!(e.end_session(a).err(), Some(EngineError::Session("unknown session 1".into())));
    assert_eq!(e.feed_audio(42, &s2), Err(EngineError::Session("unknown session 42".into())));
}

#[test]
fn helper_output_becomes_transcript() {
    assert_eq!(finish_transcript(true, "exit status: 0", b"  Hello world.\n", b""), Ok("Hello world.".to_string()));
    assert_eq!(
        finish_transcript(false, "exit status: 1", b"", b"error: no speech\n"),
        Err(EngineError::Session("helper exited exit status: 1: error: no speech".into()))
    );
    assert_eq!(finish_transcript(true, "exit status: 0", &[0x66, 0xff, 0x67, b' '], b""), Ok("f\u{fffd}g".to_string()));
    assert_eq!(
        finish_transcript(false, "exit status: 2", b"", &[0xc3]),
        Err(EngineError::Session("helper exited exit status: 2: \u{fffd}".into()))
    );
    assert_eq!(helper_error("spawn helper", "denied"), EngineError::Session("spawn helper: denied".into()));
}

#[test]
fn helper_is_resolved_in_order() {
    let c = vec![("a".to_string(), false), ("b".to_string(), true), ("c".to_string(), true)];
    assert_eq!(resolve_helper_path(&c), Ok("b".to_string()));
    let none = vec![("a".to_string(), false)];
    assert_eq!(resolve_helper_path(&none), Err(EngineError::ModelNotFound(HELPER_NOT_FOUND.into())));
    assert_eq!(
        dev_helper_candidates(),
        vec!["../../helpers/utter-transcribe", "apps/desktop/src-tauri/helpers/utter-transcribe"]
    );
}

#[test]
fn helper_must_be_a_file() {
    assert_eq!(check_helper("/h", Ok(true)), Ok(()));
    assert_eq!(check_helper("/h", Ok(false)), Err(EngineError::ModelLoad("helper path is not a file: /h".into())));
    assert_eq!(check_helper("/h", Err("no such file".into())), Err(EngineError::ModelLoad("helper not accessible: no such file".into())));
    assert!(MacOsSpeechEngine::init("/h".into(), Ok(true)).is_ok());
    assert_eq!(MacOsSpeechEngine::init("/h".into(), Ok(false)).err(), Some(EngineError::ModelLoad("helper path is not a file: /h".into())));
}

#[test]
fn session_ids_count_up_from_one() {
    let mut e = MacOsSpeechEngine::init("/h".into(), Ok(true)).unwrap();
    for k in 1..=50u64 {
        assert_eq!(e.start_session(), Ok(k));
    }
    for k in 1..=50u64 {
        match e.end_session(k).unwrap() {
            SessionEnd::Transcript(t) => assert_eq!(t, ""),
            SessionEnd::RunHelper(_) => panic!("fresh sessions hold no audio"),
        }
    }
    assert_eq!(e.start_session(), Ok(51));
}
