use vocalinux::config::{AppConfig, SpeechEngine};
use vocalinux::manager::{RecognitionState, SessionPlan, SpeechError, SpeechManager, SpeechResult};
use vocalinux::soniox::{SonioxResponse, SonioxToken};

fn offline_manager() -> SpeechManager {
    SpeechManager::new(AppConfig::default())
}

#[test]
fn start_twice_is_idempotent() {
    let mut m = offline_manager();
    assert!(matches!(m.start(), Ok(SessionPlan::Offline { engine: SpeechEngine::Vosk, .. })));
    assert!(matches!(m.start(), Ok(SessionPlan::AlreadyRunning)));
    assert!(m.is_running());
    assert_eq!(m.state(), RecognitionState::Listening);
    assert_eq!(m.take_events(), vec![SpeechResult::StateChange(RecognitionState::Listening)]);
}

#[test]
fn stop_before_start_is_noop() {
    let mut m = offline_manager();
    m.stop();
    assert!(!m.is_running());
    assert_eq!(m.state(), RecognitionState::Idle);
    assert!(m.take_events().is_empty());
    m.start().unwrap();
    m.stop();
    m.stop();
    assert_eq!(
        m.take_events(),
        vec![
            SpeechResult::StateChange(RecognitionState::Listening),
            SpeechResult::StateChange(RecognitionState::Idle)
        ]
    );
}

#[test]
fn offline_session_end_to_end() {
    let mut m = offline_manager();
    m.start().unwrap();
    let mut chunks: Vec<Vec<i16>> = Vec::new();
    for _ in 0..5 {
        chunks.push(vec![0; 1024]);
    }
    for _ in 0..10 {
        chunks.push(vec![2000; 1024]);
    }
    for _ in 0..40 {
        chunks.push(vec![0; 1024]);
    }
    let mut flushed = 0;
    for c in &chunks {
        if let Some(utterance) = m.on_audio_chunk(c) {
            flushed += 1;
            assert_eq!(utterance.len(), (5 + 10 + 31) * 1024);
            assert_eq!(m.state(), RecognitionState::Processing);
            m.on_recognized(Ok("hello period undo".to_string()));
            assert_eq!(m.state(), RecognitionState::Listening);
        }
    }
    assert_eq!(flushed, 1);
    let events = m.take_events();
    assert_eq!(events[0], SpeechResult::StateChange(RecognitionState::Listening));
    let processing = events
        .iter()
        .position(|e| *e == SpeechResult::StateChange(RecognitionState::Processing))
        .unwrap();
    assert!(events[1..processing].iter().all(|e| matches!(e, SpeechResult::AudioLevel(_))));
    assert_eq!(processing, 1 + 5 + 10 + 32);
    assert_eq!(events[processing + 1], SpeechResult::Final("hello . undo".to_string()));
    assert_eq!(events[processing + 2], SpeechResult::Action("undo".to_string()));
    assert_eq!(events[processing + 3], SpeechResult::StateChange(RecognitionState::Listening));
    assert!(events[processing + 4..].iter().all(|e| *e == SpeechResult::AudioLevel(0)));
    assert_eq!(events[2], SpeechResult::AudioLevel(0));
    assert_eq!(events[7], SpeechResult::AudioLevel(6));
}

#[test]
fn failed_or_empty_recognition_only_returns_to_listening() {
    let mut m = offline_manager();
    m.start().unwrap();
    m.on_audio_chunk(&vec![3000; 1024]);
    let mut got = None;
    for _ in 0..40 {
        if let Some(u) = m.on_audio_chunk(&vec![0; 1024]) {
            got = Some(u);
            break;
        }
    }
    assert!(got.is_some());
    m.take_events();
    m.on_recognized(Err("engine failed".to_string()));
    assert_eq!(m.take_events(), vec![SpeechResult::StateChange(RecognitionState::Listening)]);
    m.on_recognized(Ok("late".to_string()));
    assert!(m.take_events().is_empty());
}

#[test]
fn chunks_without_session_change_nothing() {
    let mut m = offline_manager();
    assert!(m.on_audio_chunk(&vec![1000; 10]).is_none());
    assert!(m.take_events().is_empty());
    assert!(m.realtime_audio(&[1, 2]).is_none());
}

#[test]
fn realtime_needs_credential() {
    let mut config = AppConfig::default();
    config.speech.engine = SpeechEngine::Soniox;
    let mut m = SpeechManager::new(config);
    assert_eq!(m.start().unwrap_err(), SpeechError::ConfigurationError);
    assert!(!m.is_running());
    assert_eq!(m.state(), RecognitionState::Idle);
    assert!(m.take_events().is_empty());
}

#[test]
fn realtime_results_are_routed() {
    let mut config = AppConfig::default();
    config.speech.engine = SpeechEngine::Soniox;
    config.soniox.api_key = Some("SECRET-REDACTED".to_string());
    let mut m = SpeechManager::new(config);
    match m.start() {
        Ok(SessionPlan::Realtime { handshake, device_name }) => {
            assert_eq!(handshake.language_hints, vec!["en-us".to_string()]);
            assert!(device_name.is_none());
        }
        other => panic!("unexpected plan {:?}", other),
    }
    assert_eq!(m.realtime_audio(&[2]).unwrap(), vec![2, 0]);
    m.take_events();
    let tok = |t: &str, f: bool| SonioxToken {
        text: t.to_string(),
        start_ms: 0,
        end_ms: 0,
        is_final: f,
        speaker: None,
        language: None,
    };
    let resp = SonioxResponse {
        tokens: vec![tok("select all", true), tok("hi", false)],
        audio_final_proc_ms: 0,
        audio_total_proc_ms: 0,
        error_code: None,
        error_message: None,
    };
    assert!(m.on_realtime_response(&resp));
    assert_eq!(
        m.take_events(),
        vec![SpeechResult::Action("select_all".to_string()), SpeechResult::Partial("hi".to_string())]
    );
    let err = SonioxResponse {
        tokens: Vec::new(),
        audio_final_proc_ms: 0,
        audio_total_proc_ms: 0,
        error_code: Some(401),
        error_message: Some("bad key".to_string()),
    };
    assert!(!m.on_realtime_response(&err));
    assert_eq!(
        m.take_events(),
        vec![
            SpeechResult::Error("bad key".to_string()),
            SpeechResult::StateChange(RecognitionState::Error)
        ]
    );
    assert!(!m.is_running());
    assert_eq!(m.state(), RecognitionState::Error);
    assert!(m.realtime_audio(&[2]).is_none());
    assert!(!m.on_realtime_response(&resp));
    assert!(m.take_events().is_empty());
    assert!(matches!(m.start(), Ok(SessionPlan::Realtime { .. })));
}

#[test]
fn config_is_replaced_for_next_session() {
    let mut m = offline_manager();
    let mut c = m.config();
    assert_eq!(c.speech.silence_timeout_ms, 2000);
    c.speech.vad_sensitivity = 5;
    m.update_config(c);
    assert_eq!(m.config().speech.vad_sensitivity, 5);
    assert_eq!(SpeechEngine::Whisper.as_str(), "whisper");
}
