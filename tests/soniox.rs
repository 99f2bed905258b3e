use vocalinux::soniox::{
    credential_check_handshake, credential_check_outcome, pcm_le_bytes, ClientError, CredentialError,
    SonioxClient, SonioxResponse, SonioxResult, SonioxToken,
};

fn token(text: &str, is_final: bool) -> SonioxToken {
    SonioxToken {
        text: text.to_string(),
        start_ms: 0,
        end_ms: 0,
        is_final,
        speaker: None,
        language: None,
    }
}

fn response(tokens: Vec<SonioxToken>) -> SonioxResponse {
    SonioxResponse {
        tokens,
        audio_final_proc_ms: 0,
        audio_total_proc_ms: 0,
        error_code: None,
        error_message: None,
    }
}

fn error_response(code: u32, message: Option<&str>) -> SonioxResponse {
    SonioxResponse {
        tokens: Vec::new(),
        audio_final_proc_ms: 0,
        audio_total_proc_ms: 0,
        error_code: Some(code),
        error_message: message.map(|m| m.to_string()),
    }
}

fn connected(language: &str) -> SonioxClient {
    let mut c = SonioxClient::new("SECRET-REDACTED".to_string(), language.to_string(), false, false);
    c.connect().unwrap();
    c
}

#[test]
fn one_final_and_one_partial_then_no_duplicate_partial() {
    let mut c = connected("en");
    let r = response(vec![token("Hello ", true), token("wor", false)]);
    let (results, go_on) = c.handle_response(&r);
    assert!(go_on);
    assert_eq!(
        results,
        vec![SonioxResult::Final("Hello ".to_string()), SonioxResult::Partial("wor".to_string())]
    );
    let (again, _) = c.handle_response(&r);
    assert_eq!(again, vec![SonioxResult::Final("Hello ".to_string())]);
}

#[test]
fn tokens_are_joined_by_finality() {
    let mut c = connected("en");
    let r = response(vec![token("a", false), token("b", true), token("c", false), token("d", true)]);
    let (results, _) = c.handle_response(&r);
    assert_eq!(
        results,
        vec![SonioxResult::Final("bd".to_string()), SonioxResult::Partial("ac".to_string())]
    );
    let (none, go_on) = c.handle_response(&response(Vec::new()));
    assert!(none.is_empty());
    assert!(go_on);
}

#[test]
fn error_response_ends_session() {
    let mut c = connected("en");
    let (results, go_on) = c.handle_response(&error_response(401, None));
    assert!(!go_on);
    assert_eq!(results, vec![SonioxResult::Error("Error code: 401".to_string())]);
    assert!(!c.is_connected());
    let mut d = connected("en");
    let (with_msg, _) = d.handle_response(&error_response(503, Some("busy")));
    assert_eq!(with_msg, vec![SonioxResult::Error("busy".to_string())]);
}

#[test]
fn handshake_follows_language() {
    let mut c = SonioxClient::new("SECRET-REDACTED".to_string(), "de".to_string(), true, false);
    let h = c.connect().unwrap();
    assert_eq!(h.api_key, "SECRET-REDACTED");
    assert_eq!(h.model, "stt-rt-v3");
    assert_eq!(h.audio_format, "pcm_s16le");
    assert_eq!(h.sample_rate, 16000);
    assert_eq!(h.num_channels, 1);
    assert_eq!(h.language_hints, vec!["de".to_string()]);
    assert!(h.enable_endpoint_detection);
    assert!(!h.enable_language_identification);
    assert_eq!(h.enable_speaker_diarization, Some(true));

    let mut a = SonioxClient::new("k".to_string(), "auto".to_string(), false, false);
    let h = a.connect().unwrap();
    assert!(h.language_hints.is_empty());
    assert!(h.enable_language_identification);
    assert_eq!(h.enable_speaker_diarization, None);
}

#[test]
fn connect_twice_is_refused() {
    let mut c = connected("en");
    assert_eq!(c.connect().unwrap_err(), ClientError::AlreadyConnected);
    c.disconnect();
    c.disconnect();
    assert!(!c.is_connected());
    assert!(c.connect().is_ok());
}

#[test]
fn audio_frames_are_little_endian() {
    let c = connected("en");
    assert_eq!(c.send_audio(&[1, -2, 256]).unwrap(), vec![1, 0, 254, 255, 0, 1]);
    assert_eq!(pcm_le_bytes(&[i16::MIN, i16::MAX]), vec![0, 128, 255, 127]);
    let idle = SonioxClient::new("k".to_string(), "en".to_string(), false, false);
    assert_eq!(idle.send_audio(&[1]).unwrap_err(), ClientError::NotConnected);
}

#[test]
fn credential_check_classifies_answers() {
    assert_eq!(credential_check_outcome(&response(Vec::new())), Ok(()));
    assert_eq!(
        credential_check_outcome(&error_response(401, Some("no"))),
        Err(CredentialError::InvalidApiKey)
    );
    assert_eq!(
        credential_check_outcome(&error_response(500, Some("down"))),
        Err(CredentialError::Server(500, "down".to_string()))
    );
    let h = credential_check_handshake("k");
    assert_eq!(h.language_hints, vec!["en".to_string()]);
    assert!(!h.enable_endpoint_detection);
}
