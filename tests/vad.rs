use vocalinux::vad::VoiceActivityDetector;

fn loud(n: usize) -> Vec<i16> {
    vec![2000; n]
}

fn quiet(n: usize) -> Vec<i16> {
    vec![0; n]
}

#[test]
fn threshold_falls_as_sensitivity_rises() {
    let chunk: Vec<i16> = vec![150; 1024];
    let mut low = VoiceActivityDetector::new(3, 2000);
    assert_eq!(low.process(&chunk), None);
    let mut high = VoiceActivityDetector::new(4, 2000);
    assert_eq!(high.process(&chunk), Some(false));
    for s in 1..=5u8 {
        let mut d = VoiceActivityDetector::new(s, 2000);
        assert_eq!(d.process(&quiet(1024)), None);
    }
}

#[test]
fn flush_once_after_speech_and_timeout() {
    let mut vad = VoiceActivityDetector::new(3, 2000);
    assert_eq!(vad.process(&loud(1024)), Some(false));
    assert!(vad.has_speech());
    let mut outcomes = Vec::new();
    for _ in 0..60 {
        outcomes.push(vad.process(&quiet(1024)));
    }
    assert!(outcomes[..31].iter().all(|o| *o == None));
    assert_eq!(outcomes[31], Some(true));
    assert!(outcomes[32..].iter().all(|o| *o == None));
    assert!(!vad.has_speech());
}

#[test]
fn reset_then_silence_never_flushes() {
    let mut vad = VoiceActivityDetector::new(5, 500);
    assert_eq!(vad.process(&loud(1024)), Some(false));
    vad.reset();
    for _ in 0..500 {
        assert_ne!(vad.process(&quiet(1024)), Some(true));
    }
}

#[test]
fn level_is_mean_amplitude_in_percent() {
    let mut vad = VoiceActivityDetector::new(3, 2000);
    vad.process(&vec![16384; 512]);
    assert_eq!(vad.current_level(), 50);
    vad.process(&vec![-32768; 8]);
    assert_eq!(vad.current_level(), 100);
    assert_eq!(vad.process(&[]), Some(false));
    assert_eq!(vad.current_level(), 100);
}

#[test]
fn settings_are_clamped() {
    let mut vad = VoiceActivityDetector::new(0, 100);
    let chunk: Vec<i16> = vec![400; 100];
    assert_eq!(vad.process(&chunk), None);
    vad.set_sensitivity(9);
    assert_eq!(vad.process(&chunk), Some(false));
    vad.set_silence_timeout(100);
    vad.process(&loud(16));
    let mut first_flush = None;
    for i in 0..20 {
        if vad.process(&quiet(1000)) == Some(true) {
            first_flush = Some(i);
            break;
        }
    }
    assert_eq!(first_flush, Some(8));
}
