use vocalinux::capture::{capture_period, find_device, input_devices, AudioChunk, CHUNK_QUEUE_CAPACITY};
use vocalinux::config::ModelSize;
use vocalinux::vosk_models::get_model_info;
use vocalinux::whisper_models;

#[test]
fn saturated_queue_drops_newest_without_blocking() {
    let (tx, rx) = crossbeam_channel::bounded::<AudioChunk>(CHUNK_QUEUE_CAPACITY);
    let data: Vec<i16> = vec![100; 1024];
    let mut dropped = 0;
    for period in 0..250u64 {
        let (chunk, level) = capture_period(&data, period * 64);
        assert_eq!(level, 0);
        if tx.try_send(chunk).is_err() {
            dropped += 1;
        }
    }
    assert_eq!(dropped, 150);
    let kept: Vec<AudioChunk> = rx.try_iter().collect();
    assert_eq!(kept.len(), 100);
    assert_eq!(kept[0].timestamp_ms, 0);
    assert_eq!(kept[99].timestamp_ms, 99 * 64);
    assert_eq!(kept[5].samples, data);
}

#[test]
fn devices_are_listed_and_found() {
    let names = vec!["Built-in".to_string(), "USB Mic".to_string()];
    let devices = input_devices(&names, &Some("USB Mic".to_string()));
    assert_eq!(devices.len(), 2);
    assert!(!devices[0].is_default);
    assert!(devices[1].is_default);
    assert_eq!(devices[1].name, "USB Mic");
    assert_eq!(find_device(&names, "USB Mic"), Some(1));
    assert_eq!(find_device(&names, "Other"), None);
}

#[test]
fn model_catalogue() {
    assert_eq!(get_model_info("ru", ModelSize::Medium).unwrap().name, "vosk-model-ru-0.42");
    let fallback = get_model_info("xx", ModelSize::Small).unwrap();
    assert_eq!(fallback.name, "vosk-model-small-en-us-0.15");
    assert_eq!(fallback.size_mb, 40);
    assert_eq!(get_model_info("de", ModelSize::Large).unwrap().name, "vosk-model-small-en-us-0.15");
    let w = whisper_models::get_model_info(ModelSize::Large);
    assert_eq!(w.name, "ggml-large-v3.bin");
    assert_eq!(w.size_mb, 2900);
    assert_eq!(ModelSize::Medium.as_str(), "medium");
}
