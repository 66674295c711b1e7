//! Virtual cable detection.

use kuruvoice::audio::virtual_cable::{classify, derive_mic_hint, detect_from};

#[test]
fn vbcable_input_to_output() {
    let c = classify("CABLE Input (VB-Audio Virtual Cable)").unwrap();
    assert_eq!(c.kind, "VB-CABLE");
    assert_eq!(c.mic_hint, "CABLE Output (VB-Audio Virtual Cable)");
}

#[test]
fn voicemeeter_detected() {
    let c = classify("VoiceMeeter Input (VB-Audio VoiceMeeter VAIO)").unwrap();
    assert_eq!(c.kind, "VoiceMeeter");
    assert_eq!(c.mic_hint, "VoiceMeeter Output (VB-Audio VoiceMeeter VAIO)");
}

#[test]
fn blackhole_same_name() {
    let c = classify("BlackHole 2ch").unwrap();
    assert_eq!(c.kind, "BlackHole");
    assert_eq!(c.mic_hint, "BlackHole 2ch");
}

#[test]
fn normal_device_ignored() {
    assert!(classify("スピーカー (Realtek(R) Audio)").is_none());
    assert!(classify("Smart TV (NVIDIA High Definition Audio)").is_none());
}

#[test]
fn detect_from_list() {
    let outputs = vec![
        "スピーカー (Realtek(R) Audio)".to_string(),
        "CABLE Input (VB-Audio Virtual Cable)".to_string(),
    ];
    let found = detect_from(&outputs);
    assert_eq!(found.len(), 1);
    assert_eq!(found[0].kind, "VB-CABLE");
}

#[test]
fn output_device_is_the_name_itself() {
    let c = classify("CABLE Input (VB-Audio Virtual Cable)").unwrap();
    assert_eq!(c.output_device, "CABLE Input (VB-Audio Virtual Cable)");
}

#[test]
fn kind_is_found_in_any_letter_case() {
    assert_eq!(classify("my CaBlE device").unwrap().kind, "VB-CABLE");
    assert_eq!(classify("BLACKHOLE 16ch").unwrap().kind, "BlackHole");
}

#[test]
fn voicemeeter_wins_over_cable() {
    let c = classify("VoiceMeeter Aux Cable Input").unwrap();
    assert_eq!(c.kind, "VoiceMeeter");
}

#[test]
fn lowercase_input_becomes_output() {
    assert_eq!(derive_mic_hint("Cable input 1 input"), "Cable output 1 input");
    assert_eq!(derive_mic_hint("Input A Input B"), "Output A Input B");
    assert_eq!(derive_mic_hint("Loopback"), "Loopback");
}

#[test]
fn detect_keeps_order_of_cables() {
    let outputs = vec![
        "BlackHole 2ch".to_string(),
        "Speakers".to_string(),
        "CABLE Input (VB-Audio Virtual Cable)".to_string(),
        "VoiceMeeter Input (VB-Audio VoiceMeeter VAIO)".to_string(),
    ];
    let found = detect_from(&outputs);
    let kinds: Vec<&str> = found.iter().map(|c| c.kind.as_str()).collect();
    assert_eq!(kinds, vec!["BlackHole", "VB-CABLE", "VoiceMeeter"]);
    assert!(detect_from(&[]).is_empty());
}
