//! Device selection and the device listing.

use kuruvoice::audio::device::{
    default_first_order, device_line, device_listing, pick_device, resolve_device, short,
    wants_default_device, AudioDeviceInfo, DeviceChoice,
};

fn names(list: &[&str]) -> Vec<String> {
    list.iter().map(|s| s.to_string()).collect()
}

#[test]
fn pick_device_keeps_a_listed_name() {
    let list = names(&["Mic A", "Mic B"]);
    assert_eq!(pick_device("Mic B", &list), "Mic B");
}

#[test]
fn pick_device_resolves_default_and_unknown_names() {
    let list = names(&["Mic A", "Mic B"]);
    assert_eq!(pick_device("default", &list), "Mic A");
    assert_eq!(pick_device("DEFAULT", &list), "Mic A");
    assert_eq!(pick_device("", &list), "Mic A");
    assert_eq!(pick_device("Gone", &list), "Mic A");
    assert_eq!(pick_device("Gone", &[]), "default");
}

#[test]
fn short_names_are_kept_and_long_ones_cut() {
    let exact: String = "あ".repeat(34);
    assert_eq!(short(&exact), exact);
    let long: String = "x".repeat(35);
    assert_eq!(short(&long), format!("{}…", "x".repeat(33)));
    assert_eq!(short(&long).chars().count(), 34);
    assert_eq!(short("Speakers"), "Speakers");
}

#[test]
fn default_device_comes_first_once() {
    let list = names(&["B", "Def", "C", "Def"]);
    assert_eq!(
        default_first_order(list.clone(), Some("Def".to_string())),
        names(&["Def", "B", "C"])
    );
    assert_eq!(default_first_order(list.clone(), None), list);
    assert_eq!(
        default_first_order(names(&["B"]), Some("X".to_string())),
        names(&["X", "B"])
    );
}

#[test]
fn resolve_device_by_name() {
    let list = names(&["A", "B", "B"]);
    assert!(wants_default_device("Default"));
    assert!(wants_default_device(""));
    assert!(!wants_default_device("defaults"));
    assert_eq!(resolve_device("default", &list), DeviceChoice::SystemDefault);
    assert_eq!(resolve_device("", &list), DeviceChoice::SystemDefault);
    assert_eq!(resolve_device("B", &list), DeviceChoice::Listed(1));
    assert_eq!(resolve_device("b", &list), DeviceChoice::SystemDefault);
}

#[test]
fn device_description() {
    let d = AudioDeviceInfo::describe("Mic".to_string(), Some("Mic"), Some((2, 48000)));
    assert!(d.is_default);
    assert_eq!(d.channels, 2);
    assert_eq!(d.sample_rates, vec![48000]);
    let e = AudioDeviceInfo::describe("Other".to_string(), Some("Mic"), None);
    assert!(!e.is_default);
    assert_eq!(e.channels, 0);
    assert!(e.sample_rates.is_empty());
    assert_eq!(device_line(&d), "  - Mic [default]  (ch:2, 48000Hz)");
    assert_eq!(device_line(&e), "  - Other  (ch:0, ?)");
}

#[test]
fn device_listing_lines() {
    let mic = AudioDeviceInfo::describe("Mic".to_string(), Some("Mic"), Some((1, 44100)));
    let lines = device_listing(&[mic], &[]);
    assert_eq!(
        lines,
        names(&[
            "=== 入力デバイス ===",
            "  - Mic [default]  (ch:1, 44100Hz)",
            "",
            "=== 出力デバイス ===",
            "  (見つかりません)",
        ])
    );
}
