//! Arguments, configuration sections, errors, stream planning, chain order,
//! the inference block and the text helpers.

use kuruvoice::ai::OnnxInferenceBlock;
use kuruvoice::audio::engine::{StreamPlan, DEFAULT_BLOCK};
use kuruvoice::cli::{Args, RunMode};
use kuruvoice::config::{AppSection, AudioSection};
use kuruvoice::dsp::ProcessingStage;
use kuruvoice::error::KuruError;
use kuruvoice::preset::VoicePreset;
use kuruvoice::text::{parse_u32_str, push_decimal, replace_first_str, trim_str};

fn args() -> Args {
    Args {
        list_devices: false,
        config: None,
        preset: None,
        bypass: false,
        record_test: None,
        no_gui: false,
        verbose: false,
    }
}

#[test]
fn run_mode_precedence() {
    assert_eq!(args().run_mode(), RunMode::Gui);
    let mut a = args();
    a.no_gui = true;
    assert_eq!(a.run_mode(), RunMode::Headless);
    a.record_test = Some(10);
    assert_eq!(a.run_mode(), RunMode::RecordTest(10));
    a.list_devices = true;
    assert_eq!(a.run_mode(), RunMode::ListDevices);
}

#[test]
fn log_level_follows_verbose() {
    let mut a = args();
    assert_eq!(a.log_level(), "info");
    a.verbose = true;
    assert_eq!(a.log_level(), "debug");
}

#[test]
fn config_plan_from_arguments() {
    let mut a = args();
    a.config = Some("my.toml".to_string());
    a.preset = Some("Ikemen Deep".to_string());
    a.bypass = true;
    let plan = a.config_plan();
    assert_eq!(plan.config_file, Some("my.toml".to_string()));
    assert_eq!(plan.preset, Some(Ok(VoicePreset::IkemenDeep)));
    assert!(plan.force_bypass);
    a.preset = Some("nope".to_string());
    assert!(matches!(a.config_plan().preset, Some(Err(_))));
    assert_eq!(args().config_plan().preset, None);
}

#[test]
fn default_sections() {
    let app = AppSection::default();
    assert_eq!(app.preset, "ikemen_soft");
    assert_eq!(app.preset, VoicePreset::IkemenSoft.key());
    assert!(!app.bypass);
    let audio = AudioSection::default();
    assert_eq!(audio.input_device, "default");
    assert_eq!(audio.output_device, "default");
    assert_eq!(audio.sample_rate, 48000);
    assert_eq!(audio.buffer_size, 256);
    assert_eq!(audio.channels, 1);
}

#[test]
fn error_messages() {
    assert_eq!(
        KuruError::UnsupportedSampleRate(44100).message(),
        "サンプルレート 44100 Hz はサポートされていません"
    );
    assert_eq!(
        KuruError::InputDeviceNotFound("Mic".to_string()).message(),
        "入力デバイスが見つかりません: Mic"
    );
    assert_eq!(
        KuruError::StreamBuildError("x".to_string()).message(),
        "オーディオストリームの構築に失敗しました: x"
    );
}

#[test]
fn stream_plan_defaults_and_fixed_sizes() {
    let p = StreamPlan::new(0, 48000, 44100);
    assert_eq!(p.fixed_buffer, None);
    assert_eq!(p.block_size, DEFAULT_BLOCK);
    assert_eq!(p.input_capacity, 24000);
    assert_eq!(p.output_capacity, 22050);
    assert!(p.resample);
    let q = StreamPlan::new(512, 8000, 8000);
    assert_eq!(q.fixed_buffer, Some(512));
    assert_eq!(q.block_size, 512);
    assert_eq!(q.input_capacity, 4096);
    assert!(!q.resample);
    assert!(q.block_ready(512));
    assert!(!q.block_ready(511));
}

#[test]
fn overrun_drops_the_oldest_input() {
    let q = StreamPlan::new(512, 8000, 8000);
    assert_eq!(q.stale_input(0), 0);
    assert_eq!(q.stale_input(4095), 0);
    assert_eq!(q.stale_input(4096), 4096 - 512);
}

#[test]
fn signal_chain_order() {
    let order = ProcessingStage::chain_order();
    let names: Vec<&str> = order.iter().map(|s| s.name()).collect();
    assert_eq!(names.first(), Some(&"dc_block"));
    assert_eq!(names.last(), Some(&"limiter"));
    assert_eq!(names.len(), 11);
}

#[test]
fn inference_block_needs_a_model() {
    assert!(!OnnxInferenceBlock::new(None).is_enabled());
    let b = OnnxInferenceBlock::new(Some("m.onnx".to_string()));
    assert!(b.is_enabled());
    assert_eq!(b.model_path(), &Some("m.onnx".to_string()));
}

#[test]
fn text_helpers() {
    assert_eq!(trim_str("\u{3000} a b \u{85}"), "a b");
    assert_eq!(trim_str("   "), "");
    assert_eq!(replace_first_str("a-b-c", "-", "+"), "a+b-c");
    assert_eq!(replace_first_str("abc", "x", "y"), "abc");
    assert_eq!(parse_u32_str("007"), Some(7));
    let mut s = String::new();
    push_decimal(&mut s, 0);
    push_decimal(&mut s, 18446744073709551615);
    assert_eq!(s, "018446744073709551615");
}
