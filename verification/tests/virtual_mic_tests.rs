//! The virtual microphone set-up protocol.

use kuruvoice::audio::virtual_mic::{
    module_id_from_text, MicError, MicProgress, VirtualMic, MIC_NAME, SINK_NAME,
};

#[test]
fn names_are_stable() {
    assert_eq!(SINK_NAME, "KuruVoice_Sink");
    assert_eq!(MIC_NAME, "KuruVoice_Mic");
}

#[test]
fn unsupported_off_linux() {
    for os in ["windows", "macos"] {
        assert!(!VirtualMic::is_supported(os));
        assert!(VirtualMic::create(os).is_err());
    }
}

#[test]
fn supported_on_linux_only() {
    assert!(VirtualMic::is_supported("linux"));
    assert!(!VirtualMic::is_supported("Linux"));
    assert_eq!(
        VirtualMic::create("windows").unwrap_err(),
        MicError::Unsupported
    );
}

#[test]
fn creation_loads_sink_then_source() {
    let setup = VirtualMic::create("linux").unwrap();
    assert_eq!(
        setup.module_args(),
        vec![
            "module-null-sink".to_string(),
            "sink_name=KuruVoice_Sink".to_string(),
            "sink_properties=device.description=KuruVoice_Sink".to_string(),
        ]
    );
    let setup = match setup.module_loaded(Ok(536870913)).unwrap() {
        MicProgress::Pending(next) => next,
        MicProgress::Ready(_) => panic!("the source is still to be loaded"),
    };
    assert_eq!(
        setup.module_args(),
        vec![
            "module-remap-source".to_string(),
            "master=KuruVoice_Sink.monitor".to_string(),
            "source_name=KuruVoice_Mic".to_string(),
            "source_properties=device.description=KuruVoice_Mic".to_string(),
        ]
    );
    let mut mic = match setup.module_loaded(Ok(536870914)).unwrap() {
        MicProgress::Ready(mic) => mic,
        MicProgress::Pending(_) => panic!("both modules are loaded"),
    };
    assert_eq!(mic.sink_name(), "KuruVoice_Sink");
    assert_eq!(mic.mic_name(), "KuruVoice_Mic");
    assert_eq!(mic.destroy(), vec![536870914, 536870913]);
    assert!(mic.destroy().is_empty());
}

#[test]
fn failures_name_the_step() {
    let setup = VirtualMic::create("linux").unwrap();
    let e = setup.module_loaded(Err("boom".to_string())).unwrap_err();
    assert_eq!(e, MicError::SinkFailed("boom".to_string()));
    assert_eq!(e.message(), "null-sink の作成に失敗");
    assert!(e.leftover_modules().is_empty());

    let setup = VirtualMic::create("linux").unwrap();
    let setup = match setup.module_loaded(Ok(7)).unwrap() {
        MicProgress::Pending(next) => next,
        MicProgress::Ready(_) => panic!("the source is still to be loaded"),
    };
    let e = setup.module_loaded(Err("no".to_string())).unwrap_err();
    assert_eq!(e, MicError::SourceFailed("no".to_string(), 7));
    assert_eq!(e.message(), "remap-source の作成に失敗");
    assert_eq!(e.leftover_modules(), vec![7]);
    assert!(MicError::Unsupported.message().contains("Linux"));
    assert!(MicError::Unsupported.leftover_modules().is_empty());
}

#[test]
fn pactl_output_is_read() {
    assert_eq!(VirtualMic::load_result(true, b"536870913\n", b""), Ok(536870913));
    assert_eq!(VirtualMic::load_result(true, b"  42 \r\n", b""), Ok(42));
    assert_eq!(
        VirtualMic::load_result(true, b"nope", b""),
        Err("module id の解析に失敗".to_string())
    );
    assert_eq!(
        VirtualMic::load_result(false, b"", b"Failure: Module initialization failed"),
        Err("pactl load-module 失敗: Failure: Module initialization failed".to_string())
    );
}

#[test]
fn module_id_parsing() {
    assert_eq!(module_id_from_text("12\n"), Some(12));
    assert_eq!(module_id_from_text("+12"), Some(12));
    assert_eq!(module_id_from_text("4294967295"), Some(u32::MAX));
    assert_eq!(module_id_from_text("4294967296"), None);
    assert_eq!(module_id_from_text("-1"), None);
    assert_eq!(module_id_from_text(""), None);
    assert_eq!(module_id_from_text("+"), None);
    assert_eq!(module_id_from_text("1 2"), None);
}
