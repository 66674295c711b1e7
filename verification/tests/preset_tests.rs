//! Presets: names and parameter values.

use kuruvoice::preset::{Centi, PresetManager, VoicePreset};
use std::str::FromStr;

fn f(c: Centi) -> f32 {
    c.0 as f32 / 100.0
}

#[test]
fn preset_parsing() {
    assert_eq!(
        VoicePreset::from_str("ikemen_soft").unwrap(),
        VoicePreset::IkemenSoft
    );
    assert_eq!(
        VoicePreset::from_str("Ikemen Deep").unwrap(),
        VoicePreset::IkemenDeep
    );
    assert_eq!(
        VoicePreset::from_str("radio-voice").unwrap(),
        VoicePreset::RadioVoice
    );
    assert!(VoicePreset::from_str("unknown").is_err());
}

#[test]
fn unknown_name_is_reported_with_its_key() {
    assert_eq!(
        VoicePreset::parse("  Deep Voice "),
        Err("未知のプリセット: deep_voice".to_string())
    );
    assert_eq!(
        VoicePreset::parse("unknown"),
        Err("未知のプリセット: unknown".to_string())
    );
}

#[test]
fn names_ignore_case_space_and_hyphens() {
    assert_eq!(VoicePreset::parse("\t CLEAR-streaming\n"), Ok(VoicePreset::ClearStreaming));
    assert_eq!(VoicePreset::parse("Deep Cool"), Ok(VoicePreset::DeepCool));
    assert!(VoicePreset::parse("deepcool").is_err());
    assert!(VoicePreset::parse("").is_err());
}

#[test]
fn every_key_and_label_parses_back() {
    for p in VoicePreset::all() {
        assert_eq!(VoicePreset::parse(p.key()), Ok(p));
        assert_eq!(VoicePreset::parse(p.label()), Ok(p));
        assert_eq!(VoicePreset::from_key(p.key()), Some(p));
        assert!(!p.description().is_empty());
    }
    assert_eq!(VoicePreset::from_key("Ikemen Soft"), None);
}

#[test]
fn all_lists_presets_in_order() {
    let all = VoicePreset::all();
    assert_eq!(all.len(), 12);
    assert_eq!(all[0], VoicePreset::NeutralClean);
    assert_eq!(all[5], VoicePreset::IkemenSoft);
    assert_eq!(all[11], VoicePreset::DeepCool);
    for (i, p) in all.iter().enumerate() {
        for q in all.iter().skip(i + 1) {
            assert_ne!(p, q);
            assert_ne!(p.key(), q.key());
        }
    }
}

#[test]
fn keys_and_labels() {
    assert_eq!(VoicePreset::IkemenSoft.key(), "ikemen_soft");
    assert_eq!(VoicePreset::IkemenSoft.label(), "Ikemen Soft");
    assert_eq!(VoicePreset::BrightHigh.description(), "明るく軽い高めの声（高音キャラ方向）");
}

#[test]
fn preset_values_match_spec() {
    let natural = PresetManager::params(VoicePreset::NaturalLow);
    assert_eq!(f(natural.pitch_semitones), -2.0);

    let deep = PresetManager::params(VoicePreset::IkemenDeep);
    assert_eq!(f(deep.pitch_semitones), -4.0);
    assert_eq!(f(deep.formant_shift), -1.2);

    let clear = PresetManager::params(VoicePreset::ClearStreaming);
    assert_eq!(f(clear.pitch_semitones), -1.0);
    assert!(f(clear.eq.presence_boost_db) >= 3.0);
}

type Row = (
    VoicePreset,
    f32,
    f32,
    [f32; 5],
    [f32; 5],
    [f32; 4],
    Option<[f32; 3]>,
    f32,
    Option<f32>,
    [f32; 2],
);

#[test]
fn every_preset_value_is_the_design_value() {
    let table: Vec<Row> = vec![
        (VoicePreset::NeutralClean, 2.5, 0.7, [-20.0, 2.5, 6.0, 100.0, 2.5], [100.0, -0.5, -2.5, 2.5, -2.5], [6100.0, -29.0, 2.5, 6.0], Some([0.25, 0.6, 0.5]), -46.0, Some(0.35), [-1.2, 45.0]),
        (VoicePreset::SoftFeminine, 5.0, 1.2, [-19.0, 2.8, 5.0, 95.0, 2.5], [115.0, -1.5, -3.0, 2.8, -3.0], [5900.0, -31.0, 3.5, 9.0], Some([0.32, 0.7, 0.5]), -47.0, Some(0.40), [-1.5, 42.0]),
        (VoicePreset::BrightFeminine, 7.0, 1.6, [-20.0, 2.6, 4.0, 85.0, 2.0], [130.0, -2.0, -3.5, 3.6, -3.5], [5700.0, -33.0, 4.0, 11.0], Some([0.40, 0.7, 0.6]), -48.0, Some(0.45), [-1.8, 38.0]),
        (VoicePreset::YoungNeutral, 4.0, 0.9, [-20.0, 2.4, 5.0, 95.0, 2.0], [110.0, -1.0, -2.5, 2.6, -2.8], [6000.0, -30.0, 3.0, 8.0], Some([0.28, 0.65, 0.5]), -47.0, Some(0.38), [-1.5, 42.0]),
        (VoicePreset::NaturalLow, -2.0, -0.5, [-20.0, 2.0, 12.0, 150.0, 2.0], [80.0, 0.0, -1.0, 1.0, -2.0], [6500.0, -27.0, 2.0, 5.0], None, -48.0, None, [-1.0, 60.0]),
        (VoicePreset::IkemenSoft, -3.0, -0.8, [-18.0, 3.0, 8.0, 120.0, 3.0], [80.0, 1.5, -2.0, 1.5, -2.5], [6400.0, -28.0, 2.4, 6.0], None, -45.0, None, [-1.0, 50.0]),
        (VoicePreset::IkemenDeep, -4.0, -1.2, [-18.0, 3.0, 8.0, 120.0, 3.0], [75.0, 2.0, -2.0, 1.0, -2.0], [6600.0, -27.0, 2.0, 5.0], None, -45.0, None, [-1.0, 60.0]),
        (VoicePreset::Narrator, -2.0, -0.6, [-16.0, 4.0, 6.0, 100.0, 4.0], [90.0, 0.5, -1.5, 2.5, -3.0], [6200.0, -29.0, 3.0, 7.0], None, -45.0, None, [-1.5, 40.0]),
        (VoicePreset::ClearStreaming, -1.0, -0.3, [-18.0, 3.0, 8.0, 120.0, 3.0], [90.0, 0.0, -1.0, 3.0, -3.5], [6000.0, -30.0, 3.2, 8.0], None, -40.0, None, [-1.0, 50.0]),
        (VoicePreset::RadioVoice, -3.0, -1.0, [-16.0, 4.0, 6.0, 100.0, 5.0], [70.0, 3.0, -1.5, 0.5, -4.0], [6700.0, -26.0, 2.0, 5.0], None, -45.0, None, [-1.0, 60.0]),
        (VoicePreset::BrightHigh, 6.0, 2.0, [-18.0, 3.0, 8.0, 120.0, 3.0], [120.0, -1.0, -2.0, 3.5, -3.0], [5800.0, -32.0, 3.6, 10.0], None, -45.0, None, [-1.0, 50.0]),
        (VoicePreset::DeepCool, -6.0, -2.0, [-16.0, 4.0, 6.0, 110.0, 4.0], [70.0, 3.0, -1.5, 1.0, -2.0], [6800.0, -26.0, 2.0, 5.0], None, -45.0, None, [-1.0, 60.0]),
    ];
    assert_eq!(table.len(), 12);
    for (p, pitch, formant, comp, eq, de, harm, gate, denoise, lim) in table {
        let v = PresetManager::params(p);
        assert_eq!(f(v.pitch_semitones), pitch);
        assert_eq!(f(v.formant_shift), formant);
        let c = v.compressor;
        assert!(c.enabled);
        assert_eq!(
            [f(c.threshold_db), f(c.ratio), f(c.attack_ms), f(c.release_ms), f(c.makeup_gain_db)],
            comp
        );
        let e = v.eq;
        assert!(e.enabled);
        assert_eq!(
            [
                f(e.high_pass_hz),
                f(e.low_boost_db),
                f(e.mud_cut_db),
                f(e.presence_boost_db),
                f(e.de_esser_db)
            ],
            eq
        );
        let d = v.deesser;
        assert!(d.enabled);
        assert_eq!(
            [f(d.frequency_hz), f(d.threshold_db), f(d.ratio), f(d.max_reduction_db)],
            de
        );
        assert_eq!((f(d.attack_ms), f(d.release_ms)), (2.0, 55.0));
        match (v.harmonic, harm) {
            (Some(h), Some(expected)) => {
                assert!(h.enabled);
                assert_eq!([f(h.amount), f(h.warmth), f(h.brightness)], expected);
            }
            (None, None) => {}
            _ => panic!("harmonic settings differ for {p:?}"),
        }
        let g = v.noise_gate;
        assert!(g.enabled);
        assert_eq!((f(g.threshold_db), f(g.attack_ms), f(g.release_ms)), (gate, 5.0, 80.0));
        assert_eq!(v.denoise_amount.map(f), denoise);
        let l = v.limiter;
        assert!(l.enabled);
        assert_eq!([f(l.ceiling_db), f(l.release_ms)], lim);
    }
}

#[test]
fn every_preset_keeps_the_limiter_below_full_scale() {
    for p in VoicePreset::all() {
        let v = PresetManager::params(p);
        assert!(v.limiter.enabled);
        assert!(v.limiter.ceiling_db.0 < 0);
        assert!(v.compressor.ratio.0 >= 100);
    }
}
