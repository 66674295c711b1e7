//! The integer bookkeeping of the processing stages.

use kuruvoice::dsp::framing::{HopFramer, FRAME_LATENCY, FRAME_SIZE, HOP};
use kuruvoice::dsp::noise::{delay_buffer_len, Xorshift32};
use kuruvoice::preset::{PresetManager, VoicePreset};
use kuruvoice::text::{parse_u32_str, push_decimal};

#[test]
fn framer_processes_a_frame_every_hop() {
    let mut framer = HopFramer::new();
    let mut frames = 0;
    for n in 0..(3 * HOP) {
        let step = framer.step();
        assert_eq!(step.write_index, FRAME_LATENCY + n % HOP);
        assert_eq!(step.read_index, n % HOP);
        assert!(step.write_index < FRAME_SIZE);
        if step.frame_due {
            frames += 1;
            assert_eq!(n % HOP, HOP - 1);
        }
    }
    assert_eq!(frames, 3);
    framer.step();
    framer.reset();
    assert_eq!(framer.step().write_index, FRAME_LATENCY);
}

#[test]
fn xorshift_sequence() {
    let mut rng = Xorshift32::new(0x1234_5678);
    assert_eq!(rng.next_u32(), 2275179140);
    assert_eq!(rng.next_u32(), 290661026);
    assert_eq!(Xorshift32::new(0x9E37_79B9).next_u32(), 1359758873);
    let mut zero_seeded = Xorshift32::new(0);
    for _ in 0..1000 {
        assert_ne!(zero_seeded.next_u32(), 0);
    }
}

#[test]
fn delay_buffer_lengths() {
    assert_eq!(delay_buffer_len(0), 256);
    assert_eq!(delay_buffer_len(24), 256);
    assert_eq!(delay_buffer_len(256), 256);
    assert_eq!(delay_buffer_len(257), 512);
    assert_eq!(delay_buffer_len(424), 512);
    assert_eq!(delay_buffer_len(1025), 2048);
}

#[test]
fn formant_follows_pitch_in_every_preset() {
    for p in VoicePreset::all() {
        let v = PresetManager::params(p);
        let (pitch, formant) = (v.pitch_semitones.0, v.formant_shift.0);
        if pitch > 0 {
            assert!(0 < formant && formant < pitch, "{p:?}");
        } else {
            assert!(pitch < formant && formant < 0, "{p:?}");
        }
    }
}

#[test]
fn decimal_text_parses_back() {
    for n in [0u32, 7, 10, 99, 4096, 536870913, u32::MAX] {
        let mut s = String::new();
        push_decimal(&mut s, n as u64);
        assert_eq!(s, n.to_string());
        assert_eq!(parse_u32_str(&s), Some(n));
    }
}
