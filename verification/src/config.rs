//! The configuration sections that hold no signal-processing values: the
//! application section (current preset, bypass) and the audio device
//! section. The sections of the processing stages carry floating-point
//! values and are kept by the application.

use crate::preset::{preset_key, VoicePreset};
use vstd::prelude::*;

verus! {

/// The application section: the preset last chosen, and bypass.
#[derive(Debug, Clone, PartialEq, Eq)]
pub struct AppSection {
    pub preset: String,
    pub bypass: bool,
}

impl Default for AppSection {
    /// "Ikemen Soft", processing on.
    fn default() -> (r: AppSection)
        ensures
            r.preset@ == preset_key(VoicePreset::IkemenSoft),
            !r.bypass,
    {
        AppSection { preset: String::from_str(VoicePreset::IkemenSoft.key()), bypass: false }
    }
}

/// The audio section: devices by name ("default" for the system's default
/// device), sample rate, block size (0 lets the driver choose) and channels.
#[derive(Debug, Clone, PartialEq, Eq)]
pub struct AudioSection {
    pub input_device: String,
    pub output_device: String,
    pub sample_rate: u32,
    pub buffer_size: usize,
    pub channels: u16,
}

impl Default for AudioSection {
    /// The default devices, 48 kHz, blocks of 256 samples, mono.
    fn default() -> (r: AudioSection)
        ensures
            r.input_device@ == "default"@,
            r.output_device@ == "default"@,
            r.sample_rate == 48000,
            r.buffer_size == 256,
            r.channels == 1,
    {
        AudioSection {
            input_device: String::from_str("default"),
            output_device: String::from_str("default"),
            sample_rate: 48000,
            buffer_size: 256,
            channels: 1,
        }
    }
}

} // verus!
