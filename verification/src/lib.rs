//! KuruVoice: the verified core of a low-latency voice changer.
//!
//! The real-time signal processing works on floating-point samples and stays
//! with the application; this library holds the rules around it: preset
//! identification and parameter tables, virtual cable detection, the virtual
//! microphone set-up protocol, device selection, stream planning, the order of
//! the processing chain, and the text helpers they rest on.

pub mod text;
pub mod audio;
pub mod preset;
pub mod ai;
pub mod cli;
pub mod config;
pub mod dsp;
pub mod error;
