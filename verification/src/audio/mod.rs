//! The audio side of the library: virtual cable detection, the virtual
//! microphone set-up protocol, device selection and stream planning.

pub mod virtual_cable;
pub mod virtual_mic;
pub mod device;
pub mod engine;

pub use device::AudioDeviceInfo;
pub use virtual_cable::VirtualCable;
pub use virtual_mic::VirtualMic;
