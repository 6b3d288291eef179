//! Audio sample storage, and what the library knows of input devices.

pub mod buffer;
pub mod vad;

pub use buffer::AudioRingBuffer;
pub use crate::state::RecordingState;

use vstd::prelude::*;

verus! {

/// An audio input device as the host lists it.
#[derive(Clone, Debug)]
pub struct AudioDeviceInfo {
    /// The device's name.
    pub name: String,
    /// Whether it is the host's default input device.
    pub is_default: bool,
}

} // verus!
