//! The small enumerations that the control logic switches on.

use vstd::prelude::*;

verus! {

/// Why the device asks the service to stop speaking.
#[derive(Copy, Clone, Debug, PartialEq, Eq, Structural)]
pub enum AbortReason {
    /// No particular reason is given.
    NoReason,
    /// The wake word was heard while the device was speaking.
    WakeWordDetected,
}

/// How the service is told to interpret the audio channel while the device
/// listens.
#[derive(Copy, Clone, Debug, PartialEq, Eq, Structural)]
pub enum ListeningMode {
    AutoStop,
    Realtime,
    Manual,
}

/// Whether echo cancellation runs on the device.
#[derive(Copy, Clone, Debug, PartialEq, Eq, Structural)]
pub enum AecMode {
    Off,
    On,
}

/// The lifecycle state of the device. Exactly one value is current at any
/// time, and only the controller changes it.
#[derive(Copy, Clone, Debug, PartialEq, Eq, Structural)]
pub enum DeviceState {
    Idle,
    Activating,
    WifiConfiguring,
    Connecting,
    DeviceStateAudioTesting,
    Speaking,
    Listening,
    Starting,
}

} // verus!
