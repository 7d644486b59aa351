use vstd::prelude::*;

verus! {

/// The lifecycle states of a device handle.
#[derive(Clone, Copy, Debug, PartialEq, Eq, Structural)]
pub enum DeviceState {
    Uninitialized,
    Opened,
    Configured,
    Streaming,
    Stopped,
    Closed,
    Failed,
}

/// The driver operation that a status belongs to.
#[derive(Clone, Copy, Debug, PartialEq, Eq, Structural)]
pub enum Operation {
    Open,
    Close,
    SetFrequency,
    SetSampleRate,
    SetGain,
    SetGainMode,
    ResetBuffer,
    ReadAsync,
    CancelAsync,
}

/// Every failure the library reports.
#[derive(Clone, Copy, Debug, PartialEq, Eq, Structural)]
pub enum SdrError {
    /// No device index could be opened.
    NoDeviceAvailable,
    /// The driver refused a configuration setter.
    ConfigurationRejected { operation: Operation, code: i32 },
    /// Any other non-zero driver status.
    DriverError { operation: Operation, code: i32 },
    /// The shared buffer had no room for what was pushed.
    Overflow,
    /// Nothing is ready to be popped yet; not terminal.
    Empty,
    /// The operation is not allowed in the device's current state.
    InvalidState { state: DeviceState },
}

} // verus!
