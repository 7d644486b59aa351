use vstd::prelude::*;

use crate::error::{DeviceState, Operation, SdrError};

verus! {

/// How the tuner's gain is set.
#[derive(Clone, Copy, Debug, PartialEq, Eq, Structural)]
pub enum GainMode {
    Auto,
    Manual(u32),
}

/// A lifecycle or configuration step on an opened device.
#[derive(Clone, Copy, Debug, PartialEq, Eq, Structural)]
pub enum Request {
    SetFrequency(u32),
    SetSampleRate(u32),
    SetGain(u32),
    SetGainAuto,
    /// Resets the driver's buffer and starts the acquisition thread.
    StartStreaming,
    /// Cancels the driver's asynchronous read.
    StopStreaming,
    Close,
}

/// What the driver should do next while looking for a device to open.
#[derive(Clone, Copy, Debug, PartialEq, Eq, Structural)]
pub enum OpenStep {
    /// The device at this index is open.
    Opened(u32),
    /// Try to open the device at this index.
    TryIndex(u32),
}

/// What is known of a device handle.
pub struct DeviceModel {
    pub state: DeviceState,
    pub index: u32,
    pub frequency: Option<u32>,
    pub sample_rate: Option<u32>,
    pub gain: Option<GainMode>,
}

/// Whether a request may be handed to the driver in a state: configuration
/// only before the acquisition thread exists, streaming only once configured.
pub open spec fn permitted(state: DeviceState, req: Request) -> bool {
    match req {
        Request::StartStreaming => state == DeviceState::Configured,
        Request::StopStreaming => state == DeviceState::Streaming,
        Request::Close => state != DeviceState::Closed && state != DeviceState::Uninitialized,
        _ => state == DeviceState::Opened || state == DeviceState::Configured,
    }
}

/// Requests that succeed at once without the driver: starting a stream that
/// is already streaming, and closing a handle that holds no resource.
pub open spec fn no_op(state: DeviceState, req: Request) -> bool {
    match req {
        Request::StartStreaming => state == DeviceState::Streaming,
        Request::Close => state == DeviceState::Closed || state == DeviceState::Uninitialized,
        _ => false,
    }
}

/// The answer to asking whether a request goes to the driver: `Ok(true)` it
/// does, `Ok(false)` it is a no-op, and an error where the state forbids it.
pub open spec fn gate(state: DeviceState, req: Request) -> Result<bool, SdrError> {
    if no_op(state, req) {
        Ok(false)
    } else if permitted(state, req) {
        Ok(true)
    } else {
        Err(SdrError::InvalidState { state })
    }
}

/// The driver operation whose status completes a request.
pub open spec fn operation_of(req: Request) -> Operation {
    match req {
        Request::SetFrequency(_) => Operation::SetFrequency,
        Request::SetSampleRate(_) => Operation::SetSampleRate,
        Request::SetGain(_) => Operation::SetGain,
        Request::SetGainAuto => Operation::SetGainMode,
        Request::StartStreaming => Operation::ResetBuffer,
        Request::StopStreaming => Operation::CancelAsync,
        Request::Close => Operation::Close,
    }
}

/// Whether a request is a configuration setter.
pub open spec fn is_setter(req: Request) -> bool {
    match req {
        Request::SetFrequency(_) | Request::SetSampleRate(_) | Request::SetGain(_)
        | Request::SetGainAuto => true,
        _ => false,
    }
}

/// The error that a non-zero status gives for a request.
pub open spec fn status_error(req: Request, code: i32) -> SdrError {
    if is_setter(req) {
        SdrError::ConfigurationRejected { operation: operation_of(req), code }
    } else {
        SdrError::DriverError { operation: operation_of(req), code }
    }
}

/// The state after the driver accepted a request.
pub open spec fn success_state(state: DeviceState, req: Request) -> DeviceState {
    match req {
        Request::SetSampleRate(_) => DeviceState::Configured,
        Request::StartStreaming => DeviceState::Streaming,
        Request::StopStreaming => DeviceState::Stopped,
        Request::Close => DeviceState::Closed,
        _ => state,
    }
}

/// The handle after the driver answered a request with `status`. A close
/// always leaves the handle closed, so that the resource is never released
/// twice; any other refusal leaves it failed.
pub open spec fn after(m: DeviceModel, req: Request, status: i32) -> DeviceModel {
    if status != 0 {
        DeviceModel {
            state: if req == Request::Close { DeviceState::Closed } else { DeviceState::Failed },
            ..m
        }
    } else {
        let n = DeviceModel { state: success_state(m.state, req), ..m };
        match req {
            Request::SetFrequency(hz) => DeviceModel { frequency: Some(hz), ..n },
            Request::SetSampleRate(sps) => DeviceModel { sample_rate: Some(sps), ..n },
            Request::SetGain(v) => DeviceModel { gain: Some(GainMode::Manual(v)), ..n },
            Request::SetGainAuto => DeviceModel { gain: Some(GainMode::Auto), ..n },
            _ => n,
        }
    }
}

/// What completing a request with `status` reports.
pub open spec fn outcome(req: Request, status: i32) -> Result<(), SdrError> {
    if status == 0 {
        Ok(())
    } else {
        Err(status_error(req, status))
    }
}

/// The next step of the search for a device, after the device at `index`
/// answered the open with `status`: indices `0 .. count - 1` are tried in
/// turn, and the search fails once the last of them was refused.
pub open spec fn open_next(index: u32, count: u32, status: i32) -> Result<OpenStep, SdrError> {
    if status == 0 {
        Ok(OpenStep::Opened(index))
    } else if index as int + 1 < count as int {
        Ok(OpenStep::TryIndex((index + 1) as u32))
    } else {
        Err(SdrError::NoDeviceAvailable)
    }
}

/// The handle to one radio device and its lifecycle state.
pub struct DeviceHandle {
    state: DeviceState,
    index: u32,
    frequency: Option<u32>,
    sample_rate: Option<u32>,
    gain: Option<GainMode>,
}

impl View for DeviceHandle {
    type V = DeviceModel;

    closed spec fn view(&self) -> DeviceModel {
        DeviceModel {
            state: self.state,
            index: self.index,
            frequency: self.frequency,
            sample_rate: self.sample_rate,
            gain: self.gain,
        }
    }
}

impl DeviceHandle {
    /// A handle that holds no device yet.
    pub fn new() -> (d: DeviceHandle)
        ensures
            d@ == (DeviceModel {
                state: DeviceState::Uninitialized,
                index: 0,
                frequency: None,
                sample_rate: None,
                gain: None,
            }),
    {
        DeviceHandle {
            state: DeviceState::Uninitialized,
            index: 0,
            frequency: None,
            sample_rate: None,
            gain: None,
        }
    }

    pub fn state(&self) -> (r: DeviceState)
        ensures
            r == self@.state,
    {
        self.state
    }

    /// The index of the opened device.
    pub fn index(&self) -> (r: u32)
        ensures
            r == self@.index,
    {
        self.index
    }

    pub fn frequency(&self) -> (r: Option<u32>)
        ensures
            r == self@.frequency,
    {
        self.frequency
    }

    pub fn sample_rate(&self) -> (r: Option<u32>)
        ensures
            r == self@.sample_rate,
    {
        self.sample_rate
    }

    pub fn gain(&self) -> (r: Option<GainMode>)
        ensures
            r == self@.gain,
    {
        self.gain
    }

    /// Starts the search for a device among the `count` the driver reports:
    /// the first index to try, or `NoDeviceAvailable` when there is none.
    /// Only a handle that holds no device may search.
    pub fn begin_open(&self, count: u32) -> (r: Result<u32, SdrError>)
        ensures
            self@.state != DeviceState::Uninitialized ==> r == Err::<u32, SdrError>(
                SdrError::InvalidState { state: self@.state },
            ),
            self@.state == DeviceState::Uninitialized && count == 0 ==> r == Err::<u32, SdrError>(
                SdrError::NoDeviceAvailable,
            ),
            self@.state == DeviceState::Uninitialized && count > 0 ==> r == Ok::<u32, SdrError>(0),
    {
        if self.state != DeviceState::Uninitialized {
            Err(SdrError::InvalidState { state: self.state })
        } else if count == 0 {
            Err(SdrError::NoDeviceAvailable)
        } else {
            Ok(0)
        }
    }

    /// Takes the driver's answer to opening the device at `index`: the handle
    /// is opened on success, fails once every index was refused, and is left
    /// as it was while indices remain to be tried.
    pub fn open_attempted(&mut self, index: u32, count: u32, status: i32) -> (r: Result<
        OpenStep,
        SdrError,
    >)
        requires
            old(self)@.state == DeviceState::Uninitialized,
            index < count,
        ensures
            r == open_next(index, count, status),
            status == 0 ==> final(self)@ == (DeviceModel {
                state: DeviceState::Opened,
                index,
                ..old(self)@
            }),
            r is Err ==> final(self)@ == (DeviceModel { state: DeviceState::Failed, ..old(self)@ }),
            r is Ok && status != 0 ==> final(self)@ == old(self)@,
    {
        if status == 0 {
            self.state = DeviceState::Opened;
            self.index = index;
            Ok(OpenStep::Opened(index))
        } else if index < count - 1 {
            Ok(OpenStep::TryIndex(index + 1))
        } else {
            self.state = DeviceState::Failed;
            Err(SdrError::NoDeviceAvailable)
        }
    }

    /// Whether a request goes to the driver in the current state: `Ok(true)`
    /// it does, `Ok(false)` it is a no-op, an `InvalidState` error if the
    /// state forbids it. The driver is never asked in a forbidden state.
    pub fn prepare(&self, req: Request) -> (r: Result<bool, SdrError>)
        ensures
            r == gate(self@.state, req),
    {
        let permitted = match req {
            Request::StartStreaming => self.state == DeviceState::Configured,
            Request::StopStreaming => self.state == DeviceState::Streaming,
            Request::Close => self.state != DeviceState::Closed && self.state
                != DeviceState::Uninitialized,
            _ => self.state == DeviceState::Opened || self.state == DeviceState::Configured,
        };
        let no_op = match req {
            Request::StartStreaming => self.state == DeviceState::Streaming,
            Request::Close => self.state == DeviceState::Closed || self.state
                == DeviceState::Uninitialized,
            _ => false,
        };
        if no_op {
            Ok(false)
        } else if permitted {
            Ok(true)
        } else {
            Err(SdrError::InvalidState { state: self.state })
        }
    }

    /// Takes the driver's status for a request that `prepare` sent to it.
    pub fn complete(&mut self, req: Request, status: i32) -> (r: Result<(), SdrError>)
        requires
            gate(old(self)@.state, req) == Ok::<bool, SdrError>(true),
        ensures
            final(self)@ == after(old(self)@, req, status),
            r == outcome(req, status),
    {
        let operation = match req {
            Request::SetFrequency(_) => Operation::SetFrequency,
            Request::SetSampleRate(_) => Operation::SetSampleRate,
            Request::SetGain(_) => Operation::SetGain,
            Request::SetGainAuto => Operation::SetGainMode,
            Request::StartStreaming => Operation::ResetBuffer,
            Request::StopStreaming => Operation::CancelAsync,
            Request::Close => Operation::Close,
        };
        if status != 0 {
            self.state = if req == Request::Close {
                DeviceState::Closed
            } else {
                DeviceState::Failed
            };
            let setter = match req {
                Request::SetFrequency(_) | Request::SetSampleRate(_) | Request::SetGain(_)
                | Request::SetGainAuto => true,
                _ => false,
            };
            if setter {
                return Err(SdrError::ConfigurationRejected { operation, code: status });
            } else {
                return Err(SdrError::DriverError { operation, code: status });
            }
        }
        match req {
            Request::SetFrequency(hz) => {
                self.frequency = Some(hz);
            },
            Request::SetSampleRate(sps) => {
                self.sample_rate = Some(sps);
                self.state = DeviceState::Configured;
            },
            Request::SetGain(v) => {
                self.gain = Some(GainMode::Manual(v));
            },
            Request::SetGainAuto => {
                self.gain = Some(GainMode::Auto);
            },
            Request::StartStreaming => {
                self.state = DeviceState::Streaming;
            },
            Request::StopStreaming => {
                self.state = DeviceState::Stopped;
            },
            Request::Close => {
                self.state = DeviceState::Closed;
            },
        }
        Ok(())
    }
}

/// Closing twice is safe: whatever the driver answered to the first close,
/// the handle is closed afterwards, and a second close is a no-op that never
/// reaches the driver, so the resource is not released twice.
pub proof fn lemma_close_twice(m: DeviceModel, status: i32)
    requires
        gate(m.state, Request::Close) == Ok::<bool, SdrError>(true),
    ensures
        after(m, Request::Close, status).state == DeviceState::Closed,
        gate(after(m, Request::Close, status).state, Request::Close) == Ok::<bool, SdrError>(false),
{
}

/// No configuration setter reaches the driver before the device is open: it
/// is refused with an error that names the state.
pub proof fn lemma_setter_before_open(req: Request)
    requires
        is_setter(req),
    ensures
        gate(DeviceState::Uninitialized, req) == Err::<bool, SdrError>(
            SdrError::InvalidState { state: DeviceState::Uninitialized },
        ),
{
}

/// Streaming starts only after a sample rate was set: the driver is asked to
/// stream only from the configured state, and the only step into that state
/// is a sample-rate setting that the driver accepted.
pub proof fn lemma_stream_after_sample_rate(m: DeviceModel, req: Request, status: i32)
    ensures
        gate(m.state, Request::StartStreaming) == Ok::<bool, SdrError>(true) ==> m.state
            == DeviceState::Configured,
        m.state != DeviceState::Configured && after(m, req, status).state
            == DeviceState::Configured ==> req is SetSampleRate && status == 0,
        m.state == DeviceState::Uninitialized || m.state == DeviceState::Opened ==> gate(
            m.state,
            Request::StartStreaming,
        ) == Err::<bool, SdrError>(SdrError::InvalidState { state: m.state }),
{
}

} // verus!
