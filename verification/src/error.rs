//! The errors of the capture engine and its sessions.
use vstd::prelude::*;

verus! {

/// Why a start did not reach the running state.
#[derive(Clone, Copy, Debug, PartialEq, Eq, Structural)]
pub enum StartError {
    /// There is no default output device, or it cannot be enumerated.
    DeviceUnavailable,
    /// Format negotiation or shared-mode initialization was rejected.
    StreamInitFailed,
    /// The platform rejected the start of a stream.
    StreamStartFailed,
}

/// A fatal error in the middle of a session.
#[derive(Clone, Copy, Debug, PartialEq, Eq, Structural)]
pub enum CaptureError {
    CaptureFault,
}

/// The teardown calls that failed, one flag for each.
#[derive(Clone, Copy, Debug, PartialEq, Eq, Structural)]
pub struct StopFailures {
    pub capture_buffer: bool,
    pub capture_stop: bool,
    pub capture_format: bool,
    pub capture_stream: bool,
    pub render_stop: bool,
    pub render_format: bool,
    pub render_stream: bool,
}

impl StopFailures {
    /// No call failed.
    pub open spec fn none() -> StopFailures {
        StopFailures {
            capture_buffer: false,
            capture_stop: false,
            capture_format: false,
            capture_stream: false,
            render_stop: false,
            render_format: false,
            render_stream: false,
        }
    }

    /// The failures of both.
    pub open spec fn union(self, other: StopFailures) -> StopFailures {
        StopFailures {
            capture_buffer: self.capture_buffer || other.capture_buffer,
            capture_stop: self.capture_stop || other.capture_stop,
            capture_format: self.capture_format || other.capture_format,
            capture_stream: self.capture_stream || other.capture_stream,
            render_stop: self.render_stop || other.render_stop,
            render_format: self.render_format || other.render_format,
            render_stream: self.render_stream || other.render_stream,
        }
    }

    /// What a teardown reports that ended with these failures.
    pub open spec fn outcome(self) -> Result<(), StopError> {
        if self == StopFailures::none() {
            Ok(())
        } else {
            Err(StopError::StopFailed(self))
        }
    }

    pub fn new() -> (failures: StopFailures)
        ensures
            failures == StopFailures::none(),
    {
        StopFailures {
            capture_buffer: false,
            capture_stop: false,
            capture_format: false,
            capture_stream: false,
            render_stop: false,
            render_format: false,
            render_stream: false,
        }
    }

    /// Whether no call failed.
    pub fn is_empty(&self) -> (empty: bool)
        ensures
            empty == (*self == StopFailures::none()),
    {
        !(self.capture_buffer || self.capture_stop || self.capture_format || self.capture_stream
            || self.render_stop || self.render_format || self.render_stream)
    }

    pub fn merge(self, other: StopFailures) -> (both: StopFailures)
        ensures
            both == self.union(other),
    {
        StopFailures {
            capture_buffer: self.capture_buffer || other.capture_buffer,
            capture_stop: self.capture_stop || other.capture_stop,
            capture_format: self.capture_format || other.capture_format,
            capture_stream: self.capture_stream || other.capture_stream,
            render_stop: self.render_stop || other.render_stop,
            render_format: self.render_format || other.render_format,
            render_stream: self.render_stream || other.render_stream,
        }
    }

    /// The result of a teardown that ended with these failures: success
    /// where there is none, else all of them together.
    pub fn into_result(self) -> (result: Result<(), StopError>)
        ensures
            result == self.outcome(),
    {
        if self.is_empty() {
            Ok(())
        } else {
            Err(StopError::StopFailed(self))
        }
    }
}

/// One or more teardown calls failed.
#[derive(Clone, Copy, Debug, PartialEq, Eq, Structural)]
pub enum StopError {
    StopFailed(StopFailures),
}

} // verus!
