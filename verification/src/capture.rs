//! The loopback capture session: a capture stream bound to the output
//! device in loopback mode, polled for the buffers that the device renders.
use crate::error::{CaptureError, StartError, StopError, StopFailures};
use crate::platform::{
    BufferDescriptor, DeviceHandle, PlatformCall, PlatformReply, Step, StreamRole, StreamState,
    WaveFormat,
};
use vstd::prelude::*;

verus! {

/// The operation that a capture session is in the middle of.
#[derive(Clone, Copy, Debug, PartialEq, Eq, Structural)]
pub enum CaptureOp {
    /// None: the session waits for no reply.
    Idle,
    Opening,
    /// An open that failed, releasing what it had obtained.
    Abandoning,
    Starting,
    /// A poll for the next buffer.
    Polling,
    /// The release of the buffer that is held.
    Releasing,
    Stopping,
    /// The release of the format and of the stream.
    Closing,
}

/// What a capture session knows: the resources the platform has handed out
/// to it, and the reply it waits for.
#[derive(Clone, Copy, Debug, PartialEq, Eq, Structural)]
pub struct CaptureState {
    pub device: DeviceHandle,
    /// The buffer duration asked for, in units of 100 nanoseconds.
    pub buffer_duration: i64,
    /// The stream, once the platform has activated it.
    pub stream: Option<StreamState>,
    /// The negotiated format, while its descriptor is owned.
    pub format: Option<WaveFormat>,
    /// The buffer that was acquired and is not yet released.
    pub held: Option<BufferDescriptor>,
    pub op: CaptureOp,
    /// The teardown calls that have failed since the last stop or close
    /// began.
    pub failures: StopFailures,
}

impl CaptureState {
    /// A session about to be opened on `device`, holding nothing yet.
    pub open spec fn opening(device: DeviceHandle, buffer_duration: i64) -> CaptureState {
        CaptureState {
            device,
            buffer_duration,
            stream: None,
            format: None,
            held: None,
            op: CaptureOp::Opening,
            failures: StopFailures::none(),
        }
    }

    /// Whether the platform still holds a stream for this session.
    pub open spec fn stream_outstanding(self) -> bool {
        self.stream matches Some(s) && s != StreamState::Released
    }

    /// Whether the session owns nothing of the platform's.
    pub open spec fn holds_nothing(self) -> bool {
        !self.stream_outstanding() && self.format is None && self.held is None
    }

    /// The number of calls that a stop and a close of the session have
    /// still to make: one to release a buffer that is held, one to stop a
    /// stream that runs, one to free the format, one to let go of the
    /// stream.
    pub open spec fn calls_left(self) -> nat {
        let buffer: nat = if self.held is Some {
            1
        } else {
            0
        };
        let stop: nat = if self.stream == Some(StreamState::Started) {
            1
        } else {
            0
        };
        let format: nat = if self.format is Some {
            1
        } else {
            0
        };
        let stream: nat = if self.stream_outstanding() {
            1
        } else {
            0
        };
        buffer + stop + format + stream
    }

    /// The next call of an open: activate, negotiate, initialize in
    /// loopback mode with the duration asked for.
    pub open spec fn open_call(self) -> PlatformCall {
        match (self.stream, self.format) {
            (None, _) => PlatformCall::ActivateStream {
                device: self.device,
                role: StreamRole::Capture,
            },
            (Some(_), None) => PlatformCall::NegotiateMixFormat { role: StreamRole::Capture },
            (Some(_), Some(format)) => PlatformCall::InitializeStream {
                role: StreamRole::Capture,
                loopback: true,
                buffer_duration: self.buffer_duration,
                format,
            },
        }
    }

    /// The next call of a stop: release the buffer that is held, then stop
    /// the stream.
    pub open spec fn stop_call(self) -> Option<PlatformCall> {
        if self.held is Some {
            Some(PlatformCall::ReleaseCaptureBuffer)
        } else if self.stream == Some(StreamState::Started) {
            Some(PlatformCall::StopStream { role: StreamRole::Capture })
        } else {
            None
        }
    }

    /// The next call of a close: free the format, then let go of the
    /// stream.
    pub open spec fn close_call(self) -> Option<PlatformCall> {
        if self.format is Some {
            Some(PlatformCall::ReleaseFormat { role: StreamRole::Capture })
        } else if self.stream_outstanding() {
            Some(PlatformCall::ReleaseStream { role: StreamRole::Capture })
        } else {
            None
        }
    }

    /// The call whose reply the session waits for, if it waits for one.
    pub open spec fn awaited(self) -> Option<PlatformCall> {
        match self.op {
            CaptureOp::Idle => None,
            CaptureOp::Opening => Some(self.open_call()),
            CaptureOp::Starting => Some(PlatformCall::StartStream { role: StreamRole::Capture }),
            CaptureOp::Polling => Some(PlatformCall::NextCapturePacket),
            CaptureOp::Releasing => Some(PlatformCall::ReleaseCaptureBuffer),
            CaptureOp::Stopping => self.stop_call(),
            CaptureOp::Abandoning | CaptureOp::Closing => self.close_call(),
        }
    }

    /// Whether the session is past its open and has not begun to release
    /// its format: from the open to the close the format is owned.
    pub open spec fn keeps_format(self) -> bool {
        &&& self.stream == Some(StreamState::Initialized) || self.stream == Some(
            StreamState::Started,
        ) || self.stream == Some(StreamState::Stopped)
        &&& self.op != CaptureOp::Opening && self.op != CaptureOp::Abandoning && self.op
            != CaptureOp::Closing
    }

    /// What is known of a session at every moment.
    pub open spec fn wf(self) -> bool {
        &&& self.stream is None ==> self.format is None
        &&& self.stream == Some(StreamState::Released) ==> self.format is None
        &&& self.held is Some ==> self.stream == Some(StreamState::Started)
        &&& self.keeps_format() ==> self.format is Some
        &&& match self.op {
            CaptureOp::Idle => true,
            CaptureOp::Opening => self.stream is None || self.stream == Some(StreamState::Created),
            CaptureOp::Abandoning => self.stream == Some(StreamState::Created),
            CaptureOp::Starting => self.stream == Some(StreamState::Initialized),
            CaptureOp::Polling => self.stream == Some(StreamState::Started) && self.held is None,
            CaptureOp::Releasing => self.held is Some,
            CaptureOp::Stopping => self.stop_call() is Some,
            CaptureOp::Closing => self.close_call() is Some && self.stop_call() is None,
        }
    }

    /// The session with its close ended if nothing is left to release.
    pub open spec fn closed(self) -> CaptureState {
        if self.close_call() is None {
            CaptureState { op: CaptureOp::Idle, ..self }
        } else {
            self
        }
    }

    /// The session after the awaited call of a close was answered. The
    /// resource is gone whatever the answer; an answer other than success
    /// is recorded.
    pub open spec fn after_close(self, reply: PlatformReply) -> CaptureState {
        let failed = reply != PlatformReply::Done;
        if self.format is Some {
            CaptureState {
                format: None,
                failures: StopFailures { capture_format: failed, ..self.failures },
                ..self
            }.closed()
        } else {
            CaptureState {
                stream: Some(StreamState::Released),
                failures: StopFailures { capture_stream: failed, ..self.failures },
                ..self
            }.closed()
        }
    }

    /// The session after a reply during an open.
    pub open spec fn after_open(self, reply: PlatformReply) -> CaptureState {
        match self.op {
            CaptureOp::Opening => match (self.stream, self.format) {
                (None, _) => if reply == PlatformReply::Done {
                    CaptureState { stream: Some(StreamState::Created), ..self }
                } else {
                    CaptureState { op: CaptureOp::Idle, ..self }
                },
                (Some(_), None) => match reply {
                    PlatformReply::Format(format) => CaptureState { format: Some(format), ..self },
                    _ => CaptureState { op: CaptureOp::Abandoning, ..self },
                },
                (Some(_), Some(_)) => if reply == PlatformReply::Done {
                    CaptureState {
                        stream: Some(StreamState::Initialized),
                        op: CaptureOp::Idle,
                        ..self
                    }
                } else {
                    CaptureState { op: CaptureOp::Abandoning, ..self }
                },
            },
            _ => self.after_close(reply),
        }
    }

    /// What an open that has ended reports.
    pub open spec fn open_result(self) -> Result<(), StartError> {
        if self.stream == Some(StreamState::Initialized) {
            Ok(())
        } else {
            Err(StartError::StreamInitFailed)
        }
    }

    /// The session with `op` begun.
    pub open spec fn doing(self, op: CaptureOp) -> CaptureState {
        CaptureState { op, ..self }
    }

    /// The session with `op` begun and no failure recorded.
    pub open spec fn tearing(self, op: CaptureOp) -> CaptureState {
        CaptureState { op, failures: StopFailures::none(), ..self }
    }

    /// The session after the reply to the start of its stream.
    pub open spec fn after_start(self, reply: PlatformReply) -> CaptureState {
        if reply == PlatformReply::Done {
            CaptureState { stream: Some(StreamState::Started), op: CaptureOp::Idle, ..self }
        } else {
            CaptureState { op: CaptureOp::Idle, ..self }
        }
    }

    /// What the reply to the start of the stream means.
    pub open spec fn start_result(reply: PlatformReply) -> Result<(), StartError> {
        if reply == PlatformReply::Done {
            Ok(())
        } else {
            Err(StartError::StreamStartFailed)
        }
    }

    /// What the reply to a poll means: a buffer, none yet, or a fault.
    pub open spec fn polled(reply: PlatformReply) -> Result<
        Option<BufferDescriptor>,
        CaptureError,
    > {
        match reply {
            PlatformReply::Packet(buffer) => Ok(Some(buffer)),
            PlatformReply::NoPacket => Ok(None),
            _ => Err(CaptureError::CaptureFault),
        }
    }

    /// The session after the reply to a poll: it holds the buffer that the
    /// reply brought, if it brought one.
    pub open spec fn after_poll(self, reply: PlatformReply) -> CaptureState {
        match reply {
            PlatformReply::Packet(buffer) => CaptureState {
                held: Some(buffer),
                op: CaptureOp::Idle,
                ..self
            },
            _ => CaptureState { op: CaptureOp::Idle, ..self },
        }
    }

    /// The session after the reply to the release of its buffer: the
    /// buffer is held no more if the release succeeded.
    pub open spec fn after_release(self, reply: PlatformReply) -> CaptureState {
        if reply == PlatformReply::Done {
            CaptureState { held: None, op: CaptureOp::Idle, ..self }
        } else {
            CaptureState { op: CaptureOp::Idle, ..self }
        }
    }

    /// What the reply to the release of a buffer means.
    pub open spec fn release_result(reply: PlatformReply) -> Result<(), CaptureError> {
        if reply == PlatformReply::Done {
            Ok(())
        } else {
            Err(CaptureError::CaptureFault)
        }
    }

    /// The session after a reply during a stop. The buffer counts as
    /// released and the stream as stopped whatever the answer; an answer
    /// other than success is recorded.
    pub open spec fn after_stop(self, reply: PlatformReply) -> CaptureState {
        let failed = reply != PlatformReply::Done;
        if self.held is Some {
            CaptureState {
                held: None,
                failures: StopFailures { capture_buffer: failed, ..self.failures },
                ..self
            }
        } else {
            CaptureState {
                stream: Some(StreamState::Stopped),
                op: CaptureOp::Idle,
                failures: StopFailures { capture_stop: failed, ..self.failures },
                ..self
            }
        }
    }

    /// How the operation goes on: with the awaited call, or, where none is
    /// awaited, not at all and with `result`.
    pub open spec fn step<T>(self, result: T) -> Step<T> {
        match self.awaited() {
            Some(call) => Step::Call(call),
            None => Step::Done(result),
        }
    }
}

/// A capture stream that reads back what the output device renders.
#[derive(Debug)]
pub struct LoopbackCaptureSession {
    state: CaptureState,
}

impl View for LoopbackCaptureSession {
    type V = CaptureState;

    closed spec fn view(&self) -> CaptureState {
        self.state
    }
}

impl LoopbackCaptureSession {
    /// What the session knows.
    pub fn state(&self) -> (state: CaptureState)
        ensures
            state == self@,
    {
        self.state
    }

    fn stop_call(&self) -> (call: Option<PlatformCall>)
        ensures
            call == self@.stop_call(),
    {
        match self.state.held {
            Some(_) => Some(PlatformCall::ReleaseCaptureBuffer),
            None => match self.state.stream {
                Some(StreamState::Started) => Some(
                    PlatformCall::StopStream { role: StreamRole::Capture },
                ),
                _ => None,
            },
        }
    }

    fn close_call(&self) -> (call: Option<PlatformCall>)
        ensures
            call == self@.close_call(),
    {
        match self.state.format {
            Some(_) => Some(PlatformCall::ReleaseFormat { role: StreamRole::Capture }),
            None => match self.state.stream {
                Some(StreamState::Released) | None => None,
                Some(_) => Some(PlatformCall::ReleaseStream { role: StreamRole::Capture }),
            },
        }
    }

    /// The call whose reply the session waits for.
    pub fn awaited(&self) -> (call: Option<PlatformCall>)
        ensures
            call == self@.awaited(),
    {
        match self.state.op {
            CaptureOp::Idle => None,
            CaptureOp::Opening => Some(
                match (self.state.stream, self.state.format) {
                    (None, _) => PlatformCall::ActivateStream {
                        device: self.state.device,
                        role: StreamRole::Capture,
                    },
                    (Some(_), None) => PlatformCall::NegotiateMixFormat {
                        role: StreamRole::Capture,
                    },
                    (Some(_), Some(format)) => PlatformCall::InitializeStream {
                        role: StreamRole::Capture,
                        loopback: true,
                        buffer_duration: self.state.buffer_duration,
                        format,
                    },
                },
            ),
            CaptureOp::Starting => Some(PlatformCall::StartStream { role: StreamRole::Capture }),
            CaptureOp::Polling => Some(PlatformCall::NextCapturePacket),
            CaptureOp::Releasing => Some(PlatformCall::ReleaseCaptureBuffer),
            CaptureOp::Stopping => self.stop_call(),
            CaptureOp::Abandoning | CaptureOp::Closing => self.close_call(),
        }
    }

    /// Books the reply to the awaited call of a close, and ends the
    /// operation once nothing is left to release.
    fn release_next(&mut self, reply: PlatformReply)
        requires
            old(self)@.close_call() is Some,
        ensures
            final(self)@ == old(self)@.after_close(reply),
    {
        let failed = !reply.is_done();
        match self.state.format {
            Some(_) => {
                self.state.format = None;
                self.state.failures.capture_format = failed;
            },
            None => {
                self.state.stream = Some(StreamState::Released);
                self.state.failures.capture_stream = failed;
            },
        }
        if self.close_call().is_none() {
            self.state.op = CaptureOp::Idle;
        }
    }

    /// Begins to open a capture stream on `device`: in shared mode, with
    /// the loopback flag, the device's own mix format and the buffer
    /// duration given, in units of 100 nanoseconds. Returns the session and
    /// the first call to make for it.
    pub fn open(device: DeviceHandle, buffer_duration: i64) -> (begun: (
        LoopbackCaptureSession,
        PlatformCall,
    ))
        ensures
            begun.0@ == CaptureState::opening(device, buffer_duration),
            begun.0@.wf(),
            begun.0@.awaited() == Some(begun.1),
            begun.1 == (PlatformCall::ActivateStream { device, role: StreamRole::Capture }),
    {
        let session = LoopbackCaptureSession {
            state: CaptureState {
                device,
                buffer_duration,
                stream: None,
                format: None,
                held: None,
                op: CaptureOp::Opening,
                failures: StopFailures::new(),
            },
        };
        (session, PlatformCall::ActivateStream { device, role: StreamRole::Capture })
    }

    /// Takes the reply to the awaited call of an open. The open succeeds
    /// when the stream is activated, its format negotiated and kept, and
    /// the stream initialized. When one of the three fails, what the others
    /// obtained is released, and then the open fails with
    /// `StreamInitFailed`.
    pub fn resume_open(&mut self, reply: PlatformReply) -> (step: Step<Result<(), StartError>>)
        requires
            old(self)@.wf(),
            old(self)@.op == CaptureOp::Opening || old(self)@.op == CaptureOp::Abandoning,
        ensures
            final(self)@ == old(self)@.after_open(reply),
            final(self)@.wf(),
            step == final(self)@.step(final(self)@.open_result()),
            step is Done <==> final(self)@.op == CaptureOp::Idle,
            step == Step::Done(Ok::<(), StartError>(())) <==> final(self)@.stream == Some(
                StreamState::Initialized,
            ),
            step == Step::Done(Ok::<(), StartError>(())) ==> final(self)@.format is Some,
            step matches Step::Done(Err(e)) ==> e == StartError::StreamInitFailed
                && final(self)@.holds_nothing(),
    {
        match self.state.op {
            CaptureOp::Opening => match (self.state.stream, self.state.format) {
                (None, _) => {
                    if reply.is_done() {
                        self.state.stream = Some(StreamState::Created);
                    } else {
                        self.state.op = CaptureOp::Idle;
                    }
                },
                (Some(_), None) => match reply {
                    PlatformReply::Format(format) => {
                        self.state.format = Some(format);
                    },
                    _ => {
                        self.state.op = CaptureOp::Abandoning;
                    },
                },
                (Some(_), Some(_)) => {
                    if reply.is_done() {
                        self.state.stream = Some(StreamState::Initialized);
                        self.state.op = CaptureOp::Idle;
                    } else {
                        self.state.op = CaptureOp::Abandoning;
                    }
                },
            },
            _ => {
                self.release_next(reply);
            },
        }
        match self.awaited() {
            Some(call) => Step::Call(call),
            None => Step::Done(
                match self.state.stream {
                    Some(StreamState::Initialized) => Ok(()),
                    _ => Err(StartError::StreamInitFailed),
                },
            ),
        }
    }

    /// Begins the start of an initialized stream, and returns the call to
    /// make.
    pub fn start(&mut self) -> (call: PlatformCall)
        requires
            old(self)@.wf(),
            old(self)@.op == CaptureOp::Idle,
            old(self)@.stream == Some(StreamState::Initialized),
        ensures
            final(self)@ == old(self)@.doing(CaptureOp::Starting),
            final(self)@.wf(),
            call == (PlatformCall::StartStream { role: StreamRole::Capture }),
            final(self)@.awaited() == Some(call),
    {
        self.state.op = CaptureOp::Starting;
        PlatformCall::StartStream { role: StreamRole::Capture }
    }

    /// Takes the reply to the start: the stream is started when the
    /// platform says so; else the start fails with `StreamStartFailed` and
    /// the stream stays initialized.
    pub fn resume_start(&mut self, reply: PlatformReply) -> (result: Result<(), StartError>)
        requires
            old(self)@.wf(),
            old(self)@.op == CaptureOp::Starting,
        ensures
            final(self)@ == old(self)@.after_start(reply),
            final(self)@.wf(),
            result == CaptureState::start_result(reply),
    {
        self.state.op = CaptureOp::Idle;
        if reply.is_done() {
            self.state.stream = Some(StreamState::Started);
            Ok(())
        } else {
            Err(StartError::StreamStartFailed)
        }
    }

    /// Begins a poll for the next buffer, and returns the call to make.
    /// The stream is started, and the buffer that the last poll brought has
    /// been released.
    pub fn next_buffer(&mut self) -> (call: PlatformCall)
        requires
            old(self)@.wf(),
            old(self)@.op == CaptureOp::Idle,
            old(self)@.stream == Some(StreamState::Started),
            old(self)@.held is None,
        ensures
            final(self)@ == old(self)@.doing(CaptureOp::Polling),
            final(self)@.wf(),
            call == PlatformCall::NextCapturePacket,
            final(self)@.awaited() == Some(call),
    {
        self.state.op = CaptureOp::Polling;
        PlatformCall::NextCapturePacket
    }

    /// Takes the reply to a poll. A packet is held from now on and handed
    /// out; no packet is no error, and nothing is held; any other reply is
    /// a fault of the stream.
    pub fn resume_next_buffer(&mut self, reply: PlatformReply) -> (result: Result<
        Option<BufferDescriptor>,
        CaptureError,
    >)
        requires
            old(self)@.wf(),
            old(self)@.op == CaptureOp::Polling,
        ensures
            final(self)@ == old(self)@.after_poll(reply),
            final(self)@.wf(),
            result == CaptureState::polled(reply),
            result matches Ok(found) ==> final(self)@.held == found,
    {
        self.state.op = CaptureOp::Idle;
        match reply {
            PlatformReply::Packet(buffer) => {
                self.state.held = Some(buffer);
                Ok(Some(buffer))
            },
            PlatformReply::NoPacket => Ok(None),
            _ => Err(CaptureError::CaptureFault),
        }
    }

    /// Begins the release of `buffer`, the one that is held, and returns
    /// the call to make.
    pub fn release(&mut self, buffer: BufferDescriptor) -> (call: PlatformCall)
        requires
            old(self)@.wf(),
            old(self)@.op == CaptureOp::Idle,
            old(self)@.held == Some(buffer),
        ensures
            final(self)@ == old(self)@.doing(CaptureOp::Releasing),
            final(self)@.wf(),
            call == PlatformCall::ReleaseCaptureBuffer,
            final(self)@.awaited() == Some(call),
    {
        self.state.op = CaptureOp::Releasing;
        PlatformCall::ReleaseCaptureBuffer
    }

    /// Takes the reply to a release: the buffer is held no more when the
    /// platform says so; any other reply is a fault of the stream, and the
    /// buffer stays held.
    pub fn resume_release(&mut self, reply: PlatformReply) -> (result: Result<(), CaptureError>)
        requires
            old(self)@.wf(),
            old(self)@.op == CaptureOp::Releasing,
        ensures
            final(self)@ == old(self)@.after_release(reply),
            final(self)@.wf(),
            result == CaptureState::release_result(reply),
            result is Ok <==> final(self)@.held is None,
    {
        self.state.op = CaptureOp::Idle;
        if reply.is_done() {
            self.state.held = None;
            Ok(())
        } else {
            Err(CaptureError::CaptureFault)
        }
    }

    /// Begins to stop a started stream, and returns the first call to
    /// make: a buffer that is still held is released before the stream is
    /// stopped. A release that was begun and not yet answered is taken over
    /// by the stop.
    pub fn stop(&mut self) -> (call: PlatformCall)
        requires
            old(self)@.wf(),
            old(self)@.op == CaptureOp::Idle || old(self)@.op == CaptureOp::Releasing,
            old(self)@.stream == Some(StreamState::Started),
        ensures
            final(self)@ == old(self)@.tearing(CaptureOp::Stopping),
            final(self)@.wf(),
            final(self)@.awaited() == Some(call),
    {
        self.state.op = CaptureOp::Stopping;
        self.state.failures = StopFailures::new();
        match self.state.held {
            Some(_) => PlatformCall::ReleaseCaptureBuffer,
            None => PlatformCall::StopStream { role: StreamRole::Capture },
        }
    }

    /// Takes the reply to the awaited call of a stop. The stream is
    /// stopped whatever the release of a held buffer answered; when the
    /// stop is answered the failures are reported together, or success
    /// where there was none. The format and the stream are still owned: a
    /// close releases them.
    pub fn resume_stop(&mut self, reply: PlatformReply) -> (step: Step<Result<(), StopError>>)
        requires
            old(self)@.wf(),
            old(self)@.op == CaptureOp::Stopping,
        ensures
            final(self)@ == old(self)@.after_stop(reply),
            final(self)@.wf(),
            step == final(self)@.step(final(self)@.failures.outcome()),
            step is Done <==> final(self)@.op == CaptureOp::Idle,
            step is Done ==> final(self)@.stream == Some(StreamState::Stopped)
                && final(self)@.held is None,
    {
        let failed = !reply.is_done();
        match self.state.held {
            Some(_) => {
                self.state.held = None;
                self.state.failures.capture_buffer = failed;
                Step::Call(PlatformCall::StopStream { role: StreamRole::Capture })
            },
            None => {
                self.state.stream = Some(StreamState::Stopped);
                self.state.failures.capture_stop = failed;
                self.state.op = CaptureOp::Idle;
                Step::Done(self.state.failures.into_result())
            },
        }
    }

    /// Begins to release the format and the stream of a session that is
    /// not running, and returns the first call to make.
    pub fn close(&mut self) -> (call: PlatformCall)
        requires
            old(self)@.wf(),
            old(self)@.op == CaptureOp::Idle,
            old(self)@.stream_outstanding(),
            old(self)@.stream != Some(StreamState::Started),
        ensures
            final(self)@ == old(self)@.tearing(CaptureOp::Closing),
            final(self)@.wf(),
            final(self)@.awaited() == Some(call),
    {
        self.state.op = CaptureOp::Closing;
        self.state.failures = StopFailures::new();
        match self.state.format {
            Some(_) => PlatformCall::ReleaseFormat { role: StreamRole::Capture },
            None => PlatformCall::ReleaseStream { role: StreamRole::Capture },
        }
    }

    /// Takes the reply to the awaited call of a close. The stream is let
    /// go whatever the release of the format answered; then the failures
    /// are reported together, or success where there was none.
    pub fn resume_close(&mut self, reply: PlatformReply) -> (step: Step<Result<(), StopError>>)
        requires
            old(self)@.wf(),
            old(self)@.op == CaptureOp::Closing,
        ensures
            final(self)@ == old(self)@.after_close(reply),
            final(self)@.wf(),
            step == final(self)@.step(final(self)@.failures.outcome()),
            step is Done <==> final(self)@.op == CaptureOp::Idle,
            step is Done ==> final(self)@.holds_nothing(),
    {
        self.release_next(reply);
        match self.awaited() {
            Some(call) => Step::Call(call),
            None => Step::Done(self.state.failures.into_result()),
        }
    }

    /// A buffer is asked for only while none is held, and a release only
    /// while one is held: between two acquisitions lies a release.
    pub proof fn acquire_and_release_alternate(state: CaptureState)
        requires
            state.wf(),
        ensures
            state.awaited() == Some(PlatformCall::NextCapturePacket) ==> state.held is None,
            state.awaited() == Some(PlatformCall::ReleaseCaptureBuffer) ==> state.held is Some,
    {
    }
}

} // verus!
