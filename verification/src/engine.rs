//! The capture engine: it brings up the silent render session and the
//! loopback capture session in order, hands out timestamped buffers, and
//! tears everything down again.
use crate::capture::{CaptureOp, CaptureState, LoopbackCaptureSession};
use crate::endpoint::PlatformAudioEndpoint;
use crate::error::{CaptureError, StartError, StopError, StopFailures};
use crate::platform::{
    BufferDescriptor, BufferFlags, PlatformCall, PlatformReply, Step, StreamRole, StreamState,
};
use crate::render::{RenderOp, RenderState, SilentRenderSession};
use crate::timebase::{Duration, TimebaseSnapshot};
use std::marker::PhantomData;
use std::rc::Rc;
use vstd::prelude::*;

verus! {

/// Where the engine stands in its life. `Stopped` is final: a new engine is
/// needed to start again.
#[derive(Clone, Copy, Debug, PartialEq, Eq, Structural)]
pub enum Phase {
    Idle,
    Starting,
    Running,
    Stopping,
    Stopped,
}

/// Whose reply the engine waits for.
#[derive(Clone, Copy, Debug, PartialEq, Eq, Structural)]
pub enum Waiting {
    /// Nobody's: no call is under way.
    Nothing,
    Endpoint,
    Render,
    Capture,
    CounterValue,
    CounterFrequency,
}

/// A captured block of frames with the time at which the device reached
/// it, measured from the session's start. It is a value of its own: the
/// platform's buffer is released before the engine hands it out.
#[derive(Clone, Copy, Debug, PartialEq, Eq, Structural)]
pub struct TimestampedBuffer {
    pub frames: u64,
    pub flags: BufferFlags,
    pub timestamp: Duration,
}

/// What the engine knows.
#[derive(Clone, Copy, Debug, PartialEq, Eq, Structural)]
pub struct EngineState {
    pub phase: Phase,
    pub waiting: Waiting,
    /// The buffer duration of the capture stream, in units of 100
    /// nanoseconds.
    pub buffer_duration: i64,
    pub render: Option<RenderState>,
    pub capture: Option<CaptureState>,
    /// The counter value read for the snapshot, until the frequency is
    /// read too.
    pub counter_value: i64,
    pub timebase: Option<TimebaseSnapshot>,
    /// Whether a buffer has been handed out since the start.
    pub first_buffer_seen: bool,
    /// The frames handed out since the start.
    pub position: u64,
    /// Why the start under way has failed, while what it created is
    /// released, and after.
    pub unwinding: Option<StartError>,
    /// The teardown calls that have failed since the stop began.
    pub failures: StopFailures,
}

impl EngineState {
    /// An engine that has not been started.
    pub open spec fn idle() -> EngineState {
        EngineState {
            phase: Phase::Idle,
            waiting: Waiting::Nothing,
            buffer_duration: 0,
            render: None,
            capture: None,
            counter_value: 0,
            timebase: None,
            first_buffer_seen: false,
            position: 0,
            unwinding: None,
            failures: StopFailures::none(),
        }
    }

    /// Whether the engine owns anything of the platform's.
    pub open spec fn outstanding(self) -> bool {
        ||| self.render matches Some(r) && !r.holds_nothing()
        ||| self.capture matches Some(c) && !c.holds_nothing()
    }

    /// The number of calls that a teardown has still to make before the
    /// engine owns nothing.
    pub open spec fn calls_left(self) -> nat {
        let render: nat = match self.render {
            Some(r) => r.calls_left(),
            None => 0,
        };
        let capture: nat = match self.capture {
            Some(c) => c.calls_left(),
            None => 0,
        };
        render + capture
    }

    /// Whether the capture stream is still to be stopped, or holds a
    /// buffer.
    pub open spec fn capture_runs(self) -> bool {
        self.capture matches Some(c) && c.stop_call() is Some
    }

    /// Whether the render session still holds its stream.
    pub open spec fn render_open(self) -> bool {
        self.render matches Some(r) && r.stream_outstanding()
    }

    /// Whether the capture session still holds its stream.
    pub open spec fn capture_open(self) -> bool {
        self.capture matches Some(c) && c.stream_outstanding()
    }

    /// The buffer that the capture session has acquired and not yet
    /// released.
    pub open spec fn held(self) -> Option<BufferDescriptor> {
        match self.capture {
            Some(c) => c.held,
            None => None,
        }
    }

    /// Whether a pull has acquired a buffer and waits for its release.
    pub open spec fn releasing(self) -> bool {
        self.capture matches Some(c) && self.waiting == Waiting::Capture && c.op
            == CaptureOp::Releasing
    }

    /// Whether the engine can be stopped: it runs, with no call under way
    /// but perhaps the release of a buffer; or a fault has stopped it and
    /// its streams are still to be released.
    pub open spec fn can_stop(self) -> bool {
        ||| self.phase == Phase::Running && (self.waiting == Waiting::Nothing || self.releasing())
        ||| self.phase == Phase::Stopped && self.outstanding()
    }

    /// Whether the engine is releasing what it holds, at a stop or after a
    /// start that failed.
    pub open spec fn tearing_down(self) -> bool {
        self.phase == Phase::Stopping || (self.phase == Phase::Starting && self.unwinding is Some)
    }

    /// The call whose reply the engine waits for, if it waits for one.
    pub open spec fn awaited(self) -> Option<PlatformCall> {
        match self.waiting {
            Waiting::Nothing => None,
            Waiting::Endpoint => Some(PlatformCall::EnumerateDefaultRenderDevice),
            Waiting::Render => match self.render {
                Some(r) => r.awaited(),
                None => None,
            },
            Waiting::Capture => match self.capture {
                Some(c) => c.awaited(),
                None => None,
            },
            Waiting::CounterValue => Some(PlatformCall::MonotonicCounterValue),
            Waiting::CounterFrequency => Some(PlatformCall::MonotonicCounterFrequency),
        }
    }

    /// How the operation goes on: with the awaited call, or, where none is
    /// awaited, not at all and with `result`.
    pub open spec fn step<T>(self, result: T) -> Step<T> {
        match self.awaited() {
            Some(call) => Step::Call(call),
            None => Step::Done(result),
        }
    }

    /// Both sessions are sound and neither waits for a reply, but perhaps
    /// the capture session for the release of its buffer.
    pub open spec fn quiet(self) -> bool {
        &&& self.render matches Some(r) ==> r.wf() && r.op == RenderOp::Idle
        &&& self.capture matches Some(c) ==> c.wf() && (c.op == CaptureOp::Idle || c.op
            == CaptureOp::Releasing)
    }

    /// Both sessions are sound, and the one whose reply is awaited is the
    /// one in the middle of an operation.
    pub open spec fn sessions_wf(self) -> bool {
        &&& self.render matches Some(r) ==> r.wf() && (r.op != RenderOp::Idle <==> self.waiting
            == Waiting::Render)
        &&& self.capture matches Some(c) ==> c.wf() && (c.op != CaptureOp::Idle <==> self.waiting
            == Waiting::Capture)
        &&& self.waiting == Waiting::Render ==> self.render is Some
        &&& self.waiting == Waiting::Capture ==> self.capture is Some
    }

    /// Both streams are started and no operation is under way on the
    /// render session.
    pub open spec fn streams_started(self) -> bool {
        &&& self.render matches Some(r) && r.stream == Some(StreamState::Started)
        &&& self.capture matches Some(c) && c.stream == Some(StreamState::Started)
    }

    /// What holds while a start goes forward.
    pub open spec fn starting_wf(self) -> bool {
        match self.waiting {
            Waiting::Nothing => false,
            Waiting::Endpoint => self.render is None && self.capture is None,
            Waiting::Render => self.capture is None && (self.render matches Some(r) && (r.op
                == RenderOp::Opening || r.op == RenderOp::Abandoning || r.op == RenderOp::Priming)),
            Waiting::Capture => {
                &&& self.render matches Some(r) && r.stream == Some(StreamState::Started)
                &&& self.capture matches Some(c) && (c.op == CaptureOp::Opening || c.op
                    == CaptureOp::Abandoning || c.op == CaptureOp::Starting)
            },
            Waiting::CounterValue | Waiting::CounterFrequency => {
                &&& self.streams_started()
                &&& self.capture matches Some(c) && c.held is None
            },
        }
    }

    /// What holds while the engine releases what it holds.
    pub open spec fn teardown_wf(self) -> bool {
        match self.waiting {
            Waiting::Render => !self.capture_runs() && (self.render matches Some(r) && r.op
                == RenderOp::Stopping),
            Waiting::Capture => self.capture matches Some(c) && (c.op == CaptureOp::Stopping
                || c.op == CaptureOp::Closing),
            _ => false,
        }
    }

    /// What holds while the engine runs.
    pub open spec fn running_wf(self) -> bool {
        &&& self.unwinding is None
        &&& self.timebase matches Some(t) && t.wf() && t.start_position == 0
        &&& self.streams_started()
        &&& self.capture matches Some(c) && match self.waiting {
            Waiting::Nothing => c.held is None,
            Waiting::Capture => c.op == CaptureOp::Polling || c.op == CaptureOp::Releasing,
            _ => false,
        }
    }

    /// What is known of an engine at every moment.
    pub open spec fn wf(self) -> bool {
        &&& self.sessions_wf()
        &&& match self.phase {
            Phase::Idle => self.waiting == Waiting::Nothing && !self.outstanding(),
            Phase::Starting => if self.unwinding is Some {
                self.teardown_wf()
            } else {
                self.starting_wf()
            },
            Phase::Running => self.running_wf(),
            Phase::Stopping => self.teardown_wf(),
            Phase::Stopped => self.waiting == Waiting::Nothing && (self.outstanding()
                ==> self.streams_started()),
        }
    }

    /// The engine as its teardown goes on where no call is under way. The
    /// capture stream is stopped first, a held buffer released before
    /// that; then the render session is stopped and released; then the
    /// capture session's format and stream are released. With nothing left
    /// the teardown is over: a failed start is back at `Idle`, a stop has
    /// reached `Stopped`.
    pub open spec fn torn_down(self) -> EngineState {
        if self.capture_runs() {
            EngineState {
                capture: Some(self.capture.unwrap().tearing(CaptureOp::Stopping)),
                waiting: Waiting::Capture,
                ..self
            }
        } else if self.render_open() {
            EngineState {
                render: Some(self.render.unwrap().stopping()),
                waiting: Waiting::Render,
                ..self
            }
        } else if self.capture_open() {
            EngineState {
                capture: Some(self.capture.unwrap().tearing(CaptureOp::Closing)),
                waiting: Waiting::Capture,
                ..self
            }
        } else {
            EngineState {
                phase: if self.phase == Phase::Starting {
                    Phase::Idle
                } else {
                    Phase::Stopped
                },
                waiting: Waiting::Nothing,
                ..self
            }
        }
    }

    /// The engine after a reply during a teardown. When the reply ends an
    /// operation of a session, the session's failures are added to the
    /// engine's and the teardown goes on.
    #[verifier::opaque]
    pub open spec fn after_teardown(self, reply: PlatformReply) -> EngineState {
        match self.waiting {
            Waiting::Render => match self.render {
                Some(r0) => {
                    let r = r0.after_stop(reply);
                    let s = EngineState { render: Some(r), ..self };
                    if r.op == RenderOp::Idle {
                        EngineState { failures: self.failures.union(r.failures), ..s }.torn_down()
                    } else {
                        s
                    }
                },
                None => self,
            },
            Waiting::Capture => match self.capture {
                Some(c0) => {
                    let c = if c0.op == CaptureOp::Stopping {
                        c0.after_stop(reply)
                    } else {
                        c0.after_close(reply)
                    };
                    let s = EngineState { capture: Some(c), ..self };
                    if c.op == CaptureOp::Idle {
                        EngineState { failures: self.failures.union(c.failures), ..s }.torn_down()
                    } else {
                        s
                    }
                },
                None => self,
            },
            _ => self,
        }
    }

    /// The engine as a start begins, with the capture stream's buffer
    /// duration in units of 100 nanoseconds.
    pub open spec fn starting(self, buffer_duration: i64) -> EngineState {
        EngineState {
            phase: Phase::Starting,
            waiting: Waiting::Endpoint,
            buffer_duration,
            render: None,
            capture: None,
            timebase: None,
            first_buffer_seen: false,
            position: 0,
            unwinding: None,
            failures: StopFailures::none(),
            ..self
        }
    }

    /// The engine as its start fails with `error`: what the start created
    /// is released before the error is reported.
    pub open spec fn failing(self, error: StartError) -> EngineState {
        EngineState { unwinding: Some(error), waiting: Waiting::Nothing, ..self }.torn_down()
    }

    /// The engine after a reply to the render session during a start: once
    /// the session is open it is filled with silence and started, and once
    /// it runs the capture session is opened on the same device.
    pub open spec fn after_render_reply(self, r0: RenderState, reply: PlatformReply) -> EngineState {
        if r0.op == RenderOp::Priming {
            let r = r0.after_priming(reply);
            let s = EngineState { render: Some(r), ..self };
            if r.op != RenderOp::Idle {
                s
            } else if r.stream == Some(StreamState::Started) {
                EngineState {
                    capture: Some(CaptureState::opening(r.device, self.buffer_duration)),
                    waiting: Waiting::Capture,
                    ..s
                }
            } else {
                s.failing(StartError::StreamStartFailed)
            }
        } else {
            let r = r0.after_open(reply);
            let s = EngineState { render: Some(r), ..self };
            if r.op != RenderOp::Idle {
                s
            } else if r.stream == Some(StreamState::Initialized) {
                EngineState { render: Some(r.priming()), ..s }
            } else {
                s.failing(StartError::StreamInitFailed)
            }
        }
    }

    /// The engine after a reply to the capture session during a start:
    /// once the session is open its stream is started, and once it runs
    /// the counter is read.
    pub open spec fn after_capture_reply(
        self,
        c0: CaptureState,
        reply: PlatformReply,
    ) -> EngineState {
        if c0.op == CaptureOp::Starting {
            let c = c0.after_start(reply);
            let s = EngineState { capture: Some(c), ..self };
            if c.stream == Some(StreamState::Started) {
                EngineState { waiting: Waiting::CounterValue, ..s }
            } else {
                s.failing(StartError::StreamStartFailed)
            }
        } else {
            let c = c0.after_open(reply);
            let s = EngineState { capture: Some(c), ..self };
            if c.op != CaptureOp::Idle {
                s
            } else if c.stream == Some(StreamState::Initialized) {
                EngineState { capture: Some(c.doing(CaptureOp::Starting)), ..s }
            } else {
                s.failing(StartError::StreamInitFailed)
            }
        }
    }

    /// The engine after the counter's frequency was read: it runs if the
    /// two readings make a snapshot.
    pub open spec fn after_frequency(self, reply: PlatformReply) -> EngineState {
        match reply {
            PlatformReply::Counter(frequency) => match TimebaseSnapshot::captured(
                self.counter_value,
                frequency,
            ) {
                Some(snapshot) => EngineState {
                    phase: Phase::Running,
                    waiting: Waiting::Nothing,
                    timebase: Some(snapshot),
                    ..self
                },
                None => self.failing(StartError::StreamStartFailed),
            },
            _ => self.failing(StartError::StreamStartFailed),
        }
    }

    /// The engine after a reply during a start.
    #[verifier::opaque]
    pub open spec fn after_start(self, reply: PlatformReply) -> EngineState {
        if self.unwinding is Some {
            self.after_teardown(reply)
        } else {
            match self.waiting {
                Waiting::Nothing => self,
                Waiting::Endpoint => match PlatformAudioEndpoint::resolved(reply) {
                    Ok(device) => EngineState {
                        render: Some(RenderState::opening(device)),
                        waiting: Waiting::Render,
                        ..self
                    },
                    Err(error) => self.failing(error),
                },
                Waiting::Render => match self.render {
                    Some(r0) => self.after_render_reply(r0, reply),
                    None => self,
                },
                Waiting::Capture => match self.capture {
                    Some(c0) => self.after_capture_reply(c0, reply),
                    None => self,
                },
                Waiting::CounterValue => match reply {
                    PlatformReply::Counter(value) => EngineState {
                        counter_value: value,
                        waiting: Waiting::CounterFrequency,
                        ..self
                    },
                    _ => self.failing(StartError::StreamStartFailed),
                },
                Waiting::CounterFrequency => self.after_frequency(reply),
            }
        }
    }

    /// Whether `reply` is the success of the call that a start awaits: the
    /// device for the enumeration, the format for the negotiation, a
    /// reading for the counter and a positive one for its frequency, and
    /// plain success for every other call.
    pub open spec fn granted(self, reply: PlatformReply) -> bool {
        match self.awaited() {
            Some(PlatformCall::EnumerateDefaultRenderDevice) => reply is Device,
            Some(PlatformCall::NegotiateMixFormat { .. }) => reply is Format,
            Some(PlatformCall::MonotonicCounterValue) => reply is Counter,
            Some(PlatformCall::MonotonicCounterFrequency) => reply is Counter && reply->Counter_0
                > 0,
            Some(_) => reply == PlatformReply::Done,
            None => false,
        }
    }

    /// The error of a start that fails at `call`.
    pub open spec fn failure_at(call: PlatformCall) -> StartError {
        match call {
            PlatformCall::EnumerateDefaultRenderDevice => StartError::DeviceUnavailable,
            PlatformCall::ActivateStream { .. }
            | PlatformCall::NegotiateMixFormat { .. }
            | PlatformCall::InitializeStream { .. } => StartError::StreamInitFailed,
            _ => StartError::StreamStartFailed,
        }
    }

    /// The error that the start under way is bound to report, if it has
    /// failed already: the one it is unwinding for, or `StreamInitFailed`
    /// while a session is still releasing what its failed open obtained.
    pub open spec fn doomed(self) -> Option<StartError> {
        if self.unwinding is Some {
            self.unwinding
        } else if self.render is Some && self.render.unwrap().op == RenderOp::Abandoning {
            Some(StartError::StreamInitFailed)
        } else if self.capture is Some && self.capture.unwrap().op == CaptureOp::Abandoning {
            Some(StartError::StreamInitFailed)
        } else {
            None
        }
    }

    /// What a start that has ended reports.
    pub open spec fn start_result(self) -> Result<(), StartError> {
        match self.unwinding {
            Some(error) => Err(error),
            None => Ok(()),
        }
    }

    /// The buffer as the engine hands it out. The first buffer after the
    /// start is stamped with the start itself, whatever position the
    /// device reports for it; every later one with the time that its
    /// device position stands for.
    pub open spec fn stamp(self, buffer: BufferDescriptor) -> TimestampedBuffer {
        TimestampedBuffer {
            frames: buffer.frames,
            flags: buffer.flags,
            timestamp: match self.timebase {
                Some(snapshot) => if self.first_buffer_seen {
                    snapshot.timestamp(buffer.position)
                } else {
                    Duration::zero()
                },
                None => Duration::zero(),
            },
        }
    }

    /// The engine as a pull begins.
    pub open spec fn polling(self) -> EngineState {
        match self.capture {
            Some(c) => EngineState {
                capture: Some(c.doing(CaptureOp::Polling)),
                waiting: Waiting::Capture,
                ..self
            },
            None => self,
        }
    }

    /// The engine after a fatal fault of the capture stream: it is
    /// stopped, and still owns its streams.
    pub open spec fn faulted(self) -> EngineState {
        EngineState { phase: Phase::Stopped, waiting: Waiting::Nothing, ..self }
    }

    /// The engine after it handed `buffer` out: its frames are counted,
    /// silent or not.
    pub open spec fn delivered(self, buffer: BufferDescriptor) -> EngineState {
        EngineState {
            position: (self.position + buffer.frames) as u64,
            first_buffer_seen: true,
            waiting: Waiting::Nothing,
            ..self
        }
    }

    /// Whether the engine can add the frames of `buffer` to its position.
    pub open spec fn counts(self, buffer: BufferDescriptor) -> bool {
        self.position + buffer.frames <= u64::MAX
    }

    /// The engine after a reply during a pull. A poll that brings a buffer
    /// is always followed by the buffer's release, and the buffer is handed
    /// out when the release has succeeded. A poll that brings none ends
    /// the pull. Anything else is a fault, as is a released buffer whose
    /// frames the engine can no longer count.
    pub open spec fn after_pull(self, reply: PlatformReply) -> EngineState {
        match self.capture {
            Some(c0) => if c0.op == CaptureOp::Polling {
                let c = c0.after_poll(reply);
                let s = EngineState { capture: Some(c), ..self };
                match CaptureState::polled(reply) {
                    Ok(None) => EngineState { waiting: Waiting::Nothing, ..s },
                    Ok(Some(_)) => EngineState {
                        capture: Some(c.doing(CaptureOp::Releasing)),
                        ..s
                    },
                    Err(_) => s.faulted(),
                }
            } else {
                let s = EngineState { capture: Some(c0.after_release(reply)), ..self };
                match c0.held {
                    Some(buffer) => if reply == PlatformReply::Done && self.counts(buffer) {
                        s.delivered(buffer)
                    } else {
                        s.faulted()
                    },
                    None => s.faulted(),
                }
            },
            None => self,
        }
    }

    /// What a pull reports that ends with `reply`.
    pub open spec fn pull_result(self, reply: PlatformReply) -> Result<
        Option<TimestampedBuffer>,
        CaptureError,
    > {
        match self.capture {
            Some(c0) => if c0.op == CaptureOp::Polling {
                match CaptureState::polled(reply) {
                    Ok(None) => Ok(None),
                    _ => Err(CaptureError::CaptureFault),
                }
            } else {
                match c0.held {
                    Some(buffer) => if reply == PlatformReply::Done && self.counts(buffer) {
                        Ok(Some(self.stamp(buffer)))
                    } else {
                        Err(CaptureError::CaptureFault)
                    },
                    None => Err(CaptureError::CaptureFault),
                }
            },
            None => Err(CaptureError::CaptureFault),
        }
    }

    /// The engine as a stop begins. A release that a pull was waiting for
    /// is taken over by the teardown.
    pub open spec fn stopping(self) -> EngineState {
        EngineState {
            phase: Phase::Stopping,
            waiting: Waiting::Nothing,
            failures: StopFailures::none(),
            ..self
        }.torn_down()
    }
}

/// The loopback capture engine. It is driven by one thread: it cannot be
/// sent to another, nor shared with one.
pub struct AudioCapture {
    phase: Phase,
    waiting: Waiting,
    buffer_duration: i64,
    render: Option<SilentRenderSession>,
    capture: Option<LoopbackCaptureSession>,
    counter_value: i64,
    timebase: Option<TimebaseSnapshot>,
    first_buffer_seen: bool,
    position: u64,
    unwinding: Option<StartError>,
    failures: StopFailures,
    affinity: PhantomData<Rc<()>>,
}

impl View for AudioCapture {
    type V = EngineState;

    closed spec fn view(&self) -> EngineState {
        EngineState {
            phase: self.phase,
            waiting: self.waiting,
            buffer_duration: self.buffer_duration,
            render: match self.render {
                Some(r) => Some(r@),
                None => None,
            },
            capture: match self.capture {
                Some(c) => Some(c@),
                None => None,
            },
            counter_value: self.counter_value,
            timebase: self.timebase,
            first_buffer_seen: self.first_buffer_seen,
            position: self.position,
            unwinding: self.unwinding,
            failures: self.failures,
        }
    }
}

impl AudioCapture {
    /// An engine that has not been started.
    pub fn new() -> (engine: AudioCapture)
        ensures
            engine@ == EngineState::idle(),
            engine@.wf(),
    {
        AudioCapture {
            phase: Phase::Idle,
            waiting: Waiting::Nothing,
            buffer_duration: 0,
            render: None,
            capture: None,
            counter_value: 0,
            timebase: None,
            first_buffer_seen: false,
            position: 0,
            unwinding: None,
            failures: StopFailures::new(),
            affinity: PhantomData,
        }
    }

    /// Where the engine stands in its life.
    pub fn phase(&self) -> (phase: Phase)
        ensures
            phase == self@.phase,
    {
        self.phase
    }

    /// The frames handed out since the start.
    pub fn position(&self) -> (position: u64)
        ensures
            position == self@.position,
    {
        self.position
    }

    /// The counter reading that timestamps are measured from, once the
    /// engine has run.
    pub fn timebase(&self) -> (timebase: Option<TimebaseSnapshot>)
        ensures
            timebase == self@.timebase,
    {
        self.timebase
    }

    /// What the render session knows, if there is one.
    fn render_state(&self) -> (state: Option<RenderState>)
        ensures
            state == self@.render,
    {
        match &self.render {
            Some(render) => Some(render.state()),
            None => None,
        }
    }

    /// What the capture session knows, if there is one.
    fn capture_state(&self) -> (state: Option<CaptureState>)
        ensures
            state == self@.capture,
    {
        match &self.capture {
            Some(capture) => Some(capture.state()),
            None => None,
        }
    }

    /// What the engine knows.
    pub fn state(&self) -> (state: EngineState)
        ensures
            state == self@,
    {
        EngineState {
            phase: self.phase,
            waiting: self.waiting,
            buffer_duration: self.buffer_duration,
            render: self.render_state(),
            capture: self.capture_state(),
            counter_value: self.counter_value,
            timebase: self.timebase,
            first_buffer_seen: self.first_buffer_seen,
            position: self.position,
            unwinding: self.unwinding,
            failures: self.failures,
        }
    }

    /// Whether a pull can begin: the engine runs and waits for no reply.
    pub fn can_pull(&self) -> (yes: bool)
        ensures
            yes == (self@.phase == Phase::Running && self@.waiting == Waiting::Nothing),
    {
        self.phase == Phase::Running && self.waiting == Waiting::Nothing
    }

    /// Whether a stop can begin.
    pub fn can_stop(&self) -> (yes: bool)
        requires
            self@.wf(),
        ensures
            yes == self@.can_stop(),
    {
        match self.phase {
            Phase::Running => match self.waiting {
                Waiting::Nothing => true,
                Waiting::Capture => match self.capture_state() {
                    Some(known) => known.op == CaptureOp::Releasing,
                    None => false,
                },
                _ => false,
            },
            Phase::Stopped => {
                let render_holds = match self.render_state() {
                    Some(known) => {
                        known.format.is_some() || (known.stream.is_some() && known.stream != Some(
                            StreamState::Released,
                        ))
                    },
                    None => false,
                };
                let capture_holds = match self.capture_state() {
                    Some(known) => {
                        known.format.is_some() || known.held.is_some() || (known.stream.is_some()
                            && known.stream != Some(StreamState::Released))
                    },
                    None => false,
                };
                render_holds || capture_holds
            },
            _ => false,
        }
    }

    /// The call whose reply the engine waits for.
    pub fn awaited(&self) -> (call: Option<PlatformCall>)
        ensures
            call == self@.awaited(),
    {
        match self.waiting {
            Waiting::Nothing => None,
            Waiting::Endpoint => Some(PlatformAudioEndpoint::resolve_default_render_device()),
            Waiting::Render => match &self.render {
                Some(render) => render.awaited(),
                None => None,
            },
            Waiting::Capture => match &self.capture {
                Some(capture) => capture.awaited(),
                None => None,
            },
            Waiting::CounterValue => Some(PlatformCall::MonotonicCounterValue),
            Waiting::CounterFrequency => Some(PlatformCall::MonotonicCounterFrequency),
        }
    }

    /// Goes on with the teardown where no call is under way.
    fn proceed_teardown(&mut self)
        requires
            old(self)@.quiet(),
            old(self)@.phase == Phase::Stopping || (old(self)@.phase == Phase::Starting && old(
                self,
            )@.unwinding is Some),
        ensures
            final(self)@ == old(self)@.torn_down(),
            final(self)@.wf(),
            final(self)@.waiting == Waiting::Nothing ==> !final(self)@.outstanding(),
    {
        let capture_known = self.capture_state();
        let render_known = self.render_state();
        match capture_known {
            Some(known) => {
                if known.held.is_some() || known.stream == Some(StreamState::Started) {
                    let mut capture = self.capture.take().unwrap();
                    let _ = capture.stop();
                    self.capture = Some(capture);
                    self.waiting = Waiting::Capture;
                    return ;
                }
            },
            None => {},
        }
        match render_known {
            Some(known) => {
                if known.stream.is_some() && known.stream != Some(StreamState::Released) {
                    let mut render = self.render.take().unwrap();
                    let _ = render.stop();
                    self.render = Some(render);
                    self.waiting = Waiting::Render;
                    return ;
                }
            },
            None => {},
        }
        match capture_known {
            Some(known) => {
                if known.stream.is_some() && known.stream != Some(StreamState::Released) {
                    let mut capture = self.capture.take().unwrap();
                    let _ = capture.close();
                    self.capture = Some(capture);
                    self.waiting = Waiting::Capture;
                    return ;
                }
            },
            None => {},
        }
        self.waiting = Waiting::Nothing;
        self.phase = if self.phase == Phase::Starting {
            Phase::Idle
        } else {
            Phase::Stopped
        };
    }

    /// Takes a reply to the render session during a teardown.
    fn resume_teardown_render(&mut self, reply: PlatformReply)
        requires
            old(self)@.wf(),
            old(self)@.tearing_down(),
            old(self)@.waiting == Waiting::Render,
        ensures
            final(self)@ == old(self)@.after_teardown(reply),
            final(self)@.wf(),
            final(self)@.waiting == Waiting::Nothing ==> !final(self)@.outstanding(),
            final(self)@.unwinding == old(self)@.unwinding,
            final(self)@.tearing_down() || final(self)@.waiting == Waiting::Nothing,
            final(self)@.waiting != Waiting::Nothing ==> final(self)@.phase == old(self)@.phase,
            final(self)@.waiting == Waiting::Nothing ==> final(self)@.phase == if old(self)@.phase
                == Phase::Starting {
                Phase::Idle
            } else {
                Phase::Stopped
            },
    {
        proof {
            reveal(EngineState::after_teardown);
        }
        let mut render = self.render.take().unwrap();
        let step = render.resume_stop(reply);
        let failed = render.state().failures;
        self.render = Some(render);
        match step {
            Step::Call(_) => {},
            Step::Done(_) => {
                self.failures = self.failures.merge(failed);
                self.proceed_teardown();
            },
        }
    }

    /// Takes a reply to the stop of the capture session during a teardown.
    fn resume_teardown_capture_stop(&mut self, reply: PlatformReply)
        requires
            old(self)@.wf(),
            old(self)@.tearing_down(),
            old(self)@.waiting == Waiting::Capture,
            old(self)@.capture matches Some(c) && c.op == CaptureOp::Stopping,
        ensures
            final(self)@ == old(self)@.after_teardown(reply),
            final(self)@.wf(),
            final(self)@.waiting == Waiting::Nothing ==> !final(self)@.outstanding(),
            final(self)@.unwinding == old(self)@.unwinding,
            final(self)@.tearing_down() || final(self)@.waiting == Waiting::Nothing,
            final(self)@.waiting != Waiting::Nothing ==> final(self)@.phase == old(self)@.phase,
            final(self)@.waiting == Waiting::Nothing ==> final(self)@.phase == if old(self)@.phase
                == Phase::Starting {
                Phase::Idle
            } else {
                Phase::Stopped
            },
    {
        proof {
            reveal(EngineState::after_teardown);
        }
        let mut capture = self.capture.take().unwrap();
        let step = capture.resume_stop(reply);
        let failed = capture.state().failures;
        self.capture = Some(capture);
        match step {
            Step::Call(_) => {},
            Step::Done(_) => {
                self.failures = self.failures.merge(failed);
                self.proceed_teardown();
            },
        }
    }

    /// Takes a reply to the close of the capture session during a
    /// teardown.
    fn resume_teardown_capture_close(&mut self, reply: PlatformReply)
        requires
            old(self)@.wf(),
            old(self)@.tearing_down(),
            old(self)@.waiting == Waiting::Capture,
            old(self)@.capture matches Some(c) && c.op == CaptureOp::Closing,
        ensures
            final(self)@ == old(self)@.after_teardown(reply),
            final(self)@.wf(),
            final(self)@.waiting == Waiting::Nothing ==> !final(self)@.outstanding(),
            final(self)@.unwinding == old(self)@.unwinding,
            final(self)@.tearing_down() || final(self)@.waiting == Waiting::Nothing,
            final(self)@.waiting != Waiting::Nothing ==> final(self)@.phase == old(self)@.phase,
            final(self)@.waiting == Waiting::Nothing ==> final(self)@.phase == if old(self)@.phase
                == Phase::Starting {
                Phase::Idle
            } else {
                Phase::Stopped
            },
    {
        proof {
            reveal(EngineState::after_teardown);
        }
        let mut capture = self.capture.take().unwrap();
        let step = capture.resume_close(reply);
        let failed = capture.state().failures;
        self.capture = Some(capture);
        match step {
            Step::Call(_) => {},
            Step::Done(_) => {
                self.failures = self.failures.merge(failed);
                self.proceed_teardown();
            },
        }
    }

    /// Takes a reply to the capture session during a teardown.
    fn resume_teardown_capture(&mut self, reply: PlatformReply)
        requires
            old(self)@.wf(),
            old(self)@.tearing_down(),
            old(self)@.waiting == Waiting::Capture,
        ensures
            final(self)@ == old(self)@.after_teardown(reply),
            final(self)@.wf(),
            final(self)@.waiting == Waiting::Nothing ==> !final(self)@.outstanding(),
            final(self)@.unwinding == old(self)@.unwinding,
            final(self)@.tearing_down() || final(self)@.waiting == Waiting::Nothing,
            final(self)@.waiting != Waiting::Nothing ==> final(self)@.phase == old(self)@.phase,
            final(self)@.waiting == Waiting::Nothing ==> final(self)@.phase == if old(self)@.phase
                == Phase::Starting {
                Phase::Idle
            } else {
                Phase::Stopped
            },
    {
        let stopping = match self.capture_state() {
            Some(known) => known.op == CaptureOp::Stopping,
            None => false,
        };
        if stopping {
            self.resume_teardown_capture_stop(reply);
        } else {
            self.resume_teardown_capture_close(reply);
        }
    }

    /// Takes a reply during a teardown.
    fn resume_teardown(&mut self, reply: PlatformReply)
        requires
            old(self)@.wf(),
            old(self)@.tearing_down(),
        ensures
            final(self)@ == old(self)@.after_teardown(reply),
            final(self)@.wf(),
            final(self)@.waiting == Waiting::Nothing ==> !final(self)@.outstanding(),
            final(self)@.unwinding == old(self)@.unwinding,
            final(self)@.waiting != Waiting::Nothing ==> final(self)@.phase == old(self)@.phase,
            final(self)@.waiting == Waiting::Nothing ==> final(self)@.phase == if old(self)@.phase
                == Phase::Starting {
                Phase::Idle
            } else {
                Phase::Stopped
            },
    {
        match self.waiting {
            Waiting::Render => {
                self.resume_teardown_render(reply);
            },
            _ => {
                self.resume_teardown_capture(reply);
            },
        }
    }

    /// Fails the start under way: what it created is released first.
    fn fail_start(&mut self, error: StartError)
        requires
            old(self)@.quiet(),
            old(self)@.phase == Phase::Starting,
        ensures
            final(self)@ == old(self)@.failing(error),
            final(self)@.wf(),
            final(self)@.waiting == Waiting::Nothing ==> !final(self)@.outstanding()
                && final(self)@.phase == Phase::Idle,
            final(self)@.waiting != Waiting::Nothing ==> final(self)@.phase == Phase::Starting,
            final(self)@.unwinding == Some(error),
    {
        self.unwinding = Some(error);
        self.waiting = Waiting::Nothing;
        self.proceed_teardown();
    }

    /// Takes a reply to the render session while a start goes forward.
    fn resume_start_render(&mut self, reply: PlatformReply)
        requires
            old(self)@.wf(),
            old(self)@.phase == Phase::Starting,
            old(self)@.unwinding is None,
            old(self)@.waiting == Waiting::Render,
        ensures
            final(self)@ == old(self)@.after_start(reply),
            final(self)@.wf(),
            final(self)@.waiting == Waiting::Nothing ==> !final(self)@.outstanding()
                && final(self)@.phase == Phase::Idle && final(self)@.unwinding is Some,
            final(self)@.waiting != Waiting::Nothing ==> final(self)@.phase == Phase::Starting,
    {
        proof {
            reveal(EngineState::after_start);
        }
        let mut render = self.render.take().unwrap();
        if render.state().op == RenderOp::Priming {
            let step = render.resume_prime_and_start(reply);
            let device = render.state().device;
            self.render = Some(render);
            match step {
                Step::Call(_) => {},
                Step::Done(Ok(())) => {
                    let begun = LoopbackCaptureSession::open(device, self.buffer_duration);
                    self.capture = Some(begun.0);
                    self.waiting = Waiting::Capture;
                },
                Step::Done(Err(error)) => {
                    self.fail_start(error);
                },
            }
        } else {
            let step = render.resume_open(reply);
            match step {
                Step::Call(_) => {
                    self.render = Some(render);
                },
                Step::Done(Ok(())) => {
                    let _ = render.prime_and_start();
                    self.render = Some(render);
                },
                Step::Done(Err(error)) => {
                    self.render = Some(render);
                    self.fail_start(error);
                },
            }
        }
    }

    /// Takes the reply to the start of the capture stream while a start
    /// goes forward.
    fn resume_start_capture_stream(&mut self, reply: PlatformReply)
        requires
            old(self)@.wf(),
            old(self)@.phase == Phase::Starting,
            old(self)@.unwinding is None,
            old(self)@.waiting == Waiting::Capture,
            old(self)@.capture matches Some(c) && c.op == CaptureOp::Starting,
        ensures
            final(self)@ == old(self)@.after_start(reply),
            final(self)@.wf(),
            final(self)@.waiting == Waiting::Nothing ==> !final(self)@.outstanding()
                && final(self)@.phase == Phase::Idle && final(self)@.unwinding is Some,
            final(self)@.waiting != Waiting::Nothing ==> final(self)@.phase == Phase::Starting,
    {
        proof {
            reveal(EngineState::after_start);
        }
        let mut capture = self.capture.take().unwrap();
        let result = capture.resume_start(reply);
        self.capture = Some(capture);
        match result {
            Ok(()) => {
                self.waiting = Waiting::CounterValue;
            },
            Err(error) => {
                self.fail_start(error);
            },
        }
    }

    /// Takes a reply to the open of the capture session while a start goes
    /// forward.
    fn resume_start_capture_open(&mut self, reply: PlatformReply)
        requires
            old(self)@.wf(),
            old(self)@.phase == Phase::Starting,
            old(self)@.unwinding is None,
            old(self)@.waiting == Waiting::Capture,
            old(self)@.capture matches Some(c) && c.op != CaptureOp::Starting,
        ensures
            final(self)@ == old(self)@.after_start(reply),
            final(self)@.wf(),
            final(self)@.waiting == Waiting::Nothing ==> !final(self)@.outstanding()
                && final(self)@.phase == Phase::Idle && final(self)@.unwinding is Some,
            final(self)@.waiting != Waiting::Nothing ==> final(self)@.phase == Phase::Starting,
    {
        proof {
            reveal(EngineState::after_start);
        }
        let mut capture = self.capture.take().unwrap();
        let step = capture.resume_open(reply);
        match step {
            Step::Call(_) => {
                self.capture = Some(capture);
            },
            Step::Done(Ok(())) => {
                let _ = capture.start();
                self.capture = Some(capture);
            },
            Step::Done(Err(error)) => {
                self.capture = Some(capture);
                self.fail_start(error);
            },
        }
    }

    /// Takes a reply to the capture session while a start goes forward.
    fn resume_start_capture(&mut self, reply: PlatformReply)
        requires
            old(self)@.wf(),
            old(self)@.phase == Phase::Starting,
            old(self)@.unwinding is None,
            old(self)@.waiting == Waiting::Capture,
        ensures
            final(self)@ == old(self)@.after_start(reply),
            final(self)@.wf(),
            final(self)@.waiting == Waiting::Nothing ==> !final(self)@.outstanding()
                && final(self)@.phase == Phase::Idle && final(self)@.unwinding is Some,
            final(self)@.waiting != Waiting::Nothing ==> final(self)@.phase == Phase::Starting,
    {
        let starting = match self.capture_state() {
            Some(known) => known.op == CaptureOp::Starting,
            None => false,
        };
        if starting {
            self.resume_start_capture_stream(reply);
        } else {
            self.resume_start_capture_open(reply);
        }
    }

    /// Begins a start: the default output device is resolved, the silent
    /// render session opened, filled and started, the capture session
    /// opened with `capture_buffer_duration` (in units of 100 nanoseconds)
    /// and started, and the counter read, in that order. Returns the first
    /// call to make.
    pub fn start(&mut self, capture_buffer_duration: i64) -> (call: PlatformCall)
        requires
            old(self)@.wf(),
            old(self)@.phase == Phase::Idle,
        ensures
            final(self)@ == old(self)@.starting(capture_buffer_duration),
            final(self)@.wf(),
            call == PlatformCall::EnumerateDefaultRenderDevice,
            final(self)@.awaited() == Some(call),
    {
        self.phase = Phase::Starting;
        self.waiting = Waiting::Endpoint;
        self.buffer_duration = capture_buffer_duration;
        self.render = None;
        self.capture = None;
        self.timebase = None;
        self.first_buffer_seen = false;
        self.position = 0;
        self.unwinding = None;
        self.failures = StopFailures::new();
        PlatformAudioEndpoint::resolve_default_render_device()
    }

    /// Takes the reply to the awaited call of a start. The start succeeds,
    /// and the engine runs, when every call has succeeded and the counter
    /// ticks at a positive frequency; the counter's value is taken as it
    /// is read. The first call that fails ends it: what the start
    /// had created by then is released, call by call, and then the start
    /// reports the error and the engine is idle again, owning nothing.
    pub fn resume_start(&mut self, reply: PlatformReply) -> (step: Step<Result<(), StartError>>)
        requires
            old(self)@.wf(),
            old(self)@.phase == Phase::Starting,
        ensures
            final(self)@ == old(self)@.after_start(reply),
            final(self)@.wf(),
            step == final(self)@.step(final(self)@.start_result()),
            step is Call <==> final(self)@.phase == Phase::Starting,
            step == Step::Done(Ok::<(), StartError>(())) <==> final(self)@.phase == Phase::Running,
            step matches Step::Done(Err(error)) ==> final(self)@.phase == Phase::Idle
                && !final(self)@.outstanding() && final(self)@.unwinding == Some(error),
    {
        proof {
            reveal(EngineState::after_start);
        }
        if self.unwinding.is_some() {
            self.resume_teardown(reply);
        } else {
            match self.waiting {
                Waiting::Nothing => {},
                Waiting::Endpoint => {
                    match PlatformAudioEndpoint::resume_resolve_default_render_device(reply) {
                        Ok(device) => {
                            let begun = SilentRenderSession::open(device);
                            self.render = Some(begun.0);
                            self.waiting = Waiting::Render;
                        },
                        Err(error) => {
                            self.fail_start(error);
                        },
                    }
                },
                Waiting::Render => {
                    self.resume_start_render(reply);
                },
                Waiting::Capture => {
                    self.resume_start_capture(reply);
                },
                Waiting::CounterValue => match reply {
                    PlatformReply::Counter(value) => {
                        self.counter_value = value;
                        self.waiting = Waiting::CounterFrequency;
                    },
                    _ => {
                        self.fail_start(StartError::StreamStartFailed);
                    },
                },
                Waiting::CounterFrequency => {
                    let taken = match reply {
                        PlatformReply::Counter(frequency) => TimebaseSnapshot::snapshot(
                            self.counter_value,
                            frequency,
                        ),
                        _ => None,
                    };
                    match taken {
                        Some(snapshot) => {
                            self.timebase = Some(snapshot);
                            self.phase = Phase::Running;
                            self.waiting = Waiting::Nothing;
                        },
                        None => {
                            self.fail_start(StartError::StreamStartFailed);
                        },
                    }
                },
            }
        }
        match self.awaited() {
            Some(call) => Step::Call(call),
            None => Step::Done(
                match self.unwinding {
                    Some(error) => Err(error),
                    None => Ok(()),
                },
            ),
        }
    }

    /// Begins a pull: a poll of the capture stream that does not block.
    /// Returns the call to make. The engine runs and waits for no reply.
    pub fn pull(&mut self) -> (call: PlatformCall)
        requires
            old(self)@.wf(),
            old(self)@.phase == Phase::Running,
            old(self)@.waiting == Waiting::Nothing,
        ensures
            final(self)@ == old(self)@.polling(),
            final(self)@.wf(),
            call == PlatformCall::NextCapturePacket,
            final(self)@.awaited() == Some(call),
    {
        let mut capture = self.capture.take().unwrap();
        let call = capture.next_buffer();
        self.capture = Some(capture);
        self.waiting = Waiting::Capture;
        call
    }

    /// Takes the reply to the awaited call of a pull. Where the stream has
    /// no buffer ready the pull ends with `None`, which is no error, and
    /// the engine is as it was. A buffer is always released to the
    /// platform before the pull ends; it is then handed out, stamped, as a
    /// value of its own, and its frames are added to the position whether
    /// it is silent or not. Any other reply is a fault, as is a released
    /// buffer whose frames would take the position past the largest count:
    /// the pull fails with `CaptureFault` and the engine is stopped.
    pub fn resume_pull(&mut self, reply: PlatformReply) -> (step: Step<
        Result<Option<TimestampedBuffer>, CaptureError>,
    >)
        requires
            old(self)@.wf(),
            old(self)@.phase == Phase::Running,
            old(self)@.waiting == Waiting::Capture,
        ensures
            final(self)@ == old(self)@.after_pull(reply),
            final(self)@.wf(),
            step == final(self)@.step(old(self)@.pull_result(reply)),
            step is Call ==> step == Step::<
                Result<Option<TimestampedBuffer>, CaptureError>,
            >::Call(PlatformCall::ReleaseCaptureBuffer) && final(self)@.releasing()
                && final(self)@.phase == Phase::Running,
            step matches Step::Done(Ok(found)) ==> final(self)@.phase == Phase::Running
                && final(self)@.waiting == Waiting::Nothing && final(self)@.position == old(
                self,
            )@.position + match found {
                Some(buffer) => buffer.frames as int,
                None => 0,
            },
            step matches Step::Done(Err(_)) ==> final(self)@.phase == Phase::Stopped,
    {
        let mut capture = self.capture.take().unwrap();
        if capture.state().op == CaptureOp::Polling {
            let polled = capture.resume_next_buffer(reply);
            match polled {
                Ok(None) => {
                    self.capture = Some(capture);
                    self.waiting = Waiting::Nothing;
                    Step::Done(Ok(None))
                },
                Ok(Some(buffer)) => {
                    let call = capture.release(buffer);
                    self.capture = Some(capture);
                    Step::Call(call)
                },
                Err(fault) => {
                    self.capture = Some(capture);
                    self.phase = Phase::Stopped;
                    self.waiting = Waiting::Nothing;
                    Step::Done(Err(fault))
                },
            }
        } else {
            let held = capture.state().held;
            let released = capture.resume_release(reply);
            self.capture = Some(capture);
            self.waiting = Waiting::Nothing;
            let counted = match held {
                Some(buffer) => buffer.frames <= u64::MAX - self.position,
                None => false,
            };
            match (held, released, counted) {
                (Some(buffer), Ok(()), true) => {
                    let timestamp = match self.timebase {
                        Some(snapshot) => if self.first_buffer_seen {
                            snapshot.to_timestamp(buffer.position)
                        } else {
                            Duration::from_nanos(0)
                        },
                        None => Duration::from_nanos(0),
                    };
                    self.position = self.position + buffer.frames;
                    self.first_buffer_seen = true;
                    Step::Done(
                        Ok(
                            Some(
                                TimestampedBuffer {
                                    frames: buffer.frames,
                                    flags: buffer.flags,
                                    timestamp,
                                },
                            ),
                        ),
                    )
                },
                _ => {
                    self.phase = Phase::Stopped;
                    Step::Done(Err(CaptureError::CaptureFault))
                },
            }
        }
    }

    /// Begins a stop, and returns the first call to make. The capture
    /// stream is stopped first, after the release of a buffer that is
    /// still held; then the render stream is stopped and its session
    /// released; then the capture session's format and stream are
    /// released.
    pub fn stop(&mut self) -> (call: PlatformCall)
        requires
            old(self)@.wf(),
            old(self)@.can_stop(),
        ensures
            final(self)@ == old(self)@.stopping(),
            final(self)@.wf(),
            final(self)@.phase == Phase::Stopping,
            final(self)@.awaited() == Some(call),
    {
        self.phase = Phase::Stopping;
        self.waiting = Waiting::Nothing;
        self.failures = StopFailures::new();
        self.proceed_teardown();
        match self.awaited() {
            Some(call) => call,
            None => PlatformCall::StopStream { role: StreamRole::Capture },
        }
    }

    /// Takes the reply to the awaited call of a stop. Every call of the
    /// teardown is made whatever the earlier ones answered. When the last
    /// is answered the engine is stopped and owns nothing, and the stop
    /// reports the failures together, or success where there was none.
    pub fn resume_stop(&mut self, reply: PlatformReply) -> (step: Step<Result<(), StopError>>)
        requires
            old(self)@.wf(),
            old(self)@.phase == Phase::Stopping,
        ensures
            final(self)@ == old(self)@.after_teardown(reply),
            final(self)@.wf(),
            step == final(self)@.step(final(self)@.failures.outcome()),
            step is Call <==> final(self)@.phase == Phase::Stopping,
            step is Done ==> final(self)@.phase == Phase::Stopped && !final(self)@.outstanding(),
    {
        self.resume_teardown(reply);
        match self.awaited() {
            Some(call) => Step::Call(call),
            None => Step::Done(self.failures.into_result()),
        }
    }
}

} // verus!
