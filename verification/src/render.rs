//! The silent render session: a playback stream on the output device that
//! is filled once with silence and left running, so that the device stays
//! active and the loopback path keeps delivering data.
use crate::error::{StartError, StopError, StopFailures};
use crate::platform::{
    DeviceHandle, PlatformCall, PlatformReply, Step, StreamRole, StreamState, WaveFormat,
};
use vstd::prelude::*;

verus! {

/// The buffer duration of the render stream, in units of 100 nanoseconds:
/// one second.
pub const RENDER_BUFFER_DURATION: i64 = 10_000_000;

/// The operation that a render session is in the middle of.
#[derive(Clone, Copy, Debug, PartialEq, Eq, Structural)]
pub enum RenderOp {
    /// None: the session waits for no reply.
    Idle,
    Opening,
    /// An open that failed, releasing what it had obtained.
    Abandoning,
    Priming,
    Stopping,
}

/// How far the one-time fill of the render buffer has come.
#[derive(Clone, Copy, Debug, PartialEq, Eq, Structural)]
pub enum Priming {
    Untouched,
    /// The whole buffer is acquired and not yet handed back.
    Acquired,
    /// The buffer went back to the platform, marked silent.
    Filled,
}

/// What a render session knows: the resources the platform has handed out
/// to it, and the reply it waits for.
#[derive(Clone, Copy, Debug, PartialEq, Eq, Structural)]
pub struct RenderState {
    pub device: DeviceHandle,
    /// The stream, once the platform has activated it.
    pub stream: Option<StreamState>,
    /// The negotiated format, while its descriptor is owned.
    pub format: Option<WaveFormat>,
    pub priming: Priming,
    pub op: RenderOp,
    /// The teardown calls that have failed since the last stop began.
    pub failures: StopFailures,
}

impl RenderState {
    /// A session about to be opened on `device`, holding nothing yet.
    pub open spec fn opening(device: DeviceHandle) -> RenderState {
        RenderState {
            device,
            stream: None,
            format: None,
            priming: Priming::Untouched,
            op: RenderOp::Opening,
            failures: StopFailures::none(),
        }
    }

    /// Whether the platform still holds a stream for this session.
    pub open spec fn stream_outstanding(self) -> bool {
        self.stream matches Some(s) && s != StreamState::Released
    }

    /// Whether the session owns nothing of the platform's.
    pub open spec fn holds_nothing(self) -> bool {
        !self.stream_outstanding() && self.format is None
    }

    /// The number of calls that a teardown of the session has still to
    /// make: one to stop a stream that runs, one to free the format, one to
    /// let go of the stream.
    pub open spec fn calls_left(self) -> nat {
        let stop: nat = if self.stream == Some(StreamState::Started) {
            1
        } else {
            0
        };
        let format: nat = if self.format is Some {
            1
        } else {
            0
        };
        let stream: nat = if self.stream_outstanding() {
            1
        } else {
            0
        };
        stop + format + stream
    }

    /// The next call of a teardown: stop the stream if it runs, then free
    /// the format, then let go of the stream.
    pub open spec fn teardown_call(self) -> Option<PlatformCall> {
        if self.stream == Some(StreamState::Started) {
            Some(PlatformCall::StopStream { role: StreamRole::Render })
        } else if self.format is Some {
            Some(PlatformCall::ReleaseFormat { role: StreamRole::Render })
        } else if self.stream_outstanding() {
            Some(PlatformCall::ReleaseStream { role: StreamRole::Render })
        } else {
            None
        }
    }

    /// The next call of an open: activate, negotiate, initialize.
    pub open spec fn open_call(self) -> PlatformCall {
        match (self.stream, self.format) {
            (None, _) => PlatformCall::ActivateStream {
                device: self.device,
                role: StreamRole::Render,
            },
            (Some(_), None) => PlatformCall::NegotiateMixFormat { role: StreamRole::Render },
            (Some(_), Some(format)) => PlatformCall::InitializeStream {
                role: StreamRole::Render,
                loopback: false,
                buffer_duration: RENDER_BUFFER_DURATION,
                format,
            },
        }
    }

    /// The next call of the fill with silence and the start: the whole
    /// buffer, one second of frames, is acquired and handed back marked
    /// silent; then the stream is started.
    pub open spec fn priming_call(self) -> Option<PlatformCall> {
        match self.format {
            Some(format) => Some(
                match self.priming {
                    Priming::Untouched => PlatformCall::AcquireRenderBuffer {
                        frames: format.sample_rate,
                    },
                    Priming::Acquired => PlatformCall::ReleaseRenderBuffer {
                        frames: format.sample_rate,
                        silent: true,
                    },
                    Priming::Filled => PlatformCall::StartStream { role: StreamRole::Render },
                },
            ),
            None => None,
        }
    }

    /// The call whose reply the session waits for, if it waits for one.
    pub open spec fn awaited(self) -> Option<PlatformCall> {
        match self.op {
            RenderOp::Idle => None,
            RenderOp::Opening => Some(self.open_call()),
            RenderOp::Priming => self.priming_call(),
            RenderOp::Abandoning | RenderOp::Stopping => self.teardown_call(),
        }
    }

    /// What is known of a session at every moment.
    pub open spec fn wf(self) -> bool {
        &&& self.stream is None ==> self.format is None
        &&& self.stream == Some(StreamState::Released) ==> self.format is None
        &&& (self.op == RenderOp::Idle || self.op == RenderOp::Priming) && (self.stream == Some(
            StreamState::Initialized,
        ) || self.stream == Some(StreamState::Started)) ==> self.format is Some
        &&& match self.op {
            RenderOp::Idle => true,
            RenderOp::Opening => self.stream is None || self.stream == Some(StreamState::Created),
            RenderOp::Priming => self.stream == Some(StreamState::Initialized),
            RenderOp::Abandoning => self.stream == Some(StreamState::Created),
            RenderOp::Stopping => self.teardown_call() is Some,
        }
    }

    /// The session after the awaited call of a teardown was answered. The
    /// resource is gone whatever the answer; an answer other than success
    /// is recorded.
    pub open spec fn torn(self, reply: PlatformReply) -> RenderState {
        let failed = reply != PlatformReply::Done;
        if self.stream == Some(StreamState::Started) {
            RenderState {
                stream: Some(StreamState::Stopped),
                failures: StopFailures { render_stop: failed, ..self.failures },
                ..self
            }
        } else if self.format is Some {
            RenderState {
                format: None,
                failures: StopFailures { render_format: failed, ..self.failures },
                ..self
            }
        } else {
            RenderState {
                stream: Some(StreamState::Released),
                failures: StopFailures { render_stream: failed, ..self.failures },
                ..self
            }
        }
    }

    /// The session with its operation ended if the teardown has nothing
    /// more to call.
    pub open spec fn settled(self) -> RenderState {
        if self.teardown_call() is None {
            RenderState { op: RenderOp::Idle, ..self }
        } else {
            self
        }
    }

    /// The session after a reply during an open.
    pub open spec fn after_open(self, reply: PlatformReply) -> RenderState {
        match self.op {
            RenderOp::Opening => match (self.stream, self.format) {
                (None, _) => if reply == PlatformReply::Done {
                    RenderState { stream: Some(StreamState::Created), ..self }
                } else {
                    RenderState { op: RenderOp::Idle, ..self }
                },
                (Some(_), None) => match reply {
                    PlatformReply::Format(format) => RenderState { format: Some(format), ..self },
                    _ => RenderState { op: RenderOp::Abandoning, ..self },
                },
                (Some(_), Some(_)) => if reply == PlatformReply::Done {
                    RenderState {
                        stream: Some(StreamState::Initialized),
                        op: RenderOp::Idle,
                        ..self
                    }
                } else {
                    RenderState { op: RenderOp::Abandoning, ..self }
                },
            },
            _ => self.torn(reply).settled(),
        }
    }

    /// What an open that has ended reports.
    pub open spec fn open_result(self) -> Result<(), StartError> {
        if self.stream == Some(StreamState::Initialized) {
            Ok(())
        } else {
            Err(StartError::StreamInitFailed)
        }
    }

    /// The session as the fill and start begin.
    pub open spec fn priming(self) -> RenderState {
        RenderState { op: RenderOp::Priming, ..self }
    }

    /// The session after a reply during the fill and start. A call that
    /// fails ends the operation where it stands.
    pub open spec fn after_priming(self, reply: PlatformReply) -> RenderState {
        if reply == PlatformReply::Done {
            match self.priming {
                Priming::Untouched => RenderState { priming: Priming::Acquired, ..self },
                Priming::Acquired => RenderState { priming: Priming::Filled, ..self },
                Priming::Filled => RenderState {
                    stream: Some(StreamState::Started),
                    op: RenderOp::Idle,
                    ..self
                },
            }
        } else {
            RenderState { op: RenderOp::Idle, ..self }
        }
    }

    /// What a fill and start that has ended reports.
    pub open spec fn start_result(self) -> Result<(), StartError> {
        if self.stream == Some(StreamState::Started) {
            Ok(())
        } else {
            Err(StartError::StreamStartFailed)
        }
    }

    /// The session as a stop begins.
    pub open spec fn stopping(self) -> RenderState {
        RenderState { op: RenderOp::Stopping, failures: StopFailures::none(), ..self }
    }

    /// The session after a reply during a stop.
    pub open spec fn after_stop(self, reply: PlatformReply) -> RenderState {
        self.torn(reply).settled()
    }

    /// How the operation goes on: with the awaited call, or, where none is
    /// awaited, not at all and with `result`.
    pub open spec fn step<T>(self, result: T) -> Step<T> {
        match self.awaited() {
            Some(call) => Step::Call(call),
            None => Step::Done(result),
        }
    }
}

/// A playback stream that keeps the output device active.
#[derive(Debug)]
pub struct SilentRenderSession {
    state: RenderState,
}

impl View for SilentRenderSession {
    type V = RenderState;

    closed spec fn view(&self) -> RenderState {
        self.state
    }
}

impl SilentRenderSession {
    /// What the session knows.
    pub fn state(&self) -> (state: RenderState)
        ensures
            state == self@,
    {
        self.state
    }

    /// The call whose reply the session waits for.
    pub fn awaited(&self) -> (call: Option<PlatformCall>)
        ensures
            call == self@.awaited(),
    {
        match self.state.op {
            RenderOp::Idle => None,
            RenderOp::Opening => Some(
                match (self.state.stream, self.state.format) {
                    (None, _) => PlatformCall::ActivateStream {
                        device: self.state.device,
                        role: StreamRole::Render,
                    },
                    (Some(_), None) => PlatformCall::NegotiateMixFormat {
                        role: StreamRole::Render,
                    },
                    (Some(_), Some(format)) => PlatformCall::InitializeStream {
                        role: StreamRole::Render,
                        loopback: false,
                        buffer_duration: RENDER_BUFFER_DURATION,
                        format,
                    },
                },
            ),
            RenderOp::Priming => match self.state.format {
                Some(format) => Some(
                    match self.state.priming {
                        Priming::Untouched => PlatformCall::AcquireRenderBuffer {
                            frames: format.sample_rate,
                        },
                        Priming::Acquired => PlatformCall::ReleaseRenderBuffer {
                            frames: format.sample_rate,
                            silent: true,
                        },
                        Priming::Filled => PlatformCall::StartStream { role: StreamRole::Render },
                    },
                ),
                None => None,
            },
            RenderOp::Abandoning | RenderOp::Stopping => self.teardown_call(),
        }
    }

    fn teardown_call(&self) -> (call: Option<PlatformCall>)
        ensures
            call == self@.teardown_call(),
    {
        match self.state.stream {
            Some(StreamState::Started) => Some(PlatformCall::StopStream { role: StreamRole::Render }),
            _ => match self.state.format {
                Some(_) => Some(PlatformCall::ReleaseFormat { role: StreamRole::Render }),
                None => match self.state.stream {
                    Some(StreamState::Released) | None => None,
                    Some(_) => Some(PlatformCall::ReleaseStream { role: StreamRole::Render }),
                },
            },
        }
    }

    /// Books the reply to the awaited call of a teardown, and ends the
    /// operation once nothing is left to call.
    fn tear(&mut self, reply: PlatformReply)
        requires
            old(self)@.teardown_call() is Some,
        ensures
            final(self)@ == old(self)@.torn(reply).settled(),
    {
        let failed = !reply.is_done();
        match self.state.stream {
            Some(StreamState::Started) => {
                self.state.stream = Some(StreamState::Stopped);
                self.state.failures.render_stop = failed;
            },
            _ => match self.state.format {
                Some(_) => {
                    self.state.format = None;
                    self.state.failures.render_format = failed;
                },
                None => {
                    self.state.stream = Some(StreamState::Released);
                    self.state.failures.render_stream = failed;
                },
            },
        }
        if self.teardown_call().is_none() {
            self.state.op = RenderOp::Idle;
        }
    }

    /// Begins to open a playback stream on `device`: in shared mode, with
    /// the device's own mix format and a buffer of one second. Returns the
    /// session and the first call to make for it.
    pub fn open(device: DeviceHandle) -> (begun: (SilentRenderSession, PlatformCall))
        ensures
            begun.0@ == RenderState::opening(device),
            begun.0@.wf(),
            begun.0@.awaited() == Some(begun.1),
            begun.1 == (PlatformCall::ActivateStream { device, role: StreamRole::Render }),
    {
        let session = SilentRenderSession {
            state: RenderState {
                device,
                stream: None,
                format: None,
                priming: Priming::Untouched,
                op: RenderOp::Opening,
                failures: StopFailures::new(),
            },
        };
        (session, PlatformCall::ActivateStream { device, role: StreamRole::Render })
    }

    /// Takes the reply to the awaited call of an open. The open succeeds
    /// when the stream is activated, its format negotiated and the stream
    /// initialized. When one of the three fails, what the others obtained
    /// is released, and then the open fails with `StreamInitFailed`.
    pub fn resume_open(&mut self, reply: PlatformReply) -> (step: Step<Result<(), StartError>>)
        requires
            old(self)@.wf(),
            old(self)@.op == RenderOp::Opening || old(self)@.op == RenderOp::Abandoning,
        ensures
            final(self)@ == old(self)@.after_open(reply),
            final(self)@.wf(),
            step == final(self)@.step(final(self)@.open_result()),
            step is Done <==> final(self)@.op == RenderOp::Idle,
            step == Step::Done(Ok::<(), StartError>(())) <==> final(self)@.stream == Some(
                StreamState::Initialized,
            ),
            step matches Step::Done(Err(e)) ==> e == StartError::StreamInitFailed
                && final(self)@.holds_nothing(),
    {
        match self.state.op {
            RenderOp::Opening => match (self.state.stream, self.state.format) {
                (None, _) => {
                    if reply.is_done() {
                        self.state.stream = Some(StreamState::Created);
                    } else {
                        self.state.op = RenderOp::Idle;
                    }
                },
                (Some(_), None) => match reply {
                    PlatformReply::Format(format) => {
                        self.state.format = Some(format);
                    },
                    _ => {
                        self.state.op = RenderOp::Abandoning;
                    },
                },
                (Some(_), Some(_)) => {
                    if reply.is_done() {
                        self.state.stream = Some(StreamState::Initialized);
                        self.state.op = RenderOp::Idle;
                    } else {
                        self.state.op = RenderOp::Abandoning;
                    }
                },
            },
            _ => {
                self.tear(reply);
            },
        }
        match self.awaited() {
            Some(call) => Step::Call(call),
            None => Step::Done(
                match self.state.stream {
                    Some(StreamState::Initialized) => Ok(()),
                    _ => Err(StartError::StreamInitFailed),
                },
            ),
        }
    }

    /// Begins the fill with silence and the start of an initialized
    /// stream, and returns the first call to make. A fill that failed
    /// earlier is taken up where it stopped.
    pub fn prime_and_start(&mut self) -> (call: PlatformCall)
        requires
            old(self)@.wf(),
            old(self)@.op == RenderOp::Idle,
            old(self)@.stream == Some(StreamState::Initialized),
        ensures
            final(self)@ == old(self)@.priming(),
            final(self)@.wf(),
            final(self)@.awaited() == Some(call),
    {
        self.state.op = RenderOp::Priming;
        match self.awaited() {
            Some(call) => call,
            None => PlatformCall::StartStream { role: StreamRole::Render },
        }
    }

    /// Takes the reply to the awaited call of the fill and start. The
    /// operation succeeds when the buffer was acquired, handed back as
    /// silence, and the stream started; the first call that fails ends it
    /// with `StreamStartFailed` and the stream still initialized.
    pub fn resume_prime_and_start(&mut self, reply: PlatformReply) -> (step: Step<
        Result<(), StartError>,
    >)
        requires
            old(self)@.wf(),
            old(self)@.op == RenderOp::Priming,
        ensures
            final(self)@ == old(self)@.after_priming(reply),
            final(self)@.wf(),
            step == final(self)@.step(final(self)@.start_result()),
            step is Done <==> final(self)@.op == RenderOp::Idle,
            step == Step::Done(Ok::<(), StartError>(())) <==> final(self)@.stream == Some(
                StreamState::Started,
            ),
            step matches Step::Done(Err(e)) ==> e == StartError::StreamStartFailed
                && reply != PlatformReply::Done && final(self)@.stream == Some(
                StreamState::Initialized,
            ),
    {
        if reply.is_done() {
            match self.state.priming {
                Priming::Untouched => {
                    self.state.priming = Priming::Acquired;
                },
                Priming::Acquired => {
                    self.state.priming = Priming::Filled;
                },
                Priming::Filled => {
                    self.state.stream = Some(StreamState::Started);
                    self.state.op = RenderOp::Idle;
                },
            }
        } else {
            self.state.op = RenderOp::Idle;
        }
        match self.awaited() {
            Some(call) => Step::Call(call),
            None => Step::Done(
                match self.state.stream {
                    Some(StreamState::Started) => Ok(()),
                    _ => Err(StartError::StreamStartFailed),
                },
            ),
        }
    }

    /// Begins to stop the session and to release what it holds, and
    /// returns the first call to make. The session must still hold its
    /// stream: a second stop is an error of the caller.
    pub fn stop(&mut self) -> (call: PlatformCall)
        requires
            old(self)@.wf(),
            old(self)@.op == RenderOp::Idle,
            old(self)@.stream_outstanding(),
        ensures
            final(self)@ == old(self)@.stopping(),
            final(self)@.wf(),
            final(self)@.awaited() == Some(call),
    {
        self.state.op = RenderOp::Stopping;
        self.state.failures = StopFailures::new();
        match self.teardown_call() {
            Some(call) => call,
            None => PlatformCall::ReleaseStream { role: StreamRole::Render },
        }
    }

    /// Takes the reply to the awaited call of a stop. Every call of the
    /// teardown is made whatever the earlier ones answered; when the last
    /// is answered the stop reports the failures together, or success where
    /// there was none.
    pub fn resume_stop(&mut self, reply: PlatformReply) -> (step: Step<Result<(), StopError>>)
        requires
            old(self)@.wf(),
            old(self)@.op == RenderOp::Stopping,
        ensures
            final(self)@ == old(self)@.after_stop(reply),
            final(self)@.wf(),
            step == final(self)@.step(final(self)@.failures.outcome()),
            step is Done <==> final(self)@.op == RenderOp::Idle,
            step is Done ==> final(self)@.holds_nothing(),
    {
        self.tear(reply);
        match self.awaited() {
            Some(call) => Step::Call(call),
            None => Step::Done(self.state.failures.into_result()),
        }
    }
}

} // verus!
