use loopback_capture::engine::{Phase, TimestampedBuffer, Waiting};
use loopback_capture::{
    AudioCapture, BufferDescriptor, BufferFlags, CaptureError, DeviceHandle, Duration,
    PlatformCall, PlatformReply, StartError, Step, StopError, StopFailures, StreamRole,
    StreamState, TimebaseSnapshot, WaveFormat,
};
use std::collections::VecDeque;

/// A platform that answers from a script and keeps count of what it has
/// handed out.
struct FakePlatform {
    calls: Vec<PlatformCall>,
    failing: Vec<PlatformCall>,
    device: Option<DeviceHandle>,
    formats: [WaveFormat; 2],
    packets: VecDeque<PlatformReply>,
    counter_value: i64,
    counter_frequency: i64,
    streams_open: [i32; 2],
    streams_running: [i32; 2],
    formats_owned: [i32; 2],
    buffers_held: i32,
}

fn render_format() -> WaveFormat {
    WaveFormat { sample_rate: 48_000, channels: 2, bits_per_sample: 32, block_align: 8 }
}

fn capture_format() -> WaveFormat {
    WaveFormat { sample_rate: 44_100, channels: 2, bits_per_sample: 16, block_align: 4 }
}

fn index(role: StreamRole) -> usize {
    match role {
        StreamRole::Render => 0,
        StreamRole::Capture => 1,
    }
}

impl FakePlatform {
    fn new() -> FakePlatform {
        FakePlatform {
            calls: Vec::new(),
            failing: Vec::new(),
            device: Some(DeviceHandle { id: 7 }),
            formats: [render_format(), capture_format()],
            packets: VecDeque::new(),
            counter_value: 1_000,
            counter_frequency: 10_000_000,
            streams_open: [0, 0],
            streams_running: [0, 0],
            formats_owned: [0, 0],
            buffers_held: 0,
        }
    }

    fn failing_at(call: PlatformCall) -> FakePlatform {
        let mut platform = FakePlatform::new();
        platform.failing.push(call);
        platform
    }

    fn perform(&mut self, call: PlatformCall) -> PlatformReply {
        self.calls.push(call);
        let fails = self.failing.contains(&call);
        match call {
            PlatformCall::EnumerateDefaultRenderDevice => match self.device {
                Some(device) if !fails => PlatformReply::Device(device),
                _ => PlatformReply::Failed,
            },
            PlatformCall::ActivateStream { device, role } => {
                if fails || self.device != Some(device) {
                    return PlatformReply::Failed;
                }
                self.streams_open[index(role)] += 1;
                PlatformReply::Done
            }
            PlatformCall::NegotiateMixFormat { role } => {
                if fails || self.device.is_none() {
                    return PlatformReply::Failed;
                }
                self.formats_owned[index(role)] += 1;
                PlatformReply::Format(self.formats[index(role)])
            }
            PlatformCall::InitializeStream { .. } | PlatformCall::AcquireRenderBuffer { .. }
            | PlatformCall::ReleaseRenderBuffer { .. } => {
                if fails || self.device.is_none() {
                    PlatformReply::Failed
                } else {
                    PlatformReply::Done
                }
            }
            PlatformCall::StartStream { role } => {
                if fails || self.device.is_none() {
                    return PlatformReply::Failed;
                }
                self.streams_running[index(role)] += 1;
                PlatformReply::Done
            }
            PlatformCall::StopStream { role } => {
                self.streams_running[index(role)] -= 1;
                if fails {
                    PlatformReply::Failed
                } else {
                    PlatformReply::Done
                }
            }
            PlatformCall::NextCapturePacket => {
                if fails || self.device.is_none() {
                    return PlatformReply::Failed;
                }
                assert_eq!(self.buffers_held, 0, "acquired while a buffer is held");
                match self.packets.pop_front() {
                    Some(PlatformReply::Packet(buffer)) => {
                        self.buffers_held += 1;
                        PlatformReply::Packet(buffer)
                    }
                    Some(other) => other,
                    None => PlatformReply::NoPacket,
                }
            }
            PlatformCall::ReleaseCaptureBuffer => {
                assert_eq!(self.buffers_held, 1, "released while no buffer is held");
                if fails {
                    return PlatformReply::Failed;
                }
                self.buffers_held -= 1;
                PlatformReply::Done
            }
            PlatformCall::ReleaseFormat { role } => {
                self.formats_owned[index(role)] -= 1;
                if fails {
                    PlatformReply::Failed
                } else {
                    PlatformReply::Done
                }
            }
            PlatformCall::ReleaseStream { role } => {
                assert_eq!(self.streams_running[index(role)], 0, "released while running");
                self.streams_open[index(role)] -= 1;
                if fails {
                    PlatformReply::Failed
                } else {
                    PlatformReply::Done
                }
            }
            PlatformCall::MonotonicCounterValue => PlatformReply::Counter(self.counter_value),
            PlatformCall::MonotonicCounterFrequency => {
                PlatformReply::Counter(self.counter_frequency)
            }
        }
    }

    fn push_packet(&mut self, frames: u64, flags: BufferFlags, position: u64) {
        self.packets
            .push_back(PlatformReply::Packet(BufferDescriptor { frames, flags, position }));
    }

    fn balanced(&self) -> bool {
        self.streams_open == [0, 0]
            && self.streams_running == [0, 0]
            && self.formats_owned == [0, 0]
            && self.buffers_held == 0
    }

    fn count(&self, call: PlatformCall) -> usize {
        self.calls.iter().filter(|made| **made == call).count()
    }

    fn place(&self, call: PlatformCall) -> usize {
        self.calls.iter().position(|made| *made == call).expect("the call was never made")
    }
}

fn start(
    engine: &mut AudioCapture,
    platform: &mut FakePlatform,
    duration: i64,
) -> Result<(), StartError> {
    assert_eq!(engine.phase(), Phase::Idle);
    let mut call = engine.start(duration);
    loop {
        match engine.resume_start(platform.perform(call)) {
            Step::Call(next) => call = next,
            Step::Done(result) => return result,
        }
    }
}

fn pull(
    engine: &mut AudioCapture,
    platform: &mut FakePlatform,
) -> Result<Option<TimestampedBuffer>, CaptureError> {
    assert!(engine.can_pull());
    let mut call = engine.pull();
    loop {
        match engine.resume_pull(platform.perform(call)) {
            Step::Call(next) => call = next,
            Step::Done(result) => return result,
        }
    }
}

fn stop(engine: &mut AudioCapture, platform: &mut FakePlatform) -> Result<(), StopError> {
    assert!(engine.can_stop());
    let mut call = engine.stop();
    loop {
        match engine.resume_stop(platform.perform(call)) {
            Step::Call(next) => call = next,
            Step::Done(result) => return result,
        }
    }
}

fn running() -> (AudioCapture, FakePlatform) {
    let mut engine = AudioCapture::new();
    let mut platform = FakePlatform::new();
    assert_eq!(start(&mut engine, &mut platform, 2_000_000), Ok(()));
    platform.calls.clear();
    (engine, platform)
}

const RENDER: StreamRole = StreamRole::Render;
const CAPTURE: StreamRole = StreamRole::Capture;

#[test]
fn audio_cap() {
    let mut engine = AudioCapture::new();
    let mut platform = FakePlatform::new();
    assert_eq!(start(&mut engine, &mut platform, 1_000_000_000), Ok(()));
    assert_eq!(engine.phase(), Phase::Running);
    assert_eq!(stop(&mut engine, &mut platform), Ok(()));
    assert_eq!(engine.phase(), Phase::Stopped);
    assert!(platform.balanced());
}

#[test]
fn a_new_engine_is_idle() {
    let engine = AudioCapture::new();
    assert_eq!(engine.phase(), Phase::Idle);
    assert_eq!(engine.position(), 0);
    assert_eq!(engine.awaited(), None);
    assert_eq!(engine.timebase(), None);
    assert!(!engine.can_pull());
    assert!(!engine.can_stop());
}

#[test]
fn start_makes_its_calls_in_order() {
    let mut engine = AudioCapture::new();
    let mut platform = FakePlatform::new();
    assert_eq!(start(&mut engine, &mut platform, 2_000_000), Ok(()));
    let device = DeviceHandle { id: 7 };
    assert_eq!(
        platform.calls,
        vec![
            PlatformCall::EnumerateDefaultRenderDevice,
            PlatformCall::ActivateStream { device, role: RENDER },
            PlatformCall::NegotiateMixFormat { role: RENDER },
            PlatformCall::InitializeStream {
                role: RENDER,
                loopback: false,
                buffer_duration: 10_000_000,
                format: render_format(),
            },
            PlatformCall::AcquireRenderBuffer { frames: 48_000 },
            PlatformCall::ReleaseRenderBuffer { frames: 48_000, silent: true },
            PlatformCall::StartStream { role: RENDER },
            PlatformCall::ActivateStream { device, role: CAPTURE },
            PlatformCall::NegotiateMixFormat { role: CAPTURE },
            PlatformCall::InitializeStream {
                role: CAPTURE,
                loopback: true,
                buffer_duration: 2_000_000,
                format: capture_format(),
            },
            PlatformCall::StartStream { role: CAPTURE },
            PlatformCall::MonotonicCounterValue,
            PlatformCall::MonotonicCounterFrequency,
        ]
    );
    assert_eq!(engine.phase(), Phase::Running);
    assert_eq!(engine.position(), 0);
    assert_eq!(
        engine.timebase(),
        Some(TimebaseSnapshot {
            reference_counter_value: 1_000,
            counter_frequency: 10_000_000,
            start_position: 0,
        })
    );
    assert!(engine.can_pull());
    assert!(engine.can_stop());
}

#[test]
fn start_without_a_device_is_unavailable() {
    let mut engine = AudioCapture::new();
    let mut platform = FakePlatform::new();
    platform.device = None;
    assert_eq!(
        start(&mut engine, &mut platform, 2_000_000),
        Err(StartError::DeviceUnavailable)
    );
    assert_eq!(platform.calls, vec![PlatformCall::EnumerateDefaultRenderDevice]);
    assert_eq!(engine.phase(), Phase::Idle);
    assert!(platform.balanced());
}

#[test]
fn start_failing_at_the_render_session_opens_no_capture_stream() {
    let failures = [
        (
            PlatformCall::ActivateStream { device: DeviceHandle { id: 7 }, role: RENDER },
            StartError::StreamInitFailed,
        ),
        (PlatformCall::NegotiateMixFormat { role: RENDER }, StartError::StreamInitFailed),
        (
            PlatformCall::InitializeStream {
                role: RENDER,
                loopback: false,
                buffer_duration: 10_000_000,
                format: render_format(),
            },
            StartError::StreamInitFailed,
        ),
        (PlatformCall::AcquireRenderBuffer { frames: 48_000 }, StartError::StreamStartFailed),
        (
            PlatformCall::ReleaseRenderBuffer { frames: 48_000, silent: true },
            StartError::StreamStartFailed,
        ),
        (PlatformCall::StartStream { role: RENDER }, StartError::StreamStartFailed),
    ];
    for (call, error) in failures {
        let mut engine = AudioCapture::new();
        let mut platform = FakePlatform::failing_at(call);
        assert_eq!(start(&mut engine, &mut platform, 2_000_000), Err(error));
        assert_eq!(engine.phase(), Phase::Idle);
        assert!(platform.balanced(), "unbalanced after a failure of {:?}", call);
        assert_eq!(
            platform
                .count(PlatformCall::ActivateStream { device: DeviceHandle { id: 7 }, role: CAPTURE }),
            0
        );
        assert_eq!(platform.count(PlatformCall::NegotiateMixFormat { role: CAPTURE }), 0);
        let state = engine.state();
        assert_eq!(state.capture, None);
        assert_eq!(state.unwinding, Some(error));
    }
}

#[test]
fn start_failing_at_the_capture_session_releases_both() {
    let failures = [
        (
            PlatformCall::ActivateStream { device: DeviceHandle { id: 7 }, role: CAPTURE },
            StartError::StreamInitFailed,
        ),
        (PlatformCall::NegotiateMixFormat { role: CAPTURE }, StartError::StreamInitFailed),
        (
            PlatformCall::InitializeStream {
                role: CAPTURE,
                loopback: true,
                buffer_duration: 2_000_000,
                format: capture_format(),
            },
            StartError::StreamInitFailed,
        ),
        (PlatformCall::StartStream { role: CAPTURE }, StartError::StreamStartFailed),
    ];
    for (call, error) in failures {
        let mut engine = AudioCapture::new();
        let mut platform = FakePlatform::failing_at(call);
        assert_eq!(start(&mut engine, &mut platform, 2_000_000), Err(error));
        assert_eq!(engine.phase(), Phase::Idle);
        assert!(platform.balanced(), "unbalanced after a failure of {:?}", call);
        assert_eq!(platform.count(PlatformCall::StopStream { role: RENDER }), 1);
        assert_eq!(platform.count(PlatformCall::ReleaseStream { role: RENDER }), 1);
    }
}

#[test]
fn start_with_a_counter_that_cannot_be_used_fails() {
    let mut engine = AudioCapture::new();
    let mut platform = FakePlatform::new();
    platform.counter_frequency = 0;
    assert_eq!(
        start(&mut engine, &mut platform, 2_000_000),
        Err(StartError::StreamStartFailed)
    );
    assert_eq!(engine.phase(), Phase::Idle);
    assert!(platform.balanced());
    assert!(
        platform.place(PlatformCall::StopStream { role: CAPTURE })
            < platform.place(PlatformCall::StopStream { role: RENDER })
    );
}

#[test]
fn a_failed_start_can_be_tried_again() {
    let mut engine = AudioCapture::new();
    let mut platform = FakePlatform::failing_at(PlatformCall::StartStream { role: CAPTURE });
    assert_eq!(
        start(&mut engine, &mut platform, 2_000_000),
        Err(StartError::StreamStartFailed)
    );
    platform.failing.clear();
    assert_eq!(start(&mut engine, &mut platform, 2_000_000), Ok(()));
    assert_eq!(engine.phase(), Phase::Running);
    assert_eq!(stop(&mut engine, &mut platform), Ok(()));
    assert!(platform.balanced());
}

#[test]
fn three_polls_without_activity_return_none() {
    let (mut engine, mut platform) = running();
    for _ in 0..3 {
        assert_eq!(pull(&mut engine, &mut platform), Ok(None));
        assert_eq!(engine.phase(), Phase::Running);
    }
    assert_eq!(platform.calls, vec![PlatformCall::NextCapturePacket; 3]);
    assert_eq!(engine.position(), 0);
    assert!(engine.can_pull());
}

#[test]
fn pulls_return_strictly_increasing_timestamps() {
    let (mut engine, mut platform) = running();
    platform.push_packet(480, BufferFlags::Clear, 0);
    platform.push_packet(480, BufferFlags::Clear, 480);
    platform.packets.push_back(PlatformReply::NoPacket);
    platform.push_packet(480, BufferFlags::Clear, 960);
    let first = pull(&mut engine, &mut platform).unwrap().unwrap();
    let second = pull(&mut engine, &mut platform).unwrap().unwrap();
    assert_eq!(pull(&mut engine, &mut platform), Ok(None));
    let third = pull(&mut engine, &mut platform).unwrap().unwrap();
    assert_eq!(first.timestamp, Duration { nanos: 0 });
    assert_eq!(second.timestamp, Duration { nanos: 48_000 });
    assert_eq!(third.timestamp, Duration { nanos: 96_000 });
    assert!(first.timestamp.as_nanos() < second.timestamp.as_nanos());
    assert!(second.timestamp.as_nanos() < third.timestamp.as_nanos());
}

#[test]
fn the_first_buffer_is_stamped_with_the_start() {
    let (mut engine, mut platform) = running();
    platform.push_packet(100, BufferFlags::Clear, 5_000_000);
    platform.push_packet(100, BufferFlags::Clear, 5_000_100);
    let first = pull(&mut engine, &mut platform).unwrap().unwrap();
    assert_eq!(
        first,
        TimestampedBuffer { frames: 100, flags: BufferFlags::Clear, timestamp: Duration { nanos: 0 } }
    );
    let second = pull(&mut engine, &mut platform).unwrap().unwrap();
    assert_eq!(second.timestamp, Duration { nanos: 500_010_000 });
}

#[test]
fn every_buffer_is_released_before_the_next_is_acquired() {
    let (mut engine, mut platform) = running();
    platform.push_packet(10, BufferFlags::Clear, 0);
    platform.push_packet(10, BufferFlags::Silent, 10);
    platform.push_packet(10, BufferFlags::Clear, 20);
    for _ in 0..3 {
        assert!(pull(&mut engine, &mut platform).unwrap().is_some());
    }
    assert_eq!(
        platform.calls,
        vec![
            PlatformCall::NextCapturePacket,
            PlatformCall::ReleaseCaptureBuffer,
            PlatformCall::NextCapturePacket,
            PlatformCall::ReleaseCaptureBuffer,
            PlatformCall::NextCapturePacket,
            PlatformCall::ReleaseCaptureBuffer,
        ]
    );
    assert_eq!(platform.buffers_held, 0);
}

#[test]
fn releases_match_the_buffers_handed_out() {
    let (mut engine, mut platform) = running();
    platform.packets.push_back(PlatformReply::NoPacket);
    platform.push_packet(10, BufferFlags::Clear, 0);
    platform.packets.push_back(PlatformReply::NoPacket);
    platform.packets.push_back(PlatformReply::NoPacket);
    platform.push_packet(20, BufferFlags::Silent, 10);
    platform.push_packet(30, BufferFlags::Clear, 30);
    platform.packets.push_back(PlatformReply::NoPacket);
    let mut handed_out: usize = 0;
    for _ in 0..7 {
        if pull(&mut engine, &mut platform).unwrap().is_some() {
            handed_out += 1;
        }
        assert_eq!(platform.buffers_held, 0);
        assert_eq!(engine.state().capture.unwrap().held, None);
    }
    assert_eq!(handed_out, 3);
    assert_eq!(platform.count(PlatformCall::NextCapturePacket), 7);
    assert_eq!(platform.count(PlatformCall::ReleaseCaptureBuffer), 3);
    assert_eq!(
        platform.calls,
        vec![
            PlatformCall::NextCapturePacket,
            PlatformCall::NextCapturePacket,
            PlatformCall::ReleaseCaptureBuffer,
            PlatformCall::NextCapturePacket,
            PlatformCall::NextCapturePacket,
            PlatformCall::NextCapturePacket,
            PlatformCall::ReleaseCaptureBuffer,
            PlatformCall::NextCapturePacket,
            PlatformCall::ReleaseCaptureBuffer,
            PlatformCall::NextCapturePacket,
        ]
    );
    assert_eq!(engine.position(), 60);
}

#[test]
fn silent_frames_advance_the_position() {
    let (mut engine, mut platform) = running();
    platform.push_packet(480, BufferFlags::Clear, 0);
    platform.push_packet(441, BufferFlags::Silent, 480);
    let _ = pull(&mut engine, &mut platform);
    assert_eq!(engine.position(), 480);
    let silent = pull(&mut engine, &mut platform).unwrap().unwrap();
    assert_eq!(silent.flags, BufferFlags::Silent);
    assert_eq!(silent.frames, 441);
    assert_eq!(silent.timestamp, Duration { nanos: 48_000 });
    assert_eq!(engine.position(), 921);
}

#[test]
fn a_position_that_cannot_be_counted_is_a_fault() {
    let (mut engine, mut platform) = running();
    platform.push_packet(u64::MAX, BufferFlags::Clear, 0);
    platform.push_packet(1, BufferFlags::Clear, 1);
    assert!(pull(&mut engine, &mut platform).unwrap().is_some());
    assert_eq!(engine.position(), u64::MAX);
    platform.calls.clear();
    assert_eq!(pull(&mut engine, &mut platform), Err(CaptureError::CaptureFault));
    assert_eq!(
        platform.calls,
        vec![PlatformCall::NextCapturePacket, PlatformCall::ReleaseCaptureBuffer]
    );
    assert_eq!(platform.buffers_held, 0);
    assert_eq!(engine.state().capture.unwrap().held, None);
    assert_eq!(engine.phase(), Phase::Stopped);
    assert_eq!(engine.position(), u64::MAX);
    assert_eq!(stop(&mut engine, &mut platform), Ok(()));
    assert_eq!(platform.count(PlatformCall::ReleaseCaptureBuffer), 1);
    assert!(platform.balanced());
}

#[test]
fn start_takes_any_counter_value() {
    let mut engine = AudioCapture::new();
    let mut platform = FakePlatform::new();
    platform.counter_value = -42;
    assert_eq!(start(&mut engine, &mut platform, 2_000_000), Ok(()));
    assert_eq!(engine.phase(), Phase::Running);
    assert_eq!(
        engine.timebase(),
        Some(TimebaseSnapshot {
            reference_counter_value: -42,
            counter_frequency: 10_000_000,
            start_position: 0,
        })
    );
    let state = engine.state();
    assert!(!state.first_buffer_seen);
    assert_eq!(state.render.unwrap().stream, Some(StreamState::Started));
    assert_eq!(state.capture.unwrap().stream, Some(StreamState::Started));
    assert_eq!(state.capture.unwrap().format, Some(capture_format()));
    platform.push_packet(10, BufferFlags::Clear, 0);
    platform.push_packet(10, BufferFlags::Clear, 10);
    assert!(pull(&mut engine, &mut platform).unwrap().is_some());
    assert_eq!(
        pull(&mut engine, &mut platform).unwrap().unwrap().timestamp,
        Duration { nanos: 1_000 }
    );
    assert_eq!(stop(&mut engine, &mut platform), Ok(()));
    assert!(platform.balanced());
}

#[test]
fn a_release_that_fails_is_a_fault() {
    let (mut engine, mut platform) = running();
    platform.push_packet(10, BufferFlags::Clear, 0);
    platform.failing.push(PlatformCall::ReleaseCaptureBuffer);
    assert_eq!(pull(&mut engine, &mut platform), Err(CaptureError::CaptureFault));
    assert_eq!(engine.phase(), Phase::Stopped);
    assert_eq!(engine.position(), 0);
    platform.failing.clear();
    assert_eq!(stop(&mut engine, &mut platform), Ok(()));
    assert!(platform.balanced());
}

#[test]
fn a_device_that_disappears_faults_the_next_pull() {
    let (mut engine, mut platform) = running();
    platform.push_packet(10, BufferFlags::Clear, 0);
    assert!(pull(&mut engine, &mut platform).unwrap().is_some());
    platform.device = None;
    assert_eq!(pull(&mut engine, &mut platform), Err(CaptureError::CaptureFault));
    assert_eq!(engine.phase(), Phase::Stopped);
    assert!(!engine.can_pull());
    assert_eq!(engine.awaited(), None);
}

#[test]
fn stop_after_a_fault_still_releases_the_render_session() {
    let (mut engine, mut platform) = running();
    platform.device = None;
    assert_eq!(pull(&mut engine, &mut platform), Err(CaptureError::CaptureFault));
    platform.calls.clear();
    platform.failing.push(PlatformCall::StopStream { role: CAPTURE });
    platform.failing.push(PlatformCall::ReleaseStream { role: CAPTURE });
    assert!(engine.can_stop());
    assert_eq!(
        stop(&mut engine, &mut platform),
        Err(StopError::StopFailed(StopFailures {
            capture_stop: true,
            capture_stream: true,
            ..StopFailures::new()
        }))
    );
    assert_eq!(
        platform.calls,
        vec![
            PlatformCall::StopStream { role: CAPTURE },
            PlatformCall::StopStream { role: RENDER },
            PlatformCall::ReleaseFormat { role: RENDER },
            PlatformCall::ReleaseStream { role: RENDER },
            PlatformCall::ReleaseFormat { role: CAPTURE },
            PlatformCall::ReleaseStream { role: CAPTURE },
        ]
    );
    assert_eq!(engine.phase(), Phase::Stopped);
    assert!(!engine.can_stop());
    let state = engine.state();
    assert_eq!(state.render.unwrap().stream, Some(StreamState::Released));
    assert_eq!(state.render.unwrap().format, None);
}

#[test]
fn stop_attempts_every_step_and_reports_all_failures() {
    let (mut engine, mut platform) = running();
    platform.failing = vec![
        PlatformCall::StopStream { role: CAPTURE },
        PlatformCall::StopStream { role: RENDER },
        PlatformCall::ReleaseFormat { role: RENDER },
        PlatformCall::ReleaseStream { role: RENDER },
        PlatformCall::ReleaseFormat { role: CAPTURE },
        PlatformCall::ReleaseStream { role: CAPTURE },
    ];
    assert_eq!(
        stop(&mut engine, &mut platform),
        Err(StopError::StopFailed(StopFailures {
            capture_buffer: false,
            capture_stop: true,
            capture_format: true,
            capture_stream: true,
            render_stop: true,
            render_format: true,
            render_stream: true,
        }))
    );
    assert_eq!(platform.calls.len(), 6);
    assert_eq!(engine.phase(), Phase::Stopped);
}

#[test]
fn stop_with_a_buffer_held_releases_it_first() {
    let (mut engine, mut platform) = running();
    platform.push_packet(10, BufferFlags::Clear, 0);
    let mut call = engine.pull();
    assert_eq!(call, PlatformCall::NextCapturePacket);
    let step = engine.resume_pull(platform.perform(call));
    assert_eq!(step, Step::Call(PlatformCall::ReleaseCaptureBuffer));
    assert_eq!(engine.phase(), Phase::Running);
    assert_eq!(engine.state().waiting, Waiting::Capture);
    assert_eq!(platform.buffers_held, 1);
    assert!(engine.can_stop());
    call = engine.stop();
    assert_eq!(call, PlatformCall::ReleaseCaptureBuffer);
    assert_eq!(engine.phase(), Phase::Stopping);
    let result = loop {
        match engine.resume_stop(platform.perform(call)) {
            Step::Call(next) => call = next,
            Step::Done(result) => break result,
        }
    };
    assert_eq!(result, Ok(()));
    assert_eq!(engine.phase(), Phase::Stopped);
    assert!(platform.balanced());
    assert!(
        platform.place(PlatformCall::ReleaseCaptureBuffer)
            < platform.place(PlatformCall::ReleaseStream { role: CAPTURE })
    );
    assert_eq!(platform.count(PlatformCall::ReleaseCaptureBuffer), 1);
}

#[test]
fn stop_cannot_begin_while_a_poll_is_unanswered() {
    let (mut engine, _platform) = running();
    let _ = engine.pull();
    assert!(!engine.can_stop());
    assert!(!engine.can_pull());
    assert_eq!(engine.awaited(), Some(PlatformCall::NextCapturePacket));
}

#[test]
fn a_stopped_engine_is_final() {
    let (mut engine, mut platform) = running();
    assert_eq!(stop(&mut engine, &mut platform), Ok(()));
    assert_eq!(engine.phase(), Phase::Stopped);
    assert!(!engine.can_pull());
    assert!(!engine.can_stop());
    assert_eq!(engine.awaited(), None);
    assert!(platform.balanced());
}

#[test]
fn stop_stops_capture_before_render() {
    let (mut engine, mut platform) = running();
    assert_eq!(stop(&mut engine, &mut platform), Ok(()));
    assert_eq!(
        platform.calls,
        vec![
            PlatformCall::StopStream { role: CAPTURE },
            PlatformCall::StopStream { role: RENDER },
            PlatformCall::ReleaseFormat { role: RENDER },
            PlatformCall::ReleaseStream { role: RENDER },
            PlatformCall::ReleaseFormat { role: CAPTURE },
            PlatformCall::ReleaseStream { role: CAPTURE },
        ]
    );
}
