//! What holds of the engine whatever the platform answers: the order and
//! the time of the buffers it hands out, and what it owns when an
//! operation has ended.
use crate::capture::{CaptureOp, CaptureState};
use crate::engine::{EngineState, Phase, TimestampedBuffer, Waiting};
use crate::error::{CaptureError, StartError, StopFailures};
use crate::platform::{
    BufferDescriptor, DeviceHandle, PlatformCall, PlatformReply, Step, StreamRole, StreamState,
    WaveFormat,
};
use crate::render::{Priming, RenderOp, RenderState, RENDER_BUFFER_DURATION};
use crate::timebase::{TimebaseSnapshot, NANOS_PER_SECOND};
use vstd::prelude::*;

verus! {

/// A pull that finds no buffer ready reports `None` and leaves the engine
/// exactly as it was before the pull: running, and waiting for nothing.
pub proof fn empty_pull_changes_nothing(engine: EngineState)
    requires
        engine.wf(),
        engine.phase == Phase::Running,
        engine.waiting == Waiting::Nothing,
    ensures
        engine.polling().awaited() == Some(PlatformCall::NextCapturePacket),
        engine.polling().after_pull(PlatformReply::NoPacket) == engine,
        engine.polling().pull_result(PlatformReply::NoPacket) == Ok::<Option<TimestampedBuffer>, CaptureError>(
            None,
        ),
{
}

/// A buffer that a pull hands out adds exactly its frames to the engine's
/// position, whether it is flagged silent or not, and keeps its frame count
/// and its flags. It is handed out only after the platform's buffer was
/// released.
pub proof fn frames_count_silent_or_not(engine: EngineState, buffer: BufferDescriptor)
    requires
        engine.wf(),
        engine.phase == Phase::Running,
        engine.waiting == Waiting::Nothing,
        engine.position + buffer.frames <= u64::MAX,
    ensures
        ({
            let acquired = engine.polling().after_pull(PlatformReply::Packet(buffer));
            let handed = acquired.after_pull(PlatformReply::Done);
            &&& acquired.wf()
            &&& acquired.awaited() == Some(PlatformCall::ReleaseCaptureBuffer)
            &&& acquired.pull_result(PlatformReply::Done) == Ok::<
                Option<TimestampedBuffer>,
                CaptureError,
            >(Some(engine.stamp(buffer)))
            &&& engine.stamp(buffer).frames == buffer.frames
            &&& engine.stamp(buffer).flags == buffer.flags
            &&& handed.wf()
            &&& handed.phase == Phase::Running
            &&& handed.waiting == Waiting::Nothing
            &&& handed.first_buffer_seen
            &&& handed.position == engine.position + buffer.frames
            &&& handed.timebase == engine.timebase
        }),
{
}

/// Of two buffers that the engine hands out one after the other, the
/// second carries the later timestamp: time never stands still or runs
/// back between them. This is stated for a device that reports the second
/// buffer at a later position than the first, and for a counter that ticks
/// no faster than once a nanosecond, the resolution of a timestamp.
pub proof fn timestamps_increase(
    engine: EngineState,
    first: BufferDescriptor,
    second: BufferDescriptor,
)
    requires
        engine.wf(),
        engine.phase == Phase::Running,
        engine.waiting == Waiting::Nothing,
        first.position < second.position,
        engine.timebase matches Some(snapshot) && snapshot.counter_frequency <= NANOS_PER_SECOND,
        engine.position + first.frames <= u64::MAX,
    ensures
        ({
            let between = engine.polling().after_pull(PlatformReply::Packet(first)).after_pull(
                PlatformReply::Done,
            );
            engine.stamp(first).timestamp@ < between.stamp(second).timestamp@
        }),
{
    frames_count_silent_or_not(engine, first);
    let snapshot = engine.timebase.unwrap();
    if engine.first_buffer_seen {
        snapshot.elapsed_is_strictly_monotonic(first.position, second.position);
    } else {
        snapshot.elapsed_is_strictly_monotonic(0, second.position);
    }
    snapshot.elapsed_fits(first.position);
    snapshot.elapsed_fits(second.position);
}

/// A pull keeps the engine sound whatever the platform answers. It ends in
/// an error exactly when it leaves the engine stopped; the engine then
/// still owns its streams, so that a stop can release them.
pub proof fn a_fault_stops_the_engine(engine: EngineState, reply: PlatformReply)
    requires
        engine.wf(),
        engine.phase == Phase::Running,
        engine.waiting == Waiting::Capture,
    ensures
        ({
            let next = engine.after_pull(reply);
            let step = next.step(engine.pull_result(reply));
            &&& next.wf()
            &&& step is Call ==> next.phase == Phase::Running && next.releasing()
            &&& step matches Step::Done(Ok(_)) ==> next.phase == Phase::Running && next.waiting
                == Waiting::Nothing
            &&& (step matches Step::Done(Err(_))) <==> next.phase == Phase::Stopped
            &&& next.phase == Phase::Stopped ==> next.can_stop()
        }),
{
}

/// One pull makes one poll. If the poll brings a packet, exactly one
/// release follows before the pull ends, whatever the packet holds; if it
/// brings none, no release is asked for. A pull that ends without an error
/// leaves no buffer held, and so does every pull whose release succeeded.
pub proof fn a_pull_releases_what_it_acquired(
    engine: EngineState,
    polled: PlatformReply,
    released: PlatformReply,
)
    requires
        engine.wf(),
        engine.phase == Phase::Running,
        engine.waiting == Waiting::Nothing,
    ensures
        ({
            let acquired = engine.polling().after_pull(polled);
            let ended = acquired.after_pull(released);
            &&& engine.polling().awaited() == Some(PlatformCall::NextCapturePacket)
            &&& polled is Packet ==> {
                &&& acquired.awaited() == Some(PlatformCall::ReleaseCaptureBuffer)
                &&& acquired.phase == Phase::Running
                &&& acquired.held() == Some(polled->Packet_0)
                &&& ended.awaited() is None
                &&& ended.wf()
                &&& released == PlatformReply::Done ==> ended.held() is None
                &&& acquired.pull_result(released) is Ok <==> released == PlatformReply::Done
                    && engine.counts(polled->Packet_0)
                &&& acquired.pull_result(released) is Ok <==> ended.phase == Phase::Running
            }
            &&& !(polled is Packet) ==> {
                &&& acquired.awaited() is None
                &&& acquired.wf()
                &&& acquired.held() is None
                &&& engine.polling().pull_result(polled) is Ok <==> polled
                    == PlatformReply::NoPacket
                &&& engine.polling().pull_result(polled) is Ok <==> acquired.phase
                    == Phase::Running
            }
        }),
{
}

/// The platform's answers to one pull: to the poll, and to the release
/// that follows where the poll brought a packet.
pub struct PullReplies {
    pub polled: PlatformReply,
    pub released: PlatformReply,
}

/// The engine after one whole pull.
pub open spec fn after_whole_pull(engine: EngineState, replies: PullReplies) -> EngineState {
    let acquired = engine.polling().after_pull(replies.polled);
    if replies.polled is Packet {
        acquired.after_pull(replies.released)
    } else {
        acquired
    }
}

/// The calls that one whole pull makes, each with its answer.
pub open spec fn exchanges_of_pull(replies: PullReplies) -> Seq<(PlatformCall, PlatformReply)> {
    if replies.polled is Packet {
        seq![
            (PlatformCall::NextCapturePacket, replies.polled),
            (PlatformCall::ReleaseCaptureBuffer, replies.released),
        ]
    } else {
        seq![(PlatformCall::NextCapturePacket, replies.polled)]
    }
}

/// Whether one whole pull hands a buffer out.
pub open spec fn hands_out(engine: EngineState, replies: PullReplies) -> bool {
    &&& replies.polled is Packet
    &&& replies.released == PlatformReply::Done
    &&& engine.counts(replies.polled->Packet_0)
}

/// Whether one whole pull ends without an error: with a buffer, or with
/// none because none was ready.
pub open spec fn pull_succeeds(engine: EngineState, replies: PullReplies) -> bool {
    replies.polled == PlatformReply::NoPacket || hands_out(engine, replies)
}

/// The engine after pulls made one after the other. No pull is made once
/// the engine runs no more.
pub open spec fn after_pulls(engine: EngineState, pulls: Seq<PullReplies>) -> EngineState
    decreases pulls.len(),
{
    if pulls.len() == 0 {
        engine
    } else {
        let before = after_pulls(engine, pulls.drop_last());
        if before.phase == Phase::Running {
            after_whole_pull(before, pulls.last())
        } else {
            before
        }
    }
}

/// The calls, each with its answer, of pulls made one after the other.
pub open spec fn exchanges_of_pulls(engine: EngineState, pulls: Seq<PullReplies>) -> Seq<
    (PlatformCall, PlatformReply),
>
    decreases pulls.len(),
{
    if pulls.len() == 0 {
        Seq::empty()
    } else {
        let so_far = exchanges_of_pulls(engine, pulls.drop_last());
        if after_pulls(engine, pulls.drop_last()).phase == Phase::Running {
            so_far + exchanges_of_pull(pulls.last())
        } else {
            so_far
        }
    }
}

/// How many buffers pulls made one after the other hand out.
pub open spec fn handed_out(engine: EngineState, pulls: Seq<PullReplies>) -> nat
    decreases pulls.len(),
{
    if pulls.len() == 0 {
        0
    } else {
        let before = after_pulls(engine, pulls.drop_last());
        let now: nat = if before.phase == Phase::Running && hands_out(before, pulls.last()) {
            1
        } else {
            0
        };
        handed_out(engine, pulls.drop_last()) + now
    }
}

/// Whether each of the pulls made one after the other ends without an
/// error.
pub open spec fn all_succeed(engine: EngineState, pulls: Seq<PullReplies>) -> bool
    decreases pulls.len(),
{
    pulls.len() == 0 || {
        &&& all_succeed(engine, pulls.drop_last())
        &&& after_pulls(engine, pulls.drop_last()).phase == Phase::Running
        &&& pull_succeeds(after_pulls(engine, pulls.drop_last()), pulls.last())
    }
}

/// Whether an exchange acquires a buffer: a poll that brought a packet.
pub open spec fn acquires(exchange: (PlatformCall, PlatformReply)) -> bool {
    exchange.0 == PlatformCall::NextCapturePacket && exchange.1 is Packet
}

/// Whether an exchange is the release of a buffer.
pub open spec fn releases(exchange: (PlatformCall, PlatformReply)) -> bool {
    exchange.0 == PlatformCall::ReleaseCaptureBuffer
}

/// Whether a log of exchanges acquires and releases in turn: it holds
/// polls and releases only, every acquisition is followed at once by a
/// release, and every release follows an acquisition at once. So no two
/// acquisitions are without a release between them, no release follows an
/// empty poll or another release, and at the end nothing is acquired and
/// unreleased.
pub open spec fn alternates(log: Seq<(PlatformCall, PlatformReply)>) -> bool {
    forall|i: int|
        0 <= i < log.len() ==> {
            &&& (#[trigger] log[i]).0 == PlatformCall::NextCapturePacket || releases(log[i])
            &&& acquires(log[i]) ==> i + 1 < log.len() && releases(log[i + 1])
            &&& releases(log[i]) ==> i > 0 && acquires(log[i - 1])
        }
}

/// How many releases a log of exchanges holds.
pub open spec fn releases_in(log: Seq<(PlatformCall, PlatformReply)>) -> nat
    decreases log.len(),
{
    if log.len() == 0 {
        0
    } else {
        let last: nat = if releases(log.last()) {
            1
        } else {
            0
        };
        releases_in(log.drop_last()) + last
    }
}

/// Every buffer is released before the next is acquired, over any number
/// of pulls and whatever the platform answers: the calls of the pulls,
/// read as a log, acquire and release in turn. The engine stays sound and
/// waits for nothing between two pulls. Where every pull ends without an
/// error the engine still runs and holds no buffer, and the log holds as
/// many releases as buffers were handed out: none after an empty poll, and
/// none twice.
pub proof fn pulls_acquire_and_release_in_turn(engine: EngineState, pulls: Seq<PullReplies>)
    requires
        engine.wf(),
        engine.phase == Phase::Running,
        engine.waiting == Waiting::Nothing,
    ensures
        after_pulls(engine, pulls).wf(),
        after_pulls(engine, pulls).waiting == Waiting::Nothing,
        alternates(exchanges_of_pulls(engine, pulls)),
        all_succeed(engine, pulls) ==> {
            &&& after_pulls(engine, pulls).phase == Phase::Running
            &&& after_pulls(engine, pulls).held() is None
            &&& releases_in(exchanges_of_pulls(engine, pulls)) == handed_out(engine, pulls)
        },
    decreases pulls.len(),
{
    if pulls.len() > 0 {
        let earlier = pulls.drop_last();
        pulls_acquire_and_release_in_turn(engine, earlier);
        let before = after_pulls(engine, earlier);
        let so_far = exchanges_of_pulls(engine, earlier);
        if before.phase == Phase::Running {
            let replies = pulls.last();
            a_pull_releases_what_it_acquired(before, replies.polled, replies.released);
            let now = exchanges_of_pull(replies);
            let log = so_far + now;
            assert(log == exchanges_of_pulls(engine, pulls));
            assert forall|i: int| 0 <= i < log.len() implies {
                &&& (#[trigger] log[i]).0 == PlatformCall::NextCapturePacket || releases(log[i])
                &&& acquires(log[i]) ==> i + 1 < log.len() && releases(log[i + 1])
                &&& releases(log[i]) ==> i > 0 && acquires(log[i - 1])
            } by {
                if i < so_far.len() {
                    assert(log[i] == so_far[i]);
                    if acquires(so_far[i]) {
                        assert(log[i + 1] == so_far[i + 1]);
                    }
                    if releases(so_far[i]) {
                        assert(log[i - 1] == so_far[i - 1]);
                    }
                } else {
                    let j = i - so_far.len();
                    assert(log[i] == now[j]);
                    if j == 0 {
                        if acquires(now[0]) {
                            assert(log[i + 1] == now[1]);
                        }
                    } else {
                        assert(log[i - 1] == now[0]);
                    }
                }
            }
            if replies.polled is Packet {
                assert(log.drop_last() =~= so_far.push(now[0]));
                assert(so_far.push(now[0]).drop_last() =~= so_far);
                assert(releases_in(log) == releases_in(so_far) + 1) by {
                    reveal_with_fuel(releases_in, 3);
                }
            } else {
                assert(log.drop_last() =~= so_far);
                assert(releases_in(log) == releases_in(so_far)) by {
                    reveal_with_fuel(releases_in, 2);
                }
            }
        }
    }
}

/// The engine asks for the next buffer only while it holds none, and for a
/// release only while it holds one.
pub proof fn acquisitions_and_releases_alternate(engine: EngineState)
    requires
        engine.wf(),
    ensures
        engine.awaited() == Some(PlatformCall::NextCapturePacket) ==> engine.held() is None,
        engine.awaited() == Some(PlatformCall::ReleaseCaptureBuffer) ==> engine.held() is Some,
{
}

/// Each stream is used in the order of its life, and the two in the order
/// that keeps the loopback path alive. A buffer is asked for only from a
/// capture stream that is started. The capture stream is started only
/// while the render stream runs, and the render stream is stopped only
/// when the capture stream runs no more. A stream is let go, and the
/// capture session's format freed, only when the stream does not run.
pub proof fn streams_are_used_in_order(engine: EngineState)
    requires
        engine.wf(),
    ensures
        engine.awaited() == Some(PlatformCall::NextCapturePacket) ==> engine.capture.unwrap().stream
            == Some(StreamState::Started),
        engine.awaited() == Some(PlatformCall::StartStream { role: StreamRole::Capture })
            ==> engine.render.unwrap().stream == Some(StreamState::Started),
        engine.awaited() == Some(PlatformCall::StopStream { role: StreamRole::Render })
            ==> !engine.capture_runs(),
        engine.awaited() == Some(PlatformCall::ReleaseStream { role: StreamRole::Render })
            ==> engine.render.unwrap().stream != Some(StreamState::Started),
        engine.awaited() == Some(PlatformCall::ReleaseStream { role: StreamRole::Capture })
            ==> engine.capture.unwrap().stream != Some(StreamState::Started),
        engine.awaited() == Some(PlatformCall::ReleaseFormat { role: StreamRole::Capture })
            ==> engine.capture.unwrap().stream != Some(StreamState::Started),
{
}

/// Between a start and a stop the formats do not change: a pull leaves
/// both sessions' formats, and the whole render session, as they were.
pub proof fn a_pull_keeps_the_formats(engine: EngineState, reply: PlatformReply)
    requires
        engine.wf(),
        engine.phase == Phase::Running,
        engine.waiting == Waiting::Capture,
    ensures
        engine.after_pull(reply).render == engine.render,
        engine.after_pull(reply).capture.unwrap().format == engine.capture.unwrap().format,
        engine.after_pull(reply).capture.unwrap().stream == engine.capture.unwrap().stream,
        engine.after_pull(reply).timebase == engine.timebase,
{
}

/// During a pull the buffer that is held changes in two ways only: the
/// reply to a poll brings one where none was held, and the successful
/// reply to a release takes it away. So every buffer is released before
/// the next is acquired.
pub proof fn a_buffer_is_held_from_poll_to_release(engine: EngineState, reply: PlatformReply)
    requires
        engine.wf(),
        engine.phase == Phase::Running,
        engine.waiting == Waiting::Capture,
    ensures
        ({
            let before = engine.held();
            let after = engine.after_pull(reply).held();
            before != after ==> {
                ||| before is None && after is Some && engine.awaited() == Some(
                    PlatformCall::NextCapturePacket,
                ) && reply == PlatformReply::Packet(after.unwrap())
                ||| before is Some && after is None && engine.awaited() == Some(
                    PlatformCall::ReleaseCaptureBuffer,
                ) && reply == PlatformReply::Done
            }
        }),
{
}

/// Every operation begins on a sound engine and leaves it sound, with a
/// call to make: a start on an idle engine, a pull on a running one, a
/// stop on one that can be stopped. A teardown that begins has at most
/// seven calls to make.
pub proof fn operations_begin_sound(engine: EngineState, buffer_duration: i64)
    requires
        engine.wf(),
    ensures
        engine.phase == Phase::Idle ==> engine.starting(buffer_duration).wf() && engine.starting(
            buffer_duration,
        ).awaited() == Some(PlatformCall::EnumerateDefaultRenderDevice),
        engine.phase == Phase::Running && engine.waiting == Waiting::Nothing
            ==> engine.polling().wf() && engine.polling().awaited() == Some(
            PlatformCall::NextCapturePacket,
        ),
        engine.can_stop() ==> engine.stopping().wf() && engine.stopping().phase == Phase::Stopping
            && engine.stopping().awaited() is Some,
        engine.calls_left() <= 7,
{
}

/// A start that succeeds makes its calls in one order: the device is
/// resolved; the render stream is activated, its format negotiated, the
/// stream initialized with a buffer of one second and no flag, the whole
/// buffer acquired and handed back as silence, and the stream started; only
/// then the capture stream is activated on the same device, its format
/// negotiated, the stream initialized in loopback mode with the duration
/// asked for, and started; and then the counter and its frequency are read.
/// After that the engine runs, at position zero, with the snapshot of the
/// two readings.
pub proof fn start_runs_in_order(
    engine: EngineState,
    buffer_duration: i64,
    device: DeviceHandle,
    render_format: WaveFormat,
    capture_format: WaveFormat,
    counter_value: i64,
    counter_frequency: i64,
)
    requires
        engine.wf(),
        engine.phase == Phase::Idle,
        counter_frequency > 0,
    ensures
        ({
            let s0 = engine.starting(buffer_duration);
            let s1 = s0.after_start(PlatformReply::Device(device));
            let s2 = s1.after_start(PlatformReply::Done);
            let s3 = s2.after_start(PlatformReply::Format(render_format));
            let s4 = s3.after_start(PlatformReply::Done);
            let s5 = s4.after_start(PlatformReply::Done);
            let s6 = s5.after_start(PlatformReply::Done);
            let s7 = s6.after_start(PlatformReply::Done);
            let s8 = s7.after_start(PlatformReply::Done);
            let s9 = s8.after_start(PlatformReply::Format(capture_format));
            let s10 = s9.after_start(PlatformReply::Done);
            let s11 = s10.after_start(PlatformReply::Done);
            let s12 = s11.after_start(PlatformReply::Counter(counter_value));
            let s13 = s12.after_start(PlatformReply::Counter(counter_frequency));
            &&& s0.awaited() == Some(PlatformCall::EnumerateDefaultRenderDevice)
            &&& s1.awaited() == Some(
                PlatformCall::ActivateStream { device, role: StreamRole::Render },
            )
            &&& s2.awaited() == Some(PlatformCall::NegotiateMixFormat { role: StreamRole::Render })
            &&& s3.awaited() == Some(
                PlatformCall::InitializeStream {
                    role: StreamRole::Render,
                    loopback: false,
                    buffer_duration: RENDER_BUFFER_DURATION,
                    format: render_format,
                },
            )
            &&& s4.awaited() == Some(
                PlatformCall::AcquireRenderBuffer { frames: render_format.sample_rate },
            )
            &&& s5.awaited() == Some(
                PlatformCall::ReleaseRenderBuffer {
                    frames: render_format.sample_rate,
                    silent: true,
                },
            )
            &&& s6.awaited() == Some(PlatformCall::StartStream { role: StreamRole::Render })
            &&& s7.awaited() == Some(
                PlatformCall::ActivateStream { device, role: StreamRole::Capture },
            )
            &&& s8.awaited() == Some(
                PlatformCall::NegotiateMixFormat { role: StreamRole::Capture },
            )
            &&& s9.awaited() == Some(
                PlatformCall::InitializeStream {
                    role: StreamRole::Capture,
                    loopback: true,
                    buffer_duration,
                    format: capture_format,
                },
            )
            &&& s10.awaited() == Some(PlatformCall::StartStream { role: StreamRole::Capture })
            &&& s11.awaited() == Some(PlatformCall::MonotonicCounterValue)
            &&& s12.awaited() == Some(PlatformCall::MonotonicCounterFrequency)
            &&& s13.awaited() is None
            &&& s13.start_result() is Ok
            &&& s13.wf()
            &&& s13.phase == Phase::Running
            &&& s13.position == 0
            &&& !s13.first_buffer_seen
            &&& s13.timebase == Some(
                TimebaseSnapshot {
                    reference_counter_value: counter_value,
                    counter_frequency,
                    start_position: 0,
                },
            )
        }),
{
    let s0 = engine.starting(buffer_duration);
    let s1 = s0.after_start(PlatformReply::Device(device));
    assert(s1 == (EngineState {
        render: Some(RenderState::opening(device)),
        waiting: Waiting::Render,
        ..s0
    })) by {
        reveal(EngineState::after_start);
    }
    render_opens(s1, device, render_format);
    let s4 = s1.after_start(PlatformReply::Done).after_start(
        PlatformReply::Format(render_format),
    ).after_start(PlatformReply::Done);
    render_primes(s4, device, render_format);
    let s7 = s4.after_start(PlatformReply::Done).after_start(PlatformReply::Done).after_start(
        PlatformReply::Done,
    );
    capture_opens(s7, device, capture_format);
    let s11 = s7.after_start(PlatformReply::Done).after_start(
        PlatformReply::Format(capture_format),
    ).after_start(PlatformReply::Done).after_start(PlatformReply::Done);
    counter_is_read(s11, counter_value, counter_frequency);
}

/// The two readings of the counter, the frequency positive.
proof fn counter_is_read(s11: EngineState, counter_value: i64, counter_frequency: i64)
    requires
        s11.wf(),
        s11.phase == Phase::Starting,
        s11.unwinding is None,
        s11.waiting == Waiting::CounterValue,
        counter_frequency > 0,
    ensures
        ({
            let s12 = s11.after_start(PlatformReply::Counter(counter_value));
            let s13 = s12.after_start(PlatformReply::Counter(counter_frequency));
            &&& s11.awaited() == Some(PlatformCall::MonotonicCounterValue)
            &&& s12.awaited() == Some(PlatformCall::MonotonicCounterFrequency)
            &&& s13 == (EngineState {
                phase: Phase::Running,
                waiting: Waiting::Nothing,
                counter_value,
                timebase: Some(
                    TimebaseSnapshot {
                        reference_counter_value: counter_value,
                        counter_frequency,
                        start_position: 0,
                    },
                ),
                ..s11
            })
            &&& s13.wf()
        }),
{
    reveal(EngineState::after_start);
}

/// The render session of a start under way, as the model holds it.
spec fn render_at(
    device: DeviceHandle,
    stream: Option<StreamState>,
    format: Option<WaveFormat>,
    priming: Priming,
    op: RenderOp,
) -> RenderState {
    RenderState { device, stream, format, priming, op, failures: StopFailures::none() }
}

/// The capture session of a start under way, as the model holds it.
spec fn capture_at(
    device: DeviceHandle,
    buffer_duration: i64,
    stream: Option<StreamState>,
    format: Option<WaveFormat>,
    op: CaptureOp,
) -> CaptureState {
    CaptureState {
        device,
        buffer_duration,
        stream,
        format,
        held: None,
        op,
        failures: StopFailures::none(),
    }
}

/// The three calls that open the render session, all answered with
/// success.
proof fn render_opens(s1: EngineState, device: DeviceHandle, format: WaveFormat)
    requires
        s1.phase == Phase::Starting,
        s1.unwinding is None,
        s1.waiting == Waiting::Render,
        s1.render == Some(RenderState::opening(device)),
    ensures
        ({
            let s2 = s1.after_start(PlatformReply::Done);
            let s3 = s2.after_start(PlatformReply::Format(format));
            let s4 = s3.after_start(PlatformReply::Done);
            &&& s1.awaited() == Some(
                PlatformCall::ActivateStream { device, role: StreamRole::Render },
            )
            &&& s2.awaited() == Some(PlatformCall::NegotiateMixFormat { role: StreamRole::Render })
            &&& s3.awaited() == Some(
                PlatformCall::InitializeStream {
                    role: StreamRole::Render,
                    loopback: false,
                    buffer_duration: RENDER_BUFFER_DURATION,
                    format,
                },
            )
            &&& s4 == (EngineState {
                render: Some(
                    render_at(
                        device,
                        Some(StreamState::Initialized),
                        Some(format),
                        Priming::Untouched,
                        RenderOp::Priming,
                    ),
                ),
                ..s1
            })
        }),
{
    reveal(EngineState::after_start);
    let s2 = s1.after_start(PlatformReply::Done);
    let s3 = s2.after_start(PlatformReply::Format(format));
    assert(s2 == (EngineState {
        render: Some(
            render_at(
                device,
                Some(StreamState::Created),
                None,
                Priming::Untouched,
                RenderOp::Opening,
            ),
        ),
        ..s1
    }));
    assert(s3 == (EngineState {
        render: Some(
            render_at(
                device,
                Some(StreamState::Created),
                Some(format),
                Priming::Untouched,
                RenderOp::Opening,
            ),
        ),
        ..s1
    }));
}

/// The three calls that fill and start the render session, all answered
/// with success.
proof fn render_primes(s4: EngineState, device: DeviceHandle, format: WaveFormat)
    requires
        s4.phase == Phase::Starting,
        s4.unwinding is None,
        s4.waiting == Waiting::Render,
        s4.render == Some(
            render_at(
                device,
                Some(StreamState::Initialized),
                Some(format),
                Priming::Untouched,
                RenderOp::Priming,
            ),
        ),
    ensures
        ({
            let s5 = s4.after_start(PlatformReply::Done);
            let s6 = s5.after_start(PlatformReply::Done);
            let s7 = s6.after_start(PlatformReply::Done);
            &&& s4.awaited() == Some(PlatformCall::AcquireRenderBuffer { frames: format.sample_rate })
            &&& s5.awaited() == Some(
                PlatformCall::ReleaseRenderBuffer { frames: format.sample_rate, silent: true },
            )
            &&& s6.awaited() == Some(PlatformCall::StartStream { role: StreamRole::Render })
            &&& s7 == (EngineState {
                render: Some(
                    render_at(
                        device,
                        Some(StreamState::Started),
                        Some(format),
                        Priming::Filled,
                        RenderOp::Idle,
                    ),
                ),
                capture: Some(CaptureState::opening(device, s4.buffer_duration)),
                waiting: Waiting::Capture,
                ..s4
            })
        }),
{
    reveal(EngineState::after_start);
    let s5 = s4.after_start(PlatformReply::Done);
    let s6 = s5.after_start(PlatformReply::Done);
    assert(s5 == (EngineState {
        render: Some(
            render_at(
                device,
                Some(StreamState::Initialized),
                Some(format),
                Priming::Acquired,
                RenderOp::Priming,
            ),
        ),
        ..s4
    }));
    assert(s6 == (EngineState {
        render: Some(
            render_at(
                device,
                Some(StreamState::Initialized),
                Some(format),
                Priming::Filled,
                RenderOp::Priming,
            ),
        ),
        ..s4
    }));
}

/// The four calls that open and start the capture session, all answered
/// with success.
proof fn capture_opens(s7: EngineState, device: DeviceHandle, format: WaveFormat)
    requires
        s7.phase == Phase::Starting,
        s7.unwinding is None,
        s7.waiting == Waiting::Capture,
        s7.capture == Some(CaptureState::opening(device, s7.buffer_duration)),
    ensures
        ({
            let s8 = s7.after_start(PlatformReply::Done);
            let s9 = s8.after_start(PlatformReply::Format(format));
            let s10 = s9.after_start(PlatformReply::Done);
            let s11 = s10.after_start(PlatformReply::Done);
            &&& s7.awaited() == Some(
                PlatformCall::ActivateStream { device, role: StreamRole::Capture },
            )
            &&& s8.awaited() == Some(
                PlatformCall::NegotiateMixFormat { role: StreamRole::Capture },
            )
            &&& s9.awaited() == Some(
                PlatformCall::InitializeStream {
                    role: StreamRole::Capture,
                    loopback: true,
                    buffer_duration: s7.buffer_duration,
                    format,
                },
            )
            &&& s10.awaited() == Some(PlatformCall::StartStream { role: StreamRole::Capture })
            &&& s11 == (EngineState {
                capture: Some(
                    capture_at(
                        device,
                        s7.buffer_duration,
                        Some(StreamState::Started),
                        Some(format),
                        CaptureOp::Idle,
                    ),
                ),
                waiting: Waiting::CounterValue,
                ..s7
            })
        }),
{
    reveal(EngineState::after_start);
    let s8 = s7.after_start(PlatformReply::Done);
    let s9 = s8.after_start(PlatformReply::Format(format));
    let s10 = s9.after_start(PlatformReply::Done);
    assert(s8 == (EngineState {
        capture: Some(
            capture_at(
                device,
                s7.buffer_duration,
                Some(StreamState::Created),
                None,
                CaptureOp::Opening,
            ),
        ),
        ..s7
    }));
    assert(s9 == (EngineState {
        capture: Some(
            capture_at(
                device,
                s7.buffer_duration,
                Some(StreamState::Created),
                Some(format),
                CaptureOp::Opening,
            ),
        ),
        ..s7
    }));
    assert(s10 == (EngineState {
        capture: Some(
            capture_at(
                device,
                s7.buffer_duration,
                Some(StreamState::Initialized),
                Some(format),
                CaptureOp::Starting,
            ),
        ),
        ..s7
    }));
}

/// What a reply during a start leaves behind, in one statement for every
/// stage of the start.
spec fn start_step_holds(engine: EngineState, reply: PlatformReply) -> bool {
    let next = engine.after_start(reply);
    &&& next.wf()
    &&& next.step(next.start_result()) is Call <==> next.phase == Phase::Starting
    &&& next.step(next.start_result()) == Step::Done(Ok::<(), StartError>(())) <==> next.phase
        == Phase::Running
    &&& next.step(next.start_result()) matches Step::Done(Err(error)) ==> next.phase
        == Phase::Idle && next.unwinding == Some(error)
    &&& next.phase == Phase::Idle ==> !next.outstanding()
    &&& engine.unwinding is None && next.unwinding is Some && (engine.waiting == Waiting::Endpoint
        || engine.waiting == Waiting::Render) ==> next.capture is None
}

proof fn start_step_at_render(engine: EngineState, reply: PlatformReply)
    requires
        engine.wf(),
        engine.phase == Phase::Starting,
        engine.unwinding is None,
        engine.waiting == Waiting::Render,
    ensures
        start_step_holds(engine, reply),
{
    reveal(EngineState::after_start);
}

proof fn start_step_at_capture(engine: EngineState, reply: PlatformReply)
    requires
        engine.wf(),
        engine.phase == Phase::Starting,
        engine.unwinding is None,
        engine.waiting == Waiting::Capture,
    ensures
        start_step_holds(engine, reply),
{
    reveal(EngineState::after_start);
}

proof fn start_step_at_counter(engine: EngineState, reply: PlatformReply)
    requires
        engine.wf(),
        engine.phase == Phase::Starting,
        engine.unwinding is None,
        engine.waiting == Waiting::Endpoint || engine.waiting == Waiting::CounterValue
            || engine.waiting == Waiting::CounterFrequency,
    ensures
        start_step_holds(engine, reply),
{
    reveal(EngineState::after_start);
}

/// A teardown stays sound whatever the platform answers, and comes to an
/// end: every reply leaves one call fewer to make. It goes on in the same
/// phase while a call is awaited, and when none is left the engine owns
/// nothing, idle after a failed start and stopped after a stop.
pub proof fn teardown_stays_sound(engine: EngineState, reply: PlatformReply)
    requires
        engine.wf(),
        engine.tearing_down(),
    ensures
        ({
            let next = engine.after_teardown(reply);
            &&& next.wf()
            &&& engine.calls_left() > 0
            &&& next.calls_left() == engine.calls_left() - 1
            &&& next.waiting == Waiting::Nothing <==> next.calls_left() == 0
            &&& next.unwinding == engine.unwinding
            &&& next.awaited() is Some <==> next.waiting != Waiting::Nothing
            &&& next.waiting != Waiting::Nothing ==> next.phase == engine.phase
            &&& next.waiting == Waiting::Nothing ==> !next.outstanding() && next.phase == (if engine.phase
                == Phase::Starting {
                Phase::Idle
            } else {
                Phase::Stopped
            })
        }),
{
    if engine.waiting == Waiting::Render {
        teardown_step_at_render(engine, reply);
    } else {
        teardown_step_at_capture(engine, reply);
    }
}

spec fn teardown_step_holds(engine: EngineState, reply: PlatformReply) -> bool {
    let next = engine.after_teardown(reply);
    &&& next.wf()
    &&& engine.calls_left() > 0
    &&& next.calls_left() == engine.calls_left() - 1
    &&& next.waiting == Waiting::Nothing <==> next.calls_left() == 0
    &&& next.unwinding == engine.unwinding
    &&& next.awaited() is Some <==> next.waiting != Waiting::Nothing
    &&& next.waiting != Waiting::Nothing ==> next.phase == engine.phase
    &&& next.waiting == Waiting::Nothing ==> !next.outstanding() && next.phase == (if engine.phase
        == Phase::Starting {
        Phase::Idle
    } else {
        Phase::Stopped
    })
}

proof fn teardown_step_at_render(engine: EngineState, reply: PlatformReply)
    requires
        engine.wf(),
        engine.tearing_down(),
        engine.waiting == Waiting::Render,
    ensures
        teardown_step_holds(engine, reply),
{
    reveal(EngineState::after_teardown);
}

proof fn teardown_step_at_capture(engine: EngineState, reply: PlatformReply)
    requires
        engine.wf(),
        engine.tearing_down(),
        engine.waiting == Waiting::Capture,
    ensures
        teardown_step_holds(engine, reply),
{
    reveal(EngineState::after_teardown);
}

/// A start goes forward exactly as long as every call succeeds. The first
/// reply that is not the success of the awaited call dooms the start, to
/// `DeviceUnavailable` at the enumeration, to `StreamInitFailed` at an
/// activation, a negotiation or an initialization, and to
/// `StreamStartFailed` at the fill, at the start of a stream and at the
/// counter.
pub proof fn a_start_fails_at_the_first_failure(engine: EngineState, reply: PlatformReply)
    requires
        engine.wf(),
        engine.phase == Phase::Starting,
        engine.doomed() is None,
    ensures
        engine.awaited() is Some,
        engine.granted(reply) <==> engine.after_start(reply).doomed() is None,
        !engine.granted(reply) ==> engine.after_start(reply).doomed() == Some(
            EngineState::failure_at(engine.awaited().unwrap()),
        ),
{
    if engine.waiting == Waiting::Render {
        first_failure_at_render(engine, reply);
    } else if engine.waiting == Waiting::Capture {
        first_failure_at_capture(engine, reply);
    } else {
        reveal(EngineState::after_start);
    }
}

proof fn first_failure_at_render(engine: EngineState, reply: PlatformReply)
    requires
        engine.wf(),
        engine.phase == Phase::Starting,
        engine.doomed() is None,
        engine.waiting == Waiting::Render,
    ensures
        engine.awaited() is Some,
        engine.granted(reply) <==> engine.after_start(reply).doomed() is None,
        !engine.granted(reply) ==> engine.after_start(reply).doomed() == Some(
            EngineState::failure_at(engine.awaited().unwrap()),
        ),
{
    reveal(EngineState::after_start);
}

proof fn first_failure_at_capture(engine: EngineState, reply: PlatformReply)
    requires
        engine.wf(),
        engine.phase == Phase::Starting,
        engine.doomed() is None,
        engine.waiting == Waiting::Capture,
    ensures
        engine.awaited() is Some,
        engine.granted(reply) <==> engine.after_start(reply).doomed() is None,
        !engine.granted(reply) ==> engine.after_start(reply).doomed() == Some(
            EngineState::failure_at(engine.awaited().unwrap()),
        ),
{
    reveal(EngineState::after_start);
}

/// A start that is doomed stays so, whatever the platform answers while
/// it releases what it had created, and reports that very error when it
/// ends. With the law before this one: a start returns `Ok` exactly when
/// each of its calls was answered with success and the frequency read was
/// positive, and else the error of the first call that was not.
pub proof fn a_doomed_start_reports_its_error(engine: EngineState, reply: PlatformReply)
    requires
        engine.wf(),
        engine.phase == Phase::Starting,
        engine.doomed() is Some,
    ensures
        engine.after_start(reply).doomed() == engine.doomed(),
        engine.after_start(reply).phase != Phase::Running,
        engine.after_start(reply).phase == Phase::Idle ==> engine.after_start(
            reply,
        ).start_result() == Err::<(), StartError>(engine.doomed().unwrap()),
{
    if engine.unwinding is Some {
        assert(engine.after_start(reply) == engine.after_teardown(reply)) by {
            reveal(EngineState::after_start);
        }
        teardown_stays_sound(engine, reply);
    } else if engine.waiting == Waiting::Render {
        doomed_at_render(engine, reply);
    } else {
        doomed_at_capture(engine, reply);
    }
}

proof fn doomed_at_render(engine: EngineState, reply: PlatformReply)
    requires
        engine.wf(),
        engine.phase == Phase::Starting,
        engine.unwinding is None,
        engine.doomed() is Some,
        engine.waiting == Waiting::Render,
    ensures
        engine.after_start(reply).doomed() == engine.doomed(),
        engine.after_start(reply).phase != Phase::Running,
        engine.after_start(reply).phase == Phase::Idle ==> engine.after_start(
            reply,
        ).start_result() == Err::<(), StartError>(engine.doomed().unwrap()),
{
    reveal(EngineState::after_start);
}

proof fn doomed_at_capture(engine: EngineState, reply: PlatformReply)
    requires
        engine.wf(),
        engine.phase == Phase::Starting,
        engine.unwinding is None,
        engine.doomed() is Some,
        engine.waiting == Waiting::Capture,
    ensures
        engine.after_start(reply).doomed() == engine.doomed(),
        engine.after_start(reply).phase != Phase::Running,
        engine.after_start(reply).phase == Phase::Idle ==> engine.after_start(
            reply,
        ).start_result() == Err::<(), StartError>(engine.doomed().unwrap()),
{
    reveal(EngineState::after_start);
}

/// A start that fails leaves nothing behind. Whatever the platform
/// answers during a start, the engine stays sound; when the start has
/// ended in an error the engine is idle and owns no stream, no format and
/// no buffer; and a start that fails before the render session runs has
/// never asked for a capture stream.
pub proof fn failed_start_owns_nothing(engine: EngineState, reply: PlatformReply)
    requires
        engine.wf(),
        engine.phase == Phase::Starting,
    ensures
        ({
            let next = engine.after_start(reply);
            &&& next.wf()
            &&& next.step(next.start_result()) is Call <==> next.phase == Phase::Starting
            &&& next.step(next.start_result()) == Step::Done(Ok::<(), StartError>(()))
                <==> next.phase == Phase::Running
            &&& next.step(next.start_result()) matches Step::Done(Err(error)) ==> next.phase
                == Phase::Idle && next.unwinding == Some(error)
            &&& next.phase == Phase::Idle ==> !next.outstanding()
            &&& engine.unwinding is None && next.unwinding is Some && (engine.waiting
                == Waiting::Endpoint || engine.waiting == Waiting::Render) ==> next.capture is None
        }),
{
    if engine.unwinding is Some {
        assert(engine.after_start(reply) == engine.after_teardown(reply)) by {
            reveal(EngineState::after_start);
        }
        teardown_stays_sound(engine, reply);
    } else if engine.waiting == Waiting::Render {
        start_step_at_render(engine, reply);
    } else if engine.waiting == Waiting::Capture {
        start_step_at_capture(engine, reply);
    } else {
        start_step_at_counter(engine, reply);
    }
}

/// A stop makes every call of the teardown, whatever the earlier ones
/// answered: the capture stream is stopped, after the release of a buffer
/// that is still held; the render stream is stopped, its format freed and
/// its stream let go, however the capture stream's stop ended; then the
/// capture session's format is freed and its stream let go. After the last
/// reply the engine is stopped and owns nothing, and the stop reports
/// exactly the calls that did not answer with success, or success where
/// all of them did.
pub proof fn stop_runs_every_step(
    engine: EngineState,
    buffer_released: PlatformReply,
    capture_stopped: PlatformReply,
    render_stopped: PlatformReply,
    render_format_freed: PlatformReply,
    render_released: PlatformReply,
    capture_format_freed: PlatformReply,
    capture_released: PlatformReply,
)
    requires
        engine.wf(),
        engine.can_stop(),
    ensures
        ({
            let s0 = engine.stopping();
            let s1 = if engine.held() is Some {
                s0.after_teardown(buffer_released)
            } else {
                s0
            };
            let s2 = s1.after_teardown(capture_stopped);
            let s3 = s2.after_teardown(render_stopped);
            let s4 = s3.after_teardown(render_format_freed);
            let s5 = s4.after_teardown(render_released);
            let s6 = s5.after_teardown(capture_format_freed);
            let s7 = s6.after_teardown(capture_released);
            &&& engine.held() is Some ==> s0.awaited() == Some(PlatformCall::ReleaseCaptureBuffer)
            &&& s1.awaited() == Some(PlatformCall::StopStream { role: StreamRole::Capture })
            &&& s2.awaited() == Some(PlatformCall::StopStream { role: StreamRole::Render })
            &&& s3.awaited() == Some(PlatformCall::ReleaseFormat { role: StreamRole::Render })
            &&& s4.awaited() == Some(PlatformCall::ReleaseStream { role: StreamRole::Render })
            &&& s5.awaited() == Some(PlatformCall::ReleaseFormat { role: StreamRole::Capture })
            &&& s6.awaited() == Some(PlatformCall::ReleaseStream { role: StreamRole::Capture })
            &&& s7.awaited() is None
            &&& s7.wf()
            &&& s7.phase == Phase::Stopped
            &&& !s7.outstanding()
            &&& s7.failures == (StopFailures {
                capture_buffer: engine.held() is Some && buffer_released != PlatformReply::Done,
                capture_stop: capture_stopped != PlatformReply::Done,
                render_stop: render_stopped != PlatformReply::Done,
                render_format: render_format_freed != PlatformReply::Done,
                render_stream: render_released != PlatformReply::Done,
                capture_format: capture_format_freed != PlatformReply::Done,
                capture_stream: capture_released != PlatformReply::Done,
            })
            &&& s7.step(s7.failures.outcome()) == Step::Done(s7.failures.outcome())
        }),
{
    capture_stops(engine, buffer_released, capture_stopped);
    let s0 = engine.stopping();
    let s1 = if engine.held() is Some {
        s0.after_teardown(buffer_released)
    } else {
        s0
    };
    let s2 = s1.after_teardown(capture_stopped);
    render_stops(s2, render_stopped, render_format_freed, render_released);
    let s5 = s2.after_teardown(render_stopped).after_teardown(render_format_freed).after_teardown(
        render_released,
    );
    capture_closes(s5, capture_format_freed, capture_released);
}

/// Whether a teardown stands where both streams are stopped at most and
/// the render session is next.
spec fn render_is_next(s2: EngineState) -> bool {
    &&& s2.wf()
    &&& s2.phase == Phase::Stopping
    &&& s2.waiting == Waiting::Render
    &&& s2.render matches Some(r) && r.op == RenderOp::Stopping && r.stream == Some(
        StreamState::Started,
    ) && r.format is Some && r.failures == StopFailures::none()
    &&& s2.capture matches Some(c) && c.stream == Some(StreamState::Stopped) && c.format is Some
    &&& !s2.failures.render_stop && !s2.failures.render_format && !s2.failures.render_stream
    &&& !s2.failures.capture_format && !s2.failures.capture_stream
}

/// Whether a teardown stands where the render session is released and the
/// capture session is to be closed.
spec fn capture_is_last(s5: EngineState) -> bool {
    &&& s5.wf()
    &&& s5.phase == Phase::Stopping
    &&& s5.waiting == Waiting::Capture
    &&& s5.render matches Some(r) && r.holds_nothing()
    &&& s5.capture matches Some(c) && c.op == CaptureOp::Closing && c.stream == Some(
        StreamState::Stopped,
    ) && c.format is Some && c.failures == StopFailures::none()
    &&& !s5.failures.capture_format && !s5.failures.capture_stream
}

/// The first stage of a stop: the capture stream is stopped, after the
/// release of a buffer that is held.
proof fn capture_stops(
    engine: EngineState,
    buffer_released: PlatformReply,
    capture_stopped: PlatformReply,
)
    requires
        engine.wf(),
        engine.can_stop(),
    ensures
        ({
            let s0 = engine.stopping();
            let s1 = if engine.held() is Some {
                s0.after_teardown(buffer_released)
            } else {
                s0
            };
            let s2 = s1.after_teardown(capture_stopped);
            &&& engine.held() is Some ==> s0.awaited() == Some(PlatformCall::ReleaseCaptureBuffer)
            &&& s1.awaited() == Some(PlatformCall::StopStream { role: StreamRole::Capture })
            &&& s2.awaited() == Some(PlatformCall::StopStream { role: StreamRole::Render })
            &&& render_is_next(s2)
            &&& s2.failures == (StopFailures {
                capture_buffer: engine.held() is Some && buffer_released != PlatformReply::Done,
                capture_stop: capture_stopped != PlatformReply::Done,
                ..StopFailures::none()
            })
        }),
{
    reveal(EngineState::after_teardown);
    let s0 = engine.stopping();
    let s1 = if engine.held() is Some {
        s0.after_teardown(buffer_released)
    } else {
        s0
    };
    assert(s1.waiting == Waiting::Capture && s1.capture.unwrap().op == CaptureOp::Stopping
        && s1.capture.unwrap().held is None && s1.capture.unwrap().stream == Some(
        StreamState::Started,
    ));
}

/// The second stage of a stop: the render stream is stopped, its format
/// freed and its stream let go.
proof fn render_stops(
    s2: EngineState,
    render_stopped: PlatformReply,
    render_format_freed: PlatformReply,
    render_released: PlatformReply,
)
    requires
        render_is_next(s2),
    ensures
        ({
            let s3 = s2.after_teardown(render_stopped);
            let s4 = s3.after_teardown(render_format_freed);
            let s5 = s4.after_teardown(render_released);
            &&& s3.awaited() == Some(PlatformCall::ReleaseFormat { role: StreamRole::Render })
            &&& s4.awaited() == Some(PlatformCall::ReleaseStream { role: StreamRole::Render })
            &&& s5.awaited() == Some(PlatformCall::ReleaseFormat { role: StreamRole::Capture })
            &&& capture_is_last(s5)
            &&& s5.failures == (StopFailures {
                render_stop: render_stopped != PlatformReply::Done,
                render_format: render_format_freed != PlatformReply::Done,
                render_stream: render_released != PlatformReply::Done,
                ..s2.failures
            })
        }),
{
    reveal(EngineState::after_teardown);
    let s3 = s2.after_teardown(render_stopped);
    let s4 = s3.after_teardown(render_format_freed);
    assert(s3.waiting == Waiting::Render && s3.render.unwrap().stream == Some(
        StreamState::Stopped,
    ) && s3.render.unwrap().format is Some);
    assert(s4.waiting == Waiting::Render && s4.render.unwrap().stream == Some(
        StreamState::Stopped,
    ) && s4.render.unwrap().format is None);
}

/// The last stage of a stop: the capture session's format is freed and
/// its stream let go.
proof fn capture_closes(
    s5: EngineState,
    capture_format_freed: PlatformReply,
    capture_released: PlatformReply,
)
    requires
        capture_is_last(s5),
    ensures
        ({
            let s6 = s5.after_teardown(capture_format_freed);
            let s7 = s6.after_teardown(capture_released);
            &&& s6.awaited() == Some(PlatformCall::ReleaseStream { role: StreamRole::Capture })
            &&& s7.awaited() is None
            &&& s7.wf()
            &&& s7.phase == Phase::Stopped
            &&& !s7.outstanding()
            &&& s7.failures == (StopFailures {
                capture_format: capture_format_freed != PlatformReply::Done,
                capture_stream: capture_released != PlatformReply::Done,
                ..s5.failures
            })
        }),
{
    reveal(EngineState::after_teardown);
    let s6 = s5.after_teardown(capture_format_freed);
    assert(s6.waiting == Waiting::Capture && s6.capture.unwrap().op == CaptureOp::Closing
        && s6.capture.unwrap().format is None && s6.capture.unwrap().stream == Some(
        StreamState::Stopped,
    ));
}

} // verus!
