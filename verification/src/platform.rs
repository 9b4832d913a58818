//! The vocabulary shared with the platform's audio subsystem: the calls the
//! library asks for and the replies it takes back.
use vstd::prelude::*;

verus! {

/// The default output endpoint, as the platform named it when it was resolved.
#[derive(Clone, Copy, Debug, PartialEq, Eq, Structural)]
pub struct DeviceHandle {
    pub id: u64,
}

/// Which of the two streams of a capture a call is about.
#[derive(Clone, Copy, Debug, PartialEq, Eq, Structural)]
pub enum StreamRole {
    /// The playback stream that emits silence.
    Render,
    /// The loopback stream that is read back.
    Capture,
}

/// Where a stream stands in its life.
#[derive(Clone, Copy, Debug, PartialEq, Eq, Structural)]
pub enum StreamState {
    Created,
    Initialized,
    Started,
    Stopped,
    Released,
}

/// The mix format that the platform negotiated for a stream.
#[derive(Clone, Copy, Debug, PartialEq, Eq, Structural)]
pub struct WaveFormat {
    pub sample_rate: u32,
    pub channels: u16,
    pub bits_per_sample: u16,
    pub block_align: u16,
}

/// The status flags of a buffer.
#[derive(Clone, Copy, Debug, PartialEq, Eq, Structural)]
pub enum BufferFlags {
    /// No flag is set.
    Clear,
    /// The device produced no signal: the frames count as zero-valued samples.
    Silent,
}

/// A block of frames that the capture stream made available. It stands for
/// platform memory that is valid only until the block is released.
#[derive(Clone, Copy, Debug, PartialEq, Eq, Structural)]
pub struct BufferDescriptor {
    pub frames: u64,
    pub flags: BufferFlags,
    /// The device position of the block's first frame.
    pub position: u64,
}

/// One request to the platform's audio subsystem.
#[derive(Clone, Copy, Debug, PartialEq, Eq, Structural)]
pub enum PlatformCall {
    /// Resolve the default output device.
    EnumerateDefaultRenderDevice,
    /// Activate a stream on the device.
    ActivateStream { device: DeviceHandle, role: StreamRole },
    /// Ask for the stream's mix format; the descriptor is owned by the asker.
    NegotiateMixFormat { role: StreamRole },
    /// Initialize the stream in shared mode.
    InitializeStream { role: StreamRole, loopback: bool, buffer_duration: i64, format: WaveFormat },
    StartStream { role: StreamRole },
    StopStream { role: StreamRole },
    /// Acquire that many frames of the render stream's buffer.
    AcquireRenderBuffer { frames: u32 },
    /// Hand the acquired frames back, marked silent or not.
    ReleaseRenderBuffer { frames: u32, silent: bool },
    /// Poll the capture stream for its next packet.
    NextCapturePacket,
    /// Release the packet that the last poll handed out.
    ReleaseCaptureBuffer,
    /// Free the format descriptor of a stream.
    ReleaseFormat { role: StreamRole },
    /// Let go of a stream.
    ReleaseStream { role: StreamRole },
    MonotonicCounterValue,
    MonotonicCounterFrequency,
}

/// What the platform answered to a call.
#[derive(Clone, Copy, Debug, PartialEq, Eq, Structural)]
pub enum PlatformReply {
    /// The call succeeded and has nothing to return.
    Done,
    /// The call failed.
    Failed,
    Device(DeviceHandle),
    Format(WaveFormat),
    Packet(BufferDescriptor),
    /// The capture stream has no packet ready.
    NoPacket,
    Counter(i64),
}

/// How an operation goes on after a reply: with another call, or not at all.
#[derive(Debug, PartialEq, Eq)]
pub enum Step<T> {
    /// The operation needs this call answered next.
    Call(PlatformCall),
    /// The operation is over, with this result.
    Done(T),
}

impl PlatformReply {
    /// Whether the reply reports plain success.
    pub fn is_done(&self) -> (done: bool)
        ensures
            done == (*self == PlatformReply::Done),
    {
        match self {
            PlatformReply::Done => true,
            _ => false,
        }
    }
}

} // verus!
