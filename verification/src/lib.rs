//! Loopback capture of the audio mix that the default output device is
//! rendering, as a machine that decides and never touches the platform.
//!
//! The engine and its two stream sessions hand out one [`PlatformCall`] at a
//! time and take the platform's [`PlatformReply`] back. Whoever embeds the
//! engine performs the calls; everything that is decided between two calls is
//! decided here, and proved.
use vstd::prelude::*;

pub mod capture;
pub mod endpoint;
pub mod engine;
pub mod error;
pub mod guarantees;
pub mod platform;
pub mod render;
pub mod timebase;

pub use capture::LoopbackCaptureSession;
pub use endpoint::PlatformAudioEndpoint;
pub use engine::{AudioCapture, EngineState, Phase, TimestampedBuffer, Waiting};
pub use error::{CaptureError, StartError, StopError, StopFailures};
pub use platform::{
    BufferDescriptor, BufferFlags, DeviceHandle, PlatformCall, PlatformReply, Step, StreamRole,
    StreamState, WaveFormat,
};
pub use render::SilentRenderSession;
pub use timebase::{Duration, TimebaseSnapshot};

verus! {

/// The sum of two counts.
pub fn add(left: u64, right: u64) -> (sum: u64)
    requires
        left + right <= u64::MAX,
    ensures
        sum == left + right,
{
    left + right
}

} // verus!
