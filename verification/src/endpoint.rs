//! The platform's audio endpoint: where the default output device is
//! resolved.
use crate::error::StartError;
use crate::platform::{DeviceHandle, PlatformCall, PlatformReply};
use vstd::prelude::*;

verus! {

/// The place to ask for the default output device.
#[derive(Clone, Copy, Debug)]
pub struct PlatformAudioEndpoint;

impl PlatformAudioEndpoint {
    /// What the reply to the enumeration means: the device, or that there
    /// is none to be had.
    pub open spec fn resolved(reply: PlatformReply) -> Result<DeviceHandle, StartError> {
        match reply {
            PlatformReply::Device(device) => Ok(device),
            _ => Err(StartError::DeviceUnavailable),
        }
    }

    /// The call that resolves the default output device.
    pub fn resolve_default_render_device() -> (call: PlatformCall)
        ensures
            call == PlatformCall::EnumerateDefaultRenderDevice,
    {
        PlatformCall::EnumerateDefaultRenderDevice
    }

    /// Takes the reply to the enumeration: the handle of the default
    /// output device, or `DeviceUnavailable` where the platform named none.
    pub fn resume_resolve_default_render_device(reply: PlatformReply) -> (device: Result<
        DeviceHandle,
        StartError,
    >)
        ensures
            device == Self::resolved(reply),
    {
        match reply {
            PlatformReply::Device(device) => Ok(device),
            _ => Err(StartError::DeviceUnavailable),
        }
    }
}

} // verus!
