//! Data model of the capture pipeline.

use vstd::prelude::*;
use vstd::string::StringExecFns;

verus! {

/// Sample rate, in Hz, of everything handed on for transcription.
pub const TARGET_SAMPLE_RATE: u32 = 16000;

/// Direction of an audio endpoint.
#[derive(Debug, Clone, Copy, PartialEq, Eq, Structural)]
pub enum DeviceType {
    /// An output endpoint; it is captured by listening to what it plays.
    Render,
    /// A true input endpoint.
    Capture,
}

/// How a device achieves loopback.
#[derive(Debug, Clone, Copy, PartialEq, Eq, Structural)]
pub enum LoopbackMethod {
    /// Loopback of an output endpoint, offered by the operating system.
    RenderLoopback,
    /// An input endpoint that records what the machine plays.
    StereoMix,
    /// An ordinary input endpoint.
    CaptureDevice,
}

/// One capturable audio endpoint.
#[derive(Debug)]
pub struct AudioLoopbackDevice {
    pub id: String,
    pub name: String,
    pub is_default: bool,
    pub sample_rate: u32,
    pub channels: u16,
    pub format: String,
    pub device_type: DeviceType,
    pub loopback_method: LoopbackMethod,
}

/// What an [`AudioLoopbackDevice`] holds, with its texts as sequences of
/// characters.
pub struct DeviceModel {
    pub id: Seq<char>,
    pub name: Seq<char>,
    pub is_default: bool,
    pub sample_rate: u32,
    pub channels: u16,
    pub format: Seq<char>,
    pub device_type: DeviceType,
    pub loopback_method: LoopbackMethod,
}

impl View for AudioLoopbackDevice {
    type V = DeviceModel;

    open spec fn view(&self) -> DeviceModel {
        DeviceModel {
            id: self.id@,
            name: self.name@,
            is_default: self.is_default,
            sample_rate: self.sample_rate,
            channels: self.channels,
            format: self.format@,
            device_type: self.device_type,
            loopback_method: self.loopback_method,
        }
    }
}

impl Clone for AudioLoopbackDevice {
    fn clone(&self) -> (r: Self)
        ensures
            r == *self,
    {
        AudioLoopbackDevice {
            id: self.id.clone(),
            name: self.name.clone(),
            is_default: self.is_default,
            sample_rate: self.sample_rate,
            channels: self.channels,
            format: self.format.clone(),
            device_type: self.device_type,
            loopback_method: self.loopback_method,
        }
    }
}

/// The models of a list of devices, in order.
pub open spec fn device_models(devices: Seq<AudioLoopbackDevice>) -> Seq<DeviceModel> {
    Seq::new(devices.len(), |i: int| devices[i]@)
}

/// Why a capture could not be started or went down.
#[derive(Debug, Clone, Copy, PartialEq, Eq, Structural)]
pub enum CaptureError {
    /// A capture session is already starting, running or being stopped.
    AlreadyCapturing,
    /// The requested device is not among the enumerated ones.
    DeviceNotFound,
    /// The audio subsystem refused a request.
    BackendError,
    /// The platform has no audio loopback at all.
    UnsupportedPlatform,
    /// The platform cannot capture in the requested mode: an output device
    /// where only inputs can be captured.
    UnsupportedOperation,
    /// One read failed; it is tried again and not reported.
    TransientReadError,
    /// Too many reads failed in a row, or the stream's format cannot be used.
    FatalStreamError,
}

impl CaptureError {
    /// The text shown to the user for this error.
    pub open spec fn spec_message(self) -> Seq<char> {
        match self {
            CaptureError::AlreadyCapturing => "Audio capture already in progress"@,
            CaptureError::DeviceNotFound => "Device not found"@,
            CaptureError::BackendError => "Audio backend error"@,
            CaptureError::UnsupportedPlatform => "Audio loopback is not supported on this platform"@,
            CaptureError::UnsupportedOperation =>
                "macOS does not support direct output device capture. Please use a virtual audio device."@,
            CaptureError::TransientReadError => "Audio read failed, retrying"@,
            CaptureError::FatalStreamError => "Audio stream failed"@,
        }
    }

    /// Whether the error goes back to the caller of a start or an
    /// enumeration. Errors in the middle of a stream are logged; they are
    /// passed over or end the capture task, and no caller waits for them.
    pub open spec fn spec_is_surfaced(self) -> bool {
        self != CaptureError::TransientReadError && self != CaptureError::FatalStreamError
    }

    /// Whether the error goes back to the caller of a start or an
    /// enumeration.
    pub fn is_surfaced(&self) -> (r: bool)
        ensures
            r == self.spec_is_surfaced(),
    {
        match self {
            CaptureError::TransientReadError => false,
            CaptureError::FatalStreamError => false,
            _ => true,
        }
    }

    /// Whether the error ends the capture task. Only a fatal error of the
    /// stream does; a transient one never breaks the loop.
    pub fn ends_stream(&self) -> (r: bool)
        ensures
            r == (*self == CaptureError::FatalStreamError),
    {
        match self {
            CaptureError::FatalStreamError => true,
            _ => false,
        }
    }

    /// The text shown to the user for this error.
    pub fn message(&self) -> (r: String)
        ensures
            r@ == self.spec_message(),
    {
        match self {
            CaptureError::AlreadyCapturing => String::from_str("Audio capture already in progress"),
            CaptureError::DeviceNotFound => String::from_str("Device not found"),
            CaptureError::BackendError => String::from_str("Audio backend error"),
            CaptureError::UnsupportedPlatform => String::from_str(
                "Audio loopback is not supported on this platform",
            ),
            CaptureError::UnsupportedOperation => String::from_str(
                "macOS does not support direct output device capture. Please use a virtual audio device.",
            ),
            CaptureError::TransientReadError => String::from_str("Audio read failed, retrying"),
            CaptureError::FatalStreamError => String::from_str("Audio stream failed"),
        }
    }
}

} // verus!
