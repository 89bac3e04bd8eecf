//! Diagnostics of the audio pipeline: the log, the check of raw audio
//! against its format, and what each platform can do.

use crate::audio_loopback::audio_processor::{bytes_per_frame, spec_bytes_per_frame};
use crate::audio_loopback::platform::Platform;
use crate::text::{decimal, spec_decimal, texts};
use vstd::prelude::*;
use vstd::string::StringExecFns;

verus! {

/// What a platform can do for the capture of system audio.
#[derive(Debug, Clone)]
pub struct SystemAudioCapability {
    pub platform: String,
    pub has_native_loopback: bool,
    pub recommended_setup: String,
    pub limitations: Option<String>,
}

/// What a [`SystemAudioCapability`] holds.
pub struct CapabilityModel {
    pub platform: Seq<char>,
    pub has_native_loopback: bool,
    pub recommended_setup: Seq<char>,
    pub limitations: Option<Seq<char>>,
}

impl View for SystemAudioCapability {
    type V = CapabilityModel;

    open spec fn view(&self) -> CapabilityModel {
        CapabilityModel {
            platform: self.platform@,
            has_native_loopback: self.has_native_loopback,
            recommended_setup: self.recommended_setup@,
            limitations: match self.limitations {
                Some(s) => Some(s@),
                None => None,
            },
        }
    }
}

/// What each platform can do.
pub open spec fn spec_capability(platform: Platform) -> CapabilityModel {
    match platform {
        Platform::Windows => CapabilityModel {
            platform: "Windows"@,
            has_native_loopback: true,
            recommended_setup: "Use default system audio device"@,
            limitations: None,
        },
        Platform::MacOs => CapabilityModel {
            platform: "macOS"@,
            has_native_loopback: false,
            recommended_setup: "Install BlackHole or Loopback.app for system audio capture"@,
            limitations: Some(
                "Native macOS doesn't support system audio loopback. Only microphone input is available without additional software."@,
            ),
        },
        Platform::Other => CapabilityModel {
            platform: "Linux/Other"@,
            has_native_loopback: false,
            recommended_setup: "Use PulseAudio or ALSA loopback"@,
            limitations: Some("System audio capture varies by Linux distribution"@),
        },
    }
}

/// What the given platform can do for the capture of system audio.
pub fn check_system_audio_capability(platform: Platform) -> (r: SystemAudioCapability)
    ensures
        r@ == spec_capability(platform),
        r.has_native_loopback == platform.spec_has_native_loopback(),
{
    match platform {
        Platform::Windows => SystemAudioCapability {
            platform: String::from_str("Windows"),
            has_native_loopback: true,
            recommended_setup: String::from_str("Use default system audio device"),
            limitations: None,
        },
        Platform::MacOs => SystemAudioCapability {
            platform: String::from_str("macOS"),
            has_native_loopback: false,
            recommended_setup: String::from_str(
                "Install BlackHole or Loopback.app for system audio capture",
            ),
            limitations: Some(
                String::from_str(
                    "Native macOS doesn't support system audio loopback. Only microphone input is available without additional software.",
                ),
            ),
        },
        Platform::Other => SystemAudioCapability {
            platform: String::from_str("Linux/Other"),
            has_native_loopback: false,
            recommended_setup: String::from_str("Use PulseAudio or ALSA loopback"),
            limitations: Some(String::from_str("System audio capture varies by Linux distribution")),
        },
    }
}

/// Whether raw audio fits its format: it is not empty, a frame has at least
/// one byte, and the audio is a whole number of frames.
pub open spec fn spec_format_ok(len: nat, bits: u16, channels: u16) -> bool {
    &&& len > 0
    &&& spec_bytes_per_frame(bits, channels) > 0
    &&& len % spec_bytes_per_frame(bits, channels) == 0
}

/// What is said of audio that does not fit its format.
pub open spec fn spec_format_error(len: nat, bits: u16, channels: u16) -> Seq<char> {
    if len == 0 {
        "Empty audio data"@
    } else {
        "Audio data length "@ + spec_decimal(len) + " is not aligned to frame size "@
            + spec_decimal(spec_bytes_per_frame(bits, channels)) + " ("@ + spec_decimal(bits as nat)
            + "bit "@ + spec_decimal(channels as nat) + "ch)"@
    }
}

/// Checks raw audio against the format it is said to have.
pub fn validate_audio_format(data: &[u8], expected_bits: u16, expected_channels: u16) -> (r: Result<
    (),
    String,
>)
    ensures
        r is Ok <==> spec_format_ok(data@.len(), expected_bits, expected_channels),
        r matches Err(message) ==> message@ == spec_format_error(
            data@.len(),
            expected_bits,
            expected_channels,
        ),
{
    if data.len() == 0 {
        return Err(String::from_str("Empty audio data"));
    }
    let frame = bytes_per_frame(expected_bits, expected_channels);
    if frame == 0 || data.len() % frame != 0 {
        let message = String::from_str("Audio data length ").concat(
            decimal(data.len() as u64).as_str(),
        ).concat(" is not aligned to frame size ").concat(decimal(frame as u64).as_str()).concat(
            " (",
        ).concat(decimal(expected_bits as u64).as_str()).concat("bit ").concat(
            decimal(expected_channels as u64).as_str(),
        ).concat("ch)");
        return Err(message);
    }
    Ok(())
}

/// Milliseconds that `frames` frames last at the target rate of 16 kHz.
pub fn duration_ms(frames: usize) -> (r: usize)
    ensures
        r == frames / 16,
{
    frames / 16
}

/// One line of the log: the time in brackets, the category, a colon, the
/// message and, behind a bar, the data where there is any.
pub open spec fn spec_log_entry(
    timestamp: Seq<char>,
    category: Seq<char>,
    message: Seq<char>,
    data: Option<Seq<char>>,
) -> Seq<char> {
    let head = "["@ + timestamp + "] "@ + category + ": "@ + message;
    match data {
        Some(d) => head + " | "@ + d + "\n"@,
        None => head + "\n"@,
    }
}

/// One line of the log.
pub fn format_log_entry(timestamp: &str, category: &str, message: &str, data: Option<&str>) -> (r:
    String)
    ensures
        r@ == spec_log_entry(
            timestamp@,
            category@,
            message@,
            match data {
                Some(d) => Some(d@),
                None => None,
            },
        ),
{
    let head = String::from_str("[").concat(timestamp).concat("] ").concat(category).concat(
        ": ",
    ).concat(message);
    match data {
        Some(d) => head.concat(" | ").concat(d).concat("\n"),
        None => head.concat("\n"),
    }
}

/// The category under which an error of `category` is logged.
pub fn error_category(category: &str) -> (r: String)
    ensures
        r@ == "ERROR_"@ + category@,
{
    String::from_str("ERROR_").concat(category)
}

/// The category under which an attempt at transcription is logged.
pub fn transcription_category(success: bool) -> (r: &'static str)
    ensures
        r@ == if success {
            "TRANSCRIPTION_SUCCESS"@
        } else {
            "TRANSCRIPTION_FAILED"@
        },
{
    if success {
        "TRANSCRIPTION_SUCCESS"
    } else {
        "TRANSCRIPTION_FAILED"
    }
}

/// The first line of a log, with the time at which the session started.
pub open spec fn spec_log_header(started_at: Seq<char>) -> Seq<char> {
    "=== Audio Debug Session Started: "@ + started_at + " ===\n\n"@
}

/// The log of the audio pipeline. Lines are only ever added at its end; what
/// has not been written out yet waits here until it is flushed.
#[derive(Debug)]
pub struct AudioLogger {
    pending: Vec<String>,
}

impl View for AudioLogger {
    type V = Seq<Seq<char>>;

    /// The lines that wait to be written out, oldest first.
    closed spec fn view(&self) -> Seq<Seq<char>> {
        texts(self.pending@)
    }
}

/// A log that starts with its header.
pub fn init_audio_logger(started_at: &str) -> (r: AudioLogger)
    ensures
        r@ == seq![spec_log_header(started_at@)],
{
    let header = String::from_str("=== Audio Debug Session Started: ").concat(started_at).concat(
        " ===\n\n",
    );
    let mut pending: Vec<String> = Vec::new();
    pending.push(header);
    let r = AudioLogger { pending };
    assert(r@ =~= seq![spec_log_header(started_at@)]);
    r
}

/// Adds one line to the log and hands the line back, for the console.
pub fn log_audio_event(
    logger: &mut AudioLogger,
    timestamp: &str,
    category: &str,
    message: &str,
    data: Option<&str>,
) -> (r: String)
    ensures
        r@ == spec_log_entry(
            timestamp@,
            category@,
            message@,
            match data {
                Some(d) => Some(d@),
                None => None,
            },
        ),
        final(logger)@ == old(logger)@.push(r@),
{
    let entry = format_log_entry(timestamp, category, message, data);
    let ghost before = logger@;
    logger.pending.push(entry.clone());
    assert(logger@ =~= before.push(entry@));
    entry
}

/// Hands out the lines that wait to be written, oldest first, and leaves
/// none waiting.
pub fn flush_logs(logger: &mut AudioLogger) -> (r: Vec<String>)
    ensures
        texts(r@) == old(logger)@,
        final(logger)@ == Seq::<Seq<char>>::empty(),
{
    let mut out: Vec<String> = Vec::new();
    let ghost before = logger@;
    out.append(&mut logger.pending);
    assert(texts(out@) =~= before);
    assert(logger@ =~= Seq::<Seq<char>>::empty());
    out
}

} // verus!
