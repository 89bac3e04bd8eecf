//! The diagnosis of the audio system: what the platform can do, which
//! devices and transcription models are there, and what to advise.

use crate::audio_loopback::audio_diagnostics::SystemAudioCapability;
use crate::audio_loopback::encoding::{base64_encode, base64_standard};
use crate::audio_loopback::types::AudioLoopbackDevice;
use crate::text::{same_text, texts};
use vstd::prelude::*;
use vstd::string::StringExecFns;

verus! {

/// Whether a transcription model is there, and how large it is.
#[derive(Debug, Clone)]
pub struct WhisperModelStatus {
    pub model_name: String,
    pub available: bool,
    pub size_estimate: String,
}

/// The diagnosis of the audio system.
#[derive(Debug)]
pub struct AudioSystemDiagnosis {
    pub platform_capability: SystemAudioCapability,
    pub available_devices: Vec<AudioLoopbackDevice>,
    pub device_enumeration_error: Option<String>,
    pub whisper_models: Vec<WhisperModelStatus>,
    pub recommendations: Vec<String>,
}

/// The transcription models, from the smallest to the largest.
pub open spec fn spec_whisper_models() -> Seq<Seq<char>> {
    seq!["tiny"@, "base"@, "small"@, "medium"@, "large"@]
}

/// The transcription models, from the smallest to the largest.
pub fn whisper_models() -> (r: Vec<&'static str>)
    ensures
        r@.len() == 5,
        forall|i: int| 0 <= i < 5 ==> (#[trigger] r@[i])@ == spec_whisper_models()[i],
{
    let mut out: Vec<&'static str> = Vec::new();
    out.push("tiny");
    out.push("base");
    out.push("small");
    out.push("medium");
    out.push("large");
    out
}

/// The size of a transcription model, as shown to the user.
pub open spec fn spec_size_estimate(model: Seq<char>) -> Seq<char> {
    if model == "tiny"@ {
        "39 MB"@
    } else if model == "base"@ {
        "74 MB"@
    } else if model == "small"@ {
        "244 MB"@
    } else if model == "medium"@ {
        "769 MB"@
    } else if model == "large"@ {
        "1550 MB"@
    } else {
        "Unknown"@
    }
}

/// The size of a transcription model, as shown to the user.
pub fn size_estimate(model: &str) -> (r: &'static str)
    ensures
        r@ == spec_size_estimate(model@),
{
    if same_text(model, "tiny") {
        "39 MB"
    } else if same_text(model, "base") {
        "74 MB"
    } else if same_text(model, "small") {
        "244 MB"
    } else if same_text(model, "medium") {
        "769 MB"
    } else if same_text(model, "large") {
        "1550 MB"
    } else {
        "Unknown"
    }
}

/// The status of one transcription model.
pub fn whisper_model_status(model: &str, available: bool) -> (r: WhisperModelStatus)
    ensures
        r.model_name@ == model@,
        r.available == available,
        r.size_estimate@ == spec_size_estimate(model@),
{
    WhisperModelStatus {
        model_name: String::from_str(model),
        available,
        size_estimate: String::from_str(size_estimate(model)),
    }
}

/// What is advised about the devices: a word where none or only one was
/// found, and another where they could not be listed.
pub open spec fn spec_device_advice(device_count: Option<nat>) -> Seq<Seq<char>> {
    match device_count {
        Some(n) => if n == 0 {
            seq!["No audio devices found. Check system audio settings."@]
        } else if n == 1 {
            seq![
                "Only one audio device available. For best results, ensure it supports the intended audio source."@,
            ]
        } else {
            Seq::empty()
        },
        None => seq!["Cannot enumerate audio devices. Check audio driver installation."@],
    }
}

/// The advice that every diagnosis ends with.
pub open spec fn spec_standing_advice() -> Seq<Seq<char>> {
    seq![
        "Ensure Whisper models are downloaded for optimal transcription performance."@,
        "Test transcription with known audio to verify the pipeline is working."@,
    ]
}

/// All advice of a diagnosis: the setup for a platform without native
/// loopback, then the advice about the devices, then the standing advice.
pub open spec fn spec_recommendations(
    has_native_loopback: bool,
    recommended_setup: Seq<char>,
    device_count: Option<nat>,
) -> Seq<Seq<char>> {
    (if has_native_loopback {
        Seq::<Seq<char>>::empty()
    } else {
        seq![recommended_setup]
    }) + spec_device_advice(device_count) + spec_standing_advice()
}

/// The number of devices of an enumeration, or `None` where it failed.
pub open spec fn spec_device_count(device_result: Result<Vec<AudioLoopbackDevice>, String>) -> Option<
    nat,
> {
    match device_result {
        Ok(devices) => Some(devices@.len()),
        Err(_) => None,
    }
}

/// The advice for a platform and the outcome of the enumeration of devices.
pub fn generate_recommendations(
    capability: &SystemAudioCapability,
    device_result: &Result<Vec<AudioLoopbackDevice>, String>,
) -> (r: Vec<String>)
    ensures
        texts(r@) == spec_recommendations(
            capability.has_native_loopback,
            capability.recommended_setup@,
            spec_device_count(*device_result),
        ),
{
    let mut recommendations: Vec<String> = Vec::new();
    if !capability.has_native_loopback {
        recommendations.push(capability.recommended_setup.clone());
    }
    match device_result {
        Ok(devices) => {
            if devices.len() == 0 {
                recommendations.push(
                    String::from_str("No audio devices found. Check system audio settings."),
                );
            } else if devices.len() == 1 {
                recommendations.push(
                    String::from_str(
                        "Only one audio device available. For best results, ensure it supports the intended audio source.",
                    ),
                );
            }
        },
        Err(_) => {
            recommendations.push(
                String::from_str("Cannot enumerate audio devices. Check audio driver installation."),
            );
        },
    }
    recommendations.push(
        String::from_str(
            "Ensure Whisper models are downloaded for optimal transcription performance.",
        ),
    );
    recommendations.push(
        String::from_str("Test transcription with known audio to verify the pipeline is working."),
    );
    assert(texts(recommendations@) =~= spec_recommendations(
        capability.has_native_loopback,
        capability.recommended_setup@,
        spec_device_count(*device_result),
    ));
    recommendations
}

/// Puts a diagnosis together. A failed enumeration shows as no devices and
/// its error.
pub fn diagnose_audio_system(
    capability: SystemAudioCapability,
    device_result: Result<Vec<AudioLoopbackDevice>, String>,
    whisper_models: Vec<WhisperModelStatus>,
) -> (r: AudioSystemDiagnosis)
    ensures
        r.platform_capability == capability,
        r.whisper_models == whisper_models,
        texts(r.recommendations@) == spec_recommendations(
            capability.has_native_loopback,
            capability.recommended_setup@,
            spec_device_count(device_result),
        ),
        match device_result {
            Ok(devices) => r.available_devices == devices && r.device_enumeration_error is None,
            Err(e) => r.available_devices@.len() == 0 && r.device_enumeration_error == Some(e),
        },
{
    let recommendations = generate_recommendations(&capability, &device_result);
    match device_result {
        Ok(devices) => AudioSystemDiagnosis {
            platform_capability: capability,
            available_devices: devices,
            device_enumeration_error: None,
            whisper_models,
            recommendations,
        },
        Err(e) => AudioSystemDiagnosis {
            platform_capability: capability,
            available_devices: Vec::new(),
            device_enumeration_error: Some(e),
            whisper_models,
            recommendations,
        },
    }
}

/// Byte `k` (0 is the lower) of a signed 16-bit sample.
pub open spec fn pcm16_byte(x: i16, k: int) -> u8 {
    let u = if x < 0 {
        x + 65536
    } else {
        x as int
    };
    if k == 0 {
        (u % 256) as u8
    } else {
        (u / 256) as u8
    }
}

/// Signed 16-bit samples as bytes, each sample lower byte first.
pub open spec fn spec_pcm16_le_bytes(samples: Seq<i16>) -> Seq<u8> {
    Seq::new(2 * samples.len(), |i: int| pcm16_byte(samples[i / 2], i % 2))
}

/// Signed 16-bit samples as bytes, each sample lower byte first.
pub fn pcm16_to_le_bytes(samples: &[i16]) -> (r: Vec<u8>)
    ensures
        r@ == spec_pcm16_le_bytes(samples@),
{
    let mut out: Vec<u8> = Vec::new();
    let mut i: usize = 0;
    while i < samples.len()
        invariant
            i <= samples.len(),
            out@.len() == 2 * i,
            forall|j: int| 0 <= j < 2 * i ==> out@[j] == pcm16_byte(samples@[j / 2], j % 2),
        decreases samples.len() - i,
    {
        let x: i16 = samples[i];
        let u: i32 = if x < 0 {
            x as i32 + 65536
        } else {
            x as i32
        };
        out.push((u % 256) as u8);
        out.push((u / 256) as u8);
        i += 1;
    }
    assert(out@ =~= spec_pcm16_le_bytes(samples@));
    out
}

/// The audio of a transcription test on the wire: signed 16-bit samples,
/// little-endian, in base64.
pub fn encode_pcm16(samples: &[i16]) -> (r: String)
    requires
        samples@.len() * 8 <= usize::MAX,
    ensures
        r@ == base64_standard(spec_pcm16_le_bytes(samples@)),
{
    let bytes = pcm16_to_le_bytes(samples);
    base64_encode(bytes.as_slice())
}

} // verus!
