use enteract::audio_loopback::audio_diagnostics::{
    check_system_audio_capability, duration_ms, error_category, flush_logs, format_log_entry,
    init_audio_logger, log_audio_event, transcription_category, validate_audio_format,
};
use enteract::audio_loopback::diagnostics_commands::{
    diagnose_audio_system, generate_recommendations, size_estimate, whisper_model_status,
    whisper_models,
};
use enteract::audio_loopback::platform::Platform;
use enteract::audio_loopback::types::{AudioLoopbackDevice, CaptureError, DeviceType, LoopbackMethod};

fn device(id: &str) -> AudioLoopbackDevice {
    AudioLoopbackDevice {
        id: id.to_string(),
        name: id.to_string(),
        is_default: false,
        sample_rate: 48000,
        channels: 2,
        format: "f32".to_string(),
        device_type: DeviceType::Render,
        loopback_method: LoopbackMethod::RenderLoopback,
    }
}

#[test]
fn capability_of_each_platform() {
    let c = check_system_audio_capability(Platform::Windows);
    assert_eq!(c.platform, "Windows");
    assert!(c.has_native_loopback);
    assert_eq!(c.recommended_setup, "Use default system audio device");
    assert_eq!(c.limitations, None);
    let c = check_system_audio_capability(Platform::MacOs);
    assert_eq!(c.platform, "macOS");
    assert!(!c.has_native_loopback);
    assert_eq!(c.recommended_setup, "Install BlackHole or Loopback.app for system audio capture");
    assert_eq!(
        c.limitations.as_deref(),
        Some("Native macOS doesn't support system audio loopback. Only microphone input is available without additional software.")
    );
    let c = check_system_audio_capability(Platform::Other);
    assert_eq!(c.platform, "Linux/Other");
    assert!(!c.has_native_loopback);
    assert_eq!(c.recommended_setup, "Use PulseAudio or ALSA loopback");
    assert_eq!(c.limitations.as_deref(), Some("System audio capture varies by Linux distribution"));
}

#[test]
fn aligned_audio_is_accepted() {
    assert_eq!(validate_audio_format(&[0u8; 4096], 16, 2), Ok(()));
    assert_eq!(validate_audio_format(&[0u8; 8], 32, 2), Ok(()));
    assert_eq!(validate_audio_format(&[0u8; 2], 16, 1), Ok(()));
}

#[test]
fn empty_and_misaligned_audio_is_refused() {
    assert_eq!(validate_audio_format(&[], 16, 2), Err("Empty audio data".to_string()));
    assert_eq!(
        validate_audio_format(&[0u8; 4098], 16, 2),
        Err("Audio data length 4098 is not aligned to frame size 4 (16bit 2ch)".to_string())
    );
    assert_eq!(
        validate_audio_format(&[0u8; 7], 32, 1),
        Err("Audio data length 7 is not aligned to frame size 4 (32bit 1ch)".to_string())
    );
    assert_eq!(
        validate_audio_format(&[0u8; 8], 16, 0),
        Err("Audio data length 8 is not aligned to frame size 0 (16bit 0ch)".to_string())
    );
}

#[test]
fn durations_are_in_milliseconds_at_sixteen_kilohertz() {
    assert_eq!(duration_ms(16_000), 1000);
    assert_eq!(duration_ms(24_000), 1500);
    assert_eq!(duration_ms(15), 0);
}

#[test]
fn log_entries_have_their_form() {
    assert_eq!(
        format_log_entry("12:00:00.000", "CAPTURE", "Starting audio capture", None),
        "[12:00:00.000] CAPTURE: Starting audio capture\n"
    );
    assert_eq!(
        format_log_entry("12:00:00.001", "DEVICE", "Selected", Some("{\"channels\":2}")),
        "[12:00:00.001] DEVICE: Selected | {\"channels\":2}\n"
    );
    assert_eq!(error_category("CAPTURE"), "ERROR_CAPTURE");
    assert_eq!(transcription_category(true), "TRANSCRIPTION_SUCCESS");
    assert_eq!(transcription_category(false), "TRANSCRIPTION_FAILED");
}

#[test]
fn log_is_append_only_and_flush_empties_it() {
    let mut logger = init_audio_logger("2024-01-01 00:00:00 UTC");
    let first = log_audio_event(&mut logger, "t1", "A", "one", None);
    let second = log_audio_event(&mut logger, "t2", "B", "two", Some("{}"));
    assert_eq!(first, "[t1] A: one\n");
    assert_eq!(second, "[t2] B: two | {}\n");
    let lines = flush_logs(&mut logger);
    assert_eq!(
        lines,
        vec![
            "=== Audio Debug Session Started: 2024-01-01 00:00:00 UTC ===\n\n".to_string(),
            first,
            second
        ]
    );
    assert!(flush_logs(&mut logger).is_empty());
    log_audio_event(&mut logger, "t3", "C", "three", None);
    assert_eq!(flush_logs(&mut logger), vec!["[t3] C: three\n".to_string()]);
}

#[test]
fn whisper_models_and_their_sizes() {
    assert_eq!(whisper_models(), vec!["tiny", "base", "small", "medium", "large"]);
    assert_eq!(size_estimate("tiny"), "39 MB");
    assert_eq!(size_estimate("base"), "74 MB");
    assert_eq!(size_estimate("small"), "244 MB");
    assert_eq!(size_estimate("medium"), "769 MB");
    assert_eq!(size_estimate("large"), "1550 MB");
    assert_eq!(size_estimate("huge"), "Unknown");
    let status = whisper_model_status("small", true);
    assert_eq!(status.model_name, "small");
    assert!(status.available);
    assert_eq!(status.size_estimate, "244 MB");
}

#[test]
fn recommendations_depend_on_platform_and_devices() {
    let standing = vec![
        "Ensure Whisper models are downloaded for optimal transcription performance.".to_string(),
        "Test transcription with known audio to verify the pipeline is working.".to_string(),
    ];
    let windows = check_system_audio_capability(Platform::Windows);
    let mac = check_system_audio_capability(Platform::MacOs);

    let r = generate_recommendations(&windows, &Ok(vec![device("a"), device("b")]));
    assert_eq!(r, standing);

    let r = generate_recommendations(&windows, &Ok(vec![]));
    assert_eq!(r[0], "No audio devices found. Check system audio settings.");
    assert_eq!(&r[1..], &standing[..]);

    let r = generate_recommendations(&mac, &Ok(vec![device("a")]));
    assert_eq!(r[0], "Install BlackHole or Loopback.app for system audio capture");
    assert_eq!(
        r[1],
        "Only one audio device available. For best results, ensure it supports the intended audio source."
    );
    assert_eq!(&r[2..], &standing[..]);

    let r = generate_recommendations(&mac, &Err("boom".to_string()));
    assert_eq!(r[1], "Cannot enumerate audio devices. Check audio driver installation.");
    assert_eq!(r.len(), 4);
}

#[test]
fn diagnosis_is_put_together() {
    let d = diagnose_audio_system(
        check_system_audio_capability(Platform::Windows),
        Ok(vec![device("a"), device("b")]),
        vec![whisper_model_status("tiny", false)],
    );
    assert_eq!(d.available_devices.len(), 2);
    assert_eq!(d.device_enumeration_error, None);
    assert_eq!(d.recommendations.len(), 2);
    assert_eq!(d.whisper_models.len(), 1);
    assert_eq!(d.platform_capability.platform, "Windows");
    let d = diagnose_audio_system(
        check_system_audio_capability(Platform::Other),
        Err("Device enumeration failed: nope".to_string()),
        vec![],
    );
    assert!(d.available_devices.is_empty());
    assert_eq!(d.device_enumeration_error.as_deref(), Some("Device enumeration failed: nope"));
    assert_eq!(d.recommendations.len(), 4);
}

#[test]
fn every_error_has_its_message() {
    assert_eq!(CaptureError::AlreadyCapturing.message(), "Audio capture already in progress");
    assert_eq!(CaptureError::DeviceNotFound.message(), "Device not found");
    assert_eq!(CaptureError::BackendError.message(), "Audio backend error");
    assert_eq!(CaptureError::FatalStreamError.message(), "Audio stream failed");
    assert_eq!(CaptureError::TransientReadError.message(), "Audio read failed, retrying");
    assert!(CaptureError::AlreadyCapturing.is_surfaced());
    assert!(CaptureError::DeviceNotFound.is_surfaced());
    assert!(CaptureError::BackendError.is_surfaced());
    assert!(CaptureError::UnsupportedOperation.is_surfaced());
    assert!(!CaptureError::TransientReadError.is_surfaced());
    assert!(!CaptureError::FatalStreamError.is_surfaced());
    assert!(CaptureError::FatalStreamError.ends_stream());
    assert!(!CaptureError::TransientReadError.ends_stream());
    assert!(!CaptureError::BackendError.ends_stream());
    assert_eq!(
        CaptureError::UnsupportedOperation.message(),
        "macOS does not support direct output device capture. Please use a virtual audio device."
    );
    assert_eq!(
        CaptureError::UnsupportedPlatform.message(),
        "Audio loopback is not supported on this platform"
    );
    assert!(CaptureError::UnsupportedPlatform.is_surfaced());
    assert!(!CaptureError::UnsupportedPlatform.ends_stream());
}
