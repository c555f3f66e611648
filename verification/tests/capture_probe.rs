use cyvra_core::capture_probe::{parse_probe, CaptureProbe, CaptureSource, SourceOutcome};

fn hex(value: &str) -> String {
    value.as_bytes().iter().map(|byte| format!("{byte:02x}")).collect()
}

struct Fixture(String);

impl Fixture {
    fn new() -> Self {
        Self(String::new())
    }

    fn line(mut self, section: &str, index: usize, name: &str, value: &str) -> Self {
        self.0.push_str(&format!("{section}\t{index}\t{name}\t{}\n", hex(value)));
        self
    }

    fn probe(&self) -> CaptureProbe {
        parse_probe(&self.0)
    }
}

#[test]
fn a_uvc_webcam_is_listed_even_when_the_camera_class_is_empty() {
    let probe = Fixture::new()
        .line("camera_class", 0, "source_status", "reported")
        .line("usbvideo", 0, "source_status", "reported")
        .line("camera", 0, "present", "True")
        .line("camera", 0, "name", "USB Video Device")
        .line("camera", 0, "enumerated_by", "USB video service")
        .line("capture", 0, "frames_captured", "False")
        .probe();

    assert_eq!(probe.camera_names(), vec!["USB Video Device".to_string()]);
    assert!(!probe.frames_captured);
    assert_eq!(probe.cameras[0].enumerated_by.as_deref(), Some("USB video service"));
}

#[test]
fn scanners_are_not_turned_into_cameras() {
    let probe = Fixture::new().line("image_class", 0, "source_status", "reported").probe();

    assert!(probe.cameras.is_empty());
}

#[test]
fn a_microphone_array_is_kept_and_speakers_are_dropped() {
    let probe = Fixture::new()
        .line("audio_endpoint", 0, "source_status", "reported")
        .line("microphone", 0, "present", "True")
        .line("microphone", 0, "name", "Microphone Array")
        .line("capture", 0, "audio_recorded", "False")
        .probe();

    assert_eq!(probe.microphone_names(), vec!["Microphone Array".to_string()]);
    assert!(!probe.audio_recorded);
}

#[test]
fn none_enumerated_is_an_empty_list_not_a_fake_device() {
    let probe = Fixture::new()
        .line("camera_class", 0, "source_status", "reported")
        .line("usbvideo", 0, "source_status", "reported")
        .line("camera", 0, "none_enumerated", "True")
        .probe();

    assert!(probe.cameras.is_empty());
    assert!(probe.reports_no_cameras());
}

#[test]
fn enumeration_never_claims_a_captured_frame() {
    let probe = Fixture::new()
        .line("camera", 0, "present", "True")
        .line("camera", 0, "name", "Integrated Camera")
        .line("capture", 0, "frames_captured", "False")
        .line("capture", 0, "audio_recorded", "False")
        .probe();

    assert!(!probe.frames_captured);
    assert!(!probe.audio_recorded);
}

#[test]
fn an_unavailable_probe_states_the_reason() {
    let probe =
        CaptureProbe::unavailable("Camera and microphone collection is only available on Windows.");

    assert!(probe.cameras.is_empty());
    assert!(probe.microphones.is_empty());
    assert!(!probe.reports_no_cameras());
    assert_eq!(
        probe.probe_error,
        Some("Camera and microphone collection is only available on Windows.")
    );
    assert_eq!(probe.sources.len(), 6);
    for status in &probe.sources {
        assert_eq!(status.outcome, SourceOutcome::NotQueried);
    }
    assert_eq!(probe.sources[0].source, CaptureSource::CameraClass);
}
