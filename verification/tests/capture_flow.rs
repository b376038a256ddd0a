use camera_coordinator::capture::{CaptureIo, ShutterIo};
use camera_coordinator::coordinator::Coordinator;
use camera_coordinator::events::{ObjectEvent, PhotoFetch};
use camera_coordinator::registry::{DeviceProbe, EnumerateOutcome, InitIo};
use camera_coordinator::types::CameraInfo;

fn ready_capture_cam() -> Coordinator {
    let mut c = Coordinator::new();
    c.initialize(&InitIo { load_failed: None, init_code: 0 }).unwrap();
    let enumeration = EnumerateOutcome::Probed(vec![DeviceProbe::Found(CameraInfo {
        name: "Cam".to_string(),
        port_name: "usb:001".to_string(),
        device_sub_type: 1,
        body_id: None,
    })]);
    c.connect(Some(0), &enumeration).unwrap();
    c.open_session(0, 0).unwrap();
    c
}

fn photo_io(bytes: &[u8]) -> CaptureIo {
    CaptureIo {
        register_code: 0,
        send_code: 0,
        events: vec![ObjectEvent::ItemReadyForTransfer(PhotoFetch::Data(bytes.to_vec()))],
    }
}

#[test]
fn capture_refused_while_sdk_uninitialized() {
    let mut c = Coordinator::new();
    let r = c.take_picture(&photo_io(b"hello"));
    assert!(!r.success);
    assert_eq!(r.error.as_deref(), Some("SDK not initialized"));
    assert_eq!(r.image_data, None);
    assert!(!c.is_capturing);
}

#[test]
fn concurrent_capture_gets_already_in_progress() {
    let mut c = ready_capture_cam();
    // One capture is mid-flight: its guard is up.
    c.is_capturing = true;
    let r = c.take_picture(&photo_io(b"hello"));
    assert!(!r.success);
    assert_eq!(r.error.as_deref(), Some("Capture already in progress"));
    // No side effects at all: the record was not even armed.
    assert!(c.capture.is_none());
    // The first capture finishes; the next caller gets a real result.
    c.is_capturing = false;
    let r2 = c.take_picture(&photo_io(b"hello"));
    assert!(r2.success, "{:?}", r2.error);
    assert!(!c.is_capturing);
}

#[test]
fn capture_send_failure_translates_code_and_releases_guard() {
    let mut c = ready_capture_cam();
    let io = CaptureIo { register_code: 0, send_code: 0x0000_0081, events: vec![] };
    let r = c.take_picture(&io);
    assert!(!r.success);
    assert_eq!(r.error.as_deref(), Some("Take picture failed: Device busy"));
    assert!(!c.is_capturing);
    // A subsequent capture is not blocked by a stuck guard.
    let r2 = c.take_picture(&photo_io(b"hello"));
    assert!(r2.success, "{:?}", r2.error);
}

#[test]
fn capture_timeout_when_no_event_arrives() {
    let mut c = ready_capture_cam();
    let io = CaptureIo { register_code: 0, send_code: 0, events: vec![] };
    let r = c.take_picture(&io);
    assert!(!r.success);
    assert_eq!(r.error.as_deref(), Some("Capture timeout - no image received"));
    assert!(!c.is_capturing);
}

#[test]
fn capture_success_returns_base64_payload() {
    let mut c = ready_capture_cam();
    // The bytes are no JPEG, so the shrink step is skipped and the payload
    // is the plain base64 of the raw bytes.
    let r = c.take_picture(&photo_io(b"hello"));
    assert!(r.success);
    assert_eq!(r.error, None);
    assert_eq!(r.image_data.as_deref(), Some("aGVsbG8="));
    assert!(!c.is_capturing);
}

#[test]
fn capture_callback_error_is_surfaced() {
    let mut c = ready_capture_cam();
    let io = CaptureIo {
        register_code: 0,
        send_code: 0,
        events: vec![ObjectEvent::ItemReadyForTransfer(PhotoFetch::TransferFailed(0x0000_0081))],
    };
    let r = c.take_picture(&io);
    assert!(!r.success);
    assert_eq!(r.error.as_deref(), Some("Download failed: Device busy"));
}

#[test]
fn capture_register_failure_is_surfaced() {
    let mut c = ready_capture_cam();
    let io = CaptureIo { register_code: 0x0000_0002, send_code: 0, events: vec![] };
    let r = c.take_picture(&io);
    assert!(!r.success);
    assert_eq!(
        r.error.as_deref(),
        Some("Failed to register event handler: Internal error")
    );
    assert!(!c.object_handler_registered);
}

#[test]
fn capture_without_camera_or_session() {
    let mut c = Coordinator::new();
    c.initialize(&InitIo { load_failed: None, init_code: 0 }).unwrap();
    let r = c.take_picture(&photo_io(b"x"));
    assert_eq!(r.error.as_deref(), Some("No camera connected"));
    let enumeration = EnumerateOutcome::Probed(vec![DeviceProbe::Found(CameraInfo {
        name: "Cam".to_string(),
        port_name: "usb:001".to_string(),
        device_sub_type: 1,
        body_id: None,
    })]);
    c.connect(None, &enumeration).unwrap();
    let r2 = c.take_picture(&photo_io(b"x"));
    assert_eq!(r2.error.as_deref(), Some("Session not open"));
}

#[test]
fn poll_cycle_hands_out_result_exactly_once() {
    let mut c = ready_capture_cam();
    // Before any capture was started.
    let r0 = c.poll_capture_result();
    assert!(!r0.success);
    assert_eq!(r0.error.as_deref(), Some("No capture in progress"));
    // Arm a capture without blocking.
    let sent = c.send_shutter(&ShutterIo { register_code: 0, send_code: 0 });
    assert!(sent.success);
    // Pending: no error, no data.
    let r1 = c.poll_capture_result();
    assert!(!r1.success);
    assert_eq!(r1.error, None);
    assert_eq!(r1.image_data, None);
    // The event arrives through the periodic pump.
    let events = vec![ObjectEvent::ItemReadyForTransfer(PhotoFetch::Data(b"hello".to_vec()))];
    assert!(c.pump_events(true, &events));
    // The terminal result comes out exactly once, un-resized.
    let r2 = c.poll_capture_result();
    assert!(r2.success);
    assert_eq!(r2.image_data.as_deref(), Some("aGVsbG8="));
    // Consumed: the next poll reports no capture again.
    let r3 = c.poll_capture_result();
    assert!(!r3.success);
    assert_eq!(r3.error.as_deref(), Some("No capture in progress"));
}

#[test]
fn stray_photo_event_is_ignored_without_armed_record() {
    let mut c = ready_capture_cam();
    // No capture was armed: the event is acknowledged and dropped.
    let events = vec![ObjectEvent::ItemReadyForTransfer(PhotoFetch::Data(b"stray".to_vec()))];
    assert!(c.pump_events(true, &events));
    let r = c.poll_capture_result();
    assert!(!r.success);
    assert_eq!(r.error.as_deref(), Some("No capture in progress"));
}

#[test]
fn unrelated_object_event_is_acknowledged() {
    let mut c = ready_capture_cam();
    assert_eq!(c.handle_object_event(&ObjectEvent::Unrelated), 0);
    assert!(c.capture.is_none());
    assert!(!c.movie.download_complete);
}

#[test]
fn send_shutter_failure_translates_code() {
    let mut c = ready_capture_cam();
    let r = c.send_shutter(&ShutterIo { register_code: 0, send_code: 0x0000_A101 });
    assert!(!r.success);
    assert_eq!(r.error.as_deref(), Some("Shutter failed: Low battery"));
}

#[test]
fn send_shutter_refused_while_capture_in_flight() {
    let mut c = ready_capture_cam();
    c.is_capturing = true;
    let r = c.send_shutter(&ShutterIo { register_code: 0, send_code: 0 });
    assert!(!r.success);
    assert_eq!(r.error.as_deref(), Some("Capture already in progress"));
    assert!(c.capture.is_none(), "the record must not be armed");
}

#[test]
fn pump_events_reports_and_skips() {
    let mut c = Coordinator::new();
    // Down SDK: the pump reports that nothing can be processed.
    assert!(!c.pump_events(true, &vec![]));
    let mut c = ready_capture_cam();
    c.send_shutter(&ShutterIo { register_code: 0, send_code: 0 });
    let events = vec![ObjectEvent::ItemReadyForTransfer(PhotoFetch::Data(b"x".to_vec()))];
    // While a blocking capture owns the pump, the cycle is skipped.
    c.is_capturing = true;
    assert!(c.pump_events(true, &events));
    let pending = c.poll_capture_result();
    assert_eq!(pending.error, None);
    assert!(!pending.success);
    c.is_capturing = false;
    // A held device lock also skips the cycle.
    assert!(c.pump_events(false, &events));
    assert!(!c.poll_capture_result().success);
    // A free cycle processes the window.
    assert!(c.pump_events(true, &events));
    assert!(c.poll_capture_result().success);
}
