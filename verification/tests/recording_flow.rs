use camera_coordinator::capture::CaptureIo;
use camera_coordinator::coordinator::Coordinator;
use camera_coordinator::errors::CameraError;
use camera_coordinator::events::{MovieFetch, ObjectEvent, PhotoFetch};
use camera_coordinator::recording::{MovieStopIo, PhotoDuringIo, RecordStartIo};
use camera_coordinator::registry::{DeviceProbe, EnumerateOutcome, InitIo};
use camera_coordinator::types::{CameraInfo, SaveDest};

fn ready_recording_cam() -> Coordinator {
    let mut c = Coordinator::new();
    c.initialize(&InitIo { load_failed: None, init_code: 0 }).unwrap();
    let enumeration = EnumerateOutcome::Probed(vec![DeviceProbe::Found(CameraInfo {
        name: "Cam".to_string(),
        port_name: "usb:001".to_string(),
        device_sub_type: 1,
        body_id: None,
    })]);
    c.connect(Some(0), &enumeration).unwrap();
    c.open_session(0, 0).unwrap();
    c
}

fn movie_saved(path: &str) -> ObjectEvent {
    ObjectEvent::ItemCreated(MovieFetch::Saved(path.to_string()))
}

fn plain_photo_io() -> CaptureIo {
    CaptureIo {
        register_code: 0,
        send_code: 0,
        events: vec![ObjectEvent::ItemReadyForTransfer(PhotoFetch::Data(b"hello".to_vec()))],
    }
}

#[test]
fn start_recording_directs_media_and_raises_flag() {
    let mut c = ready_recording_cam();
    assert_eq!(c.start_recording(&RecordStartIo { register_code: 0, begin_code: 0 }), Ok(true));
    assert!(c.is_movie_recording());
    assert_eq!(c.save_dest, SaveDest::DeviceStorage);
    assert!(c.live_view_on);
    // Starting again is a no-op success.
    assert_eq!(c.start_recording(&RecordStartIo { register_code: 0, begin_code: 0 }), Ok(true));
}

#[test]
fn start_recording_begin_failure_is_surfaced() {
    let mut c = ready_recording_cam();
    let r = c.start_recording(&RecordStartIo { register_code: 0, begin_code: 0x0000_0081 });
    assert!(matches!(r, Err(CameraError::CommandFailed(0x0000_0081))));
    assert!(!c.is_movie_recording());
}

#[test]
fn start_recording_requires_initialized_sdk() {
    let mut c = Coordinator::new();
    let r = c.start_recording(&RecordStartIo { register_code: 0, begin_code: 0 });
    assert!(matches!(r, Err(CameraError::SdkNotInitialized)));
}

#[test]
fn stop_recording_wait_returns_path_and_restores() {
    let mut c = ready_recording_cam();
    c.start_recording(&RecordStartIo { register_code: 0, begin_code: 0 }).unwrap();
    let io = MovieStopIo { end_code: 0, events: vec![movie_saved("/tmp/clip.mp4")] };
    let r = c.stop_recording_wait(&io);
    assert_eq!(r.unwrap(), "/tmp/clip.mp4");
    assert!(!c.is_movie_recording());
    assert_eq!(c.save_dest, SaveDest::Host);
    assert!(!c.live_view_on);
}

#[test]
fn stop_recording_wait_timeout_still_restores() {
    let mut c = ready_recording_cam();
    c.start_recording(&RecordStartIo { register_code: 0, begin_code: 0 }).unwrap();
    let io = MovieStopIo { end_code: 0, events: vec![] };
    let r = c.stop_recording_wait(&io);
    assert!(matches!(r, Err(CameraError::CaptureTimeout)));
    assert!(!c.is_movie_recording());
    assert_eq!(c.save_dest, SaveDest::Host);
}

#[test]
fn stop_recording_wait_without_recording() {
    let mut c = ready_recording_cam();
    let io = MovieStopIo { end_code: 0, events: vec![] };
    assert!(matches!(c.stop_recording_wait(&io), Err(CameraError::NotRecording)));
}

#[test]
fn fast_stop_then_finalize_returns_path_and_restores() {
    let mut c = ready_recording_cam();
    c.start_recording(&RecordStartIo { register_code: 0, begin_code: 0 }).unwrap();
    assert_eq!(c.stop_recording_fast(0), Ok(true));
    // The flag deliberately stays up so the late file event still counts.
    assert!(c.is_movie_recording());
    assert_eq!(c.save_dest, SaveDest::Host);
    assert!(!c.live_view_on);
    let r = c.finalize_movie_download(&vec![movie_saved("/tmp/clip.mp4")]);
    assert_eq!(r.unwrap(), "/tmp/clip.mp4");
    assert!(!c.is_movie_recording());
    assert_eq!(c.save_dest, SaveDest::Host);
}

#[test]
fn fast_stop_then_finalize_timeout_restores() {
    let mut c = ready_recording_cam();
    c.start_recording(&RecordStartIo { register_code: 0, begin_code: 0 }).unwrap();
    c.stop_recording_fast(0).unwrap();
    let r = c.finalize_movie_download(&vec![]);
    assert!(matches!(r, Err(CameraError::CaptureTimeout)));
    assert!(!c.is_movie_recording());
    assert_eq!(c.save_dest, SaveDest::Host);
}

#[test]
fn finalize_surfaces_download_error() {
    let mut c = ready_recording_cam();
    c.start_recording(&RecordStartIo { register_code: 0, begin_code: 0 }).unwrap();
    c.stop_recording_fast(0).unwrap();
    let events = vec![ObjectEvent::ItemCreated(MovieFetch::TransferFailed(0x0000_0002))];
    let r = c.finalize_movie_download(&events);
    match r {
        Err(CameraError::DownloadFailed(msg)) => {
            assert_eq!(msg, "Movie download failed: Internal error");
        },
        other => panic!("unexpected result: {:?}", other),
    }
    assert!(!c.is_movie_recording());
}

#[test]
fn photo_during_recording_returns_photo_and_keeps_movie_pending() {
    let mut c = ready_recording_cam();
    c.start_recording(&RecordStartIo { register_code: 0, begin_code: 0 }).unwrap();
    let io = PhotoDuringIo {
        shutter_code: 0,
        events: vec![ObjectEvent::ItemReadyForTransfer(PhotoFetch::Data(b"hello".to_vec()))],
        fallback_end_code: 0,
        fallback: plain_photo_io(),
    };
    let r = c.take_photo_during_recording(&io);
    assert!(r.success, "{:?}", r.error);
    assert_eq!(r.image_data.as_deref(), Some("aGVsbG8="));
    // Recording flag and combined save destination stay for the movie file.
    assert!(c.is_movie_recording());
    assert_eq!(c.save_dest, SaveDest::Both);
    assert!(!c.is_capturing);
    // The movie file arrives afterwards.
    let fin = c.finalize_movie_download(&vec![movie_saved("/tmp/clip.mp4")]);
    assert_eq!(fin.unwrap(), "/tmp/clip.mp4");
    assert_eq!(c.save_dest, SaveDest::Host);
}

#[test]
fn photo_during_recording_shutter_failure_falls_back() {
    let mut c = ready_recording_cam();
    c.start_recording(&RecordStartIo { register_code: 0, begin_code: 0 }).unwrap();
    let io = PhotoDuringIo {
        shutter_code: 0x0000_0007,
        events: vec![],
        fallback_end_code: 0,
        fallback: plain_photo_io(),
    };
    let r = c.take_photo_during_recording(&io);
    // The caller sees exactly the plain capture flow's result shape.
    let mut direct = ready_recording_cam();
    let expected = direct.take_picture(&plain_photo_io());
    assert_eq!(r.success, expected.success);
    assert_eq!(r.error, expected.error);
    assert_eq!(r.image_data, expected.image_data);
    assert!(!c.is_capturing);
}

#[test]
fn photo_during_recording_timeout_falls_back() {
    let mut c = ready_recording_cam();
    c.start_recording(&RecordStartIo { register_code: 0, begin_code: 0 }).unwrap();
    let io = PhotoDuringIo {
        shutter_code: 0,
        events: vec![],
        fallback_end_code: 0,
        fallback: plain_photo_io(),
    };
    let r = c.take_photo_during_recording(&io);
    assert!(r.success, "{:?}", r.error);
    assert_eq!(r.image_data.as_deref(), Some("aGVsbG8="));
    assert!(!c.is_capturing);
}

#[test]
fn photo_during_recording_delegates_when_not_recording() {
    let mut c = ready_recording_cam();
    let io = PhotoDuringIo {
        shutter_code: 0,
        events: vec![],
        fallback_end_code: 0,
        fallback: plain_photo_io(),
    };
    let r = c.take_photo_during_recording(&io);
    assert!(r.success, "{:?}", r.error);
    assert_eq!(r.image_data.as_deref(), Some("aGVsbG8="));
}

#[test]
fn movie_error_event_fills_record_during_recording() {
    let mut c = ready_recording_cam();
    c.start_recording(&RecordStartIo { register_code: 0, begin_code: 0 }).unwrap();
    let events = vec![ObjectEvent::ItemCreated(MovieFetch::InfoFailed(0x0000_0061))];
    assert!(c.pump_events(true, &events));
    assert!(c.movie.download_complete);
    assert_eq!(
        c.movie.download_error.as_deref(),
        Some("Get dir info failed: Invalid handle")
    );
    assert_eq!(c.movie.movie_path, None);
}

#[test]
fn movie_event_ignored_while_not_recording() {
    let mut c = ready_recording_cam();
    let events = vec![movie_saved("/tmp/stray.mp4")];
    assert!(c.pump_events(true, &events));
    assert!(!c.movie.download_complete);
    assert_eq!(c.movie.movie_path, None);
}
