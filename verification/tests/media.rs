use base64::Engine;

use camera_coordinator::capture::CaptureIo;
use camera_coordinator::coordinator::Coordinator;
use camera_coordinator::events::{ObjectEvent, PhotoFetch};
use camera_coordinator::registry::{DeviceProbe, EnumerateOutcome, FrameIo, InitIo};
use camera_coordinator::types::CameraInfo;

fn ready_media_cam() -> Coordinator {
    let mut c = Coordinator::new();
    c.initialize(&InitIo { load_failed: None, init_code: 0 }).unwrap();
    let enumeration = EnumerateOutcome::Probed(vec![DeviceProbe::Found(CameraInfo {
        name: "Cam".to_string(),
        port_name: "usb:001".to_string(),
        device_sub_type: 1,
        body_id: None,
    })]);
    c.connect(Some(0), &enumeration).unwrap();
    c.open_session(0, 0).unwrap();
    c
}

fn jpeg_of_size(width: u32, height: u32) -> Vec<u8> {
    let img = image::DynamicImage::ImageRgb8(image::RgbImage::from_pixel(
        width,
        height,
        image::Rgb([120u8, 80u8, 40u8]),
    ));
    let mut buf = Vec::new();
    let encoder = image::codecs::jpeg::JpegEncoder::new_with_quality(&mut buf, 90);
    img.write_with_encoder(encoder).unwrap();
    buf
}

#[test]
fn oversized_capture_is_downscaled_before_encoding() {
    let mut c = ready_media_cam();
    let big = jpeg_of_size(3500, 20);
    let io = CaptureIo {
        register_code: 0,
        send_code: 0,
        events: vec![ObjectEvent::ItemReadyForTransfer(PhotoFetch::Data(big.clone()))],
    };
    let r = c.take_picture(&io);
    assert!(r.success, "{:?}", r.error);
    let payload = base64::engine::general_purpose::STANDARD
        .decode(r.image_data.unwrap())
        .unwrap();
    assert_ne!(payload, big, "the capture must be re-encoded, not passed through");
    let decoded = image::load_from_memory(&payload).unwrap();
    assert!(decoded.width() <= 3000 && decoded.height() <= 3000);
    // The aspect ratio survives the downscale.
    assert_eq!(decoded.width(), 3000);
}

#[test]
fn small_capture_is_reencoded_not_upscaled() {
    let mut c = ready_media_cam();
    let small = jpeg_of_size(100, 60);
    let io = CaptureIo {
        register_code: 0,
        send_code: 0,
        events: vec![ObjectEvent::ItemReadyForTransfer(PhotoFetch::Data(small))],
    };
    let r = c.take_picture(&io);
    assert!(r.success, "{:?}", r.error);
    let payload = base64::engine::general_purpose::STANDARD
        .decode(r.image_data.unwrap())
        .unwrap();
    let decoded = image::load_from_memory(&payload).unwrap();
    assert_eq!((decoded.width(), decoded.height()), (100, 60));
}

#[test]
fn live_view_frame_is_base64_of_fetched_bytes() {
    let mut c = ready_media_cam();
    assert_eq!(c.start_live_view(0), Ok(true));
    let io = FrameIo { lock_available: true, events: vec![], frame: Some(b"frame".to_vec()) };
    let frame = c.get_live_view_frame(&io).unwrap().unwrap();
    assert_eq!(frame.data, "ZnJhbWU=");
    // While a capture is in flight the fetch is skipped, not failed.
    c.is_capturing = true;
    assert_eq!(c.get_live_view_frame(&io).unwrap(), None);
    c.is_capturing = false;
    // A held lock skips the cycle as well.
    let held = FrameIo { lock_available: false, events: vec![], frame: Some(b"frame".to_vec()) };
    assert_eq!(c.get_live_view_frame(&held).unwrap(), None);
    // A failed native fetch yields no frame.
    let none = FrameIo { lock_available: true, events: vec![], frame: None };
    assert_eq!(c.get_live_view_frame(&none).unwrap(), None);
    assert_eq!(c.stop_live_view(0), Ok(true));
    assert!(!c.live_view_on);
}
