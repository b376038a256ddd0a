use camera_coordinator::coordinator::Coordinator;
use camera_coordinator::errors::CameraError;
use camera_coordinator::events::StateEvent;
use camera_coordinator::registry::{DeviceProbe, EnumerateOutcome, InitIo, PropGetIo};
use camera_coordinator::types::CameraInfo;

fn cam_info(name: &str) -> CameraInfo {
    CameraInfo {
        name: name.to_string(),
        port_name: "usb:001".to_string(),
        device_sub_type: 2,
        body_id: None,
    }
}

fn ready_registry_cam() -> Coordinator {
    let mut c = Coordinator::new();
    c.initialize(&InitIo { load_failed: None, init_code: 0 }).unwrap();
    let enumeration = EnumerateOutcome::Probed(vec![DeviceProbe::Found(cam_info("Cam"))]);
    c.connect(Some(0), &enumeration).unwrap();
    c.open_session(0, 0).unwrap();
    c
}

#[test]
fn initialize_is_idempotent() {
    let mut c = Coordinator::new();
    assert!(!c.is_initialized());
    assert_eq!(c.initialize(&InitIo { load_failed: None, init_code: 0 }), Ok(true));
    assert!(c.is_initialized());
    assert!(c.is_loaded());
    // Already initialised: the load outcome is not even consulted.
    let io = InitIo { load_failed: Some("library missing".to_string()), init_code: 5 };
    assert_eq!(c.initialize(&io), Ok(true));
}

#[test]
fn initialize_load_failure_carries_loader_text() {
    let mut c = Coordinator::new();
    let io = InitIo { load_failed: Some("library missing".to_string()), init_code: 0 };
    match c.initialize(&io) {
        Err(CameraError::LoadError(msg)) => assert_eq!(msg, "library missing"),
        other => panic!("unexpected result: {:?}", other),
    }
    assert!(!c.is_initialized());
    assert!(!c.is_loaded());
}

#[test]
fn initialize_init_failure_keeps_sdk_down() {
    let mut c = Coordinator::new();
    let io = InitIo { load_failed: None, init_code: 0x0000_0002 };
    assert_eq!(c.initialize(&io), Err(CameraError::SdkInitError(0x0000_0002)));
    assert!(!c.is_initialized());
    assert!(c.is_loaded());
}

#[test]
fn terminate_closes_session_and_resets() {
    let mut c = ready_registry_cam();
    assert!(c.is_connected());
    assert_eq!(c.terminate(0), Ok(true));
    assert!(!c.is_initialized());
    assert!(!c.is_connected());
    // Terminating again is a no-op success.
    assert_eq!(c.terminate(0), Ok(true));
}

#[test]
fn terminate_failure_keeps_sdk_up() {
    let mut c = ready_registry_cam();
    assert_eq!(c.terminate(0x0000_0002), Err(CameraError::CommandFailed(0x0000_0002)));
    assert!(c.is_initialized());
    assert!(!c.is_connected());
}

#[test]
fn list_devices_skips_failed_probes() {
    let mut c = Coordinator::new();
    let enumeration = EnumerateOutcome::Probed(vec![
        DeviceProbe::Found(cam_info("First")),
        DeviceProbe::RefFailed(0x0000_0080),
        DeviceProbe::InfoFailed(0x0000_0002),
        DeviceProbe::Found(cam_info("Second")),
        DeviceProbe::RefNull,
    ]);
    assert!(matches!(
        c.list_devices(&enumeration),
        Err(CameraError::SdkNotInitialized)
    ));
    c.initialize(&InitIo { load_failed: None, init_code: 0 }).unwrap();
    let devices = c.list_devices(&enumeration).unwrap();
    assert_eq!(devices.len(), 2);
    assert_eq!(devices[0].name, "First");
    assert_eq!(devices[1].name, "Second");
    // A null list reference is no error: just no devices.
    assert_eq!(c.list_devices(&EnumerateOutcome::NoList).unwrap().len(), 0);
    assert!(matches!(
        c.list_devices(&EnumerateOutcome::ListFailed(0x0000_0002)),
        Err(CameraError::CommandFailed(0x0000_0002))
    ));
}

#[test]
fn connect_validates_index() {
    let mut c = Coordinator::new();
    c.initialize(&InitIo { load_failed: None, init_code: 0 }).unwrap();
    let enumeration = EnumerateOutcome::Probed(vec![DeviceProbe::Found(cam_info("Cam"))]);
    assert!(matches!(
        c.connect(Some(3), &enumeration),
        Err(CameraError::IndexOutOfRange)
    ));
    assert!(matches!(
        c.connect(None, &EnumerateOutcome::NoList),
        Err(CameraError::NoDeviceFound)
    ));
    assert!(matches!(
        c.connect(None, &EnumerateOutcome::Probed(vec![])),
        Err(CameraError::IndexOutOfRange)
    ));
    let info = c.connect(None, &enumeration).unwrap();
    assert_eq!(info.name, "Cam");
    assert!(!c.is_connected(), "a session is not open yet");
    assert_eq!(c.open_session(0, 0), Ok(true));
    assert!(c.is_connected());
}

#[test]
fn connect_closes_previous_session() {
    let mut c = ready_registry_cam();
    assert!(c.is_connected());
    // A failing reconnect leaves the previous session closed.
    assert!(matches!(
        c.connect(Some(9), &EnumerateOutcome::Probed(vec![DeviceProbe::Found(cam_info("Cam"))])),
        Err(CameraError::IndexOutOfRange)
    ));
    assert!(!c.is_connected());
}

#[test]
fn close_session_is_safe_when_closed() {
    let mut c = Coordinator::new();
    assert_eq!(c.close_session(), Ok(true));
    let mut c = ready_registry_cam();
    assert_eq!(c.close_session(), Ok(true));
    assert!(!c.is_connected());
    assert_eq!(c.close_session(), Ok(true));
}

#[test]
fn shutdown_event_closes_session_only_under_lock() {
    let mut c = ready_registry_cam();
    // The lock is held elsewhere: the disconnect is deferred.
    assert_eq!(c.handle_state_event(&StateEvent::Shutdown, false), 0);
    assert!(c.is_connected());
    // The lock was free: the session is torn down.
    assert_eq!(c.handle_state_event(&StateEvent::Shutdown, true), 0);
    assert!(!c.is_connected());
    assert!(!c.object_handler_registered);
    assert!(!c.state_handler_registered);
    // Unrelated state events are ignored.
    let mut c2 = ready_registry_cam();
    assert_eq!(c2.handle_state_event(&StateEvent::Other, true), 0);
    assert!(c2.is_connected());
}

#[test]
fn get_property_reads_four_byte_values() {
    let c = ready_registry_cam();
    let io = PropGetIo { size_code: 0, size: 4, get_code: 0, value: 77 };
    assert_eq!(c.get_property(0x0000_0402, &io), Ok(Some(77)));
    // A property of another size is absent, not an error.
    let io8 = PropGetIo { size_code: 0, size: 8, get_code: 0, value: 77 };
    assert_eq!(c.get_property(0x0000_0402, &io8), Ok(None));
    // A failing read after the size probe is absent as well.
    let bad = PropGetIo { size_code: 0, size: 4, get_code: 0x0000_0002, value: 77 };
    assert_eq!(c.get_property(0x0000_0402, &bad), Ok(None));
    // A failing size probe is an error.
    let worse = PropGetIo { size_code: 0x0000_0061, size: 0, get_code: 0, value: 0 };
    assert_eq!(
        c.get_property(0x0000_0402, &worse),
        Err(CameraError::PropertyAccessFailed(0x0000_0061))
    );
    assert_eq!(c.get_battery_level(&io), Ok(Some(77)));
    assert_eq!(c.get_available_shots(&io), Ok(Some(77)));
}

#[test]
fn open_session_requires_a_connected_device() {
    let mut c = Coordinator::new();
    assert_eq!(c.open_session(0, 0), Err(CameraError::SdkNotInitialized));
    c.initialize(&InitIo { load_failed: None, init_code: 0 }).unwrap();
    assert_eq!(c.open_session(0, 0), Err(CameraError::NoDeviceConnected));
    let enumeration = EnumerateOutcome::Probed(vec![DeviceProbe::Found(cam_info("Cam"))]);
    c.connect(None, &enumeration).unwrap();
    assert_eq!(
        c.open_session(0x0000_00C1, 0),
        Err(CameraError::CommandFailed(0x0000_00C1))
    );
    assert_eq!(c.open_session(0, 0), Ok(true));
}

#[test]
fn live_view_toggle_checks_session_and_code() {
    let mut c = Coordinator::new();
    assert_eq!(c.start_live_view(0), Err(CameraError::SdkNotInitialized));
    c.initialize(&InitIo { load_failed: None, init_code: 0 }).unwrap();
    assert_eq!(c.start_live_view(0), Err(CameraError::NoDeviceConnected));
    let enumeration = EnumerateOutcome::Probed(vec![DeviceProbe::Found(cam_info("Cam"))]);
    c.connect(None, &enumeration).unwrap();
    assert_eq!(c.start_live_view(0), Err(CameraError::SessionNotOpen));
    c.open_session(0, 0).unwrap();
    assert_eq!(
        c.start_live_view(0x0000_0060),
        Err(CameraError::PropertyAccessFailed(0x0000_0060))
    );
    assert!(!c.live_view_on);
    assert_eq!(c.start_live_view(0), Ok(true));
    assert!(c.live_view_on);
    assert_eq!(c.stop_live_view(0), Ok(true));
    assert!(!c.live_view_on);
}

#[test]
fn set_property_translates_failure() {
    let c = ready_registry_cam();
    assert_eq!(c.set_property(0x0000_0402, 100, 0), Ok(true));
    assert_eq!(
        c.set_property(0x0000_0402, 100, 0x0000_0081),
        Err(CameraError::PropertyAccessFailed(0x0000_0081))
    );
}
