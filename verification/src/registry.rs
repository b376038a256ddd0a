//! The device registry: SDK lifecycle, device enumeration and connection,
//! session management, live view and generic property access.

use vstd::prelude::*;

use crate::coordinator::{Coordinator, CoordinatorModel};
use crate::encode::base64_of;
use crate::errors::CameraError;
use crate::events::{events_wf, pump_fold, ObjectEvent, ObjectEventModel};
use crate::types::{payload_fits, CameraInfo, LiveViewFrame, SaveDest, SdkState};

verus! {

/// Property id of the device's battery level.
pub const EDS_PROP_BATTERY_LEVEL: u32 = 0x00000008;

/// Property id of the number of shots left on the device.
pub const EDS_PROP_AVAILABLE_SHOTS: u32 = 0x0000040A;

/// Model of a [`CameraInfo`], over sequences.
pub struct CameraInfoModel {
    pub name: Seq<char>,
    pub port_name: Seq<char>,
    pub device_sub_type: u32,
    pub body_id: Option<Seq<char>>,
}

impl View for CameraInfo {
    type V = CameraInfoModel;

    open spec fn view(&self) -> CameraInfoModel {
        CameraInfoModel {
            name: self.name@,
            port_name: self.port_name@,
            device_sub_type: self.device_sub_type,
            body_id: match self.body_id {
                Some(b) => Some(b@),
                None => None,
            },
        }
    }
}

impl DeepView for CameraInfo {
    type V = CameraInfoModel;

    open spec fn deep_view(&self) -> CameraInfoModel {
        self@
    }
}

impl CameraInfo {
    /// Copy the description field by field.
    pub fn duplicate(&self) -> (r: CameraInfo)
        ensures
            r@ == self@,
    {
        CameraInfo {
            name: self.name.clone(),
            port_name: self.port_name.clone(),
            device_sub_type: self.device_sub_type,
            body_id: match &self.body_id {
                Some(b) => Some(b.clone()),
                None => None,
            },
        }
    }
}

/// What probing one enumerated index yielded.
#[derive(Debug, Clone)]
pub enum DeviceProbe {
    /// Fetching the child reference failed with a native code.
    RefFailed(u32),
    /// The child reference came back null.
    RefNull,
    /// Reading the device info failed with a native code.
    InfoFailed(u32),
    /// The device info block, read successfully.
    Found(CameraInfo),
}

/// Model of a [`DeviceProbe`].
pub enum DeviceProbeModel {
    RefFailed(u32),
    RefNull,
    InfoFailed(u32),
    Found(CameraInfoModel),
}

impl View for DeviceProbe {
    type V = DeviceProbeModel;

    open spec fn view(&self) -> DeviceProbeModel {
        match self {
            DeviceProbe::RefFailed(code) => DeviceProbeModel::RefFailed(*code),
            DeviceProbe::RefNull => DeviceProbeModel::RefNull,
            DeviceProbe::InfoFailed(code) => DeviceProbeModel::InfoFailed(*code),
            DeviceProbe::Found(info) => DeviceProbeModel::Found(info@),
        }
    }
}

impl DeepView for DeviceProbe {
    type V = DeviceProbeModel;

    open spec fn deep_view(&self) -> DeviceProbeModel {
        self@
    }
}

/// What the device enumeration yielded, up to the per-index probes.
#[derive(Debug, Clone)]
pub enum EnumerateOutcome {
    /// Getting the camera list failed with a native code.
    ListFailed(u32),
    /// The list reference came back null; not an error, just no devices.
    NoList,
    /// Reading the child count failed with a native code.
    CountFailed(u32),
    /// One probe per enumerated index.
    Probed(Vec<DeviceProbe>),
}

/// Model of an [`EnumerateOutcome`].
pub enum EnumerateOutcomeModel {
    ListFailed(u32),
    NoList,
    CountFailed(u32),
    Probed(Seq<DeviceProbeModel>),
}

impl View for EnumerateOutcome {
    type V = EnumerateOutcomeModel;

    open spec fn view(&self) -> EnumerateOutcomeModel {
        match self {
            EnumerateOutcome::ListFailed(code) => EnumerateOutcomeModel::ListFailed(*code),
            EnumerateOutcome::NoList => EnumerateOutcomeModel::NoList,
            EnumerateOutcome::CountFailed(code) => EnumerateOutcomeModel::CountFailed(*code),
            EnumerateOutcome::Probed(probes) => EnumerateOutcomeModel::Probed(probes.deep_view()),
        }
    }
}

/// The device descriptions of the successfully probed indices, in order.
pub open spec fn found_infos(probes: Seq<DeviceProbeModel>) -> Seq<CameraInfoModel>
    decreases probes.len(),
{
    if probes.len() == 0 {
        Seq::empty()
    } else {
        (match probes[0] {
            DeviceProbeModel::Found(info) => seq![info],
            _ => Seq::empty(),
        }) + found_infos(probes.drop_first())
    }
}

/// Outcomes of the native calls the SDK initialisation issues.
#[derive(Debug, Clone)]
pub struct InitIo {
    /// The loader's error text, when loading the vendor library failed;
    /// consulted only while the library is not loaded yet.
    pub load_failed: Option<String>,
    /// Result of the SDK's initialisation entry point.
    pub init_code: u32,
}

/// The coordinator state after SDK initialisation. Idempotent while
/// already initialised; a load failure leaves everything untouched; an
/// init failure leaves the library loaded but the SDK down.
pub open spec fn initialize_post(s: CoordinatorModel, load_failed: bool, init_code: u32) -> CoordinatorModel {
    if s.sdk is Initialized {
        s
    } else if !s.lib_loaded && load_failed {
        s
    } else if init_code != 0 {
        CoordinatorModel { lib_loaded: true, ..s }
    } else {
        CoordinatorModel { lib_loaded: true, sdk: SdkState::Initialized, ..s }
    }
}

/// Whether an initialisation result reports the right outcome.
pub open spec fn initialize_result_matches(
    r: Result<bool, CameraError>,
    s: CoordinatorModel,
    io: InitIo,
) -> bool {
    if s.sdk is Initialized {
        r == Ok::<bool, CameraError>(true)
    } else if !s.lib_loaded && io.load_failed is Some {
        r matches Err(CameraError::LoadError(e)) && Some(e@) == (match io.load_failed {
            Some(t) => Some(t@),
            None => None::<Seq<char>>,
        })
    } else if io.init_code != 0 {
        r == Err::<bool, CameraError>(CameraError::SdkInitError(io.init_code))
    } else {
        r == Ok::<bool, CameraError>(true)
    }
}

/// The coordinator state after closing the session: the handle is released
/// and every session flag is cleared; closing an already closed session is
/// a no-op.
pub open spec fn close_session_post(s: CoordinatorModel) -> CoordinatorModel {
    if s.session_open {
        CoordinatorModel {
            connected: false,
            session_open: false,
            object_handler_registered: false,
            state_handler_registered: false,
            ..s
        }
    } else {
        s
    }
}

/// The coordinator state after terminating the SDK: any open session is
/// closed first, and a successful terminate releases the device handle
/// whether or not a session was open — the handle is never leaked.
pub open spec fn terminate_post(s: CoordinatorModel, term_code: u32) -> CoordinatorModel {
    if !(s.sdk is Initialized) {
        s
    } else if term_code != 0 {
        close_session_post(s)
    } else {
        CoordinatorModel { sdk: SdkState::Terminated, connected: false, ..close_session_post(s) }
    }
}

/// The result of terminating the SDK.
pub open spec fn terminate_result(s: CoordinatorModel, term_code: u32) -> Result<bool, CameraError> {
    if !(s.sdk is Initialized) {
        Ok(true)
    } else if term_code != 0 {
        Err(CameraError::CommandFailed(term_code))
    } else {
        Ok(true)
    }
}

/// The coordinator state after a connect: any previously open session is
/// closed first, and only a fully successful probe of the requested index
/// retains a new handle.
pub open spec fn connect_post(
    s: CoordinatorModel,
    index: u32,
    enumeration: EnumerateOutcomeModel,
) -> CoordinatorModel {
    if !(s.sdk is Initialized) {
        s
    } else {
        let cleared = close_session_post(s);
        match enumeration {
            EnumerateOutcomeModel::Probed(probes) => {
                if probes.len() == 0 || index >= probes.len() {
                    cleared
                } else {
                    match probes[index as int] {
                        DeviceProbeModel::Found(_) => CoordinatorModel {
                            connected: true,
                            ..cleared
                        },
                        _ => cleared,
                    }
                }
            },
            _ => cleared,
        }
    }
}

/// Whether a connect result reports the right outcome for the requested
/// index.
pub open spec fn connect_result_matches(
    r: Result<CameraInfo, CameraError>,
    s: CoordinatorModel,
    index: u32,
    enumeration: EnumerateOutcomeModel,
) -> bool {
    if !(s.sdk is Initialized) {
        r == Err::<CameraInfo, _>(CameraError::SdkNotInitialized)
    } else {
        match enumeration {
            EnumerateOutcomeModel::ListFailed(code) => r == Err::<CameraInfo, _>(
                CameraError::CommandFailed(code),
            ),
            EnumerateOutcomeModel::NoList => r == Err::<CameraInfo, _>(CameraError::NoDeviceFound),
            EnumerateOutcomeModel::CountFailed(code) => r == Err::<CameraInfo, _>(
                CameraError::CommandFailed(code),
            ),
            EnumerateOutcomeModel::Probed(probes) => {
                if probes.len() == 0 || index >= probes.len() {
                    r == Err::<CameraInfo, _>(CameraError::IndexOutOfRange)
                } else {
                    match probes[index as int] {
                        DeviceProbeModel::RefFailed(code) => r == Err::<CameraInfo, _>(
                            CameraError::CommandFailed(code),
                        ),
                        DeviceProbeModel::RefNull => r == Err::<CameraInfo, _>(
                            CameraError::NoDeviceFound,
                        ),
                        DeviceProbeModel::InfoFailed(code) => r == Err::<CameraInfo, _>(
                            CameraError::CommandFailed(code),
                        ),
                        DeviceProbeModel::Found(info) => r matches Ok(i) && i@ == info,
                    }
                }
            },
        }
    }
}

/// The coordinator state after opening a session: the save destination is
/// forced to the host with an effectively unlimited capacity (the
/// coordinator, not the device's card, is the source of truth for where
/// photos land), and the state-event callback is registered once.
pub open spec fn open_session_post(
    s: CoordinatorModel,
    open_code: u32,
    register_state_code: u32,
) -> CoordinatorModel {
    if !(s.sdk is Initialized) || !s.connected || open_code != 0 {
        s
    } else {
        CoordinatorModel {
            session_open: true,
            save_dest: SaveDest::Host,
            state_handler_registered: s.state_handler_registered || register_state_code == 0,
            ..s
        }
    }
}

/// The result of opening a session.
pub open spec fn open_session_result(
    s: CoordinatorModel,
    open_code: u32,
) -> Result<bool, CameraError> {
    if !(s.sdk is Initialized) {
        Err(CameraError::SdkNotInitialized)
    } else if !s.connected {
        Err(CameraError::NoDeviceConnected)
    } else if open_code != 0 {
        Err(CameraError::CommandFailed(open_code))
    } else {
        Ok(true)
    }
}

impl Coordinator {
    /// Initialise the vendor SDK: load the library, call its init entry
    /// point. Idempotent while already initialised.
    pub fn initialize(&mut self, io: &InitIo) -> (r: Result<bool, CameraError>)
        requires
            old(self)@.wf(),
        ensures
            final(self)@.wf(),
            final(self)@ == initialize_post(
                old(self)@,
                io.load_failed is Some,
                io.init_code,
            ),
            initialize_result_matches(r, old(self)@, *io),
    {
        if self.sdk == SdkState::Initialized {
            return Ok(true);
        }
        if !self.lib_loaded {
            if let Some(e) = &io.load_failed {
                return Err(CameraError::LoadError(e.clone()));
            }
        }
        self.lib_loaded = true;
        if io.init_code != 0 {
            return Err(CameraError::SdkInitError(io.init_code));
        }
        self.sdk = SdkState::Initialized;
        Ok(true)
    }

    /// Terminate the vendor SDK, closing any open session first. The device
    /// handle is never leaked: the session close runs before the terminate
    /// entry point is consulted.
    pub fn terminate(&mut self, term_code: u32) -> (r: Result<bool, CameraError>)
        requires
            old(self)@.wf(),
        ensures
            final(self)@.wf(),
            final(self)@ == terminate_post(old(self)@, term_code),
            r == terminate_result(old(self)@, term_code),
    {
        if self.sdk != SdkState::Initialized {
            return Ok(true);
        }
        let _ = self.close_session();
        if term_code != 0 {
            return Err(CameraError::CommandFailed(term_code));
        }
        self.connected = false;
        self.sdk = SdkState::Terminated;
        Ok(true)
    }

    /// List the currently attached devices. An empty list (including a null
    /// list reference) is not an error; indices that failed to probe are
    /// skipped.
    pub fn list_devices(&self, enumeration: &EnumerateOutcome) -> (r: Result<
        Vec<CameraInfo>,
        CameraError,
    >)
        ensures
            !(self@.sdk is Initialized) ==> r == Err::<Vec<CameraInfo>, _>(
                CameraError::SdkNotInitialized,
            ),
            self@.sdk is Initialized ==> match enumeration@ {
                EnumerateOutcomeModel::ListFailed(code) => r == Err::<Vec<CameraInfo>, _>(
                    CameraError::CommandFailed(code),
                ),
                EnumerateOutcomeModel::NoList => r matches Ok(v) && v@.len() == 0,
                EnumerateOutcomeModel::CountFailed(code) => r == Err::<Vec<CameraInfo>, _>(
                    CameraError::CommandFailed(code),
                ),
                EnumerateOutcomeModel::Probed(probes) => r matches Ok(v) && v.deep_view()
                    == found_infos(probes),
            },
    {
        if self.sdk != SdkState::Initialized {
            return Err(CameraError::SdkNotInitialized);
        }
        match enumeration {
            EnumerateOutcome::ListFailed(code) => Err(CameraError::CommandFailed(*code)),
            EnumerateOutcome::NoList => Ok(Vec::new()),
            EnumerateOutcome::CountFailed(code) => Err(CameraError::CommandFailed(*code)),
            EnumerateOutcome::Probed(probes) => {
                let ghost pm = probes.deep_view();
                let mut cameras: Vec<CameraInfo> = Vec::new();
                proof {
                    assert(pm.skip(0) =~= pm);
                }
                let mut i: usize = 0;
                while i < probes.len()
                    invariant
                        i <= probes.len(),
                        probes.deep_view() == pm,
                        cameras.deep_view() + found_infos(pm.skip(i as int)) == found_infos(pm),
                    decreases probes.len() - i,
                {
                    let ghost before = cameras.deep_view();
                    if let DeviceProbe::Found(info) = &probes[i] {
                        cameras.push(info.duplicate());
                        assert(cameras.deep_view() =~= before + seq![info@]);
                    }
                    proof {
                        assert(pm.skip(i as int).drop_first() =~= pm.skip(i as int + 1));
                        assert(pm.skip(i as int)[0] == pm[i as int]);
                        assert(cameras.deep_view() + found_infos(pm.skip(i as int + 1))
                            =~= found_infos(pm));
                    }
                    i = i + 1;
                }
                proof {
                    assert(pm.skip(i as int) =~= Seq::<DeviceProbeModel>::empty());
                    assert(cameras.deep_view() =~= found_infos(pm));
                }
                Ok(cameras)
            },
        }
    }

    /// Connect to the device at the given index (default: the first one).
    /// Any previously open session is closed first, the index is validated
    /// against a fresh enumeration, and a new handle is retained.
    pub fn connect(&mut self, index: Option<u32>, enumeration: &EnumerateOutcome) -> (r: Result<
        CameraInfo,
        CameraError,
    >)
        requires
            old(self)@.wf(),
        ensures
            final(self)@.wf(),
            final(self)@ == connect_post(
                old(self)@,
                (match index {
                    Some(i) => i,
                    None => 0u32,
                }),
                enumeration@,
            ),
            connect_result_matches(
                r,
                old(self)@,
                (match index {
                    Some(i) => i,
                    None => 0u32,
                }),
                enumeration@,
            ),
    {
        let index = match index {
            Some(i) => i,
            None => 0,
        };
        if self.sdk != SdkState::Initialized {
            return Err(CameraError::SdkNotInitialized);
        }
        if self.session_open {
            self.connected = false;
            self.session_open = false;
            self.object_handler_registered = false;
            self.state_handler_registered = false;
        }
        match enumeration {
            EnumerateOutcome::ListFailed(code) => Err(CameraError::CommandFailed(*code)),
            EnumerateOutcome::NoList => Err(CameraError::NoDeviceFound),
            EnumerateOutcome::CountFailed(code) => Err(CameraError::CommandFailed(*code)),
            EnumerateOutcome::Probed(probes) => {
                if probes.len() == 0 || index as usize >= probes.len() {
                    return Err(CameraError::IndexOutOfRange);
                }
                match &probes[index as usize] {
                    DeviceProbe::RefFailed(code) => Err(CameraError::CommandFailed(*code)),
                    DeviceProbe::RefNull => Err(CameraError::NoDeviceFound),
                    DeviceProbe::InfoFailed(code) => Err(CameraError::CommandFailed(*code)),
                    DeviceProbe::Found(info) => {
                        self.connected = true;
                        Ok(info.duplicate())
                    },
                }
            },
        }
    }

    /// Open the control session with the connected device, direct captured
    /// media to the host, and register the state-event callback once.
    pub fn open_session(&mut self, open_code: u32, register_state_code: u32) -> (r: Result<
        bool,
        CameraError,
    >)
        requires
            old(self)@.wf(),
        ensures
            final(self)@.wf(),
            final(self)@ == open_session_post(old(self)@, open_code, register_state_code),
            r == open_session_result(old(self)@, open_code),
    {
        if self.sdk != SdkState::Initialized {
            return Err(CameraError::SdkNotInitialized);
        }
        if !self.connected {
            return Err(CameraError::NoDeviceConnected);
        }
        if open_code != 0 {
            return Err(CameraError::CommandFailed(open_code));
        }
        self.session_open = true;
        self.save_dest = SaveDest::Host;
        if !self.state_handler_registered && register_state_code == 0 {
            self.state_handler_registered = true;
        }
        Ok(true)
    }

    /// Close the session and release the device handle; safe to call when
    /// no session is open.
    pub fn close_session(&mut self) -> (r: Result<bool, CameraError>)
        requires
            old(self)@.wf(),
        ensures
            final(self)@.wf(),
            final(self)@ == close_session_post(old(self)@),
            r == Ok::<bool, CameraError>(true),
    {
        if !self.session_open {
            return Ok(true);
        }
        self.connected = false;
        self.session_open = false;
        self.object_handler_registered = false;
        self.state_handler_registered = false;
        Ok(true)
    }

    /// Request live-view output to the host.
    pub fn start_live_view(&mut self, set_code: u32) -> (r: Result<bool, CameraError>)
        requires
            old(self)@.wf(),
        ensures
            final(self)@.wf(),
            final(self)@ == live_view_post(old(self)@, set_code, true),
            r == live_view_result(old(self)@, set_code),
    {
        if self.sdk != SdkState::Initialized {
            return Err(CameraError::SdkNotInitialized);
        }
        if !self.connected {
            return Err(CameraError::NoDeviceConnected);
        }
        if !self.session_open {
            return Err(CameraError::SessionNotOpen);
        }
        if set_code != 0 {
            return Err(CameraError::PropertyAccessFailed(set_code));
        }
        self.live_view_on = true;
        Ok(true)
    }

    /// Turn live-view output off.
    pub fn stop_live_view(&mut self, set_code: u32) -> (r: Result<bool, CameraError>)
        requires
            old(self)@.wf(),
        ensures
            final(self)@.wf(),
            final(self)@ == live_view_post(old(self)@, set_code, false),
            r == live_view_result(old(self)@, set_code),
    {
        if self.sdk != SdkState::Initialized {
            return Err(CameraError::SdkNotInitialized);
        }
        if !self.connected {
            return Err(CameraError::NoDeviceConnected);
        }
        if !self.session_open {
            return Err(CameraError::SessionNotOpen);
        }
        if set_code != 0 {
            return Err(CameraError::PropertyAccessFailed(set_code));
        }
        self.live_view_on = false;
        Ok(true)
    }

    /// Fetch one live-view frame. The fetch is opportunistic: while a
    /// capture is in flight, or while the device lock is held elsewhere, or
    /// when any native step of the frame download failed, the frame is
    /// simply absent. Pending events are pumped while the lock is held.
    pub fn get_live_view_frame(&mut self, io: &FrameIo) -> (r: Result<
        Option<LiveViewFrame>,
        CameraError,
    >)
        requires
            old(self)@.wf(),
            io@.wf(),
        ensures
            final(self)@.wf(),
            final(self)@ == frame_post(old(self)@, io@),
            frame_result_matches(r, old(self)@, io@),
    {
        if self.sdk != SdkState::Initialized {
            return Err(CameraError::SdkNotInitialized);
        }
        if self.is_capturing {
            return Ok(None);
        }
        if !io.lock_available {
            return Ok(None);
        }
        if !self.connected {
            return Err(CameraError::NoDeviceConnected);
        }
        if !self.session_open {
            return Err(CameraError::SessionNotOpen);
        }
        self.pump_all(&io.events);
        match &io.frame {
            None => Ok(None),
            Some(bytes) => {
                let b64 = crate::encode::encode_raw_payload(bytes);
                Ok(Some(LiveViewFrame { data: b64 }))
            },
        }
    }

    /// Read a 32-bit device property. A property whose size is not four
    /// bytes, or whose read fails after the size probe, is reported as
    /// absent rather than as an error.
    pub fn get_property(&self, property_id: u32, io: &PropGetIo) -> (r: Result<
        Option<u32>,
        CameraError,
    >)
        ensures
            r == get_property_result(self@, *io),
    {
        let _ = property_id;
        if self.sdk != SdkState::Initialized {
            return Err(CameraError::SdkNotInitialized);
        }
        if !self.connected {
            return Err(CameraError::NoDeviceConnected);
        }
        if !self.session_open {
            return Err(CameraError::SessionNotOpen);
        }
        if io.size_code != 0 {
            return Err(CameraError::PropertyAccessFailed(io.size_code));
        }
        if io.size == 4 && io.get_code == 0 {
            return Ok(Some(io.value));
        }
        Ok(None)
    }

    /// Write a 32-bit device property.
    pub fn set_property(&self, property_id: u32, value: u32, set_code: u32) -> (r: Result<
        bool,
        CameraError,
    >)
        ensures
            r == set_property_result(self@, set_code),
    {
        let _ = property_id;
        let _ = value;
        if self.sdk != SdkState::Initialized {
            return Err(CameraError::SdkNotInitialized);
        }
        if !self.connected {
            return Err(CameraError::NoDeviceConnected);
        }
        if !self.session_open {
            return Err(CameraError::SessionNotOpen);
        }
        if set_code != 0 {
            return Err(CameraError::PropertyAccessFailed(set_code));
        }
        Ok(true)
    }

    /// Read the device's battery level.
    pub fn get_battery_level(&self, io: &PropGetIo) -> (r: Result<Option<u32>, CameraError>)
        ensures
            r == get_property_result(self@, *io),
    {
        self.get_property(EDS_PROP_BATTERY_LEVEL, io)
    }

    /// Read the number of shots left on the device.
    pub fn get_available_shots(&self, io: &PropGetIo) -> (r: Result<Option<u32>, CameraError>)
        ensures
            r == get_property_result(self@, *io),
    {
        self.get_property(EDS_PROP_AVAILABLE_SHOTS, io)
    }
}

/// Outcomes of the native calls a live-view frame fetch issues.
#[derive(Debug, Clone)]
pub struct FrameIo {
    /// Outcome of the non-blocking device-lock attempt.
    pub lock_available: bool,
    /// The object events the pump delivered while the lock was held.
    pub events: Vec<ObjectEvent>,
    /// The frame bytes, when every native step of the download succeeded.
    pub frame: Option<Vec<u8>>,
}

/// Model of a [`FrameIo`].
pub struct FrameIoModel {
    pub lock_available: bool,
    pub events: Seq<ObjectEventModel>,
    pub frame: Option<Seq<u8>>,
}

impl View for FrameIo {
    type V = FrameIoModel;

    open spec fn view(&self) -> FrameIoModel {
        FrameIoModel {
            lock_available: self.lock_available,
            events: self.events.deep_view(),
            frame: match self.frame {
                Some(d) => Some(d@),
                None => None,
            },
        }
    }
}

impl FrameIoModel {
    /// Events are well-formed and the frame stays within encoding range.
    pub open spec fn wf(self) -> bool {
        &&& events_wf(self.events)
        &&& self.frame matches Some(d) ==> payload_fits(d.len())
    }
}

/// Whether a frame fetch proceeds to the device at all.
pub open spec fn frame_proceeds(s: CoordinatorModel, io: FrameIoModel) -> bool {
    &&& s.sdk is Initialized
    &&& !s.is_capturing
    &&& io.lock_available
    &&& s.connected
    &&& s.session_open
}

/// The coordinator state after a frame fetch: only a fetch that proceeded
/// pumps events.
pub open spec fn frame_post(s: CoordinatorModel, io: FrameIoModel) -> CoordinatorModel {
    if frame_proceeds(s, io) {
        pump_fold(s, io.events)
    } else {
        s
    }
}

/// Whether a frame result reports the right outcome.
pub open spec fn frame_result_matches(
    r: Result<Option<LiveViewFrame>, CameraError>,
    s: CoordinatorModel,
    io: FrameIoModel,
) -> bool {
    if !(s.sdk is Initialized) {
        r == Err::<Option<LiveViewFrame>, _>(CameraError::SdkNotInitialized)
    } else if s.is_capturing || !io.lock_available {
        r matches Ok(f) && f is None
    } else if !s.connected {
        r == Err::<Option<LiveViewFrame>, _>(CameraError::NoDeviceConnected)
    } else if !s.session_open {
        r == Err::<Option<LiveViewFrame>, _>(CameraError::SessionNotOpen)
    } else {
        match io.frame {
            None => r matches Ok(f) && f is None,
            Some(d) => r matches Ok(f) && f matches Some(frame) && frame.data@ == base64_of(d),
        }
    }
}

/// The coordinator state after a live-view toggle.
pub open spec fn live_view_post(s: CoordinatorModel, set_code: u32, on: bool) -> CoordinatorModel {
    if s.sdk is Initialized && s.connected && s.session_open && set_code == 0 {
        CoordinatorModel { live_view_on: on, ..s }
    } else {
        s
    }
}

/// The result of a live-view toggle.
pub open spec fn live_view_result(s: CoordinatorModel, set_code: u32) -> Result<bool, CameraError> {
    if !(s.sdk is Initialized) {
        Err(CameraError::SdkNotInitialized)
    } else if !s.connected {
        Err(CameraError::NoDeviceConnected)
    } else if !s.session_open {
        Err(CameraError::SessionNotOpen)
    } else if set_code != 0 {
        Err(CameraError::PropertyAccessFailed(set_code))
    } else {
        Ok(true)
    }
}

/// Outcomes of the native calls a property read issues.
#[derive(Debug, Clone, Copy)]
pub struct PropGetIo {
    /// Result of the size probe.
    pub size_code: u32,
    /// The probed size in bytes.
    pub size: u32,
    /// Result of the data read, consulted only for four-byte properties.
    pub get_code: u32,
    /// The value read.
    pub value: u32,
}

/// The result of a property read.
pub open spec fn get_property_result(s: CoordinatorModel, io: PropGetIo) -> Result<
    Option<u32>,
    CameraError,
> {
    if !(s.sdk is Initialized) {
        Err(CameraError::SdkNotInitialized)
    } else if !s.connected {
        Err(CameraError::NoDeviceConnected)
    } else if !s.session_open {
        Err(CameraError::SessionNotOpen)
    } else if io.size_code != 0 {
        Err(CameraError::PropertyAccessFailed(io.size_code))
    } else if io.size == 4 && io.get_code == 0 {
        Ok(Some(io.value))
    } else {
        Ok(None)
    }
}

/// The result of a property write.
pub open spec fn set_property_result(s: CoordinatorModel, set_code: u32) -> Result<
    bool,
    CameraError,
> {
    if !(s.sdk is Initialized) {
        Err(CameraError::SdkNotInitialized)
    } else if !s.connected {
        Err(CameraError::NoDeviceConnected)
    } else if !s.session_open {
        Err(CameraError::SessionNotOpen)
    } else if set_code != 0 {
        Err(CameraError::PropertyAccessFailed(set_code))
    } else {
        Ok(true)
    }
}

} // verus!
