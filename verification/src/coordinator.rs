//! The coordinator state: SDK lifecycle, device registry flags, the
//! single-flight capture guard, the recording flag, and the transient
//! capture and movie records.
//!
//! In the running application this state sits behind one lock and is driven
//! both by command handlers and by the native event callbacks; here it is one
//! value, and every operation is a function of this value and of the
//! outcomes of the foreign calls it depends on. Contracts speak about the
//! mathematical model [`CoordinatorModel`], reached through `@`.

use vstd::prelude::*;

use crate::types::{CaptureData, CaptureModel, MovieData, MovieModel, SaveDest, SdkState};

verus! {

/// The whole coordinator state.
#[derive(Debug, Clone)]
pub struct Coordinator {
    /// Whether the vendor library has been loaded into the process.
    pub lib_loaded: bool,
    /// Lifecycle of the SDK proper.
    pub sdk: SdkState,
    /// Whether a device handle is currently retained.
    pub connected: bool,
    /// Whether an exclusive control session with the device is open.
    pub session_open: bool,
    /// Idempotence guard: the object-event callback is registered at most
    /// once per session.
    pub object_handler_registered: bool,
    /// Idempotence guard: the state-event callback is registered at most
    /// once per session.
    pub state_handler_registered: bool,
    /// Single-flight guard: true exactly while one capture flow is between
    /// its guard acquisition and its guard release.
    pub is_capturing: bool,
    /// True from a successful recording start until the movie file has been
    /// fully downloaded, deliberately including the window after a fast stop.
    pub is_recording: bool,
    /// The save destination the coordinator last requested from the device.
    pub save_dest: SaveDest,
    /// Whether live-view output to the host was last requested on.
    pub live_view_on: bool,
    /// The pending capture record; `None` while no capture was armed.
    pub capture: Option<CaptureData>,
    /// The movie record of the current (or last) recording cycle.
    pub movie: MovieData,
}

/// Mathematical model of the coordinator state.
pub struct CoordinatorModel {
    pub lib_loaded: bool,
    pub sdk: SdkState,
    pub connected: bool,
    pub session_open: bool,
    pub object_handler_registered: bool,
    pub state_handler_registered: bool,
    pub is_capturing: bool,
    pub is_recording: bool,
    pub save_dest: SaveDest,
    pub live_view_on: bool,
    pub capture: Option<CaptureModel>,
    pub movie: MovieModel,
}

impl View for Coordinator {
    type V = CoordinatorModel;

    open spec fn view(&self) -> CoordinatorModel {
        CoordinatorModel {
            lib_loaded: self.lib_loaded,
            sdk: self.sdk,
            connected: self.connected,
            session_open: self.session_open,
            object_handler_registered: self.object_handler_registered,
            state_handler_registered: self.state_handler_registered,
            is_capturing: self.is_capturing,
            is_recording: self.is_recording,
            save_dest: self.save_dest,
            live_view_on: self.live_view_on,
            capture: match self.capture {
                Some(r) => Some(r@),
                None => None,
            },
            movie: self.movie@,
        }
    }
}

impl CoordinatorModel {
    /// Well-formedness: session and handler flags follow the connection
    /// lifecycle, and both records obey their completion invariants.
    pub open spec fn wf(self) -> bool {
        &&& self.connected ==> self.sdk is Initialized
        &&& self.session_open ==> self.connected
        &&& self.object_handler_registered ==> self.session_open
        &&& self.state_handler_registered ==> self.session_open
        &&& self.capture matches Some(r) ==> r.wf()
        &&& self.movie.wf()
    }

    /// The state a freshly started process is in.
    pub open spec fn initial() -> CoordinatorModel {
        CoordinatorModel {
            lib_loaded: false,
            sdk: SdkState::Uninitialized,
            connected: false,
            session_open: false,
            object_handler_registered: false,
            state_handler_registered: false,
            is_capturing: false,
            is_recording: false,
            save_dest: SaveDest::Host,
            live_view_on: false,
            capture: None,
            movie: MovieModel::reset(),
        }
    }

    /// Whether the pending capture record has reached a terminal outcome.
    pub open spec fn capture_complete(self) -> bool {
        self.capture matches Some(r) && r.capture_complete
    }
}

impl Coordinator {
    /// Build the initial coordinator state.
    pub fn new() -> (r: Coordinator)
        ensures
            r@ == CoordinatorModel::initial(),
            r@.wf(),
    {
        Coordinator {
            lib_loaded: false,
            sdk: SdkState::Uninitialized,
            connected: false,
            session_open: false,
            object_handler_registered: false,
            state_handler_registered: false,
            is_capturing: false,
            is_recording: false,
            save_dest: SaveDest::Host,
            live_view_on: false,
            capture: None,
            movie: MovieData::reset(),
        }
    }

    /// Whether the vendor library is loaded.
    pub fn is_loaded(&self) -> (r: bool)
        ensures
            r == self@.lib_loaded,
    {
        self.lib_loaded
    }

    /// Whether the SDK is initialised.
    pub fn is_initialized(&self) -> (r: bool)
        ensures
            r == (self@.sdk is Initialized),
    {
        self.sdk == SdkState::Initialized
    }

    /// Whether a device is connected with an open session.
    pub fn is_connected(&self) -> (r: bool)
        ensures
            r == (self@.connected && self@.session_open),
    {
        self.connected && self.session_open
    }

    /// Whether a recording cycle is still in flight, including the window
    /// between a fast stop and the movie-file download.
    pub fn is_movie_recording(&self) -> (r: bool)
        ensures
            r == self@.is_recording,
    {
        self.is_recording
    }
}

impl Default for Coordinator {
    fn default() -> (r: Self)
        ensures
            r@ == CoordinatorModel::initial(),
    {
        Coordinator::new()
    }
}

} // verus!
