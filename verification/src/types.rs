//! The data model of the coordinator: device descriptions, capture results,
//! and the transient records that the event callbacks fill in.

use vstd::prelude::*;

verus! {

/// Description of one attached camera, as read from the device info block.
#[derive(Debug, Clone)]
pub struct CameraInfo {
    pub name: String,
    pub port_name: String,
    pub device_sub_type: u32,
    pub body_id: Option<String>,
}

/// The tagged result of a capture-style call.
#[derive(Debug, Clone)]
pub struct CaptureResult {
    pub success: bool,
    pub error: Option<String>,
    /// Base64-encoded JPEG image data.
    pub image_data: Option<String>,
}

/// Mathematical model of a `CaptureResult`: the same shape over sequences.
pub struct CaptureResultModel {
    pub success: bool,
    pub error: Option<Seq<char>>,
    pub image_data: Option<Seq<char>>,
}

impl View for CaptureResult {
    type V = CaptureResultModel;

    open spec fn view(&self) -> CaptureResultModel {
        CaptureResultModel {
            success: self.success,
            error: match self.error {
                Some(e) => Some(e@),
                None => None,
            },
            image_data: match self.image_data {
                Some(d) => Some(d@),
                None => None,
            },
        }
    }
}

/// One live-view preview frame.
#[derive(Debug, Clone, PartialEq, Eq)]
pub struct LiveViewFrame {
    /// Base64-encoded JPEG data.
    pub data: String,
}

/// Lifecycle of the process-wide SDK.
#[derive(Debug, Clone, Copy, PartialEq, Eq, Structural)]
pub enum SdkState {
    Uninitialized,
    Initialized,
    Terminated,
}

/// The device-side save destination the coordinator last requested.
#[derive(Debug, Clone, Copy, PartialEq, Eq, Structural)]
pub enum SaveDest {
    /// Captured media is streamed to the host.
    Host,
    /// Captured media is written to the device's own storage.
    DeviceStorage,
    /// Photos go to the host while movies stay on device storage.
    Both,
}

/// The largest photo payload the coordinator accepts, chosen so that the
/// base64 rendering of the payload cannot overflow a `usize` length.
pub open spec fn payload_fits(len: nat) -> bool {
    4 * len <= usize::MAX as nat
}

/// Per-capture record, created empty immediately before a capture command is
/// sent and filled in by the object-event callback.
#[derive(Debug, Clone)]
pub struct CaptureData {
    /// The downloaded image bytes, set on a successful transfer.
    pub image_data: Option<Vec<u8>>,
    /// True once the callback has delivered a terminal outcome.
    pub capture_complete: bool,
    /// The failure text, set when any download step failed.
    pub capture_error: Option<String>,
}

/// Mathematical model of a `CaptureData` record.
pub struct CaptureModel {
    pub image_data: Option<Seq<u8>>,
    pub capture_complete: bool,
    pub capture_error: Option<Seq<char>>,
}

impl CaptureModel {
    /// A record holds exactly one of image bytes or an error once complete,
    /// and neither before; delivered payloads stay within encoding range.
    pub open spec fn wf(self) -> bool {
        &&& self.capture_complete ==> (self.image_data is Some <==> self.capture_error is None)
        &&& !self.capture_complete ==> self.image_data is None && self.capture_error is None
        &&& self.image_data matches Some(d) ==> payload_fits(d.len())
    }

    /// The empty record a capture flow starts from.
    pub open spec fn reset() -> CaptureModel {
        CaptureModel { image_data: None, capture_complete: false, capture_error: None }
    }
}

impl View for CaptureData {
    type V = CaptureModel;

    open spec fn view(&self) -> CaptureModel {
        CaptureModel {
            image_data: match self.image_data {
                Some(d) => Some(d@),
                None => None,
            },
            capture_complete: self.capture_complete,
            capture_error: match self.capture_error {
                Some(e) => Some(e@),
                None => None,
            },
        }
    }
}

impl CaptureData {
    /// Build the empty record.
    pub fn reset() -> (r: CaptureData)
        ensures
            r@ == CaptureModel::reset(),
    {
        CaptureData { image_data: None, capture_complete: false, capture_error: None }
    }
}

impl Default for CaptureData {
    fn default() -> (r: Self)
        ensures
            r@ == CaptureModel::reset(),
    {
        CaptureData::reset()
    }
}

/// Per-recording record, reset when a recording starts and filled in by the
/// object-event callback once the movie file has been fetched from the
/// device's storage.
#[derive(Debug, Clone)]
pub struct MovieData {
    /// Local path of the downloaded movie file.
    pub movie_path: Option<String>,
    /// True once the callback has delivered a terminal outcome.
    pub download_complete: bool,
    /// The failure text, set when any download step failed.
    pub download_error: Option<String>,
}

/// Mathematical model of a `MovieData` record.
pub struct MovieModel {
    pub movie_path: Option<Seq<char>>,
    pub download_complete: bool,
    pub download_error: Option<Seq<char>>,
}

impl MovieModel {
    /// A record holds exactly one of a local path or an error once complete,
    /// and neither before.
    pub open spec fn wf(self) -> bool {
        &&& self.download_complete ==> (self.movie_path is Some <==> self.download_error is None)
        &&& !self.download_complete ==> self.movie_path is None && self.download_error is None
    }

    /// The empty record a recording cycle starts from.
    pub open spec fn reset() -> MovieModel {
        MovieModel { movie_path: None, download_complete: false, download_error: None }
    }
}

impl View for MovieData {
    type V = MovieModel;

    open spec fn view(&self) -> MovieModel {
        MovieModel {
            movie_path: match self.movie_path {
                Some(p) => Some(p@),
                None => None,
            },
            download_complete: self.download_complete,
            download_error: match self.download_error {
                Some(e) => Some(e@),
                None => None,
            },
        }
    }
}

impl MovieData {
    /// Build the empty record.
    pub fn reset() -> (r: MovieData)
        ensures
            r@ == MovieModel::reset(),
    {
        MovieData { movie_path: None, download_complete: false, download_error: None }
    }
}

impl Default for MovieData {
    fn default() -> (r: Self)
        ensures
            r@ == MovieModel::reset(),
    {
        MovieData::reset()
    }
}

} // verus!
