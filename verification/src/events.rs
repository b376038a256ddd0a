//! The two native-callback entry points, as verified functions of the
//! coordinator state and of the event that fired.
//!
//! The vendor library invokes its callbacks synchronously from inside the
//! event pump. Each callback performs its downloads through further native
//! calls; the outcomes of those calls arrive here as the payload of the
//! event value, and the handler's own job — branching on the notification
//! kind and writing a terminal outcome into the right record — is verified
//! against the transition function [`object_event_step`].

use vstd::prelude::*;

use crate::coordinator::{Coordinator, CoordinatorModel};
use crate::errors::error_name;
use crate::errors::error_to_string;
use crate::types::payload_fits;
use crate::types::{CaptureData, CaptureModel, MovieData, MovieModel};

verus! {

/// Outcome of the download a "media ready for transfer" (still photo)
/// notification triggers: each failing native step, or the fetched bytes.
#[derive(Debug, Clone)]
pub enum PhotoFetch {
    /// Reading the directory-item info failed with a native code.
    InfoFailed(u32),
    /// Creating the in-memory stream failed with a native code.
    StreamFailed(u32),
    /// The transfer itself failed with a native code.
    TransferFailed(u32),
    /// The stream's data pointer could not be obtained.
    PointerFailed,
    /// The stream's length could not be obtained, or was zero.
    LengthFailed,
    /// The photo bytes, fully fetched.
    Data(Vec<u8>),
}

/// Model of a [`PhotoFetch`], over sequences.
pub enum PhotoFetchModel {
    InfoFailed(u32),
    StreamFailed(u32),
    TransferFailed(u32),
    PointerFailed,
    LengthFailed,
    Data(Seq<u8>),
}

impl View for PhotoFetch {
    type V = PhotoFetchModel;

    open spec fn view(&self) -> PhotoFetchModel {
        match self {
            PhotoFetch::InfoFailed(code) => PhotoFetchModel::InfoFailed(*code),
            PhotoFetch::StreamFailed(code) => PhotoFetchModel::StreamFailed(*code),
            PhotoFetch::TransferFailed(code) => PhotoFetchModel::TransferFailed(*code),
            PhotoFetch::PointerFailed => PhotoFetchModel::PointerFailed,
            PhotoFetch::LengthFailed => PhotoFetchModel::LengthFailed,
            PhotoFetch::Data(d) => PhotoFetchModel::Data(d@),
        }
    }
}

/// Outcome of the download a "item created on device storage" (movie file)
/// notification triggers while a recording is in flight.
#[derive(Debug, Clone)]
pub enum MovieFetch {
    /// Reading the directory-item info failed with a native code.
    InfoFailed(u32),
    /// The local target path could not be expressed as a C string.
    BadPath,
    /// Creating the local file stream failed with a native code.
    StreamFailed(u32),
    /// The transfer itself failed with a native code.
    TransferFailed(u32),
    /// The movie file was fetched to this local path (and deleted from the
    /// device's storage, best effort).
    Saved(String),
}

/// Model of a [`MovieFetch`], over sequences.
pub enum MovieFetchModel {
    InfoFailed(u32),
    BadPath,
    StreamFailed(u32),
    TransferFailed(u32),
    Saved(Seq<char>),
}

impl View for MovieFetch {
    type V = MovieFetchModel;

    open spec fn view(&self) -> MovieFetchModel {
        match self {
            MovieFetch::InfoFailed(code) => MovieFetchModel::InfoFailed(*code),
            MovieFetch::BadPath => MovieFetchModel::BadPath,
            MovieFetch::StreamFailed(code) => MovieFetchModel::StreamFailed(*code),
            MovieFetch::TransferFailed(code) => MovieFetchModel::TransferFailed(*code),
            MovieFetch::Saved(p) => MovieFetchModel::Saved(p@),
        }
    }
}

/// One object-event notification, with the outcome of the download work the
/// native callback performed for it.
#[derive(Debug, Clone)]
pub enum ObjectEvent {
    /// A new media item was created on the device's storage.
    ItemCreated(MovieFetch),
    /// A media item is ready for transfer to the host.
    ItemReadyForTransfer(PhotoFetch),
    /// Any other notification; ignored, but acknowledged to the SDK.
    Unrelated,
}

/// Model of an [`ObjectEvent`].
pub enum ObjectEventModel {
    ItemCreated(MovieFetchModel),
    ItemReadyForTransfer(PhotoFetchModel),
    Unrelated,
}

impl View for ObjectEvent {
    type V = ObjectEventModel;

    open spec fn view(&self) -> ObjectEventModel {
        match self {
            ObjectEvent::ItemCreated(f) => ObjectEventModel::ItemCreated(f@),
            ObjectEvent::ItemReadyForTransfer(f) => ObjectEventModel::ItemReadyForTransfer(f@),
            ObjectEvent::Unrelated => ObjectEventModel::Unrelated,
        }
    }
}

impl DeepView for ObjectEvent {
    type V = ObjectEventModel;

    open spec fn deep_view(&self) -> ObjectEventModel {
        self@
    }
}

/// One device-state notification.
#[derive(Debug, Clone)]
pub enum StateEvent {
    /// The device disconnected or shut down.
    Shutdown,
    /// Any other state change; ignored.
    Other,
}

impl ObjectEventModel {
    /// Delivered photo payloads stay within encoding range (a machine
    /// limit: their base64 rendering must fit in a `usize` length).
    pub open spec fn wf(self) -> bool {
        self matches ObjectEventModel::ItemReadyForTransfer(PhotoFetchModel::Data(d))
            ==> payload_fits(d.len())
    }
}

/// All events of a pump window are well-formed.
pub open spec fn events_wf(evs: Seq<ObjectEventModel>) -> bool {
    forall|i: int| 0 <= i < evs.len() ==> (#[trigger] evs[i]).wf()
}

/// The error text recorded for a failing photo fetch.
pub open spec fn photo_error_text(f: PhotoFetchModel) -> Seq<char> {
    match f {
        PhotoFetchModel::InfoFailed(code) => "Get dir info failed: "@ + error_name(code),
        PhotoFetchModel::StreamFailed(code) => "Create stream failed: "@ + error_name(code),
        PhotoFetchModel::TransferFailed(code) => "Download failed: "@ + error_name(code),
        PhotoFetchModel::PointerFailed => "Get pointer failed"@,
        PhotoFetchModel::LengthFailed => "Get length failed"@,
        PhotoFetchModel::Data(_) => Seq::empty(),
    }
}

/// The error text recorded for a failing movie fetch.
pub open spec fn movie_error_text(f: MovieFetchModel) -> Seq<char> {
    match f {
        MovieFetchModel::InfoFailed(code) => "Get dir info failed: "@ + error_name(code),
        MovieFetchModel::BadPath => "Invalid path"@,
        MovieFetchModel::StreamFailed(code) => "Create file stream failed: "@ + error_name(code),
        MovieFetchModel::TransferFailed(code) => "Movie download failed: "@ + error_name(code),
        MovieFetchModel::Saved(_) => Seq::empty(),
    }
}

/// The terminal capture record a photo fetch produces.
pub open spec fn capture_record_after(f: PhotoFetchModel) -> CaptureModel {
    match f {
        PhotoFetchModel::Data(d) => CaptureModel {
            image_data: Some(d),
            capture_complete: true,
            capture_error: None,
        },
        _ => CaptureModel {
            image_data: None,
            capture_complete: true,
            capture_error: Some(photo_error_text(f)),
        },
    }
}

/// The terminal movie record a movie fetch produces.
pub open spec fn movie_record_after(f: MovieFetchModel) -> MovieModel {
    match f {
        MovieFetchModel::Saved(p) => MovieModel {
            movie_path: Some(p),
            download_complete: true,
            download_error: None,
        },
        _ => MovieModel {
            movie_path: None,
            download_complete: true,
            download_error: Some(movie_error_text(f)),
        },
    }
}

/// What one object event does to the coordinator state: a movie-file
/// creation is acted on only while a recording is in flight, a photo
/// transfer only while a capture record is armed, and everything else is
/// ignored.
pub open spec fn object_event_step(s: CoordinatorModel, ev: ObjectEventModel) -> CoordinatorModel {
    match ev {
        ObjectEventModel::ItemCreated(f) => {
            if s.is_recording {
                CoordinatorModel { movie: movie_record_after(f), ..s }
            } else {
                s
            }
        },
        ObjectEventModel::ItemReadyForTransfer(f) => {
            if s.capture is Some {
                CoordinatorModel { capture: Some(capture_record_after(f)), ..s }
            } else {
                s
            }
        },
        ObjectEventModel::Unrelated => s,
    }
}

/// The coordinator state after a whole sequence of object events.
pub open spec fn pump_fold(s: CoordinatorModel, evs: Seq<ObjectEventModel>) -> CoordinatorModel
    decreases evs.len(),
{
    if evs.len() == 0 {
        s
    } else {
        pump_fold(object_event_step(s, evs[0]), evs.drop_first())
    }
}

/// The coordinator state after pumping events until the capture record
/// reaches a terminal outcome, as the blocking capture flows do; events
/// after the completing one belong to later pump windows.
pub open spec fn pump_until_capture(s: CoordinatorModel, evs: Seq<ObjectEventModel>) -> CoordinatorModel
    decreases evs.len(),
{
    if evs.len() == 0 || s.capture_complete() {
        s
    } else {
        pump_until_capture(object_event_step(s, evs[0]), evs.drop_first())
    }
}

/// The coordinator state after pumping events until the movie record
/// reaches a terminal outcome, as the movie-wait flows do.
pub open spec fn pump_until_movie(s: CoordinatorModel, evs: Seq<ObjectEventModel>) -> CoordinatorModel
    decreases evs.len(),
{
    if evs.len() == 0 || s.movie.download_complete {
        s
    } else {
        pump_until_movie(object_event_step(s, evs[0]), evs.drop_first())
    }
}

/// One object-event step preserves well-formedness and touches only the
/// two transient records.
pub proof fn lemma_object_event_step_wf(s: CoordinatorModel, ev: ObjectEventModel)
    requires
        s.wf(),
        ev.wf(),
    ensures
        object_event_step(s, ev).wf(),
        object_event_step(s, ev) == (CoordinatorModel {
            capture: object_event_step(s, ev).capture,
            movie: object_event_step(s, ev).movie,
            ..s
        }),
{
}

/// Pumping until capture completion preserves well-formedness and touches
/// only the two transient records.
pub proof fn lemma_pump_until_capture_wf(s: CoordinatorModel, evs: Seq<ObjectEventModel>)
    requires
        s.wf(),
        events_wf(evs),
    ensures
        pump_until_capture(s, evs).wf(),
        pump_until_capture(s, evs) == (CoordinatorModel {
            capture: pump_until_capture(s, evs).capture,
            movie: pump_until_capture(s, evs).movie,
            ..s
        }),
    decreases evs.len(),
{
    if evs.len() == 0 || s.capture_complete() {
    } else {
        lemma_object_event_step_wf(s, evs[0]);
        assert(events_wf(evs.drop_first())) by {
            assert(forall|i: int|
                0 <= i < evs.drop_first().len() ==> evs.drop_first()[i] == evs[i + 1]);
        }
        lemma_pump_until_capture_wf(object_event_step(s, evs[0]), evs.drop_first());
    }
}

/// Pumping until movie completion preserves well-formedness and touches
/// only the two transient records.
pub proof fn lemma_pump_until_movie_wf(s: CoordinatorModel, evs: Seq<ObjectEventModel>)
    requires
        s.wf(),
        events_wf(evs),
    ensures
        pump_until_movie(s, evs).wf(),
        pump_until_movie(s, evs) == (CoordinatorModel {
            capture: pump_until_movie(s, evs).capture,
            movie: pump_until_movie(s, evs).movie,
            ..s
        }),
    decreases evs.len(),
{
    if evs.len() == 0 || s.movie.download_complete {
    } else {
        lemma_object_event_step_wf(s, evs[0]);
        assert(events_wf(evs.drop_first())) by {
            assert(forall|i: int|
                0 <= i < evs.drop_first().len() ==> evs.drop_first()[i] == evs[i + 1]);
        }
        lemma_pump_until_movie_wf(object_event_step(s, evs[0]), evs.drop_first());
    }
}

fn photo_record_for(f: &PhotoFetch) -> (r: CaptureData)
    requires
        f@ matches PhotoFetchModel::Data(d) ==> payload_fits(d.len()),
    ensures
        r@ == capture_record_after(f@),
{
    match f {
        PhotoFetch::InfoFailed(code) => {
            let mut m = String::from_str("Get dir info failed: ");
            m.append(error_to_string(*code));
            CaptureData { image_data: None, capture_complete: true, capture_error: Some(m) }
        },
        PhotoFetch::StreamFailed(code) => {
            let mut m = String::from_str("Create stream failed: ");
            m.append(error_to_string(*code));
            CaptureData { image_data: None, capture_complete: true, capture_error: Some(m) }
        },
        PhotoFetch::TransferFailed(code) => {
            let mut m = String::from_str("Download failed: ");
            m.append(error_to_string(*code));
            CaptureData { image_data: None, capture_complete: true, capture_error: Some(m) }
        },
        PhotoFetch::PointerFailed => CaptureData {
            image_data: None,
            capture_complete: true,
            capture_error: Some(String::from_str("Get pointer failed")),
        },
        PhotoFetch::LengthFailed => CaptureData {
            image_data: None,
            capture_complete: true,
            capture_error: Some(String::from_str("Get length failed")),
        },
        PhotoFetch::Data(d) => CaptureData {
            image_data: Some(d.clone()),
            capture_complete: true,
            capture_error: None,
        },
    }
}

fn movie_record_for(f: &MovieFetch) -> (r: MovieData)
    ensures
        r@ == movie_record_after(f@),
{
    match f {
        MovieFetch::InfoFailed(code) => {
            let mut m = String::from_str("Get dir info failed: ");
            m.append(error_to_string(*code));
            MovieData { movie_path: None, download_complete: true, download_error: Some(m) }
        },
        MovieFetch::BadPath => MovieData {
            movie_path: None,
            download_complete: true,
            download_error: Some(String::from_str("Invalid path")),
        },
        MovieFetch::StreamFailed(code) => {
            let mut m = String::from_str("Create file stream failed: ");
            m.append(error_to_string(*code));
            MovieData { movie_path: None, download_complete: true, download_error: Some(m) }
        },
        MovieFetch::TransferFailed(code) => {
            let mut m = String::from_str("Movie download failed: ");
            m.append(error_to_string(*code));
            MovieData { movie_path: None, download_complete: true, download_error: Some(m) }
        },
        MovieFetch::Saved(path) => MovieData {
            movie_path: Some(path.clone()),
            download_complete: true,
            download_error: None,
        },
    }
}

impl Coordinator {
    /// The object-event callback: branch on the notification kind and write
    /// the terminal outcome into the right record. Always returns the
    /// neutral status the SDK expects, so its internal state machine is not
    /// disturbed.
    pub fn handle_object_event(&mut self, ev: &ObjectEvent) -> (r: u32)
        requires
            old(self)@.wf(),
            ev@.wf(),
        ensures
            r == 0u32,
            final(self)@.wf(),
            final(self)@ == object_event_step(old(self)@, ev@),
    {
        match ev {
            ObjectEvent::ItemCreated(f) => {
                if self.is_recording {
                    self.movie = movie_record_for(f);
                }
            },
            ObjectEvent::ItemReadyForTransfer(f) => {
                if self.capture.is_some() {
                    self.capture = Some(photo_record_for(f));
                }
            },
            ObjectEvent::Unrelated => {},
        }
        0
    }

    /// The state-event callback: on a shutdown notification, close the
    /// session and drop the handle — but only when the device lock could be
    /// acquired without blocking; otherwise the disconnect is left to be
    /// discovered by the next explicit call. Always acknowledges the event.
    pub fn handle_state_event(&mut self, ev: &StateEvent, lock_acquired: bool) -> (r: u32)
        requires
            old(self)@.wf(),
        ensures
            r == 0u32,
            final(self)@.wf(),
            final(self)@ == state_event_step(old(self)@, *ev, lock_acquired),
    {
        match ev {
            StateEvent::Shutdown => {
                if lock_acquired {
                    self.connected = false;
                    self.session_open = false;
                    self.object_handler_registered = false;
                    self.state_handler_registered = false;
                }
            },
            StateEvent::Other => {},
        }
        0
    }
}

/// The coordinator state after one state event.
pub open spec fn state_event_step(
    s: CoordinatorModel,
    ev: StateEvent,
    lock_acquired: bool,
) -> CoordinatorModel {
    match ev {
        StateEvent::Shutdown => {
            if lock_acquired {
                CoordinatorModel {
                    connected: false,
                    session_open: false,
                    object_handler_registered: false,
                    state_handler_registered: false,
                    ..s
                }
            } else {
                s
            }
        },
        StateEvent::Other => s,
    }
}

} // verus!
