//! Movie recording: start, the two stop variants, the deferred movie-file
//! finalise step, and the photo-while-recording compound operation.
//!
//! The flows re-sequence device mode switches (still vs. movie), save-target
//! switches (host, device storage, or both) and live-view toggles exactly as
//! the device needs them; the ordering encoded here is load-bearing and the
//! contracts pin it down field by field.

use vstd::prelude::*;

use crate::capture::{
    capture_result_matches, fail_with, take_picture_outcome, take_picture_post, CaptureIo,
    CaptureIoModel, CaptureOutcome,
};
use crate::coordinator::{Coordinator, CoordinatorModel};
use crate::encode::encode_capture_payload;
use crate::errors::CameraError;
use crate::events::{
    events_wf, pump_until_capture, pump_until_movie, ObjectEvent, ObjectEventModel,
};
use crate::types::{
    CaptureData, CaptureModel, CaptureResult, MovieData, MovieModel, SaveDest, SdkState,
};

verus! {

/// Outcomes of the native calls the recording-start flow issues.
#[derive(Debug, Clone)]
pub struct RecordStartIo {
    /// Result of registering the object-event callback; consulted only when
    /// the callback is not registered yet.
    pub register_code: u32,
    /// Result of the final "begin recording" property write.
    pub begin_code: u32,
}

/// Outcomes of the native calls a stop-and-wait flow issues.
#[derive(Debug, Clone)]
pub struct MovieStopIo {
    /// Result of the "end recording" property write. A failure here is
    /// logged and ignored: the flow still waits and cleans up.
    pub end_code: u32,
    /// The object events the pump delivered within the wait window.
    pub events: Vec<ObjectEvent>,
}

impl MovieStopIo {
    /// All delivered events are well-formed.
    pub open spec fn wf(self) -> bool {
        events_wf(self.events.deep_view())
    }
}

/// The coordinator state after the recording-start flow: once past the
/// guards, the callback is registered, the movie record is fresh, media is
/// directed to device storage, live view feeds the host, and — only when
/// the final begin write succeeded — the recording flag is up.
pub open spec fn start_recording_post(s: CoordinatorModel, io: RecordStartIo) -> CoordinatorModel {
    if !(s.sdk is Initialized) || s.is_recording || !s.connected || !s.session_open || (
    !s.object_handler_registered && io.register_code != 0) {
        s
    } else {
        let prepared = CoordinatorModel {
            object_handler_registered: true,
            movie: MovieModel::reset(),
            save_dest: SaveDest::DeviceStorage,
            live_view_on: true,
            ..s
        };
        if io.begin_code != 0 {
            prepared
        } else {
            CoordinatorModel { is_recording: true, ..prepared }
        }
    }
}

/// The result of the recording-start flow. Starting while already
/// recording is a no-op success.
pub open spec fn start_recording_result(s: CoordinatorModel, io: RecordStartIo) -> Result<
    bool,
    CameraError,
> {
    if !(s.sdk is Initialized) {
        Err(CameraError::SdkNotInitialized)
    } else if s.is_recording {
        Ok(true)
    } else if !s.connected {
        Err(CameraError::NoDeviceConnected)
    } else if !s.session_open {
        Err(CameraError::SessionNotOpen)
    } else if !s.object_handler_registered && io.register_code != 0 {
        Err(CameraError::CommandFailed(io.register_code))
    } else if io.begin_code != 0 {
        Err(CameraError::CommandFailed(io.begin_code))
    } else {
        Ok(true)
    }
}

/// The spec-level outcome of a flow that waits for the movie file.
pub enum MovieOutcome {
    /// No recording cycle is in flight.
    NotRecording,
    /// No device handle is retained.
    NoCamera,
    /// The callback recorded this download error.
    DownloadFailed(Seq<char>),
    /// The movie file arrived at this local path.
    Saved(Seq<char>),
    /// The wait window elapsed without a terminal record.
    TimedOut,
}

/// Whether a concrete movie result reports the given outcome.
pub open spec fn movie_result_matches(r: Result<String, CameraError>, o: MovieOutcome) -> bool {
    match o {
        MovieOutcome::NotRecording => r == Err::<String, _>(CameraError::NotRecording),
        MovieOutcome::NoCamera => r == Err::<String, _>(CameraError::NoDeviceConnected),
        MovieOutcome::DownloadFailed(e) => r matches Err(CameraError::DownloadFailed(t)) && t@
            == e,
        MovieOutcome::Saved(p) => r matches Ok(path) && path@ == p,
        MovieOutcome::TimedOut => r == Err::<String, _>(CameraError::CaptureTimeout),
    }
}

/// The terminal outcome carried by a movie record after a wait.
pub open spec fn movie_record_outcome(m: MovieModel) -> MovieOutcome {
    if !m.download_complete {
        MovieOutcome::TimedOut
    } else {
        match m.download_error {
            Some(e) => MovieOutcome::DownloadFailed(e),
            None => match m.movie_path {
                Some(p) => MovieOutcome::Saved(p),
                None => MovieOutcome::TimedOut,
            },
        }
    }
}

/// The coordinator state after the stop-and-wait flow: the movie record is
/// reset and then pumped to its outcome, the recording flag is dropped
/// whatever happened, the device is back in still mode with live view off,
/// and media is directed to the host again.
pub open spec fn stop_wait_post(s: CoordinatorModel, evs: Seq<ObjectEventModel>) -> CoordinatorModel {
    if !s.is_recording || !s.connected {
        s
    } else {
        let pumped = pump_until_movie(
            CoordinatorModel { movie: MovieModel::reset(), ..s },
            evs,
        );
        CoordinatorModel {
            is_recording: false,
            live_view_on: false,
            save_dest: SaveDest::Host,
            ..pumped
        }
    }
}

/// The outcome of the stop-and-wait flow.
pub open spec fn stop_wait_outcome(s: CoordinatorModel, evs: Seq<ObjectEventModel>) -> MovieOutcome {
    if !s.is_recording {
        MovieOutcome::NotRecording
    } else if !s.connected {
        MovieOutcome::NoCamera
    } else {
        movie_record_outcome(
            pump_until_movie(CoordinatorModel { movie: MovieModel::reset(), ..s }, evs).movie,
        )
    }
}

/// The coordinator state after the fast stop: recording is ended on the
/// device, still mode, live view off and host save destination are restored
/// for an immediate still capture — but the recording flag deliberately
/// stays up, so the movie file's later "item created" event is still
/// recognised as movie output.
pub open spec fn stop_fast_post(s: CoordinatorModel) -> CoordinatorModel {
    if !s.is_recording || !s.connected {
        s
    } else {
        CoordinatorModel {
            movie: MovieModel::reset(),
            live_view_on: false,
            save_dest: SaveDest::Host,
            ..s
        }
    }
}

/// The result of the fast stop.
pub open spec fn stop_fast_result(s: CoordinatorModel) -> Result<bool, CameraError> {
    if !s.is_recording {
        Err(CameraError::NotRecording)
    } else if !s.connected {
        Err(CameraError::NoDeviceConnected)
    } else {
        Ok(true)
    }
}

/// The coordinator state after the finalise step: the record is pumped to
/// its outcome (or was already terminal), the recording flag is dropped on
/// every path, and the save destination is restored to the host whenever a
/// device handle is still there to carry the property write.
pub open spec fn finalize_post(s: CoordinatorModel, evs: Seq<ObjectEventModel>) -> CoordinatorModel {
    let pumped = pump_until_movie(s, evs);
    CoordinatorModel {
        is_recording: false,
        save_dest: if pumped.connected {
            SaveDest::Host
        } else {
            pumped.save_dest
        },
        ..pumped
    }
}

/// The outcome of the finalise step.
pub open spec fn finalize_outcome(s: CoordinatorModel, evs: Seq<ObjectEventModel>) -> MovieOutcome {
    movie_record_outcome(pump_until_movie(s, evs).movie)
}

/// Outcomes of the native calls the photo-while-recording flow issues.
#[derive(Debug, Clone)]
pub struct PhotoDuringIo {
    /// Result of the non-autofocus full shutter press, the command that
    /// snaps a still while the device stays in movie mode.
    pub shutter_code: u32,
    /// The object events the pump delivered within the photo window.
    pub events: Vec<ObjectEvent>,
    /// Result of the end-recording write issued by the fast stop on the
    /// stop-then-shoot fallback path.
    pub fallback_end_code: u32,
    /// Outcomes for the plain capture flow, used when the flow delegates or
    /// falls back to it.
    pub fallback: CaptureIo,
}

/// Model of a [`PhotoDuringIo`].
pub struct PhotoDuringIoModel {
    pub shutter_code: u32,
    pub events: Seq<ObjectEventModel>,
    pub fallback_end_code: u32,
    pub fallback: CaptureIoModel,
}

impl View for PhotoDuringIo {
    type V = PhotoDuringIoModel;

    open spec fn view(&self) -> PhotoDuringIoModel {
        PhotoDuringIoModel {
            shutter_code: self.shutter_code,
            events: self.events.deep_view(),
            fallback_end_code: self.fallback_end_code,
            fallback: self.fallback@,
        }
    }
}

impl PhotoDuringIoModel {
    /// All delivered events are well-formed, in both windows.
    pub open spec fn wf(self) -> bool {
        events_wf(self.events) && self.fallback.wf()
    }
}

/// The coordinator state right after the photo-while-recording flow has
/// armed itself: the guard held, media directed to host and device storage
/// at once, and both transient records fresh.
pub open spec fn photo_during_armed(s: CoordinatorModel) -> CoordinatorModel {
    CoordinatorModel {
        is_capturing: true,
        save_dest: SaveDest::Both,
        capture: Some(CaptureModel::reset()),
        movie: MovieModel::reset(),
        ..s
    }
}

/// The state after the photo window closed: live view off, the capture
/// record consumed, the guard released — while the recording flag and the
/// combined save destination deliberately stay, for the movie file's
/// later event.
pub open spec fn photo_window_closed(pumped: CoordinatorModel) -> CoordinatorModel {
    CoordinatorModel { live_view_on: false, capture: None, is_capturing: false, ..pumped }
}

/// The coordinator state after the photo-while-recording flow.
pub open spec fn photo_during_post(s: CoordinatorModel, io: PhotoDuringIoModel) -> CoordinatorModel {
    if !s.is_recording {
        take_picture_post(s, io.fallback)
    } else if !(s.sdk is Initialized) || s.is_capturing || !s.connected {
        s
    } else {
        let armed = photo_during_armed(s);
        if io.shutter_code != 0 {
            let released = CoordinatorModel { is_capturing: false, ..armed };
            take_picture_post(stop_fast_post(released), io.fallback)
        } else {
            let pumped = pump_until_capture(armed, io.events);
            let stopped = photo_window_closed(pumped);
            match pumped.capture {
                Some(rec) => {
                    if rec.capture_complete && (rec.capture_error is Some || rec.image_data
                        is Some) {
                        stopped
                    } else {
                        take_picture_post(stopped, io.fallback)
                    }
                },
                None => take_picture_post(stopped, io.fallback),
            }
        }
    }
}

/// The outcome of the photo-while-recording flow. Every path that cannot
/// deliver the in-movie photo falls back to the plain capture flow, so the
/// caller sees the plain flow's result shape either way.
pub open spec fn photo_during_outcome(s: CoordinatorModel, io: PhotoDuringIoModel) -> CaptureOutcome {
    if !s.is_recording {
        take_picture_outcome(s, io.fallback)
    } else if !(s.sdk is Initialized) {
        CaptureOutcome::NotInitialized
    } else if s.is_capturing {
        CaptureOutcome::AlreadyInProgress
    } else if !s.connected {
        CaptureOutcome::NoCamera
    } else {
        let armed = photo_during_armed(s);
        if io.shutter_code != 0 {
            let released = CoordinatorModel { is_capturing: false, ..armed };
            take_picture_outcome(stop_fast_post(released), io.fallback)
        } else {
            let pumped = pump_until_capture(armed, io.events);
            let stopped = photo_window_closed(pumped);
            match pumped.capture {
                Some(rec) => {
                    if rec.capture_complete {
                        match rec.capture_error {
                            Some(e) => CaptureOutcome::Failed(e),
                            None => match rec.image_data {
                                Some(d) => CaptureOutcome::Captured(d),
                                None => take_picture_outcome(stopped, io.fallback),
                            },
                        }
                    } else {
                        take_picture_outcome(stopped, io.fallback)
                    }
                },
                None => take_picture_outcome(stopped, io.fallback),
            }
        }
    }
}

impl Coordinator {
    /// Whether the movie record has reached a terminal outcome.
    fn movie_record_complete(&self) -> (r: bool)
        ensures
            r == self@.movie.download_complete,
    {
        self.movie.download_complete
    }

    /// Run the pump loop of a movie wait: feed events to the object-event
    /// callback until the movie record reaches a terminal outcome or the
    /// window is exhausted.
    fn pump_movie_window(&mut self, events: &Vec<ObjectEvent>)
        requires
            old(self)@.wf(),
            events_wf(events.deep_view()),
        ensures
            final(self)@.wf(),
            final(self)@ == pump_until_movie(old(self)@, events.deep_view()),
    {
        let ghost evs = events.deep_view();
        proof {
            assert(evs.skip(0) =~= evs);
        }
        let mut i: usize = 0;
        while i < events.len() && !self.movie_record_complete()
            invariant
                i <= events.len(),
                events.deep_view() == evs,
                events_wf(evs),
                self@.wf(),
                pump_until_movie(old(self)@, evs) == pump_until_movie(self@, evs.skip(i as int)),
            decreases events.len() - i,
        {
            assert(evs[i as int].wf());
            self.handle_object_event(&events[i]);
            proof {
                assert(evs.skip(i as int).drop_first() =~= evs.skip(i as int + 1));
                assert(evs.skip(i as int)[0] == evs[i as int]);
            }
            i = i + 1;
        }
        proof {
            if i < events.len() {
            } else {
                assert(evs.skip(i as int) =~= Seq::<ObjectEventModel>::empty());
            }
        }
    }

    /// Read the terminal movie outcome out of the current record.
    fn movie_record_result(&self) -> (r: Result<String, CameraError>)
        requires
            self@.wf(),
        ensures
            movie_result_matches(r, movie_record_outcome(self@.movie)),
    {
        if !self.movie.download_complete {
            return Err(CameraError::CaptureTimeout);
        }
        if let Some(e) = &self.movie.download_error {
            return Err(CameraError::DownloadFailed(e.clone()));
        }
        match &self.movie.movie_path {
            Some(p) => Ok(p.clone()),
            None => Err(CameraError::CaptureTimeout),
        }
    }

    /// Start movie recording. A no-op success while already recording.
    ///
    /// The sequence is deliberate: media is directed to device storage
    /// (movies must land on removable media), the device enters movie mode,
    /// the autofocus and drive settings known to stall mid-capture are
    /// forced off, live view feeds the host, and only then is the begin
    /// write issued. When that final write fails, a revert to still mode is
    /// attempted and the error is surfaced.
    pub fn start_recording(&mut self, io: &RecordStartIo) -> (r: Result<bool, CameraError>)
        requires
            old(self)@.wf(),
        ensures
            final(self)@.wf(),
            final(self)@ == start_recording_post(old(self)@, *io),
            r == start_recording_result(old(self)@, *io),
    {
        if self.sdk != SdkState::Initialized {
            return Err(CameraError::SdkNotInitialized);
        }
        if self.is_recording {
            return Ok(true);
        }
        if !self.connected {
            return Err(CameraError::NoDeviceConnected);
        }
        if !self.session_open {
            return Err(CameraError::SessionNotOpen);
        }
        if !self.object_handler_registered {
            if io.register_code != 0 {
                return Err(CameraError::CommandFailed(io.register_code));
            }
            self.object_handler_registered = true;
        }
        self.movie = MovieData::reset();
        self.save_dest = SaveDest::DeviceStorage;
        self.live_view_on = true;
        if io.begin_code != 0 {
            // The revert to still mode is attempted on the device; the
            // coordinator state keeps the destination it last requested.
            return Err(CameraError::CommandFailed(io.begin_code));
        }
        self.is_recording = true;
        Ok(true)
    }

    /// Stop recording and wait for the movie file to arrive from the
    /// device, then restore still mode, live-view-off and the host save
    /// destination. The recording flag is dropped whatever the outcome.
    #[verifier::rlimit(50)]
    pub fn stop_recording_wait(&mut self, io: &MovieStopIo) -> (r: Result<String, CameraError>)
        requires
            old(self)@.wf(),
            io.wf(),
        ensures
            final(self)@.wf(),
            final(self)@ == stop_wait_post(old(self)@, io.events.deep_view()),
            movie_result_matches(r, stop_wait_outcome(old(self)@, io.events.deep_view())),
    {
        if !self.is_recording {
            return Err(CameraError::NotRecording);
        }
        if !self.connected {
            return Err(CameraError::NoDeviceConnected);
        }
        self.movie = MovieData::reset();
        // The end-recording write's own failure is ignored: the wait and
        // the cleanup below must run regardless.
        self.pump_movie_window(&io.events);
        self.is_recording = false;
        self.live_view_on = false;
        self.save_dest = SaveDest::Host;
        self.movie_record_result()
    }

    /// Stop recording and restore still mode, live-view-off and the host
    /// save destination immediately, without waiting for the movie file.
    /// The recording flag stays up on purpose; the caller must invoke
    /// [`Coordinator::finalize_movie_download`] later.
    pub fn stop_recording_fast(&mut self, end_code: u32) -> (r: Result<bool, CameraError>)
        requires
            old(self)@.wf(),
        ensures
            final(self)@.wf(),
            final(self)@ == stop_fast_post(old(self)@),
            r == stop_fast_result(old(self)@),
    {
        if !self.is_recording {
            return Err(CameraError::NotRecording);
        }
        if !self.connected {
            return Err(CameraError::NoDeviceConnected);
        }
        // The end-recording write's failure (end_code) is logged and
        // ignored, as is the mode switch: the restore steps always run.
        let _ = end_code;
        self.movie = MovieData::reset();
        self.live_view_on = false;
        self.save_dest = SaveDest::Host;
        Ok(true)
    }

    /// Wait for the movie file of the current cycle to finish downloading;
    /// an already terminal record returns immediately. On every path the
    /// recording flag is dropped and, while a device handle is still
    /// retained, the save destination is restored to the host.
    pub fn finalize_movie_download(&mut self, events: &Vec<ObjectEvent>) -> (r: Result<
        String,
        CameraError,
    >)
        requires
            old(self)@.wf(),
            events_wf(events.deep_view()),
        ensures
            final(self)@.wf(),
            final(self)@ == finalize_post(old(self)@, events.deep_view()),
            movie_result_matches(r, finalize_outcome(old(self)@, events.deep_view())),
    {
        self.pump_movie_window(events);
        self.is_recording = false;
        if self.connected {
            self.save_dest = SaveDest::Host;
        }
        self.movie_record_result()
    }

    /// Take a photo while the camera is still recording: press the shutter
    /// without autofocus, wait for the photo, end the recording and switch
    /// back to still mode — deliberately without restoring the save
    /// destination, which the pending movie-file event still needs; the
    /// caller must invoke [`Coordinator::finalize_movie_download`]
    /// afterwards. When the in-movie shutter press is refused, or no photo
    /// arrived, the flow falls back to stop-then-shoot, and the caller
    /// receives a plain capture result either way.
    #[verifier::rlimit(50)]
    pub fn take_photo_during_recording(&mut self, io: &PhotoDuringIo) -> (r: CaptureResult)
        requires
            old(self)@.wf(),
            io@.wf(),
        ensures
            final(self)@.wf(),
            final(self)@ == photo_during_post(old(self)@, io@),
            capture_result_matches(r@, photo_during_outcome(old(self)@, io@)),
            !old(self)@.is_capturing ==> !final(self)@.is_capturing,
    {
        if !self.is_recording {
            // Not recording: delegate to the plain capture flow.
            return self.take_picture(&io.fallback);
        }
        if self.sdk != SdkState::Initialized {
            return fail_with("SDK not initialized");
        }
        if self.is_capturing {
            return fail_with("Capture already in progress");
        }
        // Acquire the single-flight guard; every return below releases it.
        self.is_capturing = true;
        if !self.connected {
            self.is_capturing = false;
            return fail_with("No camera connected");
        }
        self.save_dest = SaveDest::Both;
        self.capture = Some(CaptureData::reset());
        self.movie = MovieData::reset();
        if io.shutter_code != 0 {
            // The shutter press was refused: release the button, drop the
            // guard, stop the recording fast and shoot normally.
            self.is_capturing = false;
            let _ = self.stop_recording_fast(io.fallback_end_code);
            return self.take_picture(&io.fallback);
        }
        self.pump_capture_window(&io.events);
        // Shutter released, recording ended, still mode and live view off
        // restored on the device; the save destination stays combined.
        self.live_view_on = false;
        let record = self.capture.take();
        self.is_capturing = false;
        match record {
            Some(rec) => {
                if rec.capture_complete {
                    if let Some(e) = rec.capture_error {
                        return CaptureResult { success: false, error: Some(e), image_data: None };
                    }
                    if let Some(data) = rec.image_data {
                        let b64 = encode_capture_payload(&data);
                        return CaptureResult {
                            success: true,
                            error: None,
                            image_data: Some(b64),
                        };
                    }
                }
                // No photo despite the window: stop-then-shoot fallback.
                self.take_picture(&io.fallback)
            },
            None => self.take_picture(&io.fallback),
        }
    }
}

} // verus!
