//! Cross-cutting guarantees of the coordinator, stated and proved over the
//! transition functions of the flows.

use vstd::prelude::*;

use crate::capture::{
    capture_armed, capture_refused, poll_outcome, poll_post, take_picture_outcome,
    take_picture_post, CaptureIoModel, CaptureOutcome, PollOutcome,
};
use crate::coordinator::CoordinatorModel;
use crate::events::{lemma_pump_until_capture_wf, lemma_pump_until_movie_wf, ObjectEventModel, events_wf};
use crate::recording::{
    finalize_outcome, finalize_post, photo_during_armed, photo_during_outcome, photo_during_post,
    photo_window_closed, start_recording_post, stop_fast_post, MovieOutcome, PhotoDuringIoModel,
    RecordStartIo,
};
use crate::types::SaveDest;

verus! {

/// Single flight: a capture requested while another one is in the pump
/// phase is refused with the already-in-progress error and has no effect
/// whatsoever on the coordinator (and so none on device state either).
pub proof fn lemma_capture_single_flight(s: CoordinatorModel, io: CaptureIoModel)
    requires
        s.sdk is Initialized,
        s.is_capturing,
    ensures
        take_picture_post(s, io) == s,
        take_picture_outcome(s, io) == CaptureOutcome::AlreadyInProgress,
{
}

/// Guard release: a capture flow that found the single-flight guard free
/// leaves it free again on every exit path — success, recorded error,
/// refused guard or timeout.
pub proof fn lemma_capture_releases_guard(s: CoordinatorModel, io: CaptureIoModel)
    requires
        s.wf(),
        io.wf(),
        !s.is_capturing,
    ensures
        !take_picture_post(s, io).is_capturing,
{
    if capture_refused(s, io) is Some {
    } else if io.send_code != 0 {
    } else {
        lemma_pump_until_capture_wf(capture_armed(s), io.events);
    }
}

/// Guard release holds for the photo-while-recording flow as well, on the
/// direct path and on both fallback paths.
pub proof fn lemma_photo_during_releases_guard(s: CoordinatorModel, io: PhotoDuringIoModel)
    requires
        s.wf(),
        io.wf(),
        !s.is_capturing,
    ensures
        !photo_during_post(s, io).is_capturing,
{
    if !s.is_recording {
        lemma_capture_releases_guard(s, io.fallback);
    } else if !(s.sdk is Initialized) || s.is_capturing || !s.connected {
    } else {
        let armed = photo_during_armed(s);
        if io.shutter_code != 0 {
            let released = CoordinatorModel { is_capturing: false, ..armed };
            lemma_capture_releases_guard(stop_fast_post(released), io.fallback);
        } else {
            lemma_pump_until_capture_wf(armed, io.events);
            let pumped = crate::events::pump_until_capture(armed, io.events);
            let stopped = photo_window_closed(pumped);
            match pumped.capture {
                Some(rec) => {
                    if rec.capture_complete && (rec.capture_error is Some || rec.image_data
                        is Some) {
                    } else {
                        lemma_capture_releases_guard(stopped, io.fallback);
                    }
                },
                None => {
                    lemma_capture_releases_guard(stopped, io.fallback);
                },
            }
        }
    }
}

/// Poll consumption: a poll before any capture was armed reports that no
/// capture is in progress; a poll of a pending capture reports pending and
/// changes nothing; and a terminal record is handed out exactly once — the
/// next poll reports no capture in progress again.
pub proof fn lemma_poll_consumes_exactly_once(s: CoordinatorModel)
    ensures
        s.capture is None ==> poll_outcome(s) == PollOutcome::NoCapture && poll_post(s) == s,
        (match s.capture {
            Some(r) => !r.capture_complete,
            None => false,
        }) ==> poll_outcome(s) == PollOutcome::Pending && poll_post(s) == s,
        s.capture_complete() ==> poll_post(s).capture is None && poll_outcome(poll_post(s))
            == PollOutcome::NoCapture,
{
}

/// A fast stop followed by the finalise step always ends with the
/// recording flag down, and — as long as the device is still connected —
/// with the save destination restored to the host; the finalise result is
/// the movie file's local path, the recorded download error, or a timeout.
pub proof fn lemma_fast_stop_finalize_restores(
    s: CoordinatorModel,
    start_io: RecordStartIo,
    fin_evs: Seq<ObjectEventModel>,
)
    requires
        s.wf(),
        events_wf(fin_evs),
    ensures
        ({
            let s1 = start_recording_post(s, start_io);
            let s2 = stop_fast_post(s1);
            let s3 = finalize_post(s2, fin_evs);
            &&& !s3.is_recording
            &&& s.connected ==> s3.save_dest == SaveDest::Host
            &&& (finalize_outcome(s2, fin_evs) matches MovieOutcome::Saved(_)
                || finalize_outcome(s2, fin_evs) matches MovieOutcome::DownloadFailed(_)
                || finalize_outcome(s2, fin_evs) matches MovieOutcome::TimedOut)
        }),
{
    let s1 = start_recording_post(s, start_io);
    let s2 = stop_fast_post(s1);
    assert(s1.wf());
    assert(s2.wf());
    assert(s2.connected == s.connected);
    lemma_pump_until_movie_wf(s2, fin_evs);
}

/// Fallback shape: when the in-movie shutter press is refused, the flow's
/// outcome is exactly the plain capture flow's outcome on the cleaned-up
/// state — a caller cannot tell the fallback from a direct still capture
/// by the result's shape.
pub proof fn lemma_fallback_result_shape(s: CoordinatorModel, io: PhotoDuringIoModel)
    requires
        s.is_recording,
        io.shutter_code != 0,
    ensures
        ({
            let released = CoordinatorModel { is_capturing: false, ..photo_during_armed(s) };
            (s.sdk is Initialized && !s.is_capturing && s.connected) ==> photo_during_outcome(
                s,
                io,
            ) == take_picture_outcome(stop_fast_post(released), io.fallback)
        }),
{
}

} // verus!
