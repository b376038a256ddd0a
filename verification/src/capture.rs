//! Still-photo capture: the blocking capture flow, the non-blocking shutter
//! variant, the poll for a pending result, and the opportunistic event pump.
//!
//! Each flow is a function of the coordinator state and of the outcomes of
//! the native calls it issues ([`CaptureIo`]): the registration of the
//! object-event callback, the send of the capture command, and the events
//! the pump delivered within the flow's timeout window. The host performs
//! those calls and hands their outcomes in; everything the flow decides is
//! verified against the transition functions below.

use vstd::prelude::*;

use crate::coordinator::{Coordinator, CoordinatorModel};
use crate::encode::{
    base64_of, encode_capture_payload, encode_raw_payload, shrunk_jpeg_of, CAPTURE_JPEG_QUALITY,
    CAPTURE_MAX_DIMENSION,
};
use crate::errors::error_name;
use crate::errors::error_to_string;
use crate::events::{events_wf, pump_fold, pump_until_capture, ObjectEvent, ObjectEventModel};
use crate::types::{CaptureData, CaptureModel, CaptureResult, CaptureResultModel, SaveDest, SdkState};

verus! {

/// Outcomes of the native calls a capture flow issues, in the order the
/// flow issues them. The zero code is success.
#[derive(Debug, Clone)]
pub struct CaptureIo {
    /// Result of registering the object-event callback; consulted only when
    /// the callback is not registered yet.
    pub register_code: u32,
    /// Result of sending the capture command.
    pub send_code: u32,
    /// The object events the pump delivered within the flow's window, in
    /// order. An empty remainder is a timeout.
    pub events: Vec<ObjectEvent>,
}

/// Model of a [`CaptureIo`].
pub struct CaptureIoModel {
    pub register_code: u32,
    pub send_code: u32,
    pub events: Seq<ObjectEventModel>,
}

impl View for CaptureIo {
    type V = CaptureIoModel;

    open spec fn view(&self) -> CaptureIoModel {
        CaptureIoModel {
            register_code: self.register_code,
            send_code: self.send_code,
            events: self.events.deep_view(),
        }
    }
}

impl CaptureIoModel {
    /// All delivered events are well-formed.
    pub open spec fn wf(self) -> bool {
        events_wf(self.events)
    }
}

/// The spec-level outcome of the blocking capture flow.
pub enum CaptureOutcome {
    /// The SDK is not initialised; no native call was attempted.
    NotInitialized,
    /// Another capture holds the single-flight guard; no side effects.
    AlreadyInProgress,
    /// No device handle is retained.
    NoCamera,
    /// No session is open.
    NoSession,
    /// Registering the object-event callback failed with this code.
    RegisterFailed(u32),
    /// The capture command send failed with this code.
    SendFailed(u32),
    /// The callback recorded this download error.
    Failed(Seq<char>),
    /// The window elapsed without a terminal record.
    TimedOut,
    /// The callback delivered these raw photo bytes.
    Captured(Seq<u8>),
}

/// The coordinator state right after a capture flow has armed itself:
/// the callback registered, the guard held, a fresh capture record, and
/// the save destination forced back to the host.
pub open spec fn capture_armed(s: CoordinatorModel) -> CoordinatorModel {
    CoordinatorModel {
        object_handler_registered: true,
        is_capturing: true,
        capture: Some(CaptureModel::reset()),
        save_dest: SaveDest::Host,
        ..s
    }
}

/// Whether the state refuses a capture before any native call, and which
/// guard refuses it, in the order the guards are checked.
pub open spec fn capture_refused(s: CoordinatorModel, io: CaptureIoModel) -> Option<CaptureOutcome> {
    if !(s.sdk is Initialized) {
        Some(CaptureOutcome::NotInitialized)
    } else if s.is_capturing {
        Some(CaptureOutcome::AlreadyInProgress)
    } else if !s.connected {
        Some(CaptureOutcome::NoCamera)
    } else if !s.session_open {
        Some(CaptureOutcome::NoSession)
    } else if !s.object_handler_registered && io.register_code != 0 {
        Some(CaptureOutcome::RegisterFailed(io.register_code))
    } else {
        None
    }
}

/// The coordinator state after the blocking capture flow. On every path
/// that got past the guards the single-flight guard is released again; a
/// flow that pumped consumes its capture record.
pub open spec fn take_picture_post(s: CoordinatorModel, io: CaptureIoModel) -> CoordinatorModel {
    if capture_refused(s, io) is Some {
        s
    } else if io.send_code != 0 {
        CoordinatorModel { is_capturing: false, ..capture_armed(s) }
    } else {
        CoordinatorModel {
            is_capturing: false,
            capture: None,
            ..pump_until_capture(capture_armed(s), io.events)
        }
    }
}

/// The outcome of the blocking capture flow.
pub open spec fn take_picture_outcome(s: CoordinatorModel, io: CaptureIoModel) -> CaptureOutcome {
    match capture_refused(s, io) {
        Some(o) => o,
        None => {
            if io.send_code != 0 {
                CaptureOutcome::SendFailed(io.send_code)
            } else {
                let pumped = pump_until_capture(capture_armed(s), io.events);
                match pumped.capture {
                    Some(r) => {
                        if !r.capture_complete {
                            CaptureOutcome::TimedOut
                        } else {
                            match r.capture_error {
                                Some(e) => CaptureOutcome::Failed(e),
                                None => match r.image_data {
                                    Some(d) => CaptureOutcome::Captured(d),
                                    None => CaptureOutcome::TimedOut,
                                },
                            }
                        }
                    },
                    None => CaptureOutcome::TimedOut,
                }
            }
        },
    }
}

/// Whether a concrete capture result reports the given outcome, error
/// texts included. A captured payload is shrunk and re-encoded when the
/// image step accepts it, and encoded as-is otherwise.
pub open spec fn capture_result_matches(r: CaptureResultModel, o: CaptureOutcome) -> bool {
    match o {
        CaptureOutcome::NotInitialized => r == failure_result("SDK not initialized"@),
        CaptureOutcome::AlreadyInProgress => r == failure_result("Capture already in progress"@),
        CaptureOutcome::NoCamera => r == failure_result("No camera connected"@),
        CaptureOutcome::NoSession => r == failure_result("Session not open"@),
        CaptureOutcome::RegisterFailed(code) => r == failure_result(
            "Failed to register event handler: "@ + error_name(code),
        ),
        CaptureOutcome::SendFailed(code) => r == failure_result(
            "Take picture failed: "@ + error_name(code),
        ),
        CaptureOutcome::Failed(e) => r == failure_result(e),
        CaptureOutcome::TimedOut => r == failure_result("Capture timeout - no image received"@),
        CaptureOutcome::Captured(d) => {
            &&& r.success
            &&& r.error is None
            &&& r.image_data matches Some(img) && (img == base64_of(
                shrunk_jpeg_of(d, CAPTURE_MAX_DIMENSION, CAPTURE_JPEG_QUALITY),
            ) || img == base64_of(d))
        },
    }
}

/// The model of a failure result with the given text and no image.
pub open spec fn failure_result(text: Seq<char>) -> CaptureResultModel {
    CaptureResultModel { success: false, error: Some(text), image_data: None }
}

/// Outcomes of the native calls the non-blocking shutter flow issues.
#[derive(Debug, Clone)]
pub struct ShutterIo {
    /// Result of registering the object-event callback; consulted only when
    /// the callback is not registered yet.
    pub register_code: u32,
    /// Result of sending the capture command.
    pub send_code: u32,
}

/// The spec-level outcome of the non-blocking shutter flow.
pub enum ShutterOutcome {
    NotInitialized,
    AlreadyInProgress,
    NoCamera,
    NoSession,
    RegisterFailed(u32),
    SendFailed(u32),
    /// The command was sent; the result is left to be polled.
    Sent,
}

/// The coordinator state after the non-blocking shutter flow: on the paths
/// that got past the guards, the callback is registered, a fresh capture
/// record is armed, and the save destination is forced back to the host —
/// the same setup as the blocking flow — whether or not the send
/// succeeded. The single-flight guard is only consulted, never held: there
/// is no pump loop here whose end could release it.
pub open spec fn send_shutter_post(s: CoordinatorModel, io: ShutterIo) -> CoordinatorModel {
    if !(s.sdk is Initialized) || s.is_capturing || !s.connected || !s.session_open || (
    !s.object_handler_registered && io.register_code != 0) {
        s
    } else {
        CoordinatorModel {
            object_handler_registered: true,
            capture: Some(CaptureModel::reset()),
            save_dest: SaveDest::Host,
            ..s
        }
    }
}

/// The outcome of the non-blocking shutter flow.
pub open spec fn send_shutter_outcome(s: CoordinatorModel, io: ShutterIo) -> ShutterOutcome {
    if !(s.sdk is Initialized) {
        ShutterOutcome::NotInitialized
    } else if s.is_capturing {
        ShutterOutcome::AlreadyInProgress
    } else if !s.connected {
        ShutterOutcome::NoCamera
    } else if !s.session_open {
        ShutterOutcome::NoSession
    } else if !s.object_handler_registered && io.register_code != 0 {
        ShutterOutcome::RegisterFailed(io.register_code)
    } else if io.send_code != 0 {
        ShutterOutcome::SendFailed(io.send_code)
    } else {
        ShutterOutcome::Sent
    }
}

/// Whether a concrete result reports the given shutter outcome.
pub open spec fn shutter_result_matches(r: CaptureResultModel, o: ShutterOutcome) -> bool {
    match o {
        ShutterOutcome::NotInitialized => r == failure_result("SDK not initialized"@),
        ShutterOutcome::AlreadyInProgress => r == failure_result("Capture already in progress"@),
        ShutterOutcome::NoCamera => r == failure_result("No camera connected"@),
        ShutterOutcome::NoSession => r == failure_result("Session not open"@),
        ShutterOutcome::RegisterFailed(code) => r == failure_result(
            "Failed to register handler: "@ + error_name(code),
        ),
        ShutterOutcome::SendFailed(code) => r == failure_result(
            "Shutter failed: "@ + error_name(code),
        ),
        ShutterOutcome::Sent => r == (CaptureResultModel {
            success: true,
            error: None,
            image_data: None,
        }),
    }
}

/// The spec-level outcome of a poll for the pending capture.
pub enum PollOutcome {
    /// No capture record is armed at all.
    NoCapture,
    /// A record is armed but has no terminal outcome yet.
    Pending,
    /// The record completed with this download error.
    Failed(Seq<char>),
    /// The record completed with these raw photo bytes.
    Done(Seq<u8>),
    /// The record claims completion but carries neither bytes nor an error;
    /// unreachable for well-formed records.
    NoData,
}

/// The coordinator state after a poll: a completed record is consumed
/// exactly once, anything else is left untouched.
pub open spec fn poll_post(s: CoordinatorModel) -> CoordinatorModel {
    match s.capture {
        Some(r) => {
            if r.capture_complete {
                CoordinatorModel { capture: None, ..s }
            } else {
                s
            }
        },
        None => s,
    }
}

/// The outcome of a poll.
pub open spec fn poll_outcome(s: CoordinatorModel) -> PollOutcome {
    match s.capture {
        Some(r) => {
            if !r.capture_complete {
                PollOutcome::Pending
            } else {
                match r.capture_error {
                    Some(e) => PollOutcome::Failed(e),
                    None => match r.image_data {
                        Some(d) => PollOutcome::Done(d),
                        None => PollOutcome::NoData,
                    },
                }
            }
        },
        None => PollOutcome::NoCapture,
    }
}

/// Whether a concrete result reports the given poll outcome. A still
/// pending capture is not an error: the result carries no text at all.
pub open spec fn poll_result_matches(r: CaptureResultModel, o: PollOutcome) -> bool {
    match o {
        PollOutcome::NoCapture => r == failure_result("No capture in progress"@),
        PollOutcome::Pending => r == (CaptureResultModel {
            success: false,
            error: None,
            image_data: None,
        }),
        PollOutcome::Failed(e) => r == failure_result(e),
        PollOutcome::Done(d) => r == (CaptureResultModel {
            success: true,
            error: None,
            image_data: Some(base64_of(d)),
        }),
        PollOutcome::NoData => r == failure_result("Capture complete but no data"@),
    }
}

/// The coordinator state after an opportunistic pump: the whole window is
/// processed only when the SDK is up, no blocking capture owns the pump,
/// and the device lock was free; otherwise the cycle is skipped silently.
pub open spec fn pump_events_post(
    s: CoordinatorModel,
    lock_available: bool,
    evs: Seq<ObjectEventModel>,
) -> CoordinatorModel {
    if !(s.sdk is Initialized) || s.is_capturing || !lock_available {
        s
    } else {
        pump_fold(s, evs)
    }
}

/// Build a failure result from a literal.
pub(crate) fn fail_with(text: &str) -> (r: CaptureResult)
    ensures
        r@ == failure_result(text@),
{
    CaptureResult { success: false, error: Some(String::from_str(text)), image_data: None }
}

impl Coordinator {
    /// Whether the pending capture record has reached a terminal outcome.
    fn capture_record_complete(&self) -> (r: bool)
        ensures
            r == self@.capture_complete(),
    {
        match &self.capture {
            Some(rec) => rec.capture_complete,
            None => false,
        }
    }

    /// Run the pump loop of a blocking capture flow: feed events to the
    /// object-event callback until the capture record reaches a terminal
    /// outcome or the window is exhausted.
    pub(crate) fn pump_capture_window(&mut self, events: &Vec<ObjectEvent>)
        requires
            old(self)@.wf(),
            events_wf(events.deep_view()),
        ensures
            final(self)@.wf(),
            final(self)@ == pump_until_capture(old(self)@, events.deep_view()),
    {
        let ghost evs = events.deep_view();
        proof {
            assert(evs.skip(0) =~= evs);
        }
        let mut i: usize = 0;
        while i < events.len() && !self.capture_record_complete()
            invariant
                i <= events.len(),
                events.deep_view() == evs,
                events_wf(evs),
                self@.wf(),
                pump_until_capture(old(self)@, evs) == pump_until_capture(self@, evs.skip(i as int)),
            decreases events.len() - i,
        {
            assert(evs[i as int].wf());
            self.handle_object_event(&events[i]);
            proof {
                assert(evs.skip(i as int).drop_first() =~= evs.skip(i as int + 1));
                assert(evs.skip(i as int)[0] == evs[i as int]);
            }
            i = i + 1;
        }
        proof {
            if i < events.len() {
                assert(self@.capture_complete());
            } else {
                assert(evs.skip(i as int) =~= Seq::<ObjectEventModel>::empty());
            }
        }
    }

    /// Take a picture, blocking until the image has been delivered or the
    /// capture window has elapsed.
    ///
    /// The single-flight guard is acquired first and released on every exit
    /// path; a concurrent caller is refused without any effect on device
    /// state. Immediately before the capture command is sent, the save
    /// destination is forced back to the host, defending against a prior
    /// failed mode switch that left it pointing at device storage.
    pub fn take_picture(&mut self, io: &CaptureIo) -> (r: CaptureResult)
        requires
            old(self)@.wf(),
            io@.wf(),
        ensures
            final(self)@.wf(),
            final(self)@ == take_picture_post(old(self)@, io@),
            capture_result_matches(r@, take_picture_outcome(old(self)@, io@)),
            !old(self)@.is_capturing ==> !final(self)@.is_capturing,
            old(self)@.is_capturing ==> *final(self) == *old(self),
    {
        if self.sdk != SdkState::Initialized {
            return fail_with("SDK not initialized");
        }
        if self.is_capturing {
            return fail_with("Capture already in progress");
        }
        // Acquire the single-flight guard; every return below releases it.
        self.is_capturing = true;
        if !self.connected {
            self.is_capturing = false;
            return fail_with("No camera connected");
        }
        if !self.session_open {
            self.is_capturing = false;
            return fail_with("Session not open");
        }
        if !self.object_handler_registered {
            if io.register_code != 0 {
                self.is_capturing = false;
                let mut m = String::from_str("Failed to register event handler: ");
                m.append(error_to_string(io.register_code));
                return CaptureResult { success: false, error: Some(m), image_data: None };
            }
            self.object_handler_registered = true;
        }
        self.capture = Some(CaptureData::reset());
        self.save_dest = SaveDest::Host;
        if io.send_code != 0 {
            self.is_capturing = false;
            let mut m = String::from_str("Take picture failed: ");
            m.append(error_to_string(io.send_code));
            return CaptureResult { success: false, error: Some(m), image_data: None };
        }
        self.pump_capture_window(&io.events);
        let record = self.capture.take();
        self.is_capturing = false;
        match record {
            Some(rec) => {
                if !rec.capture_complete {
                    return fail_with("Capture timeout - no image received");
                }
                if let Some(e) = rec.capture_error {
                    return CaptureResult { success: false, error: Some(e), image_data: None };
                }
                match rec.image_data {
                    Some(data) => {
                        let b64 = encode_capture_payload(&data);
                        CaptureResult { success: true, error: None, image_data: Some(b64) }
                    },
                    None => fail_with("Capture timeout - no image received"),
                }
            },
            None => fail_with("Capture timeout - no image received"),
        }
    }

    /// Send the capture command without waiting for the image; the caller
    /// polls for the record with [`Coordinator::poll_capture_result`].
    pub fn send_shutter(&mut self, io: &ShutterIo) -> (r: CaptureResult)
        requires
            old(self)@.wf(),
        ensures
            final(self)@.wf(),
            final(self)@ == send_shutter_post(old(self)@, *io),
            shutter_result_matches(r@, send_shutter_outcome(old(self)@, *io)),
    {
        if self.sdk != SdkState::Initialized {
            return fail_with("SDK not initialized");
        }
        if self.is_capturing {
            return fail_with("Capture already in progress");
        }
        if !self.connected {
            return fail_with("No camera connected");
        }
        if !self.session_open {
            return fail_with("Session not open");
        }
        if !self.object_handler_registered {
            if io.register_code != 0 {
                let mut m = String::from_str("Failed to register handler: ");
                m.append(error_to_string(io.register_code));
                return CaptureResult { success: false, error: Some(m), image_data: None };
            }
            self.object_handler_registered = true;
        }
        self.capture = Some(CaptureData::reset());
        self.save_dest = SaveDest::Host;
        if io.send_code != 0 {
            let mut m = String::from_str("Shutter failed: ");
            m.append(error_to_string(io.send_code));
            return CaptureResult { success: false, error: Some(m), image_data: None };
        }
        CaptureResult { success: true, error: None, image_data: None }
    }

    /// Read the pending capture record without blocking. A completed record
    /// is consumed: it is handed out exactly once, and the next poll reports
    /// that no capture is in progress.
    pub fn poll_capture_result(&mut self) -> (r: CaptureResult)
        requires
            old(self)@.wf(),
        ensures
            final(self)@.wf(),
            final(self)@ == poll_post(old(self)@),
            poll_result_matches(r@, poll_outcome(old(self)@)),
    {
        let complete = self.capture_record_complete();
        match &self.capture {
            None => fail_with("No capture in progress"),
            Some(_) if !complete => CaptureResult { success: false, error: None, image_data: None },
            Some(_) => {
                let record = self.capture.take();
                match record {
                    Some(rec) => {
                        if let Some(e) = rec.capture_error {
                            return CaptureResult {
                                success: false,
                                error: Some(e),
                                image_data: None,
                            };
                        }
                        match rec.image_data {
                            Some(data) => {
                                let b64 = encode_raw_payload(&data);
                                CaptureResult { success: true, error: None, image_data: Some(b64) }
                            },
                            None => fail_with("Capture complete but no data"),
                        }
                    },
                    None => fail_with("Capture complete but no data"),
                }
            },
        }
    }

    /// Feed one whole pump window to the object-event callback.
    pub(crate) fn pump_all(&mut self, events: &Vec<ObjectEvent>)
        requires
            old(self)@.wf(),
            events_wf(events.deep_view()),
        ensures
            final(self)@.wf(),
            final(self)@ == pump_fold(old(self)@, events.deep_view()),
    {
        let ghost evs = events.deep_view();
        proof {
            assert(evs.skip(0) =~= evs);
        }
        let mut i: usize = 0;
        while i < events.len()
            invariant
                i <= events.len(),
                events.deep_view() == evs,
                events_wf(evs),
                self@.wf(),
                pump_fold(old(self)@, evs) == pump_fold(self@, evs.skip(i as int)),
            decreases events.len() - i,
        {
            assert(evs[i as int].wf());
            self.handle_object_event(&events[i]);
            proof {
                assert(evs.skip(i as int).drop_first() =~= evs.skip(i as int + 1));
                assert(evs.skip(i as int)[0] == evs[i as int]);
            }
            i = i + 1;
        }
        proof {
            assert(evs.skip(i as int) =~= Seq::<ObjectEventModel>::empty());
        }
    }

    /// The periodic, opportunistic event pump. It is skipped while the SDK
    /// is down, while a blocking capture owns event pumping, or while the
    /// device lock is held elsewhere (`lock_available` is the outcome of a
    /// non-blocking lock attempt); skipping is silent, not an error.
    pub fn pump_events(&mut self, lock_available: bool, events: &Vec<ObjectEvent>) -> (r: bool)
        requires
            old(self)@.wf(),
            events_wf(events.deep_view()),
        ensures
            final(self)@.wf(),
            final(self)@ == pump_events_post(old(self)@, lock_available, events.deep_view()),
            r == (old(self)@.sdk is Initialized),
    {
        if self.sdk != SdkState::Initialized {
            return false;
        }
        if self.is_capturing {
            return true;
        }
        if !lock_available {
            return true;
        }
        self.pump_all(events);
        true
    }
}

} // verus!
