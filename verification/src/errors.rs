//! Error codes of the vendor control library and their translation into
//! human-readable text, plus the typed error values of the coordinator.
//!
//! Native codes are translated exactly once, at this boundary, and the
//! resulting text is threaded through to callers unchanged.

use vstd::prelude::*;

verus! {

/// The code the vendor library returns for a successful call.
pub const EDS_ERR_OK: u32 = 0x00000000;
pub const EDS_ERR_INTERNAL_ERROR: u32 = 0x00000002;
pub const EDS_ERR_DEVICE_NOT_FOUND: u32 = 0x00000080;
pub const EDS_ERR_DEVICE_BUSY: u32 = 0x00000081;
pub const EDS_ERR_COMM_DISCONNECTED: u32 = 0x000000C1;
pub const EDS_ERR_SESSION_NOT_OPEN: u32 = 0x00002003;
pub const EDS_ERR_INVALID_HANDLE: u32 = 0x00000061;
pub const EDS_ERR_INVALID_PARAMETER: u32 = 0x00000060;
pub const EDS_ERR_TAKE_PICTURE_AF_NG: u32 = 0x00008D01;
pub const EDS_ERR_TAKE_PICTURE_NO_CARD_NG: u32 = 0x00008D06;
pub const EDS_ERR_TAKE_PICTURE_NO_LENS_NG: u32 = 0x00008D0B;
pub const EDS_ERR_LOW_BATTERY: u32 = 0x0000A101;
pub const EDS_ERR_OBJECT_NOTREADY: u32 = 0x0000A102;
pub const EDS_ERR_NOT_SUPPORTED: u32 = 0x00000007;
pub const EDS_ERR_OPERATION_CANCELLED: u32 = 0x00000005;

/// The human-readable name of a native error code.
pub open spec fn error_name(error: u32) -> Seq<char> {
    if error == EDS_ERR_OK {
        "OK"@
    } else if error == EDS_ERR_INTERNAL_ERROR {
        "Internal error"@
    } else if error == EDS_ERR_DEVICE_NOT_FOUND {
        "Device not found"@
    } else if error == EDS_ERR_DEVICE_BUSY {
        "Device busy"@
    } else if error == EDS_ERR_COMM_DISCONNECTED {
        "Communication disconnected"@
    } else if error == EDS_ERR_SESSION_NOT_OPEN {
        "Session not open"@
    } else if error == EDS_ERR_INVALID_HANDLE {
        "Invalid handle"@
    } else if error == EDS_ERR_INVALID_PARAMETER {
        "Invalid parameter"@
    } else if error == EDS_ERR_TAKE_PICTURE_AF_NG {
        "Auto-focus failed"@
    } else if error == EDS_ERR_TAKE_PICTURE_NO_CARD_NG {
        "No memory card"@
    } else if error == EDS_ERR_TAKE_PICTURE_NO_LENS_NG {
        "No lens attached"@
    } else if error == EDS_ERR_LOW_BATTERY {
        "Low battery"@
    } else if error == EDS_ERR_OBJECT_NOTREADY {
        "Object not ready"@
    } else if error == EDS_ERR_NOT_SUPPORTED {
        "Not supported"@
    } else if error == EDS_ERR_OPERATION_CANCELLED {
        "Operation cancelled"@
    } else {
        "Unknown error"@
    }
}

/// Translate a native error code to its human-readable name.
pub fn error_to_string(error: u32) -> (r: &'static str)
    ensures
        r@ == error_name(error),
{
    if error == EDS_ERR_OK {
        "OK"
    } else if error == EDS_ERR_INTERNAL_ERROR {
        "Internal error"
    } else if error == EDS_ERR_DEVICE_NOT_FOUND {
        "Device not found"
    } else if error == EDS_ERR_DEVICE_BUSY {
        "Device busy"
    } else if error == EDS_ERR_COMM_DISCONNECTED {
        "Communication disconnected"
    } else if error == EDS_ERR_SESSION_NOT_OPEN {
        "Session not open"
    } else if error == EDS_ERR_INVALID_HANDLE {
        "Invalid handle"
    } else if error == EDS_ERR_INVALID_PARAMETER {
        "Invalid parameter"
    } else if error == EDS_ERR_TAKE_PICTURE_AF_NG {
        "Auto-focus failed"
    } else if error == EDS_ERR_TAKE_PICTURE_NO_CARD_NG {
        "No memory card"
    } else if error == EDS_ERR_TAKE_PICTURE_NO_LENS_NG {
        "No lens attached"
    } else if error == EDS_ERR_LOW_BATTERY {
        "Low battery"
    } else if error == EDS_ERR_OBJECT_NOTREADY {
        "Object not ready"
    } else if error == EDS_ERR_NOT_SUPPORTED {
        "Not supported"
    } else if error == EDS_ERR_OPERATION_CANCELLED {
        "Operation cancelled"
    } else {
        "Unknown error"
    }
}

/// The digit used for one hexadecimal nibble (upper case).
pub open spec fn hex_digit(n: u32) -> char {
    if n == 0 {
        '0'
    } else if n == 1 {
        '1'
    } else if n == 2 {
        '2'
    } else if n == 3 {
        '3'
    } else if n == 4 {
        '4'
    } else if n == 5 {
        '5'
    } else if n == 6 {
        '6'
    } else if n == 7 {
        '7'
    } else if n == 8 {
        '8'
    } else if n == 9 {
        '9'
    } else if n == 10 {
        'A'
    } else if n == 11 {
        'B'
    } else if n == 12 {
        'C'
    } else if n == 13 {
        'D'
    } else if n == 14 {
        'E'
    } else {
        'F'
    }
}

/// The eight-digit upper-case hexadecimal rendering of a 32-bit code.
pub open spec fn hex8(error: u32) -> Seq<char> {
    Seq::new(8, |i: int| hex_digit((error >> ((28 - 4 * i) as u32)) & 0xF))
}

fn hex_digit_str(n: u32) -> (r: &'static str)
    requires
        n < 16,
    ensures
        r@ =~= seq![hex_digit(n)],
{
    proof {
        reveal_strlit("0");
        reveal_strlit("1");
        reveal_strlit("2");
        reveal_strlit("3");
        reveal_strlit("4");
        reveal_strlit("5");
        reveal_strlit("6");
        reveal_strlit("7");
        reveal_strlit("8");
        reveal_strlit("9");
        reveal_strlit("A");
        reveal_strlit("B");
        reveal_strlit("C");
        reveal_strlit("D");
        reveal_strlit("E");
        reveal_strlit("F");
    }
    if n == 0 {
        "0"
    } else if n == 1 {
        "1"
    } else if n == 2 {
        "2"
    } else if n == 3 {
        "3"
    } else if n == 4 {
        "4"
    } else if n == 5 {
        "5"
    } else if n == 6 {
        "6"
    } else if n == 7 {
        "7"
    } else if n == 8 {
        "8"
    } else if n == 9 {
        "9"
    } else if n == 10 {
        "A"
    } else if n == 11 {
        "B"
    } else if n == 12 {
        "C"
    } else if n == 13 {
        "D"
    } else if n == 14 {
        "E"
    } else {
        "F"
    }
}

/// The message `check_error` attaches to a failing native code.
pub open spec fn error_message(error: u32) -> Seq<char> {
    "EDSDK error: "@ + error_name(error) + " (0x"@ + hex8(error) + ")"@
}

/// Render a native code as the message `check_error` would attach to it:
/// its human-readable name with the code appended in hexadecimal.
pub fn format_native_error(error: u32) -> (r: String)
    ensures
        r@ == error_message(error),
{
    let mut s = String::from_str("EDSDK error: ");
    s.append(error_to_string(error));
    s.append(" (0x");
    let mut i: u32 = 0;
    while i < 8
        invariant
            i <= 8,
            s@ == "EDSDK error: "@ + error_name(error) + " (0x"@ + hex8(error).take(i as int),
        decreases 8 - i,
    {
        let sh: u32 = 28 - 4 * i;
        let nibble = (error >> sh) & 0xF;
        assert(nibble < 16) by (bit_vector)
            requires
                nibble == (error >> sh) & 0xF,
        ;
        s.append(hex_digit_str(nibble));
        proof {
            assert(hex8(error).take(i + 1) =~= hex8(error).take(i as int) + seq![
                hex_digit(nibble),
            ]);
        }
        i = i + 1;
    }
    proof {
        assert(hex8(error).take(8) =~= hex8(error));
    }
    s.append(")");
    s
}

/// Test a native return code: the zero code is success, every other code is
/// turned into its human-readable message.
pub fn check_error(error: u32) -> (r: Result<(), String>)
    ensures
        r is Ok <==> error == EDS_ERR_OK,
        r matches Err(m) ==> m@ == error_message(error),
{
    if error == EDS_ERR_OK {
        Ok(())
    } else {
        Err(format_native_error(error))
    }
}

/// The typed errors of the coordinator, one variant per failure the
/// interface can report. Native codes ride along unchanged so that the
/// message can carry the translated text.
#[derive(Debug, Clone, PartialEq, Eq)]
pub enum CameraError {
    /// A device operation was attempted before the SDK was initialised.
    SdkNotInitialized,
    /// The vendor library could not be loaded; carries the loader's text.
    LoadError(String),
    /// The SDK's own initialisation entry point failed with a native code.
    SdkInitError(u32),
    /// No device handle is currently retained.
    NoDeviceConnected,
    /// A property or command call was attempted without an open session.
    SessionNotOpen,
    /// Device enumeration produced no usable device.
    NoDeviceFound,
    /// The requested device index is outside the enumerated range.
    IndexOutOfRange,
    /// A command send failed with a native code.
    CommandFailed(u32),
    /// A property read or write failed with a native code.
    PropertyAccessFailed(u32),
    /// A media download reported the carried error text.
    DownloadFailed(String),
    /// A bounded wait for a downloaded file elapsed without a result.
    CaptureTimeout,
    /// A capture was requested while another one was in flight.
    CaptureAlreadyInProgress,
    /// A recording operation was requested while no recording is active.
    NotRecording,
}

/// The message text of each typed error.
pub open spec fn spec_message(e: CameraError) -> Seq<char> {
    match e {
        CameraError::SdkNotInitialized => "SDK not initialized"@,
        CameraError::LoadError(s) => s@,
        CameraError::SdkInitError(code) => error_message(code),
        CameraError::NoDeviceConnected => "No camera connected"@,
        CameraError::SessionNotOpen => "Session not open"@,
        CameraError::NoDeviceFound => "No cameras found"@,
        CameraError::IndexOutOfRange => "No camera at specified index"@,
        CameraError::CommandFailed(code) => error_message(code),
        CameraError::PropertyAccessFailed(code) => error_message(code),
        CameraError::DownloadFailed(s) => "Movie download failed: "@ + s@,
        CameraError::CaptureTimeout => "Movie download timeout - no file received from camera"@,
        CameraError::CaptureAlreadyInProgress => "Capture already in progress"@,
        CameraError::NotRecording => "Not currently recording"@,
    }
}

impl CameraError {
    /// Render the error as the text the interface reports.
    pub fn message(&self) -> (r: String)
        ensures
            r@ == spec_message(*self),
    {
        match self {
            CameraError::SdkNotInitialized => String::from_str("SDK not initialized"),
            CameraError::LoadError(s) => s.clone(),
            CameraError::SdkInitError(code) => format_native_error(*code),
            CameraError::NoDeviceConnected => String::from_str("No camera connected"),
            CameraError::SessionNotOpen => String::from_str("Session not open"),
            CameraError::NoDeviceFound => String::from_str("No cameras found"),
            CameraError::IndexOutOfRange => String::from_str("No camera at specified index"),
            CameraError::CommandFailed(code) => format_native_error(*code),
            CameraError::PropertyAccessFailed(code) => format_native_error(*code),
            CameraError::DownloadFailed(s) => {
                let mut m = String::from_str("Movie download failed: ");
                m.append(s.as_str());
                m
            },
            CameraError::CaptureTimeout => {
                String::from_str("Movie download timeout - no file received from camera")
            },
            CameraError::CaptureAlreadyInProgress => {
                String::from_str("Capture already in progress")
            },
            CameraError::NotRecording => String::from_str("Not currently recording"),
        }
    }
}

} // verus!
