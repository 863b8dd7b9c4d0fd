//! Camera events.
//!
//! Waiting on a camera yields a raw event code with an untyped payload: a
//! free-form text for unknown events, a file path for the file events,
//! nothing for the rest. [`CameraEvent::classify`] is the typed reading of
//! that pair; the runtime shell decodes the raw payload and hands both
//! possible payloads in.

use vstd::prelude::*;

use crate::file::CameraFilePath;

verus! {

/// An unclassifiable event was reported.
pub const GP_EVENT_UNKNOWN: u32 = 0;
/// The wait timed out without an event.
pub const GP_EVENT_TIMEOUT: u32 = 1;
/// A new file was added.
pub const GP_EVENT_FILE_ADDED: u32 = 2;
/// A new folder was added.
pub const GP_EVENT_FOLDER_ADDED: u32 = 3;
/// A capture completed.
pub const GP_EVENT_CAPTURE_COMPLETE: u32 = 4;
/// A file has changed.
pub const GP_EVENT_FILE_CHANGED: u32 = 5;

/// Event from camera.
#[derive(Debug, Clone)]
pub enum CameraEvent {
    /// Unknown event, with the text the driver attached to it.
    Unknown(String),
    /// Timeout, no event.
    Timeout,
    /// New file was added.
    NewFile(CameraFilePath),
    /// File has changed.
    FileChanged(CameraFilePath),
    /// New folder was added: the path's folder is the parent folder and the
    /// path's name is the name of the created folder.
    NewFolder(CameraFilePath),
    /// Capture completed.
    CaptureComplete,
}

/// The typed event that a raw event code with its payloads denotes. A code
/// outside the known range is treated as an unknown event, keeping its text.
pub open spec fn event_of_code(code: u32, text: String, path: CameraFilePath) -> CameraEvent {
    if code == GP_EVENT_TIMEOUT {
        CameraEvent::Timeout
    } else if code == GP_EVENT_FILE_ADDED {
        CameraEvent::NewFile(path)
    } else if code == GP_EVENT_FOLDER_ADDED {
        CameraEvent::NewFolder(path)
    } else if code == GP_EVENT_CAPTURE_COMPLETE {
        CameraEvent::CaptureComplete
    } else if code == GP_EVENT_FILE_CHANGED {
        CameraEvent::FileChanged(path)
    } else {
        CameraEvent::Unknown(text)
    }
}

impl CameraEvent {
    /// Reads a typed event from a raw event code and its decoded payloads:
    /// the text of an unknown event and the file path of a file event.
    pub fn classify(code: u32, text: String, path: CameraFilePath) -> (r: CameraEvent)
        ensures
            r == event_of_code(code, text, path),
    {
        if code == GP_EVENT_TIMEOUT {
            CameraEvent::Timeout
        } else if code == GP_EVENT_FILE_ADDED {
            CameraEvent::NewFile(path)
        } else if code == GP_EVENT_FOLDER_ADDED {
            CameraEvent::NewFolder(path)
        } else if code == GP_EVENT_CAPTURE_COMPLETE {
            CameraEvent::CaptureComplete
        } else if code == GP_EVENT_FILE_CHANGED {
            CameraEvent::FileChanged(path)
        } else {
            CameraEvent::Unknown(text)
        }
    }
}

} // verus!
