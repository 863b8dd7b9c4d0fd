//! Error handling.
//!
//! Failures of the underlying device library are plain numeric status codes;
//! every negative status is an error. [`Error`] keeps the raw code together
//! with optional free-form detail, and [`Error::kind`] maps the code onto the
//! typed [`ErrorKind`] taxonomy.

use vstd::prelude::*;

verus! {

/// Generic failure, also returned for codes this library does not know.
pub const GP_ERROR: i32 = -1;
/// Bad parameters were passed to a call.
pub const GP_ERROR_BAD_PARAMETERS: i32 = -2;
/// The library ran out of memory.
pub const GP_ERROR_NO_MEMORY: i32 = -3;
/// The port is not known.
pub const GP_ERROR_UNKNOWN_PORT: i32 = -5;
/// The action is not supported.
pub const GP_ERROR_NOT_SUPPORTED: i32 = -6;
/// An input/output failure.
pub const GP_ERROR_IO: i32 = -7;
/// A fixed limit of the library was exceeded.
pub const GP_ERROR_FIXED_LIMIT_EXCEEDED: i32 = -8;
/// The operation timed out.
pub const GP_ERROR_TIMEOUT: i32 = -10;
/// The USB device could not be claimed.
pub const GP_ERROR_IO_USB_CLAIM: i32 = -53;
/// The data received from the device is corrupted.
pub const GP_ERROR_CORRUPTED_DATA: i32 = -102;
/// The file already exists.
pub const GP_ERROR_FILE_EXISTS: i32 = -103;
/// The camera model was not found.
pub const GP_ERROR_MODEL_NOT_FOUND: i32 = -105;
/// The directory was not found.
pub const GP_ERROR_DIRECTORY_NOT_FOUND: i32 = -107;
/// The file was not found.
pub const GP_ERROR_FILE_NOT_FOUND: i32 = -108;
/// The directory already exists.
pub const GP_ERROR_DIRECTORY_EXISTS: i32 = -109;
/// The camera is busy.
pub const GP_ERROR_CAMERA_BUSY: i32 = -110;
/// The path is not absolute.
pub const GP_ERROR_PATH_NOT_ABSOLUTE: i32 = -111;
/// The camera reported an error of its own.
pub const GP_ERROR_CAMERA_ERROR: i32 = -113;
/// The operating system reported a failure.
pub const GP_ERROR_OS_FAILURE: i32 = -114;
/// There is no space left on the storage.
pub const GP_ERROR_NO_SPACE: i32 = -115;

/// Error type
#[derive(Clone, Copy, Debug, PartialEq, Eq, Structural)]
pub enum ErrorKind {
    /// A generic error, or a code this library does not know
    Other,
    /// Bad parameters were used
    BadParameters,
    /// The camera is busy
    CameraBusy,
    /// The camera returned an error
    CameraError,
    /// Corrupted data
    CorruptedData,
    /// The directory already exists
    DirectoryExists,
    /// The directory was not found
    DirectoryNotFound,
    /// The file already exists
    FileExists,
    /// The file was not found
    FileNotFound,
    /// Limit exceeded
    FixedLimitExceeded,
    /// Camera model not found
    ModelNotFound,
    /// Action not supported
    NotSupported,
    /// Memory error
    NoMemory,
    /// Not enough space
    NoSpace,
    /// Io error
    Io,
    /// OS error
    OsFailure,
    /// Path is not absolute
    PathNotAbsolute,
    /// Timeout
    Timeout,
    /// Port is not known
    UnknownPort,
    /// Couldn't claim USB device
    IoUsbClaim,
}

/// The [`ErrorKind`] that a raw status code denotes.
pub open spec fn kind_of_code(code: i32) -> ErrorKind {
    if code == GP_ERROR_BAD_PARAMETERS {
        ErrorKind::BadParameters
    } else if code == GP_ERROR_CAMERA_BUSY {
        ErrorKind::CameraBusy
    } else if code == GP_ERROR_CAMERA_ERROR {
        ErrorKind::CameraError
    } else if code == GP_ERROR_CORRUPTED_DATA {
        ErrorKind::CorruptedData
    } else if code == GP_ERROR_DIRECTORY_EXISTS {
        ErrorKind::DirectoryExists
    } else if code == GP_ERROR_DIRECTORY_NOT_FOUND {
        ErrorKind::DirectoryNotFound
    } else if code == GP_ERROR_FILE_EXISTS {
        ErrorKind::FileExists
    } else if code == GP_ERROR_FILE_NOT_FOUND {
        ErrorKind::FileNotFound
    } else if code == GP_ERROR_FIXED_LIMIT_EXCEEDED {
        ErrorKind::FixedLimitExceeded
    } else if code == GP_ERROR_MODEL_NOT_FOUND {
        ErrorKind::ModelNotFound
    } else if code == GP_ERROR_NOT_SUPPORTED {
        ErrorKind::NotSupported
    } else if code == GP_ERROR_NO_MEMORY {
        ErrorKind::NoMemory
    } else if code == GP_ERROR_NO_SPACE {
        ErrorKind::NoSpace
    } else if code == GP_ERROR_IO {
        ErrorKind::Io
    } else if code == GP_ERROR_OS_FAILURE {
        ErrorKind::OsFailure
    } else if code == GP_ERROR_PATH_NOT_ABSOLUTE {
        ErrorKind::PathNotAbsolute
    } else if code == GP_ERROR_TIMEOUT {
        ErrorKind::Timeout
    } else if code == GP_ERROR_UNKNOWN_PORT {
        ErrorKind::UnknownPort
    } else if code == GP_ERROR_IO_USB_CLAIM {
        ErrorKind::IoUsbClaim
    } else {
        ErrorKind::Other
    }
}

/// General error: a raw status code with optional detail text.
#[derive(Debug, Clone, PartialEq, Eq)]
pub struct Error {
    /// The raw status code.
    pub code: i32,
    /// Optional free-form detail.
    pub info: Option<String>,
}

impl Error {
    /// Creates a new error from a raw status code of the device library.
    pub fn new(code: i32, info: Option<String>) -> (r: Error)
        ensures
            r.code == code,
            r.info == info,
    {
        Error { code, info }
    }

    /// Checks a status code and turns every negative one into an error.
    pub fn check(status: i32) -> (r: Result<i32, Error>)
        ensures
            status >= 0 ==> r == Result::<i32, Error>::Ok(status),
            status < 0 ==> (r matches Result::Err(e) && e.code == status
                && e.info is None),
    {
        if status < 0 {
            Err(Error::new(status, None))
        } else {
            Ok(status)
        }
    }

    /// The raw status code this error carries.
    pub fn code(&self) -> (r: i32)
        ensures
            r == self.code,
    {
        self.code
    }

    /// The detail text this error carries, if any.
    pub fn info(&self) -> (r: &Option<String>)
        ensures
            r == &self.info,
    {
        &self.info
    }

    /// Map the raw status code to an [`ErrorKind`].
    pub fn kind(&self) -> (r: ErrorKind)
        ensures
            r == kind_of_code(self.code),
    {
        if self.code == GP_ERROR_BAD_PARAMETERS {
            ErrorKind::BadParameters
        } else if self.code == GP_ERROR_CAMERA_BUSY {
            ErrorKind::CameraBusy
        } else if self.code == GP_ERROR_CAMERA_ERROR {
            ErrorKind::CameraError
        } else if self.code == GP_ERROR_CORRUPTED_DATA {
            ErrorKind::CorruptedData
        } else if self.code == GP_ERROR_DIRECTORY_EXISTS {
            ErrorKind::DirectoryExists
        } else if self.code == GP_ERROR_DIRECTORY_NOT_FOUND {
            ErrorKind::DirectoryNotFound
        } else if self.code == GP_ERROR_FILE_EXISTS {
            ErrorKind::FileExists
        } else if self.code == GP_ERROR_FILE_NOT_FOUND {
            ErrorKind::FileNotFound
        } else if self.code == GP_ERROR_FIXED_LIMIT_EXCEEDED {
            ErrorKind::FixedLimitExceeded
        } else if self.code == GP_ERROR_MODEL_NOT_FOUND {
            ErrorKind::ModelNotFound
        } else if self.code == GP_ERROR_NOT_SUPPORTED {
            ErrorKind::NotSupported
        } else if self.code == GP_ERROR_NO_MEMORY {
            ErrorKind::NoMemory
        } else if self.code == GP_ERROR_NO_SPACE {
            ErrorKind::NoSpace
        } else if self.code == GP_ERROR_IO {
            ErrorKind::Io
        } else if self.code == GP_ERROR_OS_FAILURE {
            ErrorKind::OsFailure
        } else if self.code == GP_ERROR_PATH_NOT_ABSOLUTE {
            ErrorKind::PathNotAbsolute
        } else if self.code == GP_ERROR_TIMEOUT {
            ErrorKind::Timeout
        } else if self.code == GP_ERROR_UNKNOWN_PORT {
            ErrorKind::UnknownPort
        } else if self.code == GP_ERROR_IO_USB_CLAIM {
            ErrorKind::IoUsbClaim
        } else {
            ErrorKind::Other
        }
    }

    /// A readable description of the error, for display at the edges.
    pub fn message(&self) -> (r: String)
        ensures
            self.info is Some ==> r@ == self.info->0@,
            self.info is None ==> r@.len() == 0,
    {
        match &self.info {
            Some(info) => info.clone(),
            None => String::new(),
        }
    }
}

} // verus!
