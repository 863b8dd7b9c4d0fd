//! Device abilities.
//!
//! The device abilities describe what the driver used to connect to a device
//! can do. The device library reports them as a record of fixed-width
//! strings, enumeration codes and bit masks; here they are held as plain
//! typed values, with the raw operation masks wrapped in small query types.

use vstd::prelude::*;

verus! {

/// The camera can capture images.
pub const GP_OPERATION_CAPTURE_IMAGE: u32 = 1;
/// The camera can capture videos.
pub const GP_OPERATION_CAPTURE_VIDEO: u32 = 2;
/// The camera can capture audio.
pub const GP_OPERATION_CAPTURE_AUDIO: u32 = 4;
/// The camera can capture previews.
pub const GP_OPERATION_CAPTURE_PREVIEW: u32 = 8;
/// The camera can be configured.
pub const GP_OPERATION_CONFIG: u32 = 16;
/// The camera can trigger captures.
pub const GP_OPERATION_TRIGGER_CAPTURE: u32 = 32;

/// Files can be deleted.
pub const GP_FILE_OPERATION_DELETE: u32 = 2;
/// Previews of images are available.
pub const GP_FILE_OPERATION_PREVIEW: u32 = 8;
/// Raw files are available.
pub const GP_FILE_OPERATION_RAW: u32 = 16;
/// Audio of a file is available.
pub const GP_FILE_OPERATION_AUDIO: u32 = 32;
/// EXIF data of a file is available.
pub const GP_FILE_OPERATION_EXIF: u32 = 64;

/// A folder's content can be deleted at once.
pub const GP_FOLDER_OPERATION_DELETE_ALL: u32 = 1;
/// Files can be uploaded into a folder.
pub const GP_FOLDER_OPERATION_PUT_FILE: u32 = 2;
/// Directories can be created.
pub const GP_FOLDER_OPERATION_MAKE_DIR: u32 = 4;
/// Directories can be removed.
pub const GP_FOLDER_OPERATION_REMOVE_DIR: u32 = 8;

/// Camera USB information
#[derive(Debug, Clone, Copy, PartialEq, Eq, Structural)]
pub struct UsbInfo {
    /// Vendor ID
    pub vendor: u16,
    /// Product ID
    pub product: u16,
    /// Device class
    pub class: u8,
    /// Device subclass
    pub subclass: u8,
    /// Device protocol
    pub protocol: u8,
}

/// Status of the driver used
#[derive(Debug, Clone, Copy, PartialEq, Eq, Structural)]
pub enum CameraDriverStatus {
    /// The driver is stable
    Production,
    /// The driver is being tested, more stable than experimental
    Testing,
    /// Experimental driver, might not work as expected
    Experimental,
    /// The driver is deprecated
    Deprecated,
}

/// Type of the device
#[derive(Debug, Clone, Copy, PartialEq, Eq, Structural)]
pub enum DeviceType {
    /// Still camera
    Camera,
    /// MTP audio device
    AudioPlayer,
}

/// The driver status a raw code denotes, if any.
pub open spec fn driver_status_of_code(code: u32) -> Option<CameraDriverStatus> {
    if code == 0 {
        Some(CameraDriverStatus::Production)
    } else if code == 1 {
        Some(CameraDriverStatus::Testing)
    } else if code == 2 {
        Some(CameraDriverStatus::Experimental)
    } else if code == 3 {
        Some(CameraDriverStatus::Deprecated)
    } else {
        None
    }
}

/// The device type a raw code denotes, if any.
pub open spec fn device_type_of_code(code: u32) -> Option<DeviceType> {
    if code == 0 {
        Some(DeviceType::Camera)
    } else if code == 1 {
        Some(DeviceType::AudioPlayer)
    } else {
        None
    }
}

impl CameraDriverStatus {
    /// Reads a driver status from its raw code.
    pub fn from_code(code: u32) -> (r: Option<CameraDriverStatus>)
        ensures
            r == driver_status_of_code(code),
    {
        if code == 0 {
            Some(CameraDriverStatus::Production)
        } else if code == 1 {
            Some(CameraDriverStatus::Testing)
        } else if code == 2 {
            Some(CameraDriverStatus::Experimental)
        } else if code == 3 {
            Some(CameraDriverStatus::Deprecated)
        } else {
            None
        }
    }
}

impl DeviceType {
    /// Reads a device type from its raw code.
    pub fn from_code(code: u32) -> (r: Option<DeviceType>)
        ensures
            r == device_type_of_code(code),
    {
        if code == 0 {
            Some(DeviceType::Camera)
        } else if code == 1 {
            Some(DeviceType::AudioPlayer)
        } else {
            None
        }
    }
}

/// Available operations on the camera, as the raw mask reported by the
/// driver.
#[derive(Debug, Clone, Copy, PartialEq, Eq, Structural)]
pub struct CameraOperations(pub u32);

impl CameraOperations {
    /// The camera is able to capture images.
    pub fn capture_image(&self) -> (r: bool)
        ensures
            r == (self.0 & GP_OPERATION_CAPTURE_IMAGE != 0),
    {
        self.0 & GP_OPERATION_CAPTURE_IMAGE != 0
    }

    /// The camera can capture videos.
    pub fn capture_video(&self) -> (r: bool)
        ensures
            r == (self.0 & GP_OPERATION_CAPTURE_VIDEO != 0),
    {
        self.0 & GP_OPERATION_CAPTURE_VIDEO != 0
    }

    /// The camera can capture audio.
    pub fn capture_audio(&self) -> (r: bool)
        ensures
            r == (self.0 & GP_OPERATION_CAPTURE_AUDIO != 0),
    {
        self.0 & GP_OPERATION_CAPTURE_AUDIO != 0
    }

    /// The camera can capture previews: small images not saved on camera.
    pub fn capture_preview(&self) -> (r: bool)
        ensures
            r == (self.0 & GP_OPERATION_CAPTURE_PREVIEW != 0),
    {
        self.0 & GP_OPERATION_CAPTURE_PREVIEW != 0
    }

    /// The camera can be configured.
    pub fn configure(&self) -> (r: bool)
        ensures
            r == (self.0 & GP_OPERATION_CONFIG != 0),
    {
        self.0 & GP_OPERATION_CONFIG != 0
    }

    /// The camera can trigger captures.
    pub fn trigger_capture(&self) -> (r: bool)
        ensures
            r == (self.0 & GP_OPERATION_TRIGGER_CAPTURE != 0),
    {
        self.0 & GP_OPERATION_TRIGGER_CAPTURE != 0
    }
}

/// Available operations on files, as the raw mask reported by the driver.
#[derive(Debug, Clone, Copy, PartialEq, Eq, Structural)]
pub struct FileOperations(pub u32);

impl FileOperations {
    /// Files can be deleted.
    pub fn delete(&self) -> (r: bool)
        ensures
            r == (self.0 & GP_FILE_OPERATION_DELETE != 0),
    {
        self.0 & GP_FILE_OPERATION_DELETE != 0
    }

    /// Previews of images are available.
    pub fn preview(&self) -> (r: bool)
        ensures
            r == (self.0 & GP_FILE_OPERATION_PREVIEW != 0),
    {
        self.0 & GP_FILE_OPERATION_PREVIEW != 0
    }

    /// Raw files are available.
    pub fn raw(&self) -> (r: bool)
        ensures
            r == (self.0 & GP_FILE_OPERATION_RAW != 0),
    {
        self.0 & GP_FILE_OPERATION_RAW != 0
    }

    /// Audio of a file is available.
    pub fn audio(&self) -> (r: bool)
        ensures
            r == (self.0 & GP_FILE_OPERATION_AUDIO != 0),
    {
        self.0 & GP_FILE_OPERATION_AUDIO != 0
    }

    /// EXIF data of a file is available.
    pub fn exif(&self) -> (r: bool)
        ensures
            r == (self.0 & GP_FILE_OPERATION_EXIF != 0),
    {
        self.0 & GP_FILE_OPERATION_EXIF != 0
    }
}

/// Available operations on folders, as the raw mask reported by the driver.
#[derive(Debug, Clone, Copy, PartialEq, Eq, Structural)]
pub struct FolderOperations(pub u32);

impl FolderOperations {
    /// The content of a folder can be deleted at once.
    pub fn delete_all(&self) -> (r: bool)
        ensures
            r == (self.0 & GP_FOLDER_OPERATION_DELETE_ALL != 0),
    {
        self.0 & GP_FOLDER_OPERATION_DELETE_ALL != 0
    }

    /// Files can be uploaded into a folder.
    pub fn put_file(&self) -> (r: bool)
        ensures
            r == (self.0 & GP_FOLDER_OPERATION_PUT_FILE != 0),
    {
        self.0 & GP_FOLDER_OPERATION_PUT_FILE != 0
    }

    /// Directories can be created.
    pub fn make_dir(&self) -> (r: bool)
        ensures
            r == (self.0 & GP_FOLDER_OPERATION_MAKE_DIR != 0),
    {
        self.0 & GP_FOLDER_OPERATION_MAKE_DIR != 0
    }

    /// Directories can be removed.
    pub fn remove_dir(&self) -> (r: bool)
        ensures
            r == (self.0 & GP_FOLDER_OPERATION_REMOVE_DIR != 0),
    {
        self.0 & GP_FOLDER_OPERATION_REMOVE_DIR != 0
    }
}

/// The abilities of the driver used to connect to a device.
#[derive(Debug)]
pub struct Abilities {
    /// Camera ID.
    pub id: String,
    /// Camera model.
    pub model: String,
    /// Status of the driver.
    pub status: CameraDriverStatus,
    /// Available camera operations.
    pub operations: CameraOperations,
    /// Available file operations.
    pub file_operations: FileOperations,
    /// Available folder operations.
    pub folder_operations: FolderOperations,
    /// Type of the device.
    pub device_type: DeviceType,
    /// USB information.
    pub usb_info: UsbInfo,
}

impl Abilities {
    /// Camera ID.
    pub fn id(&self) -> (r: &String)
        ensures
            r@ == self.id@,
    {
        &self.id
    }

    /// Get the model of the camera.
    pub fn model(&self) -> (r: &String)
        ensures
            r@ == self.model@,
    {
        &self.model
    }

    /// Get the driver status of the device.
    pub fn driver_status(&self) -> (r: CameraDriverStatus)
        ensures
            r == self.status,
    {
        self.status
    }

    /// Get the camera operations of the device.
    pub fn camera_operations(&self) -> (r: CameraOperations)
        ensures
            r == self.operations,
    {
        self.operations
    }

    /// Get the file operations of the device.
    pub fn file_operations(&self) -> (r: FileOperations)
        ensures
            r == self.file_operations,
    {
        self.file_operations
    }

    /// Get the folder operations of the device.
    pub fn folder_operations(&self) -> (r: FolderOperations)
        ensures
            r == self.folder_operations,
    {
        self.folder_operations
    }

    /// Get the device type of the device.
    pub fn device_type(&self) -> (r: DeviceType)
        ensures
            r == self.device_type,
    {
        self.device_type
    }

    /// Get USB information.
    pub fn usb_info(&self) -> (r: UsbInfo)
        ensures
            r == self.usb_info,
    {
        self.usb_info
    }
}

} // verus!
