//! Camera filesystem and storage descriptions.
//!
//! The device library reports storage and per-file information as records of
//! enumeration codes, bit masks and a mask saying which fields are valid at
//! all; here the valid fields are plain `Option`s.

use vstd::prelude::*;

verus! {

/// This file has been downloaded.
pub const GP_FILE_STATUS_DOWNLOADED: u32 = 1;

/// The file can be read.
pub const GP_FILE_PERM_READ: u32 = 1;
/// The file can be deleted.
pub const GP_FILE_PERM_DELETE: u32 = 2;

/// Hardware storage type.
#[derive(Debug, Clone, Copy, PartialEq, Eq, Structural)]
pub enum StorageType {
    /// Unknown storage type
    Unknown,
    /// Fixed ROM storage
    FixedRom,
    /// Removable ROM storage
    RemovableRom,
    /// Fixed RAM
    FixedRam,
    /// Removable RAM storage (memory cards)
    RemovableRam,
}

/// Type of the filesystem hierarchy.
#[derive(Debug, Clone, Copy, PartialEq, Eq, Structural)]
pub enum FilesystemType {
    /// Unknown filesystem type
    Unknown,
    /// Flat filesystem (all in one directory)
    Flat,
    /// Tree hierarchy
    Tree,
    /// DCIM style filesystem
    Dcf,
}

/// Access types of storage.
#[derive(Debug, Clone, Copy, PartialEq, Eq, Structural)]
pub enum AccessType {
    /// Read/Write
    Rw,
    /// Read only
    Ro,
    /// Read only with delete
    RoDelete,
}

/// The storage type a raw code denotes, if any.
pub open spec fn storage_type_of_code(code: u32) -> Option<StorageType> {
    if code == 0 {
        Some(StorageType::Unknown)
    } else if code == 1 {
        Some(StorageType::FixedRom)
    } else if code == 2 {
        Some(StorageType::RemovableRom)
    } else if code == 3 {
        Some(StorageType::FixedRam)
    } else if code == 4 {
        Some(StorageType::RemovableRam)
    } else {
        None
    }
}

/// The filesystem type a raw code denotes, if any.
pub open spec fn filesystem_type_of_code(code: u32) -> Option<FilesystemType> {
    if code == 0 {
        Some(FilesystemType::Unknown)
    } else if code == 1 {
        Some(FilesystemType::Flat)
    } else if code == 2 {
        Some(FilesystemType::Tree)
    } else if code == 3 {
        Some(FilesystemType::Dcf)
    } else {
        None
    }
}

/// The access type a raw code denotes, if any.
pub open spec fn access_type_of_code(code: u32) -> Option<AccessType> {
    if code == 0 {
        Some(AccessType::Rw)
    } else if code == 1 {
        Some(AccessType::Ro)
    } else if code == 2 {
        Some(AccessType::RoDelete)
    } else {
        None
    }
}

impl StorageType {
    /// Reads a storage type from its raw code.
    pub fn from_code(code: u32) -> (r: Option<StorageType>)
        ensures
            r == storage_type_of_code(code),
    {
        if code == 0 {
            Some(StorageType::Unknown)
        } else if code == 1 {
            Some(StorageType::FixedRom)
        } else if code == 2 {
            Some(StorageType::RemovableRom)
        } else if code == 3 {
            Some(StorageType::FixedRam)
        } else if code == 4 {
            Some(StorageType::RemovableRam)
        } else {
            None
        }
    }
}

impl FilesystemType {
    /// Reads a filesystem type from its raw code.
    pub fn from_code(code: u32) -> (r: Option<FilesystemType>)
        ensures
            r == filesystem_type_of_code(code),
    {
        if code == 0 {
            Some(FilesystemType::Unknown)
        } else if code == 1 {
            Some(FilesystemType::Flat)
        } else if code == 2 {
            Some(FilesystemType::Tree)
        } else if code == 3 {
            Some(FilesystemType::Dcf)
        } else {
            None
        }
    }
}

impl AccessType {
    /// Reads an access type from its raw code.
    pub fn from_code(code: u32) -> (r: Option<AccessType>)
        ensures
            r == access_type_of_code(code),
    {
        if code == 0 {
            Some(AccessType::Rw)
        } else if code == 1 {
            Some(AccessType::Ro)
        } else if code == 2 {
            Some(AccessType::RoDelete)
        } else {
            None
        }
    }
}

/// Status of a file, as the raw mask reported by the driver.
#[derive(Debug, Clone, Copy, PartialEq, Eq, Structural)]
pub struct FileStatus(pub u32);

impl FileStatus {
    /// This file has been downloaded.
    pub fn downloaded(&self) -> (r: bool)
        ensures
            r == (self.0 & GP_FILE_STATUS_DOWNLOADED != 0),
    {
        self.0 & GP_FILE_STATUS_DOWNLOADED != 0
    }
}

/// Permissions of a file, as the raw mask reported by the driver.
#[derive(Debug, Clone, Copy, PartialEq, Eq, Structural)]
pub struct FilePermissions(pub u32);

impl FilePermissions {
    /// The file can be read.
    pub fn read(&self) -> (r: bool)
        ensures
            r == (self.0 & GP_FILE_PERM_READ != 0),
    {
        self.0 & GP_FILE_PERM_READ != 0
    }

    /// The file can be deleted.
    pub fn delete(&self) -> (r: bool)
        ensures
            r == (self.0 & GP_FILE_PERM_DELETE != 0),
    {
        self.0 & GP_FILE_PERM_DELETE != 0
    }
}

/// Image thumbnail information; absent fields were not reported.
#[derive(Debug, Clone)]
pub struct FileInfoPreview {
    /// Status of the preview file.
    pub status: Option<FileStatus>,
    /// Size of the preview file.
    pub size: Option<u64>,
    /// Mime type of the preview file.
    pub mime_type: Option<String>,
    /// Image width.
    pub width: Option<u32>,
    /// Image height.
    pub height: Option<u32>,
}

/// Information about the main file; absent fields were not reported.
#[derive(Debug, Clone)]
pub struct FileInfoFile {
    /// Status of the file.
    pub status: Option<FileStatus>,
    /// File size.
    pub size: Option<u64>,
    /// Mime type.
    pub mime_type: Option<String>,
    /// Image width.
    pub width: Option<u32>,
    /// Image height.
    pub height: Option<u32>,
    /// File permissions.
    pub permissions: Option<FilePermissions>,
    /// File modification time, as a UNIX timestamp.
    pub mtime: Option<i64>,
}

/// Information about a file's audio data; absent fields were not reported.
#[derive(Debug, Clone)]
pub struct FileInfoAudio {
    /// Status of the audio file.
    pub status: Option<FileStatus>,
    /// Size of the audio file.
    pub size: Option<u64>,
    /// Mime type of the audio.
    pub mime_type: Option<String>,
}

/// File information for preview, normal file and audio.
#[derive(Debug, Clone)]
pub struct FileInfo {
    /// Info for the file preview.
    pub preview: FileInfoPreview,
    /// Info for the normal file.
    pub file: FileInfoFile,
    /// Info for the file audio data.
    pub audio: FileInfoAudio,
}

impl FileInfo {
    /// Info for the file preview.
    pub fn preview(&self) -> (r: &FileInfoPreview)
        ensures
            r == &self.preview,
    {
        &self.preview
    }

    /// Info for the normal file.
    pub fn file(&self) -> (r: &FileInfoFile)
        ensures
            r == &self.file,
    {
        &self.file
    }

    /// Info for the file audio data.
    pub fn audio(&self) -> (r: &FileInfoAudio)
        ensures
            r == &self.audio,
    {
        &self.audio
    }
}

} // verus!
