//! Files stored on camera.

use vstd::prelude::*;

verus! {

/// Represents a path of a file on a camera.
#[derive(Debug, Clone)]
pub struct CameraFilePath {
    /// The folder holding the file.
    pub folder: String,
    /// The basename of the file.
    pub name: String,
}

impl CameraFilePath {
    /// Get the name of the file's folder.
    pub fn folder(&self) -> (r: &String)
        ensures
            r@ == self.folder@,
    {
        &self.folder
    }

    /// Get the basename of the file (without the folder).
    pub fn name(&self) -> (r: &String)
        ensures
            r@ == self.name@,
    {
        &self.name
    }
}

/// Type of a file.
#[derive(Debug, Clone, Copy, PartialEq, Eq, Structural)]
pub enum FileType {
    /// Preview of an image
    Preview,
    /// Normal file
    Normal,
    /// Raw data before postprocessing of the driver
    Raw,
    /// Audio contained in the file
    Audio,
    /// Embedded EXIF data of an image
    Exif,
    /// Metadata of a file
    Metadata,
}

/// The file type a raw code denotes, if any.
pub open spec fn file_type_of_code(code: u32) -> Option<FileType> {
    if code == 0 {
        Some(FileType::Preview)
    } else if code == 1 {
        Some(FileType::Normal)
    } else if code == 2 {
        Some(FileType::Raw)
    } else if code == 3 {
        Some(FileType::Audio)
    } else if code == 4 {
        Some(FileType::Exif)
    } else if code == 5 {
        Some(FileType::Metadata)
    } else {
        None
    }
}

/// The raw code of a file type.
pub open spec fn code_of_file_type(t: FileType) -> u32 {
    match t {
        FileType::Preview => 0,
        FileType::Normal => 1,
        FileType::Raw => 2,
        FileType::Audio => 3,
        FileType::Exif => 4,
        FileType::Metadata => 5,
    }
}

impl FileType {
    /// Reads a file type from its raw code.
    pub fn from_code(code: u32) -> (r: Option<FileType>)
        ensures
            r == file_type_of_code(code),
    {
        if code == 0 {
            Some(FileType::Preview)
        } else if code == 1 {
            Some(FileType::Normal)
        } else if code == 2 {
            Some(FileType::Raw)
        } else if code == 3 {
            Some(FileType::Audio)
        } else if code == 4 {
            Some(FileType::Exif)
        } else if code == 5 {
            Some(FileType::Metadata)
        } else {
            None
        }
    }

    /// The raw code of this file type.
    pub fn code(&self) -> (r: u32)
        ensures
            r == code_of_file_type(*self),
    {
        match self {
            FileType::Preview => 0,
            FileType::Normal => 1,
            FileType::Raw => 2,
            FileType::Audio => 3,
            FileType::Exif => 4,
            FileType::Metadata => 5,
        }
    }
}

/// The codes and the types correspond one to one: reading back the code of a
/// file type yields that type, and the code of a type read from a code is
/// that code.
pub proof fn lemma_file_type_code_round_trip(t: FileType, code: u32)
    ensures
        file_type_of_code(code_of_file_type(t)) == Some(t),
        file_type_of_code(code) is Some ==> code_of_file_type(
            file_type_of_code(code)->0,
        ) == code,
{
}

/// File on a camera: its identity and its downloaded contents.
#[derive(Debug, Clone)]
pub struct CameraFile {
    /// File name.
    pub name: String,
    /// File mime type.
    pub mime_type: String,
    /// File modification time, as a UNIX timestamp.
    pub mtime: i64,
    /// The data of the file.
    pub data: Vec<u8>,
}

impl CameraFile {
    /// An empty in-memory file.
    pub fn new() -> (r: CameraFile)
        ensures
            r.name@.len() == 0,
            r.mime_type@.len() == 0,
            r.mtime == 0,
            r.data@.len() == 0,
    {
        CameraFile { name: String::new(), mime_type: String::new(), mtime: 0, data: Vec::new() }
    }

    /// File name.
    pub fn name(&self) -> (r: &String)
        ensures
            r@ == self.name@,
    {
        &self.name
    }

    /// File mime type.
    pub fn mime_type(&self) -> (r: &String)
        ensures
            r@ == self.mime_type@,
    {
        &self.mime_type
    }

    /// File modification time.
    pub fn mtime(&self) -> (r: i64)
        ensures
            r == self.mtime,
    {
        self.mtime
    }

    /// The data of the file.
    pub fn get_data(&self) -> (r: &Vec<u8>)
        ensures
            r@ == self.data@,
    {
        &self.data
    }

    /// File size in bytes.
    pub fn size(&self) -> (r: usize)
        ensures
            r == self.data@.len(),
    {
        self.data.len()
    }
}

} // verus!
