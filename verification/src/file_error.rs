//! The closed set of failure categories that file operations report, and the
//! classification of low-level I/O failures into them.

use vstd::prelude::*;
use vstd::string::StringExecFns;

verus! {

/// Errors that can occur during file operations.
#[derive(Debug, Clone, Copy, PartialEq, Eq)]
pub enum FileError {
    /// The requested file was not found.
    NotFound,
    /// Permission was denied for the file operation.
    PermissionDenied,
    /// The provided path is invalid or outside allowed directories.
    InvalidPath,
    /// A general I/O error occurred.
    IoError,
    /// Failed to determine allowed directory.
    ConfigError,
    /// Tried to save without a currently opened file.
    NoOpenFile,
}

/// A low-level I/O failure, reduced to the causes the editor tells apart.
/// The shell classifies the platform's error into one of these before
/// handing it to the library.
#[derive(Debug, Clone, Copy, PartialEq, Eq)]
pub enum IoFailure {
    /// The target path was absent.
    NotFound,
    /// The operating system denied access.
    PermissionDenied,
    /// Any other I/O failure.
    Other,
}

/// The stable category that a low-level I/O failure is reported under.
pub open spec fn classify_io(k: IoFailure) -> FileError {
    match k {
        IoFailure::NotFound => FileError::NotFound,
        IoFailure::PermissionDenied => FileError::PermissionDenied,
        IoFailure::Other => FileError::IoError,
    }
}

impl From<IoFailure> for FileError {
    fn from(k: IoFailure) -> (r: FileError) {
        match k {
            IoFailure::NotFound => FileError::NotFound,
            IoFailure::PermissionDenied => FileError::PermissionDenied,
            IoFailure::Other => FileError::IoError,
        }
    }
}

impl vstd::std_specs::convert::FromSpecImpl<IoFailure> for FileError {
    open spec fn obeys_from_spec() -> bool {
        true
    }

    open spec fn from_spec(k: IoFailure) -> FileError {
        classify_io(k)
    }
}

impl FileError {
    /// A fixed human-readable description of the failure category.
    pub fn message(&self) -> (r: String)
        ensures
            r@ == self.message_spec(),
    {
        match self {
            FileError::NotFound => String::from_str("File not found"),
            FileError::PermissionDenied => String::from_str("Permission denied"),
            FileError::InvalidPath => String::from_str("Invalid or disallowed path"),
            FileError::IoError => String::from_str("File operation failed"),
            FileError::ConfigError => String::from_str("Could not determine allowed directory"),
            FileError::NoOpenFile => String::from_str("No file is currently opened"),
        }
    }

    /// The description that `message` returns for each category.
    pub open spec fn message_spec(&self) -> Seq<char> {
        match self {
            FileError::NotFound => "File not found"@,
            FileError::PermissionDenied => "Permission denied"@,
            FileError::InvalidPath => "Invalid or disallowed path"@,
            FileError::IoError => "File operation failed"@,
            FileError::ConfigError => "Could not determine allowed directory"@,
            FileError::NoOpenFile => "No file is currently opened"@,
        }
    }
}

} // verus!
