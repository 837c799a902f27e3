//! File-access decisions. The file collaborator that actually reads and
//! writes lives outside the library; it reports whether the path is a
//! regular file and the permission bits it found, and [`Controller`]
//! decides whether the editor may use the file, in the order: not a
//! file, then read permission, then write permission.

use vstd::prelude::*;

verus! {

/// Which kind of access a permission failure refers to.
#[derive(Clone, Copy, Debug, PartialEq, Eq)]
pub enum AccessMode {
    Read,
    Write,
}

/// Why a file cannot be used: it is not a regular file, the user lacks
/// a permission, or the read or write itself failed.
#[derive(Clone, Copy, Debug, PartialEq, Eq)]
pub enum FileAccessError {
    NotAFile,
    PermissionDenied(AccessMode),
    IoFailure,
}

/// Decides whether a file may be opened for editing.
#[derive(Clone, Copy, Debug)]
pub struct Controller {}

/// The owner read bit of a Unix permission mode.
pub open spec fn mode_allows_read(permissions_mode: u32) -> bool {
    permissions_mode & 0o400 != 0
}

/// The owner write bit of a Unix permission mode.
pub open spec fn mode_allows_write(permissions_mode: u32) -> bool {
    permissions_mode & 0o200 != 0
}

impl Controller {
    pub fn new() -> (c: Controller) {
        Controller {  }
    }

    pub fn can_read(&self, permissions_mode: u32) -> (r: bool)
        ensures
            r == mode_allows_read(permissions_mode),
    {
        permissions_mode & 0o400 != 0
    }

    pub fn can_write(&self, permissions_mode: u32) -> (r: bool)
        ensures
            r == mode_allows_write(permissions_mode),
    {
        permissions_mode & 0o200 != 0
    }

    /// Whether a file may be edited, given what the file collaborator
    /// observed: both read and write permission are required on an
    /// existing regular file.
    pub fn check_access(&self, is_file: bool, permissions_mode: u32) -> (r: Result<
        (),
        FileAccessError,
    >)
        ensures
            r is Ok <==> is_file && mode_allows_read(permissions_mode) && mode_allows_write(
                permissions_mode,
            ),
            !is_file ==> r == Err::<(), FileAccessError>(FileAccessError::NotAFile),
            is_file && !mode_allows_read(permissions_mode) ==> r == Err::<(), FileAccessError>(
                FileAccessError::PermissionDenied(AccessMode::Read),
            ),
            is_file && mode_allows_read(permissions_mode) && !mode_allows_write(permissions_mode)
                ==> r == Err::<(), FileAccessError>(
                FileAccessError::PermissionDenied(AccessMode::Write),
            ),
    {
        if !is_file {
            return Err(FileAccessError::NotAFile);
        }
        if !self.can_read(permissions_mode) {
            return Err(FileAccessError::PermissionDenied(AccessMode::Read));
        }
        if !self.can_write(permissions_mode) {
            return Err(FileAccessError::PermissionDenied(AccessMode::Write));
        }
        Ok(())
    }
}

} // verus!
