//! Whether a mapped file still belongs to the process that it was mapped for.

use vstd::prelude::*;

use crate::error::{Fault, JvmMonitorError};

verus! {

/// What tells a file from another one of the same length.
#[derive(Debug, Clone, Copy, PartialEq, Eq, Structural)]
pub enum FileKey {
    /// Device and inode numbers.
    Inode { device: u64, inode: u64 },
    /// The time of creation in nanoseconds, where the file system keeps it.
    Created { at: Option<i128> },
}

/// What identifies a perfdata file.
#[derive(Debug, Clone, Copy, PartialEq, Eq, Structural)]
pub struct FileIdentity {
    /// Length in bytes.
    pub len: u64,
    /// What tells it from another file of that length.
    pub key: FileKey,
}

impl FileIdentity {
    /// Whether a file seen later is still the one identified. A creation time that was not known
    /// from the start is not held against it.
    pub open spec fn same_file(self, current: FileIdentity) -> bool {
        self.len == current.len && (self.key == (FileKey::Created { at: None }) || self.key
            == current.key)
    }

    /// Whether a file seen later is still the one identified.
    pub fn matches(&self, current: &FileIdentity) -> (same: bool)
        ensures
            same == self.same_file(*current),
    {
        if self.len != current.len {
            return false;
        }
        match (self.key, current.key) {
            (FileKey::Created { at: None }, _) => true,
            (FileKey::Created { at: Some(first) }, FileKey::Created { at: Some(second) }) => first
                == second,
            (
                FileKey::Inode { device, inode },
                FileKey::Inode { device: other_device, inode: other_inode },
            ) => device == other_device && inode == other_inode,
            _ => false,
        }
    }
}

/// What can be seen of a target process and its perfdata file at one moment.
#[derive(Debug)]
pub struct TargetObservation {
    /// The start time of the process, where it can be read.
    pub start_time: Option<u64>,
    /// The file that the path leads to, if there is one.
    pub path: Option<FileIdentity>,
    /// The open file.
    pub file: Result<FileIdentity, std::io::Error>,
}

/// Which process and which file a monitor watches.
#[derive(Debug, Clone, Copy, PartialEq, Eq, Structural)]
pub struct TargetIdentity {
    /// Process ID.
    pub pid: u32,
    /// The start time of the process, where it could be read.
    pub start_time: Option<u64>,
    /// The file.
    pub file: FileIdentity,
}

impl TargetIdentity {
    /// The error of a target that is gone.
    pub open spec fn gone(self) -> Fault {
        Fault::ProcessNotFound(self.pid)
    }

    /// Why what is seen is not the target, whose perfdata are mapped at the given length.
    pub open spec fn identity_fault(self, seen: TargetObservation, mapping_len: int) -> Option<
        Fault,
    > {
        if self.start_time is Some && seen.start_time != self.start_time {
            Some(self.gone())
        } else if seen.path is None || !self.file.same_file(seen.path->0) {
            Some(self.gone())
        } else {
            match seen.file {
                Err(error) => Some(Fault::IoError(error)),
                Ok(file) => if !self.file.same_file(file) || file.len != mapping_len {
                    Some(self.gone())
                } else {
                    None
                },
            }
        }
    }

    /// Checks that what is seen is the target.
    pub fn validate(&self, seen: TargetObservation, mapping_len: usize) -> (checked: Result<
        (),
        JvmMonitorError,
    >)
        ensures
            match checked {
                Ok(_) => self.identity_fault(seen, mapping_len as int) is None,
                Err(error) => self.identity_fault(seen, mapping_len as int) == Some(error@),
            },
    {
        let TargetObservation { start_time, path, file } = seen;
        match (self.start_time, start_time) {
            (None, _) => {},
            (Some(expected), Some(actual)) => if expected != actual {
                return Err(JvmMonitorError::ProcessNotFound(self.pid));
            },
            (Some(_), None) => return Err(JvmMonitorError::ProcessNotFound(self.pid)),
        }
        match path {
            Some(path) => if !self.file.matches(&path) {
                return Err(JvmMonitorError::ProcessNotFound(self.pid));
            },
            None => return Err(JvmMonitorError::ProcessNotFound(self.pid)),
        }
        match file {
            Ok(file) => if !self.file.matches(&file) || file.len != mapping_len as u64 {
                Err(JvmMonitorError::ProcessNotFound(self.pid))
            } else {
                Ok(())
            },
            Err(error) => Err(JvmMonitorError::from(error)),
        }
    }
}

} // verus!
