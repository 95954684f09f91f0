//! Acceptance rules for the private files the agent reads: who may own them,
//! who may access them, and how large they may be.

#[allow(unused_imports)]
use vstd::prelude::*;
use crate::failure::{Failure, FailureKind};
#[allow(unused_imports)]
use crate::failure::{failure, fault_of, FailureView};

verus! {

/// What the file system reports about one directory entry or descriptor.
#[derive(Clone, Copy, Debug, PartialEq, Eq, Structural)]
pub struct FileFacts {
    pub is_symlink: bool,
    pub is_file: bool,
    pub len: u64,
    pub uid: u32,
    pub mode: u32,
    pub device: u64,
    pub inode: u64,
}

impl FileFacts {
    /// The entry is a regular file itself, not a link to one.
    pub open spec fn regular(self) -> bool {
        !self.is_symlink && self.is_file
    }

    /// Group or other users have some access.
    pub open spec fn shared(self) -> bool {
        self.mode & 0o077 != 0
    }

    /// Both describe the same file of the same device.
    pub open spec fn same_file(self, other: FileFacts) -> bool {
        self.device == other.device && self.inode == other.inode
    }

    /// Whether the entry is a regular file itself.
    pub fn is_regular(&self) -> (regular: bool)
        ensures
            regular == self.regular(),
    {
        !self.is_symlink && self.is_file
    }

    /// Whether group or other users have some access.
    pub fn is_shared(&self) -> (shared: bool)
        ensures
            shared == self.shared(),
    {
        self.mode & 0o077 != 0
    }
}

/// A file as it is stored: its bytes, and who may access it.
pub struct StoredFile {
    pub bytes: Seq<u8>,
    pub mode: u32,
}

impl StoredFile {
    /// A file system can hold it.
    pub open spec fn storable(self) -> bool {
        self.bytes.len() <= u64::MAX && self.mode & 0o777 == self.mode
    }
}

/// The access that only the owner has.
pub const OWNER_ONLY: u32 = 0o600;

/// A stored file that only its owner may access.
pub open spec fn private_file(bytes: Seq<u8>) -> StoredFile {
    StoredFile { bytes, mode: OWNER_ONLY }
}

/// What stands in a file's place, and whether there is a temporary file beside
/// it.
pub struct Place {
    pub file: Option<StoredFile>,
    pub temporary: bool,
}

/// The facts are those of a stored file of a user.
pub open spec fn describes(facts: FileFacts, file: StoredFile, uid: u32) -> bool {
    &&& facts.regular()
    &&& facts.len == file.bytes.len()
    &&& facts.uid == uid
    &&& facts.mode & 0o777 == file.mode
}

/// A file that only its owner may access is not shared.
pub proof fn private_files_are_not_shared(facts: FileFacts, bytes: Seq<u8>, uid: u32)
    requires
        describes(facts, private_file(bytes), uid),
    ensures
        !facts.shared(),
{
    let mode = facts.mode;
    assert(mode & 0o777 == 0o600u32 ==> mode & 0o077 == 0) by (bit_vector);
}

/// Why an opened private file may not be used. The checks apply in order:
/// kind of file, owner, access, size.
pub open spec fn private_file_fault(facts: FileFacts, uid: u32, max_bytes: u64) -> Option<
    FailureView,
> {
    if !facts.regular() {
        Some(failure(FailureKind::InvalidData, "private state must be a regular file"@))
    } else if facts.uid != uid {
        Some(
            failure(
                FailureKind::PermissionDenied,
                "private state must be owned by the current user"@,
            ),
        )
    } else if facts.shared() {
        Some(
            failure(
                FailureKind::PermissionDenied,
                "private state must not be accessible by group or other users"@,
            ),
        )
    } else if facts.len > max_bytes {
        Some(failure(FailureKind::InvalidData, "private state exceeds its size limit"@))
    } else {
        None
    }
}

/// Checks the facts of an opened descriptor before its contents are read.
pub fn validate_descriptor(facts: &FileFacts, uid: u32, max_bytes: u64) -> (outcome: Result<
    (),
    Failure,
>)
    ensures
        fault_of(outcome) == private_file_fault(*facts, uid, max_bytes),
{
    if !facts.is_regular() {
        return Err(Failure::new(FailureKind::InvalidData, "private state must be a regular file"));
    }
    if facts.uid != uid {
        return Err(
            Failure::new(
                FailureKind::PermissionDenied,
                "private state must be owned by the current user",
            ),
        );
    }
    if facts.is_shared() {
        return Err(
            Failure::new(
                FailureKind::PermissionDenied,
                "private state must not be accessible by group or other users",
            ),
        );
    }
    if facts.len > max_bytes {
        return Err(Failure::new(FailureKind::InvalidData, "private state exceeds its size limit"));
    }
    Ok(())
}

/// Accepts the bytes that were read from a private file: what the descriptor
/// reported and what actually arrived must both be within the limit.
pub fn read_private_file(facts: &FileFacts, bytes: Vec<u8>, uid: u32, max_bytes: u64) -> (outcome:
    Result<Vec<u8>, Failure>)
    ensures
        fault_of(outcome) == (match private_file_fault(*facts, uid, max_bytes) {
            Some(fault) => Some(fault),
            None => if bytes@.len() > max_bytes {
                Some(failure(FailureKind::InvalidData, "private state exceeds its size limit"@))
            } else {
                None
            },
        }),
        outcome matches Ok(accepted) ==> accepted@ == bytes@,
{
    match validate_descriptor(facts, uid, max_bytes) {
        Ok(()) => {},
        Err(error) => return Err(error),
    }
    if bytes.len() as u64 > max_bytes {
        return Err(Failure::new(FailureKind::InvalidData, "private state exceeds its size limit"));
    }
    Ok(bytes)
}

/// A private file is accepted exactly where it is a regular file of the user,
/// that nobody else may access, within its size limit.
pub proof fn private_files_are_accepted(facts: FileFacts, uid: u32, max_bytes: u64)
    ensures
        private_file_fault(facts, uid, max_bytes) is None <==> facts.is_file && !facts.is_symlink
            && facts.uid == uid && facts.mode & 0o077 == 0 && facts.len <= max_bytes,
{
}

} // verus!
