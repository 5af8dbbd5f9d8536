//! The failures that the namespace of the filesystem reports.

use vstd::prelude::*;
use crate::errno::Errno;
use crate::fs::cause::Cause;
use crate::fs::error_metadata::ErrorMetadata;

verus! {

/// The conditions under which an operation on the namespace fails.
#[derive(Clone, Copy, Debug, PartialEq, Eq, Structural)]
pub enum InodeErrorKind {
    /// The backend client failed.
    ClientError,
    FileDoesNotExist,
    InodeDoesNotExist,
    InvalidFileName,
    NotADirectory,
    IsDirectory,
    FileAlreadyExists,
    InodeNotWritable,
    InodeInvalidWriteStatus,
    InodeAlreadyWriting,
    InodeNotReadableWhileWriting,
    InodeNotWritableWhileReading,
    CannotRemoveRemoteDirectory,
    DirectoryNotEmpty,
    UnlinkNotPermittedWhileWriting,
    CorruptedMetadata,
    SetAttrNotPermittedOnRemoteInode,
    StaleInode,
}

impl InodeErrorKind {
    /// What was named does not exist.
    pub open spec fn is_missing(self) -> bool {
        self == InodeErrorKind::FileDoesNotExist || self == InodeErrorKind::InodeDoesNotExist
    }

    /// The operation is refused because of what the object is or of what is
    /// being done to it: it cannot be written or read now, or cannot be
    /// removed or changed at all. These are treated like operations on a
    /// sealed file.
    pub open spec fn is_refused(self) -> bool {
        ||| self == InodeErrorKind::InodeNotWritable
        ||| self == InodeErrorKind::InodeInvalidWriteStatus
        ||| self == InodeErrorKind::InodeAlreadyWriting
        ||| self == InodeErrorKind::InodeNotReadableWhileWriting
        ||| self == InodeErrorKind::InodeNotWritableWhileReading
        ||| self == InodeErrorKind::CannotRemoveRemoteDirectory
        ||| self == InodeErrorKind::UnlinkNotPermittedWhileWriting
        ||| self == InodeErrorKind::SetAttrNotPermittedOnRemoteInode
    }

    /// The failure lies below the namespace: in the backend, or in metadata
    /// that cannot be trusted.
    pub open spec fn is_io_failure(self) -> bool {
        self == InodeErrorKind::ClientError || self == InodeErrorKind::CorruptedMetadata
    }

    /// The POSIX code of the condition.
    pub open spec fn errno_spec(self) -> Errno {
        if self.is_missing() {
            Errno::ENOENT
        } else if self.is_refused() {
            Errno::EPERM
        } else if self.is_io_failure() {
            Errno::EIO
        } else if self == InodeErrorKind::InvalidFileName {
            Errno::EINVAL
        } else if self == InodeErrorKind::NotADirectory {
            Errno::ENOTDIR
        } else if self == InodeErrorKind::IsDirectory {
            Errno::EISDIR
        } else if self == InodeErrorKind::FileAlreadyExists {
            Errno::EEXIST
        } else if self == InodeErrorKind::DirectoryNotEmpty {
            Errno::ENOTEMPTY
        } else {
            Errno::ESTALE
        }
    }

    /// The POSIX code of the condition.
    pub fn to_errno(self) -> (errno: Errno)
        ensures
            errno == self.errno_spec(),
    {
        match self {
            InodeErrorKind::ClientError => Errno::EIO,
            InodeErrorKind::FileDoesNotExist => Errno::ENOENT,
            InodeErrorKind::InodeDoesNotExist => Errno::ENOENT,
            InodeErrorKind::InvalidFileName => Errno::EINVAL,
            InodeErrorKind::NotADirectory => Errno::ENOTDIR,
            InodeErrorKind::IsDirectory => Errno::EISDIR,
            InodeErrorKind::FileAlreadyExists => Errno::EEXIST,
            InodeErrorKind::InodeNotWritable => Errno::EPERM,
            InodeErrorKind::InodeInvalidWriteStatus => Errno::EPERM,
            InodeErrorKind::InodeAlreadyWriting => Errno::EPERM,
            InodeErrorKind::InodeNotReadableWhileWriting => Errno::EPERM,
            InodeErrorKind::InodeNotWritableWhileReading => Errno::EPERM,
            InodeErrorKind::CannotRemoveRemoteDirectory => Errno::EPERM,
            InodeErrorKind::DirectoryNotEmpty => Errno::ENOTEMPTY,
            InodeErrorKind::UnlinkNotPermittedWhileWriting => Errno::EPERM,
            InodeErrorKind::CorruptedMetadata => Errno::EIO,
            InodeErrorKind::SetAttrNotPermittedOnRemoteInode => Errno::EPERM,
            InodeErrorKind::StaleInode => Errno::ESTALE,
        }
    }

    /// Each condition has one code, which depends on nothing but the
    /// condition: not found is no such entry; a wrong kind of object is
    /// not-a-directory or is-a-directory; what exists already is file
    /// exists; a directory with entries is directory not empty; a stale
    /// handle is stale; a failure below the namespace is an I/O error; a bad
    /// name is invalid argument; and everything that is refused is not
    /// permitted, never invalid argument or read-only filesystem.
    pub proof fn lemma_one_code_per_condition(kind: InodeErrorKind)
        ensures
            kind.is_missing() <==> kind.errno_spec() == Errno::ENOENT,
            kind.is_refused() <==> kind.errno_spec() == Errno::EPERM,
            kind.is_io_failure() <==> kind.errno_spec() == Errno::EIO,
            kind == InodeErrorKind::InvalidFileName <==> kind.errno_spec() == Errno::EINVAL,
            kind == InodeErrorKind::NotADirectory <==> kind.errno_spec() == Errno::ENOTDIR,
            kind == InodeErrorKind::IsDirectory <==> kind.errno_spec() == Errno::EISDIR,
            kind == InodeErrorKind::FileAlreadyExists <==> kind.errno_spec() == Errno::EEXIST,
            kind == InodeErrorKind::DirectoryNotEmpty <==> kind.errno_spec() == Errno::ENOTEMPTY,
            kind == InodeErrorKind::StaleInode <==> kind.errno_spec() == Errno::ESTALE,
            kind.errno_spec() != Errno::EFBIG,
    {
    }
}

/// A failure of the namespace: the condition, the chain of messages that
/// describes it, and what is known of the object and the backend's answer.
#[derive(Debug)]
pub struct InodeError {
    pub kind: InodeErrorKind,
    pub cause: Cause,
    pub metadata: ErrorMetadata,
}

impl InodeError {
    /// What is known of the object and of the backend's answer.
    pub fn meta(&self) -> (metadata: &ErrorMetadata)
        ensures
            *metadata == self.metadata,
    {
        &self.metadata
    }
}

} // verus!
