//! The error that the filesystem returns, and how the failures of the layers
//! below are turned into it.

use vstd::prelude::*;
use crate::errno::Errno;
use crate::fs::cause::Cause;
use crate::fs::error_metadata::ErrorMetadata;
use crate::inode::InodeError;
use crate::text::chained;
use crate::upload::UploadError;

verus! {

/// How loudly a failure is to be logged. It guides the log and changes
/// nothing else.
#[derive(Clone, Copy, Debug, PartialEq, Eq, Structural)]
pub enum Level {
    ERROR,
    WARN,
    INFO,
    DEBUG,
    TRACE,
}

/// A failure as the filesystem reports it: the one POSIX code that its
/// caller gets, and for the log a message, the originating error, a level
/// and the metadata.
#[derive(Debug)]
pub struct Error {
    pub(crate) errno: Errno,
    pub(crate) message: String,
    pub(crate) source: Option<Cause>,
    pub(crate) level: Level,
    pub(crate) metadata: ErrorMetadata,
}

/// What an [`Error`] holds.
pub struct ErrorView {
    pub errno: Errno,
    pub message: Seq<char>,
    pub source: Option<Seq<Seq<char>>>,
    pub level: Level,
    pub metadata: ErrorMetadata,
}

impl ErrorView {
    /// The message, followed by the messages of the originating error's
    /// chain, each after a colon and a space.
    pub open spec fn text(self) -> Seq<char> {
        match self.source {
            Some(chain) => self.message + chained(chain),
            None => self.message,
        }
    }
}

impl View for Error {
    type V = ErrorView;

    closed spec fn view(&self) -> ErrorView {
        ErrorView {
            errno: self.errno,
            message: self.message@,
            source: match self.source {
                Some(cause) => Some(cause@),
                None => None,
            },
            level: self.level,
            metadata: self.metadata,
        }
    }
}

/// The view of an optional originating error.
pub open spec fn chain_of(source: Option<Cause>) -> Option<Seq<Seq<char>>> {
    match source {
        Some(cause) => Some(cause@),
        None => None,
    }
}

impl Error {
    /// An error with the given code and message. What is left out is filled
    /// in: without a level the error is logged as a warning, without
    /// metadata every field of it is absent.
    pub fn new(
        errno: Errno,
        message: String,
        source: Option<Cause>,
        level: Option<Level>,
        metadata: Option<ErrorMetadata>,
    ) -> (error: Error)
        ensures
            error@.errno == errno,
            error@.message == message@,
            error@.source == chain_of(source),
            error@.level == match level {
                Some(level) => level,
                None => Level::WARN,
            },
            match metadata {
                Some(metadata) => error@.metadata == metadata,
                None => error@.metadata.empty(),
            },
    {
        let level = match level {
            Some(level) => level,
            None => Level::WARN,
        };
        let metadata = match metadata {
            Some(metadata) => metadata,
            None => ErrorMetadata::default(),
        };
        Error { errno, message, source, level, metadata }
    }

    /// The metadata of the failure.
    pub fn meta(&self) -> (metadata: &ErrorMetadata)
        ensures
            *metadata == self@.metadata,
    {
        &self.metadata
    }

    /// The message of the error itself.
    pub fn message(&self) -> (message: &str)
        ensures
            message@ == self@.message,
    {
        self.message.as_str()
    }

    /// The originating error, if there is one.
    pub fn source(&self) -> (source: Option<&Cause>)
        ensures
            match source {
                Some(cause) => self@.source == Some(cause@),
                None => self@.source is None,
            },
    {
        self.source.as_ref()
    }

    /// How loudly the failure is to be logged.
    pub fn level(&self) -> (level: Level)
        ensures
            level == self@.level,
    {
        self.level
    }

    /// The failure in one line: the message and the whole chain behind it.
    pub fn to_text(&self) -> (text: String)
        ensures
            text@ == self@.text(),
    {
        let mut text = self.message.clone();
        match &self.source {
            Some(cause) => {
                cause.append_to(&mut text);
            },
            None => {},
        }
        text
    }
}

/// Errors that resolve to a POSIX code.
pub trait ToErrno {
    /// The code of the error.
    spec fn errno_spec(&self) -> Errno;

    /// The code of the error.
    fn to_errno(&self) -> (errno: Errno)
        ensures
            errno == self.errno_spec(),
    ;
}

impl ToErrno for Error {
    open spec fn errno_spec(&self) -> Errno {
        self@.errno
    }

    fn to_errno(&self) -> (errno: Errno) {
        self.errno
    }
}

impl ToErrno for InodeError {
    open spec fn errno_spec(&self) -> Errno {
        self.kind.errno_spec()
    }

    fn to_errno(&self) -> (errno: Errno) {
        self.kind.to_errno()
    }
}

impl<E> ToErrno for UploadError<E> {
    /// A failure of the backend is an I/O error; a write out of order is the
    /// caller's invalid argument; the use of a request that has ended is not
    /// permitted; an object beyond the backend's limit is too large.
    open spec fn errno_spec(&self) -> Errno {
        match self {
            UploadError::PutRequestFailed(_) => Errno::EIO,
            UploadError::OutOfOrderWrite { .. } => Errno::EINVAL,
            UploadError::PutRequestAlreadyCompleted => Errno::EPERM,
            UploadError::PutRequestPreviouslyFailed => Errno::EPERM,
            UploadError::ObjectTooBig { .. } => Errno::EFBIG,
        }
    }

    fn to_errno(&self) -> (errno: Errno) {
        match self {
            UploadError::PutRequestFailed(_) => Errno::EIO,
            UploadError::OutOfOrderWrite { .. } => Errno::EINVAL,
            UploadError::PutRequestAlreadyCompleted => Errno::EPERM,
            UploadError::PutRequestPreviouslyFailed => Errno::EPERM,
            UploadError::ObjectTooBig { .. } => Errno::EFBIG,
        }
    }
}

/// The chain of an upload error: its own message, then the chain of the
/// backend's failure if that is what it wraps.
pub open spec fn upload_chain(err: UploadError<Cause>) -> Seq<Seq<char>> {
    match err {
        UploadError::PutRequestFailed(cause) => seq![err.description()] + cause@,
        _ => seq![err.description()],
    }
}

impl From<InodeError> for Error {
    /// The error for a failure of the namespace: its message names the
    /// subsystem, the failure itself is kept as the originating error, and
    /// its metadata is carried over. It is logged as a warning.
    fn from(err: InodeError) -> (error: Error)
        ensures
            error@ == (ErrorView {
                errno: err.errno_spec(),
                message: "inode error"@,
                source: Some(err.cause@),
                level: Level::WARN,
                metadata: err.metadata,
            }),
    {
        let errno = err.to_errno();
        let metadata = err.meta().clone();
        Error {
            errno,
            message: "inode error".to_owned(),
            source: Some(err.cause),
            level: Level::WARN,
            metadata,
        }
    }
}

impl vstd::std_specs::convert::FromSpecImpl<InodeError> for Error {
    open spec fn obeys_from_spec() -> bool {
        false
    }

    open spec fn from_spec(err: InodeError) -> Error {
        arbitrary()
    }
}

impl From<UploadError<Cause>> for Error {
    /// The error for a failure of an upload: its message names the
    /// subsystem and the failure itself is kept as the originating error.
    /// It is logged as a warning, and its metadata is empty: an upload
    /// error carries none.
    fn from(err: UploadError<Cause>) -> (error: Error)
        ensures
            error@.errno == err.errno_spec(),
            error@.message == "upload error"@,
            error@.source == Some(upload_chain(err)),
            error@.level == Level::WARN,
            error@.metadata.empty(),
    {
        let errno = err.to_errno();
        let own = Cause::new(err.describe());
        let source = match err {
            UploadError::PutRequestFailed(cause) => own.caused_by(cause),
            _ => own,
        };
        Error {
            errno,
            message: "upload error".to_owned(),
            source: Some(source),
            level: Level::WARN,
            metadata: ErrorMetadata::default(),
        }
    }
}

impl vstd::std_specs::convert::FromSpecImpl<UploadError<Cause>> for Error {
    open spec fn obeys_from_spec() -> bool {
        false
    }

    open spec fn from_spec(err: UploadError<Cause>) -> Error {
        arbitrary()
    }
}

} // verus!
