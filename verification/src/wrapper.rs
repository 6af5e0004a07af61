//! Error values of the ext4 layer and their translation to Linux error codes.
use vstd::prelude::*;
use crate::errno::Errno;

verus! {

/// The inode number of the root directory.
pub const EXT4_ROOT_INO: u32 = 2;

/// What went wrong inside the ext4 engine.
#[derive(Clone, Copy, Debug, PartialEq, Eq, Structural)]
pub enum ErrorKind {
    NotFound,
    PermissionDenied,
    AlreadyExists,
    InvalidInput,
    Io,
    NoSpace,
    NotEmpty,
    Unsupported,
    Corrupted,
    Busy,
    InvalidState,
    /// Any failure the layer has no dedicated error number for.
    Other,
}

impl ErrorKind {
    /// The Linux error that reports this kind of failure.
    pub open spec fn spec_errno(self) -> Errno {
        match self {
            ErrorKind::NotFound => Errno::ENOENT,
            ErrorKind::PermissionDenied => Errno::EACCES,
            ErrorKind::AlreadyExists => Errno::EEXIST,
            ErrorKind::InvalidInput => Errno::EINVAL,
            ErrorKind::Io => Errno::EIO,
            ErrorKind::NoSpace => Errno::ENOSPC,
            ErrorKind::NotEmpty => Errno::ENOTEMPTY,
            ErrorKind::Unsupported => Errno::EOPNOTSUPP,
            ErrorKind::Corrupted => Errno::EUCLEAN,
            ErrorKind::Busy => Errno::EBUSY,
            ErrorKind::InvalidState => Errno::EBADFD,
            ErrorKind::Other => Errno::EIO,
        }
    }

    /// The Linux error that reports this kind of failure.
    pub fn errno(self) -> (r: Errno)
        ensures
            r == self.spec_errno(),
    {
        match self {
            ErrorKind::NotFound => Errno::ENOENT,
            ErrorKind::PermissionDenied => Errno::EACCES,
            ErrorKind::AlreadyExists => Errno::EEXIST,
            ErrorKind::InvalidInput => Errno::EINVAL,
            ErrorKind::Io => Errno::EIO,
            ErrorKind::NoSpace => Errno::ENOSPC,
            ErrorKind::NotEmpty => Errno::ENOTEMPTY,
            ErrorKind::Unsupported => Errno::EOPNOTSUPP,
            ErrorKind::Corrupted => Errno::EUCLEAN,
            ErrorKind::Busy => Errno::EBUSY,
            ErrorKind::InvalidState => Errno::EBADFD,
            ErrorKind::Other => Errno::EIO,
        }
    }
}

/// An error as the ext4 engine and the block device report it: a kind and a
/// fixed message.
#[derive(Clone, Copy, Debug)]
pub struct CoreError {
    pub kind: ErrorKind,
    pub message: &'static str,
}

impl CoreError {
    pub fn new(kind: ErrorKind, message: &'static str) -> (r: CoreError)
        ensures
            r.kind == kind,
            r.message == message,
    {
        CoreError { kind, message }
    }
}

/// An ext4 error as the layer's callers see it: a Linux error number and an
/// optional message.
#[derive(Debug, Clone, Copy)]
pub struct Ext4Error {
    pub code: i32,
    pub message: Option<&'static str>,
}

/// The result of an operation of the ext4 layer.
pub type Ext4Result<T> = Result<T, Ext4Error>;

/// The message that an error without one carries back into the engine.
pub open spec fn message_or_default(message: Option<&'static str>) -> &'static str {
    match message {
        Some(m) => m,
        None => "Error",
    }
}

/// The Ext4Error that an engine error becomes: the Linux error number of its
/// kind, with the message kept.
pub open spec fn spec_from_core_error(err: CoreError) -> Ext4Error {
    Ext4Error { code: err.kind.spec_errno().number(), message: Some(err.message) }
}

/// The engine error that an Ext4Error becomes when it leaves a callback run
/// inside the engine: an I/O failure that keeps the message, or says "Error"
/// when there is none.
pub open spec fn spec_to_core_error(e: Ext4Error) -> CoreError {
    CoreError { kind: ErrorKind::Io, message: message_or_default(e.message) }
}

impl Ext4Error {
    pub fn new(code: i32, message: Option<&'static str>) -> (r: Self)
        ensures
            r.code == code,
            r.message == message,
    {
        Ext4Error { code, message }
    }

    /// Translates an engine error into the layer's error.
    pub fn from_core_error(err: CoreError) -> (r: Self)
        ensures
            r == spec_from_core_error(err),
    {
        Ext4Error { code: err.kind.errno().code(), message: Some(err.message) }
    }

    /// Translates this error back into an engine error, as a callback run
    /// inside the engine hands it over.
    pub fn to_core_error(&self) -> (r: CoreError)
        ensures
            r == spec_to_core_error(*self),
    {
        let message = match self.message {
            Some(m) => m,
            None => "Error",
        };
        CoreError { kind: ErrorKind::Io, message }
    }
}

/// An error that leaves a callback run inside the engine, and comes back out
/// of the engine, is reported as EIO with its message, or "Error" when it had
/// none.
pub proof fn lemma_callback_error_round_trip(e: Ext4Error)
    ensures
        spec_from_core_error(spec_to_core_error(e)) == (Ext4Error {
            code: 5,
            message: Some(message_or_default(e.message)),
        }),
        e.message is Some ==> spec_from_core_error(spec_to_core_error(e)).message == e.message,
{
}

/// Every engine error is reported with a positive Linux error number, and
/// its message is never lost.
pub proof fn lemma_core_error_code_positive(err: CoreError)
    ensures
        spec_from_core_error(err).code > 0,
        spec_from_core_error(err).message == Some(err.message),
{
}

/// Each kind of engine failure is reported with its Linux error number:
/// ENOENT (2) for a missing entry, EACCES (13), EEXIST (17), EINVAL (22),
/// EIO (5) for I/O failures and failures without a number of their own,
/// ENOSPC (28), ENOTEMPTY (39), EOPNOTSUPP (95), EUCLEAN (117) for
/// corruption, EBUSY (16) and EBADFD (77) for a bad state.
pub proof fn lemma_core_error_numbers(err: CoreError)
    ensures
        err.kind == ErrorKind::NotFound <==> spec_from_core_error(err).code == 2,
        err.kind == ErrorKind::PermissionDenied <==> spec_from_core_error(err).code == 13,
        err.kind == ErrorKind::AlreadyExists <==> spec_from_core_error(err).code == 17,
        err.kind == ErrorKind::InvalidInput <==> spec_from_core_error(err).code == 22,
        (err.kind == ErrorKind::Io || err.kind == ErrorKind::Other) <==> spec_from_core_error(err).code == 5,
        err.kind == ErrorKind::NoSpace <==> spec_from_core_error(err).code == 28,
        err.kind == ErrorKind::NotEmpty <==> spec_from_core_error(err).code == 39,
        err.kind == ErrorKind::Unsupported <==> spec_from_core_error(err).code == 95,
        err.kind == ErrorKind::Corrupted <==> spec_from_core_error(err).code == 117,
        err.kind == ErrorKind::Busy <==> spec_from_core_error(err).code == 16,
        err.kind == ErrorKind::InvalidState <==> spec_from_core_error(err).code == 77,
        spec_from_core_error(err).message == Some(err.message),
{
}

/// File-system statistics.
#[derive(Debug, Clone, Copy)]
pub struct FsStat {
    pub block_size: u32,
    pub blocks_count: u64,
    pub free_blocks_count: u64,
    pub inodes_count: u32,
    pub free_inodes_count: u32,
}

impl Default for FsStat {
    fn default() -> (r: FsStat)
        ensures
            r.block_size == 0 && r.blocks_count == 0 && r.free_blocks_count == 0,
            r.inodes_count == 0 && r.free_inodes_count == 0,
    {
        FsStat { block_size: 0, blocks_count: 0, free_blocks_count: 0, inodes_count: 0, free_inodes_count: 0 }
    }
}

} // verus!
