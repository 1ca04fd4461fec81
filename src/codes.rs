//! The closed error taxonomies of file operations and of jobs, with their
//! numeric codes and the texts under which they are reported.
use vstd::prelude::*;

verus! {

/// Why a single copy or delete operation did not happen.
#[derive(Clone, Copy, Debug, PartialEq, Eq, Structural)]
pub enum FileOpError {
    GenericFailure,
    DestinationIsItself,
    DestinationIsDir,
    DestinationIsSymlink,
    DestinationIsNewer,
    DestinationIsIdentical,
    DestinationIsReadonly,
    DestinationExists,
    DestinationNotAccessible,
    CannotCreateDir,
    CannotCreateFile,
    SourceNotExists,
    SourceIsDir,
    SourceIsSymlink,
    SourceNotAccessible,
}

/// Why a job ended without completing.
#[derive(Clone, Copy, Debug, PartialEq, Eq, Structural)]
pub enum JobError {
    GenericFailure,
    SourceDirNotExists,
    DestinationDirNotExists,
    NoSourceFiles,
    CannotDetermineDestFile,
    HaltOnCopyError,
}

/// Code reported for a successful operation.
pub const ERR_OK: u64 = 0;
/// Code reported for a failure of the whole run.
pub const ERR_GENERIC: u64 = 9999;
/// Code reported for a configuration that cannot be used.
pub const ERR_INVALID_CONFIG_FILE: u64 = 9998;

pub open spec fn file_error_code(e: FileOpError) -> u64 {
    match e {
        FileOpError::GenericFailure => 1001,
        FileOpError::DestinationIsItself => 1011,
        FileOpError::DestinationIsDir => 1012,
        FileOpError::DestinationIsSymlink => 1013,
        FileOpError::DestinationIsNewer => 1014,
        FileOpError::DestinationIsIdentical => 1015,
        FileOpError::DestinationIsReadonly => 1016,
        FileOpError::DestinationExists => 1021,
        FileOpError::DestinationNotAccessible => 1022,
        FileOpError::CannotCreateDir => 1031,
        FileOpError::CannotCreateFile => 1032,
        FileOpError::SourceNotExists => 1041,
        FileOpError::SourceIsDir => 1042,
        FileOpError::SourceIsSymlink => 1043,
        FileOpError::SourceNotAccessible => 1044,
    }
}

pub open spec fn job_error_code(e: JobError) -> u64 {
    match e {
        JobError::GenericFailure => 2001,
        JobError::SourceDirNotExists => 2011,
        JobError::DestinationDirNotExists => 2012,
        JobError::NoSourceFiles => 2013,
        JobError::CannotDetermineDestFile => 2021,
        JobError::HaltOnCopyError => 2041,
    }
}

impl FileOpError {
    /// The numeric code under which this error is reported.
    pub fn code(&self) -> (r: u64)
        ensures
            r == file_error_code(*self),
    {
        match self {
            FileOpError::GenericFailure => 1001,
            FileOpError::DestinationIsItself => 1011,
            FileOpError::DestinationIsDir => 1012,
            FileOpError::DestinationIsSymlink => 1013,
            FileOpError::DestinationIsNewer => 1014,
            FileOpError::DestinationIsIdentical => 1015,
            FileOpError::DestinationIsReadonly => 1016,
            FileOpError::DestinationExists => 1021,
            FileOpError::DestinationNotAccessible => 1022,
            FileOpError::CannotCreateDir => 1031,
            FileOpError::CannotCreateFile => 1032,
            FileOpError::SourceNotExists => 1041,
            FileOpError::SourceIsDir => 1042,
            FileOpError::SourceIsSymlink => 1043,
            FileOpError::SourceNotAccessible => 1044,
        }
    }
}

impl JobError {
    /// The numeric code under which this error is reported.
    pub fn code(&self) -> (r: u64)
        ensures
            r == job_error_code(*self),
    {
        match self {
            JobError::GenericFailure => 2001,
            JobError::SourceDirNotExists => 2011,
            JobError::DestinationDirNotExists => 2012,
            JobError::NoSourceFiles => 2013,
            JobError::CannotDetermineDestFile => 2021,
            JobError::HaltOnCopyError => 2041,
        }
    }
}

/// The code of a file operation's outcome: `ERR_OK` on success.
pub fn file_outcome_code(outcome: &Result<(), FileOpError>) -> (r: u64)
    ensures
        r == match *outcome {
            Ok(()) => ERR_OK,
            Err(e) => file_error_code(e),
        },
{
    match outcome {
        Ok(()) => ERR_OK,
        Err(e) => e.code(),
    }
}

} // verus!
