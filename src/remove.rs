//! The delete decision engine, in the same shape as the copy engine: the
//! caller performs the step that `next_remove_step` names, records what it
//! saw in `RemoveFacts`, and asks again.
use crate::codes::FileOpError;
use crate::copy::EntryKind;
use vstd::prelude::*;

verus! {

/// What has been learnt so far about removing one file; `None` marks what
/// was not asked yet.
#[derive(Clone, Copy, Debug, PartialEq, Eq, Structural)]
pub struct RemoveFacts {
    /// The file's metadata after resolving its path; `Some(None)` when it
    /// does not exist or cannot be read.
    pub target: Option<Option<EntryKind>>,
    /// Whether moving it to the trash succeeded.
    pub trashed: Option<bool>,
    /// Whether deleting it for good succeeded.
    pub removed: Option<bool>,
}

/// The next thing the caller must do.
#[derive(Clone, Copy, Debug, PartialEq, Eq)]
pub enum RemoveStep {
    /// Resolve the path and read its metadata.
    Inspect,
    /// Move the file to the trash.
    Trash,
    /// Delete the file for good.
    Delete,
    /// The removal is decided.
    Finished(Result<(), FileOpError>),
}

impl RemoveFacts {
    pub fn new() -> (f: RemoveFacts)
        ensures
            f.target is None,
            f.trashed is None,
            f.removed is None,
    {
        RemoveFacts { target: None, trashed: None, removed: None }
    }
}

pub open spec fn delete_step(facts: RemoveFacts) -> RemoveStep {
    match facts.removed {
        None => RemoveStep::Delete,
        Some(true) => RemoveStep::Finished(Ok(())),
        Some(false) => RemoveStep::Finished(Err(FileOpError::DestinationNotAccessible)),
    }
}

/// The next step of removing one file, given what is known.
pub open spec fn remove_step(follow_symlinks: bool, trash_on_delete: bool, facts: RemoveFacts) -> RemoveStep {
    match facts.target {
        None => RemoveStep::Inspect,
        Some(None) => RemoveStep::Finished(Err(FileOpError::DestinationNotAccessible)),
        Some(Some(k)) => if k.is_dir {
            RemoveStep::Finished(Err(FileOpError::DestinationIsDir))
        } else if k.is_symlink && !follow_symlinks {
            RemoveStep::Finished(Err(FileOpError::DestinationIsSymlink))
        } else if trash_on_delete {
            match facts.trashed {
                None => RemoveStep::Trash,
                Some(true) => RemoveStep::Finished(Ok(())),
                Some(false) => delete_step(facts),
            }
        } else {
            delete_step(facts)
        },
    }
}

/// Decides the next step of removing one file: a missing or unreadable
/// file, a directory, or a link that must not be followed is refused;
/// otherwise the file goes to the trash when so configured, and is deleted
/// for good when that is not configured or did not work.
pub fn next_remove_step(follow_symlinks: bool, trash_on_delete: bool, facts: &RemoveFacts) -> (r: RemoveStep)
    ensures
        r == remove_step(follow_symlinks, trash_on_delete, *facts),
        r is Inspect ==> facts.target is None,
        r is Trash ==> facts.trashed is None,
        r is Delete ==> facts.removed is None,
        r == RemoveStep::Finished(Ok(())) ==> facts.trashed == Some(true) || facts.removed == Some(true),
{
    match facts.target {
        None => RemoveStep::Inspect,
        Some(None) => RemoveStep::Finished(Err(FileOpError::DestinationNotAccessible)),
        Some(Some(k)) => {
            if k.is_dir {
                RemoveStep::Finished(Err(FileOpError::DestinationIsDir))
            } else if k.is_symlink && !follow_symlinks {
                RemoveStep::Finished(Err(FileOpError::DestinationIsSymlink))
            } else if trash_on_delete && facts.trashed.is_none() {
                RemoveStep::Trash
            } else if trash_on_delete && facts.trashed == Some(true) {
                RemoveStep::Finished(Ok(()))
            } else {
                match facts.removed {
                    None => RemoveStep::Delete,
                    Some(true) => RemoveStep::Finished(Ok(())),
                    Some(false) => RemoveStep::Finished(Err(FileOpError::DestinationNotAccessible)),
                }
            }
        },
    }
}

} // verus!
