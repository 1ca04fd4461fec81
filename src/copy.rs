//! The copy decision engine.
//!
//! Copying one file alternates queries of the file system with decisions.
//! The decisions live here: given what has been learnt so far about the two
//! paths, `next_copy_step` names the one thing to find out or do next, or
//! the outcome. The caller performs that step, records what it saw in
//! `CopyFacts`, and asks again. Each query is asked for at most once, and
//! only when the checks before it have passed.
use crate::codes::FileOpError;
use crate::digest::digest_text;
use vstd::prelude::*;

verus! {

/// The flags of a job that govern a single copy.
#[derive(Clone, Copy, Debug, PartialEq, Eq, Structural)]
pub struct CopyOptions {
    pub overwrite: bool,
    pub skip_newer: bool,
    pub check_content: bool,
    pub follow_symlinks: bool,
    pub create_directories: bool,
    pub trash_on_overwrite: bool,
}

/// What the metadata of an existing path says about it.
#[derive(Clone, Copy, Debug, PartialEq, Eq, Structural)]
pub struct EntryKind {
    pub is_dir: bool,
    pub is_symlink: bool,
}

/// The state of the directory that should hold a destination that does not
/// exist yet.
#[derive(Clone, Copy, Debug, PartialEq, Eq, Structural)]
pub enum ParentState {
    /// The destination path has no parent.
    NoParent,
    /// Nothing exists at the parent's path.
    Missing,
    /// The parent is a directory.
    Directory,
    /// Something that is not a directory stands at the parent's path.
    NotDirectory,
}

/// How the byte-level copy went.
#[derive(Clone, Copy, Debug, PartialEq, Eq, Structural)]
pub enum TransferResult {
    Done,
    PermissionDenied,
    Failed,
}

/// The two paths after resolution, and the source's metadata.
#[derive(Debug)]
pub struct ResolvedPaths {
    /// The source's canonical form.
    pub source: String,
    /// The destination's canonical form, or the path as given when it
    /// cannot be resolved (it does not exist yet).
    pub destination: String,
    /// The source's metadata; `None` when it cannot be read.
    pub source_kind: Option<EntryKind>,
}

/// What has been learnt so far; `None` marks what was not asked yet.
#[derive(Debug)]
pub struct CopyFacts {
    pub resolved: Option<ResolvedPaths>,
    /// The destination's metadata; `Some(None)` when nothing is there.
    pub destination: Option<Option<EntryKind>>,
    /// Modification times of source and destination (any fixed unit and
    /// origin); `None` on a side whose time could not be read.
    pub times: Option<(Option<i128>, Option<i128>)>,
    /// Content digests of source and destination; `None` on a side that
    /// could not be read.
    pub digests: Option<(Option<String>, Option<String>)>,
    pub parent: Option<ParentState>,
    /// Whether creating the missing parent directories succeeded.
    pub parent_created: Option<bool>,
    pub transfer: Option<TransferResult>,
}

/// The next thing the caller must do.
#[derive(Clone, Copy, Debug, PartialEq, Eq)]
pub enum CopyStep {
    /// Resolve both paths and read the source's metadata.
    ResolvePaths,
    /// Read the (resolved) destination's metadata.
    InspectDestination,
    /// Read both modification times.
    ReadTimes,
    /// Compute both content digests.
    HashContents,
    /// Inspect the directory that should hold the destination.
    InspectParent,
    /// Create the missing parent directories.
    CreateParent,
    /// Copy the bytes; first move the existing destination to the trash
    /// when `trash_first` is set (a failure to do so is ignored).
    Transfer { trash_first: bool },
    /// The copy is decided.
    Finished(Result<(), FileOpError>),
}

impl CopyFacts {
    /// Nothing learnt yet.
    pub fn new() -> (f: CopyFacts)
        ensures
            f.is_empty(),
    {
        CopyFacts {
            resolved: None,
            destination: None,
            times: None,
            digests: None,
            parent: None,
            parent_created: None,
            transfer: None,
        }
    }

    pub open spec fn is_empty(&self) -> bool {
        &&& self.resolved is None
        &&& self.destination is None
        &&& self.times is None
        &&& self.digests is None
        &&& self.parent is None
        &&& self.parent_created is None
        &&& self.transfer is None
    }
}

/// The copy itself, once every check has passed.
pub open spec fn transfer_step(facts: CopyFacts, trash_first: bool) -> CopyStep {
    match facts.transfer {
        None => CopyStep::Transfer { trash_first },
        Some(TransferResult::Done) => CopyStep::Finished(Ok(())),
        Some(TransferResult::PermissionDenied) => CopyStep::Finished(
            Err(FileOpError::DestinationIsReadonly),
        ),
        Some(TransferResult::Failed) => CopyStep::Finished(Err(FileOpError::GenericFailure)),
    }
}

/// The content comparison, and then the overwrite.
pub open spec fn content_step(opts: CopyOptions, facts: CopyFacts) -> CopyStep {
    if opts.check_content {
        match facts.digests {
            None => CopyStep::HashContents,
            Some((None, _)) => CopyStep::Finished(Err(FileOpError::SourceNotAccessible)),
            Some((Some(_), None)) => CopyStep::Finished(Err(FileOpError::DestinationNotAccessible)),
            Some((Some(s), Some(d))) => if s@ == d@ {
                CopyStep::Finished(Err(FileOpError::DestinationIsIdentical))
            } else {
                transfer_step(facts, opts.trash_on_overwrite)
            },
        }
    } else {
        transfer_step(facts, opts.trash_on_overwrite)
    }
}

/// The time comparison, and what follows it.
pub open spec fn time_step(opts: CopyOptions, facts: CopyFacts) -> CopyStep {
    if opts.skip_newer {
        match facts.times {
            None => CopyStep::ReadTimes,
            Some((None, _)) => CopyStep::Finished(Err(FileOpError::SourceNotAccessible)),
            Some((Some(_), None)) => CopyStep::Finished(Err(FileOpError::DestinationNotAccessible)),
            Some((Some(s), Some(d))) => if s <= d {
                CopyStep::Finished(Err(FileOpError::DestinationIsNewer))
            } else {
                content_step(opts, facts)
            },
        }
    } else {
        content_step(opts, facts)
    }
}

/// The checks on an existing destination.
pub open spec fn existing_step(opts: CopyOptions, dest: EntryKind, facts: CopyFacts) -> CopyStep {
    if !opts.overwrite {
        CopyStep::Finished(Err(FileOpError::DestinationExists))
    } else if dest.is_dir {
        CopyStep::Finished(Err(FileOpError::DestinationIsDir))
    } else if dest.is_symlink && !opts.follow_symlinks {
        CopyStep::Finished(Err(FileOpError::DestinationIsSymlink))
    } else {
        time_step(opts, facts)
    }
}

/// Making sure the directory of a new destination exists.
pub open spec fn missing_step(opts: CopyOptions, facts: CopyFacts) -> CopyStep {
    match facts.parent {
        None => CopyStep::InspectParent,
        Some(ParentState::Directory) => transfer_step(facts, false),
        Some(ParentState::Missing) => if !opts.create_directories {
            CopyStep::Finished(Err(FileOpError::CannotCreateDir))
        } else {
            match facts.parent_created {
                None => CopyStep::CreateParent,
                Some(true) => transfer_step(facts, false),
                Some(false) => CopyStep::Finished(Err(FileOpError::CannotCreateDir)),
            }
        },
        Some(_) => CopyStep::Finished(Err(FileOpError::CannotCreateDir)),
    }
}

/// The checks on the source, made once the paths are resolved.
pub open spec fn source_rejection(opts: CopyOptions, r: ResolvedPaths) -> Option<FileOpError> {
    match r.source_kind {
        None => Some(FileOpError::SourceNotAccessible),
        Some(k) => if r.source@ == r.destination@ {
            Some(FileOpError::DestinationIsItself)
        } else if k.is_dir {
            Some(FileOpError::SourceIsDir)
        } else if k.is_symlink && !opts.follow_symlinks {
            Some(FileOpError::SourceIsSymlink)
        } else {
            None
        },
    }
}

/// The next step of a copy, given what is known.
pub open spec fn copy_step(opts: CopyOptions, facts: CopyFacts) -> CopyStep {
    match facts.resolved {
        None => CopyStep::ResolvePaths,
        Some(r) => match source_rejection(opts, r) {
            Some(e) => CopyStep::Finished(Err(e)),
            None => match facts.destination {
                None => CopyStep::InspectDestination,
                Some(Some(d)) => existing_step(opts, d, facts),
                Some(None) => missing_step(opts, facts),
            },
        },
    }
}

/// Whether the step asks for something that `facts` does not hold yet.
pub open spec fn asks_unknown(step: CopyStep, facts: CopyFacts) -> bool {
    match step {
        CopyStep::ResolvePaths => facts.resolved is None,
        CopyStep::InspectDestination => facts.destination is None,
        CopyStep::ReadTimes => facts.times is None,
        CopyStep::HashContents => facts.digests is None,
        CopyStep::InspectParent => facts.parent is None,
        CopyStep::CreateParent => facts.parent_created is None,
        CopyStep::Transfer { .. } => facts.transfer is None,
        CopyStep::Finished(_) => true,
    }
}

fn transfer_next(facts: &CopyFacts, trash_first: bool) -> (r: CopyStep)
    ensures
        r == transfer_step(*facts, trash_first),
{
    match facts.transfer {
        None => CopyStep::Transfer { trash_first },
        Some(TransferResult::Done) => CopyStep::Finished(Ok(())),
        Some(TransferResult::PermissionDenied) => CopyStep::Finished(
            Err(FileOpError::DestinationIsReadonly),
        ),
        Some(TransferResult::Failed) => CopyStep::Finished(Err(FileOpError::GenericFailure)),
    }
}

fn content_next(opts: &CopyOptions, facts: &CopyFacts) -> (r: CopyStep)
    ensures
        r == content_step(*opts, *facts),
{
    if opts.check_content {
        match &facts.digests {
            None => CopyStep::HashContents,
            Some((None, _)) => CopyStep::Finished(Err(FileOpError::SourceNotAccessible)),
            Some((Some(_), None)) => CopyStep::Finished(Err(FileOpError::DestinationNotAccessible)),
            Some((Some(s), Some(d))) => {
                if *s == *d {
                    CopyStep::Finished(Err(FileOpError::DestinationIsIdentical))
                } else {
                    transfer_next(facts, opts.trash_on_overwrite)
                }
            },
        }
    } else {
        transfer_next(facts, opts.trash_on_overwrite)
    }
}

fn time_next(opts: &CopyOptions, facts: &CopyFacts) -> (r: CopyStep)
    ensures
        r == time_step(*opts, *facts),
{
    if opts.skip_newer {
        match facts.times {
            None => CopyStep::ReadTimes,
            Some((None, _)) => CopyStep::Finished(Err(FileOpError::SourceNotAccessible)),
            Some((Some(_), None)) => CopyStep::Finished(Err(FileOpError::DestinationNotAccessible)),
            Some((Some(s), Some(d))) => {
                if s <= d {
                    CopyStep::Finished(Err(FileOpError::DestinationIsNewer))
                } else {
                    content_next(opts, facts)
                }
            },
        }
    } else {
        content_next(opts, facts)
    }
}

fn missing_next(opts: &CopyOptions, facts: &CopyFacts) -> (r: CopyStep)
    ensures
        r == missing_step(*opts, *facts),
{
    match facts.parent {
        None => CopyStep::InspectParent,
        Some(ParentState::Directory) => transfer_next(facts, false),
        Some(ParentState::Missing) => {
            if !opts.create_directories {
                CopyStep::Finished(Err(FileOpError::CannotCreateDir))
            } else {
                match facts.parent_created {
                    None => CopyStep::CreateParent,
                    Some(true) => transfer_next(facts, false),
                    Some(false) => CopyStep::Finished(Err(FileOpError::CannotCreateDir)),
                }
            }
        },
        Some(_) => CopyStep::Finished(Err(FileOpError::CannotCreateDir)),
    }
}

fn check_source(opts: &CopyOptions, r: &ResolvedPaths) -> (e: Option<FileOpError>)
    ensures
        e == source_rejection(*opts, *r),
{
    match r.source_kind {
        None => Some(FileOpError::SourceNotAccessible),
        Some(k) => {
            if r.source == r.destination {
                Some(FileOpError::DestinationIsItself)
            } else if k.is_dir {
                Some(FileOpError::SourceIsDir)
            } else if k.is_symlink && !opts.follow_symlinks {
                Some(FileOpError::SourceIsSymlink)
            } else {
                None
            }
        },
    }
}

/// Decides the next step of copying one file, given what is known.
///
/// The checks run in this order, the first that fails deciding the
/// outcome: the source must be readable, must not be the destination
/// itself, must not be a directory nor (unless links are followed) a link.
/// An existing destination is only replaced when overwriting is allowed,
/// when it is neither a directory nor a forbidden link, when (with
/// `skip_newer`) the source is strictly newer, and when (with
/// `check_content`) the contents differ. A missing destination needs its
/// directory, created only when `create_directories` is set. Success is
/// reported only after the bytes were copied.
pub fn next_copy_step(opts: &CopyOptions, facts: &CopyFacts) -> (r: CopyStep)
    ensures
        r == copy_step(*opts, *facts),
        asks_unknown(r, *facts),
        r == CopyStep::Finished(Ok(())) ==> facts.transfer == Some(TransferResult::Done),
{
    match &facts.resolved {
        None => CopyStep::ResolvePaths,
        Some(rp) => match check_source(opts, rp) {
            Some(e) => CopyStep::Finished(Err(e)),
            None => match facts.destination {
                None => CopyStep::InspectDestination,
                Some(Some(d)) => {
                    if !opts.overwrite {
                        CopyStep::Finished(Err(FileOpError::DestinationExists))
                    } else if d.is_dir {
                        CopyStep::Finished(Err(FileOpError::DestinationIsDir))
                    } else if d.is_symlink && !opts.follow_symlinks {
                        CopyStep::Finished(Err(FileOpError::DestinationIsSymlink))
                    } else {
                        time_next(opts, facts)
                    }
                },
                Some(None) => missing_next(opts, facts),
            },
        },
    }
}

/// Whether the paths are resolved and the source passed its checks.
pub open spec fn source_accepted(opts: CopyOptions, facts: CopyFacts) -> bool {
    facts.resolved matches Some(r) && source_rejection(opts, r) is None
}

/// Whether an existing destination may be replaced as far as its own kind
/// goes: it is neither a directory nor a link that must not be followed.
pub open spec fn replaceable(opts: CopyOptions, dest: EntryKind) -> bool {
    !dest.is_dir && !(dest.is_symlink && !opts.follow_symlinks)
}

/// With overwriting off, an existing destination is never written: no step
/// copies onto it, and once the source has passed its checks the copy ends
/// in `DestinationExists`.
pub proof fn existing_destination_is_kept(opts: CopyOptions, facts: CopyFacts, dest: EntryKind)
    requires
        !opts.overwrite,
        facts.destination == Some(Some(dest)),
    ensures
        !(copy_step(opts, facts) is Transfer),
        !(copy_step(opts, facts) is CreateParent),
        source_accepted(opts, facts) ==> copy_step(opts, facts) == CopyStep::Finished(
            Err(FileOpError::DestinationExists),
        ),
{
}

/// A readable source whose resolved path is the destination's is never
/// copied: the outcome is `DestinationIsItself`, decided without any
/// further query.
pub proof fn copy_onto_itself_is_refused(opts: CopyOptions, facts: CopyFacts, r: ResolvedPaths)
    requires
        facts.resolved == Some(r),
        r.source_kind is Some,
        r.source@ == r.destination@,
    ensures
        copy_step(opts, facts) == CopyStep::Finished(Err(FileOpError::DestinationIsItself)),
{
}

/// With `skip_newer`, a replaceable destination whose modification time is
/// not older than the source's is kept (`DestinationIsNewer`); one that is
/// strictly older passes this check and goes on to the content check.
pub proof fn newer_destination_is_kept(
    opts: CopyOptions,
    facts: CopyFacts,
    dest: EntryKind,
    source_time: i128,
    dest_time: i128,
)
    requires
        opts.overwrite,
        opts.skip_newer,
        source_accepted(opts, facts),
        facts.destination == Some(Some(dest)),
        replaceable(opts, dest),
        facts.times == Some((Some(source_time), Some(dest_time))),
    ensures
        dest_time >= source_time ==> copy_step(opts, facts) == CopyStep::Finished(
            Err(FileOpError::DestinationIsNewer),
        ),
        dest_time < source_time ==> copy_step(opts, facts) == content_step(opts, facts),
        dest_time < source_time ==> copy_step(opts, facts) != CopyStep::Finished(
            Err(FileOpError::DestinationIsNewer),
        ),
{
}

/// With `check_content`, a destination whose bytes are those of the source
/// is not copied onto (`DestinationIsIdentical`), whatever the two names or
/// times, once the earlier checks have let the copy reach this point.
pub proof fn identical_content_is_not_copied(
    opts: CopyOptions,
    facts: CopyFacts,
    dest: EntryKind,
    content: Seq<u8>,
    source_digest: String,
    dest_digest: String,
)
    requires
        opts.overwrite,
        opts.check_content,
        source_accepted(opts, facts),
        facts.destination == Some(Some(dest)),
        replaceable(opts, dest),
        opts.skip_newer ==> (facts.times matches Some((Some(s), Some(d))) && s > d),
        facts.digests == Some((Some(source_digest), Some(dest_digest))),
        source_digest@ == digest_text(content),
        dest_digest@ == digest_text(content),
    ensures
        copy_step(opts, facts) == CopyStep::Finished(Err(FileOpError::DestinationIsIdentical)),
{
}

} // verus!
