use copyjob::codes::{FileOpError, JobError};
use copyjob::copy::{
    next_copy_step, CopyFacts, CopyOptions, CopyStep, EntryKind, ParentState, ResolvedPaths,
    TransferResult,
};
use copyjob::digest::ContentDigest;
use copyjob::remove::{next_remove_step, RemoveFacts, RemoveStep};

fn options() -> CopyOptions {
    CopyOptions {
        overwrite: true,
        skip_newer: false,
        check_content: false,
        follow_symlinks: false,
        create_directories: false,
        trash_on_overwrite: false,
    }
}

fn file() -> EntryKind {
    EntryKind { is_dir: false, is_symlink: false }
}

fn resolved(source: &str, destination: &str) -> ResolvedPaths {
    ResolvedPaths {
        source: source.to_string(),
        destination: destination.to_string(),
        source_kind: Some(file()),
    }
}

fn digest_of(content: &[u8]) -> String {
    let mut d = ContentDigest::new();
    d.update(content);
    d.finish()
}

#[test]
fn copy_starts_by_resolving_paths() {
    let facts = CopyFacts::new();
    assert_eq!(next_copy_step(&options(), &facts), CopyStep::ResolvePaths);
}

#[test]
fn unreadable_source_is_reported() {
    let mut facts = CopyFacts::new();
    facts.resolved = Some(ResolvedPaths {
        source: String::new(),
        destination: "/dst/a.txt".to_string(),
        source_kind: None,
    });
    assert_eq!(
        next_copy_step(&options(), &facts),
        CopyStep::Finished(Err(FileOpError::SourceNotAccessible))
    );
}

#[test]
fn existing_destination_without_overwrite_is_kept() {
    let mut opts = options();
    opts.overwrite = false;
    let mut facts = CopyFacts::new();
    facts.resolved = Some(resolved("/src/a.txt", "/dst/a.txt"));
    assert_eq!(next_copy_step(&opts, &facts), CopyStep::InspectDestination);
    facts.destination = Some(Some(file()));
    assert_eq!(
        next_copy_step(&opts, &facts),
        CopyStep::Finished(Err(FileOpError::DestinationExists))
    );
}

#[test]
fn copy_onto_itself_is_refused() {
    let mut facts = CopyFacts::new();
    facts.resolved = Some(resolved("/src/a.txt", "/src/a.txt"));
    assert_eq!(
        next_copy_step(&options(), &facts),
        CopyStep::Finished(Err(FileOpError::DestinationIsItself))
    );
}

#[test]
fn source_directory_and_link_are_refused() {
    let mut facts = CopyFacts::new();
    let mut r = resolved("/src/d", "/dst/d");
    r.source_kind = Some(EntryKind { is_dir: true, is_symlink: false });
    facts.resolved = Some(r);
    assert_eq!(
        next_copy_step(&options(), &facts),
        CopyStep::Finished(Err(FileOpError::SourceIsDir))
    );
    let mut r = resolved("/src/l", "/dst/l");
    r.source_kind = Some(EntryKind { is_dir: false, is_symlink: true });
    facts.resolved = Some(r);
    assert_eq!(
        next_copy_step(&options(), &facts),
        CopyStep::Finished(Err(FileOpError::SourceIsSymlink))
    );
    let mut follow = options();
    follow.follow_symlinks = true;
    assert_eq!(next_copy_step(&follow, &facts), CopyStep::InspectDestination);
}

#[test]
fn destination_directory_and_link_are_refused() {
    let mut facts = CopyFacts::new();
    facts.resolved = Some(resolved("/src/a", "/dst/a"));
    facts.destination = Some(Some(EntryKind { is_dir: true, is_symlink: false }));
    assert_eq!(
        next_copy_step(&options(), &facts),
        CopyStep::Finished(Err(FileOpError::DestinationIsDir))
    );
    facts.destination = Some(Some(EntryKind { is_dir: false, is_symlink: true }));
    assert_eq!(
        next_copy_step(&options(), &facts),
        CopyStep::Finished(Err(FileOpError::DestinationIsSymlink))
    );
}

#[test]
fn newer_or_equal_destination_is_skipped() {
    let mut opts = options();
    opts.skip_newer = true;
    let mut facts = CopyFacts::new();
    facts.resolved = Some(resolved("/src/a", "/dst/a"));
    facts.destination = Some(Some(file()));
    assert_eq!(next_copy_step(&opts, &facts), CopyStep::ReadTimes);
    facts.times = Some((Some(100), Some(100)));
    assert_eq!(
        next_copy_step(&opts, &facts),
        CopyStep::Finished(Err(FileOpError::DestinationIsNewer))
    );
    facts.times = Some((Some(100), Some(200)));
    assert_eq!(
        next_copy_step(&opts, &facts),
        CopyStep::Finished(Err(FileOpError::DestinationIsNewer))
    );
    facts.times = Some((Some(200), Some(100)));
    assert_eq!(next_copy_step(&opts, &facts), CopyStep::Transfer { trash_first: false });
}

#[test]
fn unreadable_times_are_reported() {
    let mut opts = options();
    opts.skip_newer = true;
    let mut facts = CopyFacts::new();
    facts.resolved = Some(resolved("/src/a", "/dst/a"));
    facts.destination = Some(Some(file()));
    facts.times = Some((None, Some(1)));
    assert_eq!(
        next_copy_step(&opts, &facts),
        CopyStep::Finished(Err(FileOpError::SourceNotAccessible))
    );
    facts.times = Some((Some(1), None));
    assert_eq!(
        next_copy_step(&opts, &facts),
        CopyStep::Finished(Err(FileOpError::DestinationNotAccessible))
    );
}

#[test]
fn identical_content_is_not_copied() {
    let mut opts = options();
    opts.check_content = true;
    opts.trash_on_overwrite = true;
    let mut facts = CopyFacts::new();
    facts.resolved = Some(resolved("/src/one.txt", "/dst/other.txt"));
    facts.destination = Some(Some(file()));
    assert_eq!(next_copy_step(&opts, &facts), CopyStep::HashContents);
    facts.digests = Some((Some(digest_of(b"same bytes")), Some(digest_of(b"same bytes"))));
    assert_eq!(
        next_copy_step(&opts, &facts),
        CopyStep::Finished(Err(FileOpError::DestinationIsIdentical))
    );
    facts.digests = Some((Some(digest_of(b"new bytes")), Some(digest_of(b"old bytes"))));
    assert_eq!(next_copy_step(&opts, &facts), CopyStep::Transfer { trash_first: true });
    facts.transfer = Some(TransferResult::Done);
    assert_eq!(next_copy_step(&opts, &facts), CopyStep::Finished(Ok(())));
}

#[test]
fn missing_destination_directory_policy() {
    let mut facts = CopyFacts::new();
    facts.resolved = Some(resolved("/src/a", "/dst/new/a"));
    facts.destination = Some(None);
    assert_eq!(next_copy_step(&options(), &facts), CopyStep::InspectParent);
    facts.parent = Some(ParentState::Missing);
    assert_eq!(
        next_copy_step(&options(), &facts),
        CopyStep::Finished(Err(FileOpError::CannotCreateDir))
    );
    let mut create = options();
    create.create_directories = true;
    create.trash_on_overwrite = true;
    assert_eq!(next_copy_step(&create, &facts), CopyStep::CreateParent);
    facts.parent_created = Some(false);
    assert_eq!(
        next_copy_step(&create, &facts),
        CopyStep::Finished(Err(FileOpError::CannotCreateDir))
    );
    facts.parent_created = Some(true);
    assert_eq!(next_copy_step(&create, &facts), CopyStep::Transfer { trash_first: false });
    facts.parent = Some(ParentState::NotDirectory);
    assert_eq!(
        next_copy_step(&create, &facts),
        CopyStep::Finished(Err(FileOpError::CannotCreateDir))
    );
    facts.parent = Some(ParentState::NoParent);
    assert_eq!(
        next_copy_step(&create, &facts),
        CopyStep::Finished(Err(FileOpError::CannotCreateDir))
    );
}

#[test]
fn transfer_failures_are_classified() {
    let mut facts = CopyFacts::new();
    facts.resolved = Some(resolved("/src/a", "/dst/a"));
    facts.destination = Some(Some(file()));
    facts.transfer = Some(TransferResult::PermissionDenied);
    assert_eq!(
        next_copy_step(&options(), &facts),
        CopyStep::Finished(Err(FileOpError::DestinationIsReadonly))
    );
    facts.transfer = Some(TransferResult::Failed);
    assert_eq!(
        next_copy_step(&options(), &facts),
        CopyStep::Finished(Err(FileOpError::GenericFailure))
    );
}

#[test]
fn remove_steps() {
    let mut facts = RemoveFacts::new();
    assert_eq!(next_remove_step(false, true, &facts), RemoveStep::Inspect);
    facts.target = Some(None);
    assert_eq!(
        next_remove_step(false, true, &facts),
        RemoveStep::Finished(Err(FileOpError::DestinationNotAccessible))
    );
    facts.target = Some(Some(EntryKind { is_dir: true, is_symlink: false }));
    assert_eq!(
        next_remove_step(false, true, &facts),
        RemoveStep::Finished(Err(FileOpError::DestinationIsDir))
    );
    facts.target = Some(Some(EntryKind { is_dir: false, is_symlink: true }));
    assert_eq!(
        next_remove_step(false, true, &facts),
        RemoveStep::Finished(Err(FileOpError::DestinationIsSymlink))
    );
    facts.target = Some(Some(file()));
    assert_eq!(next_remove_step(false, true, &facts), RemoveStep::Trash);
    facts.trashed = Some(true);
    assert_eq!(next_remove_step(false, true, &facts), RemoveStep::Finished(Ok(())));
    facts.trashed = Some(false);
    assert_eq!(next_remove_step(false, true, &facts), RemoveStep::Delete);
    facts.removed = Some(false);
    assert_eq!(
        next_remove_step(false, true, &facts),
        RemoveStep::Finished(Err(FileOpError::DestinationNotAccessible))
    );
    let plain = RemoveFacts { target: Some(Some(file())), trashed: None, removed: None };
    assert_eq!(next_remove_step(false, false, &plain), RemoveStep::Delete);
    let done = RemoveFacts { target: Some(Some(file())), trashed: None, removed: Some(true) };
    assert_eq!(next_remove_step(false, false, &done), RemoveStep::Finished(Ok(())));
}

#[test]
fn digest_of_known_inputs() {
    assert_eq!(
        digest_of(b""),
        "e3b0c44298fc1c149afbf4c8996fb92427ae41e4649b934ca495991b7852b855"
    );
    assert_eq!(
        digest_of(b"abc"),
        "ba7816bf8f01cfea414140de5dae2223b00361a396177a9cb410ff61f20015ad"
    );
}

#[test]
fn digest_is_sixty_four_hex_digits() {
    let d = digest_of(b"some content");
    assert_eq!(d.len(), 64);
    assert!(d.chars().all(|c| c.is_ascii_hexdigit() && !c.is_ascii_uppercase()));
}

#[test]
fn digest_is_independent_of_chunking() {
    let mut d = ContentDigest::new();
    d.update(b"a");
    d.update(b"");
    d.update(b"bc");
    assert_eq!(d.finish(), digest_of(b"abc"));
}

#[test]
fn error_codes() {
    assert_eq!(FileOpError::GenericFailure.code(), 1001);
    assert_eq!(FileOpError::DestinationIsIdentical.code(), 1015);
    assert_eq!(FileOpError::SourceNotAccessible.code(), 1044);
    assert_eq!(JobError::NoSourceFiles.code(), 2013);
    assert_eq!(JobError::HaltOnCopyError.code(), 2041);
    assert_eq!(copyjob::codes::file_outcome_code(&Ok(())), 0);
    assert_eq!(copyjob::codes::file_outcome_code(&Err(FileOpError::DestinationExists)), 1021);
}
