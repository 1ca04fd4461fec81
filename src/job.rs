//! The job orchestrator: directory validation, the copy plan with its
//! reconciled deletion set, and the progress of a job through that plan.
use crate::codes::{FileOpError, JobError};
use crate::copy::{
    copy_step, identical_content_is_not_copied, replaceable, source_accepted, CopyFacts,
    CopyOptions, CopyStep, EntryKind,
};
use crate::digest::digest_text;
use crate::matcher::JobMatchers;
use crate::paths::{file_name, file_name_of, join, join_path, relative_path, relative_to};
use vstd::prelude::*;

verus! {

/// A fully resolved job: absolute source and destination directories, the
/// combined patterns, and the behaviour flags.
#[derive(Debug)]
pub struct JobSpec {
    pub name: String,
    pub source_dir: String,
    pub destination_dir: String,
    /// Pattern of the file names to copy.
    pub name_pattern: String,
    /// Pattern of the file names to leave out.
    pub exclude_pattern: String,
    /// Pattern of the directories whose contents are left out.
    pub exclude_dir_pattern: String,
    pub recursive: bool,
    pub case_sensitive: bool,
    pub follow_symlinks: bool,
    pub overwrite: bool,
    pub skip_newer: bool,
    pub check_content: bool,
    pub remove_others_matching: bool,
    pub create_directories: bool,
    pub keep_structure: bool,
    pub trash_on_delete: bool,
    pub trash_on_overwrite: bool,
    pub halt_on_errors: bool,
}

/// The error, if any, that the state of the two directories gives before
/// anything else is done.
pub open spec fn directory_error(
    source_exists: bool,
    destination_exists: bool,
    create_directories: bool,
) -> Option<JobError> {
    if !source_exists {
        Some(JobError::SourceDirNotExists)
    } else if !destination_exists && !create_directories {
        Some(JobError::DestinationDirNotExists)
    } else {
        None
    }
}

/// Where a candidate goes: its path below the source directory placed
/// below the destination directory (keeping the structure), or its bare
/// name placed in the destination directory; `None` when that part is empty.
pub open spec fn destination_of(
    source_dir: Seq<char>,
    destination_dir: Seq<char>,
    keep_structure: bool,
    candidate: Seq<char>,
) -> Option<Seq<char>> {
    let rel = if keep_structure {
        relative_to(source_dir, candidate)
    } else {
        file_name(candidate)
    };
    if rel.len() == 0 {
        None
    } else {
        Some(join_path(destination_dir, rel))
    }
}

/// One planned copy: the candidate and where it goes, when that can be told.
#[derive(Debug)]
pub struct PlannedCopy {
    pub source: String,
    pub destination: Option<String>,
}

/// What a job will do: its copies in enumeration order, then its deletions.
#[derive(Debug)]
pub struct JobPlan {
    pub copies: Vec<PlannedCopy>,
    pub deletions: Vec<String>,
}

pub open spec fn planned_destination(c: PlannedCopy) -> Option<Seq<char>> {
    match c.destination {
        Some(d) => Some(d@),
        None => None,
    }
}

/// Whether `path` is the destination of one of the planned copies.
pub open spec fn is_planned_destination(copies: Seq<PlannedCopy>, path: Seq<char>) -> bool {
    exists|j: int| 0 <= j < copies.len() && planned_destination(#[trigger] copies[j]) == Some(path)
}

/// The deletion candidates that no planned copy writes, in their order.
pub open spec fn reconciled(deletions: Seq<String>, copies: Seq<PlannedCopy>) -> Seq<Seq<char>>
    decreases deletions.len(),
{
    if deletions.len() == 0 {
        Seq::empty()
    } else {
        let rest = reconciled(deletions.drop_last(), copies);
        if is_planned_destination(copies, deletions.last()@) {
            rest
        } else {
            rest.push(deletions.last()@)
        }
    }
}

fn is_destination_of_any(copies: &Vec<PlannedCopy>, path: &String) -> (r: bool)
    ensures
        r == is_planned_destination(copies@, path@),
{
    let mut j: usize = 0;
    while j < copies.len()
        invariant
            j <= copies.len(),
            forall|k: int| 0 <= k < j ==> planned_destination(#[trigger] copies@[k]) != Some(path@),
        decreases copies.len() - j,
    {
        match &copies[j].destination {
            Some(d) => {
                if *d == *path {
                    return true;
                }
            },
            None => {},
        }
        j = j + 1;
    }
    false
}

/// The deletion candidates that none of `copies` writes, in their order.
pub fn reconcile(copies: &Vec<PlannedCopy>, deletions: &Vec<String>) -> (r: Vec<String>)
    ensures
        r@.map_values(|p: String| p@) == reconciled(deletions@, copies@),
{
    let mut r: Vec<String> = Vec::new();
    let mut i: usize = 0;
    while i < deletions.len()
        invariant
            i <= deletions.len(),
            r@.map_values(|p: String| p@) == reconciled(deletions@.take(i as int), copies@),
        decreases deletions.len() - i,
    {
        proof {
            assert(deletions@.take(i + 1).drop_last() == deletions@.take(i as int));
            assert(deletions@.take(i + 1).last() == deletions@[i as int]);
        }
        if !is_destination_of_any(copies, &deletions[i]) {
            r.push(deletions[i].clone());
            proof {
                assert(r@.map_values(|p: String| p@) == reconciled(deletions@.take(i as int), copies@).push(
                    deletions@[i as int]@,
                ));
            }
        }
        i = i + 1;
    }
    proof {
        assert(deletions@.take(deletions.len() as int) == deletions@);
    }
    r
}

impl JobSpec {
    /// The flags that govern each copy of the job.
    pub open spec fn copy_options_of(&self) -> CopyOptions {
        CopyOptions {
            overwrite: self.overwrite,
            skip_newer: self.skip_newer,
            check_content: self.check_content,
            follow_symlinks: self.follow_symlinks,
            create_directories: self.create_directories,
            trash_on_overwrite: self.trash_on_overwrite,
        }
    }

    pub fn copy_options(&self) -> (r: CopyOptions)
        ensures
            r == self.copy_options_of(),
    {
        CopyOptions {
            overwrite: self.overwrite,
            skip_newer: self.skip_newer,
            check_content: self.check_content,
            follow_symlinks: self.follow_symlinks,
            create_directories: self.create_directories,
            trash_on_overwrite: self.trash_on_overwrite,
        }
    }

    /// The matchers built from the job's patterns.
    pub fn matchers(&self) -> (m: JobMatchers)
        ensures
            m.wf(),
            m.select.pattern() == crate::matcher::anchored(self.name_pattern@),
            m.exclude.pattern() == crate::matcher::anchored(self.exclude_pattern@),
            m.exclude_dir.pattern() == crate::matcher::between_separators(self.exclude_dir_pattern@),
            m.select.is_case_insensitive() == !self.case_sensitive,
            m.exclude.is_case_insensitive() == !self.case_sensitive,
            m.exclude_dir.is_case_insensitive() == !self.case_sensitive,
    {
        JobMatchers::new(
            self.name_pattern.as_str(),
            self.exclude_pattern.as_str(),
            self.exclude_dir_pattern.as_str(),
            self.case_sensitive,
        )
    }

    /// Checks the directories before anything else: the source must exist,
    /// and the destination must exist unless it may be created.
    pub fn check_directories(&self, source_exists: bool, destination_exists: bool) -> (r: Result<(), JobError>)
        ensures
            r matches Err(e) ==> directory_error(source_exists, destination_exists, self.create_directories) == Some(e),
            r is Ok ==> directory_error(source_exists, destination_exists, self.create_directories) is None,
    {
        if !source_exists {
            Err(JobError::SourceDirNotExists)
        } else if !destination_exists && !self.create_directories {
            Err(JobError::DestinationDirNotExists)
        } else {
            Ok(())
        }
    }

    /// Starts the job: checks the directories and, only when they pass,
    /// hands out the matchers that enumeration needs, so that a job whose
    /// directories fail is never enumerated.
    pub fn begin(&self, source_exists: bool, destination_exists: bool) -> (r: Result<JobMatchers, JobError>)
        ensures
            r matches Err(e) ==> directory_error(source_exists, destination_exists, self.create_directories) == Some(e),
            r is Ok <==> directory_error(source_exists, destination_exists, self.create_directories) is None,
            r matches Ok(m) ==> {
                &&& m.wf()
                &&& m.select.pattern() == crate::matcher::anchored(self.name_pattern@)
                &&& m.exclude.pattern() == crate::matcher::anchored(self.exclude_pattern@)
                &&& m.exclude_dir.pattern() == crate::matcher::between_separators(self.exclude_dir_pattern@)
                &&& m.select.is_case_insensitive() == !self.case_sensitive
                &&& m.exclude.is_case_insensitive() == !self.case_sensitive
                &&& m.exclude_dir.is_case_insensitive() == !self.case_sensitive
            },
    {
        match self.check_directories(source_exists, destination_exists) {
            Err(e) => Err(e),
            Ok(()) => Ok(self.matchers()),
        }
    }

    /// Where `candidate` is copied to, when that can be told.
    pub fn destination_for(&self, candidate: &str) -> (r: Option<String>)
        ensures
            match r {
                Some(d) => destination_of(self.source_dir@, self.destination_dir@, self.keep_structure, candidate@) == Some(d@),
                None => destination_of(self.source_dir@, self.destination_dir@, self.keep_structure, candidate@) is None,
            },
    {
        let rel = if self.keep_structure {
            relative_path(self.source_dir.as_str(), candidate)
        } else {
            file_name_of(candidate)
        };
        if rel.unicode_len() == 0 {
            None
        } else {
            Some(join(self.destination_dir.as_str(), rel.as_str()))
        }
    }
}

impl JobSpec {
    /// Plans the job from its enumerated candidates: each copy candidate
    /// with its destination, in order, and (only when the job removes
    /// others matching) the deletion candidates that no copy writes. A job
    /// without copy candidates fails with `NoSourceFiles`.
    pub fn plan(&self, copy_candidates: &Vec<String>, delete_candidates: &Vec<String>) -> (r: Result<JobPlan, JobError>)
        ensures
            copy_candidates@.len() == 0 <==> r is Err,
            r matches Err(e) ==> e == JobError::NoSourceFiles,
            r matches Ok(p) ==> {
                &&& p.copies@.len() == copy_candidates@.len()
                &&& forall|i: int| 0 <= i < copy_candidates@.len() ==> {
                    &&& (#[trigger] p.copies@[i]).source@ == copy_candidates@[i]@
                    &&& planned_destination(p.copies@[i]) == destination_of(
                        self.source_dir@,
                        self.destination_dir@,
                        self.keep_structure,
                        copy_candidates@[i]@,
                    )
                }
                &&& p.deletions@.map_values(|d: String| d@) == if self.remove_others_matching {
                    reconciled(delete_candidates@, p.copies@)
                } else {
                    Seq::empty()
                }
            },
    {
        if copy_candidates.len() == 0 {
            return Err(JobError::NoSourceFiles);
        }
        let mut copies: Vec<PlannedCopy> = Vec::new();
        let mut i: usize = 0;
        while i < copy_candidates.len()
            invariant
                i <= copy_candidates.len(),
                copies@.len() == i,
                forall|k: int| 0 <= k < i ==> {
                    &&& (#[trigger] copies@[k]).source@ == copy_candidates@[k]@
                    &&& planned_destination(copies@[k]) == destination_of(
                        self.source_dir@,
                        self.destination_dir@,
                        self.keep_structure,
                        copy_candidates@[k]@,
                    )
                },
            decreases copy_candidates.len() - i,
        {
            let destination = self.destination_for(copy_candidates[i].as_str());
            copies.push(PlannedCopy { source: copy_candidates[i].clone(), destination });
            i = i + 1;
        }
        let deletions = if self.remove_others_matching {
            reconcile(&copies, delete_candidates)
        } else {
            let empty: Vec<String> = Vec::new();
            proof {
                assert(empty@.map_values(|d: String| d@) == Seq::<Seq<char>>::empty());
            }
            empty
        };
        Ok(JobPlan { copies, deletions })
    }
}

/// No path that the plan deletes is the destination of one of its copies:
/// a file the job is about to write is never handed to the delete engine.
pub proof fn reconciled_deletions_spare_copies(deletions: Seq<String>, copies: Seq<PlannedCopy>)
    ensures
        forall|i: int, j: int|
            0 <= i < reconciled(deletions, copies).len() && 0 <= j < copies.len()
                ==> planned_destination(#[trigger] copies[j]) != Some(
                #[trigger] reconciled(deletions, copies)[i],
            ),
    decreases deletions.len(),
{
    if deletions.len() > 0 {
        let rest = reconciled(deletions.drop_last(), copies);
        let r = reconciled(deletions, copies);
        reconciled_deletions_spare_copies(deletions.drop_last(), copies);
        assert forall|i: int, j: int| 0 <= i < r.len() && 0 <= j < copies.len() implies planned_destination(
            #[trigger] copies[j],
        ) != Some(#[trigger] r[i]) by {
            if i < rest.len() {
                assert(r[i] == rest[i]);
            } else {
                assert(!is_planned_destination(copies, deletions.last()@));
                assert(r[i] == deletions.last()@);
            }
        }
    }
}

/// How far a job has gone through its plan.
#[derive(Clone, Copy, Debug, PartialEq, Eq)]
pub struct JobProgress {
    /// How many planned copies have been handled.
    pub copies_done: usize,
    /// How many planned deletions have been handled.
    pub deletions_done: usize,
    /// How many files were copied.
    pub copied: usize,
    /// How many files were removed.
    pub deleted: usize,
    /// Set when the job was aborted.
    pub stopped: Option<JobError>,
}

/// The totals of a finished job.
#[derive(Clone, Copy, Debug, PartialEq, Eq, Structural)]
pub struct JobCounts {
    pub copied: usize,
    pub deleted: usize,
}

/// The next thing the caller must do for the job.
#[derive(Clone, Copy, Debug, PartialEq, Eq)]
pub enum JobAction {
    /// Run the copy engine on planned copy `index`.
    CopyFile { index: usize },
    /// Planned copy `index` has no destination: report
    /// `CannotDetermineDestFile` for it.
    ReportUnresolvable { index: usize },
    /// Run the delete engine on planned deletion `index`.
    DeleteFile { index: usize },
    /// The job is over.
    Finished(Result<JobCounts, JobError>),
}

/// The kind of operation that the next record is about.
#[derive(Debug)]
pub enum OpKind {
    Copy,
    Unresolvable,
    Delete,
}

pub open spec fn job_action(plan: JobPlan, p: JobProgress) -> JobAction {
    match p.stopped {
        Some(e) => JobAction::Finished(Err(e)),
        None => if p.copies_done < plan.copies@.len() {
            if plan.copies@[p.copies_done as int].destination is Some {
                JobAction::CopyFile { index: p.copies_done }
            } else {
                JobAction::ReportUnresolvable { index: p.copies_done }
            }
        } else if p.deletions_done < plan.deletions@.len() {
            JobAction::DeleteFile { index: p.deletions_done }
        } else {
            JobAction::Finished(Ok(JobCounts { copied: p.copied, deleted: p.deleted }))
        },
    }
}

/// The operation that the progress `p` is at.
pub open spec fn current_op(plan: JobPlan, p: JobProgress) -> OpKind {
    if p.copies_done < plan.copies@.len() {
        if plan.copies@[p.copies_done as int].destination is Some {
            OpKind::Copy
        } else {
            OpKind::Unresolvable
        }
    } else {
        OpKind::Delete
    }
}

/// The progress after one operation: a success of a copy or deletion is
/// counted; any failure (an unresolvable destination always is one) aborts
/// the job with `GenericFailure` when it halts on errors, and is otherwise
/// passed over.
pub open spec fn advance(p: JobProgress, op: OpKind, ok: bool, halt_on_errors: bool) -> JobProgress {
    let succeeded = ok && !(op is Unresolvable);
    JobProgress {
        copies_done: if op is Delete { p.copies_done } else { (p.copies_done + 1) as usize },
        deletions_done: if op is Delete { (p.deletions_done + 1) as usize } else { p.deletions_done },
        copied: if succeeded && op is Copy { (p.copied + 1) as usize } else { p.copied },
        deleted: if succeeded && op is Delete { (p.deleted + 1) as usize } else { p.deleted },
        stopped: if !succeeded && halt_on_errors { Some(JobError::GenericFailure) } else { p.stopped },
    }
}

/// A job going through its plan.
#[derive(Debug)]
pub struct JobRun {
    pub plan: JobPlan,
    pub halt_on_errors: bool,
    pub progress: JobProgress,
}

impl JobRun {
    pub open spec fn wf(&self) -> bool {
        &&& self.progress.copies_done <= self.plan.copies@.len()
        &&& self.progress.deletions_done <= self.plan.deletions@.len()
        &&& self.progress.copied <= self.progress.copies_done
        &&& self.progress.deleted <= self.progress.deletions_done
        &&& self.progress.deletions_done > 0 ==> self.progress.copies_done == self.plan.copies@.len()
    }

    /// Starts the job on `plan`, nothing done yet.
    pub fn new(plan: JobPlan, halt_on_errors: bool) -> (r: JobRun)
        ensures
            r.wf(),
            r.plan == plan,
            r.halt_on_errors == halt_on_errors,
            r.progress == (JobProgress { copies_done: 0, deletions_done: 0, copied: 0, deleted: 0, stopped: None }),
    {
        JobRun {
            plan,
            halt_on_errors,
            progress: JobProgress { copies_done: 0, deletions_done: 0, copied: 0, deleted: 0, stopped: None },
        }
    }

    /// The next thing to do: the planned copies in order, then the planned
    /// deletions, unless the job was aborted.
    pub fn next_action(&self) -> (r: JobAction)
        requires
            self.wf(),
        ensures
            r == job_action(self.plan, self.progress),
    {
        match self.progress.stopped {
            Some(e) => JobAction::Finished(Err(e)),
            None => {
                if self.progress.copies_done < self.plan.copies.len() {
                    if self.plan.copies[self.progress.copies_done].destination.is_some() {
                        JobAction::CopyFile { index: self.progress.copies_done }
                    } else {
                        JobAction::ReportUnresolvable { index: self.progress.copies_done }
                    }
                } else if self.progress.deletions_done < self.plan.deletions.len() {
                    JobAction::DeleteFile { index: self.progress.deletions_done }
                } else {
                    JobAction::Finished(
                        Ok(JobCounts { copied: self.progress.copied, deleted: self.progress.deleted }),
                    )
                }
            },
        }
    }

    /// Records the outcome of the action that `next_action` named (for an
    /// unresolvable destination the outcome is ignored: it is a failure).
    pub fn record(&mut self, outcome: Result<(), FileOpError>)
        requires
            old(self).wf(),
            !(job_action(old(self).plan, old(self).progress) is Finished),
        ensures
            final(self).wf(),
            final(self).plan == old(self).plan,
            final(self).halt_on_errors == old(self).halt_on_errors,
            final(self).progress == advance(
                old(self).progress,
                current_op(old(self).plan, old(self).progress),
                outcome is Ok,
                old(self).halt_on_errors,
            ),
    {
        let p = self.progress;
        proof {
            assert(p.stopped is None);
            assert(p.copies_done < self.plan.copies@.len() || p.deletions_done < self.plan.deletions@.len());
        }
        let is_copy = p.copies_done < self.plan.copies.len();
        let resolvable = is_copy && self.plan.copies[p.copies_done].destination.is_some();
        let succeeded = outcome.is_ok() && (resolvable || !is_copy);
        let mut next = p;
        if is_copy {
            next.copies_done = p.copies_done + 1;
            if succeeded {
                next.copied = p.copied + 1;
            }
        } else {
            let planned = self.plan.deletions.len();
            assert(p.deletions_done < planned);
            next.deletions_done = p.deletions_done + 1;
            if succeeded {
                next.deleted = p.deleted + 1;
            }
        }
        if !succeeded && self.halt_on_errors {
            next.stopped = Some(JobError::GenericFailure);
        }
        self.progress = next;
    }
}

/// Running a job again over files that it already copied, with
/// overwriting on, `skip_newer` off and `check_content` on, writes nothing:
/// every copy of an unchanged file ends at `DestinationIsIdentical` before
/// any transfer, and a job that does not halt on errors passes that outcome
/// over without aborting and without counting a copy. (A job that halts on
/// errors stops at the first such outcome, since it is an error.)
pub proof fn rerun_writes_nothing(
    job: JobSpec,
    facts: CopyFacts,
    dest: EntryKind,
    content: Seq<u8>,
    source_digest: String,
    dest_digest: String,
    progress: JobProgress,
)
    requires
        job.overwrite,
        !job.skip_newer,
        job.check_content,
        !job.halt_on_errors,
        source_accepted(job.copy_options_of(), facts),
        facts.destination == Some(Some(dest)),
        replaceable(job.copy_options_of(), dest),
        facts.digests == Some((Some(source_digest), Some(dest_digest))),
        source_digest@ == digest_text(content),
        dest_digest@ == digest_text(content),
    ensures
        copy_step(job.copy_options_of(), facts) == CopyStep::Finished(
            Err(FileOpError::DestinationIsIdentical),
        ),
        advance(progress, OpKind::Copy, false, job.halt_on_errors).copied == progress.copied,
        advance(progress, OpKind::Copy, false, job.halt_on_errors).stopped == progress.stopped,
{
    identical_content_is_not_copied(
        job.copy_options_of(),
        facts,
        dest,
        content,
        source_digest,
        dest_digest,
    );
}

/// The progress after recording, in order, operations whose successes are
/// `oks`, starting from `start`.
pub open spec fn replay(plan: JobPlan, halt_on_errors: bool, start: JobProgress, oks: Seq<bool>) -> JobProgress
    decreases oks.len(),
{
    if oks.len() == 0 {
        start
    } else {
        let p = replay(plan, halt_on_errors, start, oks.drop_last());
        advance(p, current_op(plan, p), oks.last(), halt_on_errors)
    }
}

/// A job that does not halt on errors and whose operations all fail (as
/// every copy of a rerun over unchanged files does) counts nothing and is
/// never aborted: it ends as a success with the counts it started with.
pub proof fn failures_count_nothing(plan: JobPlan, start: JobProgress, oks: Seq<bool>)
    requires
        start.stopped is None,
        forall|i: int| 0 <= i < oks.len() ==> !#[trigger] oks[i],
    ensures
        replay(plan, false, start, oks).copied == start.copied,
        replay(plan, false, start, oks).deleted == start.deleted,
        replay(plan, false, start, oks).stopped is None,
    decreases oks.len(),
{
    if oks.len() > 0 {
        assert forall|i: int| 0 <= i < oks.drop_last().len() implies !#[trigger] oks.drop_last()[i] by {
            assert(oks.drop_last()[i] == oks[i]);
        }
        failures_count_nothing(plan, start, oks.drop_last());
        assert(!oks[oks.len() - 1]);
    }
}

/// The progress of a job that has done nothing yet.
pub open spec fn fresh_progress() -> JobProgress {
    JobProgress { copies_done: 0, deletions_done: 0, copied: 0, deleted: 0, stopped: None }
}

/// A job that does not halt on errors hands each planned copy over exactly
/// once and in order: after `k` recorded operations (`k` at most the number
/// of planned copies) exactly the first `k` copies were handled, none of the
/// deletions, and (while copies remain) the next action is about copy `k`.
pub proof fn copies_are_visited_once(plan: JobPlan, oks: Seq<bool>)
    requires
        oks.len() <= plan.copies@.len() <= usize::MAX,
    ensures
        replay(plan, false, fresh_progress(), oks).copies_done == oks.len(),
        replay(plan, false, fresh_progress(), oks).deletions_done == 0,
        replay(plan, false, fresh_progress(), oks).stopped is None,
        oks.len() < plan.copies@.len() ==> {
            let a = job_action(plan, replay(plan, false, fresh_progress(), oks));
            a == JobAction::CopyFile { index: oks.len() as usize } || a == JobAction::ReportUnresolvable {
                index: oks.len() as usize,
            }
        },
    decreases oks.len(),
{
    if oks.len() > 0 {
        copies_are_visited_once(plan, oks.drop_last());
    }
}

} // verus!
