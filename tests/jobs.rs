use copyjob::codes::{FileOpError, JobError};
use copyjob::enumerate::{select_candidates, walk_depth, WalkEntry};
use copyjob::job::{JobAction, JobCounts, JobRun, JobSpec};
use copyjob::matcher::{combine_regexp_patterns, JobMatchers, Matcher};
use copyjob::paths::{file_name_of, join, parent_of, relative_path};
use copyjob::report::{format_err_parsable, format_err_verbose, message_fields};
use copyjob::run::{is_active, RunAction, RunOutcome, RunProgress};

fn job(keep_structure: bool) -> JobSpec {
    JobSpec {
        name: "backup".to_string(),
        source_dir: "/src/".to_string(),
        destination_dir: "/dst/".to_string(),
        name_pattern: ".*".to_string(),
        exclude_pattern: String::new(),
        exclude_dir_pattern: String::new(),
        recursive: true,
        case_sensitive: true,
        follow_symlinks: false,
        overwrite: true,
        skip_newer: false,
        check_content: true,
        remove_others_matching: false,
        create_directories: false,
        keep_structure,
        trash_on_delete: false,
        trash_on_overwrite: false,
        halt_on_errors: false,
    }
}

fn entry(path: &str) -> WalkEntry {
    WalkEntry { path: path.to_string(), is_dir: false, is_symlink: false }
}

fn strings(v: &[&str]) -> Vec<String> {
    v.iter().map(|s| s.to_string()).collect()
}

#[test]
fn enumerator_selects_matching_names() {
    let m = JobMatchers::new(".*\\.txt", "", "", true);
    let entries = vec![
        WalkEntry { path: "/src/".to_string(), is_dir: true, is_symlink: false },
        entry("/src/a.txt"),
        entry("/src/b.log"),
    ];
    assert_eq!(select_candidates("/src/", &entries, &m, false), strings(&["/src/a.txt"]));
}

#[test]
fn enumerator_skips_excluded_names_and_directories() {
    let m = JobMatchers::new(".*", "skip.*", "cache", true);
    let entries = vec![
        entry("/src/keep.txt"),
        entry("/src/skip.txt"),
        entry("/src/cache/x.txt"),
        entry("/src/cache/deeper/y.txt"),
        entry("/src/other/z.txt"),
        WalkEntry { path: "/src/other".to_string(), is_dir: true, is_symlink: false },
    ];
    assert_eq!(
        select_candidates("/src/", &entries, &m, false),
        strings(&["/src/keep.txt", "/src/other/z.txt"])
    );
}

#[test]
fn enumerator_link_policy() {
    let m = JobMatchers::new(".*", "", "", true);
    let entries = vec![WalkEntry { path: "/src/l.txt".to_string(), is_dir: false, is_symlink: true }];
    assert_eq!(select_candidates("/src/", &entries, &m, false), Vec::<String>::new());
    assert_eq!(select_candidates("/src/", &entries, &m, true), strings(&["/src/l.txt"]));
}

#[test]
fn enumerator_case_policy() {
    let entries = vec![entry("/src/A.TXT")];
    let sensitive = JobMatchers::new(".*\\.txt", "", "", true);
    assert_eq!(select_candidates("/src/", &entries, &sensitive, false), Vec::<String>::new());
    let insensitive = JobMatchers::new(".*\\.txt", "", "", false);
    assert_eq!(select_candidates("/src/", &entries, &insensitive, false), strings(&["/src/A.TXT"]));
}

#[test]
fn invalid_pattern_matches_nothing() {
    let m = Matcher::new("(", false);
    assert!(!m.is_match("("));
    assert!(!m.is_match(""));
    let bad = JobMatchers::new("(", "", "", true);
    assert_eq!(select_candidates("/src/", &vec![entry("/src/a")], &bad, false), Vec::<String>::new());
}

#[test]
fn matcher_finds_anywhere() {
    let m = Matcher::new("b+", true);
    assert!(m.is_match("aBBc"));
    assert!(!m.is_match("ac"));
}

#[test]
fn walk_depth_policy() {
    assert_eq!(walk_depth(true), usize::MAX);
    assert_eq!(walk_depth(false), 1);
}

#[test]
fn combined_patterns() {
    assert_eq!(combine_regexp_patterns(&strings(&["a.*", "b"])), "(a.*|b)");
    assert_eq!(combine_regexp_patterns(&strings(&["x"])), "(x)");
    assert_eq!(combine_regexp_patterns(&Vec::new()), "()");
}

#[test]
fn path_helpers() {
    assert_eq!(file_name_of("/src/sub/f.txt"), "f.txt");
    assert_eq!(file_name_of("f.txt"), "f.txt");
    assert_eq!(parent_of("/src/sub/f.txt"), Some("/src/sub".to_string()));
    assert_eq!(parent_of("/f.txt"), Some("/".to_string()));
    assert_eq!(parent_of("f.txt"), None);
    assert_eq!(join("/dst", "a"), "/dst/a");
    assert_eq!(join("/dst/", "a"), "/dst/a");
    assert_eq!(relative_path("/src/", "/src/sub/f.txt"), "sub/f.txt");
    assert_eq!(relative_path("/src", "/src/sub/f.txt"), "sub/f.txt");
    assert_eq!(relative_path("/src", "/srcx/f.txt"), "");
    assert_eq!(relative_path("/other/", "/src/f.txt"), "");
}

#[test]
fn destination_keeps_or_flattens_structure() {
    assert_eq!(job(true).destination_for("/src/sub/f.txt"), Some("/dst/sub/f.txt".to_string()));
    assert_eq!(job(false).destination_for("/src/sub/f.txt"), Some("/dst/f.txt".to_string()));
    assert_eq!(job(true).destination_for("/src/"), None);
}

#[test]
fn missing_destination_stops_job_first() {
    let j = job(true);
    assert_eq!(j.check_directories(true, false), Err(JobError::DestinationDirNotExists));
    assert_eq!(j.check_directories(false, false), Err(JobError::SourceDirNotExists));
    assert_eq!(j.check_directories(true, true), Ok(()));
    let mut create = job(true);
    create.create_directories = true;
    assert_eq!(create.check_directories(true, false), Ok(()));
    assert!(matches!(j.begin(true, false), Err(JobError::DestinationDirNotExists)));
    assert!(create.begin(true, false).is_ok());
}

#[test]
fn empty_source_gives_no_source_files() {
    let j = job(true);
    assert!(matches!(j.plan(&Vec::new(), &Vec::new()), Err(JobError::NoSourceFiles)));
}

#[test]
fn reconciliation_spares_copy_destinations() {
    let mut j = job(true);
    j.remove_others_matching = true;
    let plan = j
        .plan(
            &strings(&["/src/a.txt", "/src/sub/b.txt"]),
            &strings(&["/dst/a.txt", "/dst/old.txt", "/dst/sub/b.txt", "/dst/sub/c.txt"]),
        )
        .unwrap();
    assert_eq!(plan.deletions, strings(&["/dst/old.txt", "/dst/sub/c.txt"]));
    assert_eq!(plan.copies[1].destination, Some("/dst/sub/b.txt".to_string()));
    let keep = job(true).plan(&strings(&["/src/a.txt"]), &strings(&["/dst/old.txt"])).unwrap();
    assert!(keep.deletions.is_empty());
}

#[test]
fn rerun_counts_nothing_and_succeeds() {
    let plan = job(true).plan(&strings(&["/src/a.txt", "/src/b.txt"]), &Vec::new()).unwrap();
    let mut run = JobRun::new(plan, false);
    assert_eq!(run.next_action(), JobAction::CopyFile { index: 0 });
    run.record(Err(FileOpError::DestinationIsIdentical));
    assert_eq!(run.next_action(), JobAction::CopyFile { index: 1 });
    run.record(Err(FileOpError::DestinationIsIdentical));
    assert_eq!(run.next_action(), JobAction::Finished(Ok(JobCounts { copied: 0, deleted: 0 })));
}

#[test]
fn job_counts_copies_and_deletions() {
    let mut j = job(true);
    j.remove_others_matching = true;
    let plan = j.plan(&strings(&["/src/a.txt"]), &strings(&["/dst/z.txt"])).unwrap();
    let mut run = JobRun::new(plan, true);
    assert_eq!(run.next_action(), JobAction::CopyFile { index: 0 });
    run.record(Ok(()));
    assert_eq!(run.next_action(), JobAction::DeleteFile { index: 0 });
    run.record(Ok(()));
    assert_eq!(run.next_action(), JobAction::Finished(Ok(JobCounts { copied: 1, deleted: 1 })));
}

#[test]
fn halting_job_stops_at_first_error() {
    let plan = job(true).plan(&strings(&["/src/a.txt", "/src/b.txt"]), &Vec::new()).unwrap();
    let mut run = JobRun::new(plan, true);
    run.record(Err(FileOpError::DestinationExists));
    assert_eq!(run.next_action(), JobAction::Finished(Err(JobError::GenericFailure)));
}

#[test]
fn unresolvable_destination_is_a_failure() {
    let plan = job(true).plan(&strings(&["/src/"]), &Vec::new()).unwrap();
    let mut run = JobRun::new(plan, false);
    assert_eq!(run.next_action(), JobAction::ReportUnresolvable { index: 0 });
    run.record(Ok(()));
    assert_eq!(run.next_action(), JobAction::Finished(Ok(JobCounts { copied: 0, deleted: 0 })));
    let plan = job(true).plan(&strings(&["/src/"]), &Vec::new()).unwrap();
    let mut halting = JobRun::new(plan, true);
    halting.record(Ok(()));
    assert_eq!(halting.next_action(), JobAction::Finished(Err(JobError::GenericFailure)));
}

#[test]
fn run_visits_active_jobs_in_order() {
    let names = strings(&["one", "two", "three"]);
    let active = strings(&["three", "one"]);
    assert!(is_active(&active, &"one".to_string()));
    assert!(!is_active(&active, &"two".to_string()));
    let mut run = RunProgress::new();
    assert_eq!(run.next_action(&names, &active), RunAction::RunJob { index: 0 });
    run.record(0, false, false);
    assert_eq!(run.next_action(&names, &active), RunAction::RunJob { index: 2 });
    run.record(2, true, false);
    assert_eq!(run.next_action(&names, &active), RunAction::Finished(RunOutcome::Completed));
}

#[test]
fn run_halts_on_failure_when_asked() {
    let names = strings(&["one", "two"]);
    let active = strings(&["one", "two"]);
    let mut run = RunProgress::new();
    run.record(0, false, true);
    assert_eq!(run.next_action(&names, &active), RunAction::Finished(RunOutcome::Halted { job: 0 }));
}

#[test]
fn code_texts() {
    assert_eq!(format_err_parsable(1015), "FOERR_DESTINATION_IS_IDENTICAL");
    assert_eq!(format_err_parsable(0), "OK");
    assert_eq!(format_err_parsable(12345), "ERR_GENERIC");
    assert_eq!(format_err_verbose(2013), "copy job: no source files found");
    assert_eq!(format_err_verbose(12345), "application: generic failure");
}

#[test]
fn message_fields_fill_blanks() {
    let f = message_fields("JOB", "", 1021, "COPY", "/src/a", "");
    assert_eq!(f.message_type, "ERROR");
    assert_eq!(f.code_name, "FOERR_DESTINATION_EXISTS");
    assert_eq!(f.name, "<N/A>");
    assert_eq!(f.arg1, "/src/a");
    assert_eq!(f.arg2, "<N/A>");
    let ok = message_fields("TASK", "job", 0, "END_JOB", "1", "2");
    assert_eq!(ok.message_type, "INFO");
    assert_eq!(ok.name, "job");
}
