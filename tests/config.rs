use copyjob::config::{
    classify_job_key, is_job_name, job_from_table, pattern_from_list, resolve_config, ConfigValue,
    Flags, JobKey,
};
use copyjob::pathtext::{
    add_trailing_separator, contains_mention, expand_all_variables, expand_variables,
    lookup_variable, normalize_separators, replace_markers, resolve_dir,
};

fn text(s: &str) -> ConfigValue {
    ConfigValue::Text(s.to_string())
}

fn pairs(v: &[(&str, &str)]) -> Vec<(String, String)> {
    v.iter().map(|(a, b)| (a.to_string(), b.to_string())).collect()
}

fn entry(k: &str, v: ConfigValue) -> (String, ConfigValue) {
    (k.to_string(), v)
}

fn job_table(name: &str) -> ConfigValue {
    ConfigValue::Table(vec![
        entry("name", text(name)),
        entry("source", text("/data/src")),
        entry("destination", text("%{root}/dst")),
        entry("patterns_select", ConfigValue::List(vec![text(".*\\.txt"), text(""), text(".*\\.md")])),
        entry("overwrite", ConfigValue::Flag(false)),
    ])
}

#[test]
fn variables_are_expanded() {
    let vars = pairs(&[("root", "/home/u"), ("x", "1")]);
    assert_eq!(expand_variables("%{root}/a/%{x}", '%', &vars), "/home/u/a/1");
    assert_eq!(expand_variables("%{missing}/a", '%', &vars), "/a");
    assert_eq!(expand_variables("${root}/a", '%', &vars), "${root}/a");
    assert_eq!(expand_variables("%{9bad}/%{x", '%', &vars), "%{9bad}/%{x");
    assert_eq!(lookup_variable(&vars, "x"), "1");
    assert_eq!(lookup_variable(&vars, "y"), "");
}

#[test]
fn markers_are_replaced() {
    assert_eq!(replace_markers("~/docs", "/home/u", "/etc/cj"), "/home/u/docs");
    assert_eq!(replace_markers("@/docs", "/home/u", "/etc/cj"), "/etc/cj/docs");
    assert_eq!(replace_markers("/abs/~/x", "/home/u", "/etc/cj"), "/abs/~/x");
}

#[test]
fn separators_are_normalized() {
    assert_eq!(normalize_separators("a\\\\b//c///d"), "a/b/c/d");
    assert_eq!(normalize_separators(""), "");
    assert_eq!(add_trailing_separator("/a/b"), "/a/b/");
    assert_eq!(add_trailing_separator("/a/b/"), "/a/b/");
}

#[test]
fn directories_are_resolved() {
    let vars = pairs(&[("base", "${HOME}//x")]);
    let env = pairs(&[("HOME", "/home/u")]);
    assert_eq!(resolve_dir("%{base}\\y", &vars, &env, "/h", "/c"), Some("/home/u/x/y/".to_string()));
    assert_eq!(resolve_dir("~/y", &vars, &env, "/h", "/c"), Some("/h/y/".to_string()));
}

#[test]
fn nested_variables_are_expanded_fully() {
    let vars = pairs(&[("a", "%{b}/x"), ("b", "%{c}"), ("c", "/root")]);
    assert_eq!(expand_all_variables("%{a}/y", '%', &vars), Some("/root/x/y".to_string()));
    assert_eq!(resolve_dir("%{a}", &vars, &Vec::new(), "", ""), Some("/root/x/".to_string()));
    assert!(!contains_mention("/root/x", '%'));
    assert!(contains_mention("a%{b}", '%'));
}

#[test]
fn cyclic_variables_do_not_resolve() {
    let vars = pairs(&[("a", "%{b}"), ("b", "%{a}")]);
    assert_eq!(expand_all_variables("%{a}", '%', &vars), None);
    assert_eq!(resolve_dir("%{a}", &vars, &Vec::new(), "", ""), None);
    let table = vec![entry("name", text("j")), entry("source", text("%{a}"))];
    assert_eq!(job_from_table(&table, &Flags::defaults(), &vars, &Vec::new(), "", "").unwrap_err().key, "job/source");
}

#[test]
fn job_names_are_identifiers() {
    assert!(is_job_name("job_1"));
    assert!(is_job_name("_x"));
    assert!(!is_job_name("1job"));
    assert!(!is_job_name("a-b"));
    assert!(!is_job_name(""));
}

#[test]
fn pattern_lists_are_combined() {
    let items = vec![text("a"), ConfigValue::Flag(true), text(""), text("b")];
    assert_eq!(pattern_from_list(&items), "(a|b)");
}

#[test]
fn job_keys_are_classified() {
    assert_eq!(classify_job_key("name"), JobKey::Name);
    assert_eq!(classify_job_key("patterns_exclude_dir"), JobKey::ExcludeDirPatterns);
    assert_eq!(classify_job_key("overwrite"), JobKey::Flag(3));
    assert_eq!(classify_job_key("halt_on_errors"), JobKey::Flag(11));
    assert_eq!(classify_job_key("bogus"), JobKey::Unknown);
}

#[test]
fn job_table_is_resolved() {
    let vars = pairs(&[("root", "/backup")]);
    let table = match job_table("daily") {
        ConfigValue::Table(t) => t,
        _ => unreachable!(),
    };
    let job = job_from_table(&table, &Flags::defaults(), &vars, &Vec::new(), "/h", "/c").unwrap();
    assert_eq!(job.name, "daily");
    assert_eq!(job.source_dir, "/data/src/");
    assert_eq!(job.destination_dir, "/backup/dst/");
    assert_eq!(job.name_pattern, "(.*\\.txt|.*\\.md)");
    assert_eq!(job.exclude_pattern, "^\\*$");
    assert!(!job.overwrite);
    assert!(job.skip_newer);
    assert!(job.keep_structure);
}

#[test]
fn bad_job_tables_are_refused() {
    let env = Vec::new();
    let bad_name = vec![entry("name", text("no good"))];
    assert_eq!(job_from_table(&bad_name, &Flags::defaults(), &env, &env, "", "").unwrap_err().key, "job/name");
    let bad_flag = vec![entry("name", text("j")), entry("recursive", text("yes"))];
    assert_eq!(job_from_table(&bad_flag, &Flags::defaults(), &env, &env, "", "").unwrap_err().key, "job/recursive");
    let unknown = vec![entry("name", text("j")), entry("colour", text("red"))];
    assert_eq!(job_from_table(&unknown, &Flags::defaults(), &env, &env, "", "").unwrap_err().key, "job");
    let nameless = vec![entry("source", text("/s"))];
    assert_eq!(job_from_table(&nameless, &Flags::defaults(), &env, &env, "", "").unwrap_err().key, "job");
}

#[test]
fn configuration_is_resolved() {
    let doc = vec![
        entry("active_jobs", ConfigValue::List(vec![text("daily")])),
        entry("variables", ConfigValue::Table(vec![entry("root", text("/backup"))])),
        entry("recursive", ConfigValue::Flag(true)),
        entry("job", ConfigValue::List(vec![job_table("daily"), job_table("weekly")])),
    ];
    let (global, jobs) = resolve_config(&doc, &Vec::new(), "/h", "/c").unwrap();
    assert_eq!(global.active_jobs, vec!["daily".to_string()]);
    assert_eq!(global.job_list, vec!["daily".to_string(), "weekly".to_string()]);
    assert!(global.flags.recursive);
    assert_eq!(jobs.len(), 2);
    assert!(jobs[1].recursive);
    assert_eq!(jobs[1].destination_dir, "/backup/dst/");
}

#[test]
fn configuration_errors() {
    let unknown = vec![
        entry("active_jobs", ConfigValue::List(vec![])),
        entry("colour", text("red")),
    ];
    assert_eq!(resolve_config(&unknown, &Vec::new(), "", "").unwrap_err().key, "colour");
    let no_active: Vec<(String, ConfigValue)> = vec![entry("recursive", ConfigValue::Flag(true))];
    assert_eq!(resolve_config(&no_active, &Vec::new(), "", "").unwrap_err().key, "active_jobs");
    let undefined = vec![entry("active_jobs", ConfigValue::List(vec![text("ghost")]))];
    assert_eq!(resolve_config(&undefined, &Vec::new(), "", "").unwrap_err().key, "active_jobs");
    let bad_flag = vec![
        entry("active_jobs", ConfigValue::List(vec![])),
        entry("overwrite", text("no")),
    ];
    assert_eq!(resolve_config(&bad_flag, &Vec::new(), "", "").unwrap_err().key, "overwrite");
    let bad_vars = vec![
        entry("active_jobs", ConfigValue::List(vec![])),
        entry("variables", ConfigValue::List(vec![])),
    ];
    assert_eq!(resolve_config(&bad_vars, &Vec::new(), "", "").unwrap_err().key, "variables");
}

#[test]
fn empty_configuration_takes_default_flags() {
    let doc = vec![entry("active_jobs", ConfigValue::List(vec![]))];
    let (global, jobs) = resolve_config(&doc, &Vec::new(), "/h", "/c").unwrap();
    assert!(jobs.is_empty());
    assert!(global.active_jobs.is_empty());
    assert_eq!(global.flags, Flags::defaults());
    assert!(!global.flags.recursive && global.flags.case_sensitive && global.flags.trash_on_delete);
}

#[test]
fn directories_use_variables_and_collapse_separators() {
    let job = ConfigValue::Table(vec![
        entry("name", text("j")),
        entry("source", text("%{base}//in")),
        entry("destination", text("/out%{nope}")),
    ]);
    let doc = vec![
        entry("active_jobs", ConfigValue::List(vec![text("j")])),
        entry("variables", ConfigValue::Table(vec![entry("base", text("/data"))])),
        entry("job", ConfigValue::List(vec![job])),
    ];
    let (_, jobs) = resolve_config(&doc, &Vec::new(), "/h", "/c").unwrap();
    assert_eq!(jobs.len(), 1);
    assert_eq!(jobs[0].source_dir, "/data/in/");
    assert_eq!(jobs[0].destination_dir, "/out/");
}

#[test]
fn duplicate_variables_are_refused() {
    let doc = vec![
        entry("active_jobs", ConfigValue::List(vec![])),
        entry(
            "variables",
            ConfigValue::Table(vec![entry("a", text("1")), entry("a", text("2"))]),
        ),
    ];
    assert_eq!(resolve_config(&doc, &Vec::new(), "", "").unwrap_err().key, "variables");
}

#[test]
fn bad_job_table_fails_the_configuration() {
    let doc = vec![
        entry("active_jobs", ConfigValue::List(vec![])),
        entry("job", ConfigValue::List(vec![ConfigValue::Table(vec![entry("name", text("1x"))])])),
    ];
    assert_eq!(resolve_config(&doc, &Vec::new(), "", "").unwrap_err().key, "job/name");
    let not_table = vec![
        entry("active_jobs", ConfigValue::List(vec![])),
        entry("job", ConfigValue::List(vec![text("x")])),
    ];
    assert_eq!(resolve_config(&not_table, &Vec::new(), "", "").unwrap_err().key, "job");
}

#[test]
fn undefined_variable_without_variables_expands_to_nothing() {
    assert_eq!(resolve_dir("%{nope}/d", &Vec::new(), &Vec::new(), "", ""), Some("/d/".to_string()));
    let job = ConfigValue::Table(vec![entry("name", text("j")), entry("source", text("%{x}/d"))]);
    let doc = vec![
        entry("active_jobs", ConfigValue::List(vec![text("j")])),
        entry("job", ConfigValue::List(vec![job])),
    ];
    let (_, jobs) = resolve_config(&doc, &Vec::new(), "", "").unwrap();
    assert_eq!(jobs[0].source_dir, "/d/");
}

#[test]
fn chain_ending_at_undefined_variable_expands() {
    let vars = pairs(&[("a", "%{b}")]);
    assert_eq!(resolve_dir("%{a}/x", &vars, &Vec::new(), "", ""), Some("/x/".to_string()));
    let job = ConfigValue::Table(vec![entry("name", text("j")), entry("source", text("%{a}/x"))]);
    let doc = vec![
        entry("active_jobs", ConfigValue::List(vec![text("j")])),
        entry("variables", ConfigValue::Table(vec![entry("a", text("%{b}"))])),
        entry("job", ConfigValue::List(vec![job])),
    ];
    let (_, jobs) = resolve_config(&doc, &Vec::new(), "", "").unwrap();
    assert_eq!(jobs[0].source_dir, "/x/");
}
