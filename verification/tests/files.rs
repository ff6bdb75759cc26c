use ts_sqlx::config::{Config, ResolvedTarget, RuntimeConfig, Target};
use ts_sqlx::opt::{Command, ConfigOpts};
use ts_sqlx::run::{
    output_file_name, run, run_command, run_for_file, run_for_folder, watch_command, AccessKind,
    AccessMode, EventKind, FileAction, Notice, Propagation, Step, WatchAction,
};
use ts_sqlx::scan_folder::{is_valid_path, pattern_to_regex, scan_folder, FoundFile, IgnoreRule};
use ts_sqlx::text::chars_of;
use ts_sqlx::ts::{ts_calls_to_string, ConfigError, QueryToTSDriver, TSCall, TSFieldType};

fn names(list: &[&str]) -> Vec<String> {
    list.iter().map(|name| name.to_string()).collect()
}

fn configured(databases: &[(&str, &str)]) -> RuntimeConfig {
    let mut config = Config::new();
    for (name, url) in databases {
        config.databases.insert(name, url);
    }
    match config.try_into("src".to_string(), "out".to_string()) {
        Ok(runtime) => runtime,
        Err(error) => panic!("{}", error.to_string()),
    }
}

fn target(name: Option<&str>, env_url: Option<&str>) -> Target {
    Target { name: name.map(str::to_string), env_url: env_url.map(str::to_string) }
}

fn begin(existing: &[String]) -> ts_sqlx::run::Pass {
    match run_command(&configured(&[]), &[], existing) {
        Ok((pass, _)) => pass,
        Err(error) => panic!("{}", error.to_string()),
    }
}

fn one_call(query: &str) -> Vec<TSCall> {
    vec![TSCall { query: query.to_string(), params: vec![TSFieldType::Number], result: vec![] }]
}

#[test]
fn a_glob_pattern_becomes_an_anchored_expression() {
    assert_eq!(pattern_to_regex("*.d.ts"), "^.*\\.d\\.ts$");
    assert_eq!(pattern_to_regex("!src/*"), "^src/.*$");
    assert_eq!(pattern_to_regex(""), "^$");
    assert_eq!(pattern_to_regex("a!b.c*"), "^ab\\.c.*$");
    assert_eq!(pattern_to_regex("größe"), "^größe$");
}

#[test]
fn a_rule_is_negated_by_a_leading_mark_only() {
    assert_eq!(
        IgnoreRule::new("!keep/*"),
        IgnoreRule { source: "^keep/.*$".to_string(), negated: true }
    );
    assert_eq!(
        IgnoreRule::new("keep!/*"),
        IgnoreRule { source: "^keep/.*$".to_string(), negated: false }
    );
    assert_eq!(IgnoreRule::new(""), IgnoreRule { source: "^$".to_string(), negated: false });
}

#[test]
fn the_characters_of_a_text_come_in_order() {
    assert_eq!(chars_of("aß→"), vec!['a', 'ß', '→']);
    assert_eq!(chars_of(""), Vec::<char>::new());
}

#[test]
fn a_path_is_searched_by_extension() {
    let extensions = names(&["ts", "tsx"]);
    assert!(is_valid_path("src/a.ts", Some("ts"), &[], &extensions, '/'));
    assert!(is_valid_path("src/a.TS", Some("TS"), &[], &extensions, '/'));
    assert!(is_valid_path("src/a.Tsx", Some("Tsx"), &[], &extensions, '/'));
    assert!(!is_valid_path("src/a.js", Some("js"), &[], &extensions, '/'));
    assert!(!is_valid_path("src/Makefile", None, &[], &extensions, '/'));
    assert!(!is_valid_path("src/a.ts", Some("ts"), &[], &[], '/'));
}

#[test]
fn a_path_below_node_modules_is_never_searched() {
    let extensions = names(&["ts"]);
    assert!(!is_valid_path("app/node_modules/x/a.ts", Some("ts"), &[], &extensions, '/'));
    assert!(!is_valid_path("node_modules/a.ts", Some("ts"), &[], &extensions, '/'));
    assert!(!is_valid_path("app/node_modules", Some("ts"), &[], &extensions, '/'));
    assert!(!is_valid_path("node_modules", Some("ts"), &[], &extensions, '/'));
    assert!(is_valid_path("app/node_modules_old/a.ts", Some("ts"), &[], &extensions, '/'));
    assert!(is_valid_path("app/my_node_modules/a.ts", Some("ts"), &[], &extensions, '/'));
    assert!(is_valid_path("app\\node_modules\\a.ts", Some("ts"), &[], &extensions, '/'));
    assert!(!is_valid_path("app\\node_modules\\a.ts", Some("ts"), &[], &extensions, '\\'));
}

#[test]
fn ignore_rules_exclude_what_they_match_and_negated_rules_what_they_do_not() {
    let extensions = names(&["ts"]);
    let declarations = [IgnoreRule::new("*.d.ts")];
    assert!(!is_valid_path("src/a.d.ts", Some("ts"), &declarations, &extensions, '/'));
    assert!(is_valid_path("src/a.ts", Some("ts"), &declarations, &extensions, '/'));
    let only_src = [IgnoreRule::new("!src/*")];
    assert!(is_valid_path("src/a.ts", Some("ts"), &only_src, &extensions, '/'));
    assert!(!is_valid_path("lib/a.ts", Some("ts"), &only_src, &extensions, '/'));
    let both = [IgnoreRule::new("!src/*"), IgnoreRule::new("*.d.ts")];
    assert!(!is_valid_path("src/a.d.ts", Some("ts"), &both, &extensions, '/'));
    let anchored = [IgnoreRule::new("a.ts")];
    assert!(is_valid_path("src/a.ts", Some("ts"), &anchored, &extensions, '/'));
    assert!(!is_valid_path("a.ts", Some("ts"), &anchored, &extensions, '/'));
    assert!(is_valid_path("axts", Some("ts"), &anchored, &extensions, '/'));
    let broken = [IgnoreRule { source: "(".to_string(), negated: false }];
    assert!(is_valid_path("src/a.ts", Some("ts"), &broken, &extensions, '/'));
    let broken_negated = [IgnoreRule { source: "(".to_string(), negated: true }];
    assert!(is_valid_path("src/a.ts", Some("ts"), &broken_negated, &extensions, '/'));
}

#[test]
fn the_files_to_search_keep_the_order_of_the_walk() {
    let found = vec![
        FoundFile { path: "src/b.ts".to_string(), extension: Some("ts".to_string()) },
        FoundFile { path: "src".to_string(), extension: None },
        FoundFile { path: "src/b.d.ts".to_string(), extension: Some("ts".to_string()) },
        FoundFile { path: "src/node_modules/c.ts".to_string(), extension: Some("ts".to_string()) },
        FoundFile { path: "src/a.JS".to_string(), extension: Some("JS".to_string()) },
        FoundFile { path: "src/readme.md".to_string(), extension: Some("md".to_string()) },
    ];
    let files = scan_folder(&found, &names(&["ts", "js"]), &[IgnoreRule::new("*.d.ts")], '/');
    assert_eq!(files, vec!["src/b.ts", "src/a.JS"]);
    assert_eq!(scan_folder(&[], &names(&["ts"]), &[], '/'), Vec::<String>::new());
}

#[test]
fn the_output_file_is_named_after_the_path_below_the_root() {
    assert_eq!(output_file_name("q.ts", '/'), "q.ts.d.ts");
    assert_eq!(output_file_name("api/users/list.ts", '/'), "api_users_list.ts.d.ts");
    assert_eq!(output_file_name("api\\users.ts", '\\'), "api_users.ts.d.ts");
    assert_eq!(output_file_name("api\\users.ts", '/'), "api\\users.ts.d.ts");
    assert_eq!(output_file_name("", '/'), ".d.ts");
}

#[test]
fn a_pass_removes_the_outputs_that_no_source_file_claims() {
    let existing = names(&["a.d.ts", "b.d.ts"]);
    let mut pass = begin(&existing);
    let calls = one_call("SELECT 1");
    let action = run_for_folder(&mut pass, "a.d.ts", &calls);
    assert_eq!(
        action,
        FileAction::Write { filename: "a.d.ts".to_string(), text: ts_calls_to_string(&calls) }
    );
    assert_eq!(run_for_folder(&mut pass, "b.d.ts", &[]), FileAction::Skip);
    assert_eq!(pass.finish(), vec!["b.d.ts"]);
}

#[test]
fn a_pass_claims_only_outputs_and_each_once() {
    let existing = names(&["notes.txt", "x.d.ts", "y.d.ts", "x.d.ts", ".d.ts", "d.ts", "z.d.tsx"]);
    let mut pass = begin(&existing);
    assert_eq!(
        run_for_folder(&mut pass, "new.d.ts", &one_call("q")),
        FileAction::Write {
            filename: "new.d.ts".to_string(),
            text: ts_calls_to_string(&one_call("q")),
        }
    );
    run_for_folder(&mut pass, "y.d.ts", &one_call("q"));
    assert_eq!(pass.finish(), vec!["x.d.ts", ".d.ts"]);
}

#[test]
fn a_pass_without_files_removes_every_stale_output() {
    let pass = begin(&names(&["x.d.ts", "notes.txt", "y.d.ts"]));
    assert_eq!(pass.finish(), vec!["x.d.ts", "y.d.ts"]);
    assert_eq!(begin(&[]).finish(), Vec::<String>::new());
}

#[test]
fn a_pass_begins_with_what_every_target_resolved_to() {
    let config = configured(&[("default", "postgres://localhost/app")]);
    let targets = [
        target(None, Some("mysql://localhost/ignored")),
        target(Some("reports"), Some("mysql://localhost/reports")),
        target(Some("default"), None),
    ];
    let (pass, resolved) = match run_command(&config, &targets, &names(&["a.d.ts"])) {
        Ok(begun) => begun,
        Err(error) => panic!("{}", error.to_string()),
    };
    let app = ResolvedTarget {
        database: "default".to_string(),
        url: "postgres://localhost/app".to_string(),
        driver: QueryToTSDriver::Postgres,
    };
    let reports = ResolvedTarget {
        database: "reports".to_string(),
        url: "mysql://localhost/reports".to_string(),
        driver: QueryToTSDriver::MySql,
    };
    assert_eq!(resolved, vec![app.clone(), reports, app]);
    assert_eq!(pass.finish(), vec!["a.d.ts"]);
    assert_eq!(config.resolve_targets(&targets), Ok(resolved));
    assert_eq!(config.resolve_targets(&[]), Ok(vec![]));
}

#[test]
fn a_pass_does_not_begin_where_a_target_does_not_resolve() {
    let config = configured(&[("default", "postgres://localhost/app")]);
    let existing = names(&["a.d.ts"]);
    let missing = [target(None, None), target(Some("reports"), None), target(Some("other"), None)];
    assert_eq!(
        run_command(&config, &missing, &existing).err(),
        Some(ConfigError::DatabaseNotFound { database: "reports".to_string() })
    );
    assert_eq!(
        config.resolve_targets(&missing),
        Err(ConfigError::DatabaseNotFound { database: "reports".to_string() })
    );
    let no_url = [target(Some("reports"), Some("nothing")), target(Some("other"), None)];
    assert_eq!(
        run_command(&config, &no_url, &existing).err(),
        Some(ConfigError::InvalidUrl { url: "nothing".to_string() })
    );
    let no_driver = [target(None, None), target(Some("reports"), Some("ftp://host/x"))];
    assert_eq!(
        run_command(&config, &no_driver, &existing).err(),
        Some(ConfigError::NoDriver { url: "ftp://host/x".to_string() })
    );
    let unnamed = [target(None, None)];
    assert_eq!(
        run_command(&configured(&[]), &unnamed, &existing).err(),
        Some(ConfigError::DatabaseNotFound { database: "default".to_string() })
    );
}

#[test]
fn a_changed_file_has_its_output_written_or_removed() {
    let calls = one_call("SELECT 1");
    assert_eq!(
        run_for_file(true, "a.ts.d.ts", &calls),
        FileAction::Write { filename: "a.ts.d.ts".to_string(), text: ts_calls_to_string(&calls) }
    );
    assert_eq!(
        run_for_file(true, "a.ts.d.ts", &[]),
        FileAction::Delete { filename: "a.ts.d.ts".to_string() }
    );
    assert_eq!(run_for_file(false, "a.ts.d.ts", &calls), FileAction::Skip);
    assert_eq!(run_for_file(false, "a.ts.d.ts", &[]), FileAction::Skip);
}

#[test]
fn only_a_close_after_write_runs_the_files_anew() {
    let paths = names(&["src/a.ts", "src/b.ts"]);
    let closed = Notice::Event {
        kind: EventKind::Access(AccessKind::Close(AccessMode::Write)),
        paths: paths.clone(),
    };
    assert_eq!(watch_command(closed), WatchAction::Process { paths: paths.clone() });
    let others = [
        EventKind::Any,
        EventKind::Access(AccessKind::Any),
        EventKind::Access(AccessKind::Read),
        EventKind::Access(AccessKind::Open(AccessMode::Write)),
        EventKind::Access(AccessKind::Close(AccessMode::Read)),
        EventKind::Access(AccessKind::Close(AccessMode::Any)),
        EventKind::Access(AccessKind::Close(AccessMode::Execute)),
        EventKind::Access(AccessKind::Close(AccessMode::Other)),
        EventKind::Access(AccessKind::Other),
        EventKind::Create,
        EventKind::Modify,
        EventKind::Remove,
        EventKind::Other,
    ];
    for kind in others {
        assert_eq!(
            watch_command(Notice::Event { kind, paths: paths.clone() }),
            WatchAction::Ignore,
            "{:?}",
            kind
        );
    }
    assert_eq!(
        watch_command(Notice::Error { message: "lost".to_string() }),
        WatchAction::Report { message: "lost".to_string() }
    );
}

#[test]
fn a_command_is_a_pass_with_or_without_a_watch() {
    let opts = ConfigOpts {
        config: None,
        src: None,
        dest: None,
        database_url: None,
        connect_timeout: 10,
        sqlite_create_db_wal: true,
    };
    assert_eq!(run(&Command::Run { config_opts: opts.clone() }), vec![Step::FullPass]);
    assert_eq!(run(&Command::Watch { config_opts: opts }), vec![Step::FullPass, Step::Watch]);
    assert_eq!(Step::FullPass.on_failure(), Propagation::Abort);
    assert_eq!(Step::Watch.on_failure(), Propagation::ReportAndContinue);
}
