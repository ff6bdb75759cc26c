use ts_sqlx::config::{env_var_name, Config, DatabaseUrls};
use ts_sqlx::database::{CachingDescribeBlocking, DescribeAction, DescribeEvent};
use ts_sqlx::opt::{Command, ConfigOpts};
use ts_sqlx::scan_folder::IgnoreRule;
use ts_sqlx::ts::{
    driver_for, get_foss_driver_for_database_url, ConfigError, QueryToTSDriver,
};

fn options() -> ConfigOpts {
    ConfigOpts {
        config: None,
        src: None,
        dest: None,
        database_url: None,
        connect_timeout: 10,
        sqlite_create_db_wal: true,
    }
}

#[test]
fn the_scheme_of_a_url_selects_the_driver() {
    assert_eq!(
        get_foss_driver_for_database_url("postgres://user@localhost/app"),
        Ok(QueryToTSDriver::Postgres)
    );
    assert_eq!(
        get_foss_driver_for_database_url("postgresql://localhost/app"),
        Ok(QueryToTSDriver::Postgres)
    );
    assert_eq!(get_foss_driver_for_database_url("mysql://localhost/app"), Ok(QueryToTSDriver::MySql));
    assert_eq!(
        get_foss_driver_for_database_url("mariadb://localhost/app"),
        Ok(QueryToTSDriver::MySql)
    );
    assert_eq!(get_foss_driver_for_database_url("sqlite://app.db"), Ok(QueryToTSDriver::Sqlite));
    assert_eq!(
        get_foss_driver_for_database_url("POSTGRES://localhost/app"),
        Ok(QueryToTSDriver::Postgres)
    );
}

#[test]
fn a_url_without_a_driver_or_without_a_scheme_is_refused() {
    assert_eq!(
        get_foss_driver_for_database_url("http://localhost/app"),
        Err(ConfigError::NoDriver { url: "http://localhost/app".to_string() })
    );
    assert_eq!(
        get_foss_driver_for_database_url("not a url"),
        Err(ConfigError::InvalidUrl { url: "not a url".to_string() })
    );
}

#[test]
fn drivers_name_their_schemes() {
    assert_eq!(QueryToTSDriver::MySql.schemes(), vec!["mysql", "mariadb"]);
    assert_eq!(QueryToTSDriver::Postgres.schemes(), vec!["postgres", "postgresql"]);
    assert_eq!(QueryToTSDriver::Sqlite.schemes(), vec!["sqlite"]);
    assert!(QueryToTSDriver::MySql.serves(&"mariadb".to_string()));
    assert!(!QueryToTSDriver::MySql.serves(&"sqlite".to_string()));
}

#[test]
fn errors_render_their_messages() {
    assert_eq!(
        ConfigError::NoDriver { url: "http://x".to_string() }.to_string(),
        "No driver found for http://x"
    );
    assert_eq!(
        ConfigError::DatabaseNotFound { database: "reports".to_string() }.to_string(),
        "database \"reports\" not found"
    );
    assert_eq!(
        ConfigError::InvalidUrl { url: "x".to_string() }.to_string(),
        "invalid database URL x"
    );
    assert_eq!(
        ConfigError::InvalidIgnorePattern { pattern: "(".to_string() }.to_string(),
        "invalid ignore pattern ("
    );
}

#[test]
fn database_urls_keep_the_last_url_of_a_name() {
    let mut urls = DatabaseUrls::new();
    assert_eq!(urls.get("default"), None);
    urls.insert("default", "sqlite://a.db");
    urls.insert("reports", "mysql://localhost/reports");
    urls.insert("default", "sqlite://b.db");
    assert_eq!(urls.get("default"), Some("sqlite://b.db".to_string()));
    assert_eq!(urls.get("reports"), Some("mysql://localhost/reports".to_string()));
    assert_eq!(urls.get("missing"), None);
}

#[test]
fn a_configuration_that_names_nothing_gets_the_defaults() {
    let runtime = Config::new().try_into("/work".to_string(), "/work/.ts-sqlx".to_string());
    let runtime = match runtime {
        Ok(runtime) => runtime,
        Err(error) => panic!("{}", error.to_string()),
    };
    assert_eq!(runtime.src, "/work");
    assert_eq!(runtime.dest, "/work/.ts-sqlx");
    assert_eq!(runtime.extensions, vec!["ts", "tsx", "js", "jsx"]);
    assert_eq!(
        runtime.ignore_regexes,
        vec![IgnoreRule { source: "^.*\\.d\\.ts$".to_string(), negated: false }]
    );
    assert_eq!(runtime.databases.get("default"), None);
}

#[test]
fn a_configuration_keeps_what_it_names() {
    let mut config = Config::new();
    config.extensions = Some(vec!["mts".to_string()]);
    config.ignore_patterns = Some(vec!["!src/*".to_string(), "*.test.ts".to_string()]);
    config.databases.insert("default", "postgres://localhost/app");
    let runtime = match config.try_into("s".to_string(), "d".to_string()) {
        Ok(runtime) => runtime,
        Err(error) => panic!("{}", error.to_string()),
    };
    assert_eq!(runtime.extensions, vec!["mts"]);
    assert_eq!(
        runtime.ignore_regexes,
        vec![
            IgnoreRule { source: "^src/.*$".to_string(), negated: true },
            IgnoreRule { source: "^.*\\.test\\.ts$".to_string(), negated: false },
        ]
    );
    assert_eq!(runtime.databases.get("default"), Some("postgres://localhost/app".to_string()));
}

#[test]
fn a_database_url_that_is_no_url_fails_the_configuration() {
    let mut config = Config::new();
    config.databases.insert("default", "postgres://localhost/app");
    config.databases.insert("broken", "no url at all");
    config.ignore_patterns = Some(vec!["(".to_string()]);
    match config.try_into("s".to_string(), "d".to_string()) {
        Err(error) => assert_eq!(error, ConfigError::InvalidUrl { url: "no url at all".to_string() }),
        Ok(_) => panic!("accepted"),
    }
}

#[test]
fn an_ignore_pattern_that_does_not_compile_fails_the_configuration() {
    let mut config = Config::new();
    config.ignore_patterns =
        Some(vec!["*.d.ts".to_string(), "src/(".to_string(), "lib/[".to_string()]);
    match config.try_into("s".to_string(), "d".to_string()) {
        Err(error) => {
            assert_eq!(error, ConfigError::InvalidIgnorePattern { pattern: "src/(".to_string() })
        }
        Ok(_) => panic!("accepted"),
    }
}

#[test]
fn options_replace_parts_of_the_configuration() {
    let mut config = Config::new();
    config.src = Some("src".to_string());
    config.dest = Some("out".to_string());
    config.extensions = Some(vec!["ts".to_string()]);
    config.databases.insert("default", "sqlite://old.db");
    config.databases.insert("reports", "mysql://localhost/r");
    config.config_path = Some("/etc".to_string());
    let mut opts = options();
    opts.dest = Some("generated".to_string());
    opts.database_url = Some("sqlite://new.db".to_string());
    let merged = opts.apply_to(config);
    assert_eq!(merged.src, Some("src".to_string()));
    assert_eq!(merged.dest, Some("generated".to_string()));
    assert_eq!(merged.extensions, Some(vec!["ts".to_string()]));
    assert_eq!(merged.ignore_patterns, None);
    assert_eq!(merged.config_path, Some("/etc".to_string()));
    assert_eq!(merged.databases.get("default"), Some("sqlite://new.db".to_string()));
    assert_eq!(merged.databases.get("reports"), Some("mysql://localhost/r".to_string()));
    let untouched = options().apply_to(Config::new());
    assert_eq!(untouched.src, None);
    assert_eq!(untouched.databases.get("default"), None);
}

#[test]
fn a_command_hands_out_its_options() {
    let mut opts = options();
    opts.src = Some("here".to_string());
    let run = Command::Run { config_opts: opts.clone() };
    assert_eq!(run.config_opts(), &opts);
    let watch = Command::Watch { config_opts: opts.clone() };
    assert_eq!(watch.config_opts(), &opts);
}

#[test]
fn the_environment_variable_is_named_after_the_database() {
    assert_eq!(env_var_name(None), "DATABASE_URL");
    assert_eq!(env_var_name(Some("default")), "DATABASE_URL");
    assert_eq!(env_var_name(Some("reports")), "REPORTS_DATABASE_URL");
    assert_eq!(env_var_name(Some("Straße")), "STRASSE_DATABASE_URL");
}

#[test]
fn a_database_resolves_from_the_configuration_before_the_environment() {
    let mut config = Config::new();
    config.databases.insert("default", "postgres://localhost/app");
    let runtime = match config.try_into("s".to_string(), "d".to_string()) {
        Ok(runtime) => runtime,
        Err(error) => panic!("{}", error.to_string()),
    };
    assert_eq!(
        runtime.get_driver(None, Some("mysql://localhost/other")),
        Ok(("default".to_string(), "postgres://localhost/app".to_string(), QueryToTSDriver::Postgres))
    );
    assert_eq!(
        runtime.get_driver(Some("reports"), Some("mysql://localhost/reports")),
        Ok(("reports".to_string(), "mysql://localhost/reports".to_string(), QueryToTSDriver::MySql))
    );
    assert_eq!(
        runtime.get_driver(Some("reports"), None),
        Err(ConfigError::DatabaseNotFound { database: "reports".to_string() })
    );
    assert_eq!(
        runtime.get_driver(Some("reports"), Some("nothing")),
        Err(ConfigError::InvalidUrl { url: "nothing".to_string() })
    );
    assert_eq!(
        runtime.get_driver(Some("reports"), Some("ftp://host/x")),
        Err(ConfigError::NoDriver { url: "ftp://host/x".to_string() })
    );
}

#[test]
fn a_first_call_connects_pings_and_describes() {
    let mut cache = CachingDescribeBlocking::new();
    let url = "postgres://localhost/app";
    assert_eq!(cache.cached(url), None);
    assert_eq!(cache.describe_blocking(url, DescribeEvent::Start), DescribeAction::Connect);
    assert_eq!(
        cache.describe_blocking(url, DescribeEvent::Connected { handle: 7 }),
        DescribeAction::Ping(7)
    );
    assert_eq!(cache.cached(url), Some(7));
    assert_eq!(
        cache.describe_blocking(url, DescribeEvent::Pinged { alive: true }),
        DescribeAction::Describe(7)
    );
    assert_eq!(
        cache.describe_blocking(url, DescribeEvent::Described { ok: true }),
        DescribeAction::Finish
    );
    assert_eq!(cache.describe_blocking(url, DescribeEvent::Start), DescribeAction::Ping(7));
}

#[test]
fn a_connection_whose_ping_fails_is_dropped_and_made_anew() {
    let mut cache = CachingDescribeBlocking::new();
    let url = "mysql://localhost/app";
    let other = "sqlite://other.db";
    cache.describe_blocking(url, DescribeEvent::Connected { handle: 1 });
    cache.describe_blocking(other, DescribeEvent::Connected { handle: 2 });
    assert_eq!(cache.describe_blocking(url, DescribeEvent::Start), DescribeAction::Ping(1));
    assert_eq!(
        cache.describe_blocking(url, DescribeEvent::Pinged { alive: false }),
        DescribeAction::Fail { discard: Some(1) }
    );
    assert_eq!(cache.cached(url), None);
    assert_eq!(cache.cached(other), Some(2));
    assert_eq!(cache.describe_blocking(url, DescribeEvent::Start), DescribeAction::Connect);
    assert_eq!(
        cache.describe_blocking(url, DescribeEvent::Connected { handle: 3 }),
        DescribeAction::Ping(3)
    );
    assert_eq!(cache.describe_blocking(url, DescribeEvent::Start), DescribeAction::Ping(3));
}

#[test]
fn a_failed_connect_or_describe_ends_the_call() {
    let mut cache = CachingDescribeBlocking::new();
    let url = "sqlite://app.db";
    assert_eq!(
        cache.describe_blocking(url, DescribeEvent::ConnectFailed),
        DescribeAction::Fail { discard: None }
    );
    assert_eq!(cache.cached(url), None);
    cache.describe_blocking(url, DescribeEvent::Connected { handle: 9 });
    assert_eq!(
        cache.describe_blocking(url, DescribeEvent::Described { ok: false }),
        DescribeAction::Fail { discard: Some(9) }
    );
    assert_eq!(cache.cached(url), None);
    assert_eq!(
        cache.describe_blocking(url, DescribeEvent::Pinged { alive: true }),
        DescribeAction::Connect
    );
    assert_eq!(
        cache.describe_blocking(url, DescribeEvent::Pinged { alive: false }),
        DescribeAction::Fail { discard: None }
    );
    assert_eq!(
        cache.describe_blocking(url, DescribeEvent::Described { ok: false }),
        DescribeAction::Fail { discard: None }
    );
}

#[test]
fn database_urls_hand_out_every_entry_once() {
    let mut urls = DatabaseUrls::new();
    assert_eq!(urls.entries(), Vec::<(String, String)>::new());
    urls.insert("b", "mysql://localhost/b");
    urls.insert("a", "sqlite://a.db");
    urls.insert("b", "mysql://localhost/c");
    let mut entries = urls.entries();
    entries.sort();
    assert_eq!(
        entries,
        vec![
            ("a".to_string(), "sqlite://a.db".to_string()),
            ("b".to_string(), "mysql://localhost/c".to_string()),
        ]
    );
}

#[test]
fn a_resolved_url_is_written_out_as_parsed() {
    let mut config = Config::new();
    config.databases.insert("default", "POSTGRES://localhost/app");
    let runtime = match config.try_into("s".to_string(), "d".to_string()) {
        Ok(runtime) => runtime,
        Err(error) => panic!("{}", error.to_string()),
    };
    assert_eq!(runtime.databases.get("default"), Some("POSTGRES://localhost/app".to_string()));
    assert_eq!(
        runtime.get_driver(None, None),
        Ok(("default".to_string(), "postgres://localhost/app".to_string(), QueryToTSDriver::Postgres))
    );
    assert_eq!(
        runtime.get_driver(Some("files"), Some("SQLite://app.db")),
        Ok(("files".to_string(), "sqlite://app.db".to_string(), QueryToTSDriver::Sqlite))
    );
}

#[test]
fn a_scheme_selects_its_driver() {
    assert_eq!(driver_for(&"mysql".to_string()), Some(QueryToTSDriver::MySql));
    assert_eq!(driver_for(&"mariadb".to_string()), Some(QueryToTSDriver::MySql));
    assert_eq!(driver_for(&"postgresql".to_string()), Some(QueryToTSDriver::Postgres));
    assert_eq!(driver_for(&"sqlite".to_string()), Some(QueryToTSDriver::Sqlite));
    assert_eq!(driver_for(&"http".to_string()), None);
    assert_eq!(driver_for(&"MYSQL".to_string()), None);
}
