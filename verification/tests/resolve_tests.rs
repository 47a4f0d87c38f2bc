//! Resolution and composition behaviour on concrete environments.

use tracing_init::{EnvSnapshot, FilterChoice, InitError, Level, Rotation, TracingInit};

fn env(
    destination: Option<&str>,
    file_path: Option<&str>,
    rotation: Option<&str>,
    server: Option<&str>,
    level: Option<&str>,
) -> EnvSnapshot {
    EnvSnapshot {
        log_destination: destination.map(String::from),
        log_file_path: file_path.map(String::from),
        log_file_rotation: rotation.map(String::from),
        log_server: server.map(String::from),
        log_level: level.map(String::from),
    }
}

#[test]
fn no_sinks_still_initializes() {
    let mut c = TracingInit::builder("App");
    c.log_to_console(false);
    c.log_to_file(false);
    c.log_to_server(false);
    let plan = c.init(&EnvSnapshot::empty()).unwrap();
    assert!(!plan.console);
    assert!(plan.file.is_none());
    assert!(plan.server.is_none());
    assert!(matches!(plan.filter, FilterChoice::LevelDefault(Level::Info)));
    assert_eq!(c.summary(), "");
}

#[test]
fn explicit_level_wins_over_environment() {
    let mut c = TracingInit::builder("App");
    c.level(Level::Trace);
    let plan = c.init(&env(None, None, None, None, Some("error"))).unwrap();
    assert!(matches!(plan.filter, FilterChoice::LevelDefault(Level::Trace)));
}

#[test]
fn level_comes_from_environment_case_insensitively() {
    for (word, want) in [
        ("error", Level::Error),
        ("WARN", Level::Warn),
        ("Info", Level::Info),
        ("dEbUg", Level::Debug),
        ("TRACE", Level::Trace),
        ("verbose", Level::Info),
        ("", Level::Info),
    ] {
        let mut c = TracingInit::builder("App");
        let plan = c.init(&env(None, None, None, None, Some(word))).unwrap();
        match plan.filter {
            FilterChoice::LevelDefault(l) => assert_eq!(l, want, "word {:?}", word),
            FilterChoice::Expression(_) => panic!("no expression was set"),
        }
    }
}

#[test]
fn absent_level_defaults_to_info() {
    let mut c = TracingInit::builder("App");
    let plan = c.init(&EnvSnapshot::empty()).unwrap();
    assert!(matches!(plan.filter, FilterChoice::LevelDefault(Level::Info)));
}

#[test]
fn rotation_hourly_with_count() {
    let mut c = TracingInit::builder("App");
    c.log_to_file(true);
    let plan = c.init(&env(None, None, Some("h:7"), None, None)).unwrap();
    let file = plan.file.unwrap();
    assert_eq!(file.rotation, Rotation::Hourly);
    assert_eq!(file.max_backups, 7);
}

#[test]
fn rotation_unrecognized_code_defaults_to_daily_count_still_parsed() {
    let mut c = TracingInit::builder("App");
    c.log_to_file(true);
    let plan = c.init(&env(None, None, Some("x:7"), None, None)).unwrap();
    let file = plan.file.unwrap();
    assert_eq!(file.rotation, Rotation::Daily);
    assert_eq!(file.max_backups, 7);
}

#[test]
fn rotation_absent_defaults_to_daily_keeping_backups() {
    let mut c = TracingInit::builder("App");
    c.log_to_file(true);
    c.log_file_backups(9);
    let plan = c.init(&EnvSnapshot::empty()).unwrap();
    let file = plan.file.unwrap();
    assert_eq!(file.rotation, Rotation::Daily);
    assert_eq!(file.max_backups, 9);
}

#[test]
fn rotation_code_variants() {
    for (value, rot, count) in [
        ("d", Rotation::Daily, 3),
        ("h", Rotation::Hourly, 3),
        ("h:", Rotation::Hourly, 3),
        ("m:abc", Rotation::Minutely, 3),
        ("n:5", Rotation::Never, 5),
        (":7", Rotation::Daily, 7),
        ("h:7:9", Rotation::Hourly, 7),
        ("h:+8", Rotation::Hourly, 8),
        ("h:0", Rotation::Hourly, 0),
        ("h:007", Rotation::Hourly, 7),
        ("h:18446744073709551616", Rotation::Hourly, 3),
        ("", Rotation::Daily, 3),
    ] {
        let mut c = TracingInit::builder("App");
        c.log_to_file(true);
        let plan = c.init(&env(None, None, Some(value), None, None)).unwrap();
        let file = plan.file.unwrap();
        assert_eq!(file.rotation, rot, "value {:?}", value);
        assert_eq!(file.max_backups, count, "value {:?}", value);
    }
}

#[test]
fn destination_cf_enables_console_and_file_only() {
    let mut c = TracingInit::builder("App");
    let plan = c.init(&env(Some("cf"), None, None, None, None)).unwrap();
    assert!(plan.console);
    assert!(plan.file.is_some());
    assert!(plan.server.is_none());
}

#[test]
fn destination_characters_are_case_sensitive() {
    let mut c = TracingInit::builder("App");
    let plan = c.init(&env(Some("CFS"), None, None, None, None)).unwrap();
    assert!(!plan.console);
    assert!(plan.file.is_none());
    assert!(plan.server.is_none());
}

#[test]
fn destination_absent_disables_everything() {
    let mut c = TracingInit::builder("App");
    let plan = c.init(&EnvSnapshot::empty()).unwrap();
    assert!(!plan.console);
    assert!(plan.file.is_none());
    assert!(plan.server.is_none());
}

#[test]
fn explicit_toggle_wins_over_destination() {
    let mut c = TracingInit::builder("App");
    c.log_to_console(false);
    let plan = c.init(&env(Some("cfs"), None, None, None, None)).unwrap();
    assert!(!plan.console);
    assert!(plan.file.is_some());
    assert!(plan.server.is_some());
}

#[test]
fn file_plan_carries_path_prefix_suffix() {
    let mut c = TracingInit::builder("App");
    c.log_to_file(true);
    c.log_file_prefix("svc");
    let plan = c
        .init(&env(None, Some("/var/log"), None, None, None))
        .unwrap();
    let file = plan.file.unwrap();
    assert_eq!(file.path, "/var/log");
    assert_eq!(file.prefix, "svc");
    assert_eq!(file.suffix, "log");
}

#[test]
fn file_path_defaults_to_empty_for_current_directory() {
    let mut c = TracingInit::builder("App");
    c.log_to_file(true);
    let plan = c.init(&EnvSnapshot::empty()).unwrap();
    assert_eq!(plan.file.unwrap().path, "");
}

#[test]
fn server_address_from_environment_and_default() {
    let mut c = TracingInit::builder("App");
    c.log_to_server(true);
    let plan = c
        .init(&env(None, None, None, Some("collector:9000"), None))
        .unwrap();
    let server = plan.server.unwrap();
    assert_eq!(server.address, "collector:9000");
    assert_eq!(server.app_name, "App");

    let mut c2 = TracingInit::builder("App");
    c2.log_to_server(true);
    let plan2 = c2.init(&EnvSnapshot::empty()).unwrap();
    assert_eq!(plan2.server.unwrap().address, "logging-server:12201");
}

#[test]
fn explicit_filter_bypasses_level_filtering() {
    let mut c = TracingInit::builder("App");
    c.level(Level::Warn);
    c.filter("my_module=debug");
    let plan = c.init(&EnvSnapshot::empty()).unwrap();
    match plan.filter {
        FilterChoice::Expression(e) => assert_eq!(e, "my_module=debug"),
        FilterChoice::LevelDefault(_) => panic!("explicit filter must bypass the level"),
    }
}

#[test]
fn invalid_filter_expression_aborts_initialization() {
    let mut c = TracingInit::builder("App");
    c.log_to_console(true);
    c.filter("!!!");
    assert_eq!(c.init(&EnvSnapshot::empty()).err(), Some(InitError::InvalidFilter));
}

#[test]
fn non_ascii_filter_expression_is_refused() {
    // Refused before the directive parser is consulted: the parser is only
    // known to return on ASCII input.
    let mut c = TracingInit::builder("App");
    c.filter("a=info, \u{e9}=debug");
    assert_eq!(c.init(&EnvSnapshot::empty()).err(), Some(InitError::InvalidFilter));

    let mut c2 = TracingInit::builder("App");
    c2.filter("\u{e9}mod=debug");
    assert_eq!(c2.init(&EnvSnapshot::empty()).err(), Some(InitError::InvalidFilter));
}

#[test]
fn ascii_filter_with_spaced_segments_still_decides() {
    // Comma-separated ASCII directives with a space after the comma must
    // yield a decision, never a crash.
    let mut c = TracingInit::builder("App");
    c.filter("a=info, b=debug");
    let _ = c.init(&EnvSnapshot::empty());
}

#[test]
fn compose_before_resolution_reports_unresolved() {
    let c = TracingInit::builder("App");
    assert_eq!(c.compose().err(), Some(InitError::Unresolved));

    let mut f = TracingInit::builder("App");
    f.log_to_console(true);
    f.log_to_file(true);
    f.log_to_server(false);
    f.level(Level::Info);
    // file sink enabled but its path never resolved
    assert_eq!(f.compose().err(), Some(InitError::Unresolved));
}

#[test]
fn resolution_is_idempotent() {
    let e = env(Some("cf"), Some("/tmp"), Some("h:7"), None, Some("debug"));
    let mut c = TracingInit::builder("App");
    c.set_from_environment_variables(&e);
    let once = c.summary();
    c.set_from_environment_variables(&e);
    assert_eq!(c.summary(), once);
    // resolving against a different environment changes nothing either
    c.set_from_environment_variables(&env(Some("s"), None, Some("n:1"), None, Some("error")));
    assert_eq!(c.summary(), once);
}
