//! The one-line summary renderer on concrete configurations.

use tracing_init::{EnvSnapshot, Level, Rotation, TracingInit};

#[test]
fn fresh_configuration_renders_markers() {
    let c = TracingInit::builder("App");
    assert_eq!(
        c.summary(),
        "enable_console: not initialized, enable_log_file not initialized, \
         enable_log_server not initialized, level not initialized"
    );
}

#[test]
fn all_sinks_off_renders_empty() {
    let mut c = TracingInit::builder("App");
    c.log_to_console(false);
    c.log_to_file(false);
    c.log_to_server(false);
    assert_eq!(c.summary(), "");
    // still empty after the level resolves: no sink, no trailing segments
    c.init(&EnvSnapshot::empty()).unwrap();
    assert_eq!(c.summary(), "");
}

#[test]
fn console_only_summary() {
    let mut c = TracingInit::builder("App");
    c.log_to_console(true);
    c.log_to_file(false);
    c.log_to_server(false);
    c.level(Level::Debug);
    assert_eq!(c.summary(), "log to console, default level: DEBUG");
}

#[test]
fn file_summary_with_empty_path_and_daily_rotation() {
    let mut c = TracingInit::builder("App");
    c.log_to_console(false);
    c.log_to_file(true);
    c.log_to_server(false);
    c.init(&EnvSnapshot::empty()).unwrap();
    let s = c.summary();
    assert!(s.contains("./App.log"), "summary was {:?}", s);
    assert!(s.contains("rotation: daily:3"), "summary was {:?}", s);
    assert_eq!(
        s,
        "log to file ./App.log, rotation rotation: daily:3, default level: INFO"
    );
}

#[test]
fn file_summary_with_explicit_path_and_backups() {
    let mut c = TracingInit::builder("App");
    c.log_to_console(false);
    c.log_to_file(true);
    c.log_to_server(false);
    c.log_file_path("/var/log");
    c.log_file_prefix("svc");
    c.log_file_rotation(Rotation::Hourly);
    c.log_file_backups(12);
    c.level(Level::Warn);
    assert_eq!(
        c.summary(),
        "log to file /var/log/svc.log, rotation rotation: hourly:12, default level: WARN"
    );
}

#[test]
fn never_rotation_renders_no_descriptor() {
    let mut c = TracingInit::builder("App");
    c.log_to_console(false);
    c.log_to_file(true);
    c.log_to_server(false);
    c.log_file_rotation(Rotation::Never);
    c.log_file_path("");
    c.level(Level::Info);
    assert_eq!(
        c.summary(),
        "log to file ./App.log, rotation , default level: INFO"
    );
}

#[test]
fn server_summary_and_filter_suffix() {
    let mut c = TracingInit::builder("App");
    c.log_to_console(true);
    c.log_to_file(false);
    c.log_to_server(true);
    c.log_server_address("collector:9000");
    c.level(Level::Info);
    c.filter("my_module=debug");
    assert_eq!(
        c.summary(),
        "log to console, log to server collector:9000, default level: INFO, (my_module=debug)"
    );
}

#[test]
fn all_three_sinks_joined_in_order() {
    let mut c = TracingInit::builder("App");
    c.log_to_console(true);
    c.log_to_file(true);
    c.log_to_server(true);
    c.log_file_path("logs");
    c.log_file_rotation(Rotation::Minutely);
    c.log_server_address("h:1");
    c.level(Level::Error);
    assert_eq!(
        c.summary(),
        "log to console, log to file logs/App.log, rotation rotation: minutely:3, \
         log to server h:1, default level: ERROR"
    );
}

#[test]
fn enabled_sink_with_level_unresolved_marks_level() {
    let mut c = TracingInit::builder("App");
    c.log_to_console(true);
    assert!(c.summary().ends_with(", level not initialized"));
}
