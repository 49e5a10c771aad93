use debug_tools::config::{
    contains_parent_segment, is_plain, join_path, validate_capture_path, ConfigError, DebugToolsConfig,
    LogFormat, PathRejection, DEFAULT_MAX_LOG_SIZE_BYTES, LOG_ROOT_NAME,
};
use debug_tools::text::chars_of;

fn config(log_dir: &str) -> DebugToolsConfig {
    DebugToolsConfig { log_dir: log_dir.to_string(), ..DebugToolsConfig::default() }
}

#[test]
fn default_configuration() {
    let config = DebugToolsConfig::default();
    assert_eq!(config.log_dir, "/tmp/tauri-debug-tools");
    assert_eq!(config.max_log_size_bytes, 50_000);
    assert_eq!(DEFAULT_MAX_LOG_SIZE_BYTES, 50_000);
    assert_eq!(config.log_format, LogFormat::Json);
    assert!(config.enable_dom_capture);
    assert!(config.enable_rust_logging);
}

#[test]
fn configuration_under_the_application_log_directory() {
    let config = DebugToolsConfig::in_app_log_dir("/home/u/.local/share/app/logs");
    assert_eq!(LOG_ROOT_NAME, "debug-tools");
    assert_eq!(config.log_dir, "/home/u/.local/share/app/logs/debug-tools");
    assert_eq!(config.max_log_size_bytes, 50_000);
    assert_eq!(config.log_format, LogFormat::Json);
    assert!(config.enable_dom_capture && config.enable_rust_logging);
}

#[test]
fn frontend_log_path_names_application_and_process() {
    let config = config("/var/log/dt");
    assert_eq!(
        config.frontend_log_path("My Cool App", 4242),
        "/var/log/dt/frontend_console_My_Cool_App_4242.jsonl"
    );
    assert_eq!(config.frontend_log_path("", 0), "/var/log/dt/frontend_console__0.jsonl");
    assert_eq!(
        config.frontend_log_path("a", u32::MAX),
        "/var/log/dt/frontend_console_a_4294967295.jsonl"
    );
}

#[test]
fn fixed_places_under_the_log_root() {
    let config = config("/var/log/dt");
    assert_eq!(config.backend_log_path(), "/var/log/dt/rust_debug.log");
    assert_eq!(config.screenshot_dir(), "/var/log/dt/screenshots");
    assert_eq!(config.dom_snapshot_dir(), "/var/log/dt/dom_snapshots");
    assert_eq!(
        config.subdirectories(),
        vec!["/var/log/dt/screenshots".to_string(), "/var/log/dt/dom_snapshots".to_string()]
    );
}

#[test]
fn joining_adds_one_separator_where_needed() {
    assert_eq!(join_path("/a", "b"), "/a/b");
    assert_eq!(join_path("/a/", "b"), "/a/b");
    assert_eq!(join_path("", "b"), "b");
    assert_eq!(join_path("/", "b"), "/b");
    assert_eq!(join_path("rel", "b.txt"), "rel/b.txt");
}

#[test]
fn clone_keeps_every_field() {
    let original = DebugToolsConfig {
        log_dir: "/x".to_string(),
        max_log_size_bytes: 7,
        log_format: LogFormat::Text,
        enable_dom_capture: false,
        enable_rust_logging: true,
    };
    let copy = original.clone();
    assert_eq!(copy.log_dir, "/x");
    assert_eq!(copy.max_log_size_bytes, 7);
    assert_eq!(copy.log_format, LogFormat::Text);
    assert!(!copy.enable_dom_capture);
    assert!(copy.enable_rust_logging);
}

#[test]
fn paths_under_the_log_root_are_accepted() {
    assert_eq!(validate_capture_path("/logs/screenshots/a.png", "/logs"), Ok(()));
    assert_eq!(validate_capture_path("/logs", "/logs"), Ok(()));
    assert_eq!(validate_capture_path("/logs/a", "/logs/"), Ok(()));
    assert_eq!(validate_capture_path("/logs/..a/b..", "/logs"), Ok(()));
    assert_eq!(validate_capture_path("/logs/a...b", "/logs"), Ok(()));
    assert_eq!(validate_capture_path("anything", ""), Ok(()));
}

#[test]
fn parent_directory_segments_are_refused() {
    let traversal = Err(PathRejection::Traversal);
    assert_eq!(validate_capture_path("/logs/../etc/passwd", "/logs"), traversal);
    assert_eq!(validate_capture_path("/logs/a/..", "/logs"), traversal);
    assert_eq!(validate_capture_path("../logs/a", "/logs"), traversal);
    assert_eq!(validate_capture_path("..", ""), traversal);
    assert_eq!(validate_capture_path("/elsewhere/../x", "/logs"), traversal);
}

#[test]
fn paths_outside_the_log_root_are_refused() {
    let outside = Err(PathRejection::OutsideRoot);
    assert_eq!(validate_capture_path("/etc/passwd", "/logs"), outside);
    assert_eq!(validate_capture_path("/logs-other/a.png", "/logs"), outside);
    assert_eq!(validate_capture_path("/log", "/logs"), outside);
    assert_eq!(validate_capture_path("", "/logs"), outside);
    assert_eq!(validate_capture_path("logs/a", "/logs"), outside);
}

#[test]
fn configuration_checks_against_its_own_root() {
    let config = config("/var/log/dt");
    assert_eq!(config.check_capture_path("/var/log/dt/dom_snapshots/dom_1.html"), Ok(()));
    assert_eq!(config.check_capture_path("/var/log/dt/../x"), Err(PathRejection::Traversal));
    assert_eq!(config.check_capture_path("/var/log/other"), Err(PathRejection::OutsideRoot));
}

#[test]
fn parent_segments_are_whole_segments() {
    assert!(contains_parent_segment(&chars_of("..")));
    assert!(contains_parent_segment(&chars_of("a/../b")));
    assert!(contains_parent_segment(&chars_of("a/..")));
    assert!(!contains_parent_segment(&chars_of("a/.../b")));
    assert!(!contains_parent_segment(&chars_of("a..b")));
    assert!(!contains_parent_segment(&chars_of(".")));
    assert!(!contains_parent_segment(&chars_of("")));
}

#[test]
fn texts_of_rejections_and_errors() {
    assert_eq!(PathRejection::Traversal.to_string(), "path contains a parent directory segment");
    assert_eq!(PathRejection::OutsideRoot.to_string(), "path is outside the log directory");
    assert_eq!(
        ConfigError::LogDirectory("unknown".to_string()).to_string(),
        "Failed to get log directory: unknown"
    );
    let io = std::io::Error::new(std::io::ErrorKind::PermissionDenied, "denied");
    let detail = io.to_string();
    assert_eq!(
        ConfigError::from(io).to_string(),
        format!("Failed to create directory: {}", detail)
    );
}

#[test]
fn names_of_entries() {
    assert!(is_plain("rust_debug.log"));
    assert!(is_plain("a b"));
    assert!(is_plain("."));
    assert!(is_plain("..."));
    assert!(is_plain("..a"));
    assert!(!is_plain(""));
    assert!(!is_plain(".."));
    assert!(!is_plain("a/b"));
    assert!(!is_plain("/"));
}
