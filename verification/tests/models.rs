use debug_tools::models::{
    ConsoleLogEntry, ConsoleMessage, DebugSnapshot, DebugSnapshotResult, DomSnapshotMetadata,
    DomSnapshotResult, DomState, LogLevel, ViewportInfo, WebViewState, WindowDescriptor,
};

fn webview() -> WebViewState {
    WebViewState {
        url: "http://localhost/".to_string(),
        title: "T".to_string(),
        user_agent: "UA".to_string(),
        viewport: ViewportInfo { width: 1, height: 2 },
    }
}

#[test]
fn levels_have_lower_case_names() {
    assert_eq!(LogLevel::Trace.to_string(), "trace");
    assert_eq!(LogLevel::Debug.to_string(), "debug");
    assert_eq!(LogLevel::Info.to_string(), "info");
    assert_eq!(LogLevel::Warn.to_string(), "warn");
    assert_eq!(LogLevel::Error.to_string(), "error");
    assert_eq!(LogLevel::Warn.as_str(), "warn");
}

#[test]
fn levels_are_found_by_their_names() {
    for level in [LogLevel::Trace, LogLevel::Debug, LogLevel::Info, LogLevel::Warn, LogLevel::Error] {
        assert_eq!(LogLevel::from_name(level.as_str()), Some(level));
    }
    assert_eq!(LogLevel::from_name("Error"), None);
    assert_eq!(LogLevel::from_name(""), None);
    assert_eq!(LogLevel::from_name("fatal"), None);
}

#[test]
fn clones_are_equal_to_their_originals() {
    assert_eq!(webview().clone(), webview());
    let message = ConsoleMessage { level: "info".to_string(), message: "m".to_string(), timestamp: -3 };
    assert_eq!(message.clone(), message);
    let window = WindowDescriptor {
        id: 9,
        name: "n".to_string(),
        app_name: "a".to_string(),
        title: "t".to_string(),
    };
    assert_eq!(window.clone(), window);
    let viewport = ViewportInfo { width: 3, height: 4 };
    assert_eq!(viewport.clone(), viewport);
}

#[test]
fn metadata_is_taken_from_the_document() {
    let dom = DomState {
        html: "<p>hi</p>".to_string(),
        url: "http://x/".to_string(),
        title: "Title".to_string(),
        viewport: ViewportInfo { width: 640, height: 480 },
        captured_at: 1_700_000_000,
    };
    let metadata = DomSnapshotMetadata::of(&dom);
    assert_eq!(
        metadata,
        DomSnapshotMetadata {
            url: "http://x/".to_string(),
            title: "Title".to_string(),
            timestamp: 1_700_000_000,
            viewport: ViewportInfo { width: 640, height: 480 },
        }
    );
    let result = DomSnapshotResult { path: "/p".to_string(), metadata: metadata.clone() };
    assert_eq!(result.metadata, metadata);
}

#[test]
fn snapshot_with_a_screenshot_names_its_path_only() {
    let result =
        DebugSnapshotResult::assemble(webview(), vec!["e".to_string()], Ok("/s.png".to_string()), 12);
    assert_eq!(
        result,
        DebugSnapshotResult {
            screenshot_path: Some("/s.png".to_string()),
            screenshot_error: None,
            webview_state: webview(),
            console_errors: vec!["e".to_string()],
            timestamp: 12,
        }
    );
    assert!(result.is_valid());
}

#[test]
fn snapshot_without_a_screenshot_names_the_reason_only() {
    let result = DebugSnapshotResult::assemble(webview(), Vec::new(), Err("why".to_string()), 12);
    assert_eq!(result.screenshot_path, None);
    assert_eq!(result.screenshot_error, Some("why".to_string()));
    assert!(result.is_valid());
}

#[test]
fn snapshot_with_both_or_neither_is_invalid() {
    let mut result = DebugSnapshotResult::assemble(webview(), Vec::new(), Err("why".to_string()), 1);
    result.screenshot_path = Some("/s.png".to_string());
    assert!(!result.is_valid());
    result.screenshot_path = None;
    result.screenshot_error = None;
    assert!(!result.is_valid());
}

#[test]
fn console_entries_carry_their_arguments_untouched() {
    let args = serde_json::Value::Array(vec![serde_json::Value::Bool(true), serde_json::Value::Null]);
    let entry = ConsoleLogEntry {
        timestamp: 1,
        level: "error".to_string(),
        message: "m".to_string(),
        args: args.clone(),
        stack_trace: None,
    };
    let snapshot = DebugSnapshot {
        timestamp: 2,
        webview_state: webview(),
        console_logs: vec![entry.clone()],
        screenshot_path: None,
        dom_snapshot_path: Some("/d.html".to_string()),
    };
    let copy = snapshot.clone();
    assert_eq!(copy.console_logs.len(), 1);
    assert_eq!(copy.console_logs[0].args, args);
    assert_eq!(copy.console_logs[0].message, "m");
    assert_eq!(copy.dom_snapshot_path, Some("/d.html".to_string()));
}
