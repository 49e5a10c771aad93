use debug_tools::config::PathRejection;
use debug_tools::models::{
    ConsoleLogEntry, DebugSnapshot, DomSnapshotMetadata, DomSnapshotResult, DomState, ViewportInfo,
};
use debug_tools::ports::{DomCaptureError, LogError, RepositoryError, SnapshotRepository};
use debug_tools::use_cases::{
    capture_time, capture_webview_state, stored, validate_optional_path, AppendConsoleLogsUseCase,
    CaptureDebugSnapshotUseCase, CaptureWebViewStateUseCase, SaveDomSnapshotUseCase, UseCaseError,
    WindowProbe, MAIN_WINDOW, USER_AGENT,
};
use std::sync::atomic::{AtomicUsize, Ordering};
use std::sync::Arc;

struct Store {
    fail: bool,
    calls: AtomicUsize,
}

impl Store {
    fn new(fail: bool) -> Arc<Store> {
        Arc::new(Store { fail, calls: AtomicUsize::new(0) })
    }

    fn called(&self) -> usize {
        self.calls.load(Ordering::SeqCst)
    }

    fn answer<T>(&self, value: T) -> Result<T, RepositoryError> {
        self.calls.fetch_add(1, Ordering::SeqCst);
        if self.fail {
            Err(RepositoryError::Save("disk full".to_string()))
        } else {
            Ok(value)
        }
    }
}

impl SnapshotRepository for Store {
    fn save_snapshot(&self, snapshot: &DebugSnapshot) -> Result<String, RepositoryError> {
        self.answer(format!("/logs/snapshot_{}.json", snapshot.timestamp))
    }

    fn save_dom(&self, dom: &DomState, timestamp: i64) -> Result<DomSnapshotResult, RepositoryError> {
        self.answer(DomSnapshotResult {
            path: format!("/logs/dom_snapshots/dom_{}.html", timestamp),
            metadata: DomSnapshotMetadata::of(dom),
        })
    }

    fn save_console_logs(&self, _logs: &Vec<ConsoleLogEntry>) -> Result<String, RepositoryError> {
        self.answer("/logs/frontend_console_app_1.jsonl".to_string())
    }
}

fn entry(message: &str) -> ConsoleLogEntry {
    ConsoleLogEntry {
        timestamp: 1,
        level: "error".to_string(),
        message: message.to_string(),
        args: serde_json::Value::Null,
        stack_trace: None,
    }
}

fn found() -> WindowProbe {
    WindowProbe::Found {
        url: Ok("http://localhost:1420/".to_string()),
        title: Ok("App".to_string()),
        size: Ok(ViewportInfo { width: 800, height: 600 }),
    }
}

#[test]
fn webview_state_is_made_of_what_the_window_answered() {
    let state = CaptureWebViewStateUseCase::execute(found()).unwrap();
    assert_eq!(state.url, "http://localhost:1420/");
    assert_eq!(state.title, "App");
    assert_eq!(state.user_agent, "TauriWebView/2.0");
    assert_eq!(USER_AGENT, "TauriWebView/2.0");
    assert_eq!(state.viewport, ViewportInfo { width: 800, height: 600 });
}

#[test]
fn missing_window_is_reported_by_its_label() {
    assert_eq!(MAIN_WINDOW, "main");
    match CaptureWebViewStateUseCase::execute(WindowProbe::Missing) {
        Err(UseCaseError::WindowNotFound(label)) => assert_eq!(label, "main"),
        other => panic!("{:?}", other),
    }
}

#[test]
fn first_unreadable_property_fails_the_capture() {
    let probe = WindowProbe::Found {
        url: Err("no url".to_string()),
        title: Err("no title".to_string()),
        size: Err("no size".to_string()),
    };
    match CaptureWebViewStateUseCase::execute(probe) {
        Err(UseCaseError::WindowProperty(detail)) => assert_eq!(detail, "no url"),
        other => panic!("{:?}", other),
    }
    let probe = WindowProbe::Found {
        url: Ok("u".to_string()),
        title: Err("no title".to_string()),
        size: Err("no size".to_string()),
    };
    match CaptureWebViewStateUseCase::execute(probe) {
        Err(UseCaseError::WindowProperty(detail)) => assert_eq!(detail, "no title"),
        other => panic!("{:?}", other),
    }
    let probe = WindowProbe::Found {
        url: Ok("u".to_string()),
        title: Ok("t".to_string()),
        size: Err("no size".to_string()),
    };
    match CaptureWebViewStateUseCase::execute(probe) {
        Err(UseCaseError::WindowProperty(detail)) => assert_eq!(detail, "Failed to get size: no size"),
        other => panic!("{:?}", other),
    }
}

#[test]
fn appending_nothing_does_not_reach_the_store() {
    let store = Store::new(false);
    let use_case = AppendConsoleLogsUseCase::new(store.clone());
    assert_eq!(use_case.execute(Vec::new()).unwrap(), "no logs");
    assert_eq!(store.called(), 0);
}

#[test]
fn appending_returns_the_path_of_the_log() {
    let store = Store::new(false);
    let use_case = AppendConsoleLogsUseCase::new(store.clone());
    assert_eq!(use_case.execute(vec![entry("a")]).unwrap(), "/logs/frontend_console_app_1.jsonl");
    assert_eq!(store.called(), 1);
}

#[test]
fn failure_of_the_store_is_a_repository_error() {
    let store = Store::new(true);
    let use_case = AppendConsoleLogsUseCase::new(store.clone());
    match use_case.execute(vec![entry("a")]) {
        Err(UseCaseError::Repository(RepositoryError::Save(detail))) => assert_eq!(detail, "disk full"),
        other => panic!("{:?}", other),
    }
    match AppendConsoleLogsUseCase::<Store>::appended(Err(RepositoryError::Load("x".to_string()))) {
        Err(UseCaseError::Repository(RepositoryError::Load(detail))) => assert_eq!(detail, "x"),
        other => panic!("{:?}", other),
    }
    assert_eq!(AppendConsoleLogsUseCase::<Store>::appended(Ok("/p".to_string())).unwrap(), "/p");
}

#[test]
fn document_is_stamped_and_stored() {
    let store = Store::new(false);
    let use_case = SaveDomSnapshotUseCase::new(store.clone());
    let result = use_case
        .execute("<p/>".to_string(), "http://x/".to_string(), "T".to_string(), 10, 20, Ok(1_700_000_000))
        .unwrap();
    assert_eq!(result.path, "/logs/dom_snapshots/dom_1700000000.html");
    assert_eq!(result.metadata.timestamp, 1_700_000_000);
    assert_eq!(result.metadata.url, "http://x/");
    assert_eq!(result.metadata.viewport, ViewportInfo { width: 10, height: 20 });
    let dom = SaveDomSnapshotUseCase::<Store>::dom_state(
        "<p/>".to_string(),
        "u".to_string(),
        "t".to_string(),
        1,
        2,
        -7,
    );
    assert_eq!(
        dom,
        DomState {
            html: "<p/>".to_string(),
            url: "u".to_string(),
            title: "t".to_string(),
            viewport: ViewportInfo { width: 1, height: 2 },
            captured_at: -7,
        }
    );
}

#[test]
fn unreadable_clock_stores_nothing() {
    let store = Store::new(false);
    let use_case = SaveDomSnapshotUseCase::new(store.clone());
    let outcome = use_case.execute(
        String::new(),
        String::new(),
        String::new(),
        1,
        1,
        Err("clock went backwards".to_string()),
    );
    match outcome {
        Err(UseCaseError::SystemTime(detail)) => assert_eq!(detail, "clock went backwards"),
        other => panic!("{:?}", other),
    }
    assert_eq!(store.called(), 0);
}

#[test]
fn full_snapshot_is_composed_and_stored() {
    let store = Store::new(false);
    let use_case = CaptureDebugSnapshotUseCase::new(store.clone());
    let snapshot = use_case
        .execute(
            "/logs",
            found(),
            Ok(42),
            vec![entry("a"), entry("b")],
            Some("/logs/screenshots/s.png".to_string()),
            None,
        )
        .unwrap();
    assert_eq!(snapshot.timestamp, 42);
    assert_eq!(snapshot.webview_state.title, "App");
    assert_eq!(snapshot.console_logs.len(), 2);
    assert_eq!(snapshot.console_logs[1].message, "b");
    assert_eq!(snapshot.screenshot_path, Some("/logs/screenshots/s.png".to_string()));
    assert_eq!(snapshot.dom_snapshot_path, None);
    assert_eq!(store.called(), 1);
}

#[test]
fn refused_paths_are_hard_errors() {
    let store = Store::new(false);
    let use_case = CaptureDebugSnapshotUseCase::new(store.clone());
    let outcome = use_case.execute(
        "/logs",
        found(),
        Ok(42),
        Vec::new(),
        Some("/logs/../etc/passwd".to_string()),
        Some("/elsewhere/d.html".to_string()),
    );
    assert!(matches!(outcome, Err(UseCaseError::InvalidPath(PathRejection::Traversal))));
    let outcome = use_case.execute(
        "/logs",
        found(),
        Ok(42),
        Vec::new(),
        Some("/logs/s.png".to_string()),
        Some("/elsewhere/d.html".to_string()),
    );
    assert!(matches!(outcome, Err(UseCaseError::InvalidPath(PathRejection::OutsideRoot))));
    assert_eq!(store.called(), 0);
}

#[test]
fn composition_fails_on_window_then_clock() {
    let outcome = CaptureDebugSnapshotUseCase::<Store>::compose(
        "/logs",
        WindowProbe::Missing,
        Err("clock".to_string()),
        Vec::new(),
        None,
        None,
    );
    assert!(matches!(outcome, Err(UseCaseError::WindowNotFound(_))));
    let outcome = CaptureDebugSnapshotUseCase::<Store>::compose(
        "/logs",
        found(),
        Err("clock".to_string()),
        Vec::new(),
        None,
        None,
    );
    assert!(matches!(outcome, Err(UseCaseError::SystemTime(_))));
}

#[test]
fn failure_to_store_the_snapshot_is_returned() {
    let store = Store::new(true);
    let use_case = CaptureDebugSnapshotUseCase::new(store.clone());
    let outcome = use_case.execute("/logs", found(), Ok(1), Vec::new(), None, None);
    assert!(matches!(outcome, Err(UseCaseError::Repository(RepositoryError::Save(_)))));
    assert_eq!(store.called(), 1);
}

#[test]
fn optional_paths_are_checked_when_present() {
    assert_eq!(validate_optional_path(&None, "/logs"), Ok(()));
    assert_eq!(validate_optional_path(&Some("/logs/a".to_string()), "/logs"), Ok(()));
    assert_eq!(
        validate_optional_path(&Some("/other".to_string()), "/logs"),
        Err(PathRejection::OutsideRoot)
    );
}

#[test]
fn capture_time_is_whole_seconds() {
    assert_eq!(capture_time(Ok(1_700_000_000)).unwrap(), 1_700_000_000);
    assert_eq!(capture_time(Ok(0)).unwrap(), 0);
    assert!(matches!(capture_time(Err("e".to_string())), Err(UseCaseError::SystemTime(_))));
    assert_eq!(stored::<u8>(Ok(3)).unwrap(), 3);
}

#[test]
fn texts_of_errors() {
    assert_eq!(UseCaseError::WindowNotFound("main".to_string()).to_string(), "Window not found: main");
    assert_eq!(
        UseCaseError::WindowProperty("x".to_string()).to_string(),
        "Failed to get window property: x"
    );
    assert_eq!(UseCaseError::SystemTime("x".to_string()).to_string(), "System time error: x");
    assert_eq!(
        UseCaseError::InvalidPath(PathRejection::OutsideRoot).to_string(),
        "Invalid path: path is outside the log directory"
    );
    assert_eq!(
        UseCaseError::from(RepositoryError::Save("disk full".to_string())).to_string(),
        "Repository error: Failed to save: disk full"
    );
    assert_eq!(RepositoryError::Load("x".to_string()).to_string(), "Failed to load: x");
    let io = std::io::Error::new(std::io::ErrorKind::Other, "broken pipe");
    assert_eq!(RepositoryError::from(io).to_string(), "IO error: broken pipe");
    let json = match serde_json::from_str::<serde_json::Value>("{") {
        Err(error) => error,
        Ok(_) => panic!("parsed"),
    };
    let detail = json.to_string();
    assert_eq!(RepositoryError::from(json).to_string(), format!("Serialization error: {}", detail));
    assert_eq!(LogError::Initialization("x".to_string()).to_string(), "Failed to initialize logger: x");
    assert_eq!(LogError::Write("x".to_string()).to_string(), "Failed to write log: x");
    assert_eq!(DomCaptureError::Capture("x".to_string()).to_string(), "Failed to capture DOM: x");
    assert_eq!(DomCaptureError::Save("x".to_string()).to_string(), "Failed to save DOM: x");
}

#[test]
fn command_reports_the_first_thing_that_went_wrong() {
    assert_eq!(capture_webview_state(WindowProbe::Missing), Err("Main window not found".to_string()));
    let probe = WindowProbe::Found {
        url: Err("no url".to_string()),
        title: Err("no title".to_string()),
        size: Err("no size".to_string()),
    };
    assert_eq!(capture_webview_state(probe), Err("no url".to_string()));
    let probe = WindowProbe::Found {
        url: Ok("u".to_string()),
        title: Err("no title".to_string()),
        size: Err("no size".to_string()),
    };
    assert_eq!(capture_webview_state(probe), Err("no title".to_string()));
    let probe = WindowProbe::Found {
        url: Ok("u".to_string()),
        title: Ok("t".to_string()),
        size: Err("no size".to_string()),
    };
    assert_eq!(capture_webview_state(probe), Err("Failed to get window size: no size".to_string()));
    let state = capture_webview_state(found()).unwrap();
    assert_eq!(state.url, "http://localhost:1420/");
    assert_eq!(state.user_agent, "TauriWebView/2.0");
}

#[test]
fn missing_window_fails_the_composite_capture_before_the_store() {
    let store = Store::new(false);
    let use_case = CaptureDebugSnapshotUseCase::new(store.clone());
    match use_case.execute("/logs", WindowProbe::Missing, Ok(1), Vec::new(), None, None) {
        Err(UseCaseError::WindowNotFound(label)) => assert_eq!(label, "main"),
        other => panic!("{:?}", other),
    }
    let unreadable = WindowProbe::Found {
        url: Ok("u".to_string()),
        title: Ok("t".to_string()),
        size: Err("no size".to_string()),
    };
    match use_case.execute("/logs", unreadable, Ok(1), Vec::new(), None, None) {
        Err(UseCaseError::WindowProperty(detail)) => assert_eq!(detail, "Failed to get size: no size"),
        other => panic!("{:?}", other),
    }
    match use_case.execute("/logs", found(), Err("clock".to_string()), Vec::new(), None, None) {
        Err(UseCaseError::SystemTime(detail)) => assert_eq!(detail, "clock"),
        other => panic!("{:?}", other),
    }
    assert_eq!(store.called(), 0);
    let composed = CaptureDebugSnapshotUseCase::<Store>::compose(
        "/logs",
        found(),
        Ok(7),
        Vec::new(),
        None,
        None,
    )
    .unwrap();
    assert_eq!(composed.webview_state.user_agent, "TauriWebView/2.0");
    let kept = CaptureDebugSnapshotUseCase::<Store>::saved(composed, Ok("/p".to_string())).unwrap();
    assert_eq!(kept.timestamp, 7);
}
