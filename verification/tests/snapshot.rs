use debug_tools::snapshot::target_window_from;
use debug_tools::endpoint::{respond, Failure, Payload, Route};
use debug_tools::models::{DebugSnapshotResult, ViewportInfo, WebViewState, WindowDescriptor};
use debug_tools::rate_limiter::RateLimiter;
use debug_tools::response::Status;
use debug_tools::snapshot::{
    Capture, CaptureAction, CaptureError, CaptureEvent, CaptureSettings, NO_WINDOW,
};
use debug_tools::window_selector::WindowSelector;

fn webview() -> WebViewState {
    WebViewState {
        url: "http://localhost:1420/".to_string(),
        title: "App".to_string(),
        user_agent: "TauriWebView/2.0".to_string(),
        viewport: ViewportInfo { width: 800, height: 600 },
    }
}

fn window(id: u32, app_name: &str, title: &str) -> WindowDescriptor {
    WindowDescriptor {
        id,
        name: format!("window {}", id),
        app_name: app_name.to_string(),
        title: title.to_string(),
    }
}

fn settings() -> CaptureSettings {
    CaptureSettings {
        app_identifiers: vec!["X".to_string()],
        preferred_title: Some("B".to_string()),
        target_window: None,
    }
}

fn selector() -> WindowSelector {
    WindowSelector::new(vec!["Dock".to_string()])
}

const LOG: &str = "{\"level\":\"info\",\"message\":\"i\"}\n{\"level\":\"error\",\"message\":\"boom\"}\nnot json\n";

fn run(events: Vec<CaptureEvent>, settings: &CaptureSettings) -> (Vec<&'static str>, CaptureAction) {
    let mut limiter = RateLimiter::new(1000);
    let (mut capture, mut action) = Capture::begin(&mut limiter, 10);
    let mut asked = vec![name(&action)];
    for event in events {
        let (next, then) = capture.step(event, &selector(), settings);
        capture = next;
        action = then;
        asked.push(name(&action));
    }
    (asked, action)
}

fn name(action: &CaptureAction) -> &'static str {
    match action {
        CaptureAction::CaptureWebview => "webview",
        CaptureAction::ReadConsoleLog => "console",
        CaptureAction::ListWindows => "windows",
        CaptureAction::CaptureWindow(_) => "photograph",
        CaptureAction::ReadClock => "clock",
        CaptureAction::Finish(_) => "finish",
        CaptureAction::Nothing => "nothing",
    }
}

fn finished(action: CaptureAction) -> Result<DebugSnapshotResult, CaptureError> {
    match action {
        CaptureAction::Finish(outcome) => outcome,
        other => panic!("not finished: {:?}", other),
    }
}

#[test]
fn capture_runs_its_steps_in_order() {
    let events = vec![
        CaptureEvent::Webview(Ok(webview())),
        CaptureEvent::ConsoleLog(Some(LOG.to_string())),
        CaptureEvent::Windows(Ok(vec![window(1, "X", "A"), window(2, "X", "B")])),
        CaptureEvent::Screenshot(Ok("/logs/screenshots/2.png".to_string())),
        CaptureEvent::Clock(1_700_000_000),
    ];
    let (asked, last) = run(events, &settings());
    assert_eq!(asked, vec!["webview", "console", "windows", "photograph", "clock", "finish"]);
    let result = match finished(last) {
        Ok(result) => result,
        Err(error) => panic!("{:?}", error),
    };
    assert_eq!(
        result,
        DebugSnapshotResult {
            screenshot_path: Some("/logs/screenshots/2.png".to_string()),
            screenshot_error: None,
            webview_state: webview(),
            console_errors: vec!["boom".to_string()],
            timestamp: 1_700_000_000,
        }
    );
    assert!(result.is_valid());
}

#[test]
fn selected_window_is_the_one_photographed() {
    let mut limiter = RateLimiter::new(1000);
    let (capture, _) = Capture::begin(&mut limiter, 0);
    let (capture, _) = capture.step(CaptureEvent::Webview(Ok(webview())), &selector(), &settings());
    let (capture, _) = capture.step(CaptureEvent::ConsoleLog(None), &selector(), &settings());
    let windows = vec![window(5, "Dock", ""), window(1, "X", "A"), window(2, "X", "B")];
    let (capture, action) =
        capture.step(CaptureEvent::Windows(Ok(windows.clone())), &selector(), &settings());
    assert!(matches!(action, CaptureAction::CaptureWindow(2)));
    assert!(matches!(capture, Capture::AwaitingScreenshot { window: 2, .. }));
    let forced = CaptureSettings { target_window: Some(5), ..settings() };
    let (again, _) = Capture::begin(&mut RateLimiter::new(0), 0);
    let (again, _) = again.step(CaptureEvent::Webview(Ok(webview())), &selector(), &forced);
    let (again, _) = again.step(CaptureEvent::ConsoleLog(None), &selector(), &forced);
    let (_, action) = again.step(CaptureEvent::Windows(Ok(windows)), &selector(), &forced);
    assert!(matches!(action, CaptureAction::CaptureWindow(5)));
}

#[test]
fn rate_limited_capture_ends_before_any_work() {
    let mut limiter = RateLimiter::new(1000);
    let (_, first) = Capture::begin(&mut limiter, 10);
    assert!(matches!(first, CaptureAction::CaptureWebview));
    let (capture, second) = Capture::begin(&mut limiter, 500);
    assert!(capture.is_finished());
    assert!(matches!(
        second,
        CaptureAction::Finish(Err(CaptureError::RateLimited { wait_seconds: 1 }))
    ));
    assert_eq!(limiter.last_capture, Some(10));
}

#[test]
fn missing_webview_state_fails_the_capture() {
    let (asked, last) =
        run(vec![CaptureEvent::Webview(Err("Main window not found".to_string()))], &settings());
    assert_eq!(asked, vec!["webview", "finish"]);
    match finished(last) {
        Err(CaptureError::WebviewState(reason)) => assert_eq!(reason, "Main window not found"),
        other => panic!("{:?}", other),
    }
}

#[test]
fn missing_console_log_yields_no_errors() {
    let events = vec![
        CaptureEvent::Webview(Ok(webview())),
        CaptureEvent::ConsoleLog(None),
        CaptureEvent::Windows(Ok(vec![window(1, "X", "B")])),
        CaptureEvent::Screenshot(Ok("/p.png".to_string())),
        CaptureEvent::Clock(5),
    ];
    let (_, last) = run(events, &settings());
    let result = finished(last).unwrap();
    assert!(result.console_errors.is_empty());
    assert_eq!(result.screenshot_path, Some("/p.png".to_string()));
    assert_eq!(result.timestamp, 5);
}

#[test]
fn windows_that_cannot_be_listed_leave_their_reason() {
    let events = vec![
        CaptureEvent::Webview(Ok(webview())),
        CaptureEvent::ConsoleLog(Some(LOG.to_string())),
        CaptureEvent::Windows(Err("provider unavailable".to_string())),
        CaptureEvent::Clock(9),
    ];
    let (asked, last) = run(events, &settings());
    assert_eq!(asked, vec!["webview", "console", "windows", "clock", "finish"]);
    let result = finished(last).unwrap();
    assert_eq!(result.screenshot_path, None);
    assert_eq!(result.screenshot_error, Some("provider unavailable".to_string()));
    assert_eq!(result.console_errors, vec!["boom".to_string()]);
    assert!(result.is_valid());
}

#[test]
fn empty_window_list_leaves_its_reason() {
    let events = vec![
        CaptureEvent::Webview(Ok(webview())),
        CaptureEvent::ConsoleLog(None),
        CaptureEvent::Windows(Ok(Vec::new())),
        CaptureEvent::Clock(9),
    ];
    let (asked, last) = run(events, &settings());
    assert_eq!(asked, vec!["webview", "console", "windows", "clock", "finish"]);
    let result = finished(last).unwrap();
    assert_eq!(result.screenshot_error, Some(NO_WINDOW.to_string()));
    assert_eq!(result.screenshot_path, None);
    assert_eq!(result.webview_state, webview());
}

#[test]
fn failed_photograph_leaves_its_reason() {
    let events = vec![
        CaptureEvent::Webview(Ok(webview())),
        CaptureEvent::ConsoleLog(None),
        CaptureEvent::Windows(Ok(vec![window(1, "X", "B")])),
        CaptureEvent::Screenshot(Err("capture failed".to_string())),
        CaptureEvent::Clock(9),
    ];
    let (_, last) = run(events, &settings());
    let result = finished(last).unwrap();
    assert_eq!(result.screenshot_error, Some("capture failed".to_string()));
    assert_eq!(result.screenshot_path, None);
    assert!(result.is_valid());
}

#[test]
fn events_out_of_turn_change_nothing() {
    let events = vec![
        CaptureEvent::Clock(1),
        CaptureEvent::ConsoleLog(None),
        CaptureEvent::Webview(Ok(webview())),
        CaptureEvent::Webview(Ok(webview())),
        CaptureEvent::Screenshot(Ok("/p.png".to_string())),
    ];
    let (asked, _) = run(events, &settings());
    assert_eq!(asked, vec!["webview", "webview", "webview", "console", "console", "console"]);
}

#[test]
fn finished_capture_asks_for_nothing() {
    let events = vec![
        CaptureEvent::Webview(Err("gone".to_string())),
        CaptureEvent::Clock(1),
        CaptureEvent::Webview(Ok(webview())),
    ];
    let (asked, _) = run(events, &settings());
    assert_eq!(asked, vec!["webview", "finish", "nothing", "nothing"]);
}

#[test]
fn pending_action_names_the_open_request() {
    assert!(matches!(Capture::AwaitingWebview.pending_action(), CaptureAction::CaptureWebview));
    let waiting = Capture::AwaitingScreenshot {
        webview_state: webview(),
        console_errors: Vec::new(),
        window: 11,
    };
    assert!(matches!(waiting.pending_action(), CaptureAction::CaptureWindow(11)));
    assert!(!waiting.is_finished());
    assert!(matches!(Capture::Finished.pending_action(), CaptureAction::Nothing));
}

#[test]
fn two_rapid_triggers_give_a_snapshot_and_then_too_many_requests() {
    let mut limiter = RateLimiter::new(1000);
    let mut answers = Vec::new();
    for now in [2_000u64, 2_300] {
        let (mut capture, mut action) = Capture::begin(&mut limiter, now);
        let mut events = vec![
            CaptureEvent::Clock(1_700_000_000),
            CaptureEvent::Screenshot(Ok("/logs/screenshots/1.png".to_string())),
            CaptureEvent::Windows(Ok(vec![window(1, "X", "B")])),
            CaptureEvent::ConsoleLog(Some(LOG.to_string())),
            CaptureEvent::Webview(Ok(webview())),
        ];
        let outcome = loop {
            if let CaptureAction::Finish(outcome) = action {
                break outcome;
            }
            let event = events.pop().unwrap();
            let (next, then) = capture.step(event, &selector(), &settings());
            capture = next;
            action = then;
        };
        let handled = match outcome {
            Ok(result) => {
                assert!(result.is_valid());
                Ok(Payload::Json("{\"timestamp\":1700000000}".to_string()))
            }
            Err(error) => Err(error.into_failure()),
        };
        answers.push(respond(Route::AutoCaptureDebugSnapshot, &handled));
    }
    assert_eq!(answers[0].status, Status::Success);
    assert_eq!(answers[0].body, "{\"ok\":true,\"snapshot\":{\"timestamp\":1700000000}}");
    assert_eq!(answers[1].status, Status::TooManyRequests);
    assert_eq!(answers[1].status.code(), 429);
    assert_eq!(answers[1].body, "{\"ok\":false,\"error\":\"rate limited: retry in 1 s\"}");
    assert!(answers[1].render().starts_with("HTTP/1.1 429 Too Many Requests\r\n"));
}

#[test]
fn capture_errors_become_failures_of_the_endpoint() {
    assert!(matches!(
        CaptureError::RateLimited { wait_seconds: 3 }.into_failure(),
        Failure::RateLimited { wait_seconds: 3 }
    ));
    match CaptureError::WebviewState("no window".to_string()).into_failure() {
        Failure::Failed(message) => assert_eq!(message, "no window"),
        other => panic!("{:?}", other),
    }
}

#[test]
fn named_target_is_read_from_decimal_text() {
    assert_eq!(target_window_from(Some("4711")), Some(4711));
    assert_eq!(target_window_from(Some("0")), Some(0));
    assert_eq!(target_window_from(Some("")), None);
    assert_eq!(target_window_from(Some("window")), None);
    assert_eq!(target_window_from(Some("4294967296")), None);
    assert_eq!(target_window_from(None), None);
}
