//! The automatic capture: one snapshot of the user interface, the
//! console error tail and a screenshot, taken in a fixed order of steps.
//!
//! The library does none of the outside work. A capture is a state that
//! says what to do next; the caller does it and hands back what came of
//! it. The cooldown is asked first and fails the capture before any work
//! is done; the state of the user interface is mandatory; a screenshot
//! that cannot be taken is recorded with its reason and never fails the
//! capture.

use vstd::prelude::*;
use crate::console_log::{console_errors, error_messages, lines_of};
use crate::endpoint::{answer, Failure, Route};
use crate::models::{DebugSnapshotResult, WebViewState, WindowDescriptor};
use crate::rate_limiter::{law_call_after_capture_waits, RateLimiter};
use crate::response::Status;
use crate::text::{decimal_value, parse_u32};
use crate::window_selector::{selection_with_target, Criteria, WindowSelector};

verus! {

/// The reason recorded when there is no window to photograph.
pub const NO_WINDOW: &'static str = "no capturable window found";

/// Why a capture produced no snapshot.
#[derive(Debug)]
pub enum CaptureError {
    /// The cooldown refused it; so many whole seconds remain.
    RateLimited { wait_seconds: u64 },
    /// The state of the user interface could not be captured.
    WebviewState(String),
}

impl CaptureError {
    /// The failure that the endpoint answers with: a refusal by the
    /// cooldown stays one, anything else is a plain failure with its
    /// message.
    pub fn into_failure(self) -> (r: Failure)
        ensures
            r == match self {
                CaptureError::RateLimited { wait_seconds } => Failure::RateLimited { wait_seconds },
                CaptureError::WebviewState(reason) => Failure::Failed(reason),
            },
    {
        match self {
            CaptureError::RateLimited { wait_seconds } => Failure::RateLimited { wait_seconds },
            CaptureError::WebviewState(reason) => Failure::Failed(reason),
        }
    }
}

/// How the window to photograph is chosen.
#[derive(Debug)]
pub struct CaptureSettings {
    /// The names under which the application's windows are listed.
    pub app_identifiers: Vec<String>,
    /// The title of the window to prefer, if any.
    pub preferred_title: Option<String>,
    /// The id of a window to photograph whatever the rules say, if the
    /// caller has named one.
    pub target_window: Option<u32>,
}

/// The window that a caller has named, from the text in which it was
/// named: the id that the text denotes in decimal notation. A caller
/// that names none, or names one with a text that denotes no id, leaves
/// the choice to the rules.
pub open spec fn named_target(text: Option<&str>) -> Option<u32> {
    match text {
        Some(t) => match decimal_value(t@) {
            Some(n) => if n <= u32::MAX {
                Some(n as u32)
            } else {
                None
            },
            None => None,
        },
        None => None,
    }
}

/// The window that a caller has named, if any.
pub fn target_window_from(text: Option<&str>) -> (r: Option<u32>)
    ensures
        r == named_target(text),
{
    match text {
        Some(t) => parse_u32(t),
        None => None,
    }
}

impl CaptureSettings {
    /// The criteria that `selector` selects by under these settings.
    pub open spec fn criteria(self, selector: WindowSelector) -> Criteria {
        selector.criteria(self.app_identifiers.deep_view(), self.preferred_title.deep_view())
    }
}

/// A capture in progress: the step that is awaited, with what the
/// earlier steps have brought.
#[derive(Debug)]
pub enum Capture {
    AwaitingWebview,
    AwaitingConsoleLog { webview_state: WebViewState },
    AwaitingWindows { webview_state: WebViewState, console_errors: Vec<String> },
    AwaitingScreenshot { webview_state: WebViewState, console_errors: Vec<String>, window: u32 },
    AwaitingClock {
        webview_state: WebViewState,
        console_errors: Vec<String>,
        screenshot: Result<String, String>,
    },
    Finished,
}

/// What the caller of a capture is to do next.
#[derive(Debug)]
pub enum CaptureAction {
    /// Capture the state of the user interface.
    CaptureWebview,
    /// Read the whole console log; a log that does not exist is reported
    /// as such, not as a failure.
    ReadConsoleLog,
    /// List the windows that can be photographed.
    ListWindows,
    /// Photograph the window with this id.
    CaptureWindow(u32),
    /// Read the time, in seconds since the epoch.
    ReadClock,
    /// The capture has ended with this outcome.
    Finish(Result<DebugSnapshotResult, CaptureError>),
    /// The capture ended earlier; there is nothing to do.
    Nothing,
}

/// What the caller hands back.
#[derive(Debug)]
pub enum CaptureEvent {
    /// The state of the user interface, or why it could not be captured.
    Webview(Result<WebViewState, String>),
    /// The content of the console log; `None` where there is no log.
    ConsoleLog(Option<String>),
    /// The windows that can be photographed, or why they could not be
    /// listed.
    Windows(Result<Vec<WindowDescriptor>, String>),
    /// The path of the photograph, or why none was taken.
    Screenshot(Result<String, String>),
    /// The time, in seconds since the epoch.
    Clock(u64),
}

/// The console error tail of a log's content; empty where there is no
/// log.
pub open spec fn error_tail(content: Option<String>) -> Seq<Seq<char>> {
    match content {
        Some(text) => error_messages(lines_of(text@)),
        None => Seq::empty(),
    }
}

/// What a capture in `state` asks for while nothing is handed back.
pub open spec fn pending(state: Capture) -> CaptureAction {
    match state {
        Capture::AwaitingWebview => CaptureAction::CaptureWebview,
        Capture::AwaitingConsoleLog { .. } => CaptureAction::ReadConsoleLog,
        Capture::AwaitingWindows { .. } => CaptureAction::ListWindows,
        Capture::AwaitingScreenshot { window, .. } => CaptureAction::CaptureWindow(window),
        Capture::AwaitingClock { .. } => CaptureAction::ReadClock,
        Capture::Finished => CaptureAction::Nothing,
    }
}

/// `event` is the answer to what a capture in `state` asks for.
pub open spec fn answers(state: Capture, event: CaptureEvent) -> bool {
    match (state, event) {
        (Capture::AwaitingWebview, CaptureEvent::Webview(_)) => true,
        (Capture::AwaitingConsoleLog { .. }, CaptureEvent::ConsoleLog(_)) => true,
        (Capture::AwaitingWindows { .. }, CaptureEvent::Windows(_)) => true,
        (Capture::AwaitingScreenshot { .. }, CaptureEvent::Screenshot(_)) => true,
        (Capture::AwaitingClock { .. }, CaptureEvent::Clock(_)) => true,
        _ => false,
    }
}

/// The snapshot `result` is made of these parts.
pub open spec fn made_of(
    result: DebugSnapshotResult,
    webview_state: WebViewState,
    console_errors: Vec<String>,
    screenshot: Result<String, String>,
    timestamp: u64,
) -> bool {
    &&& result.wf()
    &&& result.webview_state == webview_state
    &&& result.console_errors == console_errors
    &&& result.timestamp == timestamp
    &&& match screenshot {
        Ok(path) => result.screenshot_path == Some(path),
        Err(reason) => result.screenshot_error == Some(reason),
    }
}

/// The step relation of a capture: handed `event` in `state`, the
/// capture goes to `next` and asks for `action`.
///
/// - The state of the user interface is mandatory: without it the capture
///   ends at once with the reason.
/// - The console log yields its error tail; a log that does not exist
///   yields an empty one.
/// - Windows that cannot be listed, a list from which none is selected,
///   and a photograph that fails each leave their reason in place of the
///   screenshot, and the capture goes on to read the clock.
/// - The clock's answer ends the capture with the snapshot.
/// - Anything that does not answer what was asked for changes nothing,
///   and the capture asks again.
pub open spec fn follows(
    state: Capture,
    event: CaptureEvent,
    selector: WindowSelector,
    settings: CaptureSettings,
    next: Capture,
    action: CaptureAction,
) -> bool {
    match (state, event) {
        (Capture::AwaitingWebview, CaptureEvent::Webview(Ok(webview_state))) => {
            &&& next == Capture::AwaitingConsoleLog { webview_state }
            &&& action == CaptureAction::ReadConsoleLog
        },
        (Capture::AwaitingWebview, CaptureEvent::Webview(Err(reason))) => {
            &&& next == Capture::Finished
            &&& action == CaptureAction::Finish(Err(CaptureError::WebviewState(reason)))
        },
        (Capture::AwaitingConsoleLog { webview_state }, CaptureEvent::ConsoleLog(content)) => {
            &&& next matches Capture::AwaitingWindows { webview_state: w, console_errors: e }
            &&& w == webview_state
            &&& e.deep_view() == error_tail(content)
            &&& action == CaptureAction::ListWindows
        },
        (
            Capture::AwaitingWindows { webview_state, console_errors },
            CaptureEvent::Windows(Err(reason)),
        ) => {
            &&& next == Capture::AwaitingClock {
                webview_state,
                console_errors,
                screenshot: Err(reason),
            }
            &&& action == CaptureAction::ReadClock
        },
        (
            Capture::AwaitingWindows { webview_state, console_errors },
            CaptureEvent::Windows(Ok(candidates)),
        ) => match selection_with_target(
            candidates@,
            settings.criteria(selector),
            settings.target_window,
        ) {
            Some(i) => {
                &&& 0 <= i < candidates.len()
                &&& next == Capture::AwaitingScreenshot {
                    webview_state,
                    console_errors,
                    window: candidates[i].id,
                }
                &&& action == CaptureAction::CaptureWindow(candidates[i].id)
            },
            None => {
                &&& next matches Capture::AwaitingClock {
                    webview_state: w,
                    console_errors: e,
                    screenshot: Err(reason),
                }
                &&& w == webview_state
                &&& e == console_errors
                &&& reason@ == NO_WINDOW@
                &&& action == CaptureAction::ReadClock
            },
        },
        (
            Capture::AwaitingScreenshot { webview_state, console_errors, window },
            CaptureEvent::Screenshot(screenshot),
        ) => {
            &&& next == Capture::AwaitingClock { webview_state, console_errors, screenshot }
            &&& action == CaptureAction::ReadClock
        },
        (
            Capture::AwaitingClock { webview_state, console_errors, screenshot },
            CaptureEvent::Clock(timestamp),
        ) => {
            &&& next == Capture::Finished
            &&& action matches CaptureAction::Finish(Ok(result))
            &&& made_of(result, webview_state, console_errors, screenshot, timestamp)
        },
        _ => next == state && action == pending(state),
    }
}

impl Capture {
    /// Begins a capture at the instant `now`: asks the cooldown, which
    /// records the instant where it lets the capture pass. A capture that
    /// is refused ends at once, with the time to wait and before any work
    /// is done; one that passes asks for the state of the user
    /// interface.
    pub fn begin(limiter: &mut RateLimiter, now: u64) -> (r: (Capture, CaptureAction))
        ensures
            *final(limiter) == old(limiter).after(now),
            match old(limiter).decision(now) {
                Ok(_) => r.0 == Capture::AwaitingWebview && r.1 == CaptureAction::CaptureWebview,
                Err(wait_seconds) => r.0 == Capture::Finished && r.1 == CaptureAction::Finish(
                    Err(CaptureError::RateLimited { wait_seconds }),
                ),
            },
    {
        match limiter.check_and_record(now) {
            Ok(_) => (Capture::AwaitingWebview, CaptureAction::CaptureWebview),
            Err(wait_seconds) => (
                Capture::Finished,
                CaptureAction::Finish(Err(CaptureError::RateLimited { wait_seconds })),
            ),
        }
    }

    /// What the capture asks for while nothing is handed back.
    pub fn pending_action(&self) -> (r: CaptureAction)
        ensures
            r == pending(*self),
    {
        match self {
            Capture::AwaitingWebview => CaptureAction::CaptureWebview,
            Capture::AwaitingConsoleLog { .. } => CaptureAction::ReadConsoleLog,
            Capture::AwaitingWindows { .. } => CaptureAction::ListWindows,
            Capture::AwaitingScreenshot { window, .. } => CaptureAction::CaptureWindow(*window),
            Capture::AwaitingClock { .. } => CaptureAction::ReadClock,
            Capture::Finished => CaptureAction::Nothing,
        }
    }

    /// Whether the capture has ended.
    pub fn is_finished(&self) -> (r: bool)
        ensures
            r == (*self is Finished),
    {
        match self {
            Capture::Finished => true,
            _ => false,
        }
    }

    /// Takes what the caller hands back and returns the capture's next
    /// state with what to do next.
    pub fn step(
        self,
        event: CaptureEvent,
        selector: &WindowSelector,
        settings: &CaptureSettings,
    ) -> (r: (Capture, CaptureAction))
        ensures
            follows(self, event, *selector, *settings, r.0, r.1),
    {
        match (self, event) {
            (Capture::AwaitingWebview, CaptureEvent::Webview(answer)) => match answer {
                Ok(webview_state) => (
                    Capture::AwaitingConsoleLog { webview_state },
                    CaptureAction::ReadConsoleLog,
                ),
                Err(reason) => (
                    Capture::Finished,
                    CaptureAction::Finish(Err(CaptureError::WebviewState(reason))),
                ),
            },
            (Capture::AwaitingConsoleLog { webview_state }, CaptureEvent::ConsoleLog(content)) => {
                let errors = match &content {
                    Some(text) => console_errors(text.as_str()),
                    None => Vec::new(),
                };
                assert(content is None ==> errors.deep_view() =~= Seq::empty());
                (
                    Capture::AwaitingWindows { webview_state, console_errors: errors },
                    CaptureAction::ListWindows,
                )
            },
            (
                Capture::AwaitingWindows { webview_state, console_errors },
                CaptureEvent::Windows(answer),
            ) => match answer {
                Err(reason) => (
                    Capture::AwaitingClock { webview_state, console_errors, screenshot: Err(reason) },
                    CaptureAction::ReadClock,
                ),
                Ok(candidates) => {
                    let preferred = match &settings.preferred_title {
                        Some(title) => Some(title.as_str()),
                        None => None,
                    };
                    match selector.select_with_target(
                        &candidates,
                        &settings.app_identifiers,
                        preferred,
                        settings.target_window,
                    ) {
                        Ok(window) => (
                            Capture::AwaitingScreenshot {
                                webview_state,
                                console_errors,
                                window: window.id,
                            },
                            CaptureAction::CaptureWindow(window.id),
                        ),
                        Err(_) => (
                            Capture::AwaitingClock {
                                webview_state,
                                console_errors,
                                screenshot: Err(String::from_str(NO_WINDOW)),
                            },
                            CaptureAction::ReadClock,
                        ),
                    }
                },
            },
            (
                Capture::AwaitingScreenshot { webview_state, console_errors, window },
                CaptureEvent::Screenshot(screenshot),
            ) => (
                Capture::AwaitingClock { webview_state, console_errors, screenshot },
                CaptureAction::ReadClock,
            ),
            (
                Capture::AwaitingClock { webview_state, console_errors, screenshot },
                CaptureEvent::Clock(timestamp),
            ) => {
                let result = DebugSnapshotResult::assemble(
                    webview_state,
                    console_errors,
                    screenshot,
                    timestamp,
                );
                (Capture::Finished, CaptureAction::Finish(Ok(result)))
            },
            (state, _) => {
                let action = state.pending_action();
                (state, action)
            },
        }
    }
}

/// Only two things fail a capture: the cooldown, before it begins, and
/// the state of the user interface. Once that state is captured, no
/// answer of the caller makes the capture end without a snapshot, and
/// the snapshot it ends with names either a screenshot or the reason why
/// there is none, never both and never neither.
pub proof fn law_screenshot_failure_is_not_fatal(
    state: Capture,
    event: CaptureEvent,
    selector: WindowSelector,
    settings: CaptureSettings,
    next: Capture,
    action: CaptureAction,
)
    requires
        follows(state, event, selector, settings, next, action),
        !(state is AwaitingWebview),
    ensures
        !(action matches CaptureAction::Finish(Err(_))),
        action matches CaptureAction::Finish(Ok(result)) ==> result.wf(),
{
}

/// Of two captures begun less than one cooldown apart, the first of
/// which was let pass, the second is refused before any work is done,
/// with at least one second to wait, and is answered as too many
/// requests.
pub proof fn law_second_trigger_is_refused(limiter: RateLimiter, first: u64, second: u64)
    requires
        limiter.admits(first),
        first <= second,
        second - first < limiter.cooldown_ms,
    ensures
        limiter.after(first).decision(second) matches Err(wait_seconds) && wait_seconds >= 1
            && answer(
            Route::AutoCaptureDebugSnapshot,
            Err(Failure::RateLimited { wait_seconds }),
        ).status == Status::TooManyRequests,
{
    law_call_after_capture_waits(limiter, first, second);
}

/// A capture moves forward on every answer to what it asked for, and on
/// nothing else: such an answer takes it to a later step or ends it, and
/// any other event leaves it where it was, asking again.
pub proof fn law_capture_steps_in_order(
    state: Capture,
    event: CaptureEvent,
    selector: WindowSelector,
    settings: CaptureSettings,
    next: Capture,
    action: CaptureAction,
)
    requires
        follows(state, event, selector, settings, next, action),
    ensures
        answers(state, event) ==> rank(next) > rank(state),
        !answers(state, event) ==> next == state && action == pending(state),
        next is Finished && !(state is Finished) ==> action is Finish,
{
}

/// The place of a step in the order of a capture.
pub open spec fn rank(state: Capture) -> int {
    match state {
        Capture::AwaitingWebview => 0,
        Capture::AwaitingConsoleLog { .. } => 1,
        Capture::AwaitingWindows { .. } => 2,
        Capture::AwaitingScreenshot { .. } => 3,
        Capture::AwaitingClock { .. } => 4,
        Capture::Finished => 5,
    }
}

} // verus!
