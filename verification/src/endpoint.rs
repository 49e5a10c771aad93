//! The routes of the trigger endpoint: which action a request asks for,
//! which requests are answered at once, and the answer that the outcome
//! of an action becomes.

use vstd::prelude::*;
use crate::json::{json_literal, quoted};
use crate::request::{first_value, Request, RequestView};
use crate::response::{
    failure_view,
    json_array,
    ok_body,
    plain_ok_body,
    string_array,
    unserializable_view,
    Response,
    ResponseView,
    Status,
};
use crate::text::{decimal, push_decimal, str_eq};

verus! {

/// The one method that the endpoint serves.
pub const ALLOWED_METHOD: &'static str = "GET";

/// The routes of the endpoint.
#[derive(Debug, Clone, Copy, PartialEq, Eq, Structural)]
pub enum Route {
    Health,
    CaptureWebviewState,
    ScreenshotableWindows,
    CaptureScreenshot,
    AutoCaptureDebugSnapshot,
    ConsoleErrors,
    ResetDebugLogs,
    WriteDebugSnapshot,
    SendDebugCommand,
}

impl Route {
    /// The path of the route.
    pub open spec fn path_of(self) -> Seq<char> {
        match self {
            Route::Health => "/health"@,
            Route::CaptureWebviewState => "/capture_webview_state"@,
            Route::ScreenshotableWindows => "/screenshotable_windows"@,
            Route::CaptureScreenshot => "/capture_screenshot"@,
            Route::AutoCaptureDebugSnapshot => "/auto_capture_debug_snapshot"@,
            Route::ConsoleErrors => "/console_errors"@,
            Route::ResetDebugLogs => "/reset_debug_logs"@,
            Route::WriteDebugSnapshot => "/write_debug_snapshot"@,
            Route::SendDebugCommand => "/send_debug_command"@,
        }
    }

    /// The member of the body under which a success of the route carries
    /// its payload; `None` for the route whose success carries none.
    pub open spec fn field_of(self) -> Option<Seq<char>> {
        match self {
            Route::Health => None,
            Route::CaptureWebviewState => Some("state"@),
            Route::ScreenshotableWindows => Some("windows"@),
            Route::CaptureScreenshot => Some("message"@),
            Route::AutoCaptureDebugSnapshot => Some("snapshot"@),
            Route::ConsoleErrors => Some("errors"@),
            Route::ResetDebugLogs => Some("path"@),
            Route::WriteDebugSnapshot => Some("path"@),
            Route::SendDebugCommand => Some("message"@),
        }
    }

    /// The path of the route.
    pub fn path(&self) -> (r: &'static str)
        ensures
            r@ == self.path_of(),
    {
        match self {
            Route::Health => "/health",
            Route::CaptureWebviewState => "/capture_webview_state",
            Route::ScreenshotableWindows => "/screenshotable_windows",
            Route::CaptureScreenshot => "/capture_screenshot",
            Route::AutoCaptureDebugSnapshot => "/auto_capture_debug_snapshot",
            Route::ConsoleErrors => "/console_errors",
            Route::ResetDebugLogs => "/reset_debug_logs",
            Route::WriteDebugSnapshot => "/write_debug_snapshot",
            Route::SendDebugCommand => "/send_debug_command",
        }
    }

    /// The member of the body under which a success carries its payload.
    pub fn field(&self) -> (r: Option<&'static str>)
        ensures
            match r {
                Some(f) => self.field_of() == Some(f@),
                None => self.field_of() is None,
            },
    {
        match self {
            Route::Health => None,
            Route::CaptureWebviewState => Some("state"),
            Route::ScreenshotableWindows => Some("windows"),
            Route::CaptureScreenshot => Some("message"),
            Route::AutoCaptureDebugSnapshot => Some("snapshot"),
            Route::ConsoleErrors => Some("errors"),
            Route::ResetDebugLogs => Some("path"),
            Route::WriteDebugSnapshot => Some("path"),
            Route::SendDebugCommand => Some("message"),
        }
    }
}

/// The route with the given path, if there is one. Paths are compared
/// character by character: there are no patterns and no prefixes.
pub open spec fn route_for(path: Seq<char>) -> Option<Route> {
    if path == Route::Health.path_of() {
        Some(Route::Health)
    } else if path == Route::CaptureWebviewState.path_of() {
        Some(Route::CaptureWebviewState)
    } else if path == Route::ScreenshotableWindows.path_of() {
        Some(Route::ScreenshotableWindows)
    } else if path == Route::CaptureScreenshot.path_of() {
        Some(Route::CaptureScreenshot)
    } else if path == Route::AutoCaptureDebugSnapshot.path_of() {
        Some(Route::AutoCaptureDebugSnapshot)
    } else if path == Route::ConsoleErrors.path_of() {
        Some(Route::ConsoleErrors)
    } else if path == Route::ResetDebugLogs.path_of() {
        Some(Route::ResetDebugLogs)
    } else if path == Route::WriteDebugSnapshot.path_of() {
        Some(Route::WriteDebugSnapshot)
    } else if path == Route::SendDebugCommand.path_of() {
        Some(Route::SendDebugCommand)
    } else {
        None
    }
}

/// The route with the given path, if there is one.
pub fn find_route(path: &str) -> (r: Option<Route>)
    ensures
        r == route_for(path@),
{
    if str_eq(path, Route::Health.path()) {
        Some(Route::Health)
    } else if str_eq(path, Route::CaptureWebviewState.path()) {
        Some(Route::CaptureWebviewState)
    } else if str_eq(path, Route::ScreenshotableWindows.path()) {
        Some(Route::ScreenshotableWindows)
    } else if str_eq(path, Route::CaptureScreenshot.path()) {
        Some(Route::CaptureScreenshot)
    } else if str_eq(path, Route::AutoCaptureDebugSnapshot.path()) {
        Some(Route::AutoCaptureDebugSnapshot)
    } else if str_eq(path, Route::ConsoleErrors.path()) {
        Some(Route::ConsoleErrors)
    } else if str_eq(path, Route::ResetDebugLogs.path()) {
        Some(Route::ResetDebugLogs)
    } else if str_eq(path, Route::WriteDebugSnapshot.path()) {
        Some(Route::WriteDebugSnapshot)
    } else if str_eq(path, Route::SendDebugCommand.path()) {
        Some(Route::SendDebugCommand)
    } else {
        None
    }
}

/// Every route is found by its own path: no two routes share one.
pub proof fn law_route_found_by_its_path(route: Route)
    ensures
        route_for(route.path_of()) == Some(route),
{
    reveal_strlit("/health");
    reveal_strlit("/capture_webview_state");
    reveal_strlit("/screenshotable_windows");
    reveal_strlit("/capture_screenshot");
    reveal_strlit("/auto_capture_debug_snapshot");
    reveal_strlit("/console_errors");
    reveal_strlit("/reset_debug_logs");
    reveal_strlit("/write_debug_snapshot");
    reveal_strlit("/send_debug_command");
    assert("/health"@.len() == 7);
    assert("/capture_webview_state"@.len() == 22);
    assert("/screenshotable_windows"@.len() == 23);
    assert("/capture_screenshot"@.len() == 19);
    assert("/auto_capture_debug_snapshot"@.len() == 28);
    assert("/console_errors"@.len() == 15);
    assert("/reset_debug_logs"@.len() == 17);
    assert("/write_debug_snapshot"@.len() == 21);
    assert("/send_debug_command"@.len() == 19);
    assert("/capture_screenshot"@[1] == 'c');
    assert("/send_debug_command"@[1] == 's');
}

/// What the endpoint does with a request, over character sequences.
pub enum DispatchView {
    /// It answers at once.
    Reply(ResponseView),
    /// It has the action of `route` carried out; `command` is the value
    /// of the query parameter of that name where the route takes one.
    Perform { route: Route, command: Option<Seq<char>> },
}

/// What the endpoint does with a request.
#[derive(Debug)]
pub enum Dispatch {
    /// It answers at once.
    Reply(Response),
    /// It has the action of `route` carried out; `command` is the value
    /// of the query parameter of that name where the route takes one.
    Perform { route: Route, command: Option<String> },
}

impl View for Dispatch {
    type V = DispatchView;

    open spec fn view(&self) -> DispatchView {
        match self {
            Dispatch::Reply(response) => DispatchView::Reply(response@),
            Dispatch::Perform { route, command } => DispatchView::Perform {
                route: *route,
                command: command.deep_view(),
            },
        }
    }
}

/// The answer to a request with another method than the one served.
pub open spec fn method_not_allowed() -> ResponseView {
    ResponseView {
        status: Status::MethodNotAllowed,
        body: "{\"ok\":false,\"error\":\"method not allowed\"}"@,
    }
}

/// The answer to a request for a path that is no route.
pub open spec fn not_found() -> ResponseView {
    ResponseView { status: Status::NotFound, body: "{\"ok\":false,\"error\":\"not found\"}"@ }
}

/// The answer to a command request without the `command` parameter.
pub open spec fn missing_command() -> ResponseView {
    ResponseView {
        status: Status::BadRequest,
        body: "{\"ok\":false,\"error\":\"missing query parameter: command\"}"@,
    }
}

/// What the endpoint does with `request`. The method is looked at first,
/// then the route, then the parameters that the route requires. The
/// health route is answered at once; every other route has its action
/// carried out.
pub open spec fn dispatch_of(request: RequestView) -> DispatchView {
    if request.method != ALLOWED_METHOD@ {
        DispatchView::Reply(method_not_allowed())
    } else {
        match route_for(request.route) {
            None => DispatchView::Reply(not_found()),
            Some(Route::Health) => DispatchView::Reply(
                ResponseView { status: Status::Success, body: plain_ok_body() },
            ),
            Some(Route::SendDebugCommand) => match first_value(request.query, "command"@, 0) {
                Some(command) => DispatchView::Perform {
                    route: Route::SendDebugCommand,
                    command: Some(command),
                },
                None => DispatchView::Reply(missing_command()),
            },
            Some(route) => DispatchView::Perform { route, command: None },
        }
    }
}

/// What the endpoint does with `request`.
pub fn dispatch(request: &Request) -> (r: Dispatch)
    ensures
        r@ == dispatch_of(request@),
{
    if !str_eq(request.method.as_str(), ALLOWED_METHOD) {
        return Dispatch::Reply(
            Response {
                status: Status::MethodNotAllowed,
                body: String::from_str("{\"ok\":false,\"error\":\"method not allowed\"}"),
            },
        );
    }
    match find_route(request.route.as_str()) {
        None => Dispatch::Reply(
            Response {
                status: Status::NotFound,
                body: String::from_str("{\"ok\":false,\"error\":\"not found\"}"),
            },
        ),
        Some(Route::Health) => Dispatch::Reply(Response::plain_ok()),
        Some(Route::SendDebugCommand) => match request.query_value("command") {
            Some(command) => Dispatch::Perform {
                route: Route::SendDebugCommand,
                command: Some(command),
            },
            None => Dispatch::Reply(
                Response {
                    status: Status::BadRequest,
                    body: String::from_str(
                        "{\"ok\":false,\"error\":\"missing query parameter: command\"}",
                    ),
                },
            ),
        },
        Some(route) => Dispatch::Perform { route, command: None },
    }
}

/// Why an action did not succeed.
#[derive(Debug)]
pub enum Failure {
    /// The cooldown refused the capture; so many whole seconds remain.
    RateLimited { wait_seconds: u64 },
    /// Anything else, with its message.
    Failed(String),
}

impl Failure {
    /// The status that the failure is answered with: the cooldown has a
    /// status of its own, every other failure shares one.
    pub open spec fn status_of(self) -> Status {
        match self {
            Failure::RateLimited { .. } => Status::TooManyRequests,
            Failure::Failed(_) => Status::InternalError,
        }
    }

    /// The message of the failure.
    pub open spec fn message_of(self) -> Seq<char> {
        match self {
            Failure::RateLimited { wait_seconds } => "rate limited: retry in "@ + decimal(
                wait_seconds as nat,
            ) + " s"@,
            Failure::Failed(message) => message@,
        }
    }

    /// The status that the failure is answered with.
    pub fn status(&self) -> (r: Status)
        ensures
            r == self.status_of(),
    {
        match self {
            Failure::RateLimited { .. } => Status::TooManyRequests,
            Failure::Failed(_) => Status::InternalError,
        }
    }

    /// The message of the failure.
    pub fn message(&self) -> (r: String)
        ensures
            r@ == self.message_of(),
    {
        match self {
            Failure::RateLimited { wait_seconds } => {
                let mut out = String::from_str("rate limited: retry in ");
                push_decimal(&mut out, *wait_seconds);
                out.append(" s");
                out
            },
            Failure::Failed(message) => message.clone(),
        }
    }
}

/// What a successful action hands back for the body.
#[derive(Debug)]
pub enum Payload {
    /// Nothing.
    Nothing,
    /// A text, such as a message or a path.
    Text(String),
    /// A value that is JSON text already.
    Json(String),
    /// A list of texts.
    List(Vec<String>),
}

impl Payload {
    /// The payload as JSON text: `null` for nothing, the string literal
    /// of a text, JSON text as it is, the array of a list; `None` where
    /// the codec gives no literal for a text or for an item of a list.
    pub open spec fn json_of(self) -> Option<Seq<char>> {
        match self {
            Payload::Nothing => Some("null"@),
            Payload::Text(text) => json_literal(text@),
            Payload::Json(json) => Some(json@),
            Payload::List(items) => string_array(items.deep_view()),
        }
    }

    /// The payload as JSON text; `None` exactly where the codec fails on
    /// a text that it has to quote.
    pub fn to_json(&self) -> (r: Option<String>)
        ensures
            r.deep_view() == self.json_of(),
    {
        match self {
            Payload::Nothing => Some(String::from_str("null")),
            Payload::Text(text) => quoted(text.as_str()),
            Payload::Json(json) => Some(json.clone()),
            Payload::List(items) => json_array(items),
        }
    }
}

/// The answer to a success of `route` whose payload is the JSON text
/// `payload`.
pub open spec fn success_answer(route: Route, payload: Seq<char>) -> ResponseView {
    ResponseView {
        status: Status::Success,
        body: match route.field_of() {
            Some(field) => ok_body(field, payload),
            None => plain_ok_body(),
        },
    }
}

/// The answer to a success of `route` from its payload as JSON text, or
/// from the lack of one where the codec failed.
pub open spec fn success_view(route: Route, payload: Option<Seq<char>>) -> ResponseView {
    match payload {
        Some(json) => success_answer(route, json),
        None => unserializable_view(),
    }
}

/// The answer to a failure: its status, and its message as the `error`
/// member of the body. The status is the failure's own whatever the
/// codec makes of the message.
pub open spec fn failure_answer(failure: Failure) -> ResponseView {
    failure_view(failure.status_of(), json_literal(failure.message_of()))
}

/// The answer that the outcome of the action of `route` becomes: a
/// success carries its payload under the member that belongs to the
/// route; a refusal by the cooldown is answered as too many requests,
/// any other failure as an internal error, each with its message.
pub open spec fn answer(route: Route, outcome: Result<Payload, Failure>) -> ResponseView {
    match outcome {
        Ok(payload) => success_view(route, payload.json_of()),
        Err(failure) => failure_answer(failure),
    }
}

/// The answer to a success of `route`, from the payload as the codec
/// rendered it; where the codec failed, the answer that says so.
pub fn success_from(route: Route, payload: Option<String>) -> (r: Response)
    ensures
        r@ == success_view(route, payload.deep_view()),
{
    match payload {
        Some(json) => match route.field() {
            Some(field) => Response::ok_with(field, json.as_str()),
            None => Response::plain_ok(),
        },
        None => Response::unserializable(),
    }
}

/// The answer that the outcome of the action of `route` becomes.
pub fn respond(route: Route, outcome: &Result<Payload, Failure>) -> (r: Response)
    ensures
        r@ == answer(route, *outcome),
        outcome matches Err(failure) ==> r.status == failure.status_of(),
{
    match outcome {
        Ok(payload) => success_from(route, payload.to_json()),
        Err(failure) => {
            let message = failure.message();
            Response::failure(failure.status(), message.as_str())
        },
    }
}

/// A refusal by the cooldown is answered as too many requests, whatever
/// the route and however long the wait.
pub proof fn law_rate_limit_is_too_many_requests(route: Route, wait_seconds: u64)
    ensures
        answer(route, Err(Failure::RateLimited { wait_seconds })).status
            == Status::TooManyRequests,
{
}

} // verus!
