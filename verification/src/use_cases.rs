//! The use cases of the command layer: capturing the state of the user
//! interface, storing a document, appending console records and
//! composing a full snapshot. Each takes what its caller has read from
//! the window and the clock, decides, and stores through the port.

use std::sync::Arc;
use vstd::prelude::*;
use crate::config::{path_decision, validate_capture_path, PathRejection};
use crate::models::{
    ConsoleLogEntry,
    DebugSnapshot,
    DomSnapshotResult,
    DomState,
    ViewportInfo,
    WebViewState,
};
use crate::ports::{RepositoryError, SnapshotRepository};

verus! {

/// Label of the window whose state is captured.
pub const MAIN_WINDOW: &'static str = "main";

/// The user agent reported for the embedded web view.
pub const USER_AGENT: &'static str = "TauriWebView/2.0";

/// Failure of a use case.
#[derive(Debug)]
pub enum UseCaseError {
    WindowNotFound(String),
    WindowProperty(String),
    Repository(RepositoryError),
    SystemTime(String),
    InvalidPath(PathRejection),
}

impl UseCaseError {
    /// The fixed beginning of the error's text.
    pub open spec fn beginning_of(self) -> Seq<char> {
        match self {
            UseCaseError::WindowNotFound(_) => "Window not found: "@,
            UseCaseError::WindowProperty(_) => "Failed to get window property: "@,
            UseCaseError::Repository(_) => "Repository error: "@,
            UseCaseError::SystemTime(_) => "System time error: "@,
            UseCaseError::InvalidPath(_) => "Invalid path: "@,
        }
    }

    /// The detail of the error where the library knows it: the text it
    /// carries, the text of the rejection, or the text of the store's
    /// error. `None` for a failure of the store that comes from the
    /// operating system or from the codec.
    pub open spec fn detail_of(self) -> Option<Seq<char>> {
        match self {
            UseCaseError::WindowNotFound(detail) => Some(detail@),
            UseCaseError::WindowProperty(detail) => Some(detail@),
            UseCaseError::Repository(error) => error.message_of(),
            UseCaseError::SystemTime(detail) => Some(detail@),
            UseCaseError::InvalidPath(rejection) => Some(rejection.text_of()),
        }
    }

    /// The text of the error: its beginning, then the detail.
    pub fn to_string(&self) -> (r: String)
        ensures
            self.beginning_of().is_prefix_of(r@),
            self.detail_of() matches Some(detail) ==> r@ == self.beginning_of() + detail,
    {
        let mut out;
        match self {
            UseCaseError::WindowNotFound(detail) => {
                out = String::from_str("Window not found: ");
                out.append(detail.as_str());
            },
            UseCaseError::WindowProperty(detail) => {
                out = String::from_str("Failed to get window property: ");
                out.append(detail.as_str());
            },
            UseCaseError::Repository(error) => {
                out = String::from_str("Repository error: ");
                let detail = error.to_string();
                out.append(detail.as_str());
            },
            UseCaseError::SystemTime(detail) => {
                out = String::from_str("System time error: ");
                out.append(detail.as_str());
            },
            UseCaseError::InvalidPath(rejection) => {
                out = String::from_str("Invalid path: ");
                let detail = rejection.to_string();
                out.append(detail.as_str());
            },
        }
        assert(out@.subrange(0, self.beginning_of().len() as int) =~= self.beginning_of());
        out
    }
}

impl From<RepositoryError> for UseCaseError {
    fn from(error: RepositoryError) -> (r: Self) {
        UseCaseError::Repository(error)
    }
}

impl vstd::std_specs::convert::FromSpecImpl<RepositoryError> for UseCaseError {
    open spec fn obeys_from_spec() -> bool {
        true
    }

    open spec fn from_spec(error: RepositoryError) -> Self {
        UseCaseError::Repository(error)
    }
}

/// What the user interface answered when asked for its main window and
/// the window's properties. A property that could not be read carries
/// the reason.
#[derive(Debug)]
pub enum WindowProbe {
    /// There is no main window.
    Missing,
    /// The main window, with each property as it could be read.
    Found { url: Result<String, String>, title: Result<String, String>, size: Result<
        ViewportInfo,
        String,
    > },
}

/// What the store returned, as the outcome of the use case that asked.
pub fn stored<T>(outcome: Result<T, RepositoryError>) -> (r: Result<T, UseCaseError>)
    ensures
        r == match outcome {
            Ok(value) => Ok::<T, UseCaseError>(value),
            Err(error) => Err(UseCaseError::Repository(error)),
        },
{
    match outcome {
        Ok(value) => Ok(value),
        Err(error) => Err(UseCaseError::Repository(error)),
    }
}

/// The time of a capture in whole seconds since the epoch, from what the
/// clock returned: the seconds, or the reason why the clock could not be
/// read.
pub fn capture_time(clock: Result<u64, String>) -> (r: Result<i64, UseCaseError>)
    ensures
        r == match clock {
            Ok(seconds) => Ok::<i64, UseCaseError>(seconds as i64),
            Err(reason) => Err(UseCaseError::SystemTime(reason)),
        },
{
    match clock {
        Ok(seconds) => Ok(#[verifier::truncate] (seconds as i64)),
        Err(reason) => Err(UseCaseError::SystemTime(reason)),
    }
}

/// The window answered with every property.
pub open spec fn answered_in_full(probe: WindowProbe) -> bool {
    probe matches WindowProbe::Found { url: Ok(_), title: Ok(_), size: Ok(_) }
}

/// `error` is the error that a capture of the user interface's state
/// ends with on `probe`: a missing window is reported by its label; of
/// the properties that could not be read the first one, of address,
/// title and size in this order, is reported with its reason.
pub open spec fn probe_error(probe: WindowProbe, error: UseCaseError) -> bool {
    match probe {
        WindowProbe::Missing => error matches UseCaseError::WindowNotFound(label) && label@
            == MAIN_WINDOW@,
        WindowProbe::Found { url: Err(reason), .. } => error == UseCaseError::WindowProperty(
            reason,
        ),
        WindowProbe::Found { url: Ok(_), title: Err(reason), .. } => error
            == UseCaseError::WindowProperty(reason),
        WindowProbe::Found {
            url: Ok(_),
            title: Ok(_),
            size: Err(reason),
        } => error matches UseCaseError::WindowProperty(detail) && detail@
            == "Failed to get size: "@ + reason@,
        WindowProbe::Found { url: Ok(_), title: Ok(_), size: Ok(_) } => false,
    }
}

/// `state` is the state of the user interface that `probe` holds.
pub open spec fn probed_state(probe: WindowProbe, state: WebViewState) -> bool {
    &&& probe matches WindowProbe::Found { url: Ok(url), title: Ok(title), size: Ok(viewport) }
    &&& state.url == url
    &&& state.title == title
    &&& state.user_agent@ == USER_AGENT@
    &&& state.viewport == viewport
}

/// The text with which the command layer reports a capture of the user
/// interface's state that failed on `probe`.
pub open spec fn probe_failure_text(probe: WindowProbe) -> Seq<char> {
    match probe {
        WindowProbe::Missing => "Main window not found"@,
        WindowProbe::Found { url: Err(reason), .. } => reason@,
        WindowProbe::Found { url: Ok(_), title: Err(reason), .. } => reason@,
        WindowProbe::Found { url: Ok(_), title: Ok(_), size: Err(reason) } =>
            "Failed to get window size: "@ + reason@,
        WindowProbe::Found { url: Ok(_), title: Ok(_), size: Ok(_) } => Seq::empty(),
    }
}

/// The command that captures the state of the user interface, from what
/// the main window answered: the state, or the text of the first thing
/// that went wrong.
pub fn capture_webview_state(probe: WindowProbe) -> (r: Result<WebViewState, String>)
    ensures
        match r {
            Ok(state) => probed_state(probe, state),
            Err(text) => !answered_in_full(probe) && text@ == probe_failure_text(probe),
        },
{
    match probe {
        WindowProbe::Missing => Err(String::from_str("Main window not found")),
        WindowProbe::Found { url, title, size } => {
            let url = match url {
                Ok(url) => url,
                Err(reason) => {
                    return Err(reason);
                },
            };
            let title = match title {
                Ok(title) => title,
                Err(reason) => {
                    return Err(reason);
                },
            };
            let viewport = match size {
                Ok(viewport) => viewport,
                Err(reason) => {
                    let mut text = String::from_str("Failed to get window size: ");
                    text.append(reason.as_str());
                    return Err(text);
                },
            };
            Ok(WebViewState { url, title, user_agent: String::from_str(USER_AGENT), viewport })
        },
    }
}

/// Captures the state of the user interface.
pub struct CaptureWebViewStateUseCase;

impl CaptureWebViewStateUseCase {
    /// The state of the user interface from what the main window
    /// answered. The state is mandatory: a missing window fails the
    /// capture, and so does the first property, of address, title and
    /// size in this order, that could not be read.
    pub fn execute(probe: WindowProbe) -> (r: Result<WebViewState, UseCaseError>)
        ensures
            match r {
                Ok(state) => probed_state(probe, state),
                Err(error) => probe_error(probe, error),
            },
    {
        match probe {
            WindowProbe::Missing => Err(
                UseCaseError::WindowNotFound(String::from_str(MAIN_WINDOW)),
            ),
            WindowProbe::Found { url, title, size } => {
                let url = match url {
                    Ok(url) => url,
                    Err(reason) => {
                        return Err(UseCaseError::WindowProperty(reason));
                    },
                };
                let title = match title {
                    Ok(title) => title,
                    Err(reason) => {
                        return Err(UseCaseError::WindowProperty(reason));
                    },
                };
                let viewport = match size {
                    Ok(viewport) => viewport,
                    Err(reason) => {
                        let mut detail = String::from_str("Failed to get size: ");
                        detail.append(reason.as_str());
                        return Err(UseCaseError::WindowProperty(detail));
                    },
                };
                Ok(WebViewState { url, title, user_agent: String::from_str(USER_AGENT), viewport })
            },
        }
    }
}

/// Stores a captured document.
pub struct SaveDomSnapshotUseCase<R: SnapshotRepository> {
    repository: Arc<R>,
}

impl<R: SnapshotRepository> SaveDomSnapshotUseCase<R> {
    /// The store that the use case stores through.
    pub closed spec fn repository(self) -> Arc<R> {
        self.repository
    }

    /// The use case over the given store.
    pub fn new(repository: Arc<R>) -> (r: Self)
        ensures
            r.repository() == repository,
    {
        SaveDomSnapshotUseCase { repository }
    }

    /// The captured document that is handed to the store.
    pub fn dom_state(
        html: String,
        url: String,
        title: String,
        viewport_width: u32,
        viewport_height: u32,
        timestamp: i64,
    ) -> (r: DomState)
        ensures
            r == (DomState {
                html,
                url,
                title,
                viewport: ViewportInfo { width: viewport_width, height: viewport_height },
                captured_at: timestamp,
            }),
    {
        DomState {
            html,
            url,
            title,
            viewport: ViewportInfo { width: viewport_width, height: viewport_height },
            captured_at: timestamp,
        }
    }

    /// Stamps the document with the time of capture and stores it. Fails
    /// without storing where the clock could not be read; otherwise the
    /// outcome is the store's.
    pub fn execute(
        &self,
        html: String,
        url: String,
        title: String,
        viewport_width: u32,
        viewport_height: u32,
        clock: Result<u64, String>,
    ) -> (r: Result<DomSnapshotResult, UseCaseError>)
        ensures
            clock matches Err(reason) ==> r == Err::<DomSnapshotResult, UseCaseError>(
                UseCaseError::SystemTime(reason),
            ),
            clock is Ok ==> (r matches Err(error) ==> error is Repository),
    {
        let timestamp = match capture_time(clock) {
            Ok(timestamp) => timestamp,
            Err(error) => {
                return Err(error);
            },
        };
        let dom = Self::dom_state(html, url, title, viewport_width, viewport_height, timestamp);
        stored(self.repository.save_dom(&dom, timestamp))
    }
}

/// Appends console records to the console log.
pub struct AppendConsoleLogsUseCase<R: SnapshotRepository> {
    repository: Arc<R>,
}

impl<R: SnapshotRepository> AppendConsoleLogsUseCase<R> {
    /// The store that the use case stores through.
    pub closed spec fn repository(self) -> Arc<R> {
        self.repository
    }

    /// The use case over the given store.
    pub fn new(repository: Arc<R>) -> (r: Self)
        ensures
            r.repository() == repository,
    {
        AppendConsoleLogsUseCase { repository }
    }

    /// What is returned for an append that the store answered with
    /// `saved`: the path of the log, or the store's failure.
    pub fn appended(saved: Result<String, RepositoryError>) -> (r: Result<String, UseCaseError>)
        ensures
            r == match saved {
                Ok(path) => Ok::<String, UseCaseError>(path),
                Err(error) => Err(UseCaseError::Repository(error)),
            },
    {
        stored(saved)
    }

    /// Appends `logs`. Without records nothing is stored and the answer
    /// is `no logs`; otherwise the outcome is the store's: the path of
    /// the log, or its failure.
    pub fn execute(&self, logs: Vec<ConsoleLogEntry>) -> (r: Result<String, UseCaseError>)
        ensures
            logs.len() == 0 ==> (r matches Ok(text) && text@ == "no logs"@),
            logs.len() > 0 ==> (r matches Err(error) ==> error is Repository),
    {
        if logs.len() == 0 {
            return Ok(String::from_str("no logs"));
        }
        Self::appended(self.repository.save_console_logs(&logs))
    }
}

/// Composes a full snapshot from parts that the caller already has, and
/// stores it.
pub struct CaptureDebugSnapshotUseCase<R: SnapshotRepository> {
    repository: Arc<R>,
}

/// What becomes of an optional path handed in by a caller.
pub open spec fn optional_path_decision(path: Option<String>, root: Seq<char>) -> Result<
    (),
    PathRejection,
> {
    match path {
        Some(p) => path_decision(p@, root),
        None => Ok(()),
    }
}

/// A snapshot can be composed from these parts: both paths are
/// accepted, the window answered with all its properties, and the clock
/// could be read.
pub open spec fn composable(
    log_root: Seq<char>,
    probe: WindowProbe,
    clock: Result<u64, String>,
    screenshot_path: Option<String>,
    dom_snapshot_path: Option<String>,
) -> bool {
    &&& optional_path_decision(screenshot_path, log_root) is Ok
    &&& optional_path_decision(dom_snapshot_path, log_root) is Ok
    &&& answered_in_full(probe)
    &&& clock is Ok
}

/// Accepts or refuses an optional path handed in by a caller.
pub fn validate_optional_path(path: &Option<String>, root: &str) -> (r: Result<(), PathRejection>)
    ensures
        r == optional_path_decision(*path, root@),
{
    match path {
        Some(p) => validate_capture_path(p.as_str(), root),
        None => Ok(()),
    }
}

/// `error` is the error with which composing a snapshot from these
/// parts ends: the rejection of the screenshot's path, else that of the
/// document's path, and for no other cause an invalid path; else what the
/// window failed to answer; else the reason why the clock could not be
/// read.
pub open spec fn composition_error(
    log_root: Seq<char>,
    probe: WindowProbe,
    clock: Result<u64, String>,
    screenshot_path: Option<String>,
    dom_snapshot_path: Option<String>,
    error: UseCaseError,
) -> bool {
    match optional_path_decision(screenshot_path, log_root) {
        Err(rejection) => error == UseCaseError::InvalidPath(rejection),
        Ok(_) => match optional_path_decision(dom_snapshot_path, log_root) {
            Err(rejection) => error == UseCaseError::InvalidPath(rejection),
            Ok(_) => if answered_in_full(probe) {
                clock matches Err(reason) && error == UseCaseError::SystemTime(reason)
            } else {
                probe_error(probe, error)
            },
        },
    }
}

/// `snapshot` is the snapshot composed from these parts.
pub open spec fn composed(
    probe: WindowProbe,
    clock: Result<u64, String>,
    console_logs: Vec<ConsoleLogEntry>,
    screenshot_path: Option<String>,
    dom_snapshot_path: Option<String>,
    snapshot: DebugSnapshot,
) -> bool {
    &&& probed_state(probe, snapshot.webview_state)
    &&& clock matches Ok(seconds)
    &&& snapshot.timestamp == seconds as i64
    &&& snapshot.console_logs == console_logs
    &&& snapshot.screenshot_path == screenshot_path
    &&& snapshot.dom_snapshot_path == dom_snapshot_path
}

impl<R: SnapshotRepository> CaptureDebugSnapshotUseCase<R> {
    /// The store that the use case stores through.
    pub closed spec fn repository(self) -> Arc<R> {
        self.repository
    }

    /// The use case over the given store.
    pub fn new(repository: Arc<R>) -> (r: Self)
        ensures
            r.repository() == repository,
    {
        CaptureDebugSnapshotUseCase { repository }
    }

    /// The snapshot that is composed, or the reason why none is: a path
    /// that is refused, the screenshot's before the document's; else a
    /// missing window or unreadable property; else an unreadable clock.
    pub fn compose(
        log_root: &str,
        probe: WindowProbe,
        clock: Result<u64, String>,
        console_logs: Vec<ConsoleLogEntry>,
        screenshot_path: Option<String>,
        dom_snapshot_path: Option<String>,
    ) -> (r: Result<DebugSnapshot, UseCaseError>)
        ensures
            r is Ok <==> composable(log_root@, probe, clock, screenshot_path, dom_snapshot_path),
            match r {
                Ok(snapshot) => composed(
                    probe,
                    clock,
                    console_logs,
                    screenshot_path,
                    dom_snapshot_path,
                    snapshot,
                ),
                Err(error) => composition_error(
                    log_root@,
                    probe,
                    clock,
                    screenshot_path,
                    dom_snapshot_path,
                    error,
                ),
            },
    {
        match validate_optional_path(&screenshot_path, log_root) {
            Ok(_) => {},
            Err(rejection) => {
                return Err(UseCaseError::InvalidPath(rejection));
            },
        }
        match validate_optional_path(&dom_snapshot_path, log_root) {
            Ok(_) => {},
            Err(rejection) => {
                return Err(UseCaseError::InvalidPath(rejection));
            },
        }
        let webview_state = match CaptureWebViewStateUseCase::execute(probe) {
            Ok(state) => state,
            Err(error) => {
                return Err(error);
            },
        };
        let timestamp = match capture_time(clock) {
            Ok(timestamp) => timestamp,
            Err(error) => {
                return Err(error);
            },
        };
        Ok(DebugSnapshot { timestamp, webview_state, console_logs, screenshot_path, dom_snapshot_path })
    }

    /// What is returned for a snapshot that the store answered with
    /// `saved`: the snapshot as it was stored, or the store's failure.
    pub fn saved(snapshot: DebugSnapshot, saved: Result<String, RepositoryError>) -> (r: Result<
        DebugSnapshot,
        UseCaseError,
    >)
        ensures
            r == match saved {
                Ok(_) => Ok::<DebugSnapshot, UseCaseError>(snapshot),
                Err(error) => Err(UseCaseError::Repository(error)),
            },
    {
        match saved {
            Ok(_) => Ok(snapshot),
            Err(error) => Err(UseCaseError::Repository(error)),
        }
    }

    /// Composes the snapshot and stores it. Where no snapshot is
    /// composed nothing is stored and the error is that of the
    /// composition. Where one is composed it is handed to the store, and
    /// the outcome is the store's: the snapshot as it was stored, or the
    /// store's failure.
    pub fn execute(
        &self,
        log_root: &str,
        probe: WindowProbe,
        clock: Result<u64, String>,
        console_logs: Vec<ConsoleLogEntry>,
        screenshot_path: Option<String>,
        dom_snapshot_path: Option<String>,
    ) -> (r: Result<DebugSnapshot, UseCaseError>)
        ensures
            !composable(log_root@, probe, clock, screenshot_path, dom_snapshot_path) ==> (
            r matches Err(error) && composition_error(
                log_root@,
                probe,
                clock,
                screenshot_path,
                dom_snapshot_path,
                error,
            )),
            composable(log_root@, probe, clock, screenshot_path, dom_snapshot_path) ==> match r {
                Ok(snapshot) => composed(
                    probe,
                    clock,
                    console_logs,
                    screenshot_path,
                    dom_snapshot_path,
                    snapshot,
                ),
                Err(error) => error is Repository,
            },
            r matches Err(UseCaseError::InvalidPath(rejection)) ==> optional_path_decision(
                screenshot_path,
                log_root@,
            ) == Err::<(), PathRejection>(rejection) || optional_path_decision(
                dom_snapshot_path,
                log_root@,
            ) == Err::<(), PathRejection>(rejection),
    {
        let snapshot = match Self::compose(
            log_root,
            probe,
            clock,
            console_logs,
            screenshot_path,
            dom_snapshot_path,
        ) {
            Ok(snapshot) => snapshot,
            Err(error) => {
                return Err(error);
            },
        };
        let outcome = self.repository.save_snapshot(&snapshot);
        Self::saved(snapshot, outcome)
    }
}

} // verus!
