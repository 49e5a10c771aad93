//! The data carried through a capture: window and viewport snapshots,
//! console log entries, DOM captures and the assembled results.

use vstd::prelude::*;

verus! {

/// Severity of a log record.
#[derive(Debug, Clone, Copy, PartialEq, Eq, Structural)]
pub enum LogLevel {
    Trace,
    Debug,
    Info,
    Warn,
    Error,
}

impl LogLevel {
    /// The name of the level, in lower case.
    pub open spec fn name_of(self) -> Seq<char> {
        match self {
            LogLevel::Trace => "trace"@,
            LogLevel::Debug => "debug"@,
            LogLevel::Info => "info"@,
            LogLevel::Warn => "warn"@,
            LogLevel::Error => "error"@,
        }
    }

    /// The name of the level, in lower case.
    pub fn as_str(&self) -> (r: &'static str)
        ensures
            r@ == self.name_of(),
    {
        match self {
            LogLevel::Trace => "trace",
            LogLevel::Debug => "debug",
            LogLevel::Info => "info",
            LogLevel::Warn => "warn",
            LogLevel::Error => "error",
        }
    }

    /// The name of the level, in lower case, as an owned string.
    pub fn to_string(&self) -> (r: String)
        ensures
            r@ == self.name_of(),
    {
        String::from_str(self.as_str())
    }

    /// The level with the given lower-case name.
    pub fn from_name(name: &str) -> (r: Option<LogLevel>)
        ensures
            match r {
                Some(level) => level.name_of() == name@,
                None => forall|level: LogLevel| level.name_of() != name@,
            },
    {
        if crate::text::str_eq(name, "trace") {
            Some(LogLevel::Trace)
        } else if crate::text::str_eq(name, "debug") {
            Some(LogLevel::Debug)
        } else if crate::text::str_eq(name, "info") {
            Some(LogLevel::Info)
        } else if crate::text::str_eq(name, "warn") {
            Some(LogLevel::Warn)
        } else if crate::text::str_eq(name, "error") {
            Some(LogLevel::Error)
        } else {
            None
        }
    }
}

/// Size of the window at capture time.
#[derive(Debug, Clone, Copy, PartialEq, Eq, Structural)]
pub struct ViewportInfo {
    pub width: u32,
    pub height: u32,
}

/// What the user interface shows at capture time. Captured afresh for
/// every request.
#[derive(Debug, PartialEq, Eq)]
pub struct WebViewState {
    pub url: String,
    pub title: String,
    pub user_agent: String,
    pub viewport: ViewportInfo,
}

impl Clone for WebViewState {
    fn clone(&self) -> (r: Self)
        ensures
            r == *self,
    {
        WebViewState {
            url: self.url.clone(),
            title: self.title.clone(),
            user_agent: self.user_agent.clone(),
            viewport: self.viewport,
        }
    }
}

/// One console message as the user interface reports it.
#[derive(Debug, PartialEq, Eq)]
pub struct ConsoleMessage {
    pub level: String,
    pub message: String,
    pub timestamp: i64,
}

impl Clone for ConsoleMessage {
    fn clone(&self) -> (r: Self)
        ensures
            r == *self,
    {
        ConsoleMessage {
            level: self.level.clone(),
            message: self.message.clone(),
            timestamp: self.timestamp,
        }
    }
}

/// One record of the console log. `args` is carried as the codec parsed
/// it and never looked into.
#[derive(Debug, Clone)]
pub struct ConsoleLogEntry {
    /// Seconds since the epoch.
    pub timestamp: i64,
    pub level: String,
    pub message: String,
    pub args: serde_json::Value,
    pub stack_trace: Option<String>,
}

/// One record of the console log as the command layer receives it.
pub type ConsoleLogEntryPayload = ConsoleLogEntry;

/// A captured document.
#[derive(Debug, PartialEq, Eq)]
pub struct DomState {
    pub html: String,
    pub url: String,
    pub title: String,
    pub viewport: ViewportInfo,
    pub captured_at: i64,
}

/// What is written in front of a stored document.
#[derive(Debug, PartialEq, Eq)]
pub struct DomSnapshotMetadata {
    pub url: String,
    pub title: String,
    pub timestamp: i64,
    pub viewport: ViewportInfo,
}

impl Clone for DomSnapshotMetadata {
    fn clone(&self) -> (r: Self)
        ensures
            r == *self,
    {
        DomSnapshotMetadata {
            url: self.url.clone(),
            title: self.title.clone(),
            timestamp: self.timestamp,
            viewport: self.viewport,
        }
    }
}

impl DomSnapshotMetadata {
    /// The metadata of a captured document: its address, title, time of
    /// capture and viewport.
    pub fn of(dom: &DomState) -> (r: Self)
        ensures
            r.url == dom.url,
            r.title == dom.title,
            r.timestamp == dom.captured_at,
            r.viewport == dom.viewport,
    {
        DomSnapshotMetadata {
            url: dom.url.clone(),
            title: dom.title.clone(),
            timestamp: dom.captured_at,
            viewport: dom.viewport,
        }
    }
}

/// Where a document was stored, and what was written in front of it.
#[derive(Debug, PartialEq, Eq)]
pub struct DomSnapshotResult {
    pub path: String,
    pub metadata: DomSnapshotMetadata,
}

/// A full snapshot composed from parts that the caller already has.
#[derive(Debug, Clone)]
pub struct DebugSnapshot {
    pub timestamp: i64,
    pub webview_state: WebViewState,
    pub console_logs: Vec<ConsoleLogEntry>,
    pub screenshot_path: Option<String>,
    pub dom_snapshot_path: Option<String>,
}

/// A window that the screenshot provider can enumerate and photograph.
#[derive(Debug, PartialEq, Eq)]
pub struct WindowDescriptor {
    pub id: u32,
    pub name: String,
    pub app_name: String,
    pub title: String,
}

impl Clone for WindowDescriptor {
    fn clone(&self) -> (r: Self)
        ensures
            r == *self,
    {
        WindowDescriptor {
            id: self.id,
            name: self.name.clone(),
            app_name: self.app_name.clone(),
            title: self.title.clone(),
        }
    }
}

/// The outcome of an automatic capture: the state of the user interface,
/// the console error tail, the time, and either the path of a screenshot
/// or the reason why there is none.
#[derive(Debug, PartialEq, Eq)]
pub struct DebugSnapshotResult {
    pub screenshot_path: Option<String>,
    pub screenshot_error: Option<String>,
    pub webview_state: WebViewState,
    pub console_errors: Vec<String>,
    pub timestamp: u64,
}

impl DebugSnapshotResult {
    /// Exactly one of the screenshot's path and the screenshot's error is
    /// set.
    pub open spec fn wf(self) -> bool {
        self.screenshot_path is Some <==> self.screenshot_error is None
    }

    /// Whether exactly one of the screenshot's path and the screenshot's
    /// error is set.
    pub fn is_valid(&self) -> (r: bool)
        ensures
            r == self.wf(),
    {
        self.screenshot_path.is_some() != self.screenshot_error.is_some()
    }

    /// The result of a capture whose screenshot step ended as
    /// `screenshot`: with the path of the image, or with the reason why
    /// none was taken.
    pub fn assemble(
        webview_state: WebViewState,
        console_errors: Vec<String>,
        screenshot: Result<String, String>,
        timestamp: u64,
    ) -> (r: Self)
        ensures
            r.wf(),
            r.webview_state == webview_state,
            r.console_errors == console_errors,
            r.timestamp == timestamp,
            match screenshot {
                Ok(path) => r.screenshot_path == Some(path) && r.screenshot_error is None,
                Err(reason) => r.screenshot_error == Some(reason) && r.screenshot_path is None,
            },
    {
        match screenshot {
            Ok(path) => DebugSnapshotResult {
                screenshot_path: Some(path),
                screenshot_error: None,
                webview_state,
                console_errors,
                timestamp,
            },
            Err(reason) => DebugSnapshotResult {
                screenshot_path: None,
                screenshot_error: Some(reason),
                webview_state,
                console_errors,
                timestamp,
            },
        }
    }
}

} // verus!
