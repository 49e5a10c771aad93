//! The errors of the library's edges and the port through which
//! snapshots are stored.

use vstd::prelude::*;
use crate::models::{ConsoleLogEntry, DebugSnapshot, DomSnapshotResult, DomState};

verus! {

/// A failure of the operating system's input and output
/// (`std::io::Error`), opaque to the verifier.
#[verifier::external_type_specification]
#[verifier::external_body]
pub struct ExIoError(std::io::Error);

/// The kinds of input and output failure that the library tells apart.
#[derive(Debug, Clone, Copy, PartialEq, Eq, Structural)]
pub enum IoKind {
    /// The file or directory does not exist.
    NotFound,
    /// The operation is not permitted on the file.
    PermissionDenied,
    /// Any other kind.
    Other,
}

/// The kind of a failure, as far as the library tells kinds apart: what
/// `std::io::Error::kind` reports of it, with every kind but the two
/// that the library knows counted as `Other`.
pub uninterp spec fn kind_of(error: std::io::Error) -> IoKind;

/// `std::io::Error::kind`: the kind of the failure, as far as the
/// library tells kinds apart. The kind belongs to the failure and does
/// not change.
#[verifier::external_body]
pub(crate) fn io_kind(error: &std::io::Error) -> (kind: IoKind)
    ensures
        kind == kind_of(*error),
{
    match error.kind() {
        std::io::ErrorKind::NotFound => IoKind::NotFound,
        std::io::ErrorKind::PermissionDenied => IoKind::PermissionDenied,
        _ => IoKind::Other,
    }
}

/// A message made of a fixed beginning and a detail.
pub open spec fn prefixed(beginning: Seq<char>, detail: Seq<char>) -> Seq<char> {
    beginning + detail
}

fn with_detail(beginning: &str, detail: &str) -> (r: String)
    ensures
        r@ == prefixed(beginning@, detail@),
{
    let mut out = String::from_str(beginning);
    out.append(detail);
    out
}

/// Failure of the backend logger.
#[derive(Debug)]
pub enum LogError {
    Initialization(String),
    Write(String),
}

impl LogError {
    /// The text of the error.
    pub open spec fn message_of(self) -> Seq<char> {
        match self {
            LogError::Initialization(detail) => prefixed("Failed to initialize logger: "@, detail@),
            LogError::Write(detail) => prefixed("Failed to write log: "@, detail@),
        }
    }

    /// The text of the error.
    pub fn to_string(&self) -> (r: String)
        ensures
            r@ == self.message_of(),
    {
        match self {
            LogError::Initialization(detail) => with_detail(
                "Failed to initialize logger: ",
                detail.as_str(),
            ),
            LogError::Write(detail) => with_detail("Failed to write log: ", detail.as_str()),
        }
    }
}

/// Failure of capturing or storing a document.
#[derive(Debug)]
pub enum DomCaptureError {
    Capture(String),
    Save(String),
}

impl DomCaptureError {
    /// The text of the error.
    pub open spec fn message_of(self) -> Seq<char> {
        match self {
            DomCaptureError::Capture(detail) => prefixed("Failed to capture DOM: "@, detail@),
            DomCaptureError::Save(detail) => prefixed("Failed to save DOM: "@, detail@),
        }
    }

    /// The text of the error.
    pub fn to_string(&self) -> (r: String)
        ensures
            r@ == self.message_of(),
    {
        match self {
            DomCaptureError::Capture(detail) => with_detail(
                "Failed to capture DOM: ",
                detail.as_str(),
            ),
            DomCaptureError::Save(detail) => with_detail("Failed to save DOM: ", detail.as_str()),
        }
    }
}

/// Failure of the store behind [`SnapshotRepository`].
#[derive(Debug)]
pub enum RepositoryError {
    Save(String),
    Load(String),
    Io(std::io::Error),
    Serialization(serde_json::Error),
}

impl RepositoryError {
    /// The fixed beginning of the error's text.
    pub open spec fn beginning_of(self) -> Seq<char> {
        match self {
            RepositoryError::Save(_) => "Failed to save: "@,
            RepositoryError::Load(_) => "Failed to load: "@,
            RepositoryError::Io(_) => "IO error: "@,
            RepositoryError::Serialization(_) => "Serialization error: "@,
        }
    }

    /// The whole text of an error whose detail the library knows; `None`
    /// for a failure that comes from the operating system or from the
    /// codec, whose detail is theirs.
    pub open spec fn message_of(self) -> Option<Seq<char>> {
        match self {
            RepositoryError::Save(detail) => Some(prefixed(self.beginning_of(), detail@)),
            RepositoryError::Load(detail) => Some(prefixed(self.beginning_of(), detail@)),
            RepositoryError::Io(_) => None,
            RepositoryError::Serialization(_) => None,
        }
    }

    /// The text of the error: its beginning, then the detail. Of a
    /// failure that comes from the operating system or from the codec
    /// the detail is theirs, and only the beginning is fixed.
    pub fn to_string(&self) -> (r: String)
        ensures
            self.beginning_of().is_prefix_of(r@),
            self.message_of() matches Some(text) ==> r@ == text,
    {
        let r = match self {
            RepositoryError::Save(detail) => with_detail("Failed to save: ", detail.as_str()),
            RepositoryError::Load(detail) => with_detail("Failed to load: ", detail.as_str()),
            RepositoryError::Io(error) => {
                let detail = error.to_string();
                with_detail("IO error: ", detail.as_str())
            },
            RepositoryError::Serialization(error) => {
                let detail = error.to_string();
                with_detail("Serialization error: ", detail.as_str())
            },
        };
        assert(r@.subrange(0, self.beginning_of().len() as int) =~= self.beginning_of());
        r
    }
}

impl From<std::io::Error> for RepositoryError {
    fn from(error: std::io::Error) -> (r: Self) {
        RepositoryError::Io(error)
    }
}

impl vstd::std_specs::convert::FromSpecImpl<std::io::Error> for RepositoryError {
    open spec fn obeys_from_spec() -> bool {
        true
    }

    open spec fn from_spec(error: std::io::Error) -> Self {
        RepositoryError::Io(error)
    }
}

impl From<serde_json::Error> for RepositoryError {
    fn from(error: serde_json::Error) -> (r: Self) {
        RepositoryError::Serialization(error)
    }
}

impl vstd::std_specs::convert::FromSpecImpl<serde_json::Error> for RepositoryError {
    open spec fn obeys_from_spec() -> bool {
        true
    }

    open spec fn from_spec(error: serde_json::Error) -> Self {
        RepositoryError::Serialization(error)
    }
}

/// Where snapshots are stored. The library decides what is stored and
/// under which name; an implementation does the writing.
pub trait SnapshotRepository {
    /// Stores a full snapshot and returns its path.
    fn save_snapshot(&self, snapshot: &DebugSnapshot) -> Result<String, RepositoryError>;

    /// Stores a captured document and returns where it stands and what
    /// was written in front of it.
    fn save_dom(&self, dom: &DomState, timestamp: i64) -> Result<
        DomSnapshotResult,
        RepositoryError,
    >;

    /// Appends records to the console log and returns its path.
    fn save_console_logs(&self, logs: &Vec<ConsoleLogEntry>) -> Result<String, RepositoryError>;
}

} // verus!
