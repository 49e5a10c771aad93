//! Where the file store keeps what, and what it writes: the paths of
//! snapshots, documents and the console log, the text put in front of a
//! stored document, and the framing of appended log records. The writing
//! itself is the caller's.

use std::sync::Arc;
use vstd::prelude::*;
use crate::config::{frontend_log_name, join_path, joined_path, DebugToolsConfig};
use crate::models::{DomSnapshotMetadata, DomSnapshotResult, DomState};
use crate::text::{decimal, push_decimal, push_signed_decimal, signed_decimal};

verus! {

/// The file store of one application in one process.
pub struct FileSystemRepository {
    config: Arc<DebugToolsConfig>,
    app_name: String,
    pid: u32,
}

/// The file name of the full snapshot taken at `timestamp`.
pub open spec fn snapshot_name(timestamp: i64) -> Seq<char> {
    "snapshot_"@ + signed_decimal(timestamp as int) + ".json"@
}

/// The file name of the document captured at `timestamp`.
pub open spec fn dom_name(timestamp: i64) -> Seq<char> {
    "dom_"@ + signed_decimal(timestamp as int) + ".html"@
}

/// The file name of the raw payload written at `timestamp`.
pub open spec fn raw_snapshot_name(timestamp: u64) -> Seq<char> {
    "tauri_debug_snapshot_"@ + decimal(timestamp as nat) + ".json"@
}

/// A stored document: a comment that holds the metadata, then the
/// document itself.
pub open spec fn dom_document_text(metadata_json: Seq<char>, html: Seq<char>) -> Seq<char> {
    "<!--\nDOM Snapshot Metadata:\n"@ + metadata_json + "\n-->\n"@ + html
}

/// What appending `records` adds to the log: each record followed by a
/// line feed.
pub open spec fn framed_records(records: Seq<Seq<char>>) -> Seq<char>
    decreases records.len(),
{
    if records.len() == 0 {
        Seq::empty()
    } else {
        framed_records(records.drop_last()) + records.last() + "\n"@
    }
}

impl FileSystemRepository {
    /// The configuration of the store.
    pub closed spec fn config(self) -> DebugToolsConfig {
        *self.config
    }

    /// The application whose files the store keeps.
    pub closed spec fn app_name(self) -> Seq<char> {
        self.app_name@
    }

    /// The process whose console log the store appends to.
    pub closed spec fn pid(self) -> u32 {
        self.pid
    }

    /// The store of application `app_name` in process `pid`.
    pub fn new(config: Arc<DebugToolsConfig>, app_name: String, pid: u32) -> (r: Self)
        ensures
            r.config() == *config,
            r.app_name() == app_name@,
            r.pid() == pid,
    {
        FileSystemRepository { config, app_name, pid }
    }

    /// Path of the console log that the store appends to.
    pub fn console_log_path(&self) -> (r: String)
        ensures
            r@ == joined_path(self.config().log_dir@, frontend_log_name(self.app_name(), self.pid())),
    {
        self.config.frontend_log_path(self.app_name.as_str(), self.pid)
    }

    /// Path of the full snapshot taken at `timestamp`.
    pub fn snapshot_path(&self, timestamp: i64) -> (r: String)
        ensures
            r@ == joined_path(self.config().log_dir@, snapshot_name(timestamp)),
    {
        let mut name = String::from_str("snapshot_");
        push_signed_decimal(&mut name, timestamp);
        name.append(".json");
        join_path(self.config.log_dir.as_str(), name.as_str())
    }

    /// Path of the document captured at `timestamp`.
    pub fn dom_path(&self, timestamp: i64) -> (r: String)
        ensures
            r@ == joined_path(
                joined_path(self.config().log_dir@, "dom_snapshots"@),
                dom_name(timestamp),
            ),
    {
        let mut name = String::from_str("dom_");
        push_signed_decimal(&mut name, timestamp);
        name.append(".html");
        let dir = self.config.dom_snapshot_dir();
        join_path(dir.as_str(), name.as_str())
    }

    /// What storing the document `dom` at `timestamp` writes and
    /// returns: the text of the file, and the place of the file with the
    /// metadata that stands in front of it. `metadata_json` is that
    /// metadata as pretty-printed JSON.
    pub fn dom_snapshot(&self, dom: &DomState, timestamp: i64, metadata_json: &str) -> (r: (
        DomSnapshotResult,
        String,
    ))
        ensures
            r.0.path@ == joined_path(
                joined_path(self.config().log_dir@, "dom_snapshots"@),
                dom_name(timestamp),
            ),
            r.0.metadata.url == dom.url,
            r.0.metadata.title == dom.title,
            r.0.metadata.timestamp == dom.captured_at,
            r.0.metadata.viewport == dom.viewport,
            r.1@ == dom_document_text(metadata_json@, dom.html@),
    {
        let result = DomSnapshotResult {
            path: self.dom_path(timestamp),
            metadata: DomSnapshotMetadata::of(dom),
        };
        (result, dom_document(metadata_json, dom.html.as_str()))
    }

    /// The directories that have to exist before anything is stored.
    pub fn directories(&self) -> (r: Vec<String>)
        ensures
            r.deep_view() == seq![
                joined_path(self.config().log_dir@, "screenshots"@),
                joined_path(self.config().log_dir@, "dom_snapshots"@),
            ],
    {
        self.config.subdirectories()
    }
}

/// Path of the raw payload written at `timestamp` into the temporary
/// directory `temp_dir`.
pub fn raw_snapshot_path(temp_dir: &str, timestamp: u64) -> (r: String)
    ensures
        r@ == joined_path(temp_dir@, raw_snapshot_name(timestamp)),
{
    let mut name = String::from_str("tauri_debug_snapshot_");
    push_decimal(&mut name, timestamp);
    name.append(".json");
    join_path(temp_dir, name.as_str())
}

/// The text of a stored document: the metadata, as pretty-printed JSON,
/// in a comment in front of the document.
pub fn dom_document(metadata_json: &str, html: &str) -> (r: String)
    ensures
        r@ == dom_document_text(metadata_json@, html@),
{
    let mut out = String::from_str("<!--\nDOM Snapshot Metadata:\n");
    out.append(metadata_json);
    out.append("\n-->\n");
    out.append(html);
    out
}

/// What appending `records`, each one serialized record, adds to the
/// console log: one line per record. `None` for no records: nothing is
/// written then, and the log is not even opened.
pub fn append_chunk(records: &Vec<String>) -> (r: Option<String>)
    ensures
        match r {
            Some(chunk) => records.len() > 0 && chunk@ == framed_records(records.deep_view()),
            None => records.len() == 0,
        },
{
    if records.len() == 0 {
        return None;
    }
    let mut out = String::new();
    let mut i: usize = 0;
    while i < records.len()
        invariant
            i <= records.len(),
            out@ == framed_records(records.deep_view().take(i as int)),
        decreases records.len() - i,
    {
        proof {
            let upto = records.deep_view().take(i + 1);
            assert(upto.drop_last() == records.deep_view().take(i as int));
            assert(upto.last() == records[i as int]@);
        }
        out.append(records[i].as_str());
        out.append("\n");
        i += 1;
    }
    assert(records.deep_view().take(records.len() as int) == records.deep_view());
    Some(out)
}

} // verus!
