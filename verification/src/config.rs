//! Configuration of the debug tools and the places of their files under
//! the log root. Paths are text with `/` between their segments.

use vstd::prelude::*;
use crate::text::{chars_of, chars_occur_at, decimal, push_decimal, push_underscored, underscored};

verus! {

/// Name of the directory of the debug tools under the application's log
/// directory.
pub const LOG_ROOT_NAME: &'static str = "debug-tools";

/// Largest size of a log file before it is rotated, in bytes.
pub const DEFAULT_MAX_LOG_SIZE_BYTES: u64 = 50_000;

/// Failure to set the configuration up.
#[derive(Debug)]
pub enum ConfigError {
    LogDirectory(String),
    CreateDirectory(std::io::Error),
}

impl ConfigError {
    /// The fixed beginning of the error's text.
    pub open spec fn beginning_of(self) -> Seq<char> {
        match self {
            ConfigError::LogDirectory(_) => "Failed to get log directory: "@,
            ConfigError::CreateDirectory(_) => "Failed to create directory: "@,
        }
    }

    /// The text of the error: its beginning, then the detail. The detail
    /// of a failure to create a directory is the operating system's.
    pub fn to_string(&self) -> (r: String)
        ensures
            self.beginning_of().is_prefix_of(r@),
            self matches ConfigError::LogDirectory(detail) ==> r@ == self.beginning_of()
                + detail@,
    {
        let mut out;
        match self {
            ConfigError::LogDirectory(detail) => {
                out = String::from_str("Failed to get log directory: ");
                out.append(detail.as_str());
            },
            ConfigError::CreateDirectory(error) => {
                out = String::from_str("Failed to create directory: ");
                let detail = error.to_string();
                out.append(detail.as_str());
            },
        }
        assert(out@.subrange(0, self.beginning_of().len() as int) =~= self.beginning_of());
        out
    }
}

impl From<std::io::Error> for ConfigError {
    fn from(error: std::io::Error) -> (r: Self) {
        ConfigError::CreateDirectory(error)
    }
}

impl vstd::std_specs::convert::FromSpecImpl<std::io::Error> for ConfigError {
    open spec fn obeys_from_spec() -> bool {
        true
    }

    open spec fn from_spec(error: std::io::Error) -> Self {
        ConfigError::CreateDirectory(error)
    }
}

/// How the backend log is written.
#[derive(Debug, Clone, Copy, PartialEq, Eq, Structural)]
pub enum LogFormat {
    Json,
    Text,
}

/// `name` under the directory `base`: the two joined by one `/`, unless
/// `base` is empty or ends with one already.
pub open spec fn joined_path(base: Seq<char>, name: Seq<char>) -> Seq<char> {
    if base.len() == 0 || base.last() == '/' {
        base + name
    } else {
        base + "/"@ + name
    }
}

/// The file name of the console log of application `app_name` in
/// process `pid`.
pub open spec fn frontend_log_name(app_name: Seq<char>, pid: u32) -> Seq<char> {
    "frontend_console_"@ + underscored(app_name) + "_"@ + decimal(pid as nat) + ".jsonl"@
}

/// `name` under the directory `base`.
pub fn join_path(base: &str, name: &str) -> (r: String)
    ensures
        r@ == joined_path(base@, name@),
{
    let chars = chars_of(base);
    let mut out = String::from_str(base);
    if chars.len() > 0 && chars[chars.len() - 1] != '/' {
        out.append("/");
    }
    out.append(name);
    out
}

/// Configuration of the debug tools.
#[derive(Debug)]
pub struct DebugToolsConfig {
    /// The log root: every file of the debug tools stands under it.
    pub log_dir: String,
    pub max_log_size_bytes: u64,
    pub log_format: LogFormat,
    pub enable_dom_capture: bool,
    pub enable_rust_logging: bool,
}

impl Clone for DebugToolsConfig {
    fn clone(&self) -> (r: Self)
        ensures
            r == *self,
    {
        DebugToolsConfig {
            log_dir: self.log_dir.clone(),
            max_log_size_bytes: self.max_log_size_bytes,
            log_format: self.log_format,
            enable_dom_capture: self.enable_dom_capture,
            enable_rust_logging: self.enable_rust_logging,
        }
    }
}

impl Default for DebugToolsConfig {
    fn default() -> (r: Self)
        ensures
            r.log_dir@ == "/tmp/tauri-debug-tools"@,
            r.has_default_settings(),
    {
        DebugToolsConfig {
            log_dir: String::from_str("/tmp/tauri-debug-tools"),
            max_log_size_bytes: DEFAULT_MAX_LOG_SIZE_BYTES,
            log_format: LogFormat::Json,
            enable_dom_capture: true,
            enable_rust_logging: true,
        }
    }
}

impl DebugToolsConfig {
    /// Everything but the log root is as in the default configuration.
    pub open spec fn has_default_settings(self) -> bool {
        &&& self.max_log_size_bytes == DEFAULT_MAX_LOG_SIZE_BYTES
        &&& self.log_format == LogFormat::Json
        &&& self.enable_dom_capture
        &&& self.enable_rust_logging
    }

    /// The configuration for an application whose log directory is
    /// `app_log_dir`: the log root is the directory of the debug tools
    /// under it, everything else is as in the default configuration.
    pub fn in_app_log_dir(app_log_dir: &str) -> (r: Self)
        ensures
            r.log_dir@ == joined_path(app_log_dir@, LOG_ROOT_NAME@),
            r.has_default_settings(),
    {
        DebugToolsConfig {
            log_dir: join_path(app_log_dir, LOG_ROOT_NAME),
            max_log_size_bytes: DEFAULT_MAX_LOG_SIZE_BYTES,
            log_format: LogFormat::Json,
            enable_dom_capture: true,
            enable_rust_logging: true,
        }
    }

    /// Path of the console log of application `app_name` in process
    /// `pid`.
    pub fn frontend_log_path(&self, app_name: &str, pid: u32) -> (r: String)
        ensures
            r@ == joined_path(self.log_dir@, frontend_log_name(app_name@, pid)),
    {
        let mut name = String::from_str("frontend_console_");
        push_underscored(&mut name, app_name);
        name.append("_");
        push_decimal(&mut name, pid as u64);
        name.append(".jsonl");
        join_path(self.log_dir.as_str(), name.as_str())
    }

    /// Path of the backend log.
    pub fn backend_log_path(&self) -> (r: String)
        ensures
            r@ == joined_path(self.log_dir@, "rust_debug.log"@),
    {
        join_path(self.log_dir.as_str(), "rust_debug.log")
    }

    /// Directory of the screenshots.
    pub fn screenshot_dir(&self) -> (r: String)
        ensures
            r@ == joined_path(self.log_dir@, "screenshots"@),
    {
        join_path(self.log_dir.as_str(), "screenshots")
    }

    /// Directory of the stored documents.
    pub fn dom_snapshot_dir(&self) -> (r: String)
        ensures
            r@ == joined_path(self.log_dir@, "dom_snapshots"@),
    {
        join_path(self.log_dir.as_str(), "dom_snapshots")
    }

    /// The directories that have to exist under the log root before
    /// anything is stored: that of the screenshots, then that of the
    /// documents.
    pub fn subdirectories(&self) -> (r: Vec<String>)
        ensures
            r.deep_view() == seq![
                joined_path(self.log_dir@, "screenshots"@),
                joined_path(self.log_dir@, "dom_snapshots"@),
            ],
    {
        let mut out: Vec<String> = Vec::new();
        out.push(self.screenshot_dir());
        out.push(self.dom_snapshot_dir());
        assert(out.deep_view() =~= seq![
            joined_path(self.log_dir@, "screenshots"@),
            joined_path(self.log_dir@, "dom_snapshots"@),
        ]);
        out
    }
}

/// Why a path handed in by a caller is refused.
#[derive(Debug, Clone, Copy, PartialEq, Eq, Structural)]
pub enum PathRejection {
    /// One of its segments is `..`.
    Traversal,
    /// It does not lie under the log root.
    OutsideRoot,
}

impl PathRejection {
    /// The text of the rejection.
    pub open spec fn text_of(self) -> Seq<char> {
        match self {
            PathRejection::Traversal => "path contains a parent directory segment"@,
            PathRejection::OutsideRoot => "path is outside the log directory"@,
        }
    }

    /// The text of the rejection.
    pub fn to_string(&self) -> (r: String)
        ensures
            r@ == self.text_of(),
    {
        match self {
            PathRejection::Traversal => String::from_str("path contains a parent directory segment"),
            PathRejection::OutsideRoot => String::from_str("path is outside the log directory"),
        }
    }
}

/// A segment `..` of `path` begins at position `at`: two dots between
/// slashes or the ends of the path.
pub open spec fn parent_segment_at(path: Seq<char>, at: int) -> bool {
    &&& 0 <= at
    &&& at + 2 <= path.len()
    &&& path[at] == '.'
    &&& path[at + 1] == '.'
    &&& (at == 0 || path[at - 1] == '/')
    &&& (at + 2 == path.len() || path[at + 2] == '/')
}

/// One of the segments of `path` is `..`.
pub open spec fn has_parent_segment(path: Seq<char>) -> bool {
    exists|at: int| parent_segment_at(path, at)
}

/// `path` is `root` or stands under it: it begins with `root`, and what
/// follows begins a new segment.
pub open spec fn lies_under(path: Seq<char>, root: Seq<char>) -> bool {
    &&& root.is_prefix_of(path)
    &&& (root.len() == 0 || root.len() == path.len() || root.last() == '/' || path[root.len() as int]
        == '/')
}

/// What becomes of a path handed in by a caller: it is refused for a
/// parent directory segment, else for standing outside `root`, and
/// accepted otherwise.
pub open spec fn path_decision(path: Seq<char>, root: Seq<char>) -> Result<(), PathRejection> {
    if has_parent_segment(path) {
        Err(PathRejection::Traversal)
    } else if !lies_under(path, root) {
        Err(PathRejection::OutsideRoot)
    } else {
        Ok(())
    }
}

/// `name` can be the name of one entry of a directory: it is not empty,
/// holds no slash and is not `..`.
pub open spec fn is_plain_name(name: Seq<char>) -> bool {
    &&& name.len() > 0
    &&& forall|i: int| 0 <= i < name.len() ==> name[i] != '/'
    &&& !(name.len() == 2 && name[0] == '.' && name[1] == '.')
}

/// Whether `name` can be the name of one entry of a directory.
pub fn is_plain(name: &str) -> (r: bool)
    ensures
        r == is_plain_name(name@),
{
    let chars = chars_of(name);
    if chars.len() == 0 {
        return false;
    }
    if chars.len() == 2 && chars[0] == '.' && chars[1] == '.' {
        return false;
    }
    let mut i: usize = 0;
    while i < chars.len()
        invariant
            i <= chars.len(),
            chars@ == name@,
            forall|j: int| 0 <= j < i ==> chars@[j] != '/',
        decreases chars.len() - i,
    {
        if chars[i] == '/' {
            return false;
        }
        i += 1;
    }
    true
}

/// What is joined to a directory lies under it.
pub proof fn lemma_joined_lies_under(base: Seq<char>, name: Seq<char>)
    ensures
        lies_under(joined_path(base, name), base),
{
    reveal_strlit("/");
    let path = joined_path(base, name);
    assert(path.subrange(0, base.len() as int) =~= base);
}

/// What lies under a directory lies under every directory that the
/// directory lies under.
pub proof fn lemma_lies_under_transitive(path: Seq<char>, middle: Seq<char>, root: Seq<char>)
    requires
        lies_under(path, middle),
        lies_under(middle, root),
    ensures
        lies_under(path, root),
{
    assert(path.subrange(0, root.len() as int) =~= root) by {
        assert(middle == path.subrange(0, middle.len() as int));
        assert(root == middle.subrange(0, root.len() as int));
    }
    if root.len() > 0 && root.len() < path.len() && root.last() != '/' {
        if root.len() == middle.len() {
            assert(root =~= middle);
        } else {
            assert(middle == path.subrange(0, middle.len() as int));
            assert(path[root.len() as int] == middle[root.len() as int]);
        }
    }
}

/// Joining the name of an entry to a directory brings in no parent
/// directory segment.
pub proof fn lemma_joined_has_no_parent_segment(base: Seq<char>, name: Seq<char>)
    requires
        !has_parent_segment(base),
        is_plain_name(name),
    ensures
        !has_parent_segment(joined_path(base, name)),
{
    reveal_strlit("/");
    let path = joined_path(base, name);
    let start = path.len() - name.len();
    assert(forall|i: int| 0 <= i < base.len() ==> path[i] == base[i]);
    assert(forall|j: int| 0 <= j < name.len() ==> path[start + j] == name[j]);
    assert(start == base.len() + 1 ==> path[base.len() as int] == '/');
    assert(start == base.len() && base.len() > 0 ==> base.last() == '/');
    assert forall|at: int| !parent_segment_at(path, at) by {
        if parent_segment_at(path, at) {
            if at + 2 <= base.len() {
                assert(parent_segment_at(base, at));
            } else if at >= start {
                let j = at - start;
                assert(name[j] == '.' && name[j + 1] == '.');
                if j > 0 {
                    assert(path[start + (j - 1)] == name[j - 1]);
                } else if at + 2 < path.len() {
                    assert(path[start + 2] == name[2]);
                }
            }
        }
    }
}

/// The name of an entry joined to a directory is a path that passes the
/// test for paths under that directory, so long as the directory itself
/// holds no parent directory segment.
pub proof fn law_entry_of_directory_is_accepted(base: Seq<char>, name: Seq<char>)
    requires
        !has_parent_segment(base),
        is_plain_name(name),
    ensures
        path_decision(joined_path(base, name), base) == Ok::<(), PathRejection>(()),
{
    lemma_joined_lies_under(base, name);
    lemma_joined_has_no_parent_segment(base, name);
}

/// Whether one of the segments of `path` is `..`.
pub fn contains_parent_segment(path: &Vec<char>) -> (r: bool)
    ensures
        r == has_parent_segment(path@),
{
    let mut at: usize = 0;
    while at < path.len()
        invariant
            at <= path.len(),
            forall|k: int| 0 <= k < at ==> !parent_segment_at(path@, k),
        decreases path.len() - at,
    {
        if path.len() - at >= 2 && path[at] == '.' && path[at + 1] == '.' && (at == 0 || path[at
            - 1] == '/') && (path.len() - at == 2 || path[at + 2] == '/') {
            assert(parent_segment_at(path@, at as int));
            return true;
        }
        at += 1;
    }
    assert forall|k: int| !parent_segment_at(path@, k) by {
        if 0 <= k && k + 2 <= path@.len() {
            assert(k < at);
        }
    }
    false
}

/// Accepts or refuses a path handed in by a caller against the log root
/// `root`. A refusal is an error for the caller to report: the path is
/// never bent into the root.
pub fn validate_capture_path(path: &str, root: &str) -> (r: Result<(), PathRejection>)
    ensures
        r == path_decision(path@, root@),
{
    let p = chars_of(path);
    let base = chars_of(root);
    if contains_parent_segment(&p) {
        return Err(PathRejection::Traversal);
    }
    if !chars_occur_at(&p, &base, 0) {
        return Err(PathRejection::OutsideRoot);
    }
    if base.len() == 0 || base.len() == p.len() || base[base.len() - 1] == '/' || p[base.len()]
        == '/' {
        Ok(())
    } else {
        Err(PathRejection::OutsideRoot)
    }
}

impl DebugToolsConfig {
    /// Accepts or refuses a screenshot or document path handed in by a
    /// caller: it must have no parent directory segment and lie under the
    /// log root.
    pub fn check_capture_path(&self, path: &str) -> (r: Result<(), PathRejection>)
        ensures
            r == path_decision(path@, self.log_dir@),
    {
        validate_capture_path(path, self.log_dir.as_str())
    }
}

} // verus!
