//! The lifecycle of the log files: which files of a directory a clearing
//! takes, what becomes of each file once the file system has answered,
//! and the report of a clearing.
//!
//! The library touches no file. A clearing is run by a caller that lists
//! the directory, asks a [`Sweep`] what to do next, does it, and hands the
//! outcome back until the sweep is done.

use vstd::prelude::*;
use crate::config::{
    has_parent_segment,
    is_plain,
    is_plain_name,
    join_path,
    joined_path,
    lemma_joined_has_no_parent_segment,
    lemma_joined_lies_under,
    lemma_lies_under_transitive,
    lies_under,
    path_decision,
    DebugToolsConfig,
    PathRejection,
};
use crate::ports::{io_kind, kind_of, IoKind};
use crate::text::{ends_with, push_underscored, starts_with, str_eq, underscored};

verus! {

/// Name of the backend log; its rotations carry a dot and a suffix.
pub const BACKEND_LOG_NAME: &'static str = "rust_debug.log";

/// One entry of a directory listing. It is known by its name alone: the
/// library makes the path of an entry itself, from the directory that was
/// listed.
#[derive(Debug)]
pub struct DirectoryEntry {
    /// The name of the entry, where the name is text.
    pub file_name: Option<String>,
    /// Whether it is a regular file.
    pub is_file: bool,
}

/// What the file system answered to an attempt to delete a file.
#[derive(Debug, Clone, Copy, PartialEq, Eq, Structural)]
pub enum RemovalOutcome {
    /// The file is gone.
    Removed,
    /// There was no such file.
    NotFound,
    /// The file is read-only or protected against deletion.
    PermissionDenied,
    /// Any other failure.
    Failed,
}

/// What the file system answered to an attempt to truncate a file in
/// place.
#[derive(Debug, Clone, Copy, PartialEq, Eq, Structural)]
pub enum TruncationOutcome {
    /// The file now has length zero.
    Truncated,
    /// The file could not be opened for truncation.
    Failed,
}

/// Under which heading of the report a file is listed.
#[derive(Debug, Clone, Copy, PartialEq, Eq, Structural)]
pub enum Disposition {
    Deleted,
    Truncated,
    Failed,
}

/// What follows an attempt to delete.
#[derive(Debug, Clone, Copy, PartialEq, Eq, Structural)]
pub enum AfterRemoval {
    /// The file is settled and listed under the given heading.
    Settled(Disposition),
    /// Deletion is blocked: truncate the file in place instead.
    TruncateInstead,
}

/// The rule for a deletion's outcome: a file that is gone, or was never
/// there, counts as deleted; one that may not be deleted is truncated
/// instead; any other failure settles the file as failed.
pub open spec fn removal_rule(outcome: RemovalOutcome) -> AfterRemoval {
    match outcome {
        RemovalOutcome::Removed => AfterRemoval::Settled(Disposition::Deleted),
        RemovalOutcome::NotFound => AfterRemoval::Settled(Disposition::Deleted),
        RemovalOutcome::PermissionDenied => AfterRemoval::TruncateInstead,
        RemovalOutcome::Failed => AfterRemoval::Settled(Disposition::Failed),
    }
}

/// The rule for a truncation's outcome.
pub open spec fn truncation_rule(outcome: TruncationOutcome) -> Disposition {
    match outcome {
        TruncationOutcome::Truncated => Disposition::Truncated,
        TruncationOutcome::Failed => Disposition::Failed,
    }
}

/// What follows an attempt to delete with the given outcome.
pub fn after_removal(outcome: RemovalOutcome) -> (r: AfterRemoval)
    ensures
        r == removal_rule(outcome),
{
    match outcome {
        RemovalOutcome::Removed => AfterRemoval::Settled(Disposition::Deleted),
        RemovalOutcome::NotFound => AfterRemoval::Settled(Disposition::Deleted),
        RemovalOutcome::PermissionDenied => AfterRemoval::TruncateInstead,
        RemovalOutcome::Failed => AfterRemoval::Settled(Disposition::Failed),
    }
}

/// The heading under which a file is listed after a truncation with the
/// given outcome.
pub fn after_truncation(outcome: TruncationOutcome) -> (r: Disposition)
    ensures
        r == truncation_rule(outcome),
{
    match outcome {
        TruncationOutcome::Truncated => Disposition::Truncated,
        TruncationOutcome::Failed => Disposition::Failed,
    }
}

/// The outcome of a deletion that ended without failure (`None`) or with
/// a failure of the given kind.
pub open spec fn removal_of(failure: Option<IoKind>) -> RemovalOutcome {
    match failure {
        None => RemovalOutcome::Removed,
        Some(IoKind::NotFound) => RemovalOutcome::NotFound,
        Some(IoKind::PermissionDenied) => RemovalOutcome::PermissionDenied,
        Some(IoKind::Other) => RemovalOutcome::Failed,
    }
}

/// The outcome of a deletion that ended without failure (`None`) or with
/// a failure of the given kind.
pub fn classify_removal(failure: Option<IoKind>) -> (r: RemovalOutcome)
    ensures
        r == removal_of(failure),
{
    match failure {
        None => RemovalOutcome::Removed,
        Some(IoKind::NotFound) => RemovalOutcome::NotFound,
        Some(IoKind::PermissionDenied) => RemovalOutcome::PermissionDenied,
        Some(IoKind::Other) => RemovalOutcome::Failed,
    }
}

/// The failure that a call into the file system ended with, by kind;
/// `None` for a call that ended without one.
pub open spec fn failure_kind(result: Result<(), std::io::Error>) -> Option<IoKind> {
    match result {
        Ok(_) => None,
        Err(error) => Some(kind_of(error)),
    }
}

/// The outcome of a deletion from what the file system returned: removed
/// where it returned no failure, and otherwise what the kind of the
/// failure makes of it.
pub fn removal_outcome(result: &Result<(), std::io::Error>) -> (r: RemovalOutcome)
    ensures
        r == removal_of(failure_kind(*result)),
{
    match result {
        Ok(_) => classify_removal(None),
        Err(error) => classify_removal(Some(io_kind(error))),
    }
}

/// The outcome of a truncation from what the file system returned.
pub fn truncation_outcome(result: &Result<(), std::io::Error>) -> (r: TruncationOutcome)
    ensures
        r == if result is Ok {
            TruncationOutcome::Truncated
        } else {
            TruncationOutcome::Failed
        },
{
    match result {
        Ok(_) => TruncationOutcome::Truncated,
        Err(_) => TruncationOutcome::Failed,
    }
}

/// The beginning of every console log name of the application: a fixed
/// stem and the application's name with spaces turned to underscores.
pub open spec fn frontend_prefix(app_name: Seq<char>) -> Seq<char> {
    "frontend_console_"@ + underscored(app_name)
}

/// `name` is a console log of the application, of any process.
pub open spec fn is_frontend_log(name: Seq<char>, app_name: Seq<char>) -> bool {
    frontend_prefix(app_name).is_prefix_of(name) && ".jsonl"@.is_suffix_of(name)
}

/// `name` is the backend log or one of its rotations.
pub open spec fn is_backend_log(name: Seq<char>) -> bool {
    name == BACKEND_LOG_NAME@ || (BACKEND_LOG_NAME@ + "."@).is_prefix_of(name)
}

/// `name` is a log file that a clearing of the log directory takes.
pub open spec fn is_debug_log(name: Seq<char>, app_name: Seq<char>) -> bool {
    is_frontend_log(name, app_name) || is_backend_log(name)
}

/// Whether the file name is one that a clearing of the log directory
/// takes: a console log of the application or a backend log.
pub fn is_debug_log_name(name: &str, app_name: &str) -> (r: bool)
    ensures
        r == is_debug_log(name@, app_name@),
{
    let mut prefix = String::from_str("frontend_console_");
    push_underscored(&mut prefix, app_name);
    if starts_with(name, prefix.as_str()) && ends_with(name, ".jsonl") {
        return true;
    }
    let mut rotated = String::from_str(BACKEND_LOG_NAME);
    rotated.append(".");
    str_eq(name, BACKEND_LOG_NAME) || starts_with(name, rotated.as_str())
}

/// Which entries a clearing considers.
#[derive(Debug, Clone, Copy, PartialEq, Eq, Structural)]
pub enum Filter {
    /// Regular files whose name is a debug log of the application.
    DebugLogs,
    /// Every regular file.
    AllFiles,
}

/// Whether a clearing with `filter` takes `entry`. Only regular files are
/// ever taken, and only those whose name is text and can be the name of
/// an entry of a directory; under `DebugLogs` the name must be that of a
/// debug log as well.
pub open spec fn takes(filter: Filter, entry: DirectoryEntry, app_name: Seq<char>) -> bool {
    &&& entry.is_file
    &&& entry.file_name matches Some(name)
    &&& is_plain_name(name@)
    &&& match filter {
        Filter::AllFiles => true,
        Filter::DebugLogs => is_debug_log(name@, app_name),
    }
}

/// The paths of the entries of `directory` that a clearing with `filter`
/// takes, in listing order: the directory with the name of each entry
/// joined to it.
pub open spec fn taken_paths(
    filter: Filter,
    directory: Seq<char>,
    entries: Seq<DirectoryEntry>,
    app_name: Seq<char>,
) -> Seq<Seq<char>>
    decreases entries.len(),
{
    if entries.len() == 0 {
        Seq::empty()
    } else if takes(filter, entries.last(), app_name) {
        taken_paths(filter, directory, entries.drop_last(), app_name).push(
            joined_path(directory, entries.last().file_name->0@),
        )
    } else {
        taken_paths(filter, directory, entries.drop_last(), app_name)
    }
}

/// Whether a clearing with `filter` takes `entry`.
pub fn is_taken(filter: Filter, entry: &DirectoryEntry, app_name: &str) -> (r: bool)
    ensures
        r == takes(filter, *entry, app_name@),
{
    if !entry.is_file {
        return false;
    }
    match &entry.file_name {
        Some(name) => is_plain(name.as_str()) && match filter {
            Filter::AllFiles => true,
            Filter::DebugLogs => is_debug_log_name(name.as_str(), app_name),
        },
        None => false,
    }
}

/// The files of the listing of `directory` that a clearing takes, by
/// path.
pub fn files_to_clear(
    filter: Filter,
    directory: &str,
    entries: &Vec<DirectoryEntry>,
    app_name: &str,
) -> (r: Vec<String>)
    ensures
        r.deep_view() == taken_paths(filter, directory@, entries@, app_name@),
{
    let mut out: Vec<String> = Vec::new();
    let mut i: usize = 0;
    while i < entries.len()
        invariant
            i <= entries.len(),
            out.deep_view() == taken_paths(
                filter,
                directory@,
                entries@.take(i as int),
                app_name@,
            ),
        decreases entries.len() - i,
    {
        let ghost before = out.deep_view();
        let entry = &entries[i];
        proof {
            assert(entries@.take(i + 1).last() == *entry);
            assert(entries@.take(i + 1).drop_last() == entries@.take(i as int));
        }
        if is_taken(filter, entry, app_name) {
            match &entry.file_name {
                Some(name) => {
                    let path = join_path(directory, name.as_str());
                    out.push(path);
                    assert(out.deep_view() == before.push(joined_path(directory@, name@)));
                },
                None => {},
            }
        }
        i += 1;
    }
    assert(entries@.take(entries.len() as int) == entries@);
    out
}

/// Report of one clearing: the paths that were deleted, those that were
/// truncated in place because deletion was blocked, and those that could
/// be neither deleted nor truncated.
#[derive(Debug)]
pub struct ClearLogFilesReport {
    pub deleted_paths: Vec<String>,
    pub truncated_paths: Vec<String>,
    pub failed_paths: Vec<String>,
}

/// A report as three sequences of paths.
pub struct ReportView {
    pub deleted: Seq<Seq<char>>,
    pub truncated: Seq<Seq<char>>,
    pub failed: Seq<Seq<char>>,
}

impl ReportView {
    /// The report that lists nothing.
    pub open spec fn empty() -> ReportView {
        ReportView { deleted: Seq::empty(), truncated: Seq::empty(), failed: Seq::empty() }
    }

    /// This report with `path` added under `heading`.
    pub open spec fn with(self, path: Seq<char>, heading: Disposition) -> ReportView {
        match heading {
            Disposition::Deleted => ReportView { deleted: self.deleted.push(path), ..self },
            Disposition::Truncated => ReportView { truncated: self.truncated.push(path), ..self },
            Disposition::Failed => ReportView { failed: self.failed.push(path), ..self },
        }
    }

    /// The paths under `heading`.
    pub open spec fn under(self, heading: Disposition) -> Seq<Seq<char>> {
        match heading {
            Disposition::Deleted => self.deleted,
            Disposition::Truncated => self.truncated,
            Disposition::Failed => self.failed,
        }
    }

    /// This report followed by `other`, heading by heading.
    pub open spec fn followed_by(self, other: ReportView) -> ReportView {
        ReportView {
            deleted: self.deleted + other.deleted,
            truncated: self.truncated + other.truncated,
            failed: self.failed + other.failed,
        }
    }
}

/// The report of a clearing in which `paths[i]` was settled as
/// `settled[i]`: each path under its heading, in order.
pub open spec fn report_of(paths: Seq<Seq<char>>, settled: Seq<Disposition>) -> ReportView
    recommends
        settled.len() <= paths.len(),
    decreases settled.len(),
{
    if settled.len() == 0 {
        ReportView::empty()
    } else {
        report_of(paths, settled.drop_last()).with(paths[settled.len() - 1], settled.last())
    }
}

impl View for ClearLogFilesReport {
    type V = ReportView;

    open spec fn view(&self) -> ReportView {
        ReportView {
            deleted: self.deleted_paths.deep_view(),
            truncated: self.truncated_paths.deep_view(),
            failed: self.failed_paths.deep_view(),
        }
    }
}

impl Default for ClearLogFilesReport {
    fn default() -> (r: Self)
        ensures
            r@ == ReportView::empty(),
    {
        let r = ClearLogFilesReport {
            deleted_paths: Vec::new(),
            truncated_paths: Vec::new(),
            failed_paths: Vec::new(),
        };
        assert(r@.deleted =~= Seq::empty());
        assert(r@.truncated =~= Seq::empty());
        assert(r@.failed =~= Seq::empty());
        r
    }
}

impl ClearLogFilesReport {
    /// Lists `path` under `heading`.
    pub fn record(&mut self, path: String, heading: Disposition)
        ensures
            final(self)@ == old(self)@.with(path@, heading),
    {
        match heading {
            Disposition::Deleted => {
                self.deleted_paths.push(path);
                assert(self.deleted_paths.deep_view() == old(self).deleted_paths.deep_view().push(
                    path@,
                ));
            },
            Disposition::Truncated => {
                self.truncated_paths.push(path);
                assert(self.truncated_paths.deep_view() == old(
                    self,
                ).truncated_paths.deep_view().push(path@));
            },
            Disposition::Failed => {
                self.failed_paths.push(path);
                assert(self.failed_paths.deep_view() == old(self).failed_paths.deep_view().push(
                    path@,
                ));
            },
        }
    }

    /// Appends the entries of `other`, heading by heading: the report of
    /// two clearings run one after the other.
    pub fn absorb(&mut self, other: ClearLogFilesReport)
        ensures
            final(self)@ == old(self)@.followed_by(other@),
    {
        let mut other = other;
        append_paths(&mut self.deleted_paths, &mut other.deleted_paths);
        append_paths(&mut self.truncated_paths, &mut other.truncated_paths);
        append_paths(&mut self.failed_paths, &mut other.failed_paths);
    }
}

fn append_paths(to: &mut Vec<String>, from: &mut Vec<String>)
    ensures
        final(to).deep_view() == old(to).deep_view() + old(from).deep_view(),
{
    let ghost before = to.deep_view();
    let ghost added = from.deep_view();
    to.append(from);
    assert(to.deep_view() =~= before + added);
}

/// What a sweep asks its caller to do next.
#[derive(Debug)]
pub enum SweepAction {
    /// Try to delete the file at this path and report the outcome.
    Remove(String),
    /// Try to truncate the file at this path and report the outcome.
    Truncate(String),
    /// Nothing is left to do.
    Done,
}

/// What the caller reports back to a sweep.
#[derive(Debug, Clone, Copy, PartialEq, Eq, Structural)]
pub enum SweepEvent {
    /// The outcome of the deletion that was asked for.
    Removal(RemovalOutcome),
    /// The outcome of the truncation that was asked for.
    Truncation(TruncationOutcome),
}

/// A request of a sweep, with the path as a sequence of characters.
pub enum SweepRequest {
    Remove(Seq<char>),
    Truncate(Seq<char>),
    Done,
}

impl View for SweepAction {
    type V = SweepRequest;

    open spec fn view(&self) -> SweepRequest {
        match self {
            SweepAction::Remove(path) => SweepRequest::Remove(path@),
            SweepAction::Truncate(path) => SweepRequest::Truncate(path@),
            SweepAction::Done => SweepRequest::Done,
        }
    }
}

/// The state of a sweep: the paths it was given, the headings under
/// which the first of them were settled, and whether the next one is
/// waiting for a truncation.
pub struct SweepState {
    pub paths: Seq<Seq<char>>,
    pub settled: Seq<Disposition>,
    pub truncating: bool,
}

impl SweepState {
    /// No path is swept twice, no more files are settled than were
    /// given, and a truncation is only ever awaited for a file that is not
    /// settled yet.
    pub open spec fn wf(self) -> bool {
        &&& self.paths.no_duplicates()
        &&& self.settled.len() <= self.paths.len()
        &&& self.truncating ==> self.settled.len() < self.paths.len()
    }

    /// Every path is settled.
    pub open spec fn done(self) -> bool {
        self.settled.len() >= self.paths.len()
    }

    /// What the sweep asks for in this state.
    pub open spec fn request(self) -> SweepRequest {
        if self.done() {
            SweepRequest::Done
        } else if self.truncating {
            SweepRequest::Truncate(self.paths[self.settled.len() as int])
        } else {
            SweepRequest::Remove(self.paths[self.settled.len() as int])
        }
    }

    /// This state with the current path settled under `heading`.
    pub open spec fn settle(self, heading: Disposition) -> SweepState {
        SweepState { paths: self.paths, settled: self.settled.push(heading), truncating: false }
    }

    /// The state after `event`. The answer to the request that is open
    /// settles the current path or turns the request into a truncation;
    /// an answer to anything else changes nothing.
    pub open spec fn step(self, event: SweepEvent) -> SweepState {
        if self.done() {
            self
        } else {
            match event {
                SweepEvent::Removal(outcome) => if self.truncating {
                    self
                } else {
                    match removal_rule(outcome) {
                        AfterRemoval::Settled(heading) => self.settle(heading),
                        AfterRemoval::TruncateInstead => SweepState { truncating: true, ..self },
                    }
                },
                SweepEvent::Truncation(outcome) => if self.truncating {
                    self.settle(truncation_rule(outcome))
                } else {
                    self
                },
            }
        }
    }

    /// The report of what is settled so far.
    pub open spec fn report(self) -> ReportView {
        if self.settled.len() <= self.paths.len() {
            report_of(self.paths, self.settled)
        } else {
            report_of(self.paths, self.settled.take(self.paths.len() as int))
        }
    }
}

/// `paths` without the paths that stand in it a second time: of each
/// path the first occurrence, in order.
pub open spec fn without_repeats(paths: Seq<Seq<char>>) -> Seq<Seq<char>>
    decreases paths.len(),
{
    if paths.len() == 0 {
        Seq::empty()
    } else {
        let earlier = without_repeats(paths.drop_last());
        if earlier.contains(paths.last()) {
            earlier
        } else {
            earlier.push(paths.last())
        }
    }
}

/// Leaving repeats out leaves every path in, once.
pub proof fn lemma_without_repeats(paths: Seq<Seq<char>>)
    ensures
        without_repeats(paths).no_duplicates(),
        forall|path: Seq<char>|
            without_repeats(paths).contains(path) <==> #[trigger] paths.contains(path),
    decreases paths.len(),
{
    let kept = without_repeats(paths);
    if paths.len() > 0 {
        let before = paths.drop_last();
        let earlier = without_repeats(before);
        lemma_without_repeats(before);
        assert forall|path: Seq<char>| kept.contains(path) <==> #[trigger] paths.contains(
            path,
        ) by {
            if paths.contains(path) {
                let i = choose|i: int| 0 <= i < paths.len() && paths[i] == path;
                if i < before.len() {
                    assert(before[i] == path);
                    assert(before.contains(path));
                    assert(earlier.contains(path));
                    let k = choose|k: int| 0 <= k < earlier.len() && earlier[k] == path;
                    assert(kept[k] == path);
                } else if !earlier.contains(paths.last()) {
                    assert(kept[earlier.len() as int] == path);
                }
            }
            if kept.contains(path) {
                let k = choose|k: int| 0 <= k < kept.len() && kept[k] == path;
                if k < earlier.len() {
                    assert(earlier[k] == path);
                    assert(earlier.contains(path));
                    assert(before.contains(path));
                    let i = choose|i: int| 0 <= i < before.len() && before[i] == path;
                    assert(paths[i] == path);
                } else {
                    assert(paths[paths.len() - 1] == path);
                }
            }
        }
    }
}

/// Whether `path` is one of `paths`.
fn holds_path(paths: &Vec<String>, path: &String) -> (r: bool)
    ensures
        r == paths.deep_view().contains(path@),
{
    let mut i: usize = 0;
    while i < paths.len()
        invariant
            i <= paths.len(),
            forall|j: int| 0 <= j < i ==> paths.deep_view()[j] != path@,
        decreases paths.len() - i,
    {
        if paths[i] == *path {
            assert(paths.deep_view()[i as int] == path@);
            return true;
        }
        i += 1;
    }
    false
}

/// `paths` without the paths that stand in it a second time.
pub fn distinct_paths(paths: Vec<String>) -> (r: Vec<String>)
    ensures
        r.deep_view() == without_repeats(paths.deep_view()),
        r.deep_view().no_duplicates(),
{
    let ghost all = paths.deep_view();
    let mut out: Vec<String> = Vec::new();
    let mut i: usize = 0;
    assert(all.take(0) =~= Seq::empty());
    assert(out.deep_view() =~= Seq::empty());
    while i < paths.len()
        invariant
            i <= paths.len(),
            all == paths.deep_view(),
            out.deep_view() == without_repeats(all.take(i as int)),
        decreases paths.len() - i,
    {
        let ghost before = out.deep_view();
        proof {
            assert(all.take(i + 1).drop_last() == all.take(i as int));
            assert(all.take(i + 1).last() == paths[i as int]@);
        }
        if !holds_path(&out, &paths[i]) {
            out.push(paths[i].clone());
            assert(out.deep_view() =~= before.push(paths[i as int]@));
        }
        i += 1;
    }
    proof {
        assert(all.take(paths.len() as int) == all);
        lemma_without_repeats(all);
    }
    out
}

/// One clearing in progress over a fixed list of paths. The sweep asks
/// for one deletion per path, and for a truncation where the deletion
/// was refused for want of permission; no outcome ends it early.
pub struct Sweep {
    paths: Vec<String>,
    settled: Vec<Disposition>,
    truncating: bool,
}

impl View for Sweep {
    type V = SweepState;

    closed spec fn view(&self) -> SweepState {
        SweepState {
            paths: self.paths.deep_view(),
            settled: self.settled@,
            truncating: self.truncating,
        }
    }
}

impl Sweep {
    /// A sweep over `paths`, none of them settled. A path that stands
    /// in `paths` more than once is swept once.
    pub fn new(paths: Vec<String>) -> (r: Self)
        ensures
            r@ == (SweepState {
                paths: without_repeats(paths.deep_view()),
                settled: Seq::empty(),
                truncating: false,
            }),
            r@.wf(),
    {
        Sweep { paths: distinct_paths(paths), settled: Vec::new(), truncating: false }
    }

    /// Whether every path is settled.
    pub fn is_done(&self) -> (r: bool)
        ensures
            r == self@.done(),
    {
        self.settled.len() >= self.paths.len()
    }

    /// What the caller is to do next.
    pub fn pending(&self) -> (r: SweepAction)
        ensures
            r@ == self@.request(),
    {
        let at = self.settled.len();
        if at >= self.paths.len() {
            SweepAction::Done
        } else if self.truncating {
            SweepAction::Truncate(self.paths[at].clone())
        } else {
            SweepAction::Remove(self.paths[at].clone())
        }
    }

    /// Takes the outcome of what was asked for and returns what to do
    /// next.
    pub fn advance(&mut self, event: SweepEvent) -> (r: SweepAction)
        ensures
            final(self)@ == old(self)@.step(event),
            r@ == final(self)@.request(),
            old(self)@.wf() ==> final(self)@.wf(),
    {
        if self.settled.len() < self.paths.len() {
            match event {
                SweepEvent::Removal(outcome) => {
                    if !self.truncating {
                        match after_removal(outcome) {
                            AfterRemoval::Settled(heading) => {
                                self.settled.push(heading);
                            },
                            AfterRemoval::TruncateInstead => {
                                self.truncating = true;
                            },
                        }
                    }
                },
                SweepEvent::Truncation(outcome) => {
                    if self.truncating {
                        self.settled.push(after_truncation(outcome));
                        self.truncating = false;
                    }
                },
            }
        }
        self.pending()
    }

    /// The report of what is settled so far; of a sweep that is done, the
    /// report of the whole clearing.
    pub fn report(&self) -> (r: ClearLogFilesReport)
        ensures
            r@ == self@.report(),
    {
        let count = if self.settled.len() <= self.paths.len() {
            self.settled.len()
        } else {
            self.paths.len()
        };
        let ghost settled = self.settled@.take(count as int);
        assert(self@.report() == report_of(self.paths.deep_view(), settled)) by {
            assert(self.settled.len() <= self.paths.len() ==> settled == self.settled@);
        }
        let mut out = ClearLogFilesReport::default();
        let mut i: usize = 0;
        while i < count
            invariant
                i <= count <= self.paths.len(),
                count <= self.settled.len(),
                settled == self.settled@.take(count as int),
                out@ == report_of(self.paths.deep_view(), settled.take(i as int)),
            decreases count - i,
        {
            proof {
                assert(settled.take(i + 1).drop_last() == settled.take(i as int));
                assert(settled.take(i + 1).last() == self.settled@[i as int]);
            }
            out.record(self.paths[i].clone(), self.settled[i]);
            i += 1;
        }
        assert(settled.take(count as int) == settled);
        out
    }
}

/// The sweep that clears one directory: over the regular files directly
/// inside it that pass `filter`, in listing order. Directories inside it
/// are not entered.
pub fn clear_matching(
    filter: Filter,
    directory: &str,
    entries: &Vec<DirectoryEntry>,
    app_name: &str,
) -> (r: Sweep)
    ensures
        r@ == (SweepState {
            paths: without_repeats(taken_paths(filter, directory@, entries@, app_name@)),
            settled: Seq::empty(),
            truncating: false,
        }),
        r@.wf(),
{
    Sweep::new(files_to_clear(filter, directory, entries, app_name))
}

/// The paths that a clearing of the debug tools' files takes under the
/// log root `log_root`, in the order in which they are swept: the debug
/// logs among the entries of the log root, then every regular file of the
/// directory of stored documents, then every regular file of the
/// directory of screenshots.
pub open spec fn paths_to_clear(
    log_root: Seq<char>,
    app_name: Seq<char>,
    log_entries: Seq<DirectoryEntry>,
    dom_entries: Seq<DirectoryEntry>,
    screenshot_entries: Seq<DirectoryEntry>,
) -> Seq<Seq<char>> {
    taken_paths(Filter::DebugLogs, log_root, log_entries, app_name) + taken_paths(
        Filter::AllFiles,
        joined_path(log_root, "dom_snapshots"@),
        dom_entries,
        app_name,
    ) + taken_paths(
        Filter::AllFiles,
        joined_path(log_root, "screenshots"@),
        screenshot_entries,
        app_name,
    )
}

/// The sweep that clears the files of the debug tools, from the listings
/// of the log root and of its two capture directories. A directory that
/// does not exist is listed as empty. Nothing below the listed
/// directories is entered, and every path is made here, from the log
/// root of the configuration and the name of a listed entry.
pub fn clear_debug_log_files(
    config: &DebugToolsConfig,
    app_name: &str,
    log_entries: &Vec<DirectoryEntry>,
    dom_entries: &Vec<DirectoryEntry>,
    screenshot_entries: &Vec<DirectoryEntry>,
) -> (r: Sweep)
    ensures
        r@ == (SweepState {
            paths: without_repeats(
                paths_to_clear(
                    config.log_dir@,
                    app_name@,
                    log_entries@,
                    dom_entries@,
                    screenshot_entries@,
                ),
            ),
            settled: Seq::empty(),
            truncating: false,
        }),
        r@.wf(),
{
    let dom_dir = config.dom_snapshot_dir();
    let screenshot_dir = config.screenshot_dir();
    let mut paths = files_to_clear(
        Filter::DebugLogs,
        config.log_dir.as_str(),
        log_entries,
        app_name,
    );
    let mut documents = files_to_clear(Filter::AllFiles, dom_dir.as_str(), dom_entries, app_name);
    let mut screenshots = files_to_clear(
        Filter::AllFiles,
        screenshot_dir.as_str(),
        screenshot_entries,
        app_name,
    );
    append_paths(&mut paths, &mut documents);
    append_paths(&mut paths, &mut screenshots);
    Sweep::new(paths)
}

/// A clearing takes nothing that was not listed: every path it takes is
/// the directory with the name of a listed entry joined to it, and that
/// entry is a regular file that passes the filter.
pub proof fn law_taken_paths_are_listed(
    filter: Filter,
    directory: Seq<char>,
    entries: Seq<DirectoryEntry>,
    app_name: Seq<char>,
    path: Seq<char>,
)
    requires
        taken_paths(filter, directory, entries, app_name).contains(path),
    ensures
        exists|i: int|
            0 <= i < entries.len() && takes(filter, #[trigger] entries[i], app_name) && path
                == joined_path(directory, entries[i].file_name->0@),
    decreases entries.len(),
{
    let taken = taken_paths(filter, directory, entries, app_name);
    let k = choose|k: int| 0 <= k < taken.len() && taken[k] == path;
    if entries.len() > 0 {
        let earlier = taken_paths(filter, directory, entries.drop_last(), app_name);
        if takes(filter, entries.last(), app_name) && k == earlier.len() {
            assert(takes(filter, entries[entries.len() - 1], app_name));
        } else {
            assert(earlier[k] == path);
            law_taken_paths_are_listed(filter, directory, entries.drop_last(), app_name, path);
            let i = choose|i: int|
                0 <= i < entries.drop_last().len() && takes(
                    filter,
                    #[trigger] entries.drop_last()[i],
                    app_name,
                ) && path == joined_path(directory, entries.drop_last()[i].file_name->0@);
            assert(entries[i] == entries.drop_last()[i]);
        }
    }
}

/// The two capture directories have names that can be names of entries.
proof fn lemma_capture_directories_are_plain()
    ensures
        is_plain_name("dom_snapshots"@),
        is_plain_name("screenshots"@),
{
    reveal_strlit("dom_snapshots");
    reveal_strlit("screenshots");
}

/// The paths that a clearing takes from one directory lie under that
/// directory, and hold a parent directory segment only where the
/// directory does.
pub proof fn lemma_taken_paths_lie_under(
    filter: Filter,
    directory: Seq<char>,
    entries: Seq<DirectoryEntry>,
    app_name: Seq<char>,
    path: Seq<char>,
)
    requires
        taken_paths(filter, directory, entries, app_name).contains(path),
    ensures
        lies_under(path, directory),
        !has_parent_segment(directory) ==> !has_parent_segment(path),
{
    law_taken_paths_are_listed(filter, directory, entries, app_name, path);
    let i = choose|i: int|
        0 <= i < entries.len() && takes(filter, #[trigger] entries[i], app_name) && path
            == joined_path(directory, entries[i].file_name->0@);
    let name = entries[i].file_name->0@;
    lemma_joined_lies_under(directory, name);
    if !has_parent_segment(directory) {
        lemma_joined_has_no_parent_segment(directory, name);
    }
}

/// A clearing never touches a file outside the log root: every path that
/// it takes lies under the log root, and where the log root holds no
/// parent directory segment the path holds none either, so that it passes
/// the test for paths under the log root.
pub proof fn law_clearing_stays_under_log_root(
    log_root: Seq<char>,
    app_name: Seq<char>,
    log_entries: Seq<DirectoryEntry>,
    dom_entries: Seq<DirectoryEntry>,
    screenshot_entries: Seq<DirectoryEntry>,
    path: Seq<char>,
)
    requires
        without_repeats(
            paths_to_clear(log_root, app_name, log_entries, dom_entries, screenshot_entries),
        ).contains(path),
    ensures
        lies_under(path, log_root),
        !has_parent_segment(log_root) ==> path_decision(path, log_root) == Ok::<
            (),
            PathRejection,
        >(()),
{
    let logs = taken_paths(Filter::DebugLogs, log_root, log_entries, app_name);
    let dom_dir = joined_path(log_root, "dom_snapshots"@);
    let documents = taken_paths(Filter::AllFiles, dom_dir, dom_entries, app_name);
    let screenshot_dir = joined_path(log_root, "screenshots"@);
    let screenshots = taken_paths(Filter::AllFiles, screenshot_dir, screenshot_entries, app_name);
    let all = logs + documents + screenshots;
    lemma_without_repeats(all);
    assert(all.contains(path));
    let k = choose|k: int| 0 <= k < all.len() && all[k] == path;
    lemma_capture_directories_are_plain();
    if k < logs.len() {
        assert(logs[k] == path);
        assert(logs.contains(path));
        lemma_taken_paths_lie_under(Filter::DebugLogs, log_root, log_entries, app_name, path);
    } else if k < logs.len() + documents.len() {
        assert(documents[k - logs.len()] == path);
        assert(documents.contains(path));
        lemma_taken_paths_lie_under(Filter::AllFiles, dom_dir, dom_entries, app_name, path);
        lemma_joined_lies_under(log_root, "dom_snapshots"@);
        lemma_lies_under_transitive(path, dom_dir, log_root);
        if !has_parent_segment(log_root) {
            lemma_joined_has_no_parent_segment(log_root, "dom_snapshots"@);
        }
    } else {
        assert(screenshots[k - logs.len() - documents.len()] == path);
        assert(screenshots.contains(path));
        lemma_taken_paths_lie_under(
            Filter::AllFiles,
            screenshot_dir,
            screenshot_entries,
            app_name,
            path,
        );
        lemma_joined_lies_under(log_root, "screenshots"@);
        lemma_lies_under_transitive(path, screenshot_dir, log_root);
        if !has_parent_segment(log_root) {
            lemma_joined_has_no_parent_segment(log_root, "screenshots"@);
        }
    }
}

/// Every settled path is listed exactly once: the three headings of a
/// report together hold as many paths as were settled.
pub proof fn law_report_lists_each_once(paths: Seq<Seq<char>>, settled: Seq<Disposition>)
    requires
        settled.len() <= paths.len(),
    ensures
        report_of(paths, settled).deleted.len() + report_of(paths, settled).truncated.len()
            + report_of(paths, settled).failed.len() == settled.len(),
    decreases settled.len(),
{
    if settled.len() > 0 {
        law_report_lists_each_once(paths, settled.drop_last());
    }
}

/// A path stands under a heading of the report exactly when some file
/// with that path was settled under that heading.
pub proof fn law_report_membership(
    paths: Seq<Seq<char>>,
    settled: Seq<Disposition>,
    heading: Disposition,
    path: Seq<char>,
)
    requires
        settled.len() <= paths.len(),
    ensures
        report_of(paths, settled).under(heading).contains(path) <==> exists|i: int|
            0 <= i < settled.len() && paths[i] == path && #[trigger] settled[i] == heading,
    decreases settled.len(),
{
    let listed = report_of(paths, settled).under(heading);
    if settled.len() == 0 {
        assert(listed =~= Seq::empty());
    } else {
        let before = settled.drop_last();
        let last = settled.len() - 1;
        law_report_membership(paths, before, heading, path);
        let earlier = report_of(paths, before).under(heading);
        if settled.last() == heading {
            assert(listed == earlier.push(paths[last]));
            if listed.contains(path) {
                let k = choose|k: int| 0 <= k < listed.len() && listed[k] == path;
                if k < earlier.len() {
                    assert(earlier[k] == path);
                    assert(earlier.contains(path));
                    let i = choose|i: int|
                        0 <= i < before.len() && paths[i] == path && #[trigger] before[i]
                            == heading;
                    assert(settled[i] == heading);
                } else {
                    assert(settled[last] == heading);
                }
            }
            if exists|i: int|
                0 <= i < settled.len() && paths[i] == path && #[trigger] settled[i] == heading {
                let i = choose|i: int|
                    0 <= i < settled.len() && paths[i] == path && #[trigger] settled[i] == heading;
                if i < last {
                    assert(before[i] == heading);
                    assert(earlier.contains(path));
                    let k = choose|k: int| 0 <= k < earlier.len() && earlier[k] == path;
                    assert(listed[k] == path);
                } else {
                    assert(listed[earlier.len() as int] == path);
                }
            }
        } else {
            assert(listed == earlier);
            if exists|i: int|
                0 <= i < settled.len() && paths[i] == path && #[trigger] settled[i] == heading {
                let i = choose|i: int|
                    0 <= i < settled.len() && paths[i] == path && #[trigger] settled[i] == heading;
                assert(before[i] == heading);
            }
            if earlier.contains(path) {
                let i = choose|i: int|
                    0 <= i < before.len() && paths[i] == path && #[trigger] before[i] == heading;
                assert(settled[i] == heading);
            }
        }
    }
}

/// The headings of a report are disjoint: no path of a sweep stands
/// under two headings of its report.
pub proof fn law_report_headings_disjoint(
    state: SweepState,
    one: Disposition,
    other: Disposition,
    path: Seq<char>,
)
    requires
        state.wf(),
        one != other,
    ensures
        !(state.report().under(one).contains(path) && state.report().under(other).contains(
            path,
        )),
{
    law_report_membership(state.paths, state.settled, one, path);
    law_report_membership(state.paths, state.settled, other, path);
}

/// No heading of a report holds a path twice.
pub proof fn law_report_holds_no_path_twice(state: SweepState, heading: Disposition)
    requires
        state.wf(),
    ensures
        state.report().under(heading).no_duplicates(),
{
    lemma_heading_has_no_repeats(state.paths, state.settled, heading);
}

/// Where the paths are distinct, so are those under each heading of
/// their report.
pub proof fn lemma_heading_has_no_repeats(
    paths: Seq<Seq<char>>,
    settled: Seq<Disposition>,
    heading: Disposition,
)
    requires
        settled.len() <= paths.len(),
        paths.no_duplicates(),
    ensures
        report_of(paths, settled).under(heading).no_duplicates(),
    decreases settled.len(),
{
    if settled.len() > 0 {
        let before = settled.drop_last();
        let last = settled.len() - 1;
        let earlier = report_of(paths, before).under(heading);
        lemma_heading_has_no_repeats(paths, before, heading);
        if settled.last() == heading {
            assert(report_of(paths, settled).under(heading) == earlier.push(paths[last]));
            law_report_membership(paths, before, heading, paths[last]);
            if earlier.contains(paths[last]) {
                let i = choose|i: int|
                    0 <= i < before.len() && paths[i] == paths[last] && #[trigger] before[i]
                        == heading;
                assert(i != last);
            }
            assert forall|j: int, k: int|
                0 <= j < earlier.len() + 1 && 0 <= k < earlier.len() + 1 && j != k implies earlier.push(
                paths[last],
            )[j] != earlier.push(paths[last])[k] by {
                if j == earlier.len() {
                    assert(earlier[k] != paths[last]);
                } else if k == earlier.len() {
                    assert(earlier[j] != paths[last]);
                }
            }
        } else {
            assert(report_of(paths, settled).under(heading) == earlier);
        }
    }
}

/// No answer ends a sweep early: whatever the file system answers, the
/// current path is settled after the answer to its deletion, or after
/// the answer to the truncation that a refused deletion leads to, and
/// the sweep then asks for the next path.
pub proof fn law_sweep_settles_every_path(
    state: SweepState,
    removal: RemovalOutcome,
    truncation: TruncationOutcome,
)
    requires
        state.wf(),
        !state.done(),
        !state.truncating,
    ensures
        state.request() == SweepRequest::Remove(state.paths[state.settled.len() as int]),
        removal != RemovalOutcome::PermissionDenied ==> state.step(SweepEvent::Removal(removal))
            == state.settle(removal_rule(removal)->Settled_0),
        removal == RemovalOutcome::PermissionDenied ==> {
            let waiting = state.step(SweepEvent::Removal(removal));
            &&& waiting.request() == SweepRequest::Truncate(state.paths[state.settled.len() as int])
            &&& waiting.step(SweepEvent::Truncation(truncation)) == state.settle(
                truncation_rule(truncation),
            )
        },
        state.settle(Disposition::Failed).wf(),
        state.settle(Disposition::Failed).settled.len() == state.settled.len() + 1,
{
}

} // verus!
