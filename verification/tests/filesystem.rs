use debug_tools::models::{DomSnapshotMetadata, DomState, ViewportInfo};
use debug_tools::config::DebugToolsConfig;
use debug_tools::filesystem::{append_chunk, dom_document, raw_snapshot_path, FileSystemRepository};
use std::sync::Arc;

fn repository() -> FileSystemRepository {
    let config = DebugToolsConfig { log_dir: "/var/log/dt".to_string(), ..DebugToolsConfig::default() };
    FileSystemRepository::new(Arc::new(config), "My App".to_string(), 77)
}

#[test]
fn console_log_path_is_that_of_application_and_process() {
    assert_eq!(repository().console_log_path(), "/var/log/dt/frontend_console_My_App_77.jsonl");
}

#[test]
fn snapshot_path_carries_the_timestamp() {
    assert_eq!(repository().snapshot_path(1_700_000_000), "/var/log/dt/snapshot_1700000000.json");
    assert_eq!(repository().snapshot_path(0), "/var/log/dt/snapshot_0.json");
    assert_eq!(repository().snapshot_path(-5), "/var/log/dt/snapshot_-5.json");
}

#[test]
fn documents_stand_in_their_own_directory() {
    assert_eq!(repository().dom_path(1_700_000_000), "/var/log/dt/dom_snapshots/dom_1700000000.html");
    assert_eq!(repository().dom_path(-1), "/var/log/dt/dom_snapshots/dom_-1.html");
}

#[test]
fn directories_that_have_to_exist() {
    assert_eq!(
        repository().directories(),
        vec!["/var/log/dt/screenshots".to_string(), "/var/log/dt/dom_snapshots".to_string()]
    );
}

#[test]
fn raw_snapshot_stands_in_the_temporary_directory() {
    assert_eq!(raw_snapshot_path("/tmp", 1_700_000_000), "/tmp/tauri_debug_snapshot_1700000000.json");
    assert_eq!(raw_snapshot_path("/tmp/", 0), "/tmp/tauri_debug_snapshot_0.json");
}

#[test]
fn stored_document_begins_with_its_metadata() {
    assert_eq!(
        dom_document("{\n  \"url\": \"http://x\"\n}", "<html></html>"),
        "<!--\nDOM Snapshot Metadata:\n{\n  \"url\": \"http://x\"\n}\n-->\n<html></html>"
    );
    assert_eq!(dom_document("", ""), "<!--\nDOM Snapshot Metadata:\n\n-->\n");
}

#[test]
fn appended_records_are_one_line_each() {
    let records = vec!["{\"a\":1}".to_string(), "{\"b\":2}".to_string()];
    assert_eq!(append_chunk(&records), Some("{\"a\":1}\n{\"b\":2}\n".to_string()));
    assert_eq!(append_chunk(&vec![String::new()]), Some("\n".to_string()));
}

#[test]
fn appending_nothing_writes_nothing() {
    assert_eq!(append_chunk(&Vec::new()), None);
}

#[test]
fn storing_a_document_names_its_place_and_text() {
    let dom = DomState {
        html: "<html/>".to_string(),
        url: "http://x/".to_string(),
        title: "T".to_string(),
        viewport: ViewportInfo { width: 3, height: 4 },
        captured_at: 99,
    };
    let (result, text) = repository().dom_snapshot(&dom, 100, "{}");
    assert_eq!(result.path, "/var/log/dt/dom_snapshots/dom_100.html");
    assert_eq!(result.metadata, DomSnapshotMetadata::of(&dom));
    assert_eq!(result.metadata.timestamp, 99);
    assert_eq!(text, "<!--\nDOM Snapshot Metadata:\n{}\n-->\n<html/>");
}
