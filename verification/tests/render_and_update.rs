//! Rendering output and the release-check decisions.

use oxide_cli::error::CmdError;
use oxide_cli::record::ResourceRecord;
use oxide_cli::render::{render_table, render_view};
use oxide_cli::update::{
    check_is_due, evaluate_release, is_ci, is_recent_release, is_under_homebrew,
    should_check_for_update, ReleaseInfo, StateEntry,
};

const DAY: i64 = 86400;

fn disk(name: &str, created: Option<i64>, modified: Option<i64>) -> ResourceRecord {
    ResourceRecord {
        id: format!("id-{}", name),
        name: name.to_string(),
        description: format!("{} stuff", name),
        state: "detached".to_string(),
        device_path: format!("/dev/{}", name),
        size: 1,
        snapshot_id: String::new(),
        time_created: created,
        time_modified: modified,
    }
}

#[test]
fn table_has_header_and_one_row_per_record() {
    let now = 10 * DAY;
    let rows = vec![disk("d1", Some(0), Some(7 * DAY)), disk("d2", Some(0), None)];
    let table = render_table(&rows, now);
    let lines: Vec<&str> = table.lines().collect();
    assert_eq!(lines.len(), 3);
    assert!(lines[0].starts_with("NAME"));
    assert!(lines[1].starts_with("d1"));
    assert!(lines[2].starts_with("d2"));
}

#[test]
fn table_humanizes_against_the_clock() {
    let now = 10 * DAY;
    let rows = vec![disk("d1", Some(0), Some(now - 3 * DAY))];
    let table = render_table(&rows, now);
    assert!(table.contains("3 days ago"), "got: {}", table);
}

#[test]
fn table_falls_back_to_creation_time_and_omits_missing_times() {
    let now = 10 * DAY;
    let rows = vec![disk("d1", Some(now - 2 * DAY), None), disk("d2", None, None)];
    let table = render_table(&rows, now);
    assert!(table.contains("2 days ago"));
    let lines: Vec<&str> = table.lines().collect();
    assert_eq!(lines.len(), 3);
}

#[test]
fn aligned_output_replaces_tabs_with_padding() {
    let rows = vec![disk("d1", Some(0), None), disk("longer-name", Some(0), None)];
    let table = render_table(&rows, 0);
    assert!(!table.contains('\t'));
    let lines: Vec<&str> = table.lines().collect();
    let col = lines[1].find("d1 stuff").expect("description column");
    let col2 = lines[2].find("longer-name stuff").expect("description column");
    assert_eq!(col, col2);
}

#[test]
fn view_lists_fields_and_times() {
    let now = 10 * DAY;
    let mut r = disk("d1", Some(now - DAY), Some(now - 2 * DAY));
    r.size = 4096;
    let out = render_view(&r, now);
    assert!(out.contains("id:"));
    assert!(out.contains("d1"));
    assert!(out.contains("4096"));
    assert!(out.contains("created:"));
    assert!(out.contains("modified:"));
    assert!(out.contains("a day ago") || out.contains("1 day ago"), "got: {}", out);
}

#[test]
fn view_omits_absent_times() {
    let out = render_view(&disk("d1", None, None), 0);
    assert!(!out.contains("created:"));
    assert!(!out.contains("modified:"));
}

#[test]
fn ci_detection_needs_any_marker() {
    assert!(!is_ci("", "", ""));
    assert!(is_ci("true", "", ""));
    assert!(is_ci("", "7", ""));
    assert!(is_ci("", "", "x"));
}

#[test]
fn update_check_wants_quiet_interactive_terminal() {
    assert!(should_check_for_update("", false, true, true));
    assert!(!should_check_for_update("1", false, true, true));
    assert!(!should_check_for_update("", true, true, true));
    assert!(!should_check_for_update("", false, false, true));
    assert!(!should_check_for_update("", false, true, false));
}

#[test]
fn update_check_throttles_to_once_a_day() {
    let release = ReleaseInfo { version: "1.0.0".to_string(), url: String::new(), published_at: 0 };
    let fresh = StateEntry { checked_for_update_at: 10 * DAY, latest_release: release };
    assert!(!check_is_due(&Some(fresh), 10 * DAY + DAY - 1));
    let release = ReleaseInfo { version: "1.0.0".to_string(), url: String::new(), published_at: 0 };
    let stale = StateEntry { checked_for_update_at: 10 * DAY, latest_release: release };
    assert!(check_is_due(&Some(stale), 11 * DAY));
    assert!(check_is_due(&None, 0));
}

#[test]
fn newer_release_is_announced() {
    let newer = ReleaseInfo { version: "0.2.0".to_string(), url: "u".to_string(), published_at: 5 };
    let announced = evaluate_release(newer, "0.1.0").expect("newer version announced");
    assert_eq!(announced.version, "0.2.0");
    assert_eq!(announced.published_at, 5);
}

#[test]
fn same_or_older_release_is_not_announced() {
    let same = ReleaseInfo { version: "0.1.0".to_string(), url: "u".to_string(), published_at: 5 };
    assert!(evaluate_release(same, "0.1.0").is_none());
    let older = ReleaseInfo { version: "0.0.9".to_string(), url: "u".to_string(), published_at: 5 };
    assert!(evaluate_release(older, "0.1.0").is_none());
}

#[test]
fn recent_release_is_within_a_day() {
    assert!(is_recent_release(10 * DAY, 10 * DAY - DAY + 1));
    assert!(!is_recent_release(10 * DAY, 10 * DAY - DAY));
}

#[test]
fn homebrew_detection_trims_the_prefix() {
    assert!(is_under_homebrew("/opt/homebrew/bin/oxide", "/opt/homebrew\n"));
    assert!(is_under_homebrew("/opt/homebrew/bin/oxide", "  /opt/homebrew  "));
    assert!(!is_under_homebrew("/usr/local/bin/oxide", "/opt/homebrew\n"));
}

#[test]
fn error_messages_read_as_single_lines() {
    let e = CmdError::InvalidArgument("--limit must be greater than 0".to_string());
    assert_eq!(e.message(), "--limit must be greater than 0");
    let e = CmdError::PromptFailed("stream closed".to_string());
    assert_eq!(e.message(), "prompt failed: stream closed");
    assert_eq!(CmdError::MismatchedConfirmation.message(), "mismatched confirmation");
    let e = CmdError::ServiceError("503 service unavailable".to_string());
    assert_eq!(e.message(), "503 service unavailable");
}
