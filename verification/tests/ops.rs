//! Validation, confirmation gating, and pagination of the command set.

use oxide_cli::api::ApiCall;
use oxide_cli::cmd_disk::{CmdDiskAttach, CmdDiskDelete, CmdDiskDetach, CmdDiskList, CmdDiskView};
use oxide_cli::delete::{DeleteStart, DeleteStep};
use oxide_cli::error::CmdError;
use oxide_cli::record::ResourceRecord;
use oxide_cli::view::ViewPlan;

fn disk(name: &str) -> ResourceRecord {
    ResourceRecord {
        id: format!("id-{}", name),
        name: name.to_string(),
        description: String::new(),
        state: "detached".to_string(),
        device_path: format!("/dev/{}", name),
        size: 1,
        snapshot_id: String::new(),
        time_created: Some(0),
        time_modified: None,
    }
}

fn list_cmd(limit: u32, paginate: bool) -> CmdDiskList {
    CmdDiskList {
        project: "web".to_string(),
        organization: "acme".to_string(),
        limit,
        paginate,
        json: false,
    }
}

/// A fixed server listing served in pages, counting every page request.
struct Facade {
    disks: Vec<ResourceRecord>,
    calls: usize,
}

impl Facade {
    fn page(&mut self, limit: u32, page_index: usize) -> (Vec<ResourceRecord>, Option<String>) {
        self.calls += 1;
        let k = limit as usize;
        let lo = (page_index * k).min(self.disks.len());
        let hi = ((page_index + 1) * k).min(self.disks.len());
        let items: Vec<ResourceRecord> = self.disks[lo..hi].iter().cloned().collect();
        let next = if hi < self.disks.len() { Some(format!("page{}", page_index + 1)) } else { None };
        (items, next)
    }
}

#[test]
fn list_rejects_zero_limit_before_any_call() {
    let r = list_cmd(0, false).start();
    match r {
        Err(CmdError::InvalidArgument(m)) => assert_eq!(m, "--limit must be greater than 0"),
        _ => panic!("expected InvalidArgument"),
    }
}

#[test]
fn list_rejects_missing_scope_before_any_call() {
    let mut cmd = list_cmd(30, false);
    cmd.organization = String::new();
    match cmd.start() {
        Err(CmdError::InvalidArgument(m)) => {
            assert_eq!(m, "--organization and --project are required")
        }
        _ => panic!("expected InvalidArgument"),
    }
}

#[test]
fn list_single_page_takes_first_two_in_order() {
    let mut facade = Facade {
        disks: vec![disk("d1"), disk("d2"), disk("d3"), disk("d4"), disk("d5")],
        calls: 0,
    };
    let mut session = list_cmd(2, false).start().expect("valid arguments");
    let mut page_index = 0;
    while let Some(call) = session.next_request() {
        match call {
            ApiCall::GetPage { plural, organization, project, limit, .. } => {
                assert_eq!(plural, "disks");
                assert_eq!(organization, "acme");
                assert_eq!(project, "web");
                let (items, next) = facade.page(limit, page_index);
                page_index += 1;
                session.feed(items, next);
            }
            _ => panic!("a listing only fetches pages"),
        }
    }
    let records = session.into_records();
    assert_eq!(facade.calls, 1);
    assert_eq!(records.len(), 2);
    assert_eq!(records[0].name, "d1");
    assert_eq!(records[1].name, "d2");
}

#[test]
fn list_paginated_concatenates_all_pages_in_order() {
    let mut facade = Facade {
        disks: vec![disk("d1"), disk("d2"), disk("d3"), disk("d4"), disk("d5")],
        calls: 0,
    };
    let mut session = list_cmd(2, true).start().expect("valid arguments");
    let mut page_index = 0;
    while let Some(call) = session.next_request() {
        match call {
            ApiCall::GetPage { limit, .. } => {
                let (items, next) = facade.page(limit, page_index);
                page_index += 1;
                session.feed(items, next);
            }
            _ => panic!("a listing only fetches pages"),
        }
    }
    let records = session.into_records();
    assert_eq!(facade.calls, 3);
    let names: Vec<&str> = records.iter().map(|r| r.name.as_str()).collect();
    assert_eq!(names, vec!["d1", "d2", "d3", "d4", "d5"]);
}

#[test]
fn list_paginated_stops_on_short_page() {
    let mut facade = Facade { disks: vec![disk("d1")], calls: 0 };
    let mut session = list_cmd(2, true).start().expect("valid arguments");
    let (items, next) = facade.page(2, 0);
    session.feed(items, next);
    assert!(session.next_request().is_none());
    assert_eq!(facade.calls, 1);
    assert_eq!(session.into_records().len(), 1);
}

fn delete_cmd(confirm: bool) -> CmdDiskDelete {
    CmdDiskDelete {
        disk: "mydisk".to_string(),
        project: "web".to_string(),
        organization: "acme".to_string(),
        confirm,
    }
}

#[test]
fn delete_without_confirm_non_interactive_fails() {
    match delete_cmd(false).start(false) {
        DeleteStart::Fail(CmdError::InvalidArgument(m)) => {
            assert_eq!(m, "--confirm required when not running interactively")
        }
        _ => panic!("expected InvalidArgument"),
    }
}

#[test]
fn delete_with_confirm_calls_once_regardless_of_interactivity() {
    for can_prompt in [false, true] {
        let mut delete_calls = 0;
        match delete_cmd(true).start(can_prompt) {
            DeleteStart::Call(ApiCall::DeleteOne { plural, name, organization, project }) => {
                delete_calls += 1;
                assert_eq!(plural, "disks");
                assert_eq!(name, "mydisk");
                assert_eq!(organization, "acme");
                assert_eq!(project, "web");
            }
            _ => panic!("expected the single delete request"),
        }
        assert_eq!(delete_calls, 1);
    }
}

#[test]
fn delete_interactive_asks_for_scope_path() {
    match delete_cmd(false).start(true) {
        DeleteStart::Confirm { expected } => assert_eq!(expected, "acme/web"),
        _ => panic!("expected a confirmation request"),
    }
}

#[test]
fn delete_confirmation_exact_match_calls_once() {
    let cmd = delete_cmd(false);
    let mut delete_calls = 0;
    match cmd.confirm_input("acme/web") {
        DeleteStep::Call(ApiCall::DeleteOne { name, .. }) => {
            delete_calls += 1;
            assert_eq!(name, "mydisk");
        }
        _ => panic!("expected the single delete request"),
    }
    assert_eq!(delete_calls, 1);
    let success = cmd.success_message();
    assert!(success.contains("mydisk"));
    assert!(success.contains("acme/web"));
    assert_eq!(success, "Deleted disk mydisk from acme/web");
}

#[test]
fn delete_confirmation_trims_surrounding_whitespace() {
    match delete_cmd(false).confirm_input("  acme/web\n") {
        DeleteStep::Call(_) => {}
        _ => panic!("trimmed input must confirm"),
    }
}

#[test]
fn delete_confirmation_mismatch_makes_no_call() {
    for bad in ["acme/webx", "acme", "", "acme / web", "web/acme"] {
        match delete_cmd(false).confirm_input(bad) {
            DeleteStep::Fail(CmdError::MismatchedConfirmation) => {}
            _ => panic!("mismatched input must fail"),
        }
    }
}

#[test]
fn attach_plans_one_call_and_names_the_relation() {
    let cmd = CmdDiskAttach {
        disk: "mydisk".to_string(),
        instance: "web1".to_string(),
        project: "web".to_string(),
        organization: "acme".to_string(),
    };
    let plan = cmd.plan().expect("valid arguments");
    match plan.call {
        ApiCall::AttachDisk { disk, instance, .. } => {
            assert_eq!(disk, "mydisk");
            assert_eq!(instance, "web1");
        }
        _ => panic!("expected an attach request"),
    }
    assert_eq!(plan.success, "Attached disk mydisk to instance web1 in project acme/web");
}

#[test]
fn detach_plans_one_call_and_names_the_relation() {
    let cmd = CmdDiskDetach {
        disk: "mydisk".to_string(),
        instance: "web1".to_string(),
        project: "web".to_string(),
        organization: "acme".to_string(),
    };
    let plan = cmd.plan().expect("valid arguments");
    assert_eq!(plan.success, "Detached disk mydisk from instance web1 in project acme/web");
}

#[test]
fn attach_rejects_missing_scope() {
    let cmd = CmdDiskAttach {
        disk: "mydisk".to_string(),
        instance: "web1".to_string(),
        project: String::new(),
        organization: "acme".to_string(),
    };
    assert!(matches!(cmd.plan(), Err(CmdError::InvalidArgument(_))));
}

#[test]
fn view_web_builds_url_without_any_call() {
    let cmd = CmdDiskView {
        disk: "mydisk".to_string(),
        project: "web".to_string(),
        organization: "acme".to_string(),
        web: true,
        json: false,
    };
    match cmd.plan(&"oxide.computer".to_string()).expect("valid arguments") {
        ViewPlan::Browse { url } => {
            assert_eq!(url, "https://oxide.computer/acme/web/disks/mydisk")
        }
        _ => panic!("the web flag opens a browser"),
    }
}

#[test]
fn view_without_web_fetches_the_record() {
    let cmd = CmdDiskView {
        disk: "mydisk".to_string(),
        project: "web".to_string(),
        organization: "acme".to_string(),
        web: false,
        json: true,
    };
    match cmd.plan(&"oxide.computer".to_string()).expect("valid arguments") {
        ViewPlan::Fetch(ApiCall::GetOne { plural, name, .. }) => {
            assert_eq!(plural, "disks");
            assert_eq!(name, "mydisk");
        }
        _ => panic!("expected the single fetch"),
    }
}
