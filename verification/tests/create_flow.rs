//! The creation step machine: immediate calls, non-interactive rejection,
//! and the fixed interactive prompt order.

use oxide_cli::api::ApiCall;
use oxide_cli::cmd_disk::CmdDiskCreate;
use oxide_cli::create::{CreateAction, CreateEvent};
use oxide_cli::error::CmdError;

fn create_cmd() -> CmdDiskCreate {
    CmdDiskCreate {
        disk: String::new(),
        project: String::new(),
        organization: String::new(),
        description: String::new(),
        snapshot: String::new(),
        size: 0,
    }
}

#[test]
fn create_with_all_fields_calls_at_once() {
    let cmd = CmdDiskCreate {
        disk: "mydisk".to_string(),
        project: "web".to_string(),
        organization: "acme".to_string(),
        description: "a disk".to_string(),
        snapshot: "snap".to_string(),
        size: 1024,
    };
    let (session, action) = cmd.begin(false);
    assert!(session.done);
    match action {
        CreateAction::Call(ApiCall::CreateResource {
            plural,
            organization,
            project,
            name,
            description,
            snapshot,
            size,
        }) => {
            assert_eq!(plural, "disks");
            assert_eq!(organization, "acme");
            assert_eq!(project, "web");
            assert_eq!(name, "mydisk");
            assert_eq!(description, "a disk");
            assert_eq!(snapshot, "snap");
            assert_eq!(size, 1024);
        }
        _ => panic!("expected the single create request"),
    }
}

#[test]
fn create_no_arguments_non_interactive_fails_with_no_call() {
    let (session, action) = create_cmd().begin(false);
    assert!(session.done);
    match action {
        CreateAction::Fail(CmdError::InvalidArgument(m)) => {
            assert!(m.contains("non-interactive mode"));
            assert_eq!(m, "at least one argument required in non-interactive mode");
        }
        _ => panic!("expected InvalidArgument and zero requests"),
    }
}

#[test]
fn create_interactive_prompts_in_fixed_order() {
    let (mut s, mut action) = create_cmd().begin(true);
    assert!(matches!(action, CreateAction::PromptOrganization));
    action = s.on_event(CreateEvent::Text("acme".to_string()));
    match &action {
        CreateAction::FetchProjects { organization } => assert_eq!(organization, "acme"),
        _ => panic!("the project list comes after the organization"),
    }
    action = s.on_event(CreateEvent::Projects(vec!["api".to_string(), "web".to_string()]));
    assert!(matches!(action, CreateAction::SelectProject));
    assert_eq!(s.items, vec!["api".to_string(), "web".to_string()]);
    action = s.on_event(CreateEvent::Choice(1));
    assert!(matches!(action, CreateAction::PromptName));
    assert_eq!(s.project, "web");
    action = s.on_event(CreateEvent::Text("mydisk".to_string()));
    assert!(matches!(action, CreateAction::PromptDescription));
    action = s.on_event(CreateEvent::Text("a disk".to_string()));
    assert!(matches!(action, CreateAction::PromptSnapshot));
    action = s.on_event(CreateEvent::Text("snap".to_string()));
    assert!(matches!(action, CreateAction::PromptSize));
    action = s.on_event(CreateEvent::Number(4096));
    assert!(s.done);
    match action {
        CreateAction::Call(ApiCall::CreateResource { organization, project, name, size, .. }) => {
            assert_eq!(organization, "acme");
            assert_eq!(project, "web");
            assert_eq!(name, "mydisk");
            assert_eq!(size, 4096);
        }
        _ => panic!("expected the single create request"),
    }
}

#[test]
fn create_skips_fields_already_supplied() {
    let mut cmd = create_cmd();
    cmd.organization = "acme".to_string();
    cmd.project = "web".to_string();
    cmd.description = "given".to_string();
    let (mut s, action) = cmd.begin(true);
    assert!(matches!(action, CreateAction::PromptName));
    let action = s.on_event(CreateEvent::Text("mydisk".to_string()));
    assert!(matches!(action, CreateAction::PromptSnapshot));
}

#[test]
fn create_prompt_failure_aborts() {
    let (mut s, action) = create_cmd().begin(true);
    assert!(matches!(action, CreateAction::PromptOrganization));
    let action = s.on_event(CreateEvent::PromptError("stream closed".to_string()));
    assert!(s.done);
    match action {
        CreateAction::Fail(e @ CmdError::PromptFailed(_)) => {
            assert_eq!(e.message(), "prompt failed: stream closed");
        }
        _ => panic!("a prompt failure aborts the creation"),
    }
}

#[test]
fn create_success_line_names_resource_and_scope() {
    let singular = "disk".to_string();
    let name = "mydisk".to_string();
    let organization = "acme".to_string();
    let project = "web".to_string();
    let line = oxide_cli::actions::create_message(&singular, &name, &organization, &project);
    assert_eq!(line, "Successfully created disk mydisk in acme/web");
}

#[test]
fn create_reasks_on_empty_required_answer() {
    let (mut s, action) = create_cmd().begin(true);
    assert!(matches!(action, CreateAction::PromptOrganization));
    let action = s.on_event(CreateEvent::Text(String::new()));
    assert!(matches!(action, CreateAction::PromptOrganization));
    let action = s.on_event(CreateEvent::Text("acme".to_string()));
    assert!(matches!(action, CreateAction::FetchProjects { .. }));
    let action = s.on_event(CreateEvent::Projects(vec!["web".to_string()]));
    assert!(matches!(action, CreateAction::SelectProject));
    let action = s.on_event(CreateEvent::Choice(0));
    assert!(matches!(action, CreateAction::PromptName));
    let action = s.on_event(CreateEvent::Text(String::new()));
    assert!(matches!(action, CreateAction::PromptName));
    let action = s.on_event(CreateEvent::Text("mydisk".to_string()));
    assert!(matches!(action, CreateAction::PromptDescription));
    // An empty description is accepted; the remaining required fields are
    // asked again until answered.
    let action = s.on_event(CreateEvent::Text(String::new()));
    assert!(matches!(action, CreateAction::PromptSnapshot));
    let action = s.on_event(CreateEvent::Text(String::new()));
    assert!(matches!(action, CreateAction::PromptSnapshot));
    let action = s.on_event(CreateEvent::Text("snap".to_string()));
    assert!(matches!(action, CreateAction::PromptSize));
    let action = s.on_event(CreateEvent::Number(0));
    assert!(matches!(action, CreateAction::PromptSize));
    let action = s.on_event(CreateEvent::Number(2048));
    match action {
        CreateAction::Call(ApiCall::CreateResource { organization, project, description, size, .. }) => {
            assert_eq!(organization, "acme");
            assert_eq!(project, "web");
            assert_eq!(description, "");
            assert_eq!(size, 2048);
        }
        _ => panic!("expected the single create request"),
    }
}
