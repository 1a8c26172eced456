//! The command router and the documentation generator.

use oxide_cli::cmd_disk::{CmdDisk, CmdDiskEdit, CmdDiskList, DiskSubCommand};
use oxide_cli::cmd_generate::{
    arg_def, arg_text, do_markdown, joined_name, man_page_line, man_page_lines, markdown_line,
    to_heading_level, AppNode, ArgInfo, HeadingLevel, MarkdownDocument, MdEvent,
};
use oxide_cli::cmd_image::{CmdImage, ImageSubCommand};
use oxide_cli::cmd_rack::{CmdRack, RackSubCommand};
use oxide_cli::cmd_role::{CmdRole, RoleSubCommand};
use oxide_cli::router::{ResourceListArgs, ResourceViewArgs, Workflow};

fn list_args() -> ResourceListArgs {
    ResourceListArgs {
        project: "web".to_string(),
        organization: "acme".to_string(),
        limit: 30,
        paginate: false,
        json: false,
    }
}

fn view_args() -> ResourceViewArgs {
    ResourceViewArgs {
        name: "thing".to_string(),
        project: "web".to_string(),
        organization: "acme".to_string(),
        web: false,
        json: false,
    }
}

#[test]
fn disk_router_maps_each_subcommand() {
    let host = "oxide.computer".to_string();
    let cmd = CmdDisk {
        subcmd: DiskSubCommand::List(CmdDiskList {
            project: "web".to_string(),
            organization: "acme".to_string(),
            limit: 30,
            paginate: false,
            json: false,
        }),
    };
    match cmd.dispatch(false, &host) {
        Workflow::List(Ok(session)) => assert_eq!(session.plural, "disks"),
        _ => panic!("a list subcommand starts a listing"),
    }
    let cmd = CmdDisk { subcmd: DiskSubCommand::Edit(CmdDiskEdit {}) };
    match cmd.dispatch(false, &host) {
        Workflow::Edit(m) => assert_eq!(m, "Not implemented yet."),
        _ => panic!("edit is not available"),
    }
}

#[test]
fn image_rack_role_routers_use_their_kind() {
    let host = "oxide.computer".to_string();
    match (CmdImage { subcmd: ImageSubCommand::List(list_args()) }).dispatch(false, &host) {
        Workflow::List(Ok(s)) => assert_eq!(s.plural, "images"),
        _ => panic!("a list subcommand starts a listing"),
    }
    match (CmdRack { subcmd: RackSubCommand::List(list_args()) }).dispatch(&host) {
        Workflow::List(Ok(s)) => assert_eq!(s.plural, "racks"),
        _ => panic!("a list subcommand starts a listing"),
    }
    match (CmdRole { subcmd: RoleSubCommand::View(view_args()) }).dispatch(&host) {
        Workflow::View(Ok(_)) => {}
        _ => panic!("a view subcommand plans a view"),
    }
}

#[test]
fn heading_levels_map_one_to_six() {
    assert_eq!(to_heading_level(1), HeadingLevel::H1);
    assert_eq!(to_heading_level(2), HeadingLevel::H2);
    assert_eq!(to_heading_level(6), HeadingLevel::H6);
}

fn limit_arg() -> ArgInfo {
    ArgInfo {
        name: "limit".to_string(),
        short: Some('l'),
        long: Some("limit".to_string()),
        takes_value: true,
        help: Some("Maximum number of disks to list.".to_string()),
    }
}

#[test]
fn argument_definitions_render_their_flags() {
    assert_eq!(arg_def(&limit_arg()), "-l/--limit=<limit>");
    let mut a = limit_arg();
    a.short = None;
    assert_eq!(arg_def(&a), "--limit=<limit>");
    a.long = None;
    a.takes_value = false;
    assert_eq!(arg_def(&a), "");
}

#[test]
fn argument_help_gets_a_separator_after_flags() {
    assert_eq!(arg_text(&limit_arg()), ": Maximum number of disks to list.");
    let mut a = limit_arg();
    a.short = None;
    a.long = None;
    assert_eq!(arg_text(&a), "Maximum number of disks to list.");
}

#[test]
fn nested_command_names_join_with_underscores() {
    assert_eq!(joined_name(&"oxide".to_string(), &"disk".to_string()), "oxide_disk");
    assert_eq!(joined_name(&"".to_string(), &"disk".to_string()), "");
    assert_eq!(
        man_page_line(&"oxide_disk".to_string()),
        "Generating man page for `oxide disk` -> oxide_disk.1"
    );
    assert_eq!(
        markdown_line(&"oxide_disk".to_string()),
        "Generating markdown for `oxide disk` -> oxide_disk.md"
    );
}

fn app_tree() -> AppNode {
    AppNode {
        name: "oxide".to_string(),
        about: Some("A command line for the cloud.".to_string()),
        args: vec![limit_arg()],
        subcommands: vec![
            AppNode {
                name: "disk".to_string(),
                about: None,
                args: Vec::new(),
                subcommands: vec![AppNode {
                    name: "list".to_string(),
                    about: None,
                    args: Vec::new(),
                    subcommands: Vec::new(),
                }],
            },
            AppNode {
                name: "rack".to_string(),
                about: None,
                args: Vec::new(),
                subcommands: Vec::new(),
            },
        ],
    }
}

#[test]
fn man_pages_cover_every_nested_command_depth_first() {
    let app = app_tree();
    let mut out: Vec<String> = Vec::new();
    man_page_lines(&app, &app.name, &mut out);
    assert_eq!(
        out,
        vec![
            "Generating man page for `oxide disk` -> oxide_disk.1".to_string(),
            "Generating man page for `oxide disk list` -> oxide_disk_list.1".to_string(),
            "Generating man page for `oxide rack` -> oxide_rack.1".to_string(),
        ]
    );
}

#[test]
fn markdown_document_opens_with_heading_and_summary() {
    let app = app_tree();
    let mut doc = MarkdownDocument { events: Vec::new() };
    do_markdown(&mut doc, &app, 2, false);
    assert!(matches!(doc.events[0], MdEvent::HeadingStart(HeadingLevel::H2)));
    match &doc.events[1] {
        MdEvent::Text(t) => assert_eq!(t, "oxide"),
        _ => panic!("the heading carries the command's name"),
    }
    assert!(matches!(doc.events[2], MdEvent::HeadingEnd(HeadingLevel::H2)));
    match &doc.events[4] {
        MdEvent::Text(t) => assert_eq!(t, "A command line for the cloud."),
        _ => panic!("the summary follows the heading"),
    }
    let texts: Vec<String> = doc
        .events
        .iter()
        .filter_map(|e| match e {
            MdEvent::Text(t) => Some(t.clone()),
            _ => None,
        })
        .collect();
    assert!(texts.contains(&"-l/--limit=<limit>".to_string()));
    assert!(texts.contains(&"Subcommands".to_string()));
    assert!(texts.contains(&"disk".to_string()));
    assert!(texts.contains(&"rack".to_string()));
    assert!(texts.contains(&"list".to_string()));
}

#[test]
fn markdown_progress_lines_cover_every_nested_command() {
    let app = app_tree();
    let mut out: Vec<String> = Vec::new();
    oxide_cli::cmd_generate::markdown_lines(&app, &app.name, &mut out);
    assert_eq!(
        out,
        vec![
            "Generating markdown for `oxide disk` -> oxide_disk.md".to_string(),
            "Generating markdown for `oxide disk list` -> oxide_disk_list.md".to_string(),
            "Generating markdown for `oxide rack` -> oxide_rack.md".to_string(),
        ]
    );
}
