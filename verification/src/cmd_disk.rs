//! The disk command: create, list, view, and delete disks, and attach or
//! detach a disk to or from an instance.

use vstd::prelude::*;

use crate::actions::ActionPlan;
use crate::create::{CreateAction, CreateSession};
use crate::delete::{DeleteStart, DeleteStep};
use crate::error::CmdError;
use crate::list::ListSession;
use crate::router::{
    attach_outcome, create_outcome, delete_outcome, detach_outcome, list_outcome, view_outcome,
    DeleteFlow, Workflow,
};
use crate::view::ViewPlan;

verus! {

/// Attach a disk to an instance.
pub struct CmdDiskAttach {
    /// The disk to attach.
    pub disk: String,
    /// The instance to attach the disk to.
    pub instance: String,
    /// The project that holds the disk and instance.
    pub project: String,
    /// The organization that holds the project.
    pub organization: String,
}

impl CmdDiskAttach {
    /// Plans the attach: one request and its success line, or
    /// `InvalidArgument` on a missing scope field.
    pub fn plan(&self) -> (r: Result<ActionPlan, CmdError>)
        ensures
            attach_outcome(self.disk, self.instance, self.organization, self.project, r),
    {
        crate::actions::attach_plan(&self.disk, &self.instance, &self.organization, &self.project)
    }
}

/// Detach a disk from an instance.
pub struct CmdDiskDetach {
    /// The disk to detach.
    pub disk: String,
    /// The instance to detach the disk from.
    pub instance: String,
    /// The project that holds the disk and instance.
    pub project: String,
    /// The organization that holds the project.
    pub organization: String,
}

impl CmdDiskDetach {
    /// Plans the detach: one request and its success line, or
    /// `InvalidArgument` on a missing scope field.
    pub fn plan(&self) -> (r: Result<ActionPlan, CmdError>)
        ensures
            detach_outcome(self.disk, self.instance, self.organization, self.project, r),
    {
        crate::actions::detach_plan(&self.disk, &self.instance, &self.organization, &self.project)
    }
}

/// Create a new disk.
pub struct CmdDiskCreate {
    /// The name of the disk to create; empty to be prompted.
    pub disk: String,
    /// The project that will hold the disk; empty to be prompted.
    pub project: String,
    /// The organization that holds the project; empty to be prompted.
    pub organization: String,
    /// The description for the disk; empty to be prompted.
    pub description: String,
    /// The snapshot for the disk; empty to be prompted.
    pub snapshot: String,
    /// The size to allocate for the disk, in bytes; zero to be prompted.
    pub size: i64,
}

impl CmdDiskCreate {
    /// Starts the creation step machine.
    pub fn begin(&self, can_prompt: bool) -> (r: (CreateSession, CreateAction))
        ensures
            create_outcome(
                self.disk,
                self.organization,
                self.project,
                self.description,
                self.snapshot,
                self.size,
                "disk"@,
                "disks"@,
                can_prompt,
                r,
            ),
    {
        crate::create::create_begin(
            String::from_str("disk"),
            String::from_str("disks"),
            self.disk.clone(),
            self.organization.clone(),
            self.project.clone(),
            self.description.clone(),
            self.snapshot.clone(),
            self.size,
            can_prompt,
        )
    }
}

/// Delete a disk.
pub struct CmdDiskDelete {
    /// The disk to delete.
    pub disk: String,
    /// The project to delete the disk from.
    pub project: String,
    /// The organization that holds the project.
    pub organization: String,
    /// Confirm deletion without prompting.
    pub confirm: bool,
}

impl CmdDiskDelete {
    /// Starts the deletion.
    pub fn start(&self, can_prompt: bool) -> (r: DeleteStart)
        ensures
            delete_outcome(
                self.disk,
                self.organization,
                self.project,
                self.confirm,
                "disks"@,
                can_prompt,
                r,
            ),
    {
        let plural = String::from_str("disks");
        crate::delete::delete_start(
            &plural,
            &self.disk,
            &self.organization,
            &self.project,
            self.confirm,
            can_prompt,
        )
    }

    /// Judges the operator's confirmation input.
    pub fn confirm_input(&self, input: &str) -> (r: DeleteStep)
        ensures
            crate::delete::confirmation_matches(input@, self.organization@, self.project@) ==> (
            r matches DeleteStep::Call(c) && crate::delete::delete_call_spec(
                "disks"@,
                self.disk@,
                self.organization@,
                self.project@,
                c,
            )),
            !crate::delete::confirmation_matches(input@, self.organization@, self.project@) ==> r
                == DeleteStep::Fail(CmdError::MismatchedConfirmation),
    {
        let plural = String::from_str("disks");
        crate::delete::delete_confirm(
            &plural,
            &self.disk,
            &self.organization,
            &self.project,
            input,
        )
    }

    /// The line printed once the service reports the deletion done.
    pub fn success_message(&self) -> (r: String)
        ensures
            r@ == crate::actions::delete_message_spec(
                "disk"@,
                self.disk@,
                self.organization@,
                self.project@,
            ),
    {
        let singular = String::from_str("disk");
        crate::actions::delete_message(&singular, &self.disk, &self.organization, &self.project)
    }
}

/// Edit disk settings.
pub struct CmdDiskEdit {
}

impl CmdDiskEdit {
    /// The line printed for this not-yet-available operation.
    pub fn message(&self) -> (r: String)
        ensures
            r@ == "Not implemented yet."@,
    {
        String::from_str("Not implemented yet.")
    }
}

/// List disks owned by a project.
pub struct CmdDiskList {
    /// The project that holds the disks.
    pub project: String,
    /// The organization that holds the project.
    pub organization: String,
    /// Maximum number of disks per page.
    pub limit: u32,
    /// Fetch all pages of disks.
    pub paginate: bool,
    /// Output structured text.
    pub json: bool,
}

impl CmdDiskList {
    /// Starts the listing.
    pub fn start(&self) -> (r: Result<ListSession, CmdError>)
        ensures
            list_outcome(
                self.organization,
                self.project,
                self.limit,
                self.paginate,
                self.json,
                "disks"@,
                r,
            ),
    {
        crate::list::list_start(
            String::from_str("disks"),
            self.organization.clone(),
            self.project.clone(),
            self.limit,
            self.paginate,
            self.json,
        )
    }
}

/// View a disk, or open it in a browser.
pub struct CmdDiskView {
    /// The disk to view.
    pub disk: String,
    /// The project that holds the disk.
    pub project: String,
    /// The organization that holds the project.
    pub organization: String,
    /// Open the disk in a browser instead of fetching it.
    pub web: bool,
    /// Output structured text.
    pub json: bool,
}

impl CmdDiskView {
    /// Plans the view under the given host.
    pub fn plan(&self, host: &String) -> (r: Result<ViewPlan, CmdError>)
        ensures
            view_outcome(
                self.disk,
                self.organization,
                self.project,
                self.web,
                "disks"@,
                host@,
                r,
            ),
    {
        let plural = String::from_str("disks");
        crate::view::view_plan(
            &plural,
            &self.disk,
            &self.organization,
            &self.project,
            self.web,
            host,
        )
    }
}

/// The disk subcommands.
pub enum DiskSubCommand {
    /// Attach a disk to an instance.
    Attach(CmdDiskAttach),
    /// Create a new disk.
    Create(CmdDiskCreate),
    /// Delete a disk.
    Delete(CmdDiskDelete),
    /// Detach a disk from an instance.
    Detach(CmdDiskDetach),
    /// Edit disk settings.
    Edit(CmdDiskEdit),
    /// List disks.
    List(CmdDiskList),
    /// View a disk.
    View(CmdDiskView),
}

/// Create, list, view, and delete disks; attach and detach disks to and
/// from an instance.
pub struct CmdDisk {
    /// The selected subcommand.
    pub subcmd: DiskSubCommand,
}

impl CmdDisk {
    /// Routes the selected subcommand to its handler's first step: the
    /// workflow's payload is the handler's own outcome for the
    /// subcommand's arguments.
    pub fn dispatch(&self, can_prompt: bool, host: &String) -> (r: Workflow)
        ensures
            self.subcmd matches DiskSubCommand::Attach(cmd) ==> (r matches Workflow::Attach(res)
                && attach_outcome(cmd.disk, cmd.instance, cmd.organization, cmd.project, res)),
            self.subcmd matches DiskSubCommand::Create(cmd) ==> (r matches Workflow::Create(res)
                && create_outcome(
                cmd.disk,
                cmd.organization,
                cmd.project,
                cmd.description,
                cmd.snapshot,
                cmd.size,
                "disk"@,
                "disks"@,
                can_prompt,
                res,
            )),
            self.subcmd matches DiskSubCommand::Delete(cmd) ==> (r matches Workflow::Delete(flow)
                && delete_outcome(
                cmd.disk,
                cmd.organization,
                cmd.project,
                cmd.confirm,
                "disks"@,
                can_prompt,
                flow.start,
            ) && flow.singular@ == "disk"@ && flow.plural@ == "disks"@ && flow.name == cmd.disk
                && flow.organization == cmd.organization && flow.project == cmd.project),
            self.subcmd matches DiskSubCommand::Detach(cmd) ==> (r matches Workflow::Detach(res)
                && detach_outcome(cmd.disk, cmd.instance, cmd.organization, cmd.project, res)),
            self.subcmd is Edit ==> (r matches Workflow::Edit(m) && m@ == "Not implemented yet."@),
            self.subcmd matches DiskSubCommand::List(cmd) ==> (r matches Workflow::List(res)
                && list_outcome(
                cmd.organization,
                cmd.project,
                cmd.limit,
                cmd.paginate,
                cmd.json,
                "disks"@,
                res,
            )),
            self.subcmd matches DiskSubCommand::View(cmd) ==> (r matches Workflow::View(res)
                && view_outcome(
                cmd.disk,
                cmd.organization,
                cmd.project,
                cmd.web,
                "disks"@,
                host@,
                res,
            )),
    {
        match &self.subcmd {
            DiskSubCommand::Attach(cmd) => Workflow::Attach(cmd.plan()),
            DiskSubCommand::Create(cmd) => Workflow::Create(cmd.begin(can_prompt)),
            DiskSubCommand::Delete(cmd) => Workflow::Delete(
                DeleteFlow {
                    singular: String::from_str("disk"),
                    plural: String::from_str("disks"),
                    name: cmd.disk.clone(),
                    organization: cmd.organization.clone(),
                    project: cmd.project.clone(),
                    start: cmd.start(can_prompt),
                },
            ),
            DiskSubCommand::Detach(cmd) => Workflow::Detach(cmd.plan()),
            DiskSubCommand::Edit(cmd) => Workflow::Edit(cmd.message()),
            DiskSubCommand::List(cmd) => Workflow::List(cmd.start()),
            DiskSubCommand::View(cmd) => Workflow::View(cmd.plan(host)),
        }
    }
}

} // verus!
