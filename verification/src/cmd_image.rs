//! The image command: create, list, view, and delete images.

use vstd::prelude::*;

use crate::router::{
    create_outcome, delete_outcome, list_outcome, view_outcome, DeleteFlow, ResourceCreateArgs,
    ResourceDeleteArgs, ResourceListArgs, ResourceViewArgs, Workflow,
};

verus! {

/// The image subcommands.
pub enum ImageSubCommand {
    /// Create a new image.
    Create(ResourceCreateArgs),
    /// Delete an image.
    Delete(ResourceDeleteArgs),
    /// List images.
    List(ResourceListArgs),
    /// View an image.
    View(ResourceViewArgs),
}

/// Create, list, view, and delete images.
pub struct CmdImage {
    /// The selected subcommand.
    pub subcmd: ImageSubCommand,
}

impl CmdImage {
    /// Routes the selected subcommand to its handler's first step: the
    /// workflow's payload is the handler's own outcome for the
    /// subcommand's arguments.
    pub fn dispatch(&self, can_prompt: bool, host: &String) -> (r: Workflow)
        ensures
            self.subcmd matches ImageSubCommand::Create(cmd) ==> (r matches Workflow::Create(res)
                && create_outcome(
                cmd.name,
                cmd.organization,
                cmd.project,
                cmd.description,
                cmd.snapshot,
                cmd.size,
                "image"@,
                "images"@,
                can_prompt,
                res,
            )),
            self.subcmd matches ImageSubCommand::Delete(cmd) ==> (r matches Workflow::Delete(flow)
                && delete_outcome(
                cmd.name,
                cmd.organization,
                cmd.project,
                cmd.confirm,
                "images"@,
                can_prompt,
                flow.start,
            ) && flow.singular@ == "image"@ && flow.plural@ == "images"@ && flow.name == cmd.name
                && flow.organization == cmd.organization && flow.project == cmd.project),
            self.subcmd matches ImageSubCommand::List(cmd) ==> (r matches Workflow::List(res)
                && list_outcome(
                cmd.organization,
                cmd.project,
                cmd.limit,
                cmd.paginate,
                cmd.json,
                "images"@,
                res,
            )),
            self.subcmd matches ImageSubCommand::View(cmd) ==> (r matches Workflow::View(res)
                && view_outcome(
                cmd.name,
                cmd.organization,
                cmd.project,
                cmd.web,
                "images"@,
                host@,
                res,
            )),
    {
        let plural = String::from_str("images");
        match &self.subcmd {
            ImageSubCommand::Create(cmd) => Workflow::Create(
                cmd.begin(String::from_str("image"), plural, can_prompt),
            ),
            ImageSubCommand::Delete(cmd) => Workflow::Delete(
                DeleteFlow {
                    singular: String::from_str("image"),
                    name: cmd.name.clone(),
                    organization: cmd.organization.clone(),
                    project: cmd.project.clone(),
                    start: cmd.start(&plural, can_prompt),
                    plural,
                },
            ),
            ImageSubCommand::List(cmd) => Workflow::List(cmd.start(plural)),
            ImageSubCommand::View(cmd) => Workflow::View(cmd.plan(&plural, host)),
        }
    }
}

} // verus!
