//! The rack command: list and view racks.

use vstd::prelude::*;

use crate::router::{list_outcome, view_outcome, ResourceListArgs, ResourceViewArgs, Workflow};

verus! {

/// The rack subcommands.
pub enum RackSubCommand {
    /// List racks.
    List(ResourceListArgs),
    /// View a rack.
    View(ResourceViewArgs),
}

/// Manage racks.
pub struct CmdRack {
    /// The selected subcommand.
    pub subcmd: RackSubCommand,
}

impl CmdRack {
    /// Routes the selected subcommand to its handler's first step: the
    /// workflow's payload is the handler's own outcome for the
    /// subcommand's arguments.
    pub fn dispatch(&self, host: &String) -> (r: Workflow)
        ensures
            self.subcmd matches RackSubCommand::List(cmd) ==> (r matches Workflow::List(res)
                && list_outcome(
                cmd.organization,
                cmd.project,
                cmd.limit,
                cmd.paginate,
                cmd.json,
                "racks"@,
                res,
            )),
            self.subcmd matches RackSubCommand::View(cmd) ==> (r matches Workflow::View(res)
                && view_outcome(
                cmd.name,
                cmd.organization,
                cmd.project,
                cmd.web,
                "racks"@,
                host@,
                res,
            )),
    {
        let plural = String::from_str("racks");
        match &self.subcmd {
            RackSubCommand::List(cmd) => Workflow::List(cmd.start(plural)),
            RackSubCommand::View(cmd) => Workflow::View(cmd.plan(&plural, host)),
        }
    }
}

} // verus!
