//! The role command: list and view built-in roles.

use vstd::prelude::*;

use crate::router::{list_outcome, view_outcome, ResourceListArgs, ResourceViewArgs, Workflow};

verus! {

/// The role subcommands.
pub enum RoleSubCommand {
    /// List built-in roles.
    List(ResourceListArgs),
    /// View a built-in role.
    View(ResourceViewArgs),
}

/// Manage built-in roles.
pub struct CmdRole {
    /// The selected subcommand.
    pub subcmd: RoleSubCommand,
}

impl CmdRole {
    /// Routes the selected subcommand to its handler's first step: the
    /// workflow's payload is the handler's own outcome for the
    /// subcommand's arguments.
    pub fn dispatch(&self, host: &String) -> (r: Workflow)
        ensures
            self.subcmd matches RoleSubCommand::List(cmd) ==> (r matches Workflow::List(res)
                && list_outcome(
                cmd.organization,
                cmd.project,
                cmd.limit,
                cmd.paginate,
                cmd.json,
                "roles"@,
                res,
            )),
            self.subcmd matches RoleSubCommand::View(cmd) ==> (r matches Workflow::View(res)
                && view_outcome(
                cmd.name,
                cmd.organization,
                cmd.project,
                cmd.web,
                "roles"@,
                host@,
                res,
            )),
    {
        let plural = String::from_str("roles");
        match &self.subcmd {
            RoleSubCommand::List(cmd) => Workflow::List(cmd.start(plural)),
            RoleSubCommand::View(cmd) => Workflow::View(cmd.plan(&plural, host)),
        }
    }
}

} // verus!
