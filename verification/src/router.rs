//! One argument set per lifecycle operation, shared by every resource kind.
//!
//! Each resource kind's command is a thin shell over these: the same
//! validation, prompting, confirmation and pagination logic, instantiated
//! with the kind's singular and plural names.  The `*_outcome` predicates
//! state each operation's whole first step — when it fails, with which
//! message, and exactly which session, plan or request comes out — and the
//! dispatch of every command ensures them for its subcommand's own
//! arguments, so nothing is lost at the routing seam.  A `Workflow` is what
//! a dispatched subcommand hands the surrounding program to carry out.

use vstd::prelude::*;

use crate::actions::{attach_message_spec, detach_message_spec, ActionPlan};
use crate::api::ApiCall;
use crate::create::{
    action_matches, create_call_spec, live_wf, missing_required, stage_from_organization,
    CreateAction, CreateSession, CreateStage,
};
use crate::delete::{delete_call_spec, DeleteStart};
use crate::error::{is_invalid_argument, CmdError};
use crate::list::ListSession;
use crate::scope::{scope_ok, scope_path_spec};
use crate::view::{view_url_spec, ViewPlan};

verus! {

/// The whole first step of a listing: `InvalidArgument` exactly on a bad
/// limit or missing scope, with the exact message, and otherwise a fresh
/// well-formed session carrying exactly the given arguments.
pub open spec fn list_outcome(
    organization: String,
    project: String,
    limit: u32,
    paginate: bool,
    json: bool,
    plural: Seq<char>,
    r: Result<ListSession, CmdError>,
) -> bool {
    &&& (r is Ok <==> (limit >= 1 && scope_ok(organization@, project@)))
    &&& (limit < 1 ==> is_invalid_argument(r->Err_0, "--limit must be greater than 0"@))
    &&& (limit >= 1 && !scope_ok(organization@, project@) ==> is_invalid_argument(
        r->Err_0,
        "--organization and --project are required"@,
    ))
    &&& (r is Ok ==> {
        let s = r->Ok_0;
        &&& s.wf()
        &&& !s.done
        &&& s.acc@.len() == 0
        &&& s.plural@ == plural
        &&& s.organization == organization
        &&& s.project == project
        &&& s.limit == limit
        &&& s.paginate == paginate
        &&& s.json == json
        &&& s.token@.len() == 0
    })
}

/// The whole first step of a view: `InvalidArgument` exactly on a missing
/// scope, the deterministic browser address under the `web` flag, and the
/// single fetch otherwise.
pub open spec fn view_outcome(
    name: String,
    organization: String,
    project: String,
    web: bool,
    plural: Seq<char>,
    host: Seq<char>,
    r: Result<ViewPlan, CmdError>,
) -> bool {
    &&& (r is Ok <==> scope_ok(organization@, project@))
    &&& (r is Err ==> is_invalid_argument(
        r->Err_0,
        "--organization and --project are required"@,
    ))
    &&& (r is Ok && web ==> (r->Ok_0 matches ViewPlan::Browse { url } && url@ == view_url_spec(
        host,
        organization@,
        project@,
        plural,
        name@,
    )))
    &&& (r is Ok && !web ==> (r->Ok_0 matches ViewPlan::Fetch(c) && c matches ApiCall::GetOne {
        plural: p,
        name: n,
        organization: o,
        project: pr,
    } && p@ == plural && n@ == name@ && o@ == organization@ && pr@ == project@))
}

/// The whole first step of a creation: the single create request when
/// nothing required is missing, `InvalidArgument` with the exact message
/// when something is and the run is non-interactive, and otherwise a live
/// session stopped at the first missing field in the fixed order.
pub open spec fn create_outcome(
    name: String,
    organization: String,
    project: String,
    description: String,
    snapshot: String,
    size: i64,
    singular: Seq<char>,
    plural: Seq<char>,
    can_prompt: bool,
    r: (CreateSession, CreateAction),
) -> bool {
    &&& (!missing_required(name@, organization@, project@, snapshot@, size as int) ==> (
    action_matches(r.0, CreateStage::Finished, r.1) && r.0.done))
    &&& (missing_required(name@, organization@, project@, snapshot@, size as int) && !can_prompt
        ==> (r.1 matches CreateAction::Fail(e) && is_invalid_argument(
        e,
        "at least one argument required in non-interactive mode"@,
    ) && r.0.done))
    &&& (missing_required(name@, organization@, project@, snapshot@, size as int) && can_prompt
        ==> (!r.0.done && r.0.stage == stage_from_organization(r.0) && action_matches(
        r.0,
        r.0.stage,
        r.1,
    )))
    &&& live_wf(r.0)
    &&& (r.1 matches CreateAction::Call(c) ==> (create_call_spec(r.0, c) && scope_ok(
        r.0.organization@,
        r.0.project@,
    )))
    &&& r.0.singular@ == singular && r.0.plural@ == plural
    &&& r.0.name == name && r.0.organization == organization && r.0.project == project
    &&& r.0.description == description && r.0.snapshot == snapshot && r.0.size == size
}

/// The whole first step of a deletion: `InvalidArgument` with the exact
/// message when non-interactive and unconfirmed or when the scope is
/// missing, the single delete request under the confirm flag, and the
/// scope-path confirmation request otherwise.
pub open spec fn delete_outcome(
    name: String,
    organization: String,
    project: String,
    confirm: bool,
    plural: Seq<char>,
    can_prompt: bool,
    r: DeleteStart,
) -> bool {
    &&& (!can_prompt && !confirm ==> (r matches DeleteStart::Fail(e) && is_invalid_argument(
        e,
        "--confirm required when not running interactively"@,
    )))
    &&& ((can_prompt || confirm) && !scope_ok(organization@, project@) ==> (
    r matches DeleteStart::Fail(e) && is_invalid_argument(
        e,
        "--organization and --project are required"@,
    )))
    &&& ((can_prompt || confirm) && scope_ok(organization@, project@) && confirm ==> (
    r matches DeleteStart::Call(c) && delete_call_spec(
        plural,
        name@,
        organization@,
        project@,
        c,
    )))
    &&& (can_prompt && !confirm && scope_ok(organization@, project@) ==> (
    r matches DeleteStart::Confirm { expected } && expected@ == scope_path_spec(
        organization@,
        project@,
    )))
}

/// The whole plan of an attach: `InvalidArgument` exactly on a missing
/// scope, else the single attach request and its exact success line.
pub open spec fn attach_outcome(
    disk: String,
    instance: String,
    organization: String,
    project: String,
    r: Result<ActionPlan, CmdError>,
) -> bool {
    &&& (r is Ok <==> scope_ok(organization@, project@))
    &&& (r is Err ==> is_invalid_argument(
        r->Err_0,
        "--organization and --project are required"@,
    ))
    &&& (r is Ok ==> (r->Ok_0.call matches ApiCall::AttachDisk {
        disk: d,
        instance: i,
        organization: o,
        project: p,
    } && d@ == disk@ && i@ == instance@ && o@ == organization@ && p@ == project@))
    &&& (r is Ok ==> r->Ok_0.success@ == attach_message_spec(
        disk@,
        instance@,
        organization@,
        project@,
    ))
}

/// The whole plan of a detach: `InvalidArgument` exactly on a missing
/// scope, else the single detach request and its exact success line.
pub open spec fn detach_outcome(
    disk: String,
    instance: String,
    organization: String,
    project: String,
    r: Result<ActionPlan, CmdError>,
) -> bool {
    &&& (r is Ok <==> scope_ok(organization@, project@))
    &&& (r is Err ==> is_invalid_argument(
        r->Err_0,
        "--organization and --project are required"@,
    ))
    &&& (r is Ok ==> (r->Ok_0.call matches ApiCall::DetachDisk {
        disk: d,
        instance: i,
        organization: o,
        project: p,
    } && d@ == disk@ && i@ == instance@ && o@ == organization@ && p@ == project@))
    &&& (r is Ok ==> r->Ok_0.success@ == detach_message_spec(
        disk@,
        instance@,
        organization@,
        project@,
    ))
}

/// Arguments of a listing.
pub struct ResourceListArgs {
    /// The project that holds the resources.
    pub project: String,
    /// The organization that holds the project.
    pub organization: String,
    /// Maximum number of records per page.
    pub limit: u32,
    /// Fetch all pages, not just the first.
    pub paginate: bool,
    /// Output structured text.
    pub json: bool,
}

impl ResourceListArgs {
    /// Starts the listing for the given resource kind.
    pub fn start(&self, plural: String) -> (r: Result<ListSession, CmdError>)
        ensures
            list_outcome(
                self.organization,
                self.project,
                self.limit,
                self.paginate,
                self.json,
                plural@,
                r,
            ),
    {
        crate::list::list_start(
            plural,
            self.organization.clone(),
            self.project.clone(),
            self.limit,
            self.paginate,
            self.json,
        )
    }
}

/// Arguments of a view.
pub struct ResourceViewArgs {
    /// The resource to view.
    pub name: String,
    /// The project that holds the resource.
    pub project: String,
    /// The organization that holds the project.
    pub organization: String,
    /// Open the resource in a browser instead of fetching it.
    pub web: bool,
    /// Output structured text.
    pub json: bool,
}

impl ResourceViewArgs {
    /// Plans the view for the given resource kind under the given host.
    pub fn plan(&self, plural: &String, host: &String) -> (r: Result<ViewPlan, CmdError>)
        ensures
            view_outcome(
                self.name,
                self.organization,
                self.project,
                self.web,
                plural@,
                host@,
                r,
            ),
    {
        crate::view::view_plan(
            plural,
            &self.name,
            &self.organization,
            &self.project,
            self.web,
            host,
        )
    }
}

/// Arguments of a creation.
pub struct ResourceCreateArgs {
    /// The name of the resource to create; empty to be prompted.
    pub name: String,
    /// The project that will hold the resource; empty to be prompted.
    pub project: String,
    /// The organization that holds the project; empty to be prompted.
    pub organization: String,
    /// The description; empty to be prompted.
    pub description: String,
    /// The snapshot; empty to be prompted.
    pub snapshot: String,
    /// The size in bytes; zero to be prompted.
    pub size: i64,
}

impl ResourceCreateArgs {
    /// Starts the creation for the given resource kind.
    pub fn begin(&self, singular: String, plural: String, can_prompt: bool) -> (r: (
        CreateSession,
        CreateAction,
    ))
        ensures
            create_outcome(
                self.name,
                self.organization,
                self.project,
                self.description,
                self.snapshot,
                self.size,
                singular@,
                plural@,
                can_prompt,
                r,
            ),
    {
        crate::create::create_begin(
            singular,
            plural,
            self.name.clone(),
            self.organization.clone(),
            self.project.clone(),
            self.description.clone(),
            self.snapshot.clone(),
            self.size,
            can_prompt,
        )
    }
}

/// Arguments of a deletion.
pub struct ResourceDeleteArgs {
    /// The resource to delete.
    pub name: String,
    /// The project to delete it from.
    pub project: String,
    /// The organization that holds the project.
    pub organization: String,
    /// Confirm the deletion without prompting.
    pub confirm: bool,
}

impl ResourceDeleteArgs {
    /// Starts the deletion for the given resource kind.
    pub fn start(&self, plural: &String, can_prompt: bool) -> (r: DeleteStart)
        ensures
            delete_outcome(
                self.name,
                self.organization,
                self.project,
                self.confirm,
                plural@,
                can_prompt,
                r,
            ),
    {
        crate::delete::delete_start(
            plural,
            &self.name,
            &self.organization,
            &self.project,
            self.confirm,
            can_prompt,
        )
    }

    /// Judges the operator's confirmation input for this deletion.
    pub fn confirm_input(&self, plural: &String, input: &str) -> (r: crate::delete::DeleteStep)
        ensures
            crate::delete::confirmation_matches(input@, self.organization@, self.project@) ==> (
            r matches crate::delete::DeleteStep::Call(c) && delete_call_spec(
                plural@,
                self.name@,
                self.organization@,
                self.project@,
                c,
            )),
            !crate::delete::confirmation_matches(input@, self.organization@, self.project@) ==> r
                == crate::delete::DeleteStep::Fail(CmdError::MismatchedConfirmation),
    {
        crate::delete::delete_confirm(plural, &self.name, &self.organization, &self.project, input)
    }
}

/// A deletion handed to the surrounding program: the first step together
/// with everything needed to judge an interactive confirmation and to
/// phrase the success line.
pub struct DeleteFlow {
    /// Singular name of the resource kind, for the success line.
    pub singular: String,
    /// Plural name of the resource kind.
    pub plural: String,
    /// The resource to delete.
    pub name: String,
    /// The organization that holds the project.
    pub organization: String,
    /// The project to delete from.
    pub project: String,
    /// The deletion's first step.
    pub start: DeleteStart,
}

/// What a dispatched subcommand hands the surrounding program.
pub enum Workflow {
    /// Run this listing session.
    List(Result<ListSession, CmdError>),
    /// Carry out this view plan.
    View(Result<ViewPlan, CmdError>),
    /// Drive this creation step machine, starting with the given action.
    Create((CreateSession, CreateAction)),
    /// Carry out this deletion.
    Delete(DeleteFlow),
    /// Make this attach request and print its success line.
    Attach(Result<ActionPlan, CmdError>),
    /// Make this detach request and print its success line.
    Detach(Result<ActionPlan, CmdError>),
    /// Print this line; the operation is not available.
    Edit(String),
}

} // verus!
