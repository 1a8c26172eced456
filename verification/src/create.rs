//! Creating a resource, with interactive collection of missing fields.
//!
//! Creation is a step machine.  When every required field was supplied on
//! the command line, it goes straight to the single create request.  When a
//! required field is missing, a non-interactive run fails at once with
//! `InvalidArgument` and no request; an interactive run prompts for each
//! missing field in the fixed order organization, project, name,
//! description, snapshot, size, short-circuiting fields already supplied.
//! An empty answer to a required field leaves it missing and is asked
//! again, so the create request never carries an empty required field;
//! only the description may stay empty.
//! The project is chosen from a selection list fetched from the service,
//! presented in the order the service returned it, never re-sorted.  Any
//! prompt failure aborts the whole operation with `PromptFailed`.

use vstd::prelude::*;

use crate::api::ApiCall;
use crate::error::CmdError;

verus! {

/// What the creation step machine is waiting for.
#[derive(PartialEq, Eq, Structural, Clone, Copy, Debug)]
pub enum CreateStage {
    /// A text prompt for the organization is outstanding.
    AskOrganization,
    /// A request for the organization's project names is outstanding.
    FetchProjects,
    /// A selection from the fetched project names is outstanding.
    ChooseProject,
    /// A text prompt for the resource name is outstanding.
    AskName,
    /// A text prompt for the description is outstanding.
    AskDescription,
    /// A text prompt for the snapshot is outstanding.
    AskSnapshot,
    /// A numeric prompt for the size is outstanding.
    AskSize,
    /// The machine has produced its final action.
    Finished,
}

/// What the surrounding program must do next.
pub enum CreateAction {
    /// The operation is over, with this error; nothing was requested.
    Fail(CmdError),
    /// Prompt for the organization name.
    PromptOrganization,
    /// Fetch the names of the organization's projects.
    FetchProjects { organization: String },
    /// Offer the session's fetched project names, in their stored order,
    /// for selection.
    SelectProject,
    /// Prompt for the resource name.
    PromptName,
    /// Prompt for the description.
    PromptDescription,
    /// Prompt for the snapshot.
    PromptSnapshot,
    /// Prompt for the size in bytes.
    PromptSize,
    /// Make the single create request.
    Call(ApiCall),
}

/// What the surrounding program observed.
pub enum CreateEvent {
    /// The operator answered a text prompt.
    Text(String),
    /// The operator answered the size prompt.
    Number(i64),
    /// The operator picked this index from the selection list.
    Choice(usize),
    /// The service returned these project names, in this order.
    Projects(Vec<String>),
    /// The prompt could not complete; the message describes why.
    PromptError(String),
}

/// An in-progress creation.
pub struct CreateSession {
    /// Singular name of the resource kind.
    pub singular: String,
    /// Plural name of the resource kind.
    pub plural: String,
    /// The resource name; empty until supplied.
    pub name: String,
    /// The organization scope; empty until supplied.
    pub organization: String,
    /// The project scope; empty until supplied.
    pub project: String,
    /// The description; empty until supplied.
    pub description: String,
    /// The snapshot; empty until supplied.
    pub snapshot: String,
    /// The size in bytes; zero until supplied.
    pub size: i64,
    /// The fetched project names, once they arrived.
    pub items: Vec<String>,
    /// What the machine is waiting for.
    pub stage: CreateStage,
    /// Whether the machine has produced `Fail` or `Call` and takes no more
    /// events.
    pub done: bool,
}

/// Whether a required field is still missing.  The description is collected
/// interactively but its absence alone does not require interaction.
pub open spec fn missing_required(
    name: Seq<char>,
    organization: Seq<char>,
    project: Seq<char>,
    snapshot: Seq<char>,
    size: int,
) -> bool {
    name.len() == 0 || organization.len() == 0 || project.len() == 0 || snapshot.len() == 0
        || size == 0
}

/// The create request carrying exactly the session's fields.
pub open spec fn create_call_spec(s: CreateSession, c: ApiCall) -> bool {
    match c {
        ApiCall::CreateResource {
            plural,
            organization,
            project,
            name,
            description,
            snapshot,
            size,
        } => plural@ == s.plural@ && organization@ == s.organization@ && project@ == s.project@
            && name@ == s.name@ && description@ == s.description@ && snapshot@ == s.snapshot@
            && size == s.size,
        _ => false,
    }
}

/// The stage the machine settles in, scanning from the organization
/// onward.
pub open spec fn stage_from_organization(s: CreateSession) -> CreateStage {
    if s.organization@.len() == 0 {
        CreateStage::AskOrganization
    } else {
        stage_from_project(s)
    }
}

/// The stage the machine settles in, scanning from the project onward.
pub open spec fn stage_from_project(s: CreateSession) -> CreateStage {
    if s.project@.len() == 0 {
        CreateStage::FetchProjects
    } else {
        stage_from_name(s)
    }
}

/// The stage the machine settles in, scanning from the name onward.
pub open spec fn stage_from_name(s: CreateSession) -> CreateStage {
    if s.name@.len() == 0 {
        CreateStage::AskName
    } else {
        stage_from_description(s)
    }
}

/// The stage the machine settles in, scanning from the description onward.
pub open spec fn stage_from_description(s: CreateSession) -> CreateStage {
    if s.description@.len() == 0 {
        CreateStage::AskDescription
    } else {
        stage_from_snapshot(s)
    }
}

/// The stage the machine settles in, scanning from the snapshot onward.
pub open spec fn stage_from_snapshot(s: CreateSession) -> CreateStage {
    if s.snapshot@.len() == 0 {
        CreateStage::AskSnapshot
    } else {
        stage_from_size(s)
    }
}

/// The stage the machine settles in, scanning from the size onward.
pub open spec fn stage_from_size(s: CreateSession) -> CreateStage {
    if s.size == 0 {
        CreateStage::AskSize
    } else {
        CreateStage::Finished
    }
}

/// Whether the action is the one the stage calls for, over the session's
/// fields.
pub open spec fn action_matches(s: CreateSession, stage: CreateStage, r: CreateAction) -> bool {
    match stage {
        CreateStage::AskOrganization => r is PromptOrganization,
        CreateStage::FetchProjects => (r matches CreateAction::FetchProjects { organization }
            && organization@ == s.organization@),
        CreateStage::ChooseProject => r is SelectProject,
        CreateStage::AskName => r is PromptName,
        CreateStage::AskDescription => r is PromptDescription,
        CreateStage::AskSnapshot => r is PromptSnapshot,
        CreateStage::AskSize => r is PromptSize,
        CreateStage::Finished => (r matches CreateAction::Call(c) && create_call_spec(s, c)),
    }
}

/// Whether the event answers what the stage is waiting for.
pub open spec fn event_fits(stage: CreateStage, e: CreateEvent) -> bool {
    e is PromptError || match stage {
        CreateStage::AskOrganization => e is Text,
        CreateStage::FetchProjects => e is Projects,
        CreateStage::ChooseProject => e is Choice,
        CreateStage::AskName => e is Text,
        CreateStage::AskDescription => e is Text,
        CreateStage::AskSnapshot => e is Text,
        CreateStage::AskSize => e is Number,
        CreateStage::Finished => false,
    }
}

/// What a live session's stage says of its fields: every field the scan
/// passed on the way to the stage is non-empty.  `create_begin`
/// establishes it and `on_event` preserves it; with it, the stage the
/// create request is issued from guarantees the request's required fields.
pub open spec fn live_wf(s: CreateSession) -> bool {
    match s.stage {
        CreateStage::AskOrganization => true,
        CreateStage::FetchProjects => s.organization@.len() > 0,
        CreateStage::ChooseProject => s.organization@.len() > 0,
        CreateStage::AskName => s.organization@.len() > 0 && s.project@.len() > 0,
        CreateStage::AskDescription => s.organization@.len() > 0 && s.project@.len() > 0
            && s.name@.len() > 0,
        CreateStage::AskSnapshot => s.organization@.len() > 0 && s.project@.len() > 0
            && s.name@.len() > 0,
        CreateStage::AskSize => s.organization@.len() > 0 && s.project@.len() > 0 && s.name@.len()
            > 0 && s.snapshot@.len() > 0,
        CreateStage::Finished => true,
    }
}

impl CreateSession {
    /// Produces the final create request.
    fn finish(&mut self) -> (r: CreateAction)
        ensures
            *final(self) == (CreateSession { stage: CreateStage::Finished, done: true, ..*old(self) }),
            action_matches(*final(self), CreateStage::Finished, r),
    {
        self.stage = CreateStage::Finished;
        self.done = true;
        CreateAction::Call(
            ApiCall::CreateResource {
                plural: self.plural.clone(),
                organization: self.organization.clone(),
                project: self.project.clone(),
                name: self.name.clone(),
                description: self.description.clone(),
                snapshot: self.snapshot.clone(),
                size: self.size,
            },
        )
    }

    /// Moves on from the size field.
    fn proceed_size(&mut self) -> (r: CreateAction)
        requires
            !old(self).done,
        ensures
            *final(self) == (CreateSession {
                stage: stage_from_size(*old(self)),
                done: stage_from_size(*old(self)) is Finished,
                ..*old(self)
            }),
            action_matches(*final(self), stage_from_size(*old(self)), r),
    {
        if self.size == 0 {
            self.stage = CreateStage::AskSize;
            CreateAction::PromptSize
        } else {
            self.finish()
        }
    }

    /// Moves on from the snapshot field.
    fn proceed_snapshot(&mut self) -> (r: CreateAction)
        requires
            !old(self).done,
        ensures
            *final(self) == (CreateSession {
                stage: stage_from_snapshot(*old(self)),
                done: stage_from_snapshot(*old(self)) is Finished,
                ..*old(self)
            }),
            action_matches(*final(self), stage_from_snapshot(*old(self)), r),
    {
        if self.snapshot.as_str().is_empty() {
            self.stage = CreateStage::AskSnapshot;
            CreateAction::PromptSnapshot
        } else {
            self.proceed_size()
        }
    }

    /// Moves on from the description field.
    fn proceed_description(&mut self) -> (r: CreateAction)
        requires
            !old(self).done,
        ensures
            *final(self) == (CreateSession {
                stage: stage_from_description(*old(self)),
                done: stage_from_description(*old(self)) is Finished,
                ..*old(self)
            }),
            action_matches(*final(self), stage_from_description(*old(self)), r),
    {
        if self.description.as_str().is_empty() {
            self.stage = CreateStage::AskDescription;
            CreateAction::PromptDescription
        } else {
            self.proceed_snapshot()
        }
    }

    /// Moves on from the name field.
    fn proceed_name(&mut self) -> (r: CreateAction)
        requires
            !old(self).done,
        ensures
            *final(self) == (CreateSession {
                stage: stage_from_name(*old(self)),
                done: stage_from_name(*old(self)) is Finished,
                ..*old(self)
            }),
            action_matches(*final(self), stage_from_name(*old(self)), r),
    {
        if self.name.as_str().is_empty() {
            self.stage = CreateStage::AskName;
            CreateAction::PromptName
        } else {
            self.proceed_description()
        }
    }

    /// Moves on from the project field.
    fn proceed_project(&mut self) -> (r: CreateAction)
        requires
            !old(self).done,
        ensures
            *final(self) == (CreateSession {
                stage: stage_from_project(*old(self)),
                done: stage_from_project(*old(self)) is Finished,
                ..*old(self)
            }),
            action_matches(*final(self), stage_from_project(*old(self)), r),
    {
        if self.project.as_str().is_empty() {
            self.stage = CreateStage::FetchProjects;
            CreateAction::FetchProjects { organization: self.organization.clone() }
        } else {
            self.proceed_name()
        }
    }

    /// Moves on from the organization field.
    fn proceed_organization(&mut self) -> (r: CreateAction)
        requires
            !old(self).done,
        ensures
            *final(self) == (CreateSession {
                stage: stage_from_organization(*old(self)),
                done: stage_from_organization(*old(self)) is Finished,
                ..*old(self)
            }),
            action_matches(*final(self), stage_from_organization(*old(self)), r),
    {
        if self.organization.as_str().is_empty() {
            self.stage = CreateStage::AskOrganization;
            CreateAction::PromptOrganization
        } else {
            self.proceed_project()
        }
    }

    /// Takes the event the outstanding stage waits for and says what to do
    /// next.  A prompt error always ends the operation with `PromptFailed`,
    /// and an out-of-range selection likewise; no other event can fail.
    /// Otherwise the answered field is recorded and the machine scans on
    /// from that same field — so an empty answer to a required field is
    /// asked again, while an empty description is accepted — until no
    /// required field is missing and the single create request comes out.
    pub fn on_event(&mut self, e: CreateEvent) -> (r: CreateAction)
        requires
            !old(self).done,
            event_fits(old(self).stage, e),
            live_wf(*old(self)),
        ensures
            final(self).done <==> (r is Fail || r is Call),
            live_wf(*final(self)),
            r is Fail <==> (e is PromptError || (e matches CreateEvent::Choice(i) && old(self).stage is ChooseProject && i >= old(self).items@.len())),
            e matches CreateEvent::PromptError(m) ==> (r matches CreateAction::Fail(err)
                && crate::error::is_prompt_failed(err, m@)),
            !(r is Fail) ==> action_matches(
                *final(self),
                final(self).stage,
                r,
            ),
            r matches CreateAction::Call(c) ==> (create_call_spec(*final(self), c)
                && crate::scope::scope_ok(final(self).organization@, final(self).project@)
                && final(self).name@.len() > 0 && final(self).snapshot@.len() > 0 && final(self).size != 0),
            !(e is PromptError) && old(self).stage is AskOrganization ==> final(self).stage
                == stage_from_organization(*final(self)),
            !(e is PromptError) && old(self).stage is FetchProjects ==> final(self).stage
                is ChooseProject,
            e matches CreateEvent::Choice(i) ==> (old(self).stage is ChooseProject && i < old(self).items@.len() ==> final(self).stage == stage_from_project(*final(self))),
            !(e is PromptError) && old(self).stage is AskName ==> final(self).stage
                == stage_from_name(*final(self)),
            !(e is PromptError) && old(self).stage is AskDescription ==> final(self).stage
                == stage_from_snapshot(*final(self)),
            !(e is PromptError) && old(self).stage is AskSnapshot ==> final(self).stage
                == stage_from_snapshot(*final(self)),
            !(e is PromptError) && old(self).stage is AskSize ==> final(self).stage
                == stage_from_size(*final(self)),
            e matches CreateEvent::Text(t) ==> (old(self).stage is AskOrganization ==> final(self).organization@ == t@),
            e matches CreateEvent::Projects(items) ==> (old(self).stage is FetchProjects ==> final(self).items == items),
            e matches CreateEvent::Choice(i) ==> (old(self).stage is ChooseProject && i < old(self).items@.len() ==> final(self).project == old(self).items@[i as int]),
            e matches CreateEvent::Text(t) ==> (old(self).stage is AskName ==> final(self).name@
                == t@),
            e matches CreateEvent::Text(t) ==> (old(self).stage is AskDescription ==> final(self).description@ == t@),
            e matches CreateEvent::Text(t) ==> (old(self).stage is AskSnapshot ==> final(self).snapshot@ == t@),
            e matches CreateEvent::Number(n) ==> (old(self).stage is AskSize ==> final(self).size
                == n),
    {
        match e {
            CreateEvent::PromptError(m) => {
                self.done = true;
                return CreateAction::Fail(CmdError::PromptFailed(m));
            },
            CreateEvent::Text(t) => {
                match self.stage {
                    CreateStage::AskOrganization => {
                        self.organization = t;
                        self.proceed_organization()
                    },
                    CreateStage::AskName => {
                        self.name = t;
                        self.proceed_name()
                    },
                    CreateStage::AskDescription => {
                        self.description = t;
                        self.proceed_snapshot()
                    },
                    CreateStage::AskSnapshot => {
                        self.snapshot = t;
                        self.proceed_snapshot()
                    },
                    _ => {
                        self.done = true;
                        CreateAction::Fail(
                            CmdError::PromptFailed(String::from_str("unexpected answer")),
                        )
                    },
                }
            },
            CreateEvent::Projects(items) => {
                match self.stage {
                    CreateStage::FetchProjects => {
                        self.items = items;
                        self.stage = CreateStage::ChooseProject;
                        CreateAction::SelectProject
                    },
                    _ => {
                        self.done = true;
                        CreateAction::Fail(
                            CmdError::PromptFailed(String::from_str("unexpected answer")),
                        )
                    },
                }
            },
            CreateEvent::Choice(i) => {
                match self.stage {
                    CreateStage::ChooseProject => {
                        if i < self.items.len() {
                            self.project = self.items[i].clone();
                            self.proceed_project()
                        } else {
                            self.done = true;
                            CreateAction::Fail(
                                CmdError::PromptFailed(
                                    String::from_str("selection out of range"),
                                ),
                            )
                        }
                    },
                    _ => {
                        self.done = true;
                        CreateAction::Fail(
                            CmdError::PromptFailed(String::from_str("unexpected answer")),
                        )
                    },
                }
            },
            CreateEvent::Number(n) => {
                match self.stage {
                    CreateStage::AskSize => {
                        self.size = n;
                        self.proceed_size()
                    },
                    _ => {
                        self.done = true;
                        CreateAction::Fail(
                            CmdError::PromptFailed(String::from_str("unexpected answer")),
                        )
                    },
                }
            },
        }
    }
}

/// Starts a creation.
///
/// With every required field supplied, the single create request is the
/// first and only action.  With a required field missing, a non-interactive
/// run fails at once with `InvalidArgument` and no request; an interactive
/// run is asked for the first missing field, in the fixed order.
pub fn create_begin(
    singular: String,
    plural: String,
    name: String,
    organization: String,
    project: String,
    description: String,
    snapshot: String,
    size: i64,
    can_prompt: bool,
) -> (r: (CreateSession, CreateAction))
    ensures
        !missing_required(name@, organization@, project@, snapshot@, size as int) ==> (
        action_matches(r.0, CreateStage::Finished, r.1) && r.0.done),
        missing_required(name@, organization@, project@, snapshot@, size as int) && !can_prompt
            ==> (r.1 matches CreateAction::Fail(e) && crate::error::is_invalid_argument(
            e,
            "at least one argument required in non-interactive mode"@,
        ) && r.0.done),
        missing_required(name@, organization@, project@, snapshot@, size as int) && can_prompt
            ==> (!r.0.done && r.0.stage == stage_from_organization(r.0) && action_matches(
            r.0,
            r.0.stage,
            r.1,
        )),
        live_wf(r.0),
        r.0.singular == singular && r.0.plural == plural,
        r.0.name == name && r.0.organization == organization && r.0.project == project,
        r.0.description == description && r.0.snapshot == snapshot && r.0.size == size,
{
    let mut s = CreateSession {
        singular,
        plural,
        name,
        organization,
        project,
        description,
        snapshot,
        size,
        items: Vec::new(),
        stage: CreateStage::Finished,
        done: false,
    };
    let missing = s.name.as_str().is_empty() || s.organization.as_str().is_empty()
        || s.project.as_str().is_empty() || s.snapshot.as_str().is_empty() || s.size == 0;
    if !missing {
        let a = s.finish();
        return (s, a);
    }
    if !can_prompt {
        s.done = true;
        let a = CreateAction::Fail(
            CmdError::InvalidArgument(
                String::from_str("at least one argument required in non-interactive mode"),
            ),
        );
        return (s, a);
    }
    let a = s.proceed_organization();
    (s, a)
}

} // verus!
