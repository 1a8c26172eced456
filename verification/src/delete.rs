//! Deleting a resource, gated on confirmation.
//!
//! A deletion never reaches the network without either the explicit confirm
//! flag or a verified interactive confirmation: the operator must retype the
//! full scope path, compared after trimming surrounding whitespace.  In a
//! non-interactive run without the flag the operation fails at once with
//! `InvalidArgument`.

use vstd::prelude::*;

use crate::api::ApiCall;
use crate::error::CmdError;
use crate::scope::{scope_ok, scope_path_spec};
use crate::text::{string_chars, trim_chars, trim_spec};

verus! {

/// The first step of a deletion.
pub enum DeleteStart {
    /// The deletion is rejected before any request is made.
    Fail(CmdError),
    /// The operator must retype `expected` to proceed.
    Confirm { expected: String },
    /// The single delete request to make.
    Call(ApiCall),
}

/// The step after an interactive confirmation.
pub enum DeleteStep {
    /// The confirmation did not match; no request is made.
    Fail(CmdError),
    /// The single delete request to make.
    Call(ApiCall),
}

/// The delete request for the named resource.
pub open spec fn delete_call_spec(
    plural: Seq<char>,
    name: Seq<char>,
    organization: Seq<char>,
    project: Seq<char>,
    c: ApiCall,
) -> bool {
    match c {
        ApiCall::DeleteOne { plural: p, name: n, organization: o, project: pr } => p@ == plural
            && n@ == name && o@ == organization && pr@ == project,
        _ => false,
    }
}

/// Builds the delete request.
fn delete_call(plural: &String, name: &String, organization: &String, project: &String) -> (r:
    ApiCall)
    ensures
        delete_call_spec(plural@, name@, organization@, project@, r),
{
    ApiCall::DeleteOne {
        plural: plural.clone(),
        name: name.clone(),
        organization: organization.clone(),
        project: project.clone(),
    }
}

/// Starts a deletion.
///
/// With an empty scope field it fails with `InvalidArgument`.  Without the
/// confirm flag it fails with `InvalidArgument` when the run is
/// non-interactive, and otherwise asks for the full scope path to be
/// retyped.  With the confirm flag it proceeds straight to the single
/// delete request, interactive or not.
pub fn delete_start(
    plural: &String,
    name: &String,
    organization: &String,
    project: &String,
    confirm: bool,
    can_prompt: bool,
) -> (r: DeleteStart)
    ensures
        !can_prompt && !confirm ==> (r matches DeleteStart::Fail(e)
            && crate::error::is_invalid_argument(
            e,
            "--confirm required when not running interactively"@,
        )),
        (can_prompt || confirm) && !scope_ok(organization@, project@) ==> (r matches DeleteStart::Fail(e)
            && crate::error::is_invalid_argument(
            e,
            "--organization and --project are required"@,
        )),
        (can_prompt || confirm) && scope_ok(organization@, project@) && confirm ==> (r matches DeleteStart::Call(c)
            && delete_call_spec(plural@, name@, organization@, project@, c)),
        can_prompt && !confirm && scope_ok(organization@, project@) ==> (r matches DeleteStart::Confirm {
            expected,
        } && expected@ == scope_path_spec(organization@, project@)),
{
    if !can_prompt && !confirm {
        return DeleteStart::Fail(
            CmdError::InvalidArgument(
                String::from_str("--confirm required when not running interactively"),
            ),
        );
    }
    match crate::scope::check_scope(organization, project) {
        Err(e) => DeleteStart::Fail(e),
        Ok(()) => {
            if confirm {
                DeleteStart::Call(delete_call(plural, name, organization, project))
            } else {
                DeleteStart::Confirm { expected: crate::scope::scope_path(organization, project) }
            }
        },
    }
}

/// Whether the operator's input confirms the deletion: trimmed, it must
/// equal the full scope path exactly.
pub open spec fn confirmation_matches(
    input: Seq<char>,
    organization: Seq<char>,
    project: Seq<char>,
) -> bool {
    trim_spec(input) == scope_path_spec(organization, project)
}

/// Judges an interactive confirmation: the single delete request when the
/// trimmed input equals the full scope path, `MismatchedConfirmation`
/// otherwise.
pub fn delete_confirm(
    plural: &String,
    name: &String,
    organization: &String,
    project: &String,
    input: &str,
) -> (r: DeleteStep)
    ensures
        confirmation_matches(input@, organization@, project@) ==> (r matches DeleteStep::Call(c)
            && delete_call_spec(plural@, name@, organization@, project@, c)),
        !confirmation_matches(input@, organization@, project@) ==> r == DeleteStep::Fail(
            CmdError::MismatchedConfirmation,
        ),
{
    let given = string_chars(input);
    let trimmed = trim_chars(&given);
    let expected = crate::scope::scope_path(organization, project);
    let expected_chars = string_chars(expected.as_str());
    if crate::text::chars_eq(&trimmed, &expected_chars) {
        DeleteStep::Call(delete_call(plural, name, organization, project))
    } else {
        DeleteStep::Fail(CmdError::MismatchedConfirmation)
    }
}

/// An input exactly equal to the scope path, with no whitespace at its
/// edges, confirms the deletion; in particular the path itself does when
/// the organization and project names are whitespace-free at their edges.
pub proof fn lemma_exact_input_confirms(
    input: Seq<char>,
    organization: Seq<char>,
    project: Seq<char>,
)
    requires
        input == scope_path_spec(organization, project),
        organization.len() > 0,
        project.len() > 0,
        !crate::text::is_ws(organization[0]),
        !crate::text::is_ws(project[project.len() - 1]),
    ensures
        confirmation_matches(input, organization, project),
{
    assert(input.len() == organization.len() + 1 + project.len());
    assert(input[0] == organization[0]);
    assert(input[input.len() - 1] == project[project.len() - 1]);
    crate::text::lemma_trim_noop(input);
}

} // verus!
