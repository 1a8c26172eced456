//! Relational actions: attaching a disk to an instance and detaching it.
//!
//! These take two identifiers and the scope, never prompt, and make exactly
//! one request; the success line states the relation change performed.

use vstd::prelude::*;

use crate::api::ApiCall;
use crate::error::CmdError;
use crate::scope::scope_ok;
use crate::text::{chars_to_string, push_str_chars};

verus! {

/// One planned relational action: the single request to make and the line
/// to print when the service reports success.
pub struct ActionPlan {
    /// The single request.
    pub call: ApiCall,
    /// The success line.
    pub success: String,
}

/// The success line of an attach.
pub open spec fn attach_message_spec(
    disk: Seq<char>,
    instance: Seq<char>,
    organization: Seq<char>,
    project: Seq<char>,
) -> Seq<char> {
    "Attached disk "@ + disk + " to instance "@ + instance + " in project "@ + organization
        + seq!['/'] + project
}

/// The success line of a detach.
pub open spec fn detach_message_spec(
    disk: Seq<char>,
    instance: Seq<char>,
    organization: Seq<char>,
    project: Seq<char>,
) -> Seq<char> {
    "Detached disk "@ + disk + " from instance "@ + instance + " in project "@ + organization
        + seq!['/'] + project
}

/// Plans an attach: one request, or `InvalidArgument` on a missing scope
/// field, before any request.
pub fn attach_plan(disk: &String, instance: &String, organization: &String, project: &String) -> (r:
    Result<ActionPlan, CmdError>)
    ensures
        r is Ok <==> scope_ok(organization@, project@),
        r is Err ==> crate::error::is_invalid_argument(
            r->Err_0,
            "--organization and --project are required"@,
        ),
        r is Ok ==> (r->Ok_0.call matches ApiCall::AttachDisk { disk: d, instance: i, organization: o, project: p }
            && d@ == disk@ && i@ == instance@ && o@ == organization@ && p@ == project@),
        r is Ok ==> r->Ok_0.success@ == attach_message_spec(
            disk@,
            instance@,
            organization@,
            project@,
        ),
{
    match crate::scope::check_scope(organization, project) {
        Err(e) => Err(e),
        Ok(()) => {
            let mut buf: Vec<char> = Vec::new();
            push_str_chars(&mut buf, "Attached disk ");
            push_str_chars(&mut buf, disk.as_str());
            push_str_chars(&mut buf, " to instance ");
            push_str_chars(&mut buf, instance.as_str());
            push_str_chars(&mut buf, " in project ");
            push_str_chars(&mut buf, organization.as_str());
            buf.push('/');
            push_str_chars(&mut buf, project.as_str());
            assert(buf@ =~= attach_message_spec(disk@, instance@, organization@, project@));
            Ok(
                ActionPlan {
                    call: ApiCall::AttachDisk {
                        disk: disk.clone(),
                        instance: instance.clone(),
                        organization: organization.clone(),
                        project: project.clone(),
                    },
                    success: chars_to_string(&buf),
                },
            )
        },
    }
}

/// Plans a detach: one request, or `InvalidArgument` on a missing scope
/// field, before any request.
pub fn detach_plan(disk: &String, instance: &String, organization: &String, project: &String) -> (r:
    Result<ActionPlan, CmdError>)
    ensures
        r is Ok <==> scope_ok(organization@, project@),
        r is Err ==> crate::error::is_invalid_argument(
            r->Err_0,
            "--organization and --project are required"@,
        ),
        r is Ok ==> (r->Ok_0.call matches ApiCall::DetachDisk { disk: d, instance: i, organization: o, project: p }
            && d@ == disk@ && i@ == instance@ && o@ == organization@ && p@ == project@),
        r is Ok ==> r->Ok_0.success@ == detach_message_spec(
            disk@,
            instance@,
            organization@,
            project@,
        ),
{
    match crate::scope::check_scope(organization, project) {
        Err(e) => Err(e),
        Ok(()) => {
            let mut buf: Vec<char> = Vec::new();
            push_str_chars(&mut buf, "Detached disk ");
            push_str_chars(&mut buf, disk.as_str());
            push_str_chars(&mut buf, " from instance ");
            push_str_chars(&mut buf, instance.as_str());
            push_str_chars(&mut buf, " in project ");
            push_str_chars(&mut buf, organization.as_str());
            buf.push('/');
            push_str_chars(&mut buf, project.as_str());
            assert(buf@ =~= detach_message_spec(disk@, instance@, organization@, project@));
            Ok(
                ActionPlan {
                    call: ApiCall::DetachDisk {
                        disk: disk.clone(),
                        instance: instance.clone(),
                        organization: organization.clone(),
                        project: project.clone(),
                    },
                    success: chars_to_string(&buf),
                },
            )
        },
    }
}

/// The success line of a deletion.
pub open spec fn delete_message_spec(
    singular: Seq<char>,
    name: Seq<char>,
    organization: Seq<char>,
    project: Seq<char>,
) -> Seq<char> {
    "Deleted "@ + singular + seq![' '] + name + " from "@ + organization + seq!['/'] + project
}

/// Builds the success line of a deletion.
pub fn delete_message(
    singular: &String,
    name: &String,
    organization: &String,
    project: &String,
) -> (r: String)
    ensures
        r@ == delete_message_spec(singular@, name@, organization@, project@),
{
    let mut buf: Vec<char> = Vec::new();
    push_str_chars(&mut buf, "Deleted ");
    push_str_chars(&mut buf, singular.as_str());
    buf.push(' ');
    push_str_chars(&mut buf, name.as_str());
    push_str_chars(&mut buf, " from ");
    push_str_chars(&mut buf, organization.as_str());
    buf.push('/');
    push_str_chars(&mut buf, project.as_str());
    assert(buf@ =~= delete_message_spec(singular@, name@, organization@, project@));
    chars_to_string(&buf)
}

/// The success line of a creation.
pub open spec fn create_message_spec(
    singular: Seq<char>,
    name: Seq<char>,
    organization: Seq<char>,
    project: Seq<char>,
) -> Seq<char> {
    "Successfully created "@ + singular + seq![' '] + name + " in "@ + organization + seq!['/']
        + project
}

/// Builds the success line of a creation.
pub fn create_message(
    singular: &String,
    name: &String,
    organization: &String,
    project: &String,
) -> (r: String)
    ensures
        r@ == create_message_spec(singular@, name@, organization@, project@),
{
    let mut buf: Vec<char> = Vec::new();
    push_str_chars(&mut buf, "Successfully created ");
    push_str_chars(&mut buf, singular.as_str());
    buf.push(' ');
    push_str_chars(&mut buf, name.as_str());
    push_str_chars(&mut buf, " in ");
    push_str_chars(&mut buf, organization.as_str());
    buf.push('/');
    push_str_chars(&mut buf, project.as_str());
    assert(buf@ =~= create_message_spec(singular@, name@, organization@, project@));
    chars_to_string(&buf)
}

} // verus!
