//! The organization/project pair naming the namespace a resource lives in.
//!
//! Every scoped operation checks its scope before any request is produced:
//! an empty organization or project name is rejected with `InvalidArgument`,
//! so a missing scope never reaches the network.

use vstd::prelude::*;

use crate::error::CmdError;
use crate::text::chars_to_string;

verus! {

/// Whether both scope fields are present.
pub open spec fn scope_ok(organization: Seq<char>, project: Seq<char>) -> bool {
    organization.len() > 0 && project.len() > 0
}

/// The full scope path, `organization/project`.
pub open spec fn scope_path_spec(organization: Seq<char>, project: Seq<char>) -> Seq<char> {
    organization + seq!['/'] + project
}

/// Rejects an empty organization or project name before any request is
/// made.
pub fn check_scope(organization: &String, project: &String) -> (r: Result<(), CmdError>)
    ensures
        r is Ok <==> scope_ok(organization@, project@),
        r is Err ==> crate::error::is_invalid_argument(
            r->Err_0,
            "--organization and --project are required"@,
        ),
{
    if organization.as_str().is_empty() || project.as_str().is_empty() {
        let m = String::from_str("--organization and --project are required");
        Err(CmdError::InvalidArgument(m))
    } else {
        Ok(())
    }
}

/// Builds the full scope path, `organization/project`.
pub fn scope_path(organization: &String, project: &String) -> (r: String)
    ensures
        r@ == scope_path_spec(organization@, project@),
{
    let mut buf: Vec<char> = Vec::new();
    crate::text::push_str_chars(&mut buf, organization.as_str());
    buf.push('/');
    crate::text::push_str_chars(&mut buf, project.as_str());
    assert(buf@ =~= scope_path_spec(organization@, project@));
    chars_to_string(&buf)
}

} // verus!
