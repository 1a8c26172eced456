//! Viewing a single resource.
//!
//! With the `web` flag the operation makes no request at all: it builds the
//! resource's address deterministically from the host, the scope, and the
//! identifier, for the surrounding program to open in a browser.  Otherwise
//! it asks for the single record; a service report of no match passes
//! through as a `ServiceError`.

use vstd::prelude::*;

use crate::api::ApiCall;
use crate::error::CmdError;
use crate::scope::scope_ok;
use crate::text::{chars_to_string, push_str_chars};

verus! {

/// What a view operation does.
pub enum ViewPlan {
    /// Open this address in a browser; no request to the service.
    Browse { url: String },
    /// Fetch the single record.
    Fetch(ApiCall),
}

/// The address of a resource under the given host.
pub open spec fn view_url_spec(
    host: Seq<char>,
    organization: Seq<char>,
    project: Seq<char>,
    plural: Seq<char>,
    name: Seq<char>,
) -> Seq<char> {
    "https://"@ + host + seq!['/'] + organization + seq!['/'] + project + seq!['/'] + plural
        + seq!['/'] + name
}

/// Builds the browser address of a resource.
pub fn view_url(
    host: &String,
    organization: &String,
    project: &String,
    plural: &String,
    name: &String,
) -> (r: String)
    ensures
        r@ == view_url_spec(host@, organization@, project@, plural@, name@),
{
    let mut buf: Vec<char> = Vec::new();
    push_str_chars(&mut buf, "https://");
    push_str_chars(&mut buf, host.as_str());
    buf.push('/');
    push_str_chars(&mut buf, organization.as_str());
    buf.push('/');
    push_str_chars(&mut buf, project.as_str());
    buf.push('/');
    push_str_chars(&mut buf, plural.as_str());
    buf.push('/');
    push_str_chars(&mut buf, name.as_str());
    assert(buf@ =~= view_url_spec(host@, organization@, project@, plural@, name@));
    chars_to_string(&buf)
}

/// Plans a view: the browser address with the `web` flag, the single fetch
/// otherwise, and `InvalidArgument` when a scope field is missing.
pub fn view_plan(
    plural: &String,
    name: &String,
    organization: &String,
    project: &String,
    web: bool,
    host: &String,
) -> (r: Result<ViewPlan, CmdError>)
    ensures
        r is Ok <==> scope_ok(organization@, project@),
        r is Err ==> crate::error::is_invalid_argument(
            r->Err_0,
            "--organization and --project are required"@,
        ),
        r is Ok && web ==> (r->Ok_0 matches ViewPlan::Browse { url } && url@ == view_url_spec(
            host@,
            organization@,
            project@,
            plural@,
            name@,
        )),
        r is Ok && !web ==> (r->Ok_0 matches ViewPlan::Fetch(c) && c matches ApiCall::GetOne {
            plural: p,
            name: n,
            organization: o,
            project: pr,
        } && p@ == plural@ && n@ == name@ && o@ == organization@ && pr@ == project@),
{
    match crate::scope::check_scope(organization, project) {
        Err(e) => Err(e),
        Ok(()) => {
            if web {
                Ok(ViewPlan::Browse { url: view_url(host, organization, project, plural, name) })
            } else {
                Ok(
                    ViewPlan::Fetch(
                        ApiCall::GetOne {
                            plural: plural.clone(),
                            name: name.clone(),
                            organization: organization.clone(),
                            project: project.clone(),
                        },
                    ),
                )
            }
        },
    }
}

} // verus!
