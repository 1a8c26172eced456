//! The calls the command set asks the surrounding program to make.
//!
//! The library never talks to the network itself.  Each operation produces
//! values of this type describing exactly one request against the remote
//! service; the caller performs the request and feeds the response back.
//! Listing requests are always served in ascending name order.

use vstd::prelude::*;

verus! {

/// One request against the remote service.
pub enum ApiCall {
    /// Fetch one page of records of a resource kind, at most `limit` of
    /// them, starting from the continuation `token` (empty for the first
    /// page), in ascending name order.
    GetPage { plural: String, organization: String, project: String, limit: u32, token: String },
    /// Fetch the single record named `name`.
    GetOne { plural: String, name: String, organization: String, project: String },
    /// Create a resource from the given fields.
    CreateResource {
        plural: String,
        organization: String,
        project: String,
        name: String,
        description: String,
        snapshot: String,
        size: i64,
    },
    /// Delete the resource named `name`.
    DeleteOne { plural: String, name: String, organization: String, project: String },
    /// Attach the disk to the instance.
    AttachDisk { disk: String, instance: String, organization: String, project: String },
    /// Detach the disk from the instance.
    DetachDisk { disk: String, instance: String, organization: String, project: String },
    /// Fetch the names of all projects of the organization, in ascending
    /// name order.
    ListProjects { organization: String },
}

} // verus!
