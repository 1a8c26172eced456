//! The server-side representation of a resource instance, as this client
//! holds it.
//!
//! A record is display-only: it is fetched, rendered, and dropped.  Times are
//! carried as whole seconds relative to the epoch, which is all the renderer
//! reads of them; either timestamp may be absent.

use vstd::prelude::*;

verus! {

/// One resource instance as returned by the service.
pub struct ResourceRecord {
    /// Server-assigned opaque identifier.
    pub id: String,
    /// The resource's name, unique within its project.
    pub name: String,
    /// Free-text description.
    pub description: String,
    /// Lifecycle state reported by the server.
    pub state: String,
    /// Device path, for resources that expose one.
    pub device_path: String,
    /// Size in bytes.
    pub size: i64,
    /// Identifier of the snapshot the resource was created from, if any.
    pub snapshot_id: String,
    /// Creation time, in seconds relative to the epoch.
    pub time_created: Option<i64>,
    /// Last modification time, in seconds relative to the epoch.
    pub time_modified: Option<i64>,
}

/// The mathematical value of a record: its fields as sequences and integers.
#[verifier::ext_equal]
pub struct RecordView {
    pub id: Seq<char>,
    pub name: Seq<char>,
    pub description: Seq<char>,
    pub state: Seq<char>,
    pub device_path: Seq<char>,
    pub size: int,
    pub snapshot_id: Seq<char>,
    pub time_created: Option<int>,
    pub time_modified: Option<int>,
}

impl View for ResourceRecord {
    type V = RecordView;

    open spec fn view(&self) -> RecordView {
        RecordView {
            id: self.id@,
            name: self.name@,
            description: self.description@,
            state: self.state@,
            device_path: self.device_path@,
            size: self.size as int,
            snapshot_id: self.snapshot_id@,
            time_created: match self.time_created {
                Some(t) => Some(t as int),
                None => None,
            },
            time_modified: match self.time_modified {
                Some(t) => Some(t as int),
                None => None,
            },
        }
    }
}

impl Clone for ResourceRecord {
    /// A copy with the same value.
    fn clone(&self) -> (r: Self)
        ensures
            r@ == self@,
    {
        ResourceRecord {
            id: self.id.clone(),
            name: self.name.clone(),
            description: self.description.clone(),
            state: self.state.clone(),
            device_path: self.device_path.clone(),
            size: self.size,
            snapshot_id: self.snapshot_id.clone(),
            time_created: self.time_created,
            time_modified: self.time_modified,
        }
    }
}

/// The values of a vector of records, in order.
pub open spec fn records_view(rs: Seq<ResourceRecord>) -> Seq<RecordView> {
    rs.map(|i: int, r: ResourceRecord| r@)
}

} // verus!
