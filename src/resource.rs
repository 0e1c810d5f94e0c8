//! Resource kinds, provider statuses and the listed form of a resource.
use vstd::prelude::*;

use crate::text::same_text;

verus! {

/// The five kinds of cloud resource that make up a cluster.
#[derive(Clone, Copy, Debug, PartialEq, Eq, Structural)]
pub enum ResourceKind {
    ScalingGroup,
    ServiceInstance,
    ReplicationGroup,
    DatabaseInstance,
    LoadBalancer,
}

/// The two actions taken on a resource: scale-down (or stop) and delete.
#[derive(Clone, Copy, Debug, PartialEq, Eq, Structural)]
pub enum Action {
    ScaleDown,
    Delete,
}

/// A provider status, normalised.
#[derive(Clone, Copy, Debug, PartialEq, Eq, Structural)]
pub enum Status {
    Available,
    Stopped,
    Transitioning,
    Other,
}

/// Whether a raw provider status names a state on the way between two others.
pub open spec fn is_transitional(raw: Seq<char>) -> bool {
    raw == "creating"@ || raw == "modifying"@ || raw == "deleting"@ || raw == "starting"@
        || raw == "stopping"@ || raw == "rebooting"@
}

/// The normalised form of a raw provider status.
pub open spec fn status_of(raw: Seq<char>) -> Status {
    if raw == "available"@ {
        Status::Available
    } else if raw == "stopped"@ {
        Status::Stopped
    } else if is_transitional(raw) {
        Status::Transitioning
    } else {
        Status::Other
    }
}

impl Status {
    /// Normalises a provider status string such as `"available"` or `"creating"`.
    pub fn from_provider(raw: &str) -> (r: Status)
        ensures
            r == status_of(raw@),
    {
        if same_text(raw, "available") {
            Status::Available
        } else if same_text(raw, "stopped") {
            Status::Stopped
        } else if same_text(raw, "creating") || same_text(raw, "modifying") || same_text(
            raw,
            "deleting",
        ) || same_text(raw, "starting") || same_text(raw, "stopping") || same_text(
            raw,
            "rebooting",
        ) {
            Status::Transitioning
        } else {
            Status::Other
        }
    }
}

/// One resource as the provider lists it.
///
/// `identifier` is the name matched against the cluster name; `handle` is what
/// the provider's mutations address (the same name, or an ARN for load
/// balancers). `capacity` is the desired count of a scaling group or a service;
/// it is `None` for other kinds, and for a service whose details could not be
/// read.
#[derive(Clone, Debug)]
pub struct ResourceDescriptor {
    pub identifier: String,
    pub handle: String,
    pub status: Status,
    pub capacity: Option<i32>,
}

impl ResourceDescriptor {
    /// A resource addressed by its own name.
    pub fn named(identifier: String, status: Status, capacity: Option<i32>) -> (r: ResourceDescriptor)
        ensures
            r.identifier == identifier,
            r.handle == identifier,
            r.status == status,
            r.capacity == capacity,
    {
        let handle = identifier.clone();
        ResourceDescriptor { identifier, handle, status, capacity }
    }
}

} // verus!
