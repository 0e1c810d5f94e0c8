//! Cache replication groups.
use vstd::prelude::*;

use crate::filter::{filter, selected};
use crate::resource::{Action, ResourceDescriptor, ResourceKind};

verus! {

/// The ids of the available replication groups of the cluster, in listing order.
pub fn list_replication_groups(groups: &Vec<ResourceDescriptor>, cluster: &str) -> (r: Vec<
    String,
>)
    ensures
        r@ == selected(ResourceKind::ReplicationGroup, Action::Delete, groups@, cluster@, 0),
{
    filter(ResourceKind::ReplicationGroup, Action::Delete, groups, cluster, 0)
}

} // verus!
