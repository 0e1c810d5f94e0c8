//! Database instances.
use vstd::prelude::*;

use crate::filter::{filter, selected};
use crate::resource::{Action, ResourceDescriptor, ResourceKind};

verus! {

/// The ids of the database instances of the cluster that may be deleted:
/// those that are available or stopped, in listing order.
pub fn list_db_instances(instances: &Vec<ResourceDescriptor>, cluster: &str) -> (r: Vec<
    String,
>)
    ensures
        r@ == selected(ResourceKind::DatabaseInstance, Action::Delete, instances@, cluster@, 0),
{
    filter(ResourceKind::DatabaseInstance, Action::Delete, instances, cluster, 0)
}

/// The ids of the database instances of the cluster that are to be stopped:
/// the available ones, in listing order. A stopped instance is not stopped again.
pub fn db_instances_to_stop(instances: &Vec<ResourceDescriptor>, cluster: &str) -> (r: Vec<
    String,
>)
    ensures
        r@ == selected(
            ResourceKind::DatabaseInstance,
            Action::ScaleDown,
            instances@,
            cluster@,
            0,
        ),
{
    filter(ResourceKind::DatabaseInstance, Action::ScaleDown, instances, cluster, 0)
}

} // verus!
