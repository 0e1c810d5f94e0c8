//! Auto-scaling groups.
use vstd::prelude::*;

use crate::filter::{filter, selected};
use crate::resource::{Action, ResourceDescriptor, ResourceKind};

verus! {

/// The names of the scaling groups of the cluster whose desired capacity is
/// strictly above `desired_capacity`, in listing order.
pub fn list_asgs(
    groups: &Vec<ResourceDescriptor>,
    cluster: &str,
    desired_capacity: i32,
) -> (r: Vec<String>)
    ensures
        r@ == selected(
            ResourceKind::ScalingGroup,
            Action::ScaleDown,
            groups@,
            cluster@,
            desired_capacity as int,
        ),
{
    filter(ResourceKind::ScalingGroup, Action::ScaleDown, groups, cluster, desired_capacity)
}

} // verus!
