//! Container services.
use vstd::prelude::*;

use crate::filter::{filter, selected};
use crate::resource::{Action, ResourceDescriptor, ResourceKind};

verus! {

/// The ARNs of the services of the cluster whose desired count is strictly
/// above `desired_count`, in listing order. A service whose details could not
/// be read carries no capacity and is skipped.
pub fn get_service_arns(
    services: &Vec<ResourceDescriptor>,
    cluster: &str,
    desired_count: i32,
) -> (r: Vec<String>)
    ensures
        r@ == selected(
            ResourceKind::ServiceInstance,
            Action::ScaleDown,
            services@,
            cluster@,
            desired_count as int,
        ),
{
    filter(ResourceKind::ServiceInstance, Action::ScaleDown, services, cluster, desired_count)
}

} // verus!
