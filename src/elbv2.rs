//! Load balancers.
use vstd::prelude::*;

use crate::filter::{filter, selected};
use crate::resource::{Action, ResourceDescriptor, ResourceKind};

verus! {

/// The ARNs of the load balancers whose name holds the cluster name, in
/// listing order.
pub fn list_load_balancers(balancers: &Vec<ResourceDescriptor>, cluster: &str) -> (r: Vec<
    String,
>)
    ensures
        r@ == selected(ResourceKind::LoadBalancer, Action::Delete, balancers@, cluster@, 0),
{
    filter(ResourceKind::LoadBalancer, Action::Delete, balancers, cluster, 0)
}

} // verus!
