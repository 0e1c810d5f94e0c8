//! The cluster filter: membership by name, and the per-kind gates.
use vstd::prelude::*;

use crate::resource::{status_of, Action, ResourceDescriptor, ResourceKind, Status};
use crate::text::{contains_text, text_contains};

verus! {

/// The kind-specific precondition for acting on a resource.
///
/// Scaling groups and services need a known capacity strictly above the
/// threshold; replication groups must be available; a database is stopped only
/// when available and deleted when available or stopped; load balancers have
/// no gate.
pub open spec fn passes_gate(
    kind: ResourceKind,
    action: Action,
    d: ResourceDescriptor,
    min_capacity: int,
) -> bool {
    match kind {
        ResourceKind::ScalingGroup | ResourceKind::ServiceInstance => match d.capacity {
            Some(c) => c > min_capacity,
            None => false,
        },
        ResourceKind::ReplicationGroup => d.status == Status::Available,
        ResourceKind::DatabaseInstance => match action {
            Action::ScaleDown => d.status == Status::Available,
            Action::Delete => d.status == Status::Available || d.status == Status::Stopped,
        },
        ResourceKind::LoadBalancer => true,
    }
}

/// A resource belongs to the cluster when its identifier holds the cluster name.
pub open spec fn is_member(d: ResourceDescriptor, cluster: Seq<char>) -> bool {
    text_contains(d.identifier@, cluster)
}

pub open spec fn is_eligible(
    kind: ResourceKind,
    action: Action,
    d: ResourceDescriptor,
    cluster: Seq<char>,
    min_capacity: int,
) -> bool {
    is_member(d, cluster) && passes_gate(kind, action, d, min_capacity)
}

/// The handles of the eligible candidates, in the order they were listed.
pub open spec fn selected(
    kind: ResourceKind,
    action: Action,
    c: Seq<ResourceDescriptor>,
    cluster: Seq<char>,
    min_capacity: int,
) -> Seq<String>
    decreases c.len(),
{
    if c.len() == 0 {
        Seq::empty()
    } else {
        let before = selected(kind, action, c.drop_last(), cluster, min_capacity);
        if is_eligible(kind, action, c.last(), cluster, min_capacity) {
            before.push(c.last().handle)
        } else {
            before
        }
    }
}

/// Whether one candidate is eligible for `action` in the cluster.
pub fn eligible(
    kind: ResourceKind,
    action: Action,
    d: &ResourceDescriptor,
    cluster: &str,
    min_capacity: i32,
) -> (r: bool)
    ensures
        r == is_eligible(kind, action, *d, cluster@, min_capacity as int),
{
    if !contains_text(d.identifier.as_str(), cluster) {
        return false;
    }
    match kind {
        ResourceKind::ScalingGroup | ResourceKind::ServiceInstance => match d.capacity {
            Some(c) => c > min_capacity,
            None => false,
        },
        ResourceKind::ReplicationGroup => d.status == Status::Available,
        ResourceKind::DatabaseInstance => match action {
            Action::ScaleDown => d.status == Status::Available,
            Action::Delete => d.status == Status::Available || d.status == Status::Stopped,
        },
        ResourceKind::LoadBalancer => true,
    }
}

/// The eligible set: the handles of the candidates that belong to the cluster
/// and pass the kind's gate, in listing order.
pub fn filter(
    kind: ResourceKind,
    action: Action,
    candidates: &Vec<ResourceDescriptor>,
    cluster: &str,
    min_capacity: i32,
) -> (r: Vec<String>)
    ensures
        r@ == selected(kind, action, candidates@, cluster@, min_capacity as int),
{
    let mut out: Vec<String> = Vec::new();
    let mut i: usize = 0;
    while i < candidates.len()
        invariant
            i <= candidates@.len(),
            out@ == selected(
                kind,
                action,
                candidates@.subrange(0, i as int),
                cluster@,
                min_capacity as int,
            ),
        decreases candidates@.len() - i,
    {
        let d = &candidates[i];
        proof {
            let next = candidates@.subrange(0, i + 1);
            assert(next.drop_last() =~= candidates@.subrange(0, i as int));
            assert(next.last() == *d);
        }
        if eligible(kind, action, d, cluster, min_capacity) {
            out.push(d.handle.clone());
        }
        i = i + 1;
    }
    assert(candidates@.subrange(0, i as int) =~= candidates@);
    out
}


/// Every handle in the eligible set comes from a candidate whose identifier
/// holds the cluster name and which passes its kind's gate: a candidate that
/// does not name the cluster never contributes.
pub proof fn lemma_selected_are_members(
    kind: ResourceKind,
    action: Action,
    c: Seq<ResourceDescriptor>,
    cluster: Seq<char>,
    min_capacity: int,
)
    ensures
        forall|k: int|
            0 <= k < selected(kind, action, c, cluster, min_capacity).len() ==> exists|i: int|
                0 <= i < c.len() && #[trigger] selected(kind, action, c, cluster, min_capacity)[k]
                    == c[i].handle && is_member(c[i], cluster) && passes_gate(
                    kind,
                    action,
                    c[i],
                    min_capacity,
                ),
    decreases c.len(),
{
    if c.len() > 0 {
        let prefix = c.drop_last();
        lemma_selected_are_members(kind, action, prefix, cluster, min_capacity);
        let s = selected(kind, action, c, cluster, min_capacity);
        let p = selected(kind, action, prefix, cluster, min_capacity);
        assert forall|k: int| 0 <= k < s.len() implies exists|i: int|
            0 <= i < c.len() && #[trigger] s[k] == c[i].handle && is_member(c[i], cluster)
                && passes_gate(kind, action, c[i], min_capacity) by {
            if k < p.len() {
                assert(s[k] == p[k]);
                let i = choose|i: int|
                    0 <= i < prefix.len() && #[trigger] p[k] == prefix[i].handle && is_member(
                        prefix[i],
                        cluster,
                    ) && passes_gate(kind, action, prefix[i], min_capacity);
                assert(prefix[i] == c[i]);
            } else {
                assert(s[k] == c[c.len() - 1].handle);
            }
        }
    }
}

/// A candidate with no eligible member selects nothing.
proof fn lemma_none_eligible(
    kind: ResourceKind,
    action: Action,
    c: Seq<ResourceDescriptor>,
    cluster: Seq<char>,
    min_capacity: int,
)
    requires
        forall|i: int|
            0 <= i < c.len() ==> !is_eligible(kind, action, #[trigger] c[i], cluster, min_capacity),
    ensures
        selected(kind, action, c, cluster, min_capacity) == Seq::<String>::empty(),
    decreases c.len(),
{
    if c.len() > 0 {
        let prefix = c.drop_last();
        assert forall|i: int| 0 <= i < prefix.len() implies !is_eligible(
            kind,
            action,
            #[trigger] prefix[i],
            cluster,
            min_capacity,
        ) by {
            assert(prefix[i] == c[i]);
        }
        lemma_none_eligible(kind, action, prefix, cluster, min_capacity);
    }
}

/// The provider state once every resource of the eligible set has been scaled
/// to `target`.
pub open spec fn after_scale_down(
    kind: ResourceKind,
    c: Seq<ResourceDescriptor>,
    cluster: Seq<char>,
    min_capacity: int,
    target: i32,
) -> Seq<ResourceDescriptor> {
    c.map_values(
        |d: ResourceDescriptor|
            if is_eligible(kind, Action::ScaleDown, d, cluster, min_capacity) {
                ResourceDescriptor { capacity: Some(target), ..d }
            } else {
                d
            },
    )
}

/// Scaling down is idempotent: once every eligible scaling group or service
/// has been scaled to a target at or below the threshold, selecting again
/// against that state gives an empty set.
pub proof fn lemma_scale_down_idempotent(
    kind: ResourceKind,
    c: Seq<ResourceDescriptor>,
    cluster: Seq<char>,
    min_capacity: int,
    target: i32,
)
    requires
        kind == ResourceKind::ScalingGroup || kind == ResourceKind::ServiceInstance,
        target <= min_capacity,
    ensures
        selected(
            kind,
            Action::ScaleDown,
            after_scale_down(kind, c, cluster, min_capacity, target),
            cluster,
            min_capacity,
        ) == Seq::<String>::empty(),
{
    let after = after_scale_down(kind, c, cluster, min_capacity, target);
    assert forall|i: int| 0 <= i < after.len() implies !is_eligible(
        kind,
        Action::ScaleDown,
        #[trigger] after[i],
        cluster,
        min_capacity,
    ) by {
        let d = c[i];
        if is_eligible(kind, Action::ScaleDown, d, cluster, min_capacity) {
            assert(after[i].capacity == Some(target));
        } else {
            assert(after[i] == d);
        }
    }
    lemma_none_eligible(kind, Action::ScaleDown, after, cluster, min_capacity);
}

/// The capacity gate is strict: a scaling group or service of the cluster at
/// exactly the threshold is left out, one just above it is taken.
pub proof fn lemma_capacity_gate_strict(
    kind: ResourceKind,
    action: Action,
    d: ResourceDescriptor,
    cluster: Seq<char>,
    min_capacity: i32,
)
    requires
        kind == ResourceKind::ScalingGroup || kind == ResourceKind::ServiceInstance,
        is_member(d, cluster),
    ensures
        d.capacity == Some(min_capacity) ==> !is_eligible(
            kind,
            action,
            d,
            cluster,
            min_capacity as int,
        ),
        d.capacity == Some((min_capacity + 1) as i32) && min_capacity < i32::MAX ==> is_eligible(
            kind,
            action,
            d,
            cluster,
            min_capacity as int,
        ),
{
}

/// The status gate of databases: one that is being created is neither stopped
/// nor deleted; a stopped one is deleted but not stopped again.
pub proof fn lemma_database_status_gate(d: ResourceDescriptor, cluster: Seq<char>, min_capacity: int)
    ensures
        status_of("creating"@) == Status::Transitioning,
        status_of("stopped"@) == Status::Stopped,
        d.status == Status::Transitioning ==> !is_eligible(
            ResourceKind::DatabaseInstance,
            Action::ScaleDown,
            d,
            cluster,
            min_capacity,
        ) && !is_eligible(ResourceKind::DatabaseInstance, Action::Delete, d, cluster, min_capacity),
        d.status == Status::Stopped ==> !is_eligible(
            ResourceKind::DatabaseInstance,
            Action::ScaleDown,
            d,
            cluster,
            min_capacity,
        ) && (is_eligible(ResourceKind::DatabaseInstance, Action::Delete, d, cluster, min_capacity)
            == is_member(d, cluster)),
{
    reveal_strlit("creating");
    reveal_strlit("stopped");
    reveal_strlit("available");
    assert("creating"@ != "available"@) by {
        assert("creating"@[0] != "available"@[0]);
    }
    assert("creating"@ != "stopped"@) by {
        assert("creating"@[0] != "stopped"@[0]);
    }
    assert("stopped"@ != "available"@) by {
        assert("stopped"@[0] != "available"@[0]);
    }
}

} // verus!
