//! The teardown plan: which mutations are issued, on what, and in what order.
use vstd::prelude::*;

use crate::autoscaling::list_asgs;
use crate::ecs::get_service_arns;
use crate::elasticache::list_replication_groups;
use crate::elbv2::list_load_balancers;
use crate::filter::selected;
use crate::rds::{db_instances_to_stop, list_db_instances};
use crate::resource::{Action, ResourceDescriptor, ResourceKind};

verus! {

/// The capacity that scaling groups and services are scaled down to.
pub const SCALED_DOWN_CAPACITY: i32 = 0;

/// One remote mutation.
#[derive(Clone, Copy, Debug, PartialEq, Eq, Structural)]
pub enum Mutation {
    /// Set a scaling group's desired, minimum and maximum size to the capacity.
    ScaleDownGroup(i32),
    /// Set a service's desired count to the capacity.
    ScaleDownService(i32),
    StopDatabase,
    DeleteReplicationGroup,
    DeleteService,
    DisableDeletionProtection,
    /// Delete a database instance, skipping the final snapshot.
    DeleteDatabase,
    DeleteLoadBalancer,
}

/// A mutation and the handle of the resource it addresses.
#[derive(Clone, Debug)]
pub struct Step {
    pub mutation: Mutation,
    pub target: String,
}

/// The eligible sets of one run, computed once before any mutation.
#[derive(Clone, Debug)]
pub struct EligibleSets {
    pub groups: Vec<String>,
    pub services: Vec<String>,
    pub replication_groups: Vec<String>,
    pub databases_to_stop: Vec<String>,
    pub databases: Vec<String>,
    pub load_balancers: Vec<String>,
}

/// Everything the provider listed, per kind, before any filtering.
#[derive(Clone, Debug)]
pub struct Inventory {
    pub groups: Vec<ResourceDescriptor>,
    pub services: Vec<ResourceDescriptor>,
    pub replication_groups: Vec<ResourceDescriptor>,
    pub databases: Vec<ResourceDescriptor>,
    pub load_balancers: Vec<ResourceDescriptor>,
}

impl EligibleSets {
    /// Narrows a full listing to the cluster: scaling groups and services
    /// with a capacity above zero, available replication groups, available
    /// databases to stop, available or stopped databases to delete, and every
    /// load balancer whose name holds the cluster name.
    pub fn discover(inventory: &Inventory, cluster: &str) -> (r: EligibleSets)
        ensures
            r.groups@ == selected(
                ResourceKind::ScalingGroup,
                Action::ScaleDown,
                inventory.groups@,
                cluster@,
                SCALED_DOWN_CAPACITY as int,
            ),
            r.services@ == selected(
                ResourceKind::ServiceInstance,
                Action::ScaleDown,
                inventory.services@,
                cluster@,
                SCALED_DOWN_CAPACITY as int,
            ),
            r.replication_groups@ == selected(
                ResourceKind::ReplicationGroup,
                Action::Delete,
                inventory.replication_groups@,
                cluster@,
                0,
            ),
            r.databases_to_stop@ == selected(
                ResourceKind::DatabaseInstance,
                Action::ScaleDown,
                inventory.databases@,
                cluster@,
                0,
            ),
            r.databases@ == selected(
                ResourceKind::DatabaseInstance,
                Action::Delete,
                inventory.databases@,
                cluster@,
                0,
            ),
            r.load_balancers@ == selected(
                ResourceKind::LoadBalancer,
                Action::Delete,
                inventory.load_balancers@,
                cluster@,
                0,
            ),
    {
        EligibleSets {
            groups: list_asgs(&inventory.groups, cluster, SCALED_DOWN_CAPACITY),
            services: get_service_arns(&inventory.services, cluster, SCALED_DOWN_CAPACITY),
            replication_groups: list_replication_groups(&inventory.replication_groups, cluster),
            databases_to_stop: db_instances_to_stop(&inventory.databases, cluster),
            databases: list_db_instances(&inventory.databases, cluster),
            load_balancers: list_load_balancers(&inventory.load_balancers, cluster),
        }
    }
}

/// Whether the step at `pos` opens a run of steps with a different mutation
/// from the one before it.
pub open spec fn opens_group(plan: Seq<Step>, pos: int) -> bool {
    pos == 0 || plan[pos].mutation != plan[pos - 1].mutation
}

/// Whether a progress heading is due before the step at `pos`: the first
/// step of each kind of work. Phases with no work announce nothing.
pub fn opens_group_at(plan: &Vec<Step>, pos: usize) -> (r: bool)
    requires
        pos < plan@.len(),
    ensures
        r == opens_group(plan@, pos as int),
{
    pos == 0 || plan[pos].mutation != plan[pos - 1].mutation
}

/// What the run is asked to do beyond discovery.
#[derive(Clone, Copy, Debug, PartialEq, Eq, Structural)]
pub struct Directive {
    pub scale_down: bool,
    pub delete: bool,
}

/// Whether a mutation belongs to the scale-down phase.
pub open spec fn is_scale_down(m: Mutation) -> bool {
    match m {
        Mutation::ScaleDownGroup(_) | Mutation::ScaleDownService(_) | Mutation::StopDatabase => true,
        _ => false,
    }
}

/// One step of mutation `m` per target, in order.
pub open spec fn each(targets: Seq<String>, m: Mutation) -> Seq<Step> {
    targets.map_values(|t: String| Step { mutation: m, target: t })
}

/// For each database in order: disable its deletion protection, then delete it.
pub open spec fn protected_deletes(targets: Seq<String>) -> Seq<Step>
    decreases targets.len(),
{
    if targets.len() == 0 {
        Seq::empty()
    } else {
        protected_deletes(targets.drop_last()).push(
            Step { mutation: Mutation::DisableDeletionProtection, target: targets.last() },
        ).push(Step { mutation: Mutation::DeleteDatabase, target: targets.last() })
    }
}

/// Scale down scaling groups, then services, then stop databases.
pub open spec fn scale_down_steps(s: EligibleSets) -> Seq<Step> {
    each(s.groups@, Mutation::ScaleDownGroup(SCALED_DOWN_CAPACITY)) + each(
        s.services@,
        Mutation::ScaleDownService(SCALED_DOWN_CAPACITY),
    ) + each(s.databases_to_stop@, Mutation::StopDatabase)
}

/// Delete replication groups, services, databases, then load balancers.
pub open spec fn delete_steps(s: EligibleSets) -> Seq<Step> {
    each(s.replication_groups@, Mutation::DeleteReplicationGroup) + each(
        s.services@,
        Mutation::DeleteService,
    ) + protected_deletes(s.databases@) + each(s.load_balancers@, Mutation::DeleteLoadBalancer)
}

/// The whole plan: the scale-down phase when scale-down or delete is asked
/// for, followed by the delete phase when delete is asked for.
pub open spec fn planned(s: EligibleSets, d: Directive) -> Seq<Step> {
    (if d.scale_down || d.delete {
        scale_down_steps(s)
    } else {
        Seq::empty()
    }) + (if d.delete {
        delete_steps(s)
    } else {
        Seq::empty()
    })
}

fn push_each(out: &mut Vec<Step>, targets: &Vec<String>, m: Mutation)
    ensures
        final(out)@ == old(out)@ + each(targets@, m),
{
    let ghost start = out@;
    let mut i: usize = 0;
    while i < targets.len()
        invariant
            i <= targets@.len(),
            out@ == start + each(targets@.subrange(0, i as int), m),
        decreases targets@.len() - i,
    {
        let step = Step { mutation: m, target: targets[i].clone() };
        out.push(step);
        assert(each(targets@.subrange(0, i + 1), m) =~= each(targets@.subrange(0, i as int), m).push(
            step,
        ));
        i = i + 1;
    }
    assert(targets@.subrange(0, i as int) =~= targets@);
}

fn push_protected_deletes(out: &mut Vec<Step>, targets: &Vec<String>)
    ensures
        final(out)@ == old(out)@ + protected_deletes(targets@),
{
    let ghost start = out@;
    let mut i: usize = 0;
    while i < targets.len()
        invariant
            i <= targets@.len(),
            out@ == start + protected_deletes(targets@.subrange(0, i as int)),
        decreases targets@.len() - i,
    {
        let first = Step { mutation: Mutation::DisableDeletionProtection, target: targets[i].clone() };
        let second = Step { mutation: Mutation::DeleteDatabase, target: targets[i].clone() };
        out.push(first);
        out.push(second);
        proof {
            let next = targets@.subrange(0, i + 1);
            assert(next.drop_last() =~= targets@.subrange(0, i as int));
            assert(out@ =~= start + protected_deletes(next));
        }
        i = i + 1;
    }
    assert(targets@.subrange(0, i as int) =~= targets@);
}

/// The ordered list of mutations for a run.
pub fn build_plan(sets: &EligibleSets, directive: Directive) -> (r: Vec<Step>)
    ensures
        r@ == planned(*sets, directive),
{
    let mut out: Vec<Step> = Vec::new();
    if directive.scale_down || directive.delete {
        push_each(&mut out, &sets.groups, Mutation::ScaleDownGroup(SCALED_DOWN_CAPACITY));
        push_each(&mut out, &sets.services, Mutation::ScaleDownService(SCALED_DOWN_CAPACITY));
        push_each(&mut out, &sets.databases_to_stop, Mutation::StopDatabase);
    }
    if directive.delete {
        push_each(&mut out, &sets.replication_groups, Mutation::DeleteReplicationGroup);
        push_each(&mut out, &sets.services, Mutation::DeleteService);
        push_protected_deletes(&mut out, &sets.databases);
        push_each(&mut out, &sets.load_balancers, Mutation::DeleteLoadBalancer);
    }
    assert(out@ =~= planned(*sets, directive));
    out
}

proof fn lemma_protected_deletes_shape(targets: Seq<String>)
    ensures
        protected_deletes(targets).len() == 2 * targets.len(),
        forall|j: int|
            0 <= j < protected_deletes(targets).len() ==> !is_scale_down(
                (#[trigger] protected_deletes(targets)[j]).mutation,
            ),
        forall|j: int|
            0 <= j < protected_deletes(targets).len() && (#[trigger] protected_deletes(
                targets,
            )[j]).mutation == Mutation::DeleteDatabase ==> j >= 1 && protected_deletes(targets)[j
                - 1] == (Step {
                mutation: Mutation::DisableDeletionProtection,
                target: protected_deletes(targets)[j].target,
            }),
        forall|j: int|
            0 <= j < protected_deletes(targets).len() && (#[trigger] protected_deletes(
                targets,
            )[j]).mutation == Mutation::DisableDeletionProtection ==> j + 1 < protected_deletes(
                targets,
            ).len() && protected_deletes(targets)[j + 1] == (Step {
                mutation: Mutation::DeleteDatabase,
                target: protected_deletes(targets)[j].target,
            }),
    decreases targets.len(),
{
    if targets.len() > 0 {
        lemma_protected_deletes_shape(targets.drop_last());
    }
}

/// Phase ordering: in every plan, no delete-phase mutation (deletes and the
/// disabling of deletion protection) comes before a scale-down or stop.
pub proof fn lemma_deletes_follow_scale_downs(s: EligibleSets, d: Directive)
    ensures
        forall|i: int, j: int|
            0 <= i < j < planned(s, d).len() && !is_scale_down(
                (#[trigger] planned(s, d)[i]).mutation,
            ) ==> !is_scale_down((#[trigger] planned(s, d)[j]).mutation),
{
    let up = if d.scale_down || d.delete {
        scale_down_steps(s)
    } else {
        Seq::empty()
    };
    let del = if d.delete {
        delete_steps(s)
    } else {
        Seq::empty()
    };
    lemma_protected_deletes_shape(s.databases@);
    assert forall|k: int| 0 <= k < up.len() implies is_scale_down((#[trigger] up[k]).mutation) by {
        if k < s.groups@.len() + s.services@.len() {
            if k < s.groups@.len() {
            }
        }
    }
    assert forall|k: int| 0 <= k < del.len() implies !is_scale_down((#[trigger] del[k]).mutation) by {
        let a = each(s.replication_groups@, Mutation::DeleteReplicationGroup);
        let b = each(s.services@, Mutation::DeleteService);
        let c = protected_deletes(s.databases@);
        if k >= a.len() + b.len() && k < a.len() + b.len() + c.len() {
            assert(del[k] == c[k - a.len() - b.len()]);
        }
    }
    assert(planned(s, d) == up + del);
}

/// In every plan, each database delete comes right after the step that
/// disables that database's deletion protection.
pub proof fn lemma_delete_follows_protection_off(s: EligibleSets, d: Directive)
    ensures
        forall|j: int|
            0 <= j < planned(s, d).len() && (#[trigger] planned(s, d)[j]).mutation
                == Mutation::DeleteDatabase ==> j >= 1 && planned(s, d)[j - 1] == (Step {
                mutation: Mutation::DisableDeletionProtection,
                target: planned(s, d)[j].target,
            }),
{
    let up = if d.scale_down || d.delete {
        scale_down_steps(s)
    } else {
        Seq::empty()
    };
    let a = each(s.replication_groups@, Mutation::DeleteReplicationGroup);
    let b = each(s.services@, Mutation::DeleteService);
    let c = protected_deletes(s.databases@);
    let e = each(s.load_balancers@, Mutation::DeleteLoadBalancer);
    lemma_protected_deletes_shape(s.databases@);
    let p = planned(s, d);
    assert forall|j: int|
        0 <= j < p.len() && (#[trigger] p[j]).mutation == Mutation::DeleteDatabase implies j >= 1
        && p[j - 1] == (Step {
        mutation: Mutation::DisableDeletionProtection,
        target: p[j].target,
    }) by {
        if j < up.len() {
            assert(p[j] == up[j]);
            assert(is_scale_down(up[j].mutation)) by {
                if j < s.groups@.len() + s.services@.len() {
                    if j < s.groups@.len() {
                    }
                }
            }
        } else {
            assert(d.delete);
            let k = j - up.len();
            assert(p[j] == delete_steps(s)[k]);
            if k < a.len() {
                assert(p[j] == a[k]);
            } else if k < a.len() + b.len() {
                assert(p[j] == b[k - a.len()]);
            } else if k < a.len() + b.len() + c.len() {
                let m = k - a.len() - b.len();
                assert(p[j] == c[m]);
                assert(p[j - 1] == c[m - 1]);
            } else {
                assert(p[j] == e[k - a.len() - b.len() - c.len()]);
            }
        }
    }
}

/// In every plan, each step that disables a database's deletion protection is
/// followed at once by the delete of that database.
pub proof fn lemma_protection_off_precedes_delete(s: EligibleSets, d: Directive)
    ensures
        forall|j: int|
            0 <= j < planned(s, d).len() && (#[trigger] planned(s, d)[j]).mutation
                == Mutation::DisableDeletionProtection ==> j + 1 < planned(s, d).len() && planned(
                s,
                d,
            )[j + 1] == (Step { mutation: Mutation::DeleteDatabase, target: planned(s, d)[j].target }),
{
    let up = if d.scale_down || d.delete {
        scale_down_steps(s)
    } else {
        Seq::empty()
    };
    let a = each(s.replication_groups@, Mutation::DeleteReplicationGroup);
    let b = each(s.services@, Mutation::DeleteService);
    let c = protected_deletes(s.databases@);
    let e = each(s.load_balancers@, Mutation::DeleteLoadBalancer);
    lemma_protected_deletes_shape(s.databases@);
    let p = planned(s, d);
    assert forall|j: int|
        0 <= j < p.len() && (#[trigger] p[j]).mutation == Mutation::DisableDeletionProtection implies j
        + 1 < p.len() && p[j + 1] == (Step {
        mutation: Mutation::DeleteDatabase,
        target: p[j].target,
    }) by {
        if j < up.len() {
            assert(p[j] == up[j]);
            assert(is_scale_down(up[j].mutation)) by {
                if j < s.groups@.len() + s.services@.len() {
                    if j < s.groups@.len() {
                    }
                }
            }
        } else {
            assert(d.delete);
            let k = j - up.len();
            assert(p[j] == delete_steps(s)[k]);
            if k < a.len() {
                assert(p[j] == a[k]);
            } else if k < a.len() + b.len() {
                assert(p[j] == b[k - a.len()]);
            } else if k < a.len() + b.len() + c.len() {
                let m = k - a.len() - b.len();
                assert(p[j] == c[m]);
                assert(p[j + 1] == c[m + 1]);
            } else {
                assert(p[j] == e[k - a.len() - b.len() - c.len()]);
            }
        }
    }
}

} // verus!
