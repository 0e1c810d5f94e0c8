use cluster_teardown::plan::{
    build_plan, opens_group_at, Directive, EligibleSets, Inventory, Mutation, Step,
    SCALED_DOWN_CAPACITY,
};
use cluster_teardown::resource::{ResourceDescriptor, Status};
use cluster_teardown::retry::{advance, CallResult, Progress, RetryPolicy, Verdict, BACKOFF_SECONDS};

fn names(v: &[&str]) -> Vec<String> {
    v.iter().map(|s| s.to_string()).collect()
}

fn sets() -> EligibleSets {
    EligibleSets {
        groups: names(&["g1"]),
        services: names(&["s1", "s2"]),
        replication_groups: names(&["r1"]),
        databases_to_stop: names(&["d1"]),
        databases: names(&["d1", "d2"]),
        load_balancers: names(&["l1"]),
    }
}

fn shape(plan: &[Step]) -> Vec<(Mutation, String)> {
    plan.iter().map(|s| (s.mutation, s.target.clone())).collect()
}

fn is_scale_down(m: Mutation) -> bool {
    matches!(m, Mutation::ScaleDownGroup(_) | Mutation::ScaleDownService(_) | Mutation::StopDatabase)
}

#[test]
fn end_to_end_scale_down_of_groups() {
    let inventory = Inventory {
        groups: vec![
            ResourceDescriptor::named("direc-prod-lb-a".to_string(), Status::Other, Some(3)),
            ResourceDescriptor::named("direc-prod-lb-b".to_string(), Status::Other, Some(0)),
            ResourceDescriptor::named("other-cluster".to_string(), Status::Other, Some(5)),
        ],
        services: Vec::new(),
        replication_groups: Vec::new(),
        databases: Vec::new(),
        load_balancers: Vec::new(),
    };
    let found = EligibleSets::discover(&inventory, "direc-prod-lb");
    assert_eq!(found.groups, names(&["direc-prod-lb-a"]));
    let plan = build_plan(&found, Directive { scale_down: true, delete: false });
    assert_eq!(shape(&plan), vec![(Mutation::ScaleDownGroup(0), "direc-prod-lb-a".to_string())]);
    assert_eq!(SCALED_DOWN_CAPACITY, 0);
}

#[test]
fn discovery_applies_each_gate() {
    let inventory = Inventory {
        groups: vec![ResourceDescriptor::named("c-asg".to_string(), Status::Other, Some(1))],
        services: vec![ResourceDescriptor::named("arn/c/svc".to_string(), Status::Other, Some(0))],
        replication_groups: vec![ResourceDescriptor::named("c-redis".to_string(), Status::Available, None)],
        databases: vec![
            ResourceDescriptor::named("c-db1".to_string(), Status::Stopped, None),
            ResourceDescriptor::named("c-db2".to_string(), Status::Transitioning, None),
        ],
        load_balancers: vec![ResourceDescriptor::named("c-lb".to_string(), Status::Other, None)],
    };
    let found = EligibleSets::discover(&inventory, "c-");
    assert_eq!(found.groups, names(&["c-asg"]));
    assert!(found.services.is_empty());
    assert_eq!(found.replication_groups, names(&["c-redis"]));
    assert!(found.databases_to_stop.is_empty());
    assert_eq!(found.databases, names(&["c-db1"]));
    assert_eq!(found.load_balancers, names(&["c-lb"]));
}

#[test]
fn full_plan_order() {
    let plan = build_plan(&sets(), Directive { scale_down: false, delete: true });
    let expected = vec![
        (Mutation::ScaleDownGroup(0), "g1".to_string()),
        (Mutation::ScaleDownService(0), "s1".to_string()),
        (Mutation::ScaleDownService(0), "s2".to_string()),
        (Mutation::StopDatabase, "d1".to_string()),
        (Mutation::DeleteReplicationGroup, "r1".to_string()),
        (Mutation::DeleteService, "s1".to_string()),
        (Mutation::DeleteService, "s2".to_string()),
        (Mutation::DisableDeletionProtection, "d1".to_string()),
        (Mutation::DeleteDatabase, "d1".to_string()),
        (Mutation::DisableDeletionProtection, "d2".to_string()),
        (Mutation::DeleteDatabase, "d2".to_string()),
        (Mutation::DeleteLoadBalancer, "l1".to_string()),
    ];
    assert_eq!(shape(&plan), expected);
    let last_scale = plan.iter().rposition(|s| is_scale_down(s.mutation)).unwrap();
    let first_delete = plan.iter().position(|s| !is_scale_down(s.mutation)).unwrap();
    assert!(last_scale < first_delete);
}

#[test]
fn directives_select_phases() {
    assert!(build_plan(&sets(), Directive { scale_down: false, delete: false }).is_empty());
    let scale = build_plan(&sets(), Directive { scale_down: true, delete: false });
    assert_eq!(scale.len(), 4);
    assert!(scale.iter().all(|s| is_scale_down(s.mutation)));
    let both = build_plan(&sets(), Directive { scale_down: true, delete: true });
    assert_eq!(both.len(), 12);
}

#[test]
fn headings_open_each_kind() {
    let plan = build_plan(&sets(), Directive { scale_down: true, delete: false });
    let opens: Vec<bool> = (0..plan.len()).map(|i| opens_group_at(&plan, i)).collect();
    assert_eq!(opens, vec![true, true, false, true]);
}

#[test]
fn success_moves_on() {
    let plan = build_plan(&sets(), Directive { scale_down: true, delete: false });
    let (next, verdict) = advance(&plan, RetryPolicy::Unbounded, Progress { position: 1, failures: 2 }, CallResult::Succeeded);
    assert_eq!(verdict, Verdict::Succeeded);
    assert_eq!(next, Progress { position: 2, failures: 0 });
    assert_eq!(Progress::start(), Progress { position: 0, failures: 0 });
    assert_eq!(BACKOFF_SECONDS, 15);
}

#[test]
fn unbounded_policy_retries_the_same_call() {
    let plan = build_plan(&sets(), Directive { scale_down: true, delete: false });
    let (next, verdict) = advance(&plan, RetryPolicy::Unbounded, Progress::start(), CallResult::Failed);
    assert_eq!(verdict, Verdict::Retried);
    assert_eq!(next, Progress { position: 0, failures: 1 });
    let (held, verdict) = advance(&plan, RetryPolicy::Unbounded, Progress { position: 0, failures: u32::MAX }, CallResult::Failed);
    assert_eq!(verdict, Verdict::Retried);
    assert_eq!(held, Progress { position: 0, failures: u32::MAX });
}

#[test]
fn bounded_policy_gives_up() {
    let plan = build_plan(&sets(), Directive { scale_down: true, delete: false });
    let policy = RetryPolicy::AtMost(3);
    let (p1, v1) = advance(&plan, policy, Progress::start(), CallResult::Failed);
    assert_eq!((p1, v1), (Progress { position: 0, failures: 1 }, Verdict::Retried));
    let (p2, v2) = advance(&plan, policy, p1, CallResult::Failed);
    assert_eq!((p2, v2), (Progress { position: 0, failures: 2 }, Verdict::Retried));
    let (p3, v3) = advance(&plan, policy, p2, CallResult::Failed);
    assert_eq!((p3, v3), (Progress { position: 1, failures: 0 }, Verdict::Failed));
    let (p4, v4) = advance(&plan, RetryPolicy::AtMost(0), Progress::start(), CallResult::Failed);
    assert_eq!((p4, v4), (Progress { position: 1, failures: 0 }, Verdict::Failed));
}

#[test]
fn failed_protection_skips_delete() {
    let plan = build_plan(&sets(), Directive { scale_down: false, delete: true });
    assert_eq!(plan[9].mutation, Mutation::DisableDeletionProtection);
    let (next, verdict) = advance(&plan, RetryPolicy::AtMost(1), Progress { position: 9, failures: 0 }, CallResult::Failed);
    assert_eq!(verdict, Verdict::FailedSkippingDelete);
    assert_eq!(next, Progress { position: 11, failures: 0 });
    assert_eq!(plan[11].mutation, Mutation::DeleteLoadBalancer);
    let (retry, verdict) = advance(&plan, RetryPolicy::Unbounded, Progress { position: 9, failures: 0 }, CallResult::Failed);
    assert_eq!(verdict, Verdict::Retried);
    assert_eq!(retry.position, 9);
    let (ok, _) = advance(&plan, RetryPolicy::AtMost(1), Progress { position: 9, failures: 0 }, CallResult::Succeeded);
    assert_eq!(plan[ok.position].mutation, Mutation::DeleteDatabase);
}
