//! Decommissioning a named cluster of cloud resources: which resources belong
//! to it and are eligible for action, in what order they are scaled down and
//! deleted, and how failed calls are retried.

pub mod autoscaling;
pub mod ecs;
pub mod elasticache;
pub mod elbv2;
pub mod filter;
pub mod plan;
pub mod rds;
pub mod resource;
pub mod retry;
pub mod text;
