//! Verified decision logic of a two-way cloud drive synchroniser: path algebra,
//! three-way planning, action filtering, recovery classification, checkpoint
//! validation and cycle coordination.

pub mod action_filters;
pub mod action_flows;
pub mod backup_flow;
pub mod changes;
pub mod checkpoints;
pub mod cloud_scan;
pub mod cloud_tree;
pub mod content_checks;
pub mod conflict;
pub mod conflict_flow;
pub mod coordination;
pub mod cycle_flow;
pub mod cycle_policy;
pub mod decision_laws;
pub mod error;
pub mod execution_order;
pub mod failed_records;
pub mod guards;
pub mod hydration;
pub mod hydration_flow;
pub mod local_delete_flow;
pub mod model;
pub mod path_map;
pub mod path_recovery;
pub mod paths;
pub mod plan_pipeline;
pub mod planner;
pub mod properties;
pub mod reconcile;
pub mod remote_verification;
pub mod renames;
pub mod rescue;
pub mod settlement;
pub mod retain;
pub mod retry_policy;
pub mod scheduling;
pub mod text;
pub mod transfer;
pub mod transfer_actions;
pub mod transfer_exec;
