//! Decision logic of an operator that binds cloud Elastic IP addresses to
//! Kubernetes pods and nodes.
//!
//! The library never talks to the cluster or the cloud. Each reconciler is a
//! step function: from where a reconcile stands and what came of its last
//! action, to where it stands then and which action is next. Whoever runs
//! the library performs the actions and feeds the answers back
//! ([`protocol`]). What the steps do is stated over mathematical views of
//! the data, and proved.
//!
//! - Data: [`labels`], [`meta`], [`eip`], [`cluster`], [`cloud`], [`error`], [`names`].
//! - Rules: [`selector`], [`finalizer`], [`teardown`], [`requeue`].
//! - Reconcilers: [`pod_reconciler`], [`eip_reconciler`], [`sweeper`], [`migrate`].
//! - What holds of whole reconciles: [`world`].
//! - Helpers: [`text`], [`search`].

pub mod cloud;
pub mod cluster;
pub mod eip;
pub mod eip_reconciler;
pub mod error;
pub mod finalizer;
pub mod labels;
pub mod meta;
pub mod migrate;
pub mod names;
pub mod pod_reconciler;
pub mod protocol;
pub mod requeue;
pub mod search;
pub mod selector;
pub mod sweeper;
pub mod teardown;
pub mod text;
pub mod world;
