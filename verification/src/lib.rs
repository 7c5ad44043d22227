//! Reconciliation core of an operator that keeps Cloudflare Tunnels in step
//! with `ClusterTunnel` and `Ingress` resources of a cluster.
//!
//! The crate holds the decisions of the two reconcilers as functions from
//! plain values to plain values: the routing table and its invariants, the
//! projection of an `Ingress` into routes and DNS writes, the credential
//! resolver, and the plan of the objects a tunnel deploys. Talking to the
//! cluster and to the registry is left to the caller.

pub mod cloudflare;
pub mod controller;
pub mod error;

pub use crate::controller::clustertunnel::ClusterTunnel;
pub use crate::error::Error;
