//! Networking-reconciliation core of a managed-database operator.
//!
//! Given an instance's desired dedicated-networking configuration, this
//! library decides which cluster objects (one traffic-filtering policy and
//! one or two exposure services) must exist, builds their exact descriptors
//! (names, labels, annotations, ports, allow-lists), and sequences the
//! apply/delete steps so that one successful pass converges the cluster from
//! any prior state.  Remote calls themselves are made by the surrounding
//! gateway code; everything that decides and shapes is verified here.

pub mod action;
pub mod cidr;
pub mod config;
pub mod descriptors;
pub mod ingress_type;
pub mod laws;
pub mod naming;
pub mod orchestrator;
pub mod text;
