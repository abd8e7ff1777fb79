//! Reconciliation core for a declarative managed-database resource.
//!
//! The crate has three parts: the data model of the user-authored desired
//! state and of the fully-resolved internal configuration (`config`), the
//! pure resolver that applies documented defaults to every optional field
//! (`resolver`), and the convergence engine that plans one reconcile pass
//! and turns the collaborator's outcome into a scheduling decision
//! (`engine`).

pub mod config;
pub mod engine;
pub mod resolver;
