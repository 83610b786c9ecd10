//! Switching the active context and namespace of a Kubernetes client
//! configuration.
//!
//! The library holds the decisions: which labels are put before the user, what
//! a chosen line means, and which field of the document changes. Reading and
//! writing the file, running the prompt and asking the cluster are left to the
//! caller, who is told after each step what to do next.
//!
//! - `ui`: the labels of the candidates, their marks, and the reading of what
//!   the prompt reports.
//! - `kubernetes`: the namespaces that the cluster listed, as candidates.
//! - `step`: what the caller is asked to do between two steps.
//! - `handlers`: the document with all its fields, and the steps of the two
//!   actions on it.
//! - `config`: the same steps on the configuration as the Kubernetes client
//!   library lays it out, and the place of the file.
//! - `cli`: the action and its argument.
//! - `error`: the ways in which a run fails.

pub mod cli;
pub mod config;
pub mod error;
pub mod handlers;
pub mod kubernetes;
pub mod step;
pub mod ui;
