//! Cluster deployment options for a container-based storage control plane:
//! the cluster label (`prefix.name`), the start/stop/list options and the
//! small pure computations that the deployment commands make on them.

pub mod cluster_label;
pub mod time_span;
pub mod options;
pub mod listing;
pub mod models;

use vstd::prelude::*;

verus! {

/// The control plane agents that are enabled when none are named.
pub fn default_agents() -> (agents: &'static str)
    ensures
        agents@ == "Core"@,
{
    "Core"
}

} // verus!
