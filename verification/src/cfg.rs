//! The settings of the whole service.

use vstd::prelude::*;

verus! {

/// The settings of the listener and of the two sides it connects.
pub struct Config {
    pub server: crate::server::cfg::Config,
    pub ms_graph_api: crate::ms_graph_api::cfg::Config,
    pub jira: crate::jira_api::cfg::Config,
}

} // verus!
