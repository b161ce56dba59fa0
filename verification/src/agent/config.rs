//! The agent's configuration, read from `/etc/dockup-agent/config.toml`.

use vstd::prelude::*;
use crate::text::owned;

verus! {

broadcast use vstd::string::group_string_axioms;

/// The agent's configuration.
#[derive(Debug, Clone)]
pub struct AgentConfig {
    pub server_url: String,
    pub client_id: String,
    pub jwt_token: String,
    pub compose_file_path: Option<String>,
    pub agent_update_mode: String,
}

/// Whether the agent updates itself on its own: its update mode is `auto`.
pub open spec fn spec_auto_update(config: AgentConfig) -> bool {
    config.agent_update_mode@ == "auto"@
}

impl AgentConfig {
    /// Whether the agent runs its daily self-update check.
    pub fn auto_update(&self) -> (r: bool)
        ensures
            r == spec_auto_update(*self),
    {
        self.agent_update_mode == owned("auto")
    }
}

} // verus!
