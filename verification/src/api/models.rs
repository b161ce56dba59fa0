//! The API's records and messages.

use vstd::prelude::*;

verus! {

/// A managed Docker host.
#[derive(Debug, Clone)]
pub struct Client {
    pub id: String,
    pub name: String,
    pub host: String,
    pub color: String,
    pub compose_file_path: Option<String>,
    pub agent_version: Option<String>,
    pub agent_update_mode: String,
    pub last_seen: Option<String>,
    pub connected: bool,
    pub created_at: String,
}

/// A host with the number of its containers that have an update available.
#[derive(Debug, Clone)]
pub struct ClientWithStats {
    pub id: String,
    pub name: String,
    pub host: String,
    pub color: String,
    pub compose_file_path: Option<String>,
    pub agent_version: Option<String>,
    pub agent_update_mode: String,
    pub last_seen: Option<String>,
    pub connected: bool,
    pub created_at: String,
    pub updates_available: i64,
}

/// A container on a managed host.
#[derive(Debug, Clone)]
pub struct Container {
    pub id: String,
    pub client_id: String,
    pub container_name: String,
    pub image: String,
    pub current_digest: Option<String>,
    pub latest_digest: Option<String>,
    pub update_available: bool,
    pub update_mode: String,
    pub status: String,
    pub checked_at: Option<String>,
    pub compose_service: Option<String>,
}

/// One container update and its output.
#[derive(Debug, Clone)]
pub struct UpdateJob {
    pub id: String,
    pub client_id: String,
    pub container_name: String,
    pub image: String,
    pub from_digest: Option<String>,
    pub to_digest: Option<String>,
    pub status: String,
    pub output: Option<String>,
    pub started_at: String,
    pub completed_at: Option<String>,
}

/// The request to onboard a new host over SSH.
#[derive(Debug, Clone)]
pub struct OnboardClientRequest {
    pub name: String,
    pub host: String,
    pub color: String,
    pub compose_file_path: Option<String>,
    pub ssh_user: String,
    pub ssh_password: String,
    pub agent_update_mode: String,
}

/// A command to an agent.
#[derive(Debug, Clone)]
pub enum ServerToAgent {
    CheckVersions,
    UpdateContainers { names: Vec<String> },
    UpdateAll,
    UpdateAgent,
}

/// A message from an agent.
#[derive(Debug, Clone)]
pub enum AgentToServer {
    ContainerList { containers: Vec<ContainerInfo> },
    VersionCheckResult {
        container: String,
        current_digest: String,
        latest_digest: String,
        update_available: bool,
    },
    JobOutput { job_id: String, chunk: String },
    JobComplete { job_id: String, success: bool },
    AgentInfo { version: String, arch: String },
}

/// An event for the web UI.
#[derive(Debug, Clone)]
pub enum ServerToUI {
    ClientConnected { client_id: String },
    ClientDisconnected { client_id: String },
    ContainerUpdate { client_id: String, container: Container },
    JobProgress { job_id: String, chunk: String },
    JobComplete { job_id: String, success: bool },
}

/// A container as an agent reports it.
#[derive(Debug, Clone)]
pub struct ContainerInfo {
    pub container_name: String,
    pub image: String,
    pub status: String,
    pub image_id: Option<String>,
    pub compose_service: Option<String>,
}

/// A copy of an optional string.
pub fn copy_opt(s: &Option<String>) -> (r: Option<String>)
    ensures
        r == *s,
{
    match s {
        Some(v) => Some(v.clone()),
        None => None,
    }
}

impl Client {
    /// A copy of the record, equal to it.
    pub fn copy(&self) -> (r: Client)
        ensures
            r == *self,
    {
        Client {
            id: self.id.clone(),
            name: self.name.clone(),
            host: self.host.clone(),
            color: self.color.clone(),
            compose_file_path: copy_opt(&self.compose_file_path),
            agent_version: copy_opt(&self.agent_version),
            agent_update_mode: self.agent_update_mode.clone(),
            last_seen: copy_opt(&self.last_seen),
            connected: self.connected,
            created_at: self.created_at.clone(),
        }
    }
}

impl Container {
    /// A copy of the record, equal to it.
    pub fn copy(&self) -> (r: Container)
        ensures
            r == *self,
    {
        Container {
            id: self.id.clone(),
            client_id: self.client_id.clone(),
            container_name: self.container_name.clone(),
            image: self.image.clone(),
            current_digest: copy_opt(&self.current_digest),
            latest_digest: copy_opt(&self.latest_digest),
            update_available: self.update_available,
            update_mode: self.update_mode.clone(),
            status: self.status.clone(),
            checked_at: copy_opt(&self.checked_at),
            compose_service: copy_opt(&self.compose_service),
        }
    }
}

} // verus!
