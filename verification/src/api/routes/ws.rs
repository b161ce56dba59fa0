//! The server's side of the WebSocket links: the table of connected agents,
//! who may connect, and what each agent message is turned into.

use vstd::prelude::*;
use crate::api::models::{AgentToServer, Client, Container, ContainerInfo, ServerToAgent, ServerToUI};
use crate::api::routes::containers::{find_container, spec_find_container};
use crate::ids::{is_hyphenated_uuid, new_uuid};
use crate::table::KeyedTable;
use crate::text::owned;

verus! {

broadcast use vstd::string::group_string_axioms;

/// The query of an agent's connection request.
#[derive(Debug, Clone)]
pub struct AgentWsQuery {
    pub token: String,
}

// ---------------------------------------------------------------- connected agents

/// The connected agents by client id, each with the channel to its socket.
pub struct AgentTable<T> {
    agents: KeyedTable<T>,
}

impl<T> View for AgentTable<T> {
    type V = Map<Seq<char>, T>;

    closed spec fn view(&self) -> Self::V {
        self.agents@
    }
}

impl<T> AgentTable<T> {
    /// A table with no agent.
    pub fn new() -> (t: Self)
        ensures
            t@ == Map::<Seq<char>, T>::empty(),
    {
        AgentTable { agents: KeyedTable::new() }
    }

    /// The channel of the agent of `client_id`, if it is connected.
    pub fn get(&self, client_id: &str) -> (r: Option<&T>)
        ensures
            match r {
                Some(t) => self@.contains_key(client_id@) && self@[client_id@] == *t,
                None => !self@.contains_key(client_id@),
            },
    {
        self.agents.get(client_id)
    }

    /// Records the agent of `client_id` as connected through `tx`, replacing
    /// an earlier connection of the same client.
    pub fn register(&mut self, client_id: String, tx: T)
        ensures
            final(self)@ == old(self)@.insert(client_id@, tx),
    {
        self.agents.insert(client_id, tx);
    }

    /// Forgets the agent of `client_id`.
    pub fn unregister(&mut self, client_id: &str)
        ensures
            final(self)@ == old(self)@.remove(client_id@),
    {
        self.agents.remove(client_id);
    }

    /// The client ids of all connected agents, each once.
    pub fn ids(&self) -> (r: Vec<String>)
        ensures
            forall|k: Seq<char>| self@.contains_key(k) <==> exists|i: int| 0 <= i < r@.len() && #[trigger] r@[i]@ == k,
            forall|i: int, j: int| 0 <= i < r@.len() && 0 <= j < r@.len() && i != j ==> r@[i]@ != r@[j]@,
    {
        self.agents.keys()
    }
}

/// The table after a run of calls, each a client id with `Some(tx)` for
/// `register(id, tx)` or `None` for `unregister(id)`, on a table holding `m`:
/// the map that the calls' contracts give, one after another.
pub open spec fn table_after_calls<T>(m: Map<Seq<char>, T>, calls: Seq<(Seq<char>, Option<T>)>) -> Map<
    Seq<char>,
    T,
>
    decreases calls.len(),
{
    if calls.len() == 0 {
        m
    } else {
        let before = table_after_calls(m, calls.drop_last());
        let (id, call) = calls.last();
        match call {
            Some(tx) => before.insert(id, tx),
            None => before.remove(id),
        }
    }
}

/// The last of the calls that names `id`, if any does.
pub open spec fn last_call_for<T>(calls: Seq<(Seq<char>, Option<T>)>, id: Seq<char>) -> Option<Option<T>>
    decreases calls.len(),
{
    if calls.len() == 0 {
        None
    } else if calls.last().0 == id {
        Some(calls.last().1)
    } else {
        last_call_for(calls.drop_last(), id)
    }
}

/// After any run of `register` and `unregister` calls on a new table, an
/// agent is connected exactly when the last call naming its client id
/// registered it, and its channel is the one that call gave; the table
/// starts empty, and `ids` lists each connected client once.
pub proof fn law_connected_after_calls<T>(calls: Seq<(Seq<char>, Option<T>)>, id: Seq<char>)
    ensures
        table_after_calls(Map::<Seq<char>, T>::empty(), calls).contains_key(id) <==> (last_call_for(
            calls,
            id,
        ) matches Some(Some(_))),
        last_call_for(calls, id) matches Some(Some(tx)) ==> table_after_calls(
            Map::<Seq<char>, T>::empty(),
            calls,
        )[id] == tx,
    decreases calls.len(),
{
    if calls.len() > 0 {
        law_connected_after_calls(calls.drop_last(), id);
    }
}

/// A connection is kept only when the token is valid and issued to the
/// client id of the path.
pub fn accepts_agent(validated_subject: Result<String, String>, client_id: &str) -> (r: bool)
    ensures
        r == (validated_subject matches Ok(sub) && sub@ == client_id@),
{
    match validated_subject {
        Ok(sub) => sub == owned(client_id),
        Err(_) => false,
    }
}

// ---------------------------------------------------------------- agent messages

/// What an agent message asks of the store and the UI.
#[derive(Debug)]
pub enum AgentMessageWork {
    /// Upsert each listed container, then tell the UI of each.
    RecordContainers { containers: Vec<ContainerInfo> },
    /// Store a container's digests, then tell the UI of it.
    RecordDigest {
        container: String,
        current_digest: String,
        latest_digest: String,
        update_available: bool,
    },
    /// Append a chunk to a job's output and forward it to the UI.
    AppendJobOutput { job_id: String, chunk: String, event: ServerToUI },
    /// Close a job with `status` and tell the UI.
    FinishJob { job_id: String, status: String, event: ServerToUI },
    /// Store the agent's version.
    RecordAgentVersion { version: String },
}

/// A container list is recorded as sent: the work holds the message's
/// containers, all of them, in order and unchanged, whatever their status.
pub proof fn law_container_list_recorded_whole(containers: Vec<ContainerInfo>, work: AgentMessageWork)
    requires
        spec_work(AgentToServer::ContainerList { containers }, work),
    ensures
        work matches AgentMessageWork::RecordContainers { containers: recorded } && recorded@
            == containers@,
{
}

/// The status a finished job is stored with.
pub open spec fn spec_job_status(success: bool) -> Seq<char> {
    if success {
        "success"@
    } else {
        "failed"@
    }
}

/// What each agent message is turned into.
pub open spec fn spec_work(msg: AgentToServer, work: AgentMessageWork) -> bool {
    match msg {
        AgentToServer::ContainerList { containers } => work == AgentMessageWork::RecordContainers {
            containers,
        },
        AgentToServer::VersionCheckResult { container, current_digest, latest_digest, update_available } => work
            == AgentMessageWork::RecordDigest { container, current_digest, latest_digest, update_available },
        AgentToServer::JobOutput { job_id, chunk } => work == AgentMessageWork::AppendJobOutput {
            job_id,
            chunk,
            event: ServerToUI::JobProgress { job_id, chunk },
        },
        AgentToServer::JobComplete { job_id, success } => work matches AgentMessageWork::FinishJob {
            job_id: j,
            status,
            event,
        } && j == job_id && status@ == spec_job_status(success) && event == ServerToUI::JobComplete {
            job_id,
            success,
        },
        AgentToServer::AgentInfo { version, arch: _ } => work == AgentMessageWork::RecordAgentVersion {
            version,
        },
    }
}

/// Decides what an agent message asks for.
pub fn agent_message_work(msg: AgentToServer) -> (r: AgentMessageWork)
    ensures
        spec_work(msg, r),
{
    match msg {
        AgentToServer::ContainerList { containers } => AgentMessageWork::RecordContainers { containers },
        AgentToServer::VersionCheckResult { container, current_digest, latest_digest, update_available } => {
            AgentMessageWork::RecordDigest { container, current_digest, latest_digest, update_available }
        },
        AgentToServer::JobOutput { job_id, chunk } => {
            let event = ServerToUI::JobProgress { job_id: job_id.clone(), chunk: chunk.clone() };
            AgentMessageWork::AppendJobOutput { job_id, chunk, event }
        },
        AgentToServer::JobComplete { job_id, success } => {
            let status = if success {
                owned("success")
            } else {
                owned("failed")
            };
            let event = ServerToUI::JobComplete { job_id: job_id.clone(), success };
            AgentMessageWork::FinishJob { job_id, status, event }
        },
        AgentToServer::AgentInfo { version, arch: _ } => AgentMessageWork::RecordAgentVersion {
            version,
        },
    }
}

/// A finished job is stored as `success` exactly when its agent reported
/// success, and as `failed` otherwise; the UI hears the same outcome.
pub proof fn law_job_outcome_recorded(job_id: String, success: bool, work: AgentMessageWork)
    requires
        spec_work(AgentToServer::JobComplete { job_id, success }, work),
    ensures
        finishes_job(work, job_id, success),
{
    reveal_strlit("success");
    reveal_strlit("failed");
    assert("success"@.len() != "failed"@.len());
    if let AgentMessageWork::FinishJob { job_id: j, status, event } = work {
        assert(status@ == spec_job_status(success));
    }
}

/// The work closes job `job_id` with the status of `success` and tells the UI
/// the same outcome.
pub open spec fn finishes_job(work: AgentMessageWork, job_id: String, success: bool) -> bool {
    &&& work matches AgentMessageWork::FinishJob { job_id: j, status, event }
    &&& j == job_id
    &&& (status@ == "success"@) == success
    &&& (status@ == "failed"@) == !success
    &&& event == (ServerToUI::JobComplete { job_id, success })
}

/// The update mode that newly listed containers get: the client's agent
/// update mode, or `manual` when the client cannot be read.
pub fn default_update_mode(found: &Result<Option<Client>, String>) -> (r: String)
    ensures
        match found {
            Ok(Some(c)) => r@ == c.agent_update_mode@,
            _ => r@ == "manual"@,
        },
{
    match found {
        Ok(Some(c)) => c.agent_update_mode.clone(),
        _ => owned("manual"),
    }
}

/// The record upserted for a listed container: a fresh id, no digests, no
/// update, not yet checked, the given update mode (kept by the store only
/// for containers it did not know).
pub fn container_record(client_id: &str, info: &ContainerInfo, update_mode: &str) -> (c: Container)
    ensures
        is_hyphenated_uuid(c.id@),
        c.client_id@ == client_id@,
        c.container_name@ == info.container_name@,
        c.image@ == info.image@,
        c.current_digest is None,
        c.latest_digest is None,
        !c.update_available,
        c.update_mode@ == update_mode@,
        c.status@ == info.status@,
        c.checked_at is None,
        c.compose_service is None,
{
    Container {
        id: new_uuid(),
        client_id: owned(client_id),
        container_name: info.container_name.clone(),
        image: info.image.clone(),
        current_digest: None,
        latest_digest: None,
        update_available: false,
        update_mode: owned(update_mode),
        status: info.status.clone(),
        checked_at: None,
        compose_service: None,
    }
}

/// The UI event for container `name` of client `client_id` read back from
/// the store: its first record of that name, or no event when there is none.
pub fn container_update_event(client_id: &str, containers: Vec<Container>, name: &str) -> (r: Option<
    ServerToUI,
>)
    ensures
        match spec_find_container(containers@, name@) {
            Some(c) => r matches Some(ServerToUI::ContainerUpdate { client_id: id, container })
                && id@ == client_id@ && container == c,
            None => r is None,
        },
{
    match find_container(containers, name) {
        Some(c) => Some(ServerToUI::ContainerUpdate { client_id: owned(client_id), container: c }),
        None => None,
    }
}

/// What a new agent connection announces: the UI hears that the client is
/// connected, and the agent is asked to check its images at once.
pub fn agent_connected(client_id: &str) -> (r: (ServerToUI, ServerToAgent))
    ensures
        r.0 matches ServerToUI::ClientConnected { client_id: id } && id@ == client_id@,
        r.1 == ServerToAgent::CheckVersions,
{
    (ServerToUI::ClientConnected { client_id: owned(client_id) }, ServerToAgent::CheckVersions)
}

/// What a closed agent connection announces to the UI.
pub fn agent_disconnected(client_id: &str) -> (r: ServerToUI)
    ensures
        r matches ServerToUI::ClientDisconnected { client_id: id } && id@ == client_id@,
{
    ServerToUI::ClientDisconnected { client_id: owned(client_id) }
}

/// What the table says after a connection and a disconnection: an agent is
/// reachable from its registration until it unregisters, and others are
/// unaffected.
pub proof fn law_registration<T>(table: Map<Seq<char>, T>, id: Seq<char>, tx: T, other: Seq<char>)
    requires
        other != id,
    ensures
        table.insert(id, tx).contains_key(id),
        table.insert(id, tx)[id] == tx,
        !table.insert(id, tx).remove(id).contains_key(id),
        table.insert(id, tx).contains_key(other) == table.contains_key(other),
        table.remove(id).contains_key(other) == table.contains_key(other),
{
}

} // verus!
