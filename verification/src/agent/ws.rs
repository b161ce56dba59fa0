//! The agent's side of the WebSocket link to the server: the messages, the
//! connection URL and reconnect backoff, and what each server command turns
//! into.

use vstd::prelude::*;
use crate::agent::config::AgentConfig;
use crate::agent::docker;
use crate::agent::registry::VersionCheckResult;
use crate::ids::{is_hyphenated_uuid, new_uuid};
use crate::text::{owned, trim_end_char, trim_end_matches_char};

verus! {

broadcast use vstd::string::group_string_axioms;

/// A command from the server.
#[derive(Debug, Clone)]
pub enum ServerToAgent {
    CheckVersions,
    UpdateContainers { names: Vec<String> },
    UpdateAll,
    UpdateAgent,
}

/// A message to the server.
#[derive(Debug, Clone)]
pub enum AgentToServer {
    ContainerList { containers: Vec<ContainerInfo> },
    VersionCheckResult {
        container: String,
        current_digest: String,
        latest_digest: String,
        update_available: bool,
    },
    JobOutput { job_id: String, chunk: String },
    JobComplete { job_id: String, success: bool },
    AgentInfo { version: String, arch: String },
}

/// A container as sent to the server.
#[derive(Debug, Clone)]
pub struct ContainerInfo {
    pub container_name: String,
    pub image: String,
    pub status: String,
}

// ---------------------------------------------------------------- connection

/// The agent's WebSocket endpoint: the server URL without trailing slashes,
/// `/api/ws/agent/`, the client id, and the token as query parameter.
pub open spec fn spec_agent_ws_url(server_url: Seq<char>, client_id: Seq<char>, token: Seq<char>) -> Seq<char> {
    trim_end_char(server_url, '/') + "/api/ws/agent/"@ + client_id + "?token="@ + token
}

/// The URL the agent connects to.
pub fn agent_ws_url(config: &AgentConfig) -> (r: String)
    ensures
        r@ == spec_agent_ws_url(config.server_url@, config.client_id@, config.jwt_token@),
{
    let mut url = trim_end_matches_char(config.server_url.as_str(), '/');
    url.append("/api/ws/agent/");
    url.append(config.client_id.as_str());
    url.append("?token=");
    url.append(config.jwt_token.as_str());
    url
}

/// The wait before the first reconnect, and after every successful
/// connection, in seconds.
pub const INITIAL_BACKOFF_SECS: u64 = 1;

/// The longest wait between reconnects, in seconds.
pub const MAX_BACKOFF_SECS: u64 = 60;

/// The wait after one of `backoff_secs`: doubled, at most a minute.
pub open spec fn spec_next_backoff(backoff_secs: int) -> int {
    if 2 * backoff_secs < 60 {
        2 * backoff_secs
    } else {
        60
    }
}

/// The next reconnect wait.
pub fn next_backoff(backoff_secs: u64) -> (r: u64)
    requires
        backoff_secs <= u64::MAX / 2,
    ensures
        r == spec_next_backoff(backoff_secs as int),
{
    let doubled = backoff_secs * 2;
    if doubled < MAX_BACKOFF_SECS {
        doubled
    } else {
        MAX_BACKOFF_SECS
    }
}

/// Reconnect waits stay between one second and a minute, never shrink until
/// the cap, and reach the cap.
pub proof fn law_backoff_bounded(backoff_secs: int)
    requires
        1 <= backoff_secs <= 60,
    ensures
        1 <= spec_next_backoff(backoff_secs) <= 60,
        spec_next_backoff(backoff_secs) >= backoff_secs,
        backoff_secs < 60 ==> spec_next_backoff(backoff_secs) > backoff_secs,
        backoff_secs >= 30 ==> spec_next_backoff(backoff_secs) == 60,
{
}

/// The wait after an attempt that had `backoff_secs` ahead of it: a
/// successful connection resets the wait to its initial second first.
pub open spec fn spec_attempt_wait(backoff_secs: int, connected: bool) -> int {
    if connected {
        INITIAL_BACKOFF_SECS as int
    } else {
        backoff_secs
    }
}

/// The wait ahead of the next attempt, after attempts with these outcomes
/// (`true` for a connection that was made), starting from one second.
pub open spec fn spec_backoff_after(outcomes: Seq<bool>) -> int
    decreases outcomes.len(),
{
    if outcomes.len() == 0 {
        INITIAL_BACKOFF_SECS as int
    } else {
        spec_next_backoff(
            spec_attempt_wait(spec_backoff_after(outcomes.drop_last()), outcomes.last()),
        )
    }
}

/// The wait that follows the last of these attempts.
pub open spec fn spec_wait_of(outcomes: Seq<bool>) -> int
    recommends
        outcomes.len() > 0,
{
    spec_attempt_wait(spec_backoff_after(outcomes.drop_last()), outcomes.last())
}

/// How many attempts the last one lies past the latest reset of the wait:
/// the first attempt and every connection reset it.
pub open spec fn attempts_since_reset(outcomes: Seq<bool>) -> nat
    decreases outcomes.len(),
{
    if outcomes.len() <= 1 || outcomes.last() {
        0
    } else {
        1 + attempts_since_reset(outcomes.drop_last())
    }
}

/// Two to the power `n`.
pub open spec fn two_to(n: nat) -> nat
    decreases n,
{
    if n == 0 {
        1
    } else {
        2 * two_to((n - 1) as nat)
    }
}

/// `n`, but at most a minute.
pub open spec fn at_most_a_minute(n: nat) -> int {
    if n < 60 {
        n as int
    } else {
        60
    }
}

proof fn lemma_two_to_positive(n: nat)
    ensures
        two_to(n) >= 1,
    decreases n,
{
    if n > 0 {
        lemma_two_to_positive((n - 1) as nat);
    }
}

/// The wait ahead of the next attempt doubles from one second with each
/// attempt since the latest reset, up to a minute.
proof fn lemma_backoff_after(outcomes: Seq<bool>)
    requires
        outcomes.len() > 0,
    ensures
        spec_backoff_after(outcomes) == at_most_a_minute(
            two_to(attempts_since_reset(outcomes) + 1),
        ),
        spec_wait_of(outcomes) == at_most_a_minute(two_to(attempts_since_reset(outcomes))),
    decreases outcomes.len(),
{
    let d = attempts_since_reset(outcomes);
    lemma_two_to_positive(d);
    assert(two_to(d + 1) == 2 * two_to(d));
    if outcomes.len() > 1 && !outcomes.last() {
        lemma_backoff_after(outcomes.drop_last());
        assert(d == 1 + attempts_since_reset(outcomes.drop_last()));
    } else if outcomes.len() == 1 {
        assert(outcomes.drop_last().len() == 0);
    }
    assert(spec_wait_of(outcomes) == at_most_a_minute(two_to(d)));
    assert(spec_backoff_after(outcomes) == spec_next_backoff(spec_wait_of(outcomes)));
}

/// The reconnect waits of the agent, whatever the attempts' outcomes: the
/// wait after an attempt is two to the power of the attempts since the
/// latest reset (the first attempt or the latest connection), capped at a
/// minute, so the waits run 1, 2, 4, 8, 16, 32, 60, 60, ... seconds and
/// start again at 1 after each connection; every wait lies between one
/// second and a minute.
pub proof fn law_reconnect_waits(outcomes: Seq<bool>)
    requires
        outcomes.len() > 0,
    ensures
        spec_wait_of(outcomes) == at_most_a_minute(two_to(attempts_since_reset(outcomes))),
        outcomes.last() ==> spec_wait_of(outcomes) == 1,
        1 <= spec_wait_of(outcomes) <= 60,
{
    lemma_backoff_after(outcomes);
    lemma_two_to_positive(attempts_since_reset(outcomes));
}

/// The reconnect wait of the agent's connection loop.
pub struct Reconnect {
    backoff_secs: u64,
}

impl Reconnect {
    #[verifier::type_invariant]
    spec fn within_bounds(self) -> bool {
        1 <= self.backoff_secs <= 60
    }

    /// The wait ahead of the next attempt, in seconds.
    pub closed spec fn backoff(self) -> int {
        self.backoff_secs as int
    }

    /// Before the first attempt the wait is one second.
    pub fn new() -> (r: Self)
        ensures
            r.backoff() == spec_backoff_after(Seq::empty()),
    {
        Reconnect { backoff_secs: INITIAL_BACKOFF_SECS }
    }

    /// The wait after an attempt, given whether it connected; the wait ahead
    /// of the next attempt is then that one doubled, up to a minute.
    pub fn wait_after(&mut self, connected: bool) -> (wait: u64)
        ensures
            wait == spec_attempt_wait(old(self).backoff(), connected),
            final(self).backoff() == spec_next_backoff(wait as int),
            1 <= wait <= 60,
    {
        proof {
            use_type_invariant(&*self);
        }
        let wait = if connected {
            INITIAL_BACKOFF_SECS
        } else {
            self.backoff_secs
        };
        self.backoff_secs = next_backoff(wait);
        wait
    }
}

/// A `Reconnect` that saw attempts with these outcomes holds the wait that
/// the outcomes give.
pub proof fn law_reconnect_follows_outcomes(r: Reconnect, outcomes: Seq<bool>, connected: bool)
    requires
        r.backoff() == spec_backoff_after(outcomes),
    ensures
        spec_attempt_wait(r.backoff(), connected) == spec_wait_of(outcomes.push(connected)),
        spec_next_backoff(spec_attempt_wait(r.backoff(), connected)) == spec_backoff_after(
            outcomes.push(connected),
        ),
{
    assert(outcomes.push(connected).drop_last() =~= outcomes);
}

/// A WebSocket frame as the agent's receive loop sees it.
#[derive(Debug)]
pub enum Frame {
    Text(String),
    Ping,
    Close,
    Other,
    Error(String),
}

/// What the receive loop does with a frame.
#[derive(Debug, Clone, Copy, PartialEq, Eq, Structural)]
pub enum FrameAction {
    /// Read the text as a server command.
    Dispatch,
    /// Nothing to do; wait for the next frame.
    Ignore,
    /// Leave the loop: the server closed the link or it failed.
    Disconnect,
}

/// Text frames carry commands; close frames and receive errors end the
/// connection; pings and other frames are ignored.
pub open spec fn spec_frame_action(frame: Frame) -> FrameAction {
    match frame {
        Frame::Text(_) => FrameAction::Dispatch,
        Frame::Close => FrameAction::Disconnect,
        Frame::Error(_) => FrameAction::Disconnect,
        _ => FrameAction::Ignore,
    }
}

/// Decides what the receive loop does with a frame.
pub fn frame_action(frame: &Frame) -> (r: FrameAction)
    ensures
        r == spec_frame_action(*frame),
{
    match frame {
        Frame::Text(_) => FrameAction::Dispatch,
        Frame::Close => FrameAction::Disconnect,
        Frame::Error(_) => FrameAction::Disconnect,
        _ => FrameAction::Ignore,
    }
}

// ---------------------------------------------------------------- messages

/// The message that introduces the agent after it connects.
pub fn agent_info_message(version: &str, arch: &str) -> (r: AgentToServer)
    ensures
        r matches AgentToServer::AgentInfo { version: v, arch: a } && v@ == version@ && a@ == arch@,
{
    AgentToServer::AgentInfo { version: owned(version), arch: owned(arch) }
}

/// The container as sent to the server: the same name, image and status.
pub open spec fn same_container(sent: ContainerInfo, listed: docker::ContainerInfo) -> bool {
    sent.container_name@ == listed.container_name@ && sent.image@ == listed.image@ && sent.status@
        == listed.status@
}

/// The message that lists the host's containers.
pub fn container_list_message(listed: Vec<docker::ContainerInfo>) -> (r: AgentToServer)
    ensures
        r matches AgentToServer::ContainerList { containers } && containers@.len() == listed@.len()
            && forall|i: int| 0 <= i < listed@.len() ==> same_container(#[trigger] containers@[i], listed@[i]),
{
    let mut containers: Vec<ContainerInfo> = Vec::new();
    let mut i: usize = 0;
    while i < listed.len()
        invariant
            i <= listed@.len(),
            containers@.len() == i,
            forall|j: int| 0 <= j < i ==> same_container(#[trigger] containers@[j], listed@[j]),
        decreases listed@.len() - i,
    {
        let c = &listed[i];
        containers.push(
            ContainerInfo {
                container_name: c.container_name.clone(),
                image: c.image.clone(),
                status: c.status.clone(),
            },
        );
        i = i + 1;
    }
    AgentToServer::ContainerList { containers }
}

/// The report of a version check of container `container`. The agent does not
/// know the digest its containers run, so the current digest is empty.
pub fn version_check_message(container: &str, check: VersionCheckResult) -> (r: AgentToServer)
    ensures
        r matches AgentToServer::VersionCheckResult {
            container: c,
            current_digest: cur,
            latest_digest: l,
            update_available: u,
        } && c@ == container@ && cur@ == Seq::<char>::empty() && l@ == check.latest_digest@ && u
            == check.update_available,
{
    AgentToServer::VersionCheckResult {
        container: owned(container),
        current_digest: String::new(),
        latest_digest: check.latest_digest,
        update_available: check.update_available,
    }
}

/// A chunk of output of update job `job_id`.
pub fn job_output_message(job_id: &str, chunk: String) -> (r: AgentToServer)
    ensures
        r matches AgentToServer::JobOutput { job_id: j, chunk: c } && j@ == job_id@ && c == chunk,
{
    AgentToServer::JobOutput { job_id: owned(job_id), chunk }
}

/// The end of update job `job_id`.
pub fn job_complete_message(job_id: &str, success: bool) -> (r: AgentToServer)
    ensures
        r matches AgentToServer::JobComplete { job_id: j, success: s } && j@ == job_id@ && s
            == success,
{
    AgentToServer::JobComplete { job_id: owned(job_id), success }
}

/// A fresh identifier for an update job run on this host.
pub fn new_job_id() -> (id: String)
    ensures
        is_hyphenated_uuid(id@),
{
    new_uuid()
}

// ---------------------------------------------------------------- server commands

/// Which containers a command reads from Docker.
#[derive(Debug, Clone, Copy, PartialEq, Eq, Structural)]
pub enum Listing {
    /// The running containers only.
    Running,
    /// All containers, stopped ones included.
    All,
}

/// What the agent does for a server command.
#[derive(Debug)]
pub enum ServerPlan {
    /// Check the image of each running container against its registry and
    /// report each check that succeeds.
    CheckVersions,
    /// Update the containers with these names, looked up among all containers.
    UpdateNamed { names: Vec<String> },
    /// Update every running container.
    UpdateRunning,
    /// Install a newer agent release, when there is one.
    UpdateAgent,
}

/// The plan for each server command.
pub open spec fn spec_server_plan(msg: ServerToAgent, plan: ServerPlan) -> bool {
    match msg {
        ServerToAgent::CheckVersions => plan is CheckVersions,
        ServerToAgent::UpdateContainers { names } => plan == (ServerPlan::UpdateNamed { names }),
        ServerToAgent::UpdateAll => plan is UpdateRunning,
        ServerToAgent::UpdateAgent => plan is UpdateAgent,
    }
}

/// What the agent does for a server command.
pub fn server_message_plan(msg: ServerToAgent) -> (r: ServerPlan)
    ensures
        spec_server_plan(msg, r),
{
    match msg {
        ServerToAgent::CheckVersions => ServerPlan::CheckVersions,
        ServerToAgent::UpdateContainers { names } => ServerPlan::UpdateNamed { names },
        ServerToAgent::UpdateAll => ServerPlan::UpdateRunning,
        ServerToAgent::UpdateAgent => ServerPlan::UpdateAgent,
    }
}

/// The listing a plan reads first: running containers for a version check
/// and for updating all, every container for updating by name, none for an
/// agent update.
pub open spec fn spec_listing(plan: ServerPlan) -> Option<Listing> {
    match plan {
        ServerPlan::CheckVersions => Some(Listing::Running),
        ServerPlan::UpdateNamed { .. } => Some(Listing::All),
        ServerPlan::UpdateRunning => Some(Listing::Running),
        ServerPlan::UpdateAgent => None,
    }
}

impl ServerPlan {
    /// The listing this plan reads first.
    pub fn listing(&self) -> (r: Option<Listing>)
        ensures
            r == spec_listing(*self),
    {
        match self {
            ServerPlan::CheckVersions => Some(Listing::Running),
            ServerPlan::UpdateNamed { .. } => Some(Listing::All),
            ServerPlan::UpdateRunning => Some(Listing::Running),
            ServerPlan::UpdateAgent => None,
        }
    }
}

/// The report of one container's version check: the check's result when it
/// succeeded; nothing is reported when it failed.
pub fn version_report(container: &str, check: Result<VersionCheckResult, String>) -> (r: Option<AgentToServer>)
    ensures
        match check {
            Ok(c) => r matches Some(AgentToServer::VersionCheckResult {
                container: n,
                current_digest: cur,
                latest_digest: l,
                update_available: u,
            }) && n@ == container@ && cur@ == Seq::<char>::empty() && l@ == c.latest_digest@ && u
                == c.update_available,
            Err(_) => r is None,
        },
{
    match check {
        Ok(c) => Some(version_check_message(container, c)),
        Err(_) => None,
    }
}

// ---------------------------------------------------------------- update targets

/// A container to update and the image it runs.
#[derive(Debug, Clone)]
pub struct UpdateTarget {
    pub name: String,
    pub image: String,
}

/// The image of the first listed container named `name`, or the empty text.
pub open spec fn spec_image_of(containers: Seq<docker::ContainerInfo>, name: Seq<char>) -> Seq<char>
    decreases containers.len(),
{
    if containers.len() == 0 {
        Seq::empty()
    } else if containers[0].container_name@ == name {
        containers[0].image@
    } else {
        spec_image_of(containers.drop_first(), name)
    }
}

/// Looks up the image of container `name` among the listed containers.
pub fn image_of(containers: &Vec<docker::ContainerInfo>, name: &str) -> (r: String)
    ensures
        r@ == spec_image_of(containers@, name@),
{
    let key = owned(name);
    let mut i: usize = 0;
    assert(containers@.skip(0) =~= containers@);
    while i < containers.len()
        invariant
            key@ == name@,
            i <= containers@.len(),
            spec_image_of(containers@.skip(i as int), name@) == spec_image_of(containers@, name@),
        decreases containers@.len() - i,
    {
        assert(containers@.skip(i as int)[0] == containers@[i as int]);
        assert(containers@.skip(i as int).drop_first() =~= containers@.skip(i + 1));
        if containers[i].container_name == key {
            return containers[i].image.clone();
        }
        i = i + 1;
    }
    String::new()
}

/// For `UpdateContainers`: each requested name, in order, with the image of
/// the listed container of that name (empty when none is listed).
pub fn targets_for_names(names: &Vec<String>, containers: &Vec<docker::ContainerInfo>) -> (r: Vec<
    UpdateTarget,
>)
    ensures
        r@.len() == names@.len(),
        forall|i: int|
            0 <= i < names@.len() ==> #[trigger] r@[i].name@ == names@[i]@ && r@[i].image@
                == spec_image_of(containers@, names@[i]@),
{
    let mut r: Vec<UpdateTarget> = Vec::new();
    let mut i: usize = 0;
    while i < names.len()
        invariant
            i <= names@.len(),
            r@.len() == i,
            forall|j: int|
                0 <= j < i ==> #[trigger] r@[j].name@ == names@[j]@ && r@[j].image@ == spec_image_of(
                    containers@,
                    names@[j]@,
                ),
        decreases names@.len() - i,
    {
        let image = image_of(containers, names[i].as_str());
        r.push(UpdateTarget { name: names[i].clone(), image });
        i = i + 1;
    }
    r
}

/// For `UpdateAll`: every running container with its image, in order.
pub fn targets_for_all(running: &Vec<docker::ContainerInfo>) -> (r: Vec<UpdateTarget>)
    ensures
        r@.len() == running@.len(),
        forall|i: int|
            0 <= i < running@.len() ==> #[trigger] r@[i].name@ == running@[i].container_name@
                && r@[i].image@ == running@[i].image@,
{
    let mut r: Vec<UpdateTarget> = Vec::new();
    let mut i: usize = 0;
    while i < running.len()
        invariant
            i <= running@.len(),
            r@.len() == i,
            forall|j: int|
                0 <= j < i ==> #[trigger] r@[j].name@ == running@[j].container_name@ && r@[j].image@
                    == running@[j].image@,
        decreases running@.len() - i,
    {
        r.push(
            UpdateTarget {
                name: running[i].container_name.clone(),
                image: running[i].image.clone(),
            },
        );
        i = i + 1;
    }
    r
}

/// A name that no listed container carries gets the empty image; one that is
/// listed gets the image of its first listing.
pub proof fn law_image_of_listed(containers: Seq<docker::ContainerInfo>, name: Seq<char>, k: int)
    requires
        0 <= k < containers.len(),
        containers[k].container_name@ == name,
        forall|j: int| 0 <= j < k ==> containers[j].container_name@ != name,
    ensures
        spec_image_of(containers, name) == containers[k].image@,
    decreases k,
{
    if k > 0 {
        let rest = containers.drop_first();
        assert forall|j: int| 0 <= j < k - 1 implies rest[j].container_name@ != name by {
            assert(rest[j] == containers[j + 1]);
        }
        law_image_of_listed(rest, name, k - 1);
    }
}

} // verus!
