use dockup::api::models::{ServerToAgent, AgentToServer, Client, Container, ContainerInfo, ServerToUI};
use dockup::api::routes::ws::{
    accepts_agent, agent_connected, agent_disconnected, agent_message_work, container_record, container_update_event,
    default_update_mode, AgentMessageWork, AgentTable,
};

fn client(mode: &str) -> Client {
    Client {
        id: "c1".to_string(),
        name: "n".to_string(),
        host: "h".to_string(),
        color: "c".to_string(),
        compose_file_path: None,
        agent_version: None,
        agent_update_mode: mode.to_string(),
        last_seen: None,
        connected: true,
        created_at: "t".to_string(),
    }
}

fn info(name: &str) -> ContainerInfo {
    ContainerInfo {
        container_name: name.to_string(),
        image: "img:1".to_string(),
        status: "running".to_string(),
        image_id: None,
        compose_service: None,
    }
}

#[test]
fn agent_table_registers_and_forgets() {
    let mut t: AgentTable<u32> = AgentTable::new();
    assert!(t.get("a").is_none());
    t.register("a".to_string(), 1);
    t.register("b".to_string(), 2);
    assert_eq!(t.get("a"), Some(&1));
    t.register("a".to_string(), 3);
    assert_eq!(t.get("a"), Some(&3));
    let mut ids = t.ids();
    ids.sort();
    assert_eq!(ids, vec!["a".to_string(), "b".to_string()]);
    t.unregister("a");
    assert!(t.get("a").is_none());
    assert_eq!(t.get("b"), Some(&2));
    t.unregister("zz");
    assert_eq!(t.ids(), vec!["b".to_string()]);
}

#[test]
fn connected_ids_follow_the_last_call_per_client() {
    let mut t: AgentTable<u32> = AgentTable::new();
    assert!(t.ids().is_empty());
    t.register("a".to_string(), 1);
    t.register("b".to_string(), 2);
    t.unregister("a");
    t.register("c".to_string(), 3);
    t.register("a".to_string(), 4);
    t.unregister("b");
    t.register("b".to_string(), 5);
    t.unregister("c");
    t.register("b".to_string(), 6);
    let mut ids = t.ids();
    ids.sort();
    assert_eq!(ids, vec!["a".to_string(), "b".to_string()]);
    assert_eq!(t.get("a"), Some(&4));
    assert_eq!(t.get("b"), Some(&6));
    assert!(t.get("c").is_none());
}

#[test]
fn only_matching_tokens_are_accepted() {
    assert!(accepts_agent(Ok("c1".to_string()), "c1"));
    assert!(!accepts_agent(Ok("c2".to_string()), "c1"));
    assert!(!accepts_agent(Err("expired".to_string()), "c1"));
}

#[test]
fn agent_messages_become_store_work() {
    match agent_message_work(AgentToServer::JobComplete { job_id: "j".to_string(), success: true }) {
        AgentMessageWork::FinishJob { job_id, status, event: ServerToUI::JobComplete { job_id: e, success } } => {
            assert_eq!((job_id.as_str(), status.as_str(), e.as_str(), success), ("j", "success", "j", true));
        }
        other => panic!("unexpected {:?}", other),
    }
    match agent_message_work(AgentToServer::JobComplete { job_id: "j".to_string(), success: false }) {
        AgentMessageWork::FinishJob { status, .. } => assert_eq!(status, "failed"),
        other => panic!("unexpected {:?}", other),
    }
    match agent_message_work(AgentToServer::JobOutput { job_id: "j".to_string(), chunk: "line\n".to_string() }) {
        AgentMessageWork::AppendJobOutput { job_id, chunk, event: ServerToUI::JobProgress { job_id: e, chunk: c } } => {
            assert_eq!((job_id, chunk), ("j".to_string(), "line\n".to_string()));
            assert_eq!((e, c), ("j".to_string(), "line\n".to_string()));
        }
        other => panic!("unexpected {:?}", other),
    }
    match agent_message_work(AgentToServer::AgentInfo { version: "0.2.0".to_string(), arch: "x86_64".to_string() }) {
        AgentMessageWork::RecordAgentVersion { version } => assert_eq!(version, "0.2.0"),
        other => panic!("unexpected {:?}", other),
    }
    match agent_message_work(AgentToServer::VersionCheckResult {
        container: "web".to_string(),
        current_digest: String::new(),
        latest_digest: "sha256:l".to_string(),
        update_available: false,
    }) {
        AgentMessageWork::RecordDigest { container, latest_digest, update_available, .. } => {
            assert_eq!((container.as_str(), latest_digest.as_str(), update_available), ("web", "sha256:l", false));
        }
        other => panic!("unexpected {:?}", other),
    }
    match agent_message_work(AgentToServer::ContainerList { containers: vec![info("a"), info("b")] }) {
        AgentMessageWork::RecordContainers { containers } => assert_eq!(containers.len(), 2),
        other => panic!("unexpected {:?}", other),
    }
}

#[test]
fn new_containers_take_the_client_update_mode() {
    assert_eq!(default_update_mode(&Ok(Some(client("auto")))), "auto");
    assert_eq!(default_update_mode(&Ok(None)), "manual");
    assert_eq!(default_update_mode(&Err("e".to_string())), "manual");
    let c: Container = container_record("c1", &info("web"), "auto");
    assert_eq!(c.id.len(), 36);
    assert_eq!(c.client_id, "c1");
    assert_eq!(c.container_name, "web");
    assert_eq!(c.image, "img:1");
    assert_eq!(c.status, "running");
    assert_eq!(c.update_mode, "auto");
    assert!(!c.update_available && c.current_digest.is_none() && c.latest_digest.is_none() && c.checked_at.is_none());
}

#[test]
fn ui_hears_of_stored_container() {
    let stored = vec![container_record("c1", &info("a"), "manual"), container_record("c1", &info("b"), "manual")];
    let b_id = stored[1].id.clone();
    match container_update_event("c1", stored.clone(), "b") {
        Some(ServerToUI::ContainerUpdate { client_id, container }) => {
            assert_eq!(client_id, "c1");
            assert_eq!(container.id, b_id);
        }
        other => panic!("unexpected {:?}", other),
    }
    assert!(container_update_event("c1", stored, "zz").is_none());
}

#[test]
fn connection_events() {
    match agent_connected("c7") {
        (ServerToUI::ClientConnected { client_id }, ServerToAgent::CheckVersions) => assert_eq!(client_id, "c7"),
        other => panic!("unexpected {:?}", other),
    }
    match agent_disconnected("c7") {
        ServerToUI::ClientDisconnected { client_id } => assert_eq!(client_id, "c7"),
        other => panic!("unexpected {:?}", other),
    }
}
