use dockup::agent::config::AgentConfig;
use dockup::agent::docker::ContainerInfo as ListedContainer;
use dockup::agent::registry::VersionCheckResult;
use dockup::agent::selfupdate::{
    binary_url, checksum_url, hex_encode, newer_release, newer_release_in, release_version,
    sha256_digest,
    verify_binary, ChecksumError,
};
use dockup::agent::updater::{outcome_messages, start_message};
use dockup::agent::ws::{
    agent_info_message, agent_ws_url, container_list_message, frame_action, image_of,
    job_complete_message, job_output_message, new_job_id, next_backoff, targets_for_all,
    targets_for_names, version_check_message, AgentToServer, Frame, FrameAction,
    server_message_plan, version_report, Listing, Reconnect, ServerPlan, ServerToAgent,
    INITIAL_BACKOFF_SECS, MAX_BACKOFF_SECS,
};

fn config(server_url: &str, mode: &str) -> AgentConfig {
    AgentConfig {
        server_url: server_url.to_string(),
        client_id: "c1".to_string(),
        jwt_token: "tok".to_string(),
        compose_file_path: None,
        agent_update_mode: mode.to_string(),
    }
}

fn listed(name: &str, image: &str) -> ListedContainer {
    ListedContainer { container_name: name.to_string(), image: image.to_string(), status: "running".to_string() }
}

#[test]
fn ws_url_drops_trailing_slashes() {
    assert_eq!(agent_ws_url(&config("http://h:3101//", "manual")), "http://h:3101/api/ws/agent/c1?token=tok");
    assert_eq!(agent_ws_url(&config("https://x", "manual")), "https://x/api/ws/agent/c1?token=tok");
}

#[test]
fn reconnect_waits_reset_after_a_connection() {
    let mut r = Reconnect::new();
    let mut waits = vec![];
    for _ in 0..8 {
        waits.push(r.wait_after(false));
    }
    assert_eq!(waits, vec![1, 2, 4, 8, 16, 32, 60, 60]);
    assert_eq!(r.wait_after(true), 1);
    assert_eq!(r.wait_after(false), 2);
    assert_eq!(r.wait_after(false), 4);
    assert_eq!(r.wait_after(true), 1);
    assert_eq!(r.wait_after(true), 1);
    assert_eq!(r.wait_after(false), 2);
}

#[test]
fn backoff_doubles_up_to_a_minute() {
    assert_eq!(INITIAL_BACKOFF_SECS, 1);
    let mut b = INITIAL_BACKOFF_SECS;
    let mut seen = vec![];
    for _ in 0..8 {
        b = next_backoff(b);
        seen.push(b);
    }
    assert_eq!(seen, vec![2, 4, 8, 16, 32, 60, 60, 60]);
    assert_eq!(next_backoff(MAX_BACKOFF_SECS), 60);
    assert_eq!(next_backoff(29), 58);
    assert_eq!(next_backoff(30), 60);
}

#[test]
fn auto_update_mode() {
    assert!(config("u", "auto").auto_update());
    assert!(!config("u", "manual").auto_update());
}

#[test]
fn frames_decide_the_receive_loop() {
    assert_eq!(frame_action(&Frame::Text("{}".to_string())), FrameAction::Dispatch);
    assert_eq!(frame_action(&Frame::Ping), FrameAction::Ignore);
    assert_eq!(frame_action(&Frame::Other), FrameAction::Ignore);
    assert_eq!(frame_action(&Frame::Close), FrameAction::Disconnect);
    assert_eq!(frame_action(&Frame::Error("reset".to_string())), FrameAction::Disconnect);
}

#[test]
fn messages_carry_their_fields() {
    match agent_info_message("0.1.0", "x86_64") {
        AgentToServer::AgentInfo { version, arch } => {
            assert_eq!(version, "0.1.0");
            assert_eq!(arch, "x86_64");
        }
        other => panic!("unexpected {:?}", other),
    }
    match version_check_message("web", VersionCheckResult { latest_digest: "sha256:l".to_string(), update_available: true }) {
        AgentToServer::VersionCheckResult { container, current_digest, latest_digest, update_available } => {
            assert_eq!(container, "web");
            assert_eq!(current_digest, "");
            assert_eq!(latest_digest, "sha256:l");
            assert!(update_available);
        }
        other => panic!("unexpected {:?}", other),
    }
    match job_output_message("j", "chunk".to_string()) {
        AgentToServer::JobOutput { job_id, chunk } => {
            assert_eq!(job_id, "j");
            assert_eq!(chunk, "chunk");
        }
        other => panic!("unexpected {:?}", other),
    }
    match job_complete_message("j", false) {
        AgentToServer::JobComplete { job_id, success } => {
            assert_eq!(job_id, "j");
            assert!(!success);
        }
        other => panic!("unexpected {:?}", other),
    }
    match container_list_message(vec![listed("a", "i"), listed("b", "j")]) {
        AgentToServer::ContainerList { containers } => {
            assert_eq!(containers.len(), 2);
            assert_eq!(containers[1].container_name, "b");
            assert_eq!(containers[1].image, "j");
            assert_eq!(containers[1].status, "running");
        }
        other => panic!("unexpected {:?}", other),
    }
}

#[test]
fn job_ids_are_hyphenated_uuids() {
    let a = new_job_id();
    let b = new_job_id();
    assert_eq!(a.len(), 36);
    for (i, c) in a.chars().enumerate() {
        if [8, 13, 18, 23].contains(&i) {
            assert_eq!(c, '-');
        } else {
            assert!(c.is_ascii_hexdigit() && !c.is_ascii_uppercase());
        }
    }
    assert_ne!(a, b);
}

#[test]
fn update_targets_by_name_and_all() {
    let running = vec![listed("web", "nginx"), listed("db", "postgres"), listed("web", "other")];
    assert_eq!(image_of(&running, "web"), "nginx");
    assert_eq!(image_of(&running, "gone"), "");
    let t = targets_for_names(&vec!["db".to_string(), "gone".to_string()], &running);
    assert_eq!(t.len(), 2);
    assert_eq!((t[0].name.as_str(), t[0].image.as_str()), ("db", "postgres"));
    assert_eq!((t[1].name.as_str(), t[1].image.as_str()), ("gone", ""));
    let all = targets_for_all(&running);
    assert_eq!(all.len(), 3);
    assert_eq!(all[2].image, "other");
}

#[test]
fn update_messages() {
    assert_eq!(start_message("web"), "Starting update for container: web\n");
    let (msgs, ok) = outcome_messages("web", Ok("out".to_string()));
    assert!(ok);
    assert_eq!(msgs, vec!["out".to_string(), "Container web updated successfully.\n".to_string()]);
    let (msgs, ok) = outcome_messages("web", Err("boom".to_string()));
    assert!(!ok);
    assert_eq!(msgs, vec!["Failed to update container web: boom\n".to_string()]);
}

#[test]
fn release_tags_and_versions() {
    assert_eq!(release_version("agent-v1.2.3"), "1.2.3");
    assert_eq!(release_version("v0.2.0"), "0.2.0");
    assert_eq!(release_version("agent-agent-vv1"), "1");
    assert_eq!(release_version("1.0"), "1.0");
    assert_eq!(newer_release("agent-v0.1.0", "0.1.0"), None);
    assert_eq!(newer_release("agent-v0.2.0", "0.1.0"), Some("0.2.0".to_string()));
}

#[test]
fn release_urls() {
    assert_eq!(
        binary_url("0.2.0", "x86_64"),
        "https://github.com/doublej0/dockup/releases/download/agent-0.2.0/dockup-agent-x86_64"
    );
    assert_eq!(
        checksum_url("0.2.0", "aarch64"),
        "https://github.com/doublej0/dockup/releases/download/agent-0.2.0/dockup-agent-aarch64.sha256"
    );
}

const ABC_SHA256: &str = "ba7816bf8f01cfea414140de5dae2223b00361a396177a9cb410ff61f20015ad";

#[test]
fn digest_and_hex_of_known_input() {
    let d = sha256_digest(b"abc");
    assert_eq!(d.len(), 32);
    assert_eq!(hex_encode(&d), ABC_SHA256);
    assert_eq!(hex_encode(&[0x00, 0x0f, 0xa0, 0xff]), "000fa0ff");
}

#[test]
fn checksum_accepts_only_matching_binary() {
    assert!(verify_binary(b"abc", &format!("{}  dockup-agent-x86_64\n", ABC_SHA256)).is_ok());
    assert!(verify_binary(b"abc", &format!("\n\t {}", ABC_SHA256)).is_ok());
    match verify_binary(b"abd", ABC_SHA256) {
        Err(ChecksumError::Mismatch { expected, actual }) => {
            assert_eq!(expected, ABC_SHA256);
            assert_ne!(actual, ABC_SHA256);
            assert_eq!(actual.len(), 64);
        }
        other => panic!("unexpected {:?}", other),
    }
    match verify_binary(b"abc", " \n ") {
        Err(ChecksumError::InvalidFormat) => {}
        other => panic!("unexpected {:?}", other),
    }
    // upper-case hex is not what the digest is compared with
    assert!(verify_binary(b"abc", &ABC_SHA256.to_uppercase()).is_err());
}

#[test]
fn server_commands_become_plans() {
    let p = server_message_plan(ServerToAgent::CheckVersions);
    assert!(matches!(p, ServerPlan::CheckVersions));
    assert_eq!(p.listing(), Some(Listing::Running));
    let p = server_message_plan(ServerToAgent::UpdateContainers { names: vec!["a".to_string()] });
    assert_eq!(p.listing(), Some(Listing::All));
    match p {
        ServerPlan::UpdateNamed { names } => assert_eq!(names, vec!["a".to_string()]),
        other => panic!("unexpected {:?}", other),
    }
    let p = server_message_plan(ServerToAgent::UpdateAll);
    assert!(matches!(p, ServerPlan::UpdateRunning));
    assert_eq!(p.listing(), Some(Listing::Running));
    let p = server_message_plan(ServerToAgent::UpdateAgent);
    assert!(matches!(p, ServerPlan::UpdateAgent));
    assert_eq!(p.listing(), None);
}

#[test]
fn failed_checks_are_not_reported() {
    assert!(version_report("web", Err("timed out".to_string())).is_none());
    let ok = VersionCheckResult { latest_digest: "sha256:l".to_string(), update_available: false };
    match version_report("web", Ok(ok)) {
        Some(AgentToServer::VersionCheckResult { container, current_digest, latest_digest, update_available }) => {
            assert_eq!(container, "web");
            assert_eq!(current_digest, "");
            assert_eq!(latest_digest, "sha256:l");
            assert!(!update_available);
        }
        other => panic!("unexpected {:?}", other),
    }
}

#[test]
fn latest_release_reply_is_read_for_its_tag() {
    let body = r#"{"url": "x", "tag_name": "agent-v0.2.0", "assets": []}"#;
    assert_eq!(newer_release_in(body, "0.1.0"), Some("0.2.0".to_string()));
    assert_eq!(newer_release_in(body, "0.2.0"), None);
    assert_eq!(newer_release_in(r#"{"tag_name": 2}"#, "0.1.0"), None);
    assert_eq!(newer_release_in(r#"{"message": "Not Found"}"#, "0.1.0"), None);
    assert_eq!(newer_release_in("<html>rate limited</html>", "0.1.0"), None);
    assert_eq!(newer_release_in(r#"["agent-v0.2.0"]"#, "0.1.0"), None);
}
