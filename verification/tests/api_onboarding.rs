use dockup::api::models::{Client, OnboardClientRequest};
use dockup::api::routes::onboarding::{
    agent_config, agent_has_connected, begin_onboarding, binary_arch, command_outcome,
    installation_crashed_answer, installation_failed_answer, new_client_id, new_client_record,
    new_client_record_now,
    onboarded_answer, settings_for, OnboardAction, OnboardError, OnboardEvent, OnboardStep,
    Onboarding, CONNECT_POLL_ATTEMPTS,
};

fn request(compose: Option<&str>) -> OnboardClientRequest {
    OnboardClientRequest {
        name: "edge".to_string(),
        host: "10.0.0.5".to_string(),
        color: "#0af".to_string(),
        compose_file_path: compose.map(|s| s.to_string()),
        ssh_user: "root".to_string(),
        ssh_password: "SECRET-REDACTED".to_string(),
        agent_update_mode: "manual".to_string(),
    }
}

fn advance(s: Onboarding, e: OnboardEvent) -> (Onboarding, OnboardAction) {
    match s.step(e) {
        OnboardStep::Next(n, a) => (n, a),
        OnboardStep::Done(r) => panic!("ended early: {:?}", r),
    }
}

fn command(a: &OnboardAction) -> String {
    match a {
        OnboardAction::Run(c) => c.clone(),
        other => panic!("expected a command, got {:?}", other),
    }
}

#[test]
fn architectures_map_to_builds() {
    assert_eq!(binary_arch("x86_64"), Some("x86_64".to_string()));
    assert_eq!(binary_arch("aarch64"), Some("aarch64".to_string()));
    assert_eq!(binary_arch("arm64"), Some("aarch64".to_string()));
    assert_eq!(binary_arch("armv7l"), Some("armv7".to_string()));
    assert_eq!(binary_arch("riscv64"), None);
}

#[test]
fn agent_config_file() {
    let s = settings_for(&request(None), "http://api:3101", "c1", "jwt1");
    assert_eq!(
        agent_config(&s),
        "server_url = \"http://api:3101\"\nclient_id = \"c1\"\njwt_token = \"jwt1\"\nagent_update_mode = \"manual\"\n"
    );
    let s = settings_for(&request(Some("/srv/dc.yml")), "http://api:3101", "c1", "jwt1");
    assert!(agent_config(&s).ends_with("agent_update_mode = \"manual\"\ncompose_file_path = \"/srv/dc.yml\"\n"));
}

#[test]
fn installation_runs_every_step_in_order() {
    let s = settings_for(&request(None), "http://api:3101", "c1", "jwt1");
    let (s, a) = begin_onboarding(s);
    assert_eq!(command(&a), "uname -m");
    let (s, a) = advance(s, OnboardEvent::Ran("arm64\n".to_string()));
    assert_eq!(command(&a), "sudo mkdir -p /etc/dockup-agent");
    let (s, a) = advance(s, OnboardEvent::Ran(String::new()));
    let tmp = match &a {
        OnboardAction::Upload { path, content } => {
            assert!(path.starts_with("/tmp/dockup_tmp_"));
            assert_eq!(path.len(), "/tmp/dockup_tmp_".len() + 36);
            assert!(content.starts_with("server_url = \"http://api:3101\""));
            path.clone()
        }
        other => panic!("unexpected {:?}", other),
    };
    assert!(s.phase.is_upload());
    let (s, a) = advance(s, OnboardEvent::Uploaded);
    assert_eq!(command(&a), format!("sudo mv {} /etc/dockup-agent/config.toml", tmp));
    let (s, a) = advance(s, OnboardEvent::Ran(String::new()));
    assert_eq!(command(&a), "sudo curl -fsSL -o /usr/local/bin/dockup-agent 'https://github.com/doublej0/dockup/releases/latest/download/dockup-agent-aarch64'");
    let (s, a) = advance(s, OnboardEvent::Ran(String::new()));
    assert_eq!(command(&a), "sudo chmod +x /usr/local/bin/dockup-agent");
    let (s, a) = advance(s, OnboardEvent::Ran(String::new()));
    let tmp2 = match &a {
        OnboardAction::Upload { path, content } => {
            assert!(content.starts_with("[Unit]\nDescription=DockUp Agent\n"));
            assert!(content.contains("ExecStart=/usr/local/bin/dockup-agent\n"));
            path.clone()
        }
        other => panic!("unexpected {:?}", other),
    };
    assert_ne!(tmp, tmp2);
    let (s, a) = advance(s, OnboardEvent::Uploaded);
    assert_eq!(command(&a), format!("sudo mv {} /etc/systemd/system/dockup-agent.service", tmp2));
    let (s, a) = advance(s, OnboardEvent::Ran(String::new()));
    assert_eq!(command(&a), "sudo systemctl daemon-reload");
    let (s, a) = advance(s, OnboardEvent::Ran(String::new()));
    assert_eq!(command(&a), "sudo systemctl enable dockup-agent");
    let (s, a) = advance(s, OnboardEvent::Ran(String::new()));
    assert_eq!(command(&a), "sudo systemctl restart dockup-agent");
    match s.step(OnboardEvent::Ran(String::new())) {
        OnboardStep::Done(Ok(())) => {}
        other => panic!("unexpected {:?}", other),
    }
}

#[test]
fn installation_refuses_unknown_architecture() {
    let (s, _) = begin_onboarding(settings_for(&request(None), "u", "c", "j"));
    match s.step(OnboardEvent::Ran("  mips\n".to_string())) {
        OnboardStep::Done(Err(OnboardError::UnsupportedArch(a))) => assert_eq!(a, "mips"),
        other => panic!("unexpected {:?}", other),
    }
}

#[test]
fn installation_stops_at_a_failed_command() {
    let (s, _) = begin_onboarding(settings_for(&request(None), "u", "c", "j"));
    let (s, _) = advance(s, OnboardEvent::Ran("x86_64".to_string()));
    let failure = command_outcome("sudo mkdir -p /etc/dockup-agent", String::new(), " permission denied\n", 1);
    let err = failure.unwrap_err();
    match &err {
        OnboardError::CommandFailed { command, exit_code, stderr } => {
            assert_eq!(command, "sudo mkdir -p /etc/dockup-agent");
            assert_eq!(*exit_code, 1);
            assert_eq!(stderr, "permission denied");
        }
        other => panic!("unexpected {:?}", other),
    }
    match s.step(OnboardEvent::Failed(err)) {
        OnboardStep::Done(Err(OnboardError::CommandFailed { exit_code, .. })) => assert_eq!(exit_code, 1),
        other => panic!("unexpected {:?}", other),
    }
    assert_eq!(command_outcome("uname -m", "x86_64\n".to_string(), "", 0).unwrap(), "x86_64\n");
}

#[test]
fn new_client_and_answers() {
    let id = new_client_id();
    assert_eq!(id.len(), 36);
    let c: Client = new_client_record(id.clone(), &request(Some("/dc.yml")), "now".to_string());
    assert_eq!(c.id, id);
    assert_eq!(c.name, "edge");
    assert_eq!(c.compose_file_path, Some("/dc.yml".to_string()));
    assert!(!c.connected);
    assert!(c.agent_version.is_none() && c.last_seen.is_none());
    assert_eq!(c.created_at, "now");
    assert!(!agent_has_connected(&Ok(Some(c.clone()))));
    let mut on = c.clone();
    on.connected = true;
    assert!(agent_has_connected(&Ok(Some(on.clone()))));
    assert!(!agent_has_connected(&Ok(None)));
    assert!(!agent_has_connected(&Err("e".to_string())));
    assert_eq!(CONNECT_POLL_ATTEMPTS, 30);
    assert_eq!(onboarded_answer(Ok(Some(on))).unwrap().id, id);
    assert_eq!(onboarded_answer(Ok(None)).unwrap_err().1.error, "Client record not found after insert");
    assert_eq!(onboarded_answer(Err("e".to_string())).unwrap_err().0, 500);
    assert_eq!(installation_failed_answer("SSH authentication failed").1.error, "SSH onboarding failed: SSH authentication failed");
    assert_eq!(installation_crashed_answer().1.error, "Internal error during onboarding");
}

#[test]
fn credentials_change_nothing_that_is_kept() {
    let a = request(Some("/dc.yml"));
    let mut b = request(Some("/dc.yml"));
    b.ssh_user = "admin".to_string();
    b.ssh_password = "other".to_string();
    let ra = new_client_record("id".to_string(), &a, "t".to_string());
    let rb = new_client_record("id".to_string(), &b, "t".to_string());
    assert_eq!(format!("{:?}", ra), format!("{:?}", rb));
    let ca = agent_config(&settings_for(&a, "http://api", "c", "j"));
    let cb = agent_config(&settings_for(&b, "http://api", "c", "j"));
    assert_eq!(ca, cb);
    assert!(!ca.contains("SECRET-REDACTED") && !ca.contains("root"));
}

#[test]
fn installation_failures_have_texts() {
    assert_eq!(OnboardError::Ssh("connection refused".to_string()).message(), "connection refused");
    assert_eq!(OnboardError::AuthenticationFailed.message(), "SSH authentication failed");
    assert_eq!(
        OnboardError::UnsupportedArch("mips".to_string()).message(),
        "Unsupported architecture: mips"
    );
    let failed = OnboardError::CommandFailed {
        command: "sudo mkdir -p /etc/dockup-agent".to_string(),
        exit_code: 1,
        stderr: "sudo: a password is required".to_string(),
    };
    assert_eq!(
        failed.message(),
        "Command 'sudo mkdir -p /etc/dockup-agent' exited with code 1: sudo: a password is required"
    );
    let killed = OnboardError::CommandFailed { command: "x".to_string(), exit_code: -1, stderr: String::new() };
    assert_eq!(killed.message(), "Command 'x' exited with code -1: ");
}

#[test]
fn new_record_is_created_now() {
    let c = new_client_record_now("id1".to_string(), &request(None));
    assert_eq!(c.id, "id1");
    assert_eq!(c.name, "edge");
    assert!(!c.connected);
    assert!(c.created_at.ends_with("+00:00"));
    assert_eq!(c.created_at.chars().nth(10), Some('T'));
}
