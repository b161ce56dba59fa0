use dockup::agent::docker::{
    begin_recreate, build_run_command_from_inspect, container_info, container_infos,
    inspect_info, parse_status, read_inspect, split_image_tag, CommandOutput, ContainerSummary,
    InspectInfo, PortBinding, RecreateEvent, RecreatePhase, RecreateStep,
};

fn out(stdout: &str, stderr: &str) -> CommandOutput {
    CommandOutput { stdout: stdout.to_string(), stderr: stderr.to_string() }
}

fn next(step: RecreateStep) -> (RecreatePhase, String, Vec<String>) {
    match step {
        RecreateStep::Next(p, c) => (p, c.program, c.args),
        other => panic!("unexpected {:?}", other),
    }
}

fn words(v: &[&str]) -> Vec<String> {
    v.iter().map(|s| s.to_string()).collect()
}

#[test]
fn status_defaults_to_unknown() {
    assert_eq!(parse_status(Some("running")), "running");
    assert_eq!(parse_status(Some("exited")), "exited");
    assert_eq!(parse_status(None), "unknown");
}

#[test]
fn container_names_lose_leading_slashes() {
    let s = ContainerSummary {
        names: Some(vec!["/web".to_string(), "/alias".to_string()]),
        image: Some("nginx:1".to_string()),
        state: Some("running".to_string()),
    };
    let c = container_info(&s);
    assert_eq!(c.container_name, "web");
    assert_eq!(c.image, "nginx:1");
    assert_eq!(c.status, "running");
    let bare = ContainerSummary { names: None, image: None, state: None };
    let c = container_info(&bare);
    assert_eq!(c.container_name, "");
    assert_eq!(c.image, "");
    assert_eq!(c.status, "unknown");
    let many = ContainerSummary { names: Some(vec!["//x/y".to_string()]), image: None, state: None };
    assert_eq!(container_info(&many).container_name, "x/y");
    let list = container_infos(&vec![s, bare]);
    assert_eq!(list.len(), 2);
    assert_eq!(list[0].container_name, "web");
    assert_eq!(list[1].status, "unknown");
}

#[test]
fn pull_reference_splits_at_last_colon() {
    assert_eq!(split_image_tag("nginx:1.2"), ("nginx".to_string(), "1.2".to_string()));
    assert_eq!(split_image_tag("nginx"), ("nginx".to_string(), "latest".to_string()));
    assert_eq!(
        split_image_tag("localhost:5000/img"),
        ("localhost".to_string(), "5000/img".to_string())
    );
}

fn sample_inspect(restart: Option<&str>) -> InspectInfo {
    InspectInfo {
        restart_policy: restart.map(|s| s.to_string()),
        port_bindings: vec![
            PortBinding {
                container_port: "443/tcp".to_string(),
                host_ports: Some(vec![Some("8443".to_string())]),
            },
            PortBinding {
                container_port: "80/tcp".to_string(),
                host_ports: Some(vec![Some("8080".to_string()), Some(String::new()), None]),
            },
            PortBinding { container_port: "9000/tcp".to_string(), host_ports: None },
        ],
        env: vec![Some("A=1".to_string()), None, Some("B=two words".to_string())],
        binds: vec![Some("/data:/data".to_string())],
    }
}

#[test]
fn run_command_rebuilt_from_inspect() {
    assert_eq!(
        build_run_command_from_inspect("web", "nginx:latest", &sample_inspect(Some("always"))),
        "docker run -d --name=web --restart=always -p=8443:443/tcp -p=8080:80/tcp -e=A=1 -e=B=two words -v=/data:/data nginx:latest"
    );
}

#[test]
fn restart_policy_no_or_empty_is_omitted() {
    let empty = InspectInfo { restart_policy: None, port_bindings: vec![], env: vec![], binds: vec![] };
    assert_eq!(build_run_command_from_inspect("a", "img", &empty), "docker run -d --name=a img");
    let no = InspectInfo { restart_policy: Some("no".to_string()), ..empty.clone() };
    assert_eq!(build_run_command_from_inspect("a", "img", &no), "docker run -d --name=a img");
    let blank = InspectInfo { restart_policy: Some(String::new()), ..empty };
    assert_eq!(build_run_command_from_inspect("a", "img", &blank), "docker run -d --name=a img");
}

#[test]
fn compose_recreate_pulls_then_ups() {
    let (phase, cmd) = begin_recreate("web", "nginx", Some("/srv/compose.yml"));
    assert_eq!(cmd.program, "docker");
    assert_eq!(cmd.args, words(&["compose", "-f", "/srv/compose.yml", "pull", "web"]));
    let (phase, program, args) = next(phase.step(RecreateEvent::Ran(out("pulled\n", "warn\n"))));
    assert_eq!(program, "docker");
    assert_eq!(args, words(&["compose", "-f", "/srv/compose.yml", "up", "-d", "web"]));
    match phase.step(RecreateEvent::Ran(out("up\n", ""))) {
        RecreateStep::Done(Ok(all)) => assert_eq!(all, "pulled\nwarn\nup\n"),
        other => panic!("unexpected {:?}", other),
    }
}

#[test]
fn standalone_recreate_uses_inspect() {
    let (phase, cmd) = begin_recreate("web", "nginx:latest", None);
    assert_eq!(cmd.args, words(&["pull", "nginx:latest"]));
    let (phase, _, args) = next(phase.step(RecreateEvent::Ran(out("p", "q"))));
    assert_eq!(args, words(&["inspect", "--format", "{{json .}}", "web"]));
    assert!(phase.is_inspect());
    let inspected = r#"{"Id":"abc","HostConfig":{"RestartPolicy":{"Name":"always"}}}"#;
    let (phase, _, args) = next(phase.step(RecreateEvent::Inspected(inspected.to_string())));
    assert_eq!(args, words(&["stop", "web"]));
    let (phase, _, args) = next(phase.step(RecreateEvent::Ran(out("s", ""))));
    assert_eq!(args, words(&["rm", "web"]));
    let (phase, program, args) = next(phase.step(RecreateEvent::Ran(out("r", ""))));
    assert_eq!(program, "sh");
    assert_eq!(args, words(&["-c", "docker run -d --name=web --restart=always nginx:latest"]));
    match phase.step(RecreateEvent::Ran(out("id\n", ""))) {
        RecreateStep::Done(Ok(all)) => assert_eq!(
            all,
            "pqsrRunning: docker run -d --name=web --restart=always nginx:latest\nid\n"
        ),
        other => panic!("unexpected {:?}", other),
    }
}

#[test]
fn standalone_recreate_without_inspect_runs_minimal_container() {
    let (phase, _) = begin_recreate("db", "postgres:16", None);
    let (phase, _, _) = next(phase.step(RecreateEvent::Ran(out("", ""))));
    let not_json = "Error: No such object: db\n".to_string();
    let (phase, _, _) = next(phase.step(RecreateEvent::Inspected(not_json)));
    let (phase, _, _) = next(phase.step(RecreateEvent::Ran(out("", ""))));
    let (phase, program, args) = next(phase.step(RecreateEvent::Ran(out("", ""))));
    assert_eq!(program, "docker");
    assert_eq!(args, words(&["run", "-d", "--name", "db", "postgres:16"]));
    match phase.step(RecreateEvent::Ran(out("x", "y"))) {
        RecreateStep::Done(Ok(all)) => assert_eq!(all, "xy"),
        other => panic!("unexpected {:?}", other),
    }
}

#[test]
fn recreate_stops_when_a_command_cannot_start() {
    let (phase, _) = begin_recreate("db", "postgres:16", None);
    match phase.step(RecreateEvent::Failed("docker: not found".to_string())) {
        RecreateStep::Done(Err(e)) => assert_eq!(e, "docker: not found"),
        other => panic!("unexpected {:?}", other),
    }
}

const INSPECT_JSON: &str = r#"{
    "Name": "/web",
    "Config": {"Env": ["A=1", 5, "B=two words"], "Image": "nginx"},
    "HostConfig": {
        "RestartPolicy": {"Name": "always", "MaximumRetryCount": 0},
        "PortBindings": {
            "80/tcp": [{"HostIp": "", "HostPort": "8080"}, {"HostPort": ""}, {"HostIp": "0.0.0.0"}],
            "443/tcp": [{"HostPort": "8443"}],
            "9000/tcp": null
        },
        "Binds": ["/data:/data"]
    }
}"#;

#[test]
fn inspect_output_is_read_from_json() {
    let info = read_inspect(INSPECT_JSON).expect("JSON");
    let expected = sample_inspect(Some("always"));
    assert_eq!(info.restart_policy, expected.restart_policy);
    assert_eq!(info.env, expected.env);
    assert_eq!(info.binds, expected.binds);
    assert_eq!(info.port_bindings.len(), expected.port_bindings.len());
    for (got, want) in info.port_bindings.iter().zip(expected.port_bindings.iter()) {
        assert_eq!(got.container_port, want.container_port);
        assert_eq!(got.host_ports, want.host_ports);
    }
    assert_eq!(
        build_run_command_from_inspect("web", "nginx:latest", &info),
        "docker run -d --name=web --restart=always -p=8443:443/tcp -p=8080:80/tcp -e=A=1 -e=B=two words -v=/data:/data nginx:latest"
    );
}

#[test]
fn inspect_output_that_is_not_json_reads_as_nothing() {
    assert!(read_inspect("Error: No such object: web\n").is_none());
    assert!(read_inspect("").is_none());
    assert!(read_inspect("{\"HostConfig\": ").is_none());
}

#[test]
fn inspect_fields_of_the_wrong_kind_are_skipped() {
    let info = read_inspect(
        r#"{"Config": {"Env": "A=1"}, "HostConfig": {"RestartPolicy": {"Name": 3}, "PortBindings": [1], "Binds": [null, "/a:/b"]}}"#,
    )
    .expect("JSON");
    assert_eq!(info.restart_policy, None);
    assert!(info.env.is_empty());
    assert!(info.port_bindings.is_empty());
    assert_eq!(info.binds, vec![None, Some("/a:/b".to_string())]);
    let bare = read_inspect("[]").expect("JSON");
    assert_eq!(bare.restart_policy, None);
    assert!(bare.port_bindings.is_empty() && bare.env.is_empty() && bare.binds.is_empty());
    assert_eq!(build_run_command_from_inspect("a", "img", &inspect_info(&dockup::json::JsonValue::Null)), "docker run -d --name=a img");
}
