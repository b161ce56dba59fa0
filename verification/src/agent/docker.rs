//! What the agent decides about Docker containers: how container listings
//! read, how an image reference splits for a pull, how a container is
//! recreated, and how its `docker run` command is rebuilt from `docker inspect`.

use vstd::prelude::*;
use crate::json::{
    get, get_in, parse_json, spec_get, spec_get_in, spec_parse_json, spec_strings, spec_text,
    strings, text, JsonValue,
};
use crate::text::{
    join, join_with, opt_string_view, owned, rfind_char, substring, text_or_empty,
    trim_start_char, trim_start_matches_char, views,
};

verus! {

broadcast use vstd::string::group_string_axioms;

/// A container as the agent reports it.
#[derive(Debug, Clone)]
pub struct ContainerInfo {
    pub container_name: String,
    pub image: String,
    pub status: String,
}

/// The fields of a Docker container listing entry that the agent reads.
#[derive(Debug, Clone)]
pub struct ContainerSummary {
    pub names: Option<Vec<String>>,
    pub image: Option<String>,
    pub state: Option<String>,
}

/// The status text of a container state; `unknown` when Docker gives none.
pub open spec fn spec_parse_status(state: Option<Seq<char>>) -> Seq<char> {
    match state {
        Some(s) => s,
        None => "unknown"@,
    }
}

/// Reads a container's status from its state.
pub fn parse_status(state: Option<&str>) -> (r: String)
    ensures
        r@ == spec_parse_status(crate::text::opt_view(state)),
{
    match state {
        Some(s) => owned(s),
        None => owned("unknown"),
    }
}

/// The first name Docker lists for a container, or the empty text.
pub open spec fn first_name(names: Option<Vec<String>>) -> Seq<char> {
    match names {
        Some(v) => if v@.len() > 0 {
            v@[0]@
        } else {
            Seq::empty()
        },
        None => Seq::empty(),
    }
}

/// A listing entry read as a `ContainerInfo`: its first name without the
/// leading slashes, its image, its status.
pub open spec fn describes(info: ContainerInfo, summary: ContainerSummary) -> bool {
    &&& info.container_name@ == trim_start_char(first_name(summary.names), '/')
    &&& info.image@ == text_or_empty(summary.image)
    &&& info.status@ == spec_parse_status(opt_string_view(summary.state))
}

/// Reads one listing entry.
pub fn container_info(summary: &ContainerSummary) -> (r: ContainerInfo)
    ensures
        describes(r, *summary),
{
    let first = match &summary.names {
        Some(v) => if v.len() > 0 {
            v[0].clone()
        } else {
            String::new()
        },
        None => String::new(),
    };
    let container_name = trim_start_matches_char(first.as_str(), '/');
    let image = match &summary.image {
        Some(i) => i.clone(),
        None => String::new(),
    };
    let status = match &summary.state {
        Some(s) => parse_status(Some(s.as_str())),
        None => parse_status(None),
    };
    ContainerInfo { container_name, image, status }
}

/// Reads a container listing, entry by entry.
pub fn container_infos(summaries: &Vec<ContainerSummary>) -> (r: Vec<ContainerInfo>)
    ensures
        r@.len() == summaries@.len(),
        forall|i: int| 0 <= i < r@.len() ==> describes(#[trigger] r@[i], summaries@[i]),
{
    let mut r: Vec<ContainerInfo> = Vec::new();
    let mut i: usize = 0;
    while i < summaries.len()
        invariant
            i <= summaries@.len(),
            r@.len() == i,
            forall|j: int| 0 <= j < i ==> describes(#[trigger] r@[j], summaries@[j]),
        decreases summaries@.len() - i,
    {
        r.push(container_info(&summaries[i]));
        i = i + 1;
    }
    r
}

// ---------------------------------------------------------------- pulling

/// An image reference split at its last `:` into name and tag; `latest` when
/// it has no `:`.
pub open spec fn spec_split_image_tag(image: Seq<char>) -> (Seq<char>, Seq<char>) {
    match image.index_of_last(':') {
        Some(i) => (image.take(i), image.skip(i + 1)),
        None => (image, "latest"@),
    }
}

/// Splits the reference of an image to pull into name and tag.
pub fn split_image_tag(image: &str) -> (r: (String, String))
    ensures
        (r.0@, r.1@) == spec_split_image_tag(image@),
{
    let n = image.unicode_len();
    match rfind_char(image, ':') {
        Some(i) => {
            assert(image@.subrange(0, i as int) =~= image@.take(i as int));
            assert(image@.subrange(i + 1, n as int) =~= image@.skip(i + 1));
            (substring(image, 0, i), substring(image, i + 1, n))
        },
        None => (owned(image), owned("latest")),
    }
}

// ---------------------------------------------------------------- docker run from docker inspect

/// The host ports bound to one container port in `HostConfig.PortBindings`.
#[derive(Debug, Clone)]
pub struct PortBinding {
    /// The container port, such as `80/tcp`.
    pub container_port: String,
    /// The bindings when the value is a JSON array: each binding's `HostPort`
    /// when that is a string.
    pub host_ports: Option<Vec<Option<String>>>,
}

/// What `docker inspect` says of a container that its `docker run` command
/// needs. A list that is missing or not a JSON array is empty; an element
/// that is not a string is `None`.
#[derive(Debug, Clone)]
pub struct InspectInfo {
    /// `HostConfig.RestartPolicy.Name`, when it is a string.
    pub restart_policy: Option<String>,
    /// `HostConfig.PortBindings`, in the order of the JSON object's keys.
    pub port_bindings: Vec<PortBinding>,
    /// `Config.Env`.
    pub env: Vec<Option<String>>,
    /// `HostConfig.Binds`.
    pub binds: Vec<Option<String>>,
}

/// A port binding as plain values: the container port, and the host ports
/// when the bindings were an array.
pub open spec fn binding_view(b: PortBinding) -> (String, Option<Seq<Option<String>>>) {
    (
        b.container_port,
        match b.host_ports {
            Some(v) => Some(v@),
            None => None,
        },
    )
}

/// The `HostPort` of one binding, when the binding is an object whose
/// `HostPort` is a string.
pub open spec fn spec_host_port(binding: JsonValue) -> Option<String> {
    spec_text(spec_get(binding, "HostPort"@))
}

/// One member of `HostConfig.PortBindings`: the container port, and the host
/// port of each binding when the member's value is an array.
pub open spec fn spec_port_binding(member: (String, JsonValue)) -> (String, Option<Seq<Option<String>>>) {
    (
        member.0,
        match member.1 {
            JsonValue::Array(a) => Some(a@.map_values(|b: JsonValue| spec_host_port(b))),
            _ => None,
        },
    )
}

/// The members of `HostConfig.PortBindings` in order; none when it is missing
/// or not an object.
pub open spec fn spec_port_bindings(v: Option<JsonValue>) -> Seq<(String, Option<Seq<Option<String>>>)> {
    match v {
        Some(JsonValue::Object(members)) => members@.map_values(
            |m: (String, JsonValue)| spec_port_binding(m),
        ),
        _ => Seq::empty(),
    }
}

/// `info` holds what the inspect document `doc` says: the string at
/// `/HostConfig/RestartPolicy/Name`, the members of
/// `/HostConfig/PortBindings`, and the elements of `/Config/Env` and
/// `/HostConfig/Binds`.
pub open spec fn reads_inspect(info: InspectInfo, doc: JsonValue) -> bool {
    let host_config = spec_get(doc, "HostConfig"@);
    &&& info.restart_policy == spec_text(
        spec_get_in(spec_get_in(host_config, "RestartPolicy"@), "Name"@),
    )
    &&& info.port_bindings@.map_values(|b: PortBinding| binding_view(b)) == spec_port_bindings(
        spec_get_in(host_config, "PortBindings"@),
    )
    &&& info.env@ == spec_strings(spec_get_in(spec_get(doc, "Config"@), "Env"@))
    &&& info.binds@ == spec_strings(spec_get_in(host_config, "Binds"@))
}

/// What the output of `docker inspect` reads as: the information of the
/// document when the text is JSON, nothing otherwise.
pub open spec fn reads_inspect_text(text: Seq<char>, inspect: Option<InspectInfo>) -> bool {
    match spec_parse_json(text) {
        Some(doc) => inspect matches Some(info) && reads_inspect(info, doc),
        None => inspect is None,
    }
}

fn port_binding(container_port: &String, bindings: &JsonValue) -> (r: PortBinding)
    ensures
        binding_view(r) == spec_port_binding((*container_port, *bindings)),
{
    let host_ports = match bindings {
        JsonValue::Array(a) => {
            let mut v: Vec<Option<String>> = Vec::new();
            let mut i: usize = 0;
            while i < a.len()
                invariant
                    i <= a@.len(),
                    v@ == a@.take(i as int).map_values(|b: JsonValue| spec_host_port(b)),
                decreases a@.len() - i,
            {
                v.push(text(get(&a[i], "HostPort")));
                assert(a@.take(i + 1).drop_last() =~= a@.take(i as int));
                assert(v@ =~= a@.take(i + 1).map_values(|b: JsonValue| spec_host_port(b)));
                i = i + 1;
            }
            assert(a@.take(a@.len() as int) =~= a@);
            Some(v)
        },
        _ => None,
    };
    PortBinding { container_port: container_port.clone(), host_ports }
}

fn port_bindings(v: Option<&JsonValue>) -> (r: Vec<PortBinding>)
    ensures
        r@.map_values(|b: PortBinding| binding_view(b)) == spec_port_bindings(
            match v {
                Some(w) => Some(*w),
                None => None,
            },
        ),
{
    let mut r: Vec<PortBinding> = Vec::new();
    match v {
        Some(JsonValue::Object(members)) => {
            let mut i: usize = 0;
            while i < members.len()
                invariant
                    i <= members@.len(),
                    r@.map_values(|b: PortBinding| binding_view(b)) == members@.take(
                        i as int,
                    ).map_values(|m: (String, JsonValue)| spec_port_binding(m)),
                decreases members@.len() - i,
            {
                let b = port_binding(&members[i].0, &members[i].1);
                assert((members@[i as int].0, members@[i as int].1) == members@[i as int]);
                let ghost before = r@;
                r.push(b);
                assert(r@.map_values(|b: PortBinding| binding_view(b)) =~= before.map_values(
                    |b: PortBinding| binding_view(b),
                ).push(binding_view(b)));
                assert(members@.take(i + 1).drop_last() =~= members@.take(i as int));
                assert(r@.map_values(|b: PortBinding| binding_view(b)) =~= members@.take(
                    i + 1,
                ).map_values(|m: (String, JsonValue)| spec_port_binding(m)));
                i = i + 1;
            }
            assert(members@.take(members@.len() as int) =~= members@);
        },
        _ => {
            assert(r@.map_values(|b: PortBinding| binding_view(b)) =~= Seq::empty());
        },
    }
    r
}

/// Reads what a `docker inspect` document says of the container.
pub fn inspect_info(doc: &JsonValue) -> (r: InspectInfo)
    ensures
        reads_inspect(r, *doc),
{
    let host_config = get(doc, "HostConfig");
    let policy = get_in(get_in(host_config, "RestartPolicy"), "Name");
    InspectInfo {
        restart_policy: text(policy),
        port_bindings: port_bindings(get_in(host_config, "PortBindings")),
        env: strings(get_in(get(doc, "Config"), "Env")),
        binds: strings(get_in(host_config, "Binds")),
    }
}

/// Reads the output of `docker inspect --format '{{json .}}'`: `None` when it
/// is not JSON.
pub fn read_inspect(output: &str) -> (r: Option<InspectInfo>)
    ensures
        reads_inspect_text(output@, r),
{
    match parse_json(output) {
        Some(doc) => Some(inspect_info(&doc)),
        None => None,
    }
}

/// `--restart=NAME` unless the policy is missing, empty or `no`.
pub open spec fn restart_args(policy: Option<String>) -> Seq<Seq<char>> {
    match policy {
        Some(p) => if p@.len() > 0 && p@ != "no"@ {
            seq!["--restart="@ + p@]
        } else {
            Seq::empty()
        },
        None => Seq::empty(),
    }
}

/// `-p=HOST:CONTAINER` for each binding of `container_port` with a non-empty
/// host port.
pub open spec fn host_port_args(container_port: Seq<char>, host_ports: Seq<Option<String>>) -> Seq<
    Seq<char>,
>
    decreases host_ports.len(),
{
    if host_ports.len() == 0 {
        Seq::empty()
    } else {
        let host = text_or_empty(host_ports.last());
        host_port_args(container_port, host_ports.drop_last()) + if host.len() > 0 {
            seq!["-p="@ + host + ":"@ + container_port]
        } else {
            Seq::<Seq<char>>::empty()
        }
    }
}

/// The `-p` arguments of all port bindings, in order.
pub open spec fn port_args(bindings: Seq<PortBinding>) -> Seq<Seq<char>>
    decreases bindings.len(),
{
    if bindings.len() == 0 {
        Seq::empty()
    } else {
        let b = bindings.last();
        port_args(bindings.drop_last()) + match b.host_ports {
            Some(v) => host_port_args(b.container_port@, v@),
            None => Seq::empty(),
        }
    }
}

/// `flag + value` for each value that is a string, in order.
pub open spec fn flag_args(flag: Seq<char>, values: Seq<Option<String>>) -> Seq<Seq<char>>
    decreases values.len(),
{
    if values.len() == 0 {
        Seq::empty()
    } else {
        flag_args(flag, values.drop_last()) + match values.last() {
            Some(v) => seq![flag + v@],
            None => Seq::<Seq<char>>::empty(),
        }
    }
}

/// The words of the `docker run` command that recreates container `name`
/// from `image` with the restart policy, ports, environment and volumes that
/// `docker inspect` reported.
pub open spec fn spec_run_args(name: Seq<char>, image: Seq<char>, inspect: InspectInfo) -> Seq<
    Seq<char>,
> {
    seq!["docker"@, "run"@, "-d"@, "--name="@ + name] + restart_args(inspect.restart_policy)
        + port_args(inspect.port_bindings@) + flag_args("-e="@, inspect.env@) + flag_args(
        "-v="@,
        inspect.binds@,
    ) + seq![image]
}

fn concat2(a: &str, b: &str) -> (r: String)
    ensures
        r@ == a@ + b@,
{
    let mut r = owned(a);
    r.append(b);
    r
}

fn push_flag_args(args: &mut Vec<String>, flag: &str, values: &Vec<Option<String>>)
    ensures
        views(final(args)@) == views(old(args)@) + flag_args(flag@, values@),
{
    let ghost start = views(args@);
    let mut i: usize = 0;
    assert(values@.take(0) =~= Seq::<Option<String>>::empty());
    assert(start + flag_args(flag@, values@.take(0)) =~= start);
    while i < values.len()
        invariant
            i <= values@.len(),
            views(args@) == start + flag_args(flag@, values@.take(i as int)),
        decreases values@.len() - i,
    {
        let ghost before = args@;
        match &values[i] {
            Some(v) => {
                args.push(concat2(flag, v.as_str()));
            },
            None => {},
        }
        proof {
            let t = values@.take(i + 1);
            assert(t.drop_last() =~= values@.take(i as int));
            assert(t.last() == values@[i as int]);
            if values@[i as int] is Some {
                assert(views(args@) =~= views(before).push(args@.last()@));
                assert(views(args@) =~= start + flag_args(flag@, t));
            } else {
                assert(args@ == before);
                assert(views(args@) =~= start + flag_args(flag@, t));
            }
        }
        i = i + 1;
    }
    assert(values@.take(values@.len() as int) =~= values@);
}

fn push_host_port_args(args: &mut Vec<String>, container_port: &str, host_ports: &Vec<Option<String>>)
    ensures
        views(final(args)@) == views(old(args)@) + host_port_args(container_port@, host_ports@),
{
    let ghost start = views(args@);
    let mut i: usize = 0;
    assert(host_ports@.take(0) =~= Seq::<Option<String>>::empty());
    assert(start + host_port_args(container_port@, host_ports@.take(0)) =~= start);
    while i < host_ports.len()
        invariant
            i <= host_ports@.len(),
            views(args@) == start + host_port_args(container_port@, host_ports@.take(i as int)),
        decreases host_ports@.len() - i,
    {
        let ghost before = args@;
        let host = match &host_ports[i] {
            Some(h) => h.clone(),
            None => String::new(),
        };
        if host.as_str().unicode_len() > 0 {
            let mut a = owned("-p=");
            a.append(host.as_str());
            a.append(":");
            a.append(container_port);
            args.push(a);
        }
        proof {
            let t = host_ports@.take(i + 1);
            assert(t.drop_last() =~= host_ports@.take(i as int));
            assert(t.last() == host_ports@[i as int]);
            assert(host@ == text_or_empty(t.last()));
            if host@.len() > 0 {
                assert(views(args@) =~= views(before).push(args@.last()@));
            } else {
                assert(args@ == before);
            }
            assert(views(args@) =~= start + host_port_args(container_port@, t));
        }
        i = i + 1;
    }
    assert(host_ports@.take(host_ports@.len() as int) =~= host_ports@);
}

fn push_port_args(args: &mut Vec<String>, bindings: &Vec<PortBinding>)
    ensures
        views(final(args)@) == views(old(args)@) + port_args(bindings@),
{
    let ghost start = views(args@);
    let mut i: usize = 0;
    assert(bindings@.take(0) =~= Seq::<PortBinding>::empty());
    assert(start + port_args(bindings@.take(0)) =~= start);
    while i < bindings.len()
        invariant
            i <= bindings@.len(),
            views(args@) == start + port_args(bindings@.take(i as int)),
        decreases bindings@.len() - i,
    {
        let ghost before = views(args@);
        let b = &bindings[i];
        match &b.host_ports {
            Some(v) => push_host_port_args(args, b.container_port.as_str(), v),
            None => {},
        }
        proof {
            let t = bindings@.take(i + 1);
            assert(t.drop_last() =~= bindings@.take(i as int));
            assert(t.last() == bindings@[i as int]);
            assert(views(args@) =~= start + port_args(t));
        }
        i = i + 1;
    }
    assert(bindings@.take(bindings@.len() as int) =~= bindings@);
}

/// The words of the `docker run` command that recreates container `name`.
pub fn run_args_from_inspect(name: &str, image: &str, inspect: &InspectInfo) -> (r: Vec<String>)
    ensures
        views(r@) == spec_run_args(name@, image@, *inspect),
{
    let mut args: Vec<String> = Vec::new();
    args.push(owned("docker"));
    args.push(owned("run"));
    args.push(owned("-d"));
    args.push(concat2("--name=", name));
    let ghost base = views(args@);
    assert(base =~= seq!["docker"@, "run"@, "-d"@, "--name="@ + name@]);

    // Restart policy
    match &inspect.restart_policy {
        Some(p) => {
            let no = owned("no");
            if p.as_str().unicode_len() > 0 && !(*p == no) {
                args.push(concat2("--restart=", p.as_str()));
            }
        },
        None => {},
    }
    assert(views(args@) =~= base + restart_args(inspect.restart_policy));

    // Port bindings, environment variables, volume bindings
    push_port_args(&mut args, &inspect.port_bindings);
    push_flag_args(&mut args, "-e=", &inspect.env);
    push_flag_args(&mut args, "-v=", &inspect.binds);
    let ghost before = views(args@);
    args.push(owned(image));
    assert(views(args@) =~= before.push(image@));
    assert(views(args@) =~= spec_run_args(name@, image@, *inspect));
    args
}

/// The `docker run` command line that recreates container `name`: its words
/// joined by single spaces.
pub fn build_run_command_from_inspect(name: &str, image: &str, inspect: &InspectInfo) -> (r: String)
    ensures
        r@ == join_with(spec_run_args(name@, image@, *inspect), " "@),
{
    let args = run_args_from_inspect(name, image, inspect);
    join(&args, " ")
}

/// The same inspection without a restart policy.
pub open spec fn without_policy(inspect: InspectInfo) -> InspectInfo {
    InspectInfo {
        restart_policy: None,
        port_bindings: inspect.port_bindings,
        env: inspect.env,
        binds: inspect.binds,
    }
}

/// The restart policy is carried over whatever it is named, unless it is
/// empty or `no`: then the words are those of the same inspection without a
/// policy, and otherwise they are those words with `--restart=` and the
/// policy's name right after `--name=NAME`. The words begin with `docker run
/// -d --name=NAME` and end with the image.
pub proof fn law_restart_policy_kept(name: Seq<char>, image: Seq<char>, inspect: InspectInfo)
    ensures
        ({
            let plain = spec_run_args(name, image, without_policy(inspect));
            &&& plain.len() >= 5
            &&& plain.take(4) == seq!["docker"@, "run"@, "-d"@, "--name="@ + name]
            &&& plain.last() == image
            &&& match inspect.restart_policy {
                Some(p) => if p@.len() > 0 && p@ != "no"@ {
                    spec_run_args(name, image, inspect) == plain.insert(4, "--restart="@ + p@)
                } else {
                    spec_run_args(name, image, inspect) == plain
                },
                None => spec_run_args(name, image, inspect) == plain,
            }
        }),
{
    let plain = spec_run_args(name, image, without_policy(inspect));
    let head = seq!["docker"@, "run"@, "-d"@, "--name="@ + name];
    let rest = port_args(inspect.port_bindings@) + flag_args("-e="@, inspect.env@) + flag_args(
        "-v="@,
        inspect.binds@,
    ) + seq![image];
    assert(plain =~= head + rest);
    assert(plain.take(4) =~= head);
    match inspect.restart_policy {
        Some(p) => if p@.len() > 0 && p@ != "no"@ {
            assert(spec_run_args(name, image, inspect) =~= head + seq!["--restart="@ + p@] + rest);
            assert(plain.insert(4, "--restart="@ + p@) =~= head + seq!["--restart="@ + p@] + rest);
        } else {
            assert(spec_run_args(name, image, inspect) =~= head + rest);
        },
        None => {
            assert(spec_run_args(name, image, inspect) =~= head + rest);
        },
    }
}

// ---------------------------------------------------------------- recreating a container

/// What a finished command printed, each stream decoded as UTF-8 with
/// replacement characters.
#[derive(Debug, Clone)]
pub struct CommandOutput {
    pub stdout: String,
    pub stderr: String,
}

/// A command for the caller to run.
#[derive(Debug, Clone)]
pub struct Command {
    pub program: String,
    pub args: Vec<String>,
}

/// Where the recreation of a container stands; each phase waits for the
/// command that led to it.
#[derive(Debug)]
pub enum RecreatePhase {
    /// `docker compose -f PATH pull NAME` is running.
    ComposePull { compose_path: String, name: String },
    /// `docker compose -f PATH up -d NAME` is running.
    ComposeUp { output: String },
    /// `docker pull IMAGE` is running.
    Pull { name: String, image: String },
    /// `docker inspect --format '{{json .}}' NAME` is running.
    Inspect { name: String, image: String, output: String },
    /// `docker stop NAME` is running.
    Stop { name: String, image: String, output: String, inspect: Option<InspectInfo> },
    /// `docker rm NAME` is running.
    Remove { name: String, image: String, output: String, inspect: Option<InspectInfo> },
    /// The new container is being started.
    Run { output: String },
}

/// What happened to the command of the current phase.
#[derive(Debug)]
pub enum RecreateEvent {
    /// The command ran and printed this.
    Ran(CommandOutput),
    /// `docker inspect` ran and printed this on its standard output.
    Inspected(String),
    /// The command could not be started.
    Failed(String),
}

/// What the recreation does next.
#[derive(Debug)]
pub enum RecreateStep {
    Next(RecreatePhase, Command),
    /// The combined output of all commands, or why a command could not start.
    Done(Result<String, String>),
}

/// The command is `program` with the words `args`.
pub open spec fn is_command(c: Command, program: Seq<char>, args: Seq<Seq<char>>) -> bool {
    c.program@ == program && views(c.args@) == args
}

/// The text a command printed: its standard output, then its standard error.
pub open spec fn printed(o: CommandOutput) -> Seq<char> {
    o.stdout@ + o.stderr@
}

/// The first phase and command of recreating container `name` from `image`:
/// with a compose file, `docker compose pull`; otherwise `docker pull`.
pub open spec fn spec_recreate_start(
    name: Seq<char>,
    image: Seq<char>,
    compose_path: Option<Seq<char>>,
    phase: RecreatePhase,
    cmd: Command,
) -> bool {
    match compose_path {
        Some(path) => phase matches RecreatePhase::ComposePull { compose_path: p, name: n } && p@
            == path && n@ == name && is_command(
            cmd,
            "docker"@,
            seq!["compose"@, "-f"@, path, "pull"@, name],
        ),
        None => phase matches RecreatePhase::Pull { name: n, image: i } && n@ == name && i@
            == image && is_command(cmd, "docker"@, seq!["pull"@, image]),
    }
}

/// Whether an event fits a phase: `Inspected` answers the inspect phase,
/// `Ran` every other; `Failed` fits all.
pub open spec fn event_fits(phase: RecreatePhase, event: RecreateEvent) -> bool {
    ||| event is Failed
    ||| (phase is Inspect && event is Inspected)
    ||| (!(phase is Inspect) && event is Ran)
}

/// One step of recreating a container.
pub open spec fn spec_recreate_step(phase: RecreatePhase, event: RecreateEvent, out: RecreateStep) -> bool {
    match event {
        RecreateEvent::Failed(e) => out == RecreateStep::Done(Err(e)),
        RecreateEvent::Inspected(printed_json) => match phase {
            RecreatePhase::Inspect { name, image, output } => out matches RecreateStep::Next(
                RecreatePhase::Stop { name: n, image: i, output: o, inspect },
                cmd,
            ) && n == name && i == image && o == output && reads_inspect_text(printed_json@, inspect)
                && is_command(
                cmd,
                "docker"@,
                seq!["stop"@, name@],
            ),
            _ => false,
        },
        RecreateEvent::Ran(o) => match phase {
            RecreatePhase::ComposePull { compose_path, name } => out matches RecreateStep::Next(
                RecreatePhase::ComposeUp { output },
                cmd,
            ) && output@ == printed(o) && is_command(
                cmd,
                "docker"@,
                seq!["compose"@, "-f"@, compose_path@, "up"@, "-d"@, name@],
            ),
            RecreatePhase::ComposeUp { output } => out matches RecreateStep::Done(Ok(all)) && all@
                == output@ + printed(o),
            RecreatePhase::Pull { name, image } => out matches RecreateStep::Next(
                RecreatePhase::Inspect { name: n, image: i, output },
                cmd,
            ) && n == name && i == image && output@ == printed(o) && is_command(
                cmd,
                "docker"@,
                seq!["inspect"@, "--format"@, "{{json .}}"@, name@],
            ),
            RecreatePhase::Stop { name, image, output, inspect } => out matches RecreateStep::Next(
                RecreatePhase::Remove { name: n, image: i, output: o2, inspect: ins },
                cmd,
            ) && n == name && i == image && ins == inspect && o2@ == output@ + printed(o)
                && is_command(cmd, "docker"@, seq!["rm"@, name@]),
            RecreatePhase::Remove { name, image, output, inspect } => match inspect {
                Some(info) => {
                    let line = join_with(spec_run_args(name@, image@, info), " "@);
                    out matches RecreateStep::Next(RecreatePhase::Run { output: o2 }, cmd) && o2@
                        == output@ + printed(o) + "Running: "@ + line + "\n"@ && is_command(
                        cmd,
                        "sh"@,
                        seq!["-c"@, line],
                    )
                },
                None => out matches RecreateStep::Next(RecreatePhase::Run { output: o2 }, cmd)
                    && o2@ == output@ + printed(o) && is_command(
                    cmd,
                    "docker"@,
                    seq!["run"@, "-d"@, "--name"@, name@, image@],
                ),
            },
            RecreatePhase::Run { output } => out matches RecreateStep::Done(Ok(all)) && all@
                == output@ + printed(o),
            RecreatePhase::Inspect { .. } => false,
        },
    }
}

fn words1(a: &str) -> (r: Vec<String>)
    ensures
        views(r@) == seq![a@],
{
    let mut v: Vec<String> = Vec::new();
    v.push(owned(a));
    assert(views(v@) =~= seq![a@]);
    v
}

fn push_word(v: &mut Vec<String>, w: &str)
    ensures
        views(final(v)@) == views(old(v)@).push(w@),
{
    v.push(owned(w));
    assert(views(v@) =~= views(old(v)@).push(w@));
}

fn docker(args: Vec<String>) -> (c: Command)
    ensures
        c.program@ == "docker"@,
        c.args == args,
{
    Command { program: owned("docker"), args }
}

fn append_printed(output: &mut String, o: &CommandOutput)
    ensures
        final(output)@ == old(output)@ + printed(*o),
{
    output.append(o.stdout.as_str());
    output.append(o.stderr.as_str());
    assert(output@ =~= old(output)@ + printed(*o));
}

/// Begins recreating container `name` with `image`, through `docker compose`
/// when a compose file is configured.
pub fn begin_recreate(name: &str, image: &str, compose_path: Option<&str>) -> (r: (
    RecreatePhase,
    Command,
))
    ensures
        spec_recreate_start(name@, image@, crate::text::opt_view(compose_path), r.0, r.1),
        !(r.0 is Inspect),
{
    match compose_path {
        Some(path) => {
            let mut args = words1("compose");
            push_word(&mut args, "-f");
            push_word(&mut args, path);
            push_word(&mut args, "pull");
            push_word(&mut args, name);
            assert(views(args@) =~= seq!["compose"@, "-f"@, path@, "pull"@, name@]);
            (RecreatePhase::ComposePull { compose_path: owned(path), name: owned(name) }, docker(args))
        },
        None => {
            let mut args = words1("pull");
            push_word(&mut args, image);
            assert(views(args@) =~= seq!["pull"@, image@]);
            (RecreatePhase::Pull { name: owned(name), image: owned(image) }, docker(args))
        },
    }
}

impl RecreatePhase {
    /// Whether this phase waits for `docker inspect` to be read.
    pub fn is_inspect(&self) -> (r: bool)
        ensures
            r == (*self is Inspect),
    {
        match self {
            RecreatePhase::Inspect { .. } => true,
            _ => false,
        }
    }

    /// Advances the recreation with what happened to the last command.
    pub fn step(self, event: RecreateEvent) -> (out: RecreateStep)
        requires
            event_fits(self, event),
        ensures
            spec_recreate_step(self, event, out),
    {
        match event {
            RecreateEvent::Failed(e) => RecreateStep::Done(Err(e)),
            RecreateEvent::Inspected(printed_json) => match self {
                RecreatePhase::Inspect { name, image, output } => {
                    let info = read_inspect(printed_json.as_str());
                    let mut args = words1("stop");
                    push_word(&mut args, name.as_str());
                    assert(views(args@) =~= seq!["stop"@, name@]);
                    RecreateStep::Next(
                        RecreatePhase::Stop { name, image, output, inspect: info },
                        docker(args),
                    )
                },
                _ => RecreateStep::Done(Ok(String::new())),
            },
            RecreateEvent::Ran(o) => match self {
                RecreatePhase::ComposePull { compose_path, name } => {
                    let mut output = String::new();
                    append_printed(&mut output, &o);
                    let mut args = words1("compose");
                    push_word(&mut args, "-f");
                    push_word(&mut args, compose_path.as_str());
                    push_word(&mut args, "up");
                    push_word(&mut args, "-d");
                    push_word(&mut args, name.as_str());
                    assert(views(args@) =~= seq!["compose"@, "-f"@, compose_path@, "up"@, "-d"@, name@]);
                    assert(output@ =~= printed(o));
                    RecreateStep::Next(RecreatePhase::ComposeUp { output }, docker(args))
                },
                RecreatePhase::ComposeUp { output } => {
                    let mut output = output;
                    append_printed(&mut output, &o);
                    RecreateStep::Done(Ok(output))
                },
                RecreatePhase::Pull { name, image } => {
                    let mut output = String::new();
                    append_printed(&mut output, &o);
                    assert(output@ =~= printed(o));
                    let mut args = words1("inspect");
                    push_word(&mut args, "--format");
                    push_word(&mut args, "{{json .}}");
                    push_word(&mut args, name.as_str());
                    assert(views(args@) =~= seq!["inspect"@, "--format"@, "{{json .}}"@, name@]);
                    RecreateStep::Next(RecreatePhase::Inspect { name, image, output }, docker(args))
                },
                RecreatePhase::Stop { name, image, output, inspect } => {
                    let mut output = output;
                    append_printed(&mut output, &o);
                    let mut args = words1("rm");
                    push_word(&mut args, name.as_str());
                    assert(views(args@) =~= seq!["rm"@, name@]);
                    RecreateStep::Next(
                        RecreatePhase::Remove { name, image, output, inspect },
                        docker(args),
                    )
                },
                RecreatePhase::Remove { name, image, output, inspect } => {
                    let mut output = output;
                    append_printed(&mut output, &o);
                    match inspect {
                        Some(info) => {
                            let line = build_run_command_from_inspect(
                                name.as_str(),
                                image.as_str(),
                                &info,
                            );
                            output.append("Running: ");
                            output.append(line.as_str());
                            output.append("\n");
                            let mut args = words1("-c");
                            push_word(&mut args, line.as_str());
                            assert(views(args@) =~= seq!["-c"@, line@]);
                            RecreateStep::Next(
                                RecreatePhase::Run { output },
                                Command { program: owned("sh"), args },
                            )
                        },
                        None => {
                            let mut args = words1("run");
                            push_word(&mut args, "-d");
                            push_word(&mut args, "--name");
                            push_word(&mut args, name.as_str());
                            push_word(&mut args, image.as_str());
                            assert(views(args@) =~= seq!["run"@, "-d"@, "--name"@, name@, image@]);
                            RecreateStep::Next(RecreatePhase::Run { output }, docker(args))
                        },
                    }
                },
                RecreatePhase::Run { output } => {
                    let mut output = output;
                    append_printed(&mut output, &o);
                    RecreateStep::Done(Ok(output))
                },
                RecreatePhase::Inspect { .. } => RecreateStep::Done(Ok(String::new())),
            },
        }
    }
}

/// Recreation takes a bounded number of commands: two with a compose file,
/// five without.
pub open spec fn commands_left(phase: RecreatePhase) -> nat {
    match phase {
        RecreatePhase::ComposePull { .. } => 2,
        RecreatePhase::ComposeUp { .. } => 1,
        RecreatePhase::Pull { .. } => 5,
        RecreatePhase::Inspect { .. } => 4,
        RecreatePhase::Stop { .. } => 3,
        RecreatePhase::Remove { .. } => 2,
        RecreatePhase::Run { .. } => 1,
    }
}

/// Every step of a recreation moves it strictly closer to its end, and a
/// command that cannot start ends it with that failure.
pub proof fn law_recreate_ends(phase: RecreatePhase, event: RecreateEvent, out: RecreateStep)
    requires
        event_fits(phase, event),
        spec_recreate_step(phase, event, out),
    ensures
        out matches RecreateStep::Next(next, _) ==> commands_left(next) < commands_left(phase),
        event matches RecreateEvent::Failed(e) ==> out == RecreateStep::Done(Err(e)),
{
}

/// The output of a recreation keeps what earlier commands printed: each step
/// only appends.
pub proof fn law_recreate_output_grows(phase: RecreatePhase, event: RecreateEvent, out: RecreateStep)
    requires
        event_fits(phase, event),
        spec_recreate_step(phase, event, out),
        phase matches RecreatePhase::Stop { .. } || phase matches RecreatePhase::Remove { .. }
            || phase matches RecreatePhase::Run { .. } || phase matches RecreatePhase::ComposeUp { .. },
        event is Ran,
    ensures
        ({
            let before = match phase {
                RecreatePhase::Stop { output, .. } => output@,
                RecreatePhase::Remove { output, .. } => output@,
                RecreatePhase::Run { output } => output@,
                RecreatePhase::ComposeUp { output } => output@,
                _ => Seq::empty(),
            };
            let after = match out {
                RecreateStep::Next(RecreatePhase::Remove { output, .. }, _) => output@,
                RecreateStep::Next(RecreatePhase::Run { output }, _) => output@,
                RecreateStep::Done(Ok(all)) => all@,
                _ => Seq::empty(),
            };
            before.len() <= after.len() && after.take(before.len() as int) == before
        }),
{
    match phase {
        RecreatePhase::Remove { name, image, output, inspect } => {
            if let RecreateEvent::Ran(o) = event {
                match inspect {
                    Some(info) => {
                        let line = join_with(spec_run_args(name@, image@, info), " "@);
                        assert((output@ + printed(o) + "Running: "@ + line + "\n"@).take(output@.len() as int) =~= output@);
                    },
                    None => {
                        assert((output@ + printed(o)).take(output@.len() as int) =~= output@);
                    },
                }
            }
        },
        RecreatePhase::Stop { output, .. } => {
            if let RecreateEvent::Ran(o) = event {
                assert((output@ + printed(o)).take(output@.len() as int) =~= output@);
            }
        },
        RecreatePhase::Run { output } => {
            if let RecreateEvent::Ran(o) = event {
                assert((output@ + printed(o)).take(output@.len() as int) =~= output@);
            }
        },
        RecreatePhase::ComposeUp { output } => {
            if let RecreateEvent::Ran(o) = event {
                assert((output@ + printed(o)).take(output@.len() as int) =~= output@);
            }
        },
        _ => {},
    }
}

} // verus!
