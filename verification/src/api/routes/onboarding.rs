//! Onboarding a new host over SSH: the commands and files that install the
//! agent, in order, and what the endpoint answers afterwards.

use vstd::prelude::*;
use crate::api::models::{Client, OnboardClientRequest, copy_opt};
use crate::ids::{is_hyphenated_uuid, is_rfc3339_utc, new_uuid, now_rfc3339};
use crate::text::{int_text, owned, spec_int_text, trim_whitespace, trim_ws};

verus! {

broadcast use vstd::string::group_string_axioms;

/// The body of an error answer.
#[derive(Debug, Clone)]
pub struct ApiError {
    pub error: String,
}

/// What the installation needs to know.
#[derive(Debug, Clone)]
pub struct OnboardSettings {
    /// The API's public URL, which the agent connects to.
    pub public_api_url: String,
    pub client_id: String,
    /// The agent's token.
    pub jwt: String,
    pub agent_update_mode: String,
    pub compose_file_path: Option<String>,
}

/// Why an installation failed.
#[derive(Debug, Clone)]
pub enum OnboardError {
    /// The SSH connection, handshake, or a channel failed.
    Ssh(String),
    /// The password was not accepted.
    AuthenticationFailed,
    /// `uname -m` named an architecture without an agent build.
    UnsupportedArch(String),
    /// A command exited with a non-zero code; `stderr` is its trimmed error
    /// output.
    CommandFailed { command: String, exit_code: i32, stderr: String },
}

/// The text of an installation failure, as the failure answer quotes it.
pub open spec fn spec_onboard_error_text(e: OnboardError) -> Seq<char> {
    match e {
        OnboardError::Ssh(m) => m@,
        OnboardError::AuthenticationFailed => "SSH authentication failed"@,
        OnboardError::UnsupportedArch(arch) => "Unsupported architecture: "@ + arch@,
        OnboardError::CommandFailed { command, exit_code, stderr } => "Command '"@ + command@
            + "' exited with code "@ + spec_int_text(exit_code as int) + ": "@ + stderr@,
    }
}

impl OnboardError {
    /// The text of the failure.
    pub fn message(&self) -> (r: String)
        ensures
            r@ == spec_onboard_error_text(*self),
    {
        match self {
            OnboardError::Ssh(m) => m.clone(),
            OnboardError::AuthenticationFailed => owned("SSH authentication failed"),
            OnboardError::UnsupportedArch(arch) => {
                let mut t = owned("Unsupported architecture: ");
                t.append(arch.as_str());
                t
            },
            OnboardError::CommandFailed { command, exit_code, stderr } => {
                let mut t = owned("Command '");
                t.append(command.as_str());
                t.append("' exited with code ");
                t.append(int_text(*exit_code as i64).as_str());
                t.append(": ");
                t.append(stderr.as_str());
                t
            },
        }
    }
}

/// Where the installation stands; each phase waits for the action that led
/// to it.
#[derive(Debug, Clone)]
pub enum OnboardPhase {
    /// `uname -m` is running.
    DetectArch,
    /// The configuration directory is being created.
    MakeConfigDir { arch: String },
    /// The configuration is being uploaded to a temporary file.
    UploadConfig { arch: String, tmp_path: String },
    /// The configuration is being moved into place.
    MoveConfig { arch: String },
    /// The agent binary is being downloaded.
    Download,
    /// The agent binary is being made executable.
    Chmod,
    /// The systemd unit is being uploaded to a temporary file.
    UploadService { tmp_path: String },
    /// The systemd unit is being moved into place.
    MoveService,
    /// systemd is reloading its units.
    Reload,
    /// The agent service is being enabled.
    Enable,
    /// The agent service is being restarted.
    Restart,
}

/// What the caller does next on the SSH session.
#[derive(Debug, Clone)]
pub enum OnboardAction {
    /// Run a command; a non-zero exit code is a failure.
    Run(String),
    /// Copy `content` to `path` over SCP with mode 0644.
    Upload { path: String, content: String },
}

/// What happened to the last action.
#[derive(Debug, Clone)]
pub enum OnboardEvent {
    /// The command exited with 0 and printed this.
    Ran(String),
    /// The file was copied.
    Uploaded,
    Failed(OnboardError),
}

/// An installation in progress.
#[derive(Debug, Clone)]
pub struct Onboarding {
    pub settings: OnboardSettings,
    pub phase: OnboardPhase,
}

/// What the installation does next.
#[derive(Debug)]
pub enum OnboardStep {
    Next(Onboarding, OnboardAction),
    Done(Result<(), OnboardError>),
}

// ---------------------------------------------------------------- texts

/// The agent build for what `uname -m` printed (trimmed): `x86_64`;
/// `aarch64` for `aarch64` and `arm64`; `armv7` for `armv7l`.
pub open spec fn spec_binary_arch(arch: Seq<char>) -> Option<Seq<char>> {
    if arch == "x86_64"@ {
        Some("x86_64"@)
    } else if arch == "aarch64"@ || arch == "arm64"@ {
        Some("aarch64"@)
    } else if arch == "armv7l"@ {
        Some("armv7"@)
    } else {
        None
    }
}

/// Chooses the agent build for a machine architecture.
pub fn binary_arch(arch: &str) -> (r: Option<String>)
    ensures
        crate::text::opt_string_view(r) == spec_binary_arch(arch@),
{
    let a = owned(arch);
    if a == owned("x86_64") {
        Some(owned("x86_64"))
    } else if a == owned("aarch64") || a == owned("arm64") {
        Some(owned("aarch64"))
    } else if a == owned("armv7l") {
        Some(owned("armv7"))
    } else {
        None
    }
}

/// The agent's `config.toml`: server URL, client id, token and update mode,
/// then the compose file path when there is one.
pub open spec fn spec_agent_config(settings: OnboardSettings) -> Seq<char> {
    "server_url = \""@ + settings.public_api_url@ + "\"\nclient_id = \""@ + settings.client_id@
        + "\"\njwt_token = \""@ + settings.jwt@ + "\"\nagent_update_mode = \""@
        + settings.agent_update_mode@ + "\"\n"@ + match settings.compose_file_path {
        Some(p) => "compose_file_path = \""@ + p@ + "\"\n"@,
        None => Seq::empty(),
    }
}

/// Writes the agent's configuration file.
pub fn agent_config(settings: &OnboardSettings) -> (r: String)
    ensures
        r@ == spec_agent_config(*settings),
{
    let mut c = owned("server_url = \"");
    c.append(settings.public_api_url.as_str());
    c.append("\"\nclient_id = \"");
    c.append(settings.client_id.as_str());
    c.append("\"\njwt_token = \"");
    c.append(settings.jwt.as_str());
    c.append("\"\nagent_update_mode = \"");
    c.append(settings.agent_update_mode.as_str());
    c.append("\"\n");
    let ghost head = c@;
    match &settings.compose_file_path {
        Some(p) => {
            c.append("compose_file_path = \"");
            c.append(p.as_str());
            c.append("\"\n");
        },
        None => {
            assert(head + Seq::<char>::empty() =~= head);
        },
    }
    c
}

/// The systemd unit that runs the agent.
pub open spec fn service_unit() -> Seq<char> {
    "[Unit]\nDescription=DockUp Agent\nAfter=network.target docker.service\nRequires=docker.service\n\n[Service]\nType=simple\nExecStart=/usr/local/bin/dockup-agent\nRestart=always\nRestartSec=5\nStandardOutput=journal\nStandardError=journal\n\n[Install]\nWantedBy=multi-user.target\n"@
}

fn service_unit_text() -> (r: String)
    ensures
        r@ == service_unit(),
{
    owned(
        "[Unit]\nDescription=DockUp Agent\nAfter=network.target docker.service\nRequires=docker.service\n\n[Service]\nType=simple\nExecStart=/usr/local/bin/dockup-agent\nRestart=always\nRestartSec=5\nStandardOutput=journal\nStandardError=journal\n\n[Install]\nWantedBy=multi-user.target\n",
    )
}

/// Where the project publishes the latest agent builds.
pub open spec fn release_download_url() -> Seq<char> {
    "https://github.com/doublej0/dockup/releases/latest/download/dockup-agent-"@
}

/// The command that downloads the agent build `arch` from the project's
/// GitHub Releases.
pub open spec fn spec_download_command(arch: Seq<char>) -> Seq<char> {
    "sudo curl -fsSL -o /usr/local/bin/dockup-agent '"@ + release_download_url() + arch + "'"@
}

fn download_command(arch: &str) -> (r: String)
    ensures
        r@ == spec_download_command(arch@),
{
    let mut c = owned("sudo curl -fsSL -o /usr/local/bin/dockup-agent '");
    c.append("https://github.com/doublej0/dockup/releases/latest/download/dockup-agent-");
    c.append(arch);
    c.append("'");
    c
}

/// `s` ends with `suffix`.
pub open spec fn ends_with(s: Seq<char>, suffix: Seq<char>) -> bool {
    s.len() >= suffix.len() && s.subrange(s.len() - suffix.len(), s.len() as int) == suffix
}

/// The architectures that `uname -m` may print map to the builds
/// `x86_64` (from `x86_64`), `aarch64` (from `aarch64` and `arm64`) and
/// `armv7` (from `armv7l`), and no other text names a build.
pub proof fn law_builds_of_architectures(machine: Seq<char>)
    ensures
        machine == "x86_64"@ ==> spec_binary_arch(machine) == Some("x86_64"@),
        (machine == "aarch64"@ || machine == "arm64"@) ==> spec_binary_arch(machine) == Some(
            "aarch64"@,
        ),
        machine == "armv7l"@ ==> spec_binary_arch(machine) == Some("armv7"@),
        spec_binary_arch(machine) is Some ==> (machine == "x86_64"@ || machine == "aarch64"@
            || machine == "arm64"@ || machine == "armv7l"@),
{
    reveal_strlit("x86_64");
    reveal_strlit("aarch64");
    reveal_strlit("arm64");
    reveal_strlit("armv7l");
    if machine == "armv7l"@ {
        assert(machine[0] != "x86_64"@[0]);
        assert(machine.len() != "aarch64"@.len() && machine.len() != "arm64"@.len());
    }
}

/// The download fetches, with `curl -f` into `/usr/local/bin/dockup-agent`,
/// the release asset named `dockup-agent-` followed by exactly the build
/// name: the command ends with `dockup-agent-BUILD'`.
pub proof fn law_download_names_the_build(arch: Seq<char>)
    ensures
        spec_download_command(arch) == "sudo curl -fsSL -o /usr/local/bin/dockup-agent '"@
            + "https://github.com/doublej0/dockup/releases/latest/download/"@ + "dockup-agent-"@
            + arch + "'"@,
        ends_with(spec_download_command(arch), "dockup-agent-"@ + arch + "'"@),
        spec_download_command(arch).take(
            "sudo curl -fsSL -o /usr/local/bin/dockup-agent '"@.len() as int,
        ) == "sudo curl -fsSL -o /usr/local/bin/dockup-agent '"@,
{
    reveal_strlit("https://github.com/doublej0/dockup/releases/latest/download/dockup-agent-");
    reveal_strlit("dockup-agent-");
    reveal_strlit("sudo curl -fsSL -o /usr/local/bin/dockup-agent '");
    let c = spec_download_command(arch);
    let suffix = "dockup-agent-"@ + arch + "'"@;
    let head = "sudo curl -fsSL -o /usr/local/bin/dockup-agent '"@;
    let url = release_download_url();
    let front = url.take(url.len() - 13);
    assert(url =~= front + "dockup-agent-"@);
    assert(c =~= head + front + suffix);
    assert(c.subrange(c.len() - suffix.len(), c.len() as int) =~= suffix);
    assert(c.take(head.len() as int) =~= head);
    reveal_strlit("https://github.com/doublej0/dockup/releases/latest/download/");
    assert(front =~= "https://github.com/doublej0/dockup/releases/latest/download/"@);
    assert(c =~= head + "https://github.com/doublej0/dockup/releases/latest/download/"@
        + "dockup-agent-"@ + arch + "'"@);
}

/// A temporary upload path: `/tmp/dockup_tmp_` and a fresh UUID.
pub open spec fn is_tmp_path(p: Seq<char>) -> bool {
    p.len() == "/tmp/dockup_tmp_"@.len() + 36 && p.take("/tmp/dockup_tmp_"@.len() as int)
        == "/tmp/dockup_tmp_"@ && is_hyphenated_uuid(p.skip("/tmp/dockup_tmp_"@.len() as int))
}

fn tmp_path() -> (r: String)
    ensures
        is_tmp_path(r@),
{
    let mut p = owned("/tmp/dockup_tmp_");
    let id = new_uuid();
    p.append(id.as_str());
    assert(p@.take("/tmp/dockup_tmp_"@.len() as int) =~= "/tmp/dockup_tmp_"@);
    assert(p@.skip("/tmp/dockup_tmp_"@.len() as int) =~= id@);
    p
}

/// The command that moves an uploaded file into place with root rights.
pub open spec fn spec_move_command(tmp: Seq<char>, remote: Seq<char>) -> Seq<char> {
    "sudo mv "@ + tmp + " "@ + remote
}

fn move_command(tmp: &str, remote: &str) -> (r: String)
    ensures
        r@ == spec_move_command(tmp@, remote@),
{
    let mut c = owned("sudo mv ");
    c.append(tmp);
    c.append(" ");
    c.append(remote);
    c
}

/// What a command that exited with `exit_code` amounts to: its output when
/// the code is 0, a failure with its trimmed error output otherwise.
pub fn command_outcome(command: &str, stdout: String, stderr: &str, exit_code: i32) -> (r: Result<
    String,
    OnboardError,
>)
    ensures
        exit_code == 0 ==> r == Ok::<String, OnboardError>(stdout),
        exit_code != 0 ==> (r matches Err(OnboardError::CommandFailed { command: c, exit_code: e, stderr: s })
            && c@ == command@ && e == exit_code && s@ == trim_ws(stderr@)),
{
    if exit_code != 0 {
        Err(
            OnboardError::CommandFailed {
                command: owned(command),
                exit_code,
                stderr: trim_whitespace(stderr),
            },
        )
    } else {
        Ok(stdout)
    }
}

// ---------------------------------------------------------------- the installation

/// The action is running `command`.
pub open spec fn runs(action: OnboardAction, command: Seq<char>) -> bool {
    action matches OnboardAction::Run(c) && c@ == command
}

/// The action uploads `content` to a fresh temporary path, the one the phase
/// keeps.
pub open spec fn uploads(action: OnboardAction, content: Seq<char>, tmp: Seq<char>) -> bool {
    action matches OnboardAction::Upload { path, content: c } && path@ == tmp && is_tmp_path(tmp)
        && c@ == content
}

/// The phase creates the configuration directory for build `arch`.
pub open spec fn is_make_dir(phase: OnboardPhase, arch: Seq<char>) -> bool {
    phase matches OnboardPhase::MakeConfigDir { arch: b } && b@ == arch
}

/// The phase uploads the configuration `content` for build `arch` to the
/// temporary path that the action writes.
pub open spec fn is_config_upload(phase: OnboardPhase, arch: String, action: OnboardAction, content: Seq<char>) -> bool {
    phase matches OnboardPhase::UploadConfig { arch: b, tmp_path } && b == arch && uploads(
        action,
        content,
        tmp_path@,
    )
}

/// The phase uploads the systemd unit to the temporary path that the action
/// writes.
pub open spec fn is_service_upload(phase: OnboardPhase, action: OnboardAction) -> bool {
    phase matches OnboardPhase::UploadService { tmp_path } && uploads(action, service_unit(), tmp_path@)
}

/// The path of the agent's configuration file.
pub open spec fn config_path() -> Seq<char> {
    "/etc/dockup-agent/config.toml"@
}

/// The path of the agent's systemd unit.
pub open spec fn service_path() -> Seq<char> {
    "/etc/systemd/system/dockup-agent.service"@
}

/// One step of an installation: what follows `phase` when `event` happened.
pub open spec fn spec_onboard_step(s: Onboarding, event: OnboardEvent, out: OnboardStep) -> bool {
    match event {
        OnboardEvent::Failed(e) => out == OnboardStep::Done(Err(e)),
        OnboardEvent::Uploaded => match s.phase {
            OnboardPhase::UploadConfig { arch, tmp_path } => out matches OnboardStep::Next(n, a)
                && n.settings == s.settings && n.phase == (OnboardPhase::MoveConfig { arch }) && runs(
                a,
                spec_move_command(tmp_path@, config_path()),
            ),
            OnboardPhase::UploadService { tmp_path } => out matches OnboardStep::Next(n, a)
                && n.settings == s.settings && n.phase == OnboardPhase::MoveService && runs(
                a,
                spec_move_command(tmp_path@, service_path()),
            ),
            _ => false,
        },
        OnboardEvent::Ran(output) => match s.phase {
            OnboardPhase::DetectArch => match spec_binary_arch(trim_ws(output@)) {
                Some(arch) => out matches OnboardStep::Next(n, a) && n.settings == s.settings
                    && is_make_dir(n.phase, arch) && runs(a, "sudo mkdir -p /etc/dockup-agent"@),
                None => out matches OnboardStep::Done(Err(OnboardError::UnsupportedArch(other)))
                    && other@ == trim_ws(output@),
            },
            OnboardPhase::MakeConfigDir { arch } => out matches OnboardStep::Next(n, a)
                && n.settings == s.settings && is_config_upload(n.phase, arch, a, spec_agent_config(s.settings)),
            OnboardPhase::MoveConfig { arch } => out matches OnboardStep::Next(n, a) && n.settings
                == s.settings && n.phase == OnboardPhase::Download && runs(
                a,
                spec_download_command(arch@),
            ),
            OnboardPhase::Download => out matches OnboardStep::Next(n, a) && n.settings
                == s.settings && n.phase == OnboardPhase::Chmod && runs(
                a,
                "sudo chmod +x /usr/local/bin/dockup-agent"@,
            ),
            OnboardPhase::Chmod => out matches OnboardStep::Next(n, a) && n.settings == s.settings
                && is_service_upload(n.phase, a),
            OnboardPhase::MoveService => out matches OnboardStep::Next(n, a) && n.settings
                == s.settings && n.phase == OnboardPhase::Reload && runs(
                a,
                "sudo systemctl daemon-reload"@,
            ),
            OnboardPhase::Reload => out matches OnboardStep::Next(n, a) && n.settings == s.settings
                && n.phase == OnboardPhase::Enable && runs(a, "sudo systemctl enable dockup-agent"@),
            OnboardPhase::Enable => out matches OnboardStep::Next(n, a) && n.settings == s.settings
                && n.phase == OnboardPhase::Restart && runs(a, "sudo systemctl restart dockup-agent"@),
            OnboardPhase::Restart => out == OnboardStep::Done(Ok(())),
            _ => false,
        },
    }
}

/// Whether an event fits the phase: an upload phase waits for `Uploaded`,
/// every other for `Ran`; `Failed` fits all.
pub open spec fn onboard_event_fits(phase: OnboardPhase, event: OnboardEvent) -> bool {
    let uploading = phase is UploadConfig || phase is UploadService;
    ||| event is Failed
    ||| (uploading && event is Uploaded)
    ||| (!uploading && event is Ran)
}

/// How many more actions a phase may lead to, itself included.
pub open spec fn actions_left(phase: OnboardPhase) -> nat {
    match phase {
        OnboardPhase::DetectArch => 11,
        OnboardPhase::MakeConfigDir { .. } => 10,
        OnboardPhase::UploadConfig { .. } => 9,
        OnboardPhase::MoveConfig { .. } => 8,
        OnboardPhase::Download => 7,
        OnboardPhase::Chmod => 6,
        OnboardPhase::UploadService { .. } => 5,
        OnboardPhase::MoveService => 4,
        OnboardPhase::Reload => 3,
        OnboardPhase::Enable => 2,
        OnboardPhase::Restart => 1,
    }
}

/// Starts an installation once the SSH session is authenticated: the
/// architecture is detected first.
pub fn begin_onboarding(settings: OnboardSettings) -> (r: (Onboarding, OnboardAction))
    ensures
        r.0.settings == settings,
        r.0.phase == OnboardPhase::DetectArch,
        runs(r.1, "uname -m"@),
        !(r.1 is Upload),
{
    (Onboarding { settings, phase: OnboardPhase::DetectArch }, OnboardAction::Run(owned("uname -m")))
}

impl OnboardPhase {
    /// Whether this phase waits for an upload.
    pub fn is_upload(&self) -> (r: bool)
        ensures
            r == (*self is UploadConfig || *self is UploadService),
    {
        match self {
            OnboardPhase::UploadConfig { .. } => true,
            OnboardPhase::UploadService { .. } => true,
            _ => false,
        }
    }
}

fn next(settings: OnboardSettings, phase: OnboardPhase, action: OnboardAction) -> (r: OnboardStep)
    ensures
        r == OnboardStep::Next(Onboarding { settings, phase }, action),
{
    OnboardStep::Next(Onboarding { settings, phase }, action)
}

impl Onboarding {
    /// Advances the installation with what happened to the last action.
    pub fn step(self, event: OnboardEvent) -> (out: OnboardStep)
        requires
            onboard_event_fits(self.phase, event),
        ensures
            spec_onboard_step(self, event, out),
            out matches OnboardStep::Next(n, _) ==> actions_left(n.phase) < actions_left(self.phase),
            out matches OnboardStep::Next(n, a) ==> ((a is Upload) == (n.phase is UploadConfig
                || n.phase is UploadService)),
    {
        let settings = self.settings;
        match event {
            OnboardEvent::Failed(e) => OnboardStep::Done(Err(e)),
            OnboardEvent::Uploaded => match self.phase {
                OnboardPhase::UploadConfig { arch, tmp_path } => {
                    let cmd = move_command(tmp_path.as_str(), "/etc/dockup-agent/config.toml");
                    next(settings, OnboardPhase::MoveConfig { arch }, OnboardAction::Run(cmd))
                },
                OnboardPhase::UploadService { tmp_path } => {
                    let cmd = move_command(
                        tmp_path.as_str(),
                        "/etc/systemd/system/dockup-agent.service",
                    );
                    next(settings, OnboardPhase::MoveService, OnboardAction::Run(cmd))
                },
                _ => OnboardStep::Done(Ok(())),
            },
            OnboardEvent::Ran(output) => match self.phase {
                OnboardPhase::DetectArch => {
                    let arch = trim_whitespace(output.as_str());
                    match binary_arch(arch.as_str()) {
                        Some(b) => next(
                            settings,
                            OnboardPhase::MakeConfigDir { arch: b },
                            OnboardAction::Run(owned("sudo mkdir -p /etc/dockup-agent")),
                        ),
                        None => OnboardStep::Done(Err(OnboardError::UnsupportedArch(arch))),
                    }
                },
                OnboardPhase::MakeConfigDir { arch } => {
                    let content = agent_config(&settings);
                    let tmp = tmp_path();
                    let action = OnboardAction::Upload { path: tmp.clone(), content };
                    next(settings, OnboardPhase::UploadConfig { arch, tmp_path: tmp }, action)
                },
                OnboardPhase::MoveConfig { arch } => {
                    let cmd = download_command(arch.as_str());
                    next(settings, OnboardPhase::Download, OnboardAction::Run(cmd))
                },
                OnboardPhase::Download => next(
                    settings,
                    OnboardPhase::Chmod,
                    OnboardAction::Run(owned("sudo chmod +x /usr/local/bin/dockup-agent")),
                ),
                OnboardPhase::Chmod => {
                    let tmp = tmp_path();
                    let action = OnboardAction::Upload { path: tmp.clone(), content: service_unit_text() };
                    next(settings, OnboardPhase::UploadService { tmp_path: tmp }, action)
                },
                OnboardPhase::MoveService => next(
                    settings,
                    OnboardPhase::Reload,
                    OnboardAction::Run(owned("sudo systemctl daemon-reload")),
                ),
                OnboardPhase::Reload => next(
                    settings,
                    OnboardPhase::Enable,
                    OnboardAction::Run(owned("sudo systemctl enable dockup-agent")),
                ),
                OnboardPhase::Enable => next(
                    settings,
                    OnboardPhase::Restart,
                    OnboardAction::Run(owned("sudo systemctl restart dockup-agent")),
                ),
                OnboardPhase::Restart => OnboardStep::Done(Ok(())),
                _ => OnboardStep::Done(Ok(())),
            },
        }
    }
}

/// An installation ends after at most eleven actions: every step moves it
/// strictly forward, and a failure ends it with that failure.
pub proof fn law_onboarding_ends(s: Onboarding, event: OnboardEvent, out: OnboardStep)
    requires
        onboard_event_fits(s.phase, event),
        spec_onboard_step(s, event, out),
    ensures
        actions_left(s.phase) <= 11,
        out matches OnboardStep::Next(n, _) ==> actions_left(n.phase) < actions_left(s.phase),
        event matches OnboardEvent::Failed(e) ==> out == OnboardStep::Done(Err(e)),
{
}

/// Once the configuration is in place, the next action downloads the build
/// the phase holds: a command that ends with `dockup-agent-BUILD'`.
pub proof fn law_download_follows_detected_build(s: Onboarding, output: String, out: OnboardStep)
    requires
        s.phase is MoveConfig,
        spec_onboard_step(s, OnboardEvent::Ran(output), out),
    ensures
        out matches OnboardStep::Next(n, OnboardAction::Run(cmd)) && ends_with(
            cmd@,
            "dockup-agent-"@ + s.phase->MoveConfig_arch@ + "'"@,
        ),
{
    law_download_names_the_build(s.phase->MoveConfig_arch@);
}

/// The configuration names the compose file exactly when one was given.
pub proof fn law_config_names_compose_file(settings: OnboardSettings)
    ensures
        settings.compose_file_path is None ==> spec_agent_config(settings) == "server_url = \""@
            + settings.public_api_url@ + "\"\nclient_id = \""@ + settings.client_id@
            + "\"\njwt_token = \""@ + settings.jwt@ + "\"\nagent_update_mode = \""@
            + settings.agent_update_mode@ + "\"\n"@,
{
    let head = "server_url = \""@ + settings.public_api_url@ + "\"\nclient_id = \""@
        + settings.client_id@ + "\"\njwt_token = \""@ + settings.jwt@ + "\"\nagent_update_mode = \""@
        + settings.agent_update_mode@ + "\"\n"@;
    assert(head + Seq::<char>::empty() =~= head);
}

// ---------------------------------------------------------------- after the installation

/// How many times, a second apart, the endpoint looks for the new agent's
/// connection before answering anyway.
pub const CONNECT_POLL_ATTEMPTS: u32 = 30;

/// A fresh identifier for a new client.
pub fn new_client_id() -> (id: String)
    ensures
        is_hyphenated_uuid(id@),
{
    new_uuid()
}

/// The record of a newly installed host: the request's name, host, color,
/// compose file and update mode; not yet connected, no agent version known,
/// created at `now`.
pub open spec fn spec_new_client(id: String, request: OnboardClientRequest, now: String) -> Client {
    Client {
        id,
        name: request.name,
        host: request.host,
        color: request.color,
        compose_file_path: request.compose_file_path,
        agent_version: None,
        agent_update_mode: request.agent_update_mode,
        last_seen: None,
        connected: false,
        created_at: now,
    }
}

/// Builds the record of a newly installed host.
pub fn new_client_record(id: String, request: &OnboardClientRequest, now: String) -> (c: Client)
    ensures
        c == spec_new_client(id, *request, now),
{
    Client {
        id,
        name: request.name.clone(),
        host: request.host.clone(),
        color: request.color.clone(),
        compose_file_path: copy_opt(&request.compose_file_path),
        agent_version: None,
        agent_update_mode: request.agent_update_mode.clone(),
        last_seen: None,
        connected: false,
        created_at: now,
    }
}

/// Builds the record of a newly installed host, created now: the creation
/// time is read from the clock and written in RFC 3339 form.
pub fn new_client_record_now(id: String, request: &OnboardClientRequest) -> (c: Client)
    ensures
        c == spec_new_client(id, *request, c.created_at),
        is_rfc3339_utc(c.created_at@),
{
    let now = now_rfc3339();
    new_client_record(id, request, now)
}

/// The settings of the installation for a request, the API's public URL, a
/// client id and a token.
pub open spec fn spec_settings(
    request: OnboardClientRequest,
    public_api_url: Seq<char>,
    client_id: Seq<char>,
    jwt: Seq<char>,
    s: OnboardSettings,
) -> bool {
    &&& s.public_api_url@ == public_api_url
    &&& s.client_id@ == client_id
    &&& s.jwt@ == jwt
    &&& s.agent_update_mode == request.agent_update_mode
    &&& s.compose_file_path == request.compose_file_path
}

/// Builds the settings of the installation.
pub fn settings_for(request: &OnboardClientRequest, public_api_url: &str, client_id: &str, jwt: &str) -> (s: OnboardSettings)
    ensures
        spec_settings(*request, public_api_url@, client_id@, jwt@, s),
{
    OnboardSettings {
        public_api_url: owned(public_api_url),
        client_id: owned(client_id),
        jwt: owned(jwt),
        agent_update_mode: request.agent_update_mode.clone(),
        compose_file_path: copy_opt(&request.compose_file_path),
    }
}

/// SSH credentials are used only to log in: two requests that differ only in
/// them give the same client record, and installation settings whose agent
/// configuration file is the same.
pub proof fn law_credentials_not_kept(
    a: OnboardClientRequest,
    b: OnboardClientRequest,
    id: String,
    now: String,
    url: Seq<char>,
    client_id: Seq<char>,
    jwt: Seq<char>,
    sa: OnboardSettings,
    sb: OnboardSettings,
)
    requires
        a.name == b.name,
        a.host == b.host,
        a.color == b.color,
        a.compose_file_path == b.compose_file_path,
        a.agent_update_mode == b.agent_update_mode,
        spec_settings(a, url, client_id, jwt, sa),
        spec_settings(b, url, client_id, jwt, sb),
    ensures
        spec_new_client(id, a, now) == spec_new_client(id, b, now),
        spec_agent_config(sa) == spec_agent_config(sb),
{
}

/// Whether a poll found the new agent connected.
pub fn agent_has_connected(found: &Result<Option<Client>, String>) -> (r: bool)
    ensures
        r == (found matches Ok(Some(c)) && c.connected),
{
    match found {
        Ok(Some(c)) => c.connected,
        _ => false,
    }
}

/// The answer when the installation failed: 500 with the failure's text.
pub fn installation_failed_answer(failure: &str) -> (r: (u16, ApiError))
    ensures
        r.0 == 500,
        r.1.error@ == "SSH onboarding failed: "@ + failure@,
{
    let mut text = owned("SSH onboarding failed: ");
    text.append(failure);
    (500, ApiError { error: text })
}

/// The answer when the installation task itself broke down.
pub fn installation_crashed_answer() -> (r: (u16, ApiError))
    ensures
        r.0 == 500,
        r.1.error@ == "Internal error during onboarding"@,
{
    (500, ApiError { error: owned("Internal error during onboarding") })
}

/// The final answer from the client record read back: the client, or 500
/// when it is missing or the store failed.
pub fn onboarded_answer(found: Result<Option<Client>, String>) -> (r: Result<Client, (u16, ApiError)>)
    ensures
        match found {
            Ok(Some(c)) => r == Ok::<Client, (u16, ApiError)>(c),
            Ok(None) => r matches Err((status, body)) && status == 500 && body.error@
                == "Client record not found after insert"@,
            Err(e) => r matches Err((status, body)) && status == 500 && body.error == e,
        },
{
    match found {
        Ok(Some(c)) => Ok(c),
        Ok(None) => Err((500, ApiError { error: owned("Client record not found after insert") })),
        Err(e) => Err((500, ApiError { error: e })),
    }
}

} // verus!
