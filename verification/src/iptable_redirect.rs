//! The firewall rules that redirect traffic for the host endpoints to the local proxy.
//!
//! Every rule sends the TCP traffic for one endpoint to the proxy on the loopback address, unless
//! it comes from the group that the agent itself runs in. Running a command and setting the group
//! are left to the caller: it performs the pending step and hands back what came of it.

use vstd::prelude::*;

use crate::text::{signed_text, unsigned_text};

verus! {

/// The effective group of the agent, whose own traffic is not redirected.
pub const EGID: u32 = 3080;

/// The exit code that stands for a command that gave none.
pub const DEFAULT_ERROR_CODE: i32 = -1;

/// An address and a port on the host.
pub struct Endpoint {
    pub ip: String,
    pub port: u16,
}

/// The endpoints whose traffic is redirected.
pub struct RedirectTargets {
    pub wire_server: Endpoint,
    pub imds: Endpoint,
    pub ga_plugin: Endpoint,
}

/// Which endpoint a rule is for. The rules are configured in this order.
#[derive(Clone, Copy, Debug, PartialEq, Eq, Structural)]
pub enum Target {
    WireServer,
    Imds,
    GaPlugin,
}

/// A command to run, and the exit code to report where it could not be run.
pub struct Command {
    pub program: String,
    pub args: Vec<String>,
    pub default_error_code: i32,
}

/// What came of a command: its exit code and the two texts that it gave.
pub struct CommandOutput {
    pub code: i32,
    pub output: String,
    pub error: String,
}

/// What to do with the report on a command.
pub enum FirewallReport<S> {
    /// Write it to the log.
    Information(S),
    /// Make it the error status of the redirector.
    ErrorStatus(S),
}

impl View for FirewallReport<String> {
    type V = FirewallReport<Seq<char>>;

    open spec fn view(&self) -> FirewallReport<Seq<char>> {
        match self {
            FirewallReport::Information(message) => FirewallReport::Information(message@),
            FirewallReport::ErrorStatus(message) => FirewallReport::ErrorStatus(message@),
        }
    }
}

/// The outcome of configuring one rule.
pub struct Redirection {
    pub configured: bool,
    pub report: FirewallReport<String>,
}

/// What setting up waits for.
#[derive(Clone, Copy, Debug, PartialEq, Eq, Structural)]
pub enum SetupStep {
    /// The effective group of the process is to be set to `EGID`.
    SetGroup,
    /// The rule for this target is to be added.
    Configure(Target),
    /// Nothing more is to be done; `redirected` is the result.
    Finished { redirected: bool },
}

/// What cleaning up waits for.
#[derive(Clone, Copy, Debug, PartialEq, Eq, Structural)]
pub enum CleanupStep {
    /// A rule for this target is to be removed.
    Remove(Target),
    /// Nothing more is to be done.
    Finished,
}

impl RedirectTargets {
    pub open spec fn spec_endpoint(&self, target: Target) -> &Endpoint {
        match target {
            Target::WireServer => &self.wire_server,
            Target::Imds => &self.imds,
            Target::GaPlugin => &self.ga_plugin,
        }
    }

    /// The endpoint of a target.
    pub fn endpoint(&self, target: Target) -> (endpoint: &Endpoint)
        ensures
            endpoint == self.spec_endpoint(target),
    {
        match target {
            Target::WireServer => &self.wire_server,
            Target::Imds => &self.imds,
            Target::GaPlugin => &self.ga_plugin,
        }
    }
}

/// The flag that adds a rule or deletes one.
pub open spec fn table_flag(enable: bool) -> Seq<char> {
    if enable {
        "-A"@
    } else {
        "-D"@
    }
}

/// The local end of a redirection.
pub open spec fn local_endpoint(local_port: Seq<char>) -> Seq<char> {
    "127.0.0.1:"@ + local_port
}

/// The arguments that add or delete the rule which redirects `dest_ip`:`dest_port` to the local
/// port for every group but `exclude_gid`.
pub open spec fn spec_redirection_args(
    dest_ip: Seq<char>,
    dest_port: Seq<char>,
    local_port: Seq<char>,
    enable: bool,
    exclude_gid: Seq<char>,
) -> Seq<Seq<char>> {
    seq![
        "-t"@,
        "nat"@,
        table_flag(enable),
        "OUTPUT"@,
        "-p"@,
        "tcp"@,
        "-d"@,
        dest_ip,
        "--dport"@,
        dest_port,
        "-m"@,
        "owner"@,
        "!"@,
        "--gid-owner"@,
        exclude_gid,
        "-j"@,
        "DNAT"@,
        "--to-destination"@,
        local_endpoint(local_port),
    ]
}

/// The report on a command that configured one rule.
pub open spec fn redirection_message(
    dest_ip: Seq<char>,
    dest_port: Seq<char>,
    local_port: Seq<char>,
    enable: bool,
    output: CommandOutput,
) -> Seq<char> {
    "config_one_firewall_redirection: "@ + table_flag(enable) + " redirect "@ + dest_ip + ":"@
        + dest_port + " to "@ + local_endpoint(local_port) + " result: '"@
        + crate::text::decimal_int(output.code as int) + "'-'"@ + output.output@ + "'-'"@
        + output.error@ + "'."@
}

/// The outcome of a command that configured one rule: it succeeded if and only if its exit code is
/// zero, and only a rule that could not be added is an error.
pub open spec fn redirection_report(
    dest_ip: Seq<char>,
    dest_port: Seq<char>,
    local_port: Seq<char>,
    enable: bool,
    output: CommandOutput,
) -> FirewallReport<Seq<char>> {
    let message = redirection_message(dest_ip, dest_port, local_port, enable, output);
    if enable && output.code != 0 {
        FirewallReport::ErrorStatus(message)
    } else {
        FirewallReport::Information(message)
    }
}

fn table_flag_text(enable: bool) -> (flag: &'static str)
    ensures
        flag@ == table_flag(enable),
{
    if enable {
        "-A"
    } else {
        "-D"
    }
}

/// The arguments of the command that adds or deletes one rule.
pub fn redirection_args(
    dest_ip: &str,
    dest_port: &str,
    local_port: &str,
    enable: bool,
    exclude_gid: &str,
) -> (args: Vec<String>)
    ensures
        args.deep_view() == spec_redirection_args(
            dest_ip@,
            dest_port@,
            local_port@,
            enable,
            exclude_gid@,
        ),
{
    let iptable_cmd: &str = table_flag_text(enable);
    let local = "127.0.0.1:".to_owned().concat(local_port);
    let args: Vec<String> = vec![
        "-t".to_owned(),
        "nat".to_owned(),
        iptable_cmd.to_owned(),
        "OUTPUT".to_owned(),
        "-p".to_owned(),
        "tcp".to_owned(),
        "-d".to_owned(),
        dest_ip.to_owned(),
        "--dport".to_owned(),
        dest_port.to_owned(),
        "-m".to_owned(),
        "owner".to_owned(),
        "!".to_owned(),
        "--gid-owner".to_owned(),
        exclude_gid.to_owned(),
        "-j".to_owned(),
        "DNAT".to_owned(),
        "--to-destination".to_owned(),
        local,
    ];
    assert(args.deep_view() =~= spec_redirection_args(
        dest_ip@,
        dest_port@,
        local_port@,
        enable,
        exclude_gid@,
    ));
    args
}

/// Judges what the command for one rule gave.
pub fn config_one_firewall_redirection(
    dest_ip: &str,
    dest_port: &str,
    local_port: &str,
    enable: bool,
    output: &CommandOutput,
) -> (redirection: Redirection)
    ensures
        redirection.configured == (output.code == 0),
        redirection.report@ == redirection_report(
            dest_ip@,
            dest_port@,
            local_port@,
            enable,
            *output,
        ),
{
    let message = "config_one_firewall_redirection: ".to_owned().concat(
        table_flag_text(enable),
    ).concat(" redirect ").concat(dest_ip).concat(":").concat(dest_port).concat(" to ").concat(
        "127.0.0.1:".to_owned().concat(local_port).as_str(),
    ).concat(" result: '").concat(signed_text(output.code).as_str()).concat("'-'").concat(
        output.output.as_str(),
    ).concat("'-'").concat(output.error.as_str()).concat("'.");
    if enable && output.code != 0 {
        return Redirection { configured: false, report: FirewallReport::ErrorStatus(message) };
    }
    Redirection { configured: output.code == 0, report: FirewallReport::Information(message) }
}

/// The command that adds the rule for a target, or deletes one.
pub fn redirection_command(
    targets: &RedirectTargets,
    target: Target,
    local_port: u16,
    enable: bool,
) -> (command: Command)
    ensures
        command.program@ == "iptables"@,
        command.args.deep_view() == target_args(*targets, target, local_port, enable),
        command.default_error_code == DEFAULT_ERROR_CODE,
{
    let endpoint = targets.endpoint(target);
    Command {
        program: "iptables".to_owned(),
        args: redirection_args(
            endpoint.ip.as_str(),
            unsigned_text(endpoint.port as u128).as_str(),
            unsigned_text(local_port as u128).as_str(),
            enable,
            unsigned_text(EGID as u128).as_str(),
        ),
        default_error_code: DEFAULT_ERROR_CODE,
    }
}

/// The arguments that add or delete the rule for a target.
pub open spec fn target_args(
    targets: RedirectTargets,
    target: Target,
    local_port: u16,
    enable: bool,
) -> Seq<Seq<char>> {
    spec_redirection_args(
        targets.spec_endpoint(target).ip@,
        crate::text::decimal(targets.spec_endpoint(target).port as nat),
        crate::text::decimal(local_port as nat),
        enable,
        crate::text::decimal(EGID as nat),
    )
}

/// The report on a command for a target.
pub open spec fn target_report(
    targets: RedirectTargets,
    target: Target,
    local_port: u16,
    enable: bool,
    output: CommandOutput,
) -> FirewallReport<Seq<char>> {
    redirection_report(
        targets.spec_endpoint(target).ip@,
        crate::text::decimal(targets.spec_endpoint(target).port as nat),
        crate::text::decimal(local_port as nat),
        enable,
        output,
    )
}

fn configured_target(
    targets: &RedirectTargets,
    target: Target,
    local_port: u16,
    enable: bool,
    output: &CommandOutput,
) -> (redirection: Redirection)
    ensures
        redirection.configured == (output.code == 0),
        redirection.report@ == target_report(*targets, target, local_port, enable, *output),
{
    let endpoint = targets.endpoint(target);
    config_one_firewall_redirection(
        endpoint.ip.as_str(),
        unsigned_text(endpoint.port as u128).as_str(),
        unsigned_text(local_port as u128).as_str(),
        enable,
        output,
    )
}

/// The target whose rule is configured after that of `target`.
pub open spec fn following(target: Target) -> Option<Target> {
    match target {
        Target::WireServer => Some(Target::Imds),
        Target::Imds => Some(Target::GaPlugin),
        Target::GaPlugin => None,
    }
}

fn next_target(target: Target) -> (next: Option<Target>)
    ensures
        next == following(target),
{
    match target {
        Target::WireServer => Some(Target::Imds),
        Target::Imds => Some(Target::GaPlugin),
        Target::GaPlugin => None,
    }
}

/// How setting up goes on after the command for `target` has ended with `code`: a failure ends it,
/// a success goes on to the next rule.
pub open spec fn setup_next(target: Target, code: i32) -> SetupStep {
    if code != 0 {
        SetupStep::Finished { redirected: false }
    } else {
        match following(target) {
            Some(next) => SetupStep::Configure(next),
            None => SetupStep::Finished { redirected: true },
        }
    }
}

/// How cleaning up goes on after the command for `target` has ended with `code`: the rule is
/// removed again until that fails, then the next one.
pub open spec fn cleanup_next(target: Target, code: i32) -> CleanupStep {
    if code == 0 {
        CleanupStep::Remove(target)
    } else {
        match following(target) {
            Some(next) => CleanupStep::Remove(next),
            None => CleanupStep::Finished,
        }
    }
}

/// The first step of setting up.
pub fn begin_setup() -> (step: SetupStep)
    ensures
        step == SetupStep::SetGroup,
{
    SetupStep::SetGroup
}

/// The first step of cleaning up.
pub fn begin_cleanup() -> (step: CleanupStep)
    ensures
        step == CleanupStep::Remove(Target::WireServer),
{
    CleanupStep::Remove(Target::WireServer)
}

/// How setting up goes on after the group was to be set: the rules follow whatever the result, and
/// the result is reported.
pub fn group_set(result: i32) -> (next: (SetupStep, FirewallReport<String>))
    ensures
        next.0 == SetupStep::Configure(Target::WireServer),
        next.1@ == FirewallReport::Information(
            "libc::setegid gid '"@ + crate::text::decimal(EGID as nat) + "' with result '"@
                + crate::text::decimal_int(result as int) + "'"@,
        ),
{
    let message = "libc::setegid gid '".to_owned().concat(
        unsigned_text(EGID as u128).as_str(),
    ).concat("' with result '").concat(signed_text(result).as_str()).concat("'");
    (SetupStep::Configure(Target::WireServer), FirewallReport::Information(message))
}

/// One step of setting up the redirection to `local_port`: what the command that adds the rule for
/// `target` gave decides whether to go on, and is reported.
pub fn setup_firewall_redirection(
    targets: &RedirectTargets,
    local_port: u16,
    target: Target,
    output: &CommandOutput,
) -> (next: (SetupStep, FirewallReport<String>))
    ensures
        next.0 == setup_next(target, output.code),
        next.1@ == target_report(*targets, target, local_port, true, *output),
{
    let redirection = configured_target(targets, target, local_port, true, output);
    let next = if !redirection.configured {
        SetupStep::Finished { redirected: false }
    } else {
        match next_target(target) {
            Some(following) => SetupStep::Configure(following),
            None => SetupStep::Finished { redirected: true },
        }
    };
    (next, redirection.report)
}

/// One step of cleaning up the redirection to `local_port`: what the command that removes the rule
/// for `target` gave decides whether to remove it once more, and is reported.
pub fn cleanup_firewall_redirection(
    targets: &RedirectTargets,
    local_port: u16,
    target: Target,
    output: &CommandOutput,
) -> (next: (CleanupStep, FirewallReport<String>))
    ensures
        next.0 == cleanup_next(target, output.code),
        next.1@ == target_report(*targets, target, local_port, false, *output),
{
    let redirection = configured_target(targets, target, local_port, false, output);
    let next = if redirection.configured {
        CleanupStep::Remove(target)
    } else {
        match next_target(target) {
            Some(following) => CleanupStep::Remove(following),
            None => CleanupStep::Finished,
        }
    };
    (next, redirection.report)
}

} // verus!
