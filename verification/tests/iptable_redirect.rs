use proxy_agent::iptable_redirect::{
    begin_cleanup, begin_setup, cleanup_firewall_redirection, config_one_firewall_redirection,
    group_set, redirection_args, redirection_command, setup_firewall_redirection, CleanupStep,
    CommandOutput, Endpoint, FirewallReport, RedirectTargets, SetupStep, Target,
};

fn targets() -> RedirectTargets {
    RedirectTargets {
        wire_server: Endpoint {
            ip: "10.0.0.1".to_string(),
            port: 80,
        },
        imds: Endpoint {
            ip: "10.0.0.2".to_string(),
            port: 81,
        },
        ga_plugin: Endpoint {
            ip: "10.0.0.3".to_string(),
            port: 32526,
        },
    }
}

fn output(code: i32) -> CommandOutput {
    CommandOutput {
        code,
        output: "out".to_string(),
        error: "err".to_string(),
    }
}

fn information(report: FirewallReport<String>) -> String {
    match report {
        FirewallReport::Information(message) => message,
        FirewallReport::ErrorStatus(message) => panic!("error status {}", message),
    }
}

fn error_status(report: FirewallReport<String>) -> String {
    match report {
        FirewallReport::ErrorStatus(message) => message,
        FirewallReport::Information(message) => panic!("information {}", message),
    }
}

#[test]
fn arguments_of_a_rule() {
    assert_eq!(
        redirection_args("1.2.3.4", "80", "3081", true, "3080").join(" "),
        "-t nat -A OUTPUT -p tcp -d 1.2.3.4 --dport 80 -m owner ! --gid-owner 3080 -j DNAT --to-destination 127.0.0.1:3081"
    );
}

#[test]
fn command_of_a_target() {
    let command = redirection_command(&targets(), Target::GaPlugin, 3081, true);
    assert_eq!(command.program, "iptables");
    assert_eq!(command.default_error_code, -1);
    assert_eq!(
        command.args.join(" "),
        "-t nat -A OUTPUT -p tcp -d 10.0.0.3 --dport 32526 -m owner ! --gid-owner 3080 -j DNAT --to-destination 127.0.0.1:3081"
    );
}

#[test]
fn cleanup_command_differs_in_the_flag() {
    for target in [Target::WireServer, Target::Imds, Target::GaPlugin] {
        let mut added = redirection_command(&targets(), target, 7, true).args;
        let deleted = redirection_command(&targets(), target, 7, false).args;
        assert_eq!(added[2], "-A");
        added[2] = "-D".to_string();
        assert_eq!(added, deleted);
    }
}

#[test]
fn outcomes_of_one_rule() {
    let added = config_one_firewall_redirection("1.2.3.4", "80", "3081", true, &output(0));
    assert!(added.configured);
    assert_eq!(
        information(added.report),
        "config_one_firewall_redirection: -A redirect 1.2.3.4:80 to 127.0.0.1:3081 result: '0'-'out'-'err'."
    );
    let failed = config_one_firewall_redirection("1.2.3.4", "80", "3081", true, &output(-1));
    assert!(!failed.configured);
    assert_eq!(
        error_status(failed.report),
        "config_one_firewall_redirection: -A redirect 1.2.3.4:80 to 127.0.0.1:3081 result: '-1'-'out'-'err'."
    );
    let deleted = config_one_firewall_redirection("1.2.3.4", "80", "3081", false, &output(0));
    assert!(deleted.configured);
    let gone = config_one_firewall_redirection("1.2.3.4", "80", "3081", false, &output(2));
    assert!(!gone.configured);
    assert_eq!(
        information(gone.report),
        "config_one_firewall_redirection: -D redirect 1.2.3.4:80 to 127.0.0.1:3081 result: '2'-'out'-'err'."
    );
}

fn run_setup(codes: &[i32]) -> SetupStep {
    assert_eq!(begin_setup(), SetupStep::SetGroup);
    let (mut step, report) = group_set(-1);
    assert_eq!(
        information(report),
        "libc::setegid gid '3080' with result '-1'"
    );
    for code in codes {
        if let SetupStep::Configure(target) = step {
            step = setup_firewall_redirection(&targets(), 3081, target, &output(*code)).0;
        }
    }
    step
}

#[test]
fn setup_needs_all_rules() {
    assert_eq!(run_setup(&[]), SetupStep::Configure(Target::WireServer));
    assert_eq!(run_setup(&[0]), SetupStep::Configure(Target::Imds));
    assert_eq!(run_setup(&[0, 0]), SetupStep::Configure(Target::GaPlugin));
    assert_eq!(
        run_setup(&[0, 0, 0]),
        SetupStep::Finished { redirected: true }
    );
    assert_eq!(run_setup(&[1]), SetupStep::Finished { redirected: false });
    assert_eq!(
        run_setup(&[0, 1, 0]),
        SetupStep::Finished { redirected: false }
    );
    assert_eq!(
        run_setup(&[0, 0, -1]),
        SetupStep::Finished { redirected: false }
    );
}

fn run_cleanup(codes: &[i32]) -> CleanupStep {
    let mut step = begin_cleanup();
    for code in codes {
        if let CleanupStep::Remove(target) = step {
            let (next, report) =
                cleanup_firewall_redirection(&targets(), 3081, target, &output(*code));
            assert!(information(report).contains(" -D redirect "));
            step = next;
        }
    }
    step
}

#[test]
fn cleanup_removes_until_nothing_is_left() {
    assert_eq!(run_cleanup(&[]), CleanupStep::Remove(Target::WireServer));
    assert_eq!(
        run_cleanup(&[0, 0]),
        CleanupStep::Remove(Target::WireServer)
    );
    assert_eq!(run_cleanup(&[0, 0, 1]), CleanupStep::Remove(Target::Imds));
    assert_eq!(
        run_cleanup(&[1, 0, 1, 0]),
        CleanupStep::Remove(Target::GaPlugin)
    );
    assert_eq!(run_cleanup(&[1, 1, 1]), CleanupStep::Finished);
    assert_eq!(run_cleanup(&[0, 1, 0, 1, 0, 1]), CleanupStep::Finished);
}

/// Runs a command on a table of rules, as the firewall would.
fn run_command(table: &mut Vec<Vec<String>>, args: Vec<String>) -> CommandOutput {
    let mut rule = args;
    let flag = rule.remove(2);
    if flag == "-A" {
        table.push(rule);
        return output(0);
    }
    match table.iter().position(|held| *held == rule) {
        Some(i) => {
            table.remove(i);
            output(0)
        }
        None => output(1),
    }
}

fn cleanup_table(table: &mut Vec<Vec<String>>, local_port: u16) -> usize {
    let mut commands = 0;
    let mut step = begin_cleanup();
    while let CleanupStep::Remove(target) = step {
        let args = redirection_command(&targets(), target, local_port, false).args;
        let output = run_command(table, args);
        step = cleanup_firewall_redirection(&targets(), local_port, target, &output).0;
        commands += 1;
    }
    commands
}

fn setup_table(table: &mut Vec<Vec<String>>, local_port: u16) {
    let mut step = group_set(0).0;
    while let SetupStep::Configure(target) = step {
        let args = redirection_command(&targets(), target, local_port, true).args;
        let output = run_command(table, args);
        step = setup_firewall_redirection(&targets(), local_port, target, &output).0;
    }
    assert_eq!(step, SetupStep::Finished { redirected: true });
}

#[test]
fn cleanup_clears_the_table_and_keeps_other_rules() {
    let mut table = vec![vec!["first".to_string()]];
    setup_table(&mut table, 3081);
    table.push(vec!["second".to_string()]);
    setup_table(&mut table, 4000);
    setup_table(&mut table, 3081);
    let mut expected = vec![vec!["first".to_string()], vec!["second".to_string()]];
    setup_table(&mut expected, 4000);
    assert_eq!(table.len(), 11);
    assert_eq!(cleanup_table(&mut table, 3081), 9);
    assert_eq!(table, expected);
    assert_eq!(cleanup_table(&mut table, 3081), 3);
    assert_eq!(table, expected);
}
