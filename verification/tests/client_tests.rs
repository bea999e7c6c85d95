use ssh_probe::client::{SSHClient, TargetError, DEFAULT_PORT, DEFAULT_TIMEOUT_SECS};
use ssh_probe::decimal::render_decimal;
use ssh_probe::outcome::{
    CommandOutcome, ConnectAttempt, FailureKind, FaultKind, ProbeResult, ProcessExit,
    UnreachableReason,
};

#[test]
fn decimal_of_single_digits() {
    assert_eq!(render_decimal(0), "0");
    assert_eq!(render_decimal(7), "7");
    assert_eq!(render_decimal(9), "9");
}

#[test]
fn decimal_of_longer_numbers() {
    assert_eq!(render_decimal(10), "10");
    assert_eq!(render_decimal(22), "22");
    assert_eq!(render_decimal(100), "100");
    assert_eq!(render_decimal(65535), "65535");
    assert_eq!(render_decimal(1234567890), "1234567890");
}

#[test]
fn decimal_of_the_largest_number() {
    assert_eq!(render_decimal(u64::MAX), "18446744073709551615");
}

#[test]
fn decimal_agrees_with_the_standard_library() {
    let mut n: u64 = 0;
    while n < 70000 {
        assert_eq!(render_decimal(n), n.to_string());
        n += 1;
    }
}

#[test]
fn defaults_are_port_22_and_five_seconds() {
    assert_eq!(DEFAULT_PORT, 22);
    assert_eq!(DEFAULT_TIMEOUT_SECS, 5);
}

#[test]
fn new_keeps_its_arguments_and_takes_the_default_port() {
    let client = SSHClient::new("alice", "example.org", "hunter2");
    assert_eq!(client.user(), "alice");
    assert_eq!(client.host(), "example.org");
    assert_eq!(client.port(), 22);
    assert!(client.is_valid());
    assert_eq!(client.address(), "example.org:22");
}

#[test]
fn new_with_an_empty_host_is_not_valid() {
    let client = SSHClient::new("alice", "", "hunter2");
    assert!(!client.is_valid());
    assert_eq!(client.address(), ":22");
}

#[test]
fn with_port_makes_a_valid_target() {
    let client = match SSHClient::with_port("u", "127.0.0.1", "p", 9) {
        Ok(client) => client,
        Err(_) => panic!("a host and a port were given"),
    };
    assert!(client.is_valid());
    assert_eq!(client.user(), "u");
    assert_eq!(client.host(), "127.0.0.1");
    assert_eq!(client.port(), 9);
    assert_eq!(client.address(), "127.0.0.1:9");
}

#[test]
fn with_port_takes_the_largest_port() {
    let client = match SSHClient::with_port("u", "h", "p", 65535) {
        Ok(client) => client,
        Err(_) => panic!("a host and a port were given"),
    };
    assert_eq!(client.address(), "h:65535");
}

#[test]
fn with_port_turns_down_an_empty_host() {
    assert!(matches!(SSHClient::with_port("u", "", "p", 22), Err(TargetError::EmptyHost)));
}

#[test]
fn with_port_turns_down_port_zero() {
    assert!(matches!(SSHClient::with_port("u", "h", "p", 0), Err(TargetError::ZeroPort)));
}

#[test]
fn with_port_names_the_empty_host_first() {
    assert!(matches!(SSHClient::with_port("u", "", "p", 0), Err(TargetError::EmptyHost)));
}

#[test]
fn connect_request_defaults_to_five_seconds() {
    let client = SSHClient::new("u", "192.0.2.1", "p");
    let request = client.connect_request(None);
    assert_eq!(request.address, "192.0.2.1:22");
    assert_eq!(request.timeout_secs, 5);
}

#[test]
fn connect_request_keeps_a_given_timeout() {
    let client = SSHClient::new("u", "192.0.2.1", "p");
    assert_eq!(client.connect_request(Some(30)).timeout_secs, 30);
    assert_eq!(client.connect_request(Some(0)).timeout_secs, 0);
    assert_eq!(client.connect_request(Some(u64::MAX)).timeout_secs, u64::MAX);
}

#[test]
fn connect_request_holds_neither_user_nor_password() {
    let one = SSHClient::new("alice", "example.org", "hunter2");
    let other = SSHClient::new("bob", "example.org", "correct horse");
    assert_eq!(one.connect_request(Some(3)), other.connect_request(Some(3)));
}

#[test]
fn an_established_connection_is_reachable() {
    let client = SSHClient::new("u", "127.0.0.1", "p");
    let result = client.check_connection(ConnectAttempt::Connected);
    assert_eq!(result, ProbeResult::Reachable);
    assert!(result.is_reachable());
}

#[test]
fn a_refusal_is_unreachable_refused() {
    let client = SSHClient::new("u", "127.0.0.1", "p");
    let result = client.check_connection(ConnectAttempt::Refused);
    assert_eq!(result, ProbeResult::Unreachable { reason: UnreachableReason::Refused });
    assert!(!result.is_reachable());
}

#[test]
fn a_timeout_is_unreachable_timed_out() {
    let client = SSHClient::new("u", "10.255.255.1", "p");
    let result = client.check_connection(ConnectAttempt::TimedOut);
    assert_eq!(result, ProbeResult::Unreachable { reason: UnreachableReason::TimedOut });
    assert!(!result.is_reachable());
}

#[test]
fn another_transport_failure_is_an_error_with_its_detail() {
    let client = SSHClient::new("u", "127.0.0.1", "p");
    let result = client.check_connection(ConnectAttempt::Failed {
        detail: String::from("permission denied"),
    });
    assert_eq!(
        result,
        ProbeResult::Error { kind: FaultKind::Transport, detail: String::from("permission denied") }
    );
    assert!(!result.is_reachable());
}

#[test]
fn discard_port_is_unreachable_either_way() {
    let client = match SSHClient::with_port("u", "127.0.0.1", "p", 9) {
        Ok(client) => client,
        Err(_) => panic!("a host and a port were given"),
    };
    assert_eq!(client.connect_request(None).address, "127.0.0.1:9");
    for attempt in [ConnectAttempt::Refused, ConnectAttempt::TimedOut] {
        let result = client.check_connection(attempt);
        assert!(matches!(result, ProbeResult::Unreachable { .. }));
        assert_ne!(result, ProbeResult::Reachable);
        assert!(!matches!(result, ProbeResult::Error { .. }));
    }
}

#[test]
fn unresolvable_host_is_an_address_resolution_error() {
    let client = SSHClient::new("u", "no-such-host.invalid", "p");
    assert_eq!(client.connect_request(None).address, "no-such-host.invalid:22");
    let result = client.check_connection(ConnectAttempt::ResolutionFailed {
        detail: String::from("failed to lookup address information"),
    });
    assert_eq!(
        result,
        ProbeResult::Error {
            kind: FaultKind::AddressResolution,
            detail: String::from("failed to lookup address information"),
        }
    );
}

#[test]
fn command_request_lists_each_part_as_one_argument() {
    let client = SSHClient::new("alice", "example.org", "hunter2");
    let request = client.command_request("echo hello", 60);
    assert_eq!(request.program, "sshpass");
    assert_eq!(
        request.args,
        vec!["-e", "ssh", "-p", "22", "--", "alice@example.org", "echo hello"]
    );
    assert_eq!(request.credential_variable, "SSHPASS");
    assert_eq!(request.credential, "hunter2");
    assert_eq!(request.timeout_secs, 60);
}

#[test]
fn command_request_names_the_port_of_the_target() {
    let client = match SSHClient::with_port("root", "10.0.0.7", "pw", 2222) {
        Ok(client) => client,
        Err(_) => panic!("a host and a port were given"),
    };
    let request = client.command_request("uptime", 1);
    assert_eq!(request.args, vec!["-e", "ssh", "-p", "2222", "--", "root@10.0.0.7", "uptime"]);
}

#[test]
fn command_text_is_passed_on_unchanged() {
    let client = SSHClient::new("alice", "example.org", "hunter2");
    let command = "echo '$(id)'; cat /etc/passwd | head -1 && echo \"`whoami`\"";
    let request = client.command_request(command, 10);
    assert_eq!(request.args.len(), 7);
    assert_eq!(request.args[6], command);
}

#[test]
fn an_empty_command_is_still_one_argument() {
    let client = SSHClient::new("alice", "example.org", "hunter2");
    let request = client.command_request("", 10);
    assert_eq!(request.args.len(), 7);
    assert_eq!(request.args[6], "");
}

#[test]
fn password_is_in_no_argument() {
    let secret = "Tr0ub4dor&3'; echo leaked";
    let client = SSHClient::new("alice", "example.org", secret);
    let request = client.command_request("ls -la /srv", 10);
    assert!(!request.program.contains(secret));
    assert!(!request.credential_variable.contains(secret));
    for arg in request.args.iter() {
        assert!(!arg.contains(secret));
    }
    assert_eq!(request.credential, secret);
}

#[test]
fn arguments_do_not_change_with_the_password() {
    let one = SSHClient::new("alice", "example.org", "hunter2");
    let other = SSHClient::new("alice", "example.org", "another password");
    let first = one.command_request("ls", 10);
    let second = other.command_request("ls", 10);
    assert_eq!(first.program, second.program);
    assert_eq!(first.args, second.args);
    assert_eq!(first.credential_variable, second.credential_variable);
    assert_ne!(first.credential, second.credential);
}

#[test]
fn exit_code_zero_is_success_with_standard_output() {
    let client = SSHClient::new("alice", "example.org", "hunter2");
    let outcome = client.execute_command(ProcessExit::Exited {
        code: 0,
        stdout: String::from("hello\n"),
        stderr: String::from("warning: ignored\n"),
    });
    assert_eq!(outcome, CommandOutcome::Success { stdout: String::from("hello\n") });
    assert!(outcome.is_success());
}

#[test]
fn another_exit_code_is_failure_with_standard_error() {
    let client = SSHClient::new("alice", "example.org", "hunter2");
    for code in [1, 2, 127, 255, -1, i32::MIN, i32::MAX] {
        let outcome = client.execute_command(ProcessExit::Exited {
            code,
            stdout: String::from("partial"),
            stderr: String::from("ls: cannot access\n"),
        });
        assert_eq!(
            outcome,
            CommandOutcome::Failure {
                kind: FailureKind::RemoteCommand,
                stderr: String::from("ls: cannot access\n"),
            }
        );
        assert!(!outcome.is_success());
    }
}

#[test]
fn an_ending_without_exit_code_is_failure() {
    let client = SSHClient::new("alice", "example.org", "hunter2");
    let outcome = client.execute_command(ProcessExit::Terminated {
        stdout: String::from("out"),
        stderr: String::from("killed"),
    });
    assert_eq!(
        outcome,
        CommandOutcome::Failure { kind: FailureKind::RemoteCommand, stderr: String::from("killed") }
    );
}

#[test]
fn a_process_that_did_not_start_is_failure_with_the_reason() {
    let client = SSHClient::new("alice", "example.org", "hunter2");
    let outcome = client.execute_command(ProcessExit::SpawnFailed {
        detail: String::from("No such file or directory (os error 2)"),
    });
    assert_eq!(
        outcome,
        CommandOutcome::Failure {
            kind: FailureKind::Spawn,
            stderr: String::from("No such file or directory (os error 2)"),
        }
    );
}

#[test]
fn a_process_that_ran_out_of_time_is_failure() {
    let client = SSHClient::new("alice", "example.org", "hunter2");
    let outcome = client.execute_command(ProcessExit::TimedOut { stderr: String::from("") });
    assert_eq!(
        outcome,
        CommandOutcome::Failure { kind: FailureKind::TimedOut, stderr: String::from("") }
    );
    assert!(!outcome.is_success());
}

#[test]
fn address_splits_at_its_last_colon() {
    for (host, port) in [("::1", 22u16), ("example.org", 2222), ("a:1", 2), ("h", 65535)] {
        let client = match SSHClient::with_port("u", host, "p", port) {
            Ok(client) => client,
            Err(_) => panic!("a host and a port were given"),
        };
        let address = client.address();
        let (before, behind) = match address.rsplit_once(':') {
            Some(parts) => parts,
            None => panic!("an address holds a colon"),
        };
        assert_eq!(before, host);
        assert_eq!(behind.parse::<u16>(), Ok(port));
    }
}

#[test]
fn targets_that_differ_have_addresses_that_differ() {
    let one = SSHClient::with_port("u", "a:1", "p", 2).map(|client| client.address());
    let other = SSHClient::with_port("u", "a", "p", 12).map(|client| client.address());
    assert_eq!(one, Ok(String::from("a:1:2")));
    assert_eq!(other, Ok(String::from("a:12")));
    assert_ne!(one, other);
}
