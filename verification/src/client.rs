//! The connection target and the two operations on it.

use vstd::prelude::*;
use crate::decimal::{
    decimal, decimal_value, is_digit, lemma_decimal_digits, lemma_decimal_value, render_decimal,
};
use crate::outcome::{
    command_outcome_of, probe_result_of, CommandOutcome, ConnectAttempt, FailureKind, FaultKind,
    ProbeResult, ProbeResultView, ProcessExit, UnreachableReason,
};
use crate::request::{CommandRequest, CommandRequestView, ConnectRequest, ConnectRequestView};

verus! {

/// The port that SSH listens on unless told otherwise.
pub const DEFAULT_PORT: u16 = 22;

/// The number of seconds allowed for a connection attempt when none is given.
pub const DEFAULT_TIMEOUT_SECS: u64 = 5;

/// Where and as whom to connect. The value is fixed once made.
pub struct SSHClient {
    host: String,
    port: u16,
    user: String,
    password: String,
}

/// A connection target, as contracts see it.
pub struct SSHClientView {
    pub host: Seq<char>,
    pub port: u16,
    pub user: Seq<char>,
    pub password: Seq<char>,
}

impl SSHClientView {
    /// A target names a host and a port that can be connected to: the host is
    /// not empty and the port is not zero.
    pub open spec fn is_valid(self) -> bool {
        self.host.len() > 0 && self.port >= 1
    }

    /// The host and the port joined by a colon, the port in base ten.
    pub open spec fn address(self) -> Seq<char> {
        self.host + seq![':'] + decimal(self.port as nat)
    }

    /// The user and the host joined by an at sign, as the SSH client takes them.
    pub open spec fn destination(self) -> Seq<char> {
        self.user + seq!['@'] + self.host
    }

    /// The connection attempt to make for this target.
    pub open spec fn connect_request(self, timeout_secs: Option<u64>) -> ConnectRequestView {
        ConnectRequestView {
            address: self.address(),
            timeout_secs: match timeout_secs {
                Some(secs) => secs,
                None => DEFAULT_TIMEOUT_SECS,
            },
        }
    }

    /// The arguments of the SSH client process for one command. None of them
    /// is made from the password.
    pub open spec fn command_args(self, command: Seq<char>) -> Seq<Seq<char>> {
        seq![
            "-e"@,
            "ssh"@,
            "-p"@,
            decimal(self.port as nat),
            "--"@,
            self.destination(),
            command,
        ]
    }

    /// The run of the SSH client process to make for one command.
    pub open spec fn command_request(self, command: Seq<char>, timeout_secs: u64)
        -> CommandRequestView {
        CommandRequestView {
            program: "sshpass"@,
            args: self.command_args(command),
            credential_variable: "SSHPASS"@,
            credential: self.password,
            timeout_secs,
        }
    }
}

/// Why a target could not be made.
#[derive(Clone, Copy, Debug, PartialEq, Eq, Structural)]
pub enum TargetError {
    /// The host is the empty string.
    EmptyHost,
    /// The port is zero.
    ZeroPort,
}

impl View for SSHClient {
    type V = SSHClientView;

    closed spec fn view(&self) -> SSHClientView {
        SSHClientView {
            host: self.host@,
            port: self.port,
            user: self.user@,
            password: self.password@,
        }
    }
}

impl SSHClient {
    /// A target on the default port. The host is taken as it is: the target is
    /// valid exactly if the host is not empty.
    pub fn new(user: &str, host: &str, password: &str) -> (client: Self)
        ensures
            client@ == (SSHClientView {
                host: host@,
                port: DEFAULT_PORT,
                user: user@,
                password: password@,
            }),
            client@.is_valid() <==> host@.len() > 0,
    {
        SSHClient {
            host: String::from_str(host),
            port: DEFAULT_PORT,
            user: String::from_str(user),
            password: String::from_str(password),
        }
    }

    /// A target on a port of the caller's choice. An empty host is turned down
    /// first, then port zero; every other target is made, and is valid.
    pub fn with_port(user: &str, host: &str, password: &str, port: u16) -> (made: Result<
        Self,
        TargetError,
    >)
        ensures
            host@.len() == 0 ==> made == Err::<Self, TargetError>(TargetError::EmptyHost),
            host@.len() > 0 && port == 0 ==> made == Err::<Self, TargetError>(
                TargetError::ZeroPort,
            ),
            host@.len() > 0 && port > 0 ==> made is Ok && made->Ok_0@ == (SSHClientView {
                host: host@,
                port,
                user: user@,
                password: password@,
            }) && made->Ok_0@.is_valid(),
    {
        if host.is_empty() {
            Err(TargetError::EmptyHost)
        } else if port == 0 {
            Err(TargetError::ZeroPort)
        } else {
            Ok(
                SSHClient {
                    host: String::from_str(host),
                    port,
                    user: String::from_str(user),
                    password: String::from_str(password),
                },
            )
        }
    }

    /// The host to connect to.
    pub fn host(&self) -> (host: &str)
        ensures
            host@ == self@.host,
    {
        self.host.as_str()
    }

    /// The port to connect to.
    pub fn port(&self) -> (port: u16)
        ensures
            port == self@.port,
    {
        self.port
    }

    /// The user to connect as.
    pub fn user(&self) -> (user: &str)
        ensures
            user@ == self@.user,
    {
        self.user.as_str()
    }

    /// Whether the target names a host and a port that can be connected to.
    pub fn is_valid(&self) -> (valid: bool)
        ensures
            valid == self@.is_valid(),
    {
        !self.host.as_str().is_empty() && self.port >= 1
    }

    /// The host and the port joined by a colon.
    pub fn address(&self) -> (address: String)
        ensures
            address@ == self@.address(),
    {
        proof {
            reveal_strlit(":");
        }
        let mut address: String = self.host.clone();
        address.append(":");
        let digits: String = render_decimal(self.port as u64);
        address.append(digits.as_str());
        assert(":"@ =~= seq![':']);
        address
    }

    /// The connection attempt that a reachability check of this target
    /// consists of: one attempt at the target's address, given up after
    /// `timeout_secs` seconds, or after the default where none is given.
    pub fn connect_request(&self, timeout_secs: Option<u64>) -> (request: ConnectRequest)
        ensures
            request@ == self@.connect_request(timeout_secs),
    {
        let timeout_secs: u64 = match timeout_secs {
            Some(secs) => secs,
            None => DEFAULT_TIMEOUT_SECS,
        };
        ConnectRequest { address: self.address(), timeout_secs }
    }

    /// The outcome of a reachability check, from what the connection attempt
    /// came to. An established connection gives `Reachable`, a refusal and a
    /// timeout give `Unreachable` with that reason, a failed resolution and any
    /// other failure give `Error` with the detail reported.
    pub fn check_connection(&self, attempt: ConnectAttempt) -> (result: ProbeResult)
        ensures
            result@ == probe_result_of(attempt@),
            attempt@ is Connected <==> result@ is Reachable,
            attempt@ is Refused <==> result@ == (ProbeResultView::Unreachable {
                reason: UnreachableReason::Refused,
            }),
            attempt@ is TimedOut <==> result@ == (ProbeResultView::Unreachable {
                reason: UnreachableReason::TimedOut,
            }),
    {
        match attempt {
            ConnectAttempt::ResolutionFailed { detail } => ProbeResult::Error {
                kind: FaultKind::AddressResolution,
                detail,
            },
            ConnectAttempt::Connected => ProbeResult::Reachable,
            ConnectAttempt::Refused => ProbeResult::Unreachable {
                reason: UnreachableReason::Refused,
            },
            ConnectAttempt::TimedOut => ProbeResult::Unreachable {
                reason: UnreachableReason::TimedOut,
            },
            ConnectAttempt::Failed { detail } => ProbeResult::Error {
                kind: FaultKind::Transport,
                detail,
            },
        }
    }

    /// The run of the SSH client process that executes `command` on the
    /// target. User, host, port and command are arguments of the process, each
    /// whole and unchanged; the password is none of them and goes by the
    /// environment. The process is stopped after `timeout_secs` seconds.
    pub fn command_request(&self, command: &str, timeout_secs: u64) -> (request: CommandRequest)
        ensures
            request@ == self@.command_request(command@, timeout_secs),
    {
        proof {
            reveal_strlit("@");
        }
        let mut destination: String = self.user.clone();
        destination.append("@");
        destination.append(self.host.as_str());
        assert("@"@ =~= seq!['@']);
        let mut args: Vec<String> = Vec::new();
        args.push(String::from_str("-e"));
        args.push(String::from_str("ssh"));
        args.push(String::from_str("-p"));
        args.push(render_decimal(self.port as u64));
        args.push(String::from_str("--"));
        args.push(destination);
        args.push(String::from_str(command));
        assert(args.deep_view() =~= self@.command_args(command@));
        CommandRequest {
            program: String::from_str("sshpass"),
            args,
            credential_variable: String::from_str("SSHPASS"),
            credential: self.password.clone(),
            timeout_secs,
        }
    }

    /// The outcome of a remote command, from how the client process ended.
    /// Exit code zero gives `Success` with the standard output; any other
    /// ending gives `Failure` with the standard error, or with the reason why
    /// nothing ran.
    pub fn execute_command(&self, exit: ProcessExit) -> (outcome: CommandOutcome)
        ensures
            outcome@ == command_outcome_of(exit@),
            outcome@ is Success <==> exit@ is Exited && exit@->Exited_code == 0,
            outcome@ is Success ==> outcome@->Success_stdout == exit@->Exited_stdout,
    {
        match exit {
            ProcessExit::Exited { code, stdout, stderr } => {
                if code == 0 {
                    CommandOutcome::Success { stdout }
                } else {
                    CommandOutcome::Failure { kind: FailureKind::RemoteCommand, stderr }
                }
            },
            ProcessExit::Terminated { stdout, stderr } => CommandOutcome::Failure {
                kind: FailureKind::RemoteCommand,
                stderr,
            },
            ProcessExit::SpawnFailed { detail } => CommandOutcome::Failure {
                kind: FailureKind::Spawn,
                stderr: detail,
            },
            ProcessExit::TimedOut { stderr } => CommandOutcome::Failure {
                kind: FailureKind::TimedOut,
                stderr,
            },
        }
    }
}

/// An address falls apart at its last colon: before it stands the host, behind
/// it the port's numeral, which holds digits only and reads as the port.
pub proof fn lemma_address_parts(target: SSHClientView)
    ensures
        target.address().len() == target.host.len() + 1 + decimal(target.port as nat).len(),
        target.address().subrange(0, target.host.len() as int) == target.host,
        target.address()[target.host.len() as int] == ':',
        target.address().subrange(target.host.len() as int + 1, target.address().len() as int) == decimal(
            target.port as nat,
        ),
        forall|i: int|
            target.host.len() < i < target.address().len() ==> is_digit(
                #[trigger] target.address()[i],
            ),
        decimal_value(
            target.address().subrange(target.host.len() as int + 1, target.address().len() as int),
        ) == target.port,
{
    let address = target.address();
    let numeral = decimal(target.port as nat);
    let split = target.host.len() as int;
    lemma_decimal_digits(target.port as nat);
    lemma_decimal_value(target.port as nat);
    assert(address.subrange(0, split) =~= target.host);
    assert(address.subrange(split + 1, address.len() as int) =~= numeral);
    assert forall|i: int| split < i < address.len() implies is_digit(#[trigger] address[i]) by {
        assert(address[i] == numeral[i - split - 1]);
    }
}

/// An address names one host and one port: two targets with the same address
/// have the same host and the same port.
pub proof fn lemma_address_names_one_target(target: SSHClientView, other: SSHClientView)
    requires
        target.address() == other.address(),
    ensures
        target.host == other.host,
        target.port == other.port,
{
    lemma_address_parts(target);
    lemma_address_parts(other);
    let address = target.address();
    let split = target.host.len() as int;
    let other_split = other.host.len() as int;
    if split < other_split {
        assert(is_digit(address[other_split]));
    } else if other_split < split {
        assert(is_digit(other.address()[split]));
    }
    assert(split == other_split);
}

} // verus!
