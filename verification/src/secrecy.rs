//! Where the password goes, and where it does not.
//!
//! The password leaves the library in one place only: the credential of a
//! command request, which the caller puts into the environment of the client
//! process. It is no part of an argument, of an address or of a notification.

use vstd::prelude::*;
use crate::client::SSHClientView;
use crate::decimal::decimal;

verus! {

/// Whether `text` holds `needle` from position `at` on.
pub open spec fn occurs_at(needle: Seq<char>, text: Seq<char>, at: int) -> bool {
    0 <= at && at + needle.len() <= text.len() && text.subrange(at, at + needle.len()) == needle
}

/// Whether `needle` is a substring of `text`.
pub open spec fn occurs_in(needle: Seq<char>, text: Seq<char>) -> bool {
    exists|at: int| #[trigger] occurs_at(needle, text, at)
}

/// The words of a command request that are the same for every target and
/// every command: the program and the arguments that are options.
pub open spec fn fixed_words() -> Seq<Seq<char>> {
    seq!["sshpass"@, "-e"@, "ssh"@, "-p"@, "--"@]
}

/// The arguments of a command request are made from the user, the host, the
/// port and the command alone. Two targets that differ in nothing but the
/// password get the same program, the same arguments and the same name for the
/// credential: what a process list shows says nothing of the password.
pub proof fn lemma_arguments_ignore_password(
    target: SSHClientView,
    other: SSHClientView,
    command: Seq<char>,
    timeout_secs: u64,
)
    requires
        target.user == other.user,
        target.host == other.host,
        target.port == other.port,
    ensures
        target.command_request(command, timeout_secs).program == other.command_request(
            command,
            timeout_secs,
        ).program,
        target.command_request(command, timeout_secs).args == other.command_request(
            command,
            timeout_secs,
        ).args,
        target.command_request(command, timeout_secs).credential_variable
            == other.command_request(command, timeout_secs).credential_variable,
{
}

/// A password that is no substring of a fixed word, of the port's numeral, of
/// the destination or of the command is no substring of the program or of any
/// argument. A password that is one, such as a single letter of the program's
/// name, is found there because the word holds it, not because it was put in.
pub proof fn lemma_password_absent_from_arguments(
    target: SSHClientView,
    command: Seq<char>,
    timeout_secs: u64,
)
    requires
        forall|w: int|
            0 <= w < fixed_words().len() ==> !occurs_in(target.password, #[trigger] fixed_words()[w]),
        !occurs_in(target.password, decimal(target.port as nat)),
        !occurs_in(target.password, target.destination()),
        !occurs_in(target.password, command),
    ensures
        !occurs_in(target.password, target.command_request(command, timeout_secs).program),
        forall|i: int|
            0 <= i < target.command_request(command, timeout_secs).args.len() ==> !occurs_in(
                target.password,
                #[trigger] target.command_request(command, timeout_secs).args[i],
            ),
{
    let words = fixed_words();
    assert(words[0] == "sshpass"@);
    assert(words[1] == "-e"@);
    assert(words[2] == "ssh"@);
    assert(words[3] == "-p"@);
    assert(words[4] == "--"@);
}

/// The address of a connection request is made from the host and the port
/// alone: neither the user nor the password is part of it.
pub proof fn lemma_address_ignores_credentials(
    target: SSHClientView,
    other: SSHClientView,
    timeout_secs: Option<u64>,
)
    requires
        target.host == other.host,
        target.port == other.port,
    ensures
        target.connect_request(timeout_secs) == other.connect_request(timeout_secs),
{
}

} // verus!
