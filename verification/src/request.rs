//! What the probe asks its caller to do.

use vstd::prelude::*;

verus! {

/// One connection attempt to make: where, and for how long at most.
#[derive(Clone, Debug, PartialEq, Eq)]
pub struct ConnectRequest {
    /// The host and the port, joined by a colon.
    pub address: String,
    /// The number of seconds after which the attempt is given up.
    pub timeout_secs: u64,
}

/// A connection request, as contracts see it.
pub struct ConnectRequestView {
    pub address: Seq<char>,
    pub timeout_secs: u64,
}

impl View for ConnectRequest {
    type V = ConnectRequestView;

    open spec fn view(&self) -> ConnectRequestView {
        ConnectRequestView { address: self.address@, timeout_secs: self.timeout_secs }
    }
}

/// One run of the SSH client process to make.
///
/// The program is started with the arguments as they stand, each one argument
/// of the process: no shell reads them. The credential is no argument. It
/// is put into the environment of that one process, under the name given.
#[derive(Clone, PartialEq, Eq)]
pub struct CommandRequest {
    /// The program to start.
    pub program: String,
    /// Its arguments, in order.
    pub args: Vec<String>,
    /// The name of the environment variable that the program reads the
    /// credential from.
    pub credential_variable: String,
    /// The credential.
    pub credential: String,
    /// The number of seconds after which the process is stopped.
    pub timeout_secs: u64,
}

/// A command request, as contracts see it.
pub struct CommandRequestView {
    pub program: Seq<char>,
    pub args: Seq<Seq<char>>,
    pub credential_variable: Seq<char>,
    pub credential: Seq<char>,
    pub timeout_secs: u64,
}

impl View for CommandRequest {
    type V = CommandRequestView;

    open spec fn view(&self) -> CommandRequestView {
        CommandRequestView {
            program: self.program@,
            args: self.args.deep_view(),
            credential_variable: self.credential_variable@,
            credential: self.credential@,
            timeout_secs: self.timeout_secs,
        }
    }
}

} // verus!
