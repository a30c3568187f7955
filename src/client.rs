//! What the one-shot client prints, given how its exchange with the daemon
//! went.

use vstd::prelude::*;
use crate::shell::ShellType;

verus! {

/// How the exchange with the daemon ended.
pub enum ClientEvent {
    /// No daemon could be reached.
    Unreachable,
    /// The daemon did not answer within the client's bounded wait.
    TimedOut,
    /// Reading the answer failed.
    ReadFailed,
    /// The daemon answered with this text.
    Replied(String),
}

/// What the client prints.
pub enum ClientOutput {
    /// The prompt computed locally with every plugin at full speed.
    LocalFull,
    /// The prompt computed locally in fast mode.
    LocalFast,
    /// The daemon's answer, as received.
    Received(String),
}

/// The client's decision: with no daemon, the full local prompt; with a
/// daemon too slow or failing, the fast one; else the answer itself.
pub fn client_output(event: ClientEvent) -> (r: ClientOutput)
    ensures
        event is Unreachable ==> r is LocalFull,
        event is TimedOut || event is ReadFailed ==> r is LocalFast,
        event matches ClientEvent::Replied(t) ==> r matches ClientOutput::Received(u) && u@ == t@,
{
    match event {
        ClientEvent::Unreachable => ClientOutput::LocalFull,
        ClientEvent::TimedOut => ClientOutput::LocalFast,
        ClientEvent::ReadFailed => ClientOutput::LocalFast,
        ClientEvent::Replied(t) => ClientOutput::Received(t),
    }
}

/// The role the program was started in.
#[derive(Debug, Clone, Copy, PartialEq, Eq, Structural)]
pub enum RunMode {
    /// Serve prompts over the socket.
    Daemon,
    /// Ask the daemon once and print the prompt.
    Main,
    /// Do nothing.
    Test,
}

/// What the program goes on to do.
#[derive(Debug, Clone, Copy, PartialEq, Eq, Structural)]
pub enum Launch {
    /// Run the daemon's accept loop.
    Serve,
    /// Make one request for this shell and print the result.
    Request(ShellType),
    /// Nothing at all.
    Idle,
}

/// Picks what to run for `mode`.
pub fn run(mode: RunMode, shell: ShellType) -> (r: Launch)
    ensures
        r == (match mode {
            RunMode::Daemon => Launch::Serve,
            RunMode::Main => Launch::Request(shell),
            RunMode::Test => Launch::Idle,
        }),
{
    match mode {
        RunMode::Daemon => Launch::Serve,
        RunMode::Main => Launch::Request(shell),
        RunMode::Test => Launch::Idle,
    }
}

} // verus!
