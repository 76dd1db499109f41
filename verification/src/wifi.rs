//! Keeping the station associated with its access point.
//!
//! The radio is driven by the caller. [`next`] holds the order of the work:
//! what to ask of the radio, and what to do with each answer.

use vstd::prelude::*;

verus! {

/// How long to wait before trying again after the link was lost or an
/// attempt failed, in milliseconds.
pub const RETRY_DELAY_MS: u64 = 5000;

/// Why the network could not be brought up.
#[derive(Debug, Clone, Copy, PartialEq, Eq, Structural)]
pub enum Error {
    WifiInitError,
    WifiModeError,
    WifiConnectError,
    NetStackError,
    NetRunnerError,
    NetTaskError,
}

/// The message of each error: its own name.
pub open spec fn message_spec(error: Error) -> Seq<char> {
    match error {
        Error::WifiInitError => "WifiInitError"@,
        Error::WifiModeError => "WifiModeError"@,
        Error::WifiConnectError => "WifiConnectError"@,
        Error::NetStackError => "NetStackError"@,
        Error::NetRunnerError => "NetRunnerError"@,
        Error::NetTaskError => "NetTaskError"@,
    }
}

impl Error {
    /// The message that describes the error.
    pub fn message(&self) -> (message: &'static str)
        ensures
            message@ == message_spec(*self),
    {
        match self {
            Error::WifiInitError => "WifiInitError",
            Error::WifiModeError => "WifiModeError",
            Error::WifiConnectError => "WifiConnectError",
            Error::NetStackError => "NetStackError",
            Error::NetRunnerError => "NetRunnerError",
            Error::NetTaskError => "NetTaskError",
        }
    }
}

/// Where the connection task stands: what it has asked for last.
#[derive(Debug, Clone, Copy, PartialEq, Eq, Structural)]
pub enum Phase {
    /// Whether the station is associated.
    LinkState,
    /// The loss of the association.
    Disconnect,
    /// The pause after the association was lost.
    Rest,
    /// Whether the controller is started.
    Started,
    /// The controller's configuration and start.
    Start,
    /// An attempt to associate.
    Connect,
    /// The pause after a failed attempt.
    Backoff,
}

/// What the radio answered.
#[derive(Debug, Clone, Copy, PartialEq, Eq, Structural)]
pub enum Report {
    /// Yes, or: done.
    Yes,
    /// No, or: failed.
    No,
}

/// What to ask of the radio next.
#[derive(Debug, Clone, Copy, PartialEq, Eq, Structural)]
pub enum Command {
    /// Report whether the station is associated.
    ReadLinkState,
    /// Wait until the association is lost.
    AwaitDisconnect,
    /// Sleep for so many milliseconds.
    Pause(u64),
    /// Report whether the controller is started.
    ReadStarted,
    /// Configure the controller as a station and start it.
    ConfigureAndStart,
    /// Try to associate.
    Connect,
}

/// The command that a phase has asked for.
pub open spec fn command_of(phase: Phase) -> Command {
    match phase {
        Phase::LinkState => Command::ReadLinkState,
        Phase::Disconnect => Command::AwaitDisconnect,
        Phase::Rest => Command::Pause(RETRY_DELAY_MS),
        Phase::Started => Command::ReadStarted,
        Phase::Start => Command::ConfigureAndStart,
        Phase::Connect => Command::Connect,
        Phase::Backoff => Command::Pause(RETRY_DELAY_MS),
    }
}

/// The phase that follows `phase` on `report`. While associated the task
/// waits for the loss and rests; it starts the controller where it is not
/// started; it tries to associate, and backs off where that fails. A
/// controller that does not start is not provided for: the task ends there.
pub open spec fn next_spec(phase: Phase, report: Report) -> Phase {
    match phase {
        Phase::LinkState => if report == Report::Yes {
            Phase::Disconnect
        } else {
            Phase::Started
        },
        Phase::Disconnect => Phase::Rest,
        Phase::Rest => Phase::Started,
        Phase::Started => if report == Report::Yes {
            Phase::Connect
        } else {
            Phase::Start
        },
        Phase::Start => Phase::Connect,
        Phase::Connect => if report == Report::Yes {
            Phase::LinkState
        } else {
            Phase::Backoff
        },
        Phase::Backoff => Phase::LinkState,
    }
}

/// The phase in which the connection task begins, and its first command.
pub fn begin() -> (first: (Phase, Command))
    ensures
        first.0 == Phase::LinkState,
        first.1 == command_of(first.0),
{
    (Phase::LinkState, Command::ReadLinkState)
}

/// Takes the radio's answer to the last command and names the next.
pub fn next(phase: Phase, report: Report) -> (then: (Phase, Command))
    requires
        phase == Phase::Start ==> report == Report::Yes,
    ensures
        then.0 == next_spec(phase, report),
        then.1 == command_of(then.0),
{
    let yes = match report {
        Report::Yes => true,
        Report::No => false,
    };
    let then = match phase {
        Phase::LinkState => if yes {
            Phase::Disconnect
        } else {
            Phase::Started
        },
        Phase::Disconnect => Phase::Rest,
        Phase::Rest => Phase::Started,
        Phase::Started => if yes {
            Phase::Connect
        } else {
            Phase::Start
        },
        Phase::Start => Phase::Connect,
        Phase::Connect => if yes {
            Phase::LinkState
        } else {
            Phase::Backoff
        },
        Phase::Backoff => Phase::LinkState,
    };
    let command = match then {
        Phase::LinkState => Command::ReadLinkState,
        Phase::Disconnect => Command::AwaitDisconnect,
        Phase::Rest => Command::Pause(RETRY_DELAY_MS),
        Phase::Started => Command::ReadStarted,
        Phase::Start => Command::ConfigureAndStart,
        Phase::Connect => Command::Connect,
        Phase::Backoff => Command::Pause(RETRY_DELAY_MS),
    };
    (then, command)
}

} // verus!
