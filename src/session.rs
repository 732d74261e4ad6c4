//! The IMAP connection state machine: which state a successful or failed
//! command leaves the connection in.
use vstd::prelude::*;

verus! {

/// The state of a connection.
#[derive(Debug, Clone, Copy, PartialEq, Eq, Structural)]
pub enum ConnectionState {
    /// Connected; no user logged in yet.
    Unauthenticated,
    /// Logged in; no mailbox selected.
    Authenticated,
    /// A mailbox is selected.
    Selected,
    /// In IDLE; `selected` tells whether a mailbox was selected before.
    Idling { selected: bool },
    /// Logged out; nothing more can be done.
    LoggedOut,
}

/// The kind of a command, as far as it moves the connection between states.
#[derive(Debug, Clone, Copy, PartialEq, Eq, Structural)]
pub enum CommandKind {
    Login,
    Authenticate,
    StartTls,
    Select,
    Examine,
    Close,
    Idle,
    IdleDone,
    Logout,
    Noop,
    /// Any command that does not change the state.
    Other,
}

/// The state after command `c` completed (`ok`) or failed in state `s`.
/// Failures leave the state as it was; `LoggedOut` is final.
pub open spec fn next_state(s: ConnectionState, c: CommandKind, ok: bool) -> ConnectionState {
    if s is LoggedOut || !ok {
        s
    } else {
        match c {
            CommandKind::Login | CommandKind::Authenticate => if s is Unauthenticated {
                ConnectionState::Authenticated
            } else {
                s
            },
            CommandKind::Select | CommandKind::Examine => if s is Authenticated || s is Selected {
                ConnectionState::Selected
            } else {
                s
            },
            CommandKind::Close => if s is Selected { ConnectionState::Authenticated } else { s },
            CommandKind::Idle => match s {
                ConnectionState::Authenticated => ConnectionState::Idling { selected: false },
                ConnectionState::Selected => ConnectionState::Idling { selected: true },
                _ => s,
            },
            CommandKind::IdleDone => match s {
                ConnectionState::Idling { selected } => if selected {
                    ConnectionState::Selected
                } else {
                    ConnectionState::Authenticated
                },
                _ => s,
            },
            CommandKind::Logout => ConnectionState::LoggedOut,
            _ => s,
        }
    }
}

/// The state after command `c` completed (`ok`) or failed in state `s`.
pub fn transition(s: ConnectionState, c: CommandKind, ok: bool) -> (r: ConnectionState)
    ensures
        r == next_state(s, c, ok),
{
    if !ok {
        return s;
    }
    match s {
        ConnectionState::LoggedOut => s,
        _ => match c {
            CommandKind::Login | CommandKind::Authenticate => match s {
                ConnectionState::Unauthenticated => ConnectionState::Authenticated,
                _ => s,
            },
            CommandKind::Select | CommandKind::Examine => match s {
                ConnectionState::Authenticated | ConnectionState::Selected => ConnectionState::Selected,
                _ => s,
            },
            CommandKind::Close => match s {
                ConnectionState::Selected => ConnectionState::Authenticated,
                _ => s,
            },
            CommandKind::Idle => match s {
                ConnectionState::Authenticated => ConnectionState::Idling { selected: false },
                ConnectionState::Selected => ConnectionState::Idling { selected: true },
                _ => s,
            },
            CommandKind::IdleDone => match s {
                ConnectionState::Idling { selected } => if selected {
                    ConnectionState::Selected
                } else {
                    ConnectionState::Authenticated
                },
                _ => s,
            },
            CommandKind::Logout => ConnectionState::LoggedOut,
            _ => s,
        },
    }
}

/// NOOP leaves the connection in the state it was in, whatever its outcome;
/// selecting the same mailbox again leaves the state that the first
/// selection reached.
pub proof fn lemma_noop_and_reselect(s: ConnectionState, ok: bool)
    ensures
        next_state(s, CommandKind::Noop, ok) == s,
        next_state(next_state(s, CommandKind::Select, true), CommandKind::Select, true)
            == next_state(s, CommandKind::Select, true),
{
}

} // verus!
