//! The connection lifecycle state machine.
//!
//! One session's state is driven by the events its poll primitive returns
//! and by the three user-initiated requests (connect, login, join).
//! Malformed or unexpected sequences are ignored: identity matching on the
//! event payload gates all self-referential transitions, and an event that
//! fits no rule leaves the state unchanged.
use vstd::prelude::*;
use crate::events::ConnectionState;
use crate::events::Event;
use crate::types::ChannelId;

verus! {

/// The state reached from `s` when the session observes `ev`.
///
/// `is_self` says whether the event's payload names the local user, and
/// `channel` is the channel carried by the payload (meaningful for join
/// and leave events).
pub open spec fn spec_apply_event(
    s: ConnectionState,
    ev: Event,
    is_self: bool,
    channel: ChannelId,
) -> ConnectionState {
    if ev is ConnectFailed || ev is ConnectionLost || ev is ConnectCryptError {
        ConnectionState::Disconnected
    } else if ev is ConnectSuccess {
        if s is Connecting {
            ConnectionState::Connected
        } else {
            s
        }
    } else if ev is MySelfLoggedIn {
        ConnectionState::LoggedIn
    } else if ev is MySelfLoggedOut {
        if s is LoggedIn || s is Joined {
            ConnectionState::Connected
        } else {
            s
        }
    } else if ev is UserJoined {
        if is_self {
            ConnectionState::Joined(channel)
        } else {
            s
        }
    } else if ev is UserLeft {
        if is_self && s is Joined {
            ConnectionState::LoggedIn
        } else {
            s
        }
    } else {
        s
    }
}

/// The state reached when the user asks the session to connect: the
/// request is honoured from `Idle` and `Disconnected` only.
pub open spec fn spec_apply_connect(s: ConnectionState) -> ConnectionState {
    if s is Idle || s is Disconnected {
        ConnectionState::Connecting
    } else {
        s
    }
}

/// The state reached when the user asks the session to log in: the
/// request is honoured from `Connected` only.
pub open spec fn spec_apply_login(s: ConnectionState) -> ConnectionState {
    if s is Connected {
        ConnectionState::LoggingIn
    } else {
        s
    }
}

/// The state reached when the user asks the session to join a channel:
/// the request is honoured from `LoggedIn` only.
pub open spec fn spec_apply_join(s: ConnectionState, target: ChannelId) -> ConnectionState {
    if s is LoggedIn {
        ConnectionState::Joining(target)
    } else {
        s
    }
}

impl ConnectionState {
    /// Returns the state reached when the session observes `ev`.
    pub fn apply_event(self, ev: &Event, is_self: bool, channel: ChannelId) -> (r: ConnectionState)
        ensures
            r == spec_apply_event(self, *ev, is_self, channel),
    {
        match ev {
            Event::ConnectFailed | Event::ConnectionLost | Event::ConnectCryptError => {
                ConnectionState::Disconnected
            },
            Event::ConnectSuccess => {
                if matches!(self, ConnectionState::Connecting) {
                    ConnectionState::Connected
                } else {
                    self
                }
            },
            Event::MySelfLoggedIn => ConnectionState::LoggedIn,
            Event::MySelfLoggedOut => {
                if matches!(self, ConnectionState::LoggedIn | ConnectionState::Joined(_)) {
                    ConnectionState::Connected
                } else {
                    self
                }
            },
            Event::UserJoined => {
                if is_self {
                    ConnectionState::Joined(channel)
                } else {
                    self
                }
            },
            Event::UserLeft => {
                if is_self && matches!(self, ConnectionState::Joined(_)) {
                    ConnectionState::LoggedIn
                } else {
                    self
                }
            },
            _ => self,
        }
    }

    /// Returns the state reached when the user asks to connect.
    pub fn apply_connect(self) -> (r: ConnectionState)
        ensures
            r == spec_apply_connect(self),
    {
        if matches!(self, ConnectionState::Idle | ConnectionState::Disconnected) {
            ConnectionState::Connecting
        } else {
            self
        }
    }

    /// Returns the state reached when the user asks to log in.
    pub fn apply_login(self) -> (r: ConnectionState)
        ensures
            r == spec_apply_login(self),
    {
        if matches!(self, ConnectionState::Connected) {
            ConnectionState::LoggingIn
        } else {
            self
        }
    }

    /// Returns the state reached when the user asks to join a channel.
    pub fn apply_join(self, target: ChannelId) -> (r: ConnectionState)
        ensures
            r == spec_apply_join(self, target),
    {
        if matches!(self, ConnectionState::LoggedIn) {
            ConnectionState::Joining(target)
        } else {
            self
        }
    }
}

/// An event whose payload names a foreign user never moves the session
/// into or out of a channel: the self-referential transitions are gated
/// by identity.
pub proof fn lemma_foreign_user_ignored(s: ConnectionState, ev: Event, channel: ChannelId)
    requires
        ev is UserJoined || ev is UserLeft,
    ensures
        spec_apply_event(s, ev, false, channel) == s,
{
}

/// The failure events always reach `Disconnected`, from any state, and no
/// other event ever reaches it: `Disconnected` is entered exactly on
/// transport failure.
pub proof fn lemma_disconnect_on_failure(
    s: ConnectionState,
    ev: Event,
    is_self: bool,
    channel: ChannelId,
)
    ensures
        (ev is ConnectFailed || ev is ConnectionLost || ev is ConnectCryptError)
            ==> spec_apply_event(s, ev, is_self, channel) == ConnectionState::Disconnected,
        !(ev is ConnectFailed || ev is ConnectionLost || ev is ConnectCryptError) && !(s
            is Disconnected) ==> !(spec_apply_event(s, ev, is_self, channel) is Disconnected),
{
}

} // verus!
