//! One session's orchestration: the lifecycle state machine, the stored
//! automatic actions and the fixed-slot hooks, driven by observed events.
//!
//! The session decides; it performs no transport work itself. Each
//! processed event yields the actions the driver must carry out (log in,
//! join a channel), so a caller-driven loop — or a worker thread outside
//! the library — can execute them against the live endpoint.
use vstd::prelude::*;
use crate::dispatch::EventHandler;
use crate::events::ConnectionState;
use crate::events::Event;
use crate::hooks::ClientHooks;
use crate::hooks::HookFire;
use crate::hooks::spec_fire_log;
use crate::message::Message;
use crate::message::Payload;
use crate::state::spec_apply_event;
use crate::types::ChannelId;
use crate::types::UserId;

verus! {

/// Stored login credentials for the automatic login flow.
#[derive(Debug)]
pub struct LoginParams {
    pub nickname: String,
    pub username: String,
    pub password: String,
    pub client_name: String,
}

impl Clone for LoginParams {
    /// The copy carries exactly the same fields.
    fn clone(&self) -> (res: Self)
        ensures
            res == *self,
    {
        LoginParams {
            nickname: self.nickname.clone(),
            username: self.username.clone(),
            password: self.password.clone(),
            client_name: self.client_name.clone(),
        }
    }
}

/// Stored join target for the automatic join flow.
#[derive(Debug)]
pub struct JoinParams {
    pub channel: ChannelId,
    pub password: String,
}

impl Clone for JoinParams {
    /// The copy carries exactly the same fields.
    fn clone(&self) -> (res: Self)
        ensures
            res == *self,
    {
        JoinParams { channel: self.channel, password: self.password.clone() }
    }
}

/// The transport actions one processed event asks the driver to perform.
#[derive(Debug)]
pub struct SessionActions {
    /// Issue the stored login; set when the session just came up.
    pub login: Option<LoginParams>,
    /// Join the stored channel; set when the session just logged in.
    pub join: Option<JoinParams>,
}

/// Whether the event's payload names the local user.
pub open spec fn spec_observed_self(my_id: Option<UserId>, message: &Message) -> bool {
    match message.spec_payload() {
        Payload::User(u) => my_id == Option::Some(u.id),
        _ => false,
    }
}

/// The channel carried by the event's payload, if any.
pub open spec fn spec_observed_channel(message: &Message) -> ChannelId {
    match message.spec_payload() {
        Payload::User(u) => u.channel_id,
        _ => ChannelId(0),
    }
}

/// The joined-hook invocation a transition appends: one entry when the
/// session just entered the channel and a joined hook is registered.
pub open spec fn spec_joined_fire(entered: bool, joined_set: bool, ch: ChannelId) -> Seq<
    HookFire,
> {
    if entered && joined_set {
        seq![HookFire::Joined(ch)]
    } else {
        Seq::empty()
    }
}

/// Upon a user-joined event whose payload names the local user, a
/// session not already in that channel moves to `Joined(channel)` with
/// the channel from the event, and the registered joined hook fires
/// exactly once with that channel — and never fires again while the
/// state does not change.
pub proof fn lemma_enter_channel_fires_once(s: ConnectionState, ch: ChannelId, joined_set: bool)
    requires
        s != ConnectionState::Joined(ch),
        joined_set,
    ensures
        spec_apply_event(s, Event::UserJoined, true, ch) == ConnectionState::Joined(ch),
        spec_joined_fire(
            (spec_apply_event(s, Event::UserJoined, true, ch) is Joined) && spec_apply_event(
                s,
                Event::UserJoined,
                true,
                ch,
            ) != s,
            joined_set,
            ch,
        ) == seq![HookFire::Joined(ch)],
        spec_joined_fire(
            (spec_apply_event(ConnectionState::Joined(ch), Event::UserJoined, true, ch)
                is Joined) && spec_apply_event(
                ConnectionState::Joined(ch),
                Event::UserJoined,
                true,
                ch,
            ) != ConnectionState::Joined(ch),
            joined_set,
            ch,
        ) == Seq::<HookFire>::empty(),
{
}

/// One session's state machine, stored automatic actions and hooks.
pub struct Session<H: EventHandler> {
    state: ConnectionState,
    my_id: Option<UserId>,
    auto_login: Option<LoginParams>,
    auto_join: Option<JoinParams>,
    hooks: ClientHooks<H>,
}

impl<H: EventHandler> Session<H> {
    /// The session's lifecycle state.
    pub closed spec fn spec_state(&self) -> ConnectionState {
        self.state
    }

    /// The local user id, once known.
    pub closed spec fn spec_my_id(&self) -> Option<UserId> {
        self.my_id
    }

    /// The stored login credentials, if any.
    pub closed spec fn spec_auto_login(&self) -> Option<LoginParams> {
        self.auto_login
    }

    /// The stored join target, if any.
    pub closed spec fn spec_auto_join(&self) -> Option<JoinParams> {
        self.auto_join
    }

    /// The hooks attached to the session.
    pub closed spec fn spec_hooks(&self) -> &ClientHooks<H> {
        &self.hooks
    }

    /// The session is well formed when its hooks are.
    pub open spec fn wf(&self) -> bool {
        self.spec_hooks().wf()
    }

    /// Creates an idle session with the given hooks; the state machine
    /// starts in `Idle` with no stored actions and no known identity.
    pub fn new(hooks: ClientHooks<H>) -> (r: Self)
        requires
            hooks.wf(),
        ensures
            r.wf(),
            r.spec_state() == ConnectionState::Idle,
            r.spec_my_id() is None,
            r.spec_auto_login() is None,
            r.spec_auto_join() is None,
            r.spec_hooks().spec_slots() == hooks.spec_slots(),
            r.spec_hooks().spec_any_set() == hooks.spec_any_set(),
            r.spec_hooks().spec_joined_set() == hooks.spec_joined_set(),
            r.spec_hooks().spec_fires() == hooks.spec_fires(),
    {
        Session {
            state: ConnectionState::Idle,
            my_id: Option::None,
            auto_login: Option::None,
            auto_join: Option::None,
            hooks,
        }
    }

    /// Returns the current lifecycle state.
    pub fn connection_state(&self) -> (r: ConnectionState)
        ensures
            r == self.spec_state(),
    {
        self.state
    }

    /// Records the local user id reported by the endpoint; identity
    /// matching on event payloads uses it.
    pub fn set_my_id(&mut self, id: UserId)
        ensures
            final(self).spec_my_id() == Option::Some(id),
            final(self).spec_state() == old(self).spec_state(),
            final(self).spec_auto_login() == old(self).spec_auto_login(),
            final(self).spec_auto_join() == old(self).spec_auto_join(),
            final(self).spec_hooks() == old(self).spec_hooks(),
    {
        self.my_id = Option::Some(id);
    }

    /// Stores login credentials for the automatic login flow.
    pub fn store_login(&mut self, params: LoginParams)
        ensures
            final(self).spec_auto_login() == Option::Some(params),
            final(self).spec_state() == old(self).spec_state(),
            final(self).spec_my_id() == old(self).spec_my_id(),
            final(self).spec_auto_join() == old(self).spec_auto_join(),
            final(self).spec_hooks() == old(self).spec_hooks(),
    {
        self.auto_login = Option::Some(params);
    }

    /// Stores a join target for the automatic join flow.
    pub fn store_join(&mut self, channel: ChannelId, password: &str)
        ensures
            final(self).spec_auto_join() matches Some(j) && j.channel == channel && j.password@
                == password@,
            final(self).spec_state() == old(self).spec_state(),
            final(self).spec_my_id() == old(self).spec_my_id(),
            final(self).spec_auto_login() == old(self).spec_auto_login(),
            final(self).spec_hooks() == old(self).spec_hooks(),
    {
        self.auto_join = Option::Some(JoinParams { channel, password: password.to_owned() });
    }

    /// Notes that the user asked the session to connect.
    pub fn note_connect_requested(&mut self)
        ensures
            final(self).spec_state() == crate::state::spec_apply_connect(old(self).spec_state()),
            final(self).spec_my_id() == old(self).spec_my_id(),
            final(self).spec_auto_login() == old(self).spec_auto_login(),
            final(self).spec_auto_join() == old(self).spec_auto_join(),
            final(self).spec_hooks() == old(self).spec_hooks(),
    {
        self.state = self.state.apply_connect();
    }

    /// Notes that the user asked the session to log in.
    pub fn note_login_requested(&mut self)
        ensures
            final(self).spec_state() == crate::state::spec_apply_login(old(self).spec_state()),
            final(self).spec_my_id() == old(self).spec_my_id(),
            final(self).spec_auto_login() == old(self).spec_auto_login(),
            final(self).spec_auto_join() == old(self).spec_auto_join(),
            final(self).spec_hooks() == old(self).spec_hooks(),
    {
        self.state = self.state.apply_login();
    }

    /// Notes that the user asked the session to join a channel.
    pub fn note_join_requested(&mut self, target: ChannelId)
        ensures
            final(self).spec_state() == crate::state::spec_apply_join(
                old(self).spec_state(),
                target,
            ),
            final(self).spec_my_id() == old(self).spec_my_id(),
            final(self).spec_auto_login() == old(self).spec_auto_login(),
            final(self).spec_auto_join() == old(self).spec_auto_join(),
            final(self).spec_hooks() == old(self).spec_hooks(),
    {
        self.state = self.state.apply_join(target);
    }

    /// Processes one observed event: advances the state machine, fires
    /// the hooks, and returns the automatic actions now due.
    ///
    /// The state follows the transition table exactly; malformed
    /// sequences leave it unchanged. Entering `Connected` surfaces the
    /// stored login, entering `LoggedIn` surfaces the stored join target.
    /// The kind-specific and catch-all hooks fire for the event itself;
    /// on a transition into a channel the joined hook fires exactly once,
    /// with the channel from the event.
    pub fn process_event(&mut self, event: &Event, message: &Message) -> (actions: SessionActions)
        requires
            old(self).wf(),
        ensures
            final(self).wf(),
            final(self).spec_state() == spec_apply_event(
                old(self).spec_state(),
                *event,
                spec_observed_self(old(self).spec_my_id(), message),
                spec_observed_channel(message),
            ),
            final(self).spec_my_id() == old(self).spec_my_id(),
            final(self).spec_auto_login() == old(self).spec_auto_login(),
            final(self).spec_auto_join() == old(self).spec_auto_join(),
            final(self).spec_hooks().spec_slots().len() == old(
                self,
            ).spec_hooks().spec_slots().len(),
            forall|j: int|
                0 <= j < old(self).spec_hooks().spec_slots().len()
                    ==> (#[trigger] final(self).spec_hooks().spec_slots()[j]).0 == old(
                    self,
                ).spec_hooks().spec_slots()[j].0,
            final(self).spec_hooks().spec_any_set() == old(self).spec_hooks().spec_any_set(),
            final(self).spec_hooks().spec_joined_set() == old(self).spec_hooks().spec_joined_set(),
            actions.login == (if final(self).spec_state() is Connected && !(old(
                self,
            ).spec_state() is Connected) {
                old(self).spec_auto_login()
            } else {
                Option::None
            }),
            actions.join == (if final(self).spec_state() is LoggedIn && !(old(
                self,
            ).spec_state() is LoggedIn) {
                old(self).spec_auto_join()
            } else {
                Option::None
            }),
            final(self).spec_hooks().spec_fires() == old(self).spec_hooks().spec_fires()
                + spec_fire_log(
                old(self).spec_hooks().spec_slots(),
                old(self).spec_hooks().spec_any_set(),
                *event,
            ) + spec_joined_fire(
                (final(self).spec_state() is Joined) && final(self).spec_state() != old(
                    self,
                ).spec_state(),
                old(self).spec_hooks().spec_joined_set(),
                spec_observed_channel(message),
            ),
    {
        let (is_self, ch) = match message.payload() {
            Payload::User(u) => {
                let same = match &self.my_id {
                    Option::Some(m) => m.0 == u.id.0,
                    Option::None => false,
                };
                (same, u.channel_id)
            },
            _ => (false, ChannelId(0)),
        };
        let old_state = self.state;
        let new_state = old_state.apply_event(event, is_self, ch);
        self.state = new_state;
        let mut actions = SessionActions { login: Option::None, join: Option::None };
        if matches!(new_state, ConnectionState::Connected) && !matches!(
            old_state,
            ConnectionState::Connected,
        ) {
            match &self.auto_login {
                Option::Some(lp) => {
                    actions.login = Option::Some(lp.clone());
                },
                Option::None => {},
            }
        }
        if matches!(new_state, ConnectionState::LoggedIn) && !matches!(
            old_state,
            ConnectionState::LoggedIn,
        ) {
            match &self.auto_join {
                Option::Some(jp) => {
                    actions.join = Option::Some(jp.clone());
                },
                Option::None => {},
            }
        }
        self.hooks.fire(*event, message);
        let entered_channel = match new_state {
            ConnectionState::Joined(c) => {
                if !matches!(old_state, ConnectionState::Joined(_)) {
                    Option::Some(c)
                } else {
                    match old_state {
                        ConnectionState::Joined(c0) => {
                            if c0.0 != c.0 {
                                Option::Some(c)
                            } else {
                                Option::None
                            }
                        },
                        _ => Option::None,
                    }
                }
            },
            _ => Option::None,
        };
        match entered_channel {
            Option::Some(c) => {
                self.hooks.fire_joined(c, message);
            },
            Option::None => {},
        }
        actions
    }
}

} // verus!
