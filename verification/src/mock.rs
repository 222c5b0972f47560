//! In-memory event source for tests and offline simulations.
//!
//! The mock replays a scripted event sequence through the same dispatch
//! machinery a live session would drive.
use vstd::prelude::*;
use std::collections::VecDeque;
use crate::dispatch::ConnectParamsOwned;
use crate::dispatch::EventSource;
use crate::events::Event;
use crate::message::Message;
use crate::message::Payload;
use crate::types::ChannelId;
use crate::types::Subscriptions;
use crate::types::TextMessage;
use crate::types::TextMsgType;
use crate::types::User;
use crate::types::UserId;
use crate::types::UserState;
use crate::types::UserStatus;

verus! {

/// In-memory event queue implementing `EventSource`.
pub struct MockClient {
    queue: VecDeque<(Event, Message)>,
    connect_requests: u64,
}

impl MockClient {
    /// The scripted events not yet polled, oldest first.
    pub open spec fn spec_queue(&self) -> Seq<(Event, Message)> {
        self.pending()
    }

    /// How many connect requests the source has received.
    pub closed spec fn spec_connect_requests(&self) -> u64 {
        self.connect_requests
    }

    /// Creates an empty mock client.
    pub fn new() -> (r: Self)
        ensures
            r.spec_queue() == Seq::<(Event, Message)>::empty(),
            r.spec_connect_requests() == 0,
    {
        MockClient { queue: VecDeque::new(), connect_requests: 0 }
    }

    /// Pushes a raw event and message pair.
    pub fn push(&mut self, event: Event, message: Message)
        ensures
            final(self).spec_queue() == old(self).spec_queue().push((event, message)),
            final(self).spec_connect_requests() == old(self).spec_connect_requests(),
    {
        self.queue.push_back((event, message));
    }

    /// Pushes an event with an empty message.
    pub fn push_event(&mut self, event: Event)
        ensures
            final(self).spec_queue().len() == old(self).spec_queue().len() + 1,
            final(self).spec_queue().take(old(self).spec_queue().len() as int) == old(
                self,
            ).spec_queue(),
            final(self).spec_queue().last().0 == event,
            final(self).spec_queue().last().1.spec_payload() is Empty,
            final(self).spec_connect_requests() == old(self).spec_connect_requests(),
    {
        let message = MockMessage::empty();
        self.queue.push_back((event, message));
        proof {
            assert(self.spec_queue().take(old(self).spec_queue().len() as int) =~= old(
                self,
            ).spec_queue());
        }
    }

    /// Pushes a `UserJoined` event carrying the built user.
    pub fn push_user_joined(&mut self, user: MockUserBuilder)
        ensures
            final(self).spec_queue() == old(self).spec_queue().push(
                (Event::UserJoined, user.spec_message()),
            ),
            final(self).spec_connect_requests() == old(self).spec_connect_requests(),
    {
        let message = user.build();
        self.queue.push_back((Event::UserJoined, message));
    }

    /// Pushes a `UserUpdate` event carrying the built user.
    pub fn push_user_update(&mut self, user: MockUserBuilder)
        ensures
            final(self).spec_queue() == old(self).spec_queue().push(
                (Event::UserUpdate, user.spec_message()),
            ),
            final(self).spec_connect_requests() == old(self).spec_connect_requests(),
    {
        let message = user.build();
        self.queue.push_back((Event::UserUpdate, message));
    }

    /// Pushes a `TextMessage` event.
    pub fn push_text_message(&mut self, message: Message)
        ensures
            final(self).spec_queue() == old(self).spec_queue().push(
                (Event::TextMessage, message),
            ),
            final(self).spec_connect_requests() == old(self).spec_connect_requests(),
    {
        self.queue.push_back((Event::TextMessage, message));
    }

    /// Returns the number of queued events.
    pub fn len(&self) -> (r: usize)
        ensures
            r == self.spec_queue().len(),
    {
        self.queue.len()
    }

    /// Returns true when no events are queued.
    pub fn is_empty(&self) -> (r: bool)
        ensures
            r == (self.spec_queue().len() == 0),
    {
        self.queue.len() == 0
    }

    /// Returns how many connect requests the source has received.
    pub fn connect_requests(&self) -> (r: u64)
        ensures
            r == self.spec_connect_requests(),
    {
        self.connect_requests
    }
}

impl EventSource for MockClient {
    closed spec fn pending(&self) -> Seq<(Event, Message)> {
        self.queue@
    }

    fn poll(&mut self, _timeout_ms: i32) -> (r: Option<(Event, Message)>) {
        self.queue.pop_front()
    }

    fn request_connect(&mut self, _params: &ConnectParamsOwned) -> (accepted: bool) {
        if self.connect_requests < u64::MAX {
            self.connect_requests = self.connect_requests + 1;
        }
        true
    }
}

/// Helpers for constructing mock `Message` instances.
pub struct MockMessage;

impl MockMessage {
    /// Returns an empty message instance.
    pub fn empty() -> (r: Message)
        ensures
            r.spec_source() == 0,
            r.spec_payload() is Empty,
    {
        Message::from_parts(0, Payload::Empty)
    }

    /// Builds a text message instance.
    pub fn text(
        msg_type: TextMsgType,
        from_id: UserId,
        to_id: UserId,
        channel_id: ChannelId,
        from_username: &str,
        text: &str,
    ) -> (r: Message)
        ensures
            r.spec_source() == from_id.0,
            r.spec_payload() matches Payload::Text(t) && t.msg_type == msg_type && t.from_id
                == from_id && t.to_id == to_id && t.channel_id == channel_id && t.from_username@
                == from_username@ && t.text@ == text@ && t.more == false,
    {
        let payload = TextMessage {
            msg_type,
            from_id,
            from_username: from_username.to_owned(),
            to_id,
            channel_id,
            text: text.to_owned(),
            more: false,
        };
        Message::from_parts(from_id.0, Payload::Text(payload))
    }
}

/// Builder for mock user messages.
pub struct MockUserBuilder {
    user: User,
}

impl MockUserBuilder {
    /// The user snapshot assembled so far.
    pub closed spec fn spec_user(&self) -> User {
        self.user
    }

    /// The message `build` assembles from the snapshot.
    pub open spec fn spec_message(&self) -> Message {
        Message::spec_new(self.spec_user().id.0, Payload::User(self.spec_user()))
    }

    /// Creates a new builder with the provided user id; every other field
    /// starts blank.
    pub fn new(id: UserId) -> (r: Self)
        ensures
            r.spec_user().id == id,
            r.spec_user().username@ == Seq::<char>::empty(),
            r.spec_user().nickname@ == Seq::<char>::empty(),
            r.spec_user().user_data == 0,
            r.spec_user().user_type == 0,
            r.spec_user().ip_address@ == Seq::<char>::empty(),
            r.spec_user().version == 0,
            r.spec_user().channel_id == ChannelId(0),
            r.spec_user().status == crate::types::status_of_bits(0),
            r.spec_user().status_msg@ == Seq::<char>::empty(),
            r.spec_user().state.spec_raw() == 0,
            r.spec_user().client_name@ == Seq::<char>::empty(),
    {
        MockUserBuilder {
            user: User {
                id,
                username: String::new(),
                nickname: String::new(),
                user_data: 0,
                user_type: 0,
                ip_address: String::new(),
                version: 0,
                channel_id: ChannelId(0),
                status: UserStatus::from_bits(0),
                status_msg: String::new(),
                state: UserState::from_raw(0),
                local_subscriptions: Subscriptions::new(),
                peer_subscriptions: Subscriptions::new(),
                client_name: String::new(),
            },
        }
    }

    /// Sets the username field.
    pub fn username(self, username: &str) -> (r: Self)
        ensures
            r.spec_user().username@ == username@,
            r.spec_user() == (User { username: r.spec_user().username, ..self.spec_user() }),
    {
        let mut b = self;
        b.user.username = username.to_owned();
        b
    }

    /// Sets the nickname field.
    pub fn nickname(self, nickname: &str) -> (r: Self)
        ensures
            r.spec_user().nickname@ == nickname@,
            r.spec_user() == (User { nickname: r.spec_user().nickname, ..self.spec_user() }),
    {
        let mut b = self;
        b.user.nickname = nickname.to_owned();
        b
    }

    /// Sets the client name field.
    pub fn client_name(self, client_name: &str) -> (r: Self)
        ensures
            r.spec_user().client_name@ == client_name@,
            r.spec_user() == (User { client_name: r.spec_user().client_name, ..self.spec_user() }),
    {
        let mut b = self;
        b.user.client_name = client_name.to_owned();
        b
    }

    /// Sets the IP address field.
    pub fn ip_address(self, ip_address: &str) -> (r: Self)
        ensures
            r.spec_user().ip_address@ == ip_address@,
            r.spec_user() == (User { ip_address: r.spec_user().ip_address, ..self.spec_user() }),
    {
        let mut b = self;
        b.user.ip_address = ip_address.to_owned();
        b
    }

    /// Sets the channel id field.
    pub fn channel_id(self, channel_id: ChannelId) -> (r: Self)
        ensures
            r.spec_user() == (User { channel_id, ..self.spec_user() }),
    {
        let mut b = self;
        b.user.channel_id = channel_id;
        b
    }

    /// Sets the status field.
    pub fn status(self, status: UserStatus) -> (r: Self)
        ensures
            r.spec_user() == (User { status, ..self.spec_user() }),
    {
        let mut b = self;
        b.user.status = status;
        b
    }

    /// Sets the state field.
    pub fn state(self, state: UserState) -> (r: Self)
        ensures
            r.spec_user() == (User { state, ..self.spec_user() }),
    {
        let mut b = self;
        b.user.state = state;
        b
    }

    /// Sets the user data field.
    pub fn user_data(self, user_data: i32) -> (r: Self)
        ensures
            r.spec_user() == (User { user_data, ..self.spec_user() }),
    {
        let mut b = self;
        b.user.user_data = user_data;
        b
    }

    /// Sets the user type field.
    pub fn user_type(self, user_type: u32) -> (r: Self)
        ensures
            r.spec_user() == (User { user_type, ..self.spec_user() }),
    {
        let mut b = self;
        b.user.user_type = user_type;
        b
    }

    /// Sets the protocol version field.
    pub fn version(self, version: u32) -> (r: Self)
        ensures
            r.spec_user() == (User { version, ..self.spec_user() }),
    {
        let mut b = self;
        b.user.version = version;
        b
    }

    /// Builds the message carrying the user snapshot.
    pub fn build(self) -> (r: Message)
        ensures
            r == self.spec_message(),
            r.spec_source() == self.spec_user().id.0,
            *r.spec_payload() == Payload::User(self.spec_user()),
    {
        let source = self.user.id.0;
        Message::from_parts(source, Payload::User(self.user))
    }
}

} // verus!
