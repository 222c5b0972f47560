use std::sync::Arc;
use std::sync::atomic::AtomicI32;
use std::sync::atomic::AtomicUsize;
use std::sync::atomic::Ordering;
use teamtalk::Event;
use teamtalk::dispatch::DispatchFlow;
use teamtalk::dispatch::EventContext;
use teamtalk::dispatch::EventHandler;
use teamtalk::events::ConnectionState;
use teamtalk::hooks::ClientHooks;
use teamtalk::mock::MockMessage;
use teamtalk::mock::MockUserBuilder;
use teamtalk::session::Session;
use teamtalk::types::ChannelId;
use teamtalk::types::UserId;

struct Recorder {
    count: Arc<AtomicUsize>,
    last_channel: Arc<AtomicI32>,
}

impl EventHandler for Recorder {
    fn handle<'a>(&mut self, ctx: EventContext<'a>) -> DispatchFlow {
        self.count.fetch_add(1, Ordering::SeqCst);
        if let Some(user) = ctx.message().user() {
            self.last_channel.store(user.channel_id.0, Ordering::SeqCst);
        }
        DispatchFlow::Continue
    }
}

fn recorder(count: &Arc<AtomicUsize>, channel: &Arc<AtomicI32>) -> Recorder {
    Recorder {
        count: Arc::clone(count),
        last_channel: Arc::clone(channel),
    }
}

#[test]
fn auto_join_flow_fires_joined_once() {
    // The session reports ConnectSuccess then MySelfLoggedIn; the stored
    // join target must surface as the action to perform, and a later
    // UserJoined for the local user id moves the session to
    // Joined(channel) and fires the joined hook exactly once with that
    // channel.
    let logged_in = Arc::new(AtomicUsize::new(0));
    let joined = Arc::new(AtomicUsize::new(0));
    let joined_channel = Arc::new(AtomicI32::new(0));
    let unused = Arc::new(AtomicI32::new(0));

    let hooks = ClientHooks::new()
        .on_logged_in(recorder(&logged_in, &unused))
        .on_joined(recorder(&joined, &joined_channel));
    let mut session = Session::new(hooks);
    session.set_my_id(UserId(42));
    session.store_join(ChannelId(7), "");

    session.note_connect_requested();
    assert_eq!(session.connection_state(), ConnectionState::Connecting);

    let empty = MockMessage::empty();
    let actions = session.process_event(&Event::ConnectSuccess, &empty);
    assert_eq!(session.connection_state(), ConnectionState::Connected);
    assert!(actions.join.is_none());

    let actions = session.process_event(&Event::MySelfLoggedIn, &empty);
    assert_eq!(session.connection_state(), ConnectionState::LoggedIn);
    let join = actions.join.expect("the stored join target must surface");
    assert_eq!(join.channel.0, 7);
    assert_eq!(logged_in.load(Ordering::SeqCst), 1);

    let self_joined = MockUserBuilder::new(UserId(42))
        .channel_id(ChannelId(7))
        .build();
    session.process_event(&Event::UserJoined, &self_joined);
    assert_eq!(session.connection_state(), ConnectionState::Joined(ChannelId(7)));
    assert_eq!(joined.load(Ordering::SeqCst), 1);
    assert_eq!(joined_channel.load(Ordering::SeqCst), 7);

    // The same event again neither re-fires the joined hook nor moves
    // the state.
    let self_joined = MockUserBuilder::new(UserId(42))
        .channel_id(ChannelId(7))
        .build();
    session.process_event(&Event::UserJoined, &self_joined);
    assert_eq!(session.connection_state(), ConnectionState::Joined(ChannelId(7)));
    assert_eq!(joined.load(Ordering::SeqCst), 1);
}

#[test]
fn foreign_user_does_not_move_the_session() {
    let count = Arc::new(AtomicUsize::new(0));
    let channel = Arc::new(AtomicI32::new(0));
    let hooks = ClientHooks::new().on_joined(recorder(&count, &channel));
    let mut session = Session::new(hooks);
    session.set_my_id(UserId(42));
    session.note_connect_requested();
    let empty = MockMessage::empty();
    session.process_event(&Event::ConnectSuccess, &empty);
    session.process_event(&Event::MySelfLoggedIn, &empty);

    let foreign = MockUserBuilder::new(UserId(9))
        .channel_id(ChannelId(3))
        .build();
    session.process_event(&Event::UserJoined, &foreign);
    assert_eq!(session.connection_state(), ConnectionState::LoggedIn);
    assert_eq!(count.load(Ordering::SeqCst), 0);
}

#[test]
fn stored_login_surfaces_on_connect() {
    let hooks: ClientHooks<Recorder> = ClientHooks::new();
    let mut session = Session::new(hooks);
    session.store_login(teamtalk::session::LoginParams {
        nickname: "nick".to_string(),
        username: "user".to_string(),
        password: "pass".to_string(),
        client_name: "client".to_string(),
    });
    session.note_connect_requested();
    let empty = MockMessage::empty();
    let actions = session.process_event(&Event::ConnectSuccess, &empty);
    let login = actions.login.expect("the stored login must surface");
    assert_eq!(login.username, "user");
    assert_eq!(login.nickname, "nick");
}

#[test]
fn failure_event_disconnects_from_any_state() {
    let hooks: ClientHooks<Recorder> = ClientHooks::new();
    let mut session = Session::new(hooks);
    session.note_connect_requested();
    let empty = MockMessage::empty();
    session.process_event(&Event::ConnectSuccess, &empty);
    session.process_event(&Event::MySelfLoggedIn, &empty);
    session.process_event(&Event::ConnectionLost, &empty);
    assert_eq!(session.connection_state(), ConnectionState::Disconnected);
}
