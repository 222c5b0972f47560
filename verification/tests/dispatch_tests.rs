use std::sync::Arc;
use std::sync::Mutex;
use std::sync::atomic::AtomicUsize;
use std::sync::atomic::Ordering;
use teamtalk::Event;
use teamtalk::dispatch::combine_flows;
use teamtalk::dispatch::ClientConfig;
use teamtalk::dispatch::ConnectParamsOwned;
use teamtalk::events::Error;
use teamtalk::reconnect::ReconnectConfig;
use teamtalk::dispatch::DispatchFlow;
use teamtalk::dispatch::Dispatcher;
use teamtalk::dispatch::EventContext;
use teamtalk::dispatch::EventHandler;
use teamtalk::mock::MockClient;
use teamtalk::mock::MockMessage;
use teamtalk::mock::MockUserBuilder;
use teamtalk::types::ChannelId;
use teamtalk::types::TextMsgType;
use teamtalk::types::UserId;

enum TestHandler {
    Joined(Arc<AtomicUsize>),
    Text(Arc<AtomicUsize>),
    Any(Arc<AtomicUsize>),
    Notice(Arc<Mutex<Vec<u32>>>),
    Stop,
}

impl EventHandler for TestHandler {
    fn handle<'a>(&mut self, ctx: EventContext<'a>) -> DispatchFlow {
        match self {
            TestHandler::Joined(count) => {
                let user = ctx.message().user().unwrap();
                assert_eq!(user.id.0, 1);
                count.fetch_add(1, Ordering::SeqCst);
                DispatchFlow::Continue
            }
            TestHandler::Text(count) => {
                let text = ctx.message().text().unwrap();
                assert_eq!(text.text, "hi");
                count.fetch_add(1, Ordering::SeqCst);
                DispatchFlow::Continue
            }
            TestHandler::Any(count) => {
                count.fetch_add(1, Ordering::SeqCst);
                DispatchFlow::Continue
            }
            TestHandler::Notice(seen) => {
                if let Event::Reconnecting { attempt, .. } = ctx.event() {
                    seen.lock().unwrap().push(attempt);
                }
                DispatchFlow::Continue
            }
            TestHandler::Stop => DispatchFlow::Stop,
        }
    }
}

#[test]
fn dispatcher_dispatches_events() {
    let mut mock = MockClient::new();
    let user = MockUserBuilder::new(UserId(1))
        .username("alice")
        .nickname("a");
    mock.push_user_joined(user);
    let msg = MockMessage::text(
        TextMsgType::User,
        UserId(1),
        UserId(2),
        ChannelId(3),
        "alice",
        "hi",
    );
    mock.push_text_message(msg);

    let joined = Arc::new(AtomicUsize::new(0));
    let messages = Arc::new(AtomicUsize::new(0));
    let any = Arc::new(AtomicUsize::new(0));

    let mut dispatcher = Dispatcher::new(mock)
        .on_user_joined(TestHandler::Joined(Arc::clone(&joined)))
        .on_text_message(TestHandler::Text(Arc::clone(&messages)))
        .on_any(TestHandler::Any(Arc::clone(&any)));

    dispatcher.step(0, 0);
    dispatcher.step(0, 0);
    dispatcher.step(0, 0);

    assert_eq!(joined.load(Ordering::SeqCst), 1);
    assert_eq!(messages.load(Ordering::SeqCst), 1);
    assert_eq!(any.load(Ordering::SeqCst), 2);
}

#[test]
fn dispatcher_stop_flow() {
    let mut mock = MockClient::new();
    mock.push_event(Event::ConnectFailed);
    let mut dispatcher = Dispatcher::new(mock).on_connect_failed(TestHandler::Stop);
    let flow = dispatcher.step(0, 0);
    assert!(matches!(flow, DispatchFlow::Stop));
}

#[test]
fn dispatcher_stop_does_not_cut_dispatch_short() {
    // A handler that stops must not keep a later-registered handler for
    // the same event from running.
    let mut mock = MockClient::new();
    mock.push_event(Event::ConnectFailed);
    let late = Arc::new(AtomicUsize::new(0));
    let mut dispatcher = Dispatcher::new(mock)
        .on_connect_failed(TestHandler::Stop)
        .on_any(TestHandler::Any(Arc::clone(&late)));
    let flow = dispatcher.step(0, 0);
    assert!(matches!(flow, DispatchFlow::Stop));
    assert_eq!(late.load(Ordering::SeqCst), 1);
}

#[test]
fn combine_flows_stops_when_any_stops() {
    let all_continue = vec![DispatchFlow::Continue, DispatchFlow::Continue];
    assert!(matches!(combine_flows(&all_continue), DispatchFlow::Continue));
    let with_stop = vec![
        DispatchFlow::Continue,
        DispatchFlow::Stop,
        DispatchFlow::Continue,
    ];
    assert!(matches!(combine_flows(&with_stop), DispatchFlow::Stop));
    let none: Vec<DispatchFlow> = Vec::new();
    assert!(matches!(combine_flows(&none), DispatchFlow::Continue));
}

#[test]
fn dispatcher_run_drains_source() {
    let mut mock = MockClient::new();
    mock.push_event(Event::CmdSuccess);
    mock.push_event(Event::CmdSuccess);
    let seen = Arc::new(AtomicUsize::new(0));
    let mut dispatcher = Dispatcher::new(mock).on_any(TestHandler::Any(Arc::clone(&seen)));
    let flow = dispatcher.run(0);
    assert!(matches!(flow, DispatchFlow::Continue));
    assert_eq!(seen.load(Ordering::SeqCst), 2);
}

#[test]
fn dispatcher_schedules_reconnect_on_failure() {
    let mut mock = MockClient::new();
    mock.push_event(Event::ConnectionLost);
    let params = ConnectParamsOwned::new("example.invalid", 10333, 10333, false);
    let policy = ReconnectConfig {
        max_attempts: 3,
        min_delay_ms: 0,
        max_delay_ms: 0,
        stability_threshold_ms: 1_000,
    };
    let config = ClientConfig::new().reconnect(params, policy);
    let notices = Arc::new(AtomicUsize::new(0));
    let mut dispatcher = Dispatcher::with_config(mock, config)
        .unwrap()
        .on_event(
            Event::Reconnecting { attempt: 0, delay_ms: 0 },
            TestHandler::Any(Arc::clone(&notices)),
        );
    dispatcher.step(0, 0);
    // The failure event scheduled one reconnect attempt: the source was
    // asked to connect and a Reconnecting notice was dispatched.
    assert_eq!(dispatcher.source().connect_requests(), 1);
    assert_eq!(notices.load(Ordering::SeqCst), 1);
}

#[test]
fn invalid_reconnect_policy_is_refused() {
    let mock = MockClient::new();
    let params = ConnectParamsOwned::new("example.invalid", 10333, 10333, false);
    let policy = ReconnectConfig {
        max_attempts: 3,
        min_delay_ms: 500,
        max_delay_ms: 100,
        stability_threshold_ms: 1_000,
    };
    let config = ClientConfig::new().reconnect(params, policy);
    match Dispatcher::<MockClient, TestHandler>::with_config(mock, config) {
        Err(Error::InvalidParam) => {}
        _ => panic!("an inverted delay policy must be refused"),
    }
}

#[test]
fn stable_uptime_resets_the_attempt_counter() {
    // Two failures separated by a long uptime: the first schedules
    // attempt one; the connection then stays up beyond the stability
    // threshold, so the next failure starts counting from zero again
    // and its notice also carries attempt one.
    let mut mock = MockClient::new();
    mock.push_event(Event::ConnectionLost);
    mock.push_event(Event::ConnectSuccess);
    mock.push_event(Event::ConnectionLost);
    let params = ConnectParamsOwned::new("example.invalid", 10333, 10333, false);
    let policy = ReconnectConfig {
        max_attempts: 10,
        min_delay_ms: 0,
        max_delay_ms: 0,
        stability_threshold_ms: 10_000,
    };
    let config = ClientConfig::new().reconnect(params, policy);
    let attempts = Arc::new(Mutex::new(Vec::new()));
    let mut dispatcher = Dispatcher::with_config(mock, config)
        .unwrap()
        .on_event(
            Event::Reconnecting { attempt: 0, delay_ms: 0 },
            TestHandler::Notice(Arc::clone(&attempts)),
        );
    dispatcher.step(0, 0);
    dispatcher.step(0, 1_000);
    dispatcher.step(0, 16_000);
    assert_eq!(*attempts.lock().unwrap(), vec![1, 1]);
}

#[test]
fn short_uptime_keeps_escalating_attempts() {
    // The same sequence with only a brief uptime: the counter is
    // preserved across the disconnect and the second notice carries
    // attempt two.
    let mut mock = MockClient::new();
    mock.push_event(Event::ConnectionLost);
    mock.push_event(Event::ConnectSuccess);
    mock.push_event(Event::ConnectionLost);
    let params = ConnectParamsOwned::new("example.invalid", 10333, 10333, false);
    let policy = ReconnectConfig {
        max_attempts: 10,
        min_delay_ms: 0,
        max_delay_ms: 0,
        stability_threshold_ms: 10_000,
    };
    let config = ClientConfig::new().reconnect(params, policy);
    let attempts = Arc::new(Mutex::new(Vec::new()));
    let mut dispatcher = Dispatcher::with_config(mock, config)
        .unwrap()
        .on_event(
            Event::Reconnecting { attempt: 0, delay_ms: 0 },
            TestHandler::Notice(Arc::clone(&attempts)),
        );
    dispatcher.step(0, 0);
    dispatcher.step(0, 1_000);
    dispatcher.step(0, 5_000);
    assert_eq!(*attempts.lock().unwrap(), vec![1, 2]);
}

#[test]
fn crypt_error_triggers_reconnect() {
    let mut mock = MockClient::new();
    mock.push_event(Event::ConnectCryptError);
    let params = ConnectParamsOwned::new("example.invalid", 10333, 10333, false);
    let policy = ReconnectConfig {
        max_attempts: 3,
        min_delay_ms: 0,
        max_delay_ms: 0,
        stability_threshold_ms: 1_000,
    };
    let config = ClientConfig::new().reconnect(params, policy);
    let mut dispatcher: Dispatcher<MockClient, TestHandler> =
        Dispatcher::with_config(mock, config).unwrap();
    dispatcher.step(0, 0);
    assert_eq!(dispatcher.source().connect_requests(), 1);
}

#[test]
fn run_stops_at_a_handler_request_and_keeps_the_rest_queued() {
    let mut mock = MockClient::new();
    mock.push_event(Event::ConnectFailed);
    mock.push_event(Event::CmdSuccess);
    let mut dispatcher = Dispatcher::new(mock).on_connect_failed(TestHandler::Stop);
    let flow = dispatcher.run(0);
    assert!(matches!(flow, DispatchFlow::Stop));
    // The stopping event was consumed; the later one is still queued.
    assert_eq!(dispatcher.source().len(), 1);
}
