use std::sync::Arc;
use std::sync::atomic::AtomicUsize;
use std::sync::atomic::Ordering;
use teamtalk::Event;
use teamtalk::dispatch::DispatchFlow;
use teamtalk::dispatch::EventContext;
use teamtalk::dispatch::EventHandler;
use teamtalk::hooks::ClientHooks;
use teamtalk::mock::MockMessage;

struct Counter(Arc<AtomicUsize>);

impl EventHandler for Counter {
    fn handle<'a>(&mut self, _ctx: EventContext<'a>) -> DispatchFlow {
        self.0.fetch_add(1, Ordering::SeqCst);
        DispatchFlow::Continue
    }
}

#[test]
fn reregistering_a_hook_overwrites_it() {
    // The fixed-slot surface keeps one hook per event kind: the last
    // registration for a kind wins, it is an overwrite, not a merge.
    let first = Arc::new(AtomicUsize::new(0));
    let second = Arc::new(AtomicUsize::new(0));
    let mut hooks = ClientHooks::new()
        .on_connect_success(Counter(Arc::clone(&first)))
        .on_connect_success(Counter(Arc::clone(&second)));
    let empty = MockMessage::empty();
    hooks.fire(Event::ConnectSuccess, &empty);
    assert_eq!(first.load(Ordering::SeqCst), 0);
    assert_eq!(second.load(Ordering::SeqCst), 1);
}

#[test]
fn slot_and_catch_all_each_fire_once() {
    let slot = Arc::new(AtomicUsize::new(0));
    let any = Arc::new(AtomicUsize::new(0));
    let mut hooks = ClientHooks::new()
        .on_text_message(Counter(Arc::clone(&slot)))
        .on_event(Counter(Arc::clone(&any)));
    let empty = MockMessage::empty();
    hooks.fire(Event::TextMessage, &empty);
    assert_eq!(slot.load(Ordering::SeqCst), 1);
    assert_eq!(any.load(Ordering::SeqCst), 1);
    // A different kind reaches only the catch-all hook.
    hooks.fire(Event::CmdSuccess, &empty);
    assert_eq!(slot.load(Ordering::SeqCst), 1);
    assert_eq!(any.load(Ordering::SeqCst), 2);
}

#[test]
fn unregistered_kind_fires_nothing() {
    let slot = Arc::new(AtomicUsize::new(0));
    let mut hooks = ClientHooks::new().on_user_left(Counter(Arc::clone(&slot)));
    let empty = MockMessage::empty();
    hooks.fire(Event::UserJoined, &empty);
    assert_eq!(slot.load(Ordering::SeqCst), 0);
}
