//! Fixed-slot event hooks: one named hook per well-known event kind.
//!
//! This is the simpler registration surface over the same matching and
//! ordering semantics as the dispatcher's handler list: a hook is keyed by
//! event kind, registering a second hook for the same kind overwrites the
//! first (overwrite, not merge), and firing an event invokes the
//! kind-specific hook and then the catch-all hook, each at most once.
use vstd::prelude::*;
use crate::dispatch::EventContext;
use crate::dispatch::EventHandler;
use crate::events::Event;
use crate::message::Message;
use crate::types::ChannelId;

verus! {

/// One recorded hook invocation, for reasoning about what fired.
#[derive(Debug, Clone, Copy, PartialEq, Eq, Structural)]
pub enum HookFire {
    /// The kind-specific hook fired for the event.
    Slot(Event),
    /// The catch-all hook fired for the event.
    Any(Event),
    /// The channel-joined hook fired with the joined channel.
    Joined(ChannelId),
}

/// The event value keying the reconnecting-notice slot; filters match
/// by kind, so the payload is immaterial.
pub open spec fn spec_notice_kind() -> Event {
    Event::Reconnecting { attempt: 0, delay_ms: 0 }
}

/// Whether some registered slot is keyed by the event's kind.
pub open spec fn spec_has_slot<H>(slots: Seq<(Event, H)>, ev: Event) -> bool {
    exists|i: int| 0 <= i < slots.len() && slots[i].0.spec_same_kind(&ev)
}

/// The invocations one `fire` of `ev` appends: the kind-specific hook if
/// one is registered, then the catch-all hook if one is registered.
pub open spec fn spec_fire_log<H>(
    slots: Seq<(Event, H)>,
    any_set: bool,
    ev: Event,
) -> Seq<HookFire> {
    (if spec_has_slot(slots, ev) {
        seq![HookFire::Slot(ev)]
    } else {
        Seq::empty()
    }) + (if any_set {
        seq![HookFire::Any(ev)]
    } else {
        Seq::empty()
    })
}

/// Fixed-slot event hooks for reacting to session activity.
pub struct ClientHooks<H: EventHandler> {
    slots: Vec<(Event, H)>,
    any: Option<H>,
    joined: Option<H>,
    fires: Ghost<Seq<HookFire>>,
}

impl<H: EventHandler> ClientHooks<H> {
    /// The kind-keyed slots, in registration order.
    pub closed spec fn spec_slots(&self) -> Seq<(Event, H)> {
        self.slots@
    }

    /// Whether a catch-all hook is registered.
    pub closed spec fn spec_any_set(&self) -> bool {
        self.any is Some
    }

    /// Whether a channel-joined hook is registered.
    pub closed spec fn spec_joined_set(&self) -> bool {
        self.joined is Some
    }

    /// The log of hook invocations, oldest first.
    pub closed spec fn spec_fires(&self) -> Seq<HookFire> {
        self.fires@
    }

    /// No two slots are keyed by the same event kind, so a matching event
    /// fires exactly one kind-specific hook.
    pub open spec fn wf(&self) -> bool {
        forall|i: int, j: int|
            0 <= i < j < self.spec_slots().len() ==> !(#[trigger] self.spec_slots()[i]).0.spec_same_kind(
                &(#[trigger] self.spec_slots()[j]).0,
            )
    }

    /// Creates an empty hook set.
    pub fn new() -> (r: Self)
        ensures
            r.wf(),
            r.spec_slots() == Seq::<(Event, H)>::empty(),
            !r.spec_any_set(),
            !r.spec_joined_set(),
            r.spec_fires() == Seq::<HookFire>::empty(),
    {
        ClientHooks { slots: Vec::new(), any: Option::None, joined: Option::None, fires: Ghost(Seq::empty()) }
    }

    /// Registers a hook for one event kind; a hook already registered for
    /// that kind is overwritten, not merged.
    pub fn register_hook(&mut self, event: Event, hook: H)
        requires
            old(self).wf(),
        ensures
            final(self).wf(),
            final(self).spec_any_set() == old(self).spec_any_set(),
            final(self).spec_joined_set() == old(self).spec_joined_set(),
            final(self).spec_fires() == old(self).spec_fires(),
            spec_has_slot(final(self).spec_slots(), event),
            forall|ev2: Event|
                spec_has_slot(final(self).spec_slots(), ev2) == (spec_has_slot(
                    old(self).spec_slots(),
                    ev2,
                ) || event.spec_same_kind(&ev2)),
    {
        let ghost slots0 = self.spec_slots();
        let mut i: usize = 0;
        let n = self.slots.len();
        while i < n
            invariant
                0 <= i <= n,
                n == self.slots.len(),
                self.wf(),
                slots0 == old(self).spec_slots(),
                self.spec_slots() == slots0,
                self.spec_any_set() == old(self).spec_any_set(),
                self.spec_joined_set() == old(self).spec_joined_set(),
                self.spec_fires() == old(self).spec_fires(),
                forall|j: int| 0 <= j < i ==> !(#[trigger] slots0[j]).0.spec_same_kind(&event),
            decreases n - i,
        {
            if self.slots[i].0.same_kind(&event) {
                self.slots[i] = (event, hook);
                proof {
                    assert(self.spec_slots() == slots0.update(i as int, (event, hook)));
                    assert(forall|k: int|
                        0 <= k < slots0.len() ==> (#[trigger] self.spec_slots()[k]).0.kind_index()
                            == slots0[k].0.kind_index());
                    assert forall|a: int, b: int|
                        0 <= a < b < self.spec_slots().len() implies !(#[trigger] self.spec_slots()[a]).0.spec_same_kind(
                            &(#[trigger] self.spec_slots()[b]).0,
                        ) by {
                        assert(!(slots0[a]).0.spec_same_kind(&(slots0[b]).0));
                        assert(self.spec_slots()[a].0.kind_index() == slots0[a].0.kind_index());
                        assert(self.spec_slots()[b].0.kind_index() == slots0[b].0.kind_index());
                    }
                    assert(self.wf());
                    assert forall|ev2: Event|
                        spec_has_slot(self.spec_slots(), ev2) == (spec_has_slot(slots0, ev2)
                            || event.spec_same_kind(&ev2)) by {
                        let slots1 = self.spec_slots();
                        if spec_has_slot(slots1, ev2) {
                            let k = choose|k: int|
                                0 <= k < slots1.len() && slots1[k].0.spec_same_kind(&ev2);
                            if k == i {
                                assert(event.spec_same_kind(&ev2));
                            } else {
                                assert(slots0[k].0.spec_same_kind(&ev2));
                            }
                        }
                        if spec_has_slot(slots0, ev2) {
                            let k = choose|k: int|
                                0 <= k < slots0.len() && slots0[k].0.spec_same_kind(&ev2);
                            if k == i {
                                // The replaced slot had the same kind as `event`.
                                assert(slots1[i as int].0.spec_same_kind(&ev2));
                            } else {
                                assert(slots1[k].0.spec_same_kind(&ev2));
                            }
                        }
                        if event.spec_same_kind(&ev2) {
                            assert(slots1[i as int].0.spec_same_kind(&ev2));
                        }
                    }
                }
                return ;
            }
            i = i + 1;
        }
        self.slots.push((event, hook));
        proof {
            assert(self.spec_slots() == slots0.push((event, hook)));
            assert forall|a: int, b: int|
                0 <= a < b < self.spec_slots().len() implies !(#[trigger] self.spec_slots()[a]).0.spec_same_kind(
                    &(#[trigger] self.spec_slots()[b]).0,
                ) by {
                if b < slots0.len() {
                    assert(!(slots0[a]).0.spec_same_kind(&(slots0[b]).0));
                } else {
                    assert(self.spec_slots()[b].0 == event);
                    assert(!(slots0[a]).0.spec_same_kind(&event));
                }
            }
            assert(self.wf());
            assert forall|ev2: Event|
                spec_has_slot(self.spec_slots(), ev2) == (spec_has_slot(slots0, ev2)
                    || event.spec_same_kind(&ev2)) by {
                let slots1 = self.spec_slots();
                if spec_has_slot(slots1, ev2) {
                    let k = choose|k: int| 0 <= k < slots1.len() && slots1[k].0.spec_same_kind(&ev2);
                    if k == slots0.len() {
                        assert(event.spec_same_kind(&ev2));
                    } else {
                        assert(slots0[k].0.spec_same_kind(&ev2));
                    }
                }
                if spec_has_slot(slots0, ev2) {
                    let k = choose|k: int| 0 <= k < slots0.len() && slots0[k].0.spec_same_kind(&ev2);
                    assert(slots1[k].0.spec_same_kind(&ev2));
                }
                if event.spec_same_kind(&ev2) {
                    assert(slots1[slots0.len() as int].0.spec_same_kind(&ev2));
                }
            }
            assert(self.spec_slots()[slots0.len() as int].0.spec_same_kind(&event));
            assert(spec_has_slot(self.spec_slots(), event));
        }
    }

    /// Registers a hook which receives every event.
    pub fn register_any_hook(&mut self, hook: H)
        requires
            old(self).wf(),
        ensures
            final(self).wf(),
            final(self).spec_slots() == old(self).spec_slots(),
            final(self).spec_any_set(),
            final(self).spec_joined_set() == old(self).spec_joined_set(),
            final(self).spec_fires() == old(self).spec_fires(),
    {
        self.any = Option::Some(hook);
        proof {
            assert(self.spec_slots() =~= old(self).spec_slots());
            assert(self.wf());
        }
    }

    /// Registers the hook fired when the session enters a channel.
    pub fn register_joined_hook(&mut self, hook: H)
        requires
            old(self).wf(),
        ensures
            final(self).wf(),
            final(self).spec_slots() == old(self).spec_slots(),
            final(self).spec_any_set() == old(self).spec_any_set(),
            final(self).spec_joined_set(),
            final(self).spec_fires() == old(self).spec_fires(),
    {
        self.joined = Option::Some(hook);
        proof {
            assert(self.spec_slots() =~= old(self).spec_slots());
            assert(self.wf());
        }
    }

    /// Fires the hooks for one event: the kind-specific hook, if one is
    /// registered, then the catch-all hook; each runs at most once.
    pub fn fire(&mut self, event: Event, message: &Message)
        requires
            old(self).wf(),
        ensures
            final(self).wf(),
            final(self).spec_any_set() == old(self).spec_any_set(),
            final(self).spec_joined_set() == old(self).spec_joined_set(),
            final(self).spec_slots().len() == old(self).spec_slots().len(),
            forall|j: int|
                0 <= j < old(self).spec_slots().len()
                    ==> (#[trigger] final(self).spec_slots()[j]).0 == old(self).spec_slots()[j].0,
            final(self).spec_fires() == old(self).spec_fires() + spec_fire_log(
                old(self).spec_slots(),
                old(self).spec_any_set(),
                event,
            ),
    {
        let ghost slots0 = self.spec_slots();
        let mut fired_slot = false;
        let mut i: usize = 0;
        let n = self.slots.len();
        while i < n
            invariant_except_break
                !fired_slot,
                self.spec_fires() == old(self).spec_fires(),
            invariant
                0 <= i <= n,
                n == self.slots.len(),
                self.wf(),
                slots0 == old(self).spec_slots(),
                self.spec_any_set() == old(self).spec_any_set(),
                self.spec_joined_set() == old(self).spec_joined_set(),
                forall|j: int|
                    0 <= j < self.spec_slots().len() ==> (#[trigger] self.spec_slots()[j]).0
                        == slots0[j].0,
                self.spec_slots().len() == slots0.len(),
                forall|j: int| 0 <= j < i ==> !(#[trigger] slots0[j]).0.spec_same_kind(&event),
            ensures
                n == self.slots.len(),
                self.wf(),
                self.spec_any_set() == old(self).spec_any_set(),
                self.spec_joined_set() == old(self).spec_joined_set(),
                fired_slot == spec_has_slot(slots0, event),
                self.spec_fires() == old(self).spec_fires() + (if fired_slot {
                    seq![HookFire::Slot(event)]
                } else {
                    Seq::<HookFire>::empty()
                }),
            decreases n - i,
        {
            let matched = self.slots[i].0.same_kind(&event);
            if matched {
                let ctx = EventContext::new(event, message);
                let entry = &mut self.slots[i];
                let _ = entry.1.handle(ctx);
                fired_slot = true;
                proof {
                    self.fires@ = self.fires@.push(HookFire::Slot(event));
                    assert(slots0[i as int].0.spec_same_kind(&event));
                    assert(spec_has_slot(slots0, event));
                    assert(self.spec_fires() =~= old(self).spec_fires() + seq![
                        HookFire::Slot(event),
                    ]);
                }
                // A second slot of the same kind cannot exist.
                break ;
            }
            i = i + 1;
        }
        match &mut self.any {
            Option::Some(hook) => {
                let ctx = EventContext::new(event, message);
                let _ = hook.handle(ctx);
                proof {
                    self.fires@ = self.fires@.push(HookFire::Any(event));
                }
            },
            Option::None => {},
        }
        proof {
            assert(self.spec_fires() =~= old(self).spec_fires() + spec_fire_log(
                slots0,
                old(self).spec_any_set(),
                event,
            ));
        }
    }

    /// Fires the channel-joined hook, if one is registered, with a
    /// message carrying the joined channel.
    pub fn fire_joined(&mut self, channel: ChannelId, message: &Message)
        requires
            old(self).wf(),
        ensures
            final(self).wf(),
            final(self).spec_slots() == old(self).spec_slots(),
            final(self).spec_any_set() == old(self).spec_any_set(),
            final(self).spec_joined_set() == old(self).spec_joined_set(),
            final(self).spec_fires() == old(self).spec_fires() + (if old(self).spec_joined_set() {
                seq![HookFire::Joined(channel)]
            } else {
                Seq::<HookFire>::empty()
            }),
    {
        match &mut self.joined {
            Option::Some(hook) => {
                let ctx = EventContext::new(Event::UserJoined, message);
                let _ = hook.handle(ctx);
                proof {
                    self.fires@ = self.fires@.push(HookFire::Joined(channel));
                }
            },
            Option::None => {},
        }
        proof {
            assert(self.spec_slots() =~= old(self).spec_slots());
            assert(self.wf());
            assert(self.spec_fires() =~= old(self).spec_fires() + (if old(
                self,
            ).spec_joined_set() {
                seq![HookFire::Joined(channel)]
            } else {
                Seq::<HookFire>::empty()
            }));
        }
    }

    /// Registers a hook for successful connections.
    pub fn on_connect_success(self, hook: H) -> (r: Self)
        requires
            self.wf(),
        ensures
            r.wf(),
            spec_has_slot(r.spec_slots(), Event::ConnectSuccess),
            r.spec_any_set() == self.spec_any_set(),
            r.spec_joined_set() == self.spec_joined_set(),
            r.spec_fires() == self.spec_fires(),
            forall|ev2: Event|
                spec_has_slot(r.spec_slots(), ev2) == (spec_has_slot(self.spec_slots(), ev2)
                    || Event::ConnectSuccess.spec_same_kind(&ev2)),
    {
        let mut h = self;
        h.register_hook(Event::ConnectSuccess, hook);
        h
    }

    /// Registers a hook for failed connections.
    pub fn on_connect_failed(self, hook: H) -> (r: Self)
        requires
            self.wf(),
        ensures
            r.wf(),
            spec_has_slot(r.spec_slots(), Event::ConnectFailed),
            r.spec_any_set() == self.spec_any_set(),
            r.spec_joined_set() == self.spec_joined_set(),
            r.spec_fires() == self.spec_fires(),
            forall|ev2: Event|
                spec_has_slot(r.spec_slots(), ev2) == (spec_has_slot(self.spec_slots(), ev2)
                    || Event::ConnectFailed.spec_same_kind(&ev2)),
    {
        let mut h = self;
        h.register_hook(Event::ConnectFailed, hook);
        h
    }

    /// Registers a hook for connection loss.
    pub fn on_connection_lost(self, hook: H) -> (r: Self)
        requires
            self.wf(),
        ensures
            r.wf(),
            spec_has_slot(r.spec_slots(), Event::ConnectionLost),
            r.spec_any_set() == self.spec_any_set(),
            r.spec_joined_set() == self.spec_joined_set(),
            r.spec_fires() == self.spec_fires(),
            forall|ev2: Event|
                spec_has_slot(r.spec_slots(), ev2) == (spec_has_slot(self.spec_slots(), ev2)
                    || Event::ConnectionLost.spec_same_kind(&ev2)),
    {
        let mut h = self;
        h.register_hook(Event::ConnectionLost, hook);
        h
    }

    /// Registers a hook for successful login.
    pub fn on_logged_in(self, hook: H) -> (r: Self)
        requires
            self.wf(),
        ensures
            r.wf(),
            spec_has_slot(r.spec_slots(), Event::MySelfLoggedIn),
            r.spec_any_set() == self.spec_any_set(),
            r.spec_joined_set() == self.spec_joined_set(),
            r.spec_fires() == self.spec_fires(),
            forall|ev2: Event|
                spec_has_slot(r.spec_slots(), ev2) == (spec_has_slot(self.spec_slots(), ev2)
                    || Event::MySelfLoggedIn.spec_same_kind(&ev2)),
    {
        let mut h = self;
        h.register_hook(Event::MySelfLoggedIn, hook);
        h
    }

    /// Registers a hook for logout.
    pub fn on_logged_out(self, hook: H) -> (r: Self)
        requires
            self.wf(),
        ensures
            r.wf(),
            spec_has_slot(r.spec_slots(), Event::MySelfLoggedOut),
            r.spec_any_set() == self.spec_any_set(),
            r.spec_joined_set() == self.spec_joined_set(),
            r.spec_fires() == self.spec_fires(),
            forall|ev2: Event|
                spec_has_slot(r.spec_slots(), ev2) == (spec_has_slot(self.spec_slots(), ev2)
                    || Event::MySelfLoggedOut.spec_same_kind(&ev2)),
    {
        let mut h = self;
        h.register_hook(Event::MySelfLoggedOut, hook);
        h
    }

    /// Registers a hook for any user join event.
    pub fn on_user_joined(self, hook: H) -> (r: Self)
        requires
            self.wf(),
        ensures
            r.wf(),
            spec_has_slot(r.spec_slots(), Event::UserJoined),
            r.spec_any_set() == self.spec_any_set(),
            r.spec_joined_set() == self.spec_joined_set(),
            r.spec_fires() == self.spec_fires(),
            forall|ev2: Event|
                spec_has_slot(r.spec_slots(), ev2) == (spec_has_slot(self.spec_slots(), ev2)
                    || Event::UserJoined.spec_same_kind(&ev2)),
    {
        let mut h = self;
        h.register_hook(Event::UserJoined, hook);
        h
    }

    /// Registers a hook for any user leave event.
    pub fn on_user_left(self, hook: H) -> (r: Self)
        requires
            self.wf(),
        ensures
            r.wf(),
            spec_has_slot(r.spec_slots(), Event::UserLeft),
            r.spec_any_set() == self.spec_any_set(),
            r.spec_joined_set() == self.spec_joined_set(),
            r.spec_fires() == self.spec_fires(),
            forall|ev2: Event|
                spec_has_slot(r.spec_slots(), ev2) == (spec_has_slot(self.spec_slots(), ev2)
                    || Event::UserLeft.spec_same_kind(&ev2)),
    {
        let mut h = self;
        h.register_hook(Event::UserLeft, hook);
        h
    }

    /// Registers a hook for text messages.
    pub fn on_text_message(self, hook: H) -> (r: Self)
        requires
            self.wf(),
        ensures
            r.wf(),
            spec_has_slot(r.spec_slots(), Event::TextMessage),
            r.spec_any_set() == self.spec_any_set(),
            r.spec_joined_set() == self.spec_joined_set(),
            r.spec_fires() == self.spec_fires(),
            forall|ev2: Event|
                spec_has_slot(r.spec_slots(), ev2) == (spec_has_slot(self.spec_slots(), ev2)
                    || Event::TextMessage.spec_same_kind(&ev2)),
    {
        let mut h = self;
        h.register_hook(Event::TextMessage, hook);
        h
    }

    /// Registers a hook for command errors.
    pub fn on_cmd_error(self, hook: H) -> (r: Self)
        requires
            self.wf(),
        ensures
            r.wf(),
            spec_has_slot(r.spec_slots(), Event::CmdError),
            r.spec_any_set() == self.spec_any_set(),
            r.spec_joined_set() == self.spec_joined_set(),
            r.spec_fires() == self.spec_fires(),
            forall|ev2: Event|
                spec_has_slot(r.spec_slots(), ev2) == (spec_has_slot(self.spec_slots(), ev2)
                    || Event::CmdError.spec_same_kind(&ev2)),
    {
        let mut h = self;
        h.register_hook(Event::CmdError, hook);
        h
    }

    /// Registers a hook for reconnecting notifications.
    pub fn on_reconnecting(self, hook: H) -> (r: Self)
        requires
            self.wf(),
        ensures
            r.wf(),
            spec_has_slot(r.spec_slots(), spec_notice_kind()),
            r.spec_any_set() == self.spec_any_set(),
            r.spec_joined_set() == self.spec_joined_set(),
            r.spec_fires() == self.spec_fires(),
            forall|ev2: Event|
                spec_has_slot(r.spec_slots(), ev2) == (spec_has_slot(self.spec_slots(), ev2)
                    || ev2 is Reconnecting),
    {
        let mut h = self;
        let notice_kind = Event::Reconnecting { attempt: 0, delay_ms: 0 };
        h.register_hook(notice_kind, hook);
        proof {
            assert forall|ev2: Event|
                spec_has_slot(h.spec_slots(), ev2) == (spec_has_slot(self.spec_slots(), ev2) || ev2
                    is Reconnecting) by {
                assert(notice_kind.spec_same_kind(&ev2) == (ev2 is Reconnecting));
            }
        }
        h
    }

    /// Registers a hook which receives every event.
    pub fn on_event(self, hook: H) -> (r: Self)
        requires
            self.wf(),
        ensures
            r.wf(),
            r.spec_any_set(),
            r.spec_slots() == self.spec_slots(),
            r.spec_fires() == self.spec_fires(),
    {
        let mut h = self;
        h.register_any_hook(hook);
        h
    }

    /// Registers the hook fired when the session enters a channel.
    pub fn on_joined(self, hook: H) -> (r: Self)
        requires
            self.wf(),
        ensures
            r.wf(),
            r.spec_joined_set(),
            r.spec_slots() == self.spec_slots(),
            r.spec_any_set() == self.spec_any_set(),
            r.spec_fires() == self.spec_fires(),
    {
        let mut h = self;
        h.register_joined_hook(hook);
        h
    }
}

} // verus!
