//! Coordinated polling of many sessions with aggregated health reporting.
//!
//! One fairness pass visits every registered session exactly once, in
//! registration order, forwards each observed event to a single ordered
//! queue and stamps per-session health. The caller drives the passes and
//! sleeps between them when nothing was produced; the manager itself
//! never blocks.
use vstd::prelude::*;
use crate::dispatch::EventSource;
use crate::events::Event;
use crate::types::ClientId;

verus! {

/// One record forwarded to the consumer-facing queue.
#[derive(Debug)]
pub struct ClientEvent {
    pub client_id: ClientId,
    pub label: Option<String>,
    pub event: Event,
    pub at_ms: u64,
}

impl Clone for ClientEvent {
    /// The copy carries exactly the same fields.
    fn clone(&self) -> (res: Self)
        ensures
            res == *self,
    {
        ClientEvent {
            client_id: self.client_id,
            label: clone_opt_string(&self.label),
            event: self.event,
            at_ms: self.at_ms,
        }
    }
}

/// Copies an optional string.
fn clone_opt_string(v: &Option<String>) -> (r: Option<String>)
    ensures
        r == *v,
{
    match v {
        Option::Some(s) => Option::Some(s.clone()),
        Option::None => Option::None,
    }
}

/// Per-session health: the last observed event, its timestamp, and when
/// the session was last polled.
#[derive(Debug, Clone, Copy)]
pub struct ClientHealth {
    pub last_event: Option<Event>,
    pub last_event_at_ms: Option<u64>,
    pub last_poll_at_ms: Option<u64>,
}

impl ClientHealth {
    /// A fresh entry: nothing observed yet.
    pub fn empty() -> (r: Self)
        ensures
            r.last_event is None,
            r.last_event_at_ms is None,
            r.last_poll_at_ms is None,
    {
        ClientHealth { last_event: Option::None, last_event_at_ms: Option::None, last_poll_at_ms: Option::None }
    }
}

/// One registered session: its id, an optional label and its source.
pub struct ManagedClient<S> {
    pub id: ClientId,
    pub label: Option<String>,
    pub source: S,
}

/// The records one fairness pass over `entries` forwards at time `now`:
/// one record per session whose queue holds an event, in registration
/// order, carrying that session's oldest event.
pub open spec fn spec_pass_records<S: EventSource>(
    entries: Seq<ManagedClient<S>>,
    now_ms: u64,
) -> Seq<ClientEvent>
    decreases entries.len(),
{
    if entries.len() == 0 {
        Seq::empty()
    } else {
        let rest = spec_pass_records(entries.drop_last(), now_ms);
        let last = entries.last();
        if last.source.pending().len() > 0 {
            rest.push(
                ClientEvent {
                    client_id: last.id,
                    label: last.label,
                    event: last.source.pending()[0].0,
                    at_ms: now_ms,
                },
            )
        } else {
            rest
        }
    }
}

/// When every registered session holds at least one queued event, one
/// pass forwards exactly one record per session: the pass is fair, no
/// session is skipped and none is visited twice.
pub proof fn lemma_full_pass_is_fair<S: EventSource>(entries: Seq<ManagedClient<S>>, now_ms: u64)
    requires
        forall|i: int|
            0 <= i < entries.len() ==> (#[trigger] entries[i]).source.pending().len() > 0,
    ensures
        spec_pass_records(entries, now_ms).len() == entries.len(),
        forall|i: int|
            0 <= i < entries.len() ==> (#[trigger] spec_pass_records(entries, now_ms)[i]).client_id
                == entries[i].id && spec_pass_records(entries, now_ms)[i].event == entries[i].source.pending()[0].0,
    decreases entries.len(),
{
    if entries.len() > 0 {
        let prefix = entries.drop_last();
        assert(forall|i: int|
            0 <= i < prefix.len() ==> (#[trigger] prefix[i]).source.pending().len() > 0);
        lemma_full_pass_is_fair(prefix, now_ms);
        assert(forall|i: int| 0 <= i < prefix.len() ==> prefix[i] == entries[i]);
    }
}

/// Polls a collection of sessions round-robin and aggregates their
/// events and health.
pub struct ClientManager<S: EventSource> {
    entries: Vec<ManagedClient<S>>,
    health: Vec<(ClientId, ClientHealth)>,
    events: Vec<ClientEvent>,
    poll_timeout_ms: i32,
    tick_sleep_ms: u64,
}

impl<S: EventSource> ClientManager<S> {
    /// The registered sessions, in registration order.
    pub closed spec fn spec_entries(&self) -> Seq<ManagedClient<S>> {
        self.entries@
    }

    /// The per-session health entries, aligned with the sessions.
    pub closed spec fn spec_health(&self) -> Seq<(ClientId, ClientHealth)> {
        self.health@
    }

    /// The forwarded records not yet drained, oldest first.
    pub closed spec fn spec_events(&self) -> Seq<ClientEvent> {
        self.events@
    }

    /// The configured per-session poll timeout.
    pub closed spec fn spec_poll_timeout_ms(&self) -> i32 {
        self.poll_timeout_ms
    }

    /// The configured idle sleep, in milliseconds.
    pub closed spec fn spec_tick_sleep_ms(&self) -> u64 {
        self.tick_sleep_ms
    }

    /// Health entries mirror the sessions one for one, in the same
    /// order.
    pub open spec fn wf(&self) -> bool {
        &&& self.spec_health().len() == self.spec_entries().len()
        &&& forall|i: int|
            0 <= i < self.spec_entries().len() ==> (#[trigger] self.spec_health()[i]).0 == self.spec_entries()[i].id
    }

    /// Creates an empty manager with a zero poll timeout and a
    /// one-millisecond idle sleep.
    pub fn new() -> (r: Self)
        ensures
            r.wf(),
            r.spec_entries() == Seq::<ManagedClient<S>>::empty(),
            r.spec_events() == Seq::<ClientEvent>::empty(),
            r.spec_poll_timeout_ms() == 0,
            r.spec_tick_sleep_ms() == 1,
    {
        ClientManager {
            entries: Vec::new(),
            health: Vec::new(),
            events: Vec::new(),
            poll_timeout_ms: 0,
            tick_sleep_ms: 1,
        }
    }

    /// Registers a session under an id and an optional label; it is
    /// visited starting from the next pass, with a fresh health entry.
    pub fn add_client(&mut self, id: ClientId, label: Option<String>, source: S)
        requires
            old(self).wf(),
        ensures
            final(self).wf(),
            final(self).spec_entries().len() == old(self).spec_entries().len() + 1,
            forall|i: int|
                0 <= i < old(self).spec_entries().len() ==> (#[trigger] final(self).spec_entries()[i]) == old(self).spec_entries()[i],
            final(self).spec_entries().last().id == id,
            final(self).spec_entries().last().label == label,
            final(self).spec_entries().last().source == source,
            final(self).spec_health().len() == old(self).spec_health().len() + 1,
            forall|i: int|
                0 <= i < old(self).spec_health().len() ==> (#[trigger] final(self).spec_health()[i])
                    == old(self).spec_health()[i],
            final(self).spec_health().last().0 == id,
            final(self).spec_health().last().1.last_event is None,
            final(self).spec_health().last().1.last_event_at_ms is None,
            final(self).spec_health().last().1.last_poll_at_ms is None,
            final(self).spec_events() == old(self).spec_events(),
            final(self).spec_poll_timeout_ms() == old(self).spec_poll_timeout_ms(),
            final(self).spec_tick_sleep_ms() == old(self).spec_tick_sleep_ms(),
    {
        self.entries.push(ManagedClient { id, label, source });
        self.health.push((id, ClientHealth::empty()));
    }

    /// The index of the first session registered under `id`, or the
    /// number of sessions if none is.
    pub open spec fn spec_find(entries: Seq<ManagedClient<S>>, id: ClientId) -> int
        decreases entries.len(),
    {
        if entries.len() == 0 {
            0
        } else if entries[0].id == id {
            0
        } else {
            1 + Self::spec_find(entries.skip(1), id)
        }
    }

    /// Removes the first session registered under `id`, with its health
    /// entry; with no such session, nothing changes.
    pub fn remove_client(&mut self, id: ClientId)
        requires
            old(self).wf(),
        ensures
            final(self).wf(),
            final(self).spec_events() == old(self).spec_events(),
            final(self).spec_poll_timeout_ms() == old(self).spec_poll_timeout_ms(),
            final(self).spec_tick_sleep_ms() == old(self).spec_tick_sleep_ms(),
            ({
                let p = Self::spec_find(old(self).spec_entries(), id);
                if p < old(self).spec_entries().len() {
                    &&& final(self).spec_entries() == old(self).spec_entries().remove(p)
                    &&& final(self).spec_health() == old(self).spec_health().remove(p)
                } else {
                    &&& final(self).spec_entries() == old(self).spec_entries()
                    &&& final(self).spec_health() == old(self).spec_health()
                }
            }),
    {
        let ghost entries0 = self.spec_entries();
        proof {
            assert(entries0.skip(0) =~= entries0);
        }
        let mut i: usize = 0;
        let n = self.entries.len();
        while i < n
            invariant
                0 <= i <= n,
                n == self.entries.len(),
                self.wf(),
                entries0 == old(self).spec_entries(),
                self.spec_entries() == entries0,
                self.spec_health() == old(self).spec_health(),
                self.spec_events() == old(self).spec_events(),
                self.spec_poll_timeout_ms() == old(self).spec_poll_timeout_ms(),
                self.spec_tick_sleep_ms() == old(self).spec_tick_sleep_ms(),
                forall|j: int| 0 <= j < i ==> (#[trigger] entries0[j]).id != id,
                Self::spec_find(entries0.skip(i as int), id) + i == Self::spec_find(entries0, id),
            decreases n - i,
        {
            if self.entries[i].id.0 == id.0 {
                proof {
                    assert(entries0.skip(i as int)[0].id == id);
                    assert(Self::spec_find(entries0, id) == i as int);
                }
                self.entries.remove(i);
                self.health.remove(i);
                return ;
            }
            proof {
                let s = entries0.skip(i as int);
                assert(s[0].id != id);
                assert(s.skip(1) =~= entries0.skip((i + 1) as int));
            }
            i = i + 1;
        }
        proof {
            assert(entries0.skip(n as int) =~= Seq::<ManagedClient<S>>::empty());
            assert(Self::spec_find(entries0, id) == n as int);
        }
    }

    /// Sets the per-session poll timeout in milliseconds.
    pub fn set_poll_timeout(&mut self, timeout_ms: i32)
        ensures
            final(self).spec_poll_timeout_ms() == timeout_ms,
            final(self).spec_entries() == old(self).spec_entries(),
            final(self).spec_health() == old(self).spec_health(),
            final(self).spec_events() == old(self).spec_events(),
            final(self).spec_tick_sleep_ms() == old(self).spec_tick_sleep_ms(),
    {
        self.poll_timeout_ms = timeout_ms;
    }

    /// Sets the idle sleep the driving loop should take after a pass
    /// that produced nothing.
    pub fn set_tick_sleep(&mut self, sleep_ms: u64)
        ensures
            final(self).spec_tick_sleep_ms() == sleep_ms,
            final(self).spec_entries() == old(self).spec_entries(),
            final(self).spec_health() == old(self).spec_health(),
            final(self).spec_events() == old(self).spec_events(),
            final(self).spec_poll_timeout_ms() == old(self).spec_poll_timeout_ms(),
    {
        self.tick_sleep_ms = sleep_ms;
    }

    /// Returns the configured idle sleep in milliseconds.
    pub fn tick_sleep_ms(&self) -> (r: u64)
        ensures
            r == self.spec_tick_sleep_ms(),
    {
        self.tick_sleep_ms
    }

    /// Returns the forwarded records not yet drained, oldest first.
    pub fn events(&self) -> (r: &Vec<ClientEvent>)
        ensures
            r@ == self.spec_events(),
    {
        &self.events
    }

    /// Hands out the forwarded records and empties the queue.
    pub fn drain_events(&mut self) -> (r: Vec<ClientEvent>)
        ensures
            r@ == old(self).spec_events(),
            final(self).spec_events() == Seq::<ClientEvent>::empty(),
            final(self).spec_entries() == old(self).spec_entries(),
            final(self).spec_health() == old(self).spec_health(),
            final(self).spec_poll_timeout_ms() == old(self).spec_poll_timeout_ms(),
            final(self).spec_tick_sleep_ms() == old(self).spec_tick_sleep_ms(),
    {
        let mut out: Vec<ClientEvent> = Vec::new();
        let mut i: usize = 0;
        let n = self.events.len();
        while i < n
            invariant
                0 <= i <= n,
                n == self.events.len(),
                self.spec_events() == old(self).spec_events(),
                self.spec_entries() == old(self).spec_entries(),
                self.spec_health() == old(self).spec_health(),
                self.spec_poll_timeout_ms() == old(self).spec_poll_timeout_ms(),
                self.spec_tick_sleep_ms() == old(self).spec_tick_sleep_ms(),
                out@ =~= old(self).spec_events().take(i as int),
            decreases n - i,
        {
            out.push(self.events[i].clone());
            proof {
                assert(out@ =~= old(self).spec_events().take((i + 1) as int));
            }
            i = i + 1;
        }
        proof {
            assert(old(self).spec_events().take(n as int) =~= old(self).spec_events());
        }
        self.events.clear();
        out
    }

    /// Returns a copy of the health entry for the first session
    /// registered under `id`, or nothing if none is.
    pub fn health_snapshot(&self, id: ClientId) -> (r: Option<ClientHealth>)
        requires
            self.wf(),
        ensures
            ({
                let p = Self::spec_find(self.spec_entries(), id);
                if p < self.spec_entries().len() {
                    r == Option::Some(self.spec_health()[p].1)
                } else {
                    r is None
                }
            }),
    {
        let ghost entries0 = self.spec_entries();
        proof {
            assert(entries0.skip(0) =~= entries0);
        }
        let mut i: usize = 0;
        let n = self.entries.len();
        while i < n
            invariant
                0 <= i <= n,
                n == self.entries.len(),
                self.wf(),
                entries0 == self.spec_entries(),
                forall|j: int| 0 <= j < i ==> (#[trigger] entries0[j]).id != id,
                Self::spec_find(entries0.skip(i as int), id) + i == Self::spec_find(entries0, id),
            decreases n - i,
        {
            if self.entries[i].id.0 == id.0 {
                proof {
                    assert(entries0.skip(i as int)[0].id == id);
                    assert(Self::spec_find(entries0, id) == i as int);
                }
                return Option::Some(self.health[i].1);
            }
            proof {
                let s = entries0.skip(i as int);
                assert(s[0].id != id);
                assert(s.skip(1) =~= entries0.skip((i + 1) as int));
            }
            i = i + 1;
        }
        proof {
            assert(entries0.skip(n as int) =~= Seq::<ManagedClient<S>>::empty());
            assert(Self::spec_find(entries0, id) == n as int);
        }
        Option::None
    }

    /// Performs one fairness pass at time `now`: polls every registered
    /// session exactly once, in registration order, forwards one record
    /// per session that produced an event and stamps the health entries.
    /// Returns how many records were forwarded; after a pass that
    /// returns zero the driving loop should sleep for the configured
    /// tick to avoid a hot spin.
    pub fn run_once(&mut self, now_ms: u64) -> (processed: usize)
        requires
            old(self).wf(),
        ensures
            final(self).wf(),
            final(self).spec_poll_timeout_ms() == old(self).spec_poll_timeout_ms(),
            final(self).spec_tick_sleep_ms() == old(self).spec_tick_sleep_ms(),
            final(self).spec_entries().len() == old(self).spec_entries().len(),
            forall|i: int|
                0 <= i < old(self).spec_entries().len() ==> {
                    let e0 = #[trigger] old(self).spec_entries()[i];
                    let e1 = final(self).spec_entries()[i];
                    &&& e1.id == e0.id
                    &&& e1.label == e0.label
                    &&& e1.source.pending() == (if e0.source.pending().len() > 0 {
                        e0.source.pending().skip(1)
                    } else {
                        e0.source.pending()
                    })
                },
            final(self).spec_events() == old(self).spec_events() + spec_pass_records(
                old(self).spec_entries(),
                now_ms,
            ),
            processed == spec_pass_records(old(self).spec_entries(), now_ms).len(),
            forall|i: int|
                0 <= i < old(self).spec_health().len() ==> {
                    let h0 = (#[trigger] old(self).spec_health()[i]).1;
                    let h1 = final(self).spec_health()[i].1;
                    let delivered = old(self).spec_entries()[i].source.pending().len() > 0;
                    &&& h1.last_poll_at_ms == Option::Some(now_ms)
                    &&& h1.last_event == (if delivered {
                        Option::Some(old(self).spec_entries()[i].source.pending()[0].0)
                    } else {
                        h0.last_event
                    })
                    &&& h1.last_event_at_ms == (if delivered {
                        Option::Some(now_ms)
                    } else {
                        h0.last_event_at_ms
                    })
                },
    {
        let ghost entries0 = self.spec_entries();
        let ghost health0 = self.spec_health();
        let mut processed: usize = 0;
        let mut i: usize = 0;
        let n = self.entries.len();
        let timeout_ms = self.poll_timeout_ms;
        while i < n
            invariant
                0 <= i <= n,
                n == self.entries.len(),
                self.wf(),
                entries0 == old(self).spec_entries(),
                health0 == old(self).spec_health(),
                self.spec_poll_timeout_ms() == old(self).spec_poll_timeout_ms(),
                self.spec_tick_sleep_ms() == old(self).spec_tick_sleep_ms(),
                self.spec_entries().len() == entries0.len(),
                forall|j: int|
                    i <= j < entries0.len() ==> (#[trigger] self.spec_entries()[j]) == entries0[j],
                forall|j: int|
                    0 <= j < i ==> {
                        let e0 = #[trigger] entries0[j];
                        let e1 = self.spec_entries()[j];
                        &&& e1.id == e0.id
                        &&& e1.label == e0.label
                        &&& e1.source.pending() == (if e0.source.pending().len() > 0 {
                            e0.source.pending().skip(1)
                        } else {
                            e0.source.pending()
                        })
                    },
                self.spec_health().len() == health0.len(),
                forall|j: int|
                    i <= j < health0.len() ==> (#[trigger] self.spec_health()[j]) == health0[j],
                forall|j: int|
                    0 <= j < i ==> {
                        let h0 = (#[trigger] health0[j]).1;
                        let h1 = self.spec_health()[j].1;
                        let delivered = entries0[j].source.pending().len() > 0;
                        &&& h1.last_poll_at_ms == Option::Some(now_ms)
                        &&& h1.last_event == (if delivered {
                            Option::Some(entries0[j].source.pending()[0].0)
                        } else {
                            h0.last_event
                        })
                        &&& h1.last_event_at_ms == (if delivered {
                            Option::Some(now_ms)
                        } else {
                            h0.last_event_at_ms
                        })
                    },
                self.spec_events() == old(self).spec_events() + spec_pass_records(
                    entries0.take(i as int),
                    now_ms,
                ),
                processed == spec_pass_records(entries0.take(i as int), now_ms).len(),
                processed <= i,
            decreases n - i,
        {
            let ghost self_before = *self;
            let prev_health = self.health[i].1;
            let entry = &mut self.entries[i];
            let id = entry.id;
            let label = clone_opt_string(&entry.label);
            let polled = entry.source.poll(timeout_ms);
            let mut new_health = ClientHealth {
                last_event: prev_health.last_event,
                last_event_at_ms: prev_health.last_event_at_ms,
                last_poll_at_ms: Option::Some(now_ms),
            };
            match polled {
                Option::Some((event, _message)) => {
                    let record = ClientEvent { client_id: id, label, event, at_ms: now_ms };
                    self.events.push(record);
                    new_health.last_event = Option::Some(event);
                    new_health.last_event_at_ms = Option::Some(now_ms);
                    processed = processed + 1;
                },
                Option::None => {},
            }
            self.health[i] = (id, new_health);
            proof {
                let taken = entries0.take((i + 1) as int);
                assert(taken.drop_last() =~= entries0.take(i as int));
                assert(taken.last() == entries0[i as int]);
                assert(self.spec_events() =~= old(self).spec_events() + spec_pass_records(
                    taken,
                    now_ms,
                ));
            }
            i = i + 1;
        }
        proof {
            assert(entries0.take(n as int) =~= entries0);
        }
        processed
    }
}

} // verus!
