//! A registry of session snapshots for broader introspection.
//!
//! The registry keeps one consistent snapshot per session id. All
//! operations work on the registry value itself; a caller that shares it
//! across threads serialises access through one mutual-exclusion
//! boundary, so `list` always returns a point-in-time copy, never a
//! partially updated view.
use vstd::prelude::*;
use crate::events::ConnectionState;
use crate::events::Event;
use crate::types::ClientId;

verus! {

/// A point-in-time snapshot of one registered session.
#[derive(Debug)]
pub struct ClientInfo {
    pub id: ClientId,
    pub label: Option<String>,
    pub state: ConnectionState,
    pub last_event: Option<Event>,
    pub last_event_at_ms: Option<u64>,
}

impl Clone for ClientInfo {
    /// The copy carries exactly the same fields.
    fn clone(&self) -> (res: Self)
        ensures
            res == *self,
    {
        ClientInfo {
            id: self.id,
            label: match &self.label {
                Option::Some(s) => Option::Some(s.clone()),
                Option::None => Option::None,
            },
            state: self.state,
            last_event: self.last_event,
            last_event_at_ms: self.last_event_at_ms,
        }
    }
}

/// The index of the first snapshot registered under `id`, or the number
/// of snapshots if none is.
pub open spec fn spec_find(infos: Seq<ClientInfo>, id: ClientId) -> int
    decreases infos.len(),
{
    if infos.len() == 0 {
        0
    } else if infos[0].id == id {
        0
    } else {
        1 + spec_find(infos.skip(1), id)
    }
}

/// A registry of per-session snapshots, keyed by session id.
pub struct ClientRegistry {
    inner: Vec<ClientInfo>,
}

impl ClientRegistry {
    /// The registered snapshots, in registration order.
    pub closed spec fn spec_infos(&self) -> Seq<ClientInfo> {
        self.inner@
    }

    /// Each session id appears at most once.
    pub open spec fn wf(&self) -> bool {
        forall|i: int, j: int|
            0 <= i < j < self.spec_infos().len() ==> (#[trigger] self.spec_infos()[i]).id != (
            #[trigger] self.spec_infos()[j]).id
    }

    /// Creates an empty registry.
    pub fn new() -> (r: Self)
        ensures
            r.wf(),
            r.spec_infos() == Seq::<ClientInfo>::empty(),
    {
        ClientRegistry { inner: Vec::new() }
    }

    /// Finds the index of the first snapshot registered under `id`.
    fn find(&self, id: ClientId) -> (r: usize)
        ensures
            r == spec_find(self.spec_infos(), id),
            r <= self.spec_infos().len(),
            r < self.spec_infos().len() ==> self.spec_infos()[r as int].id == id,
    {
        let ghost infos0 = self.spec_infos();
        proof {
            assert(infos0.skip(0) =~= infos0);
        }
        let mut i: usize = 0;
        let n = self.inner.len();
        while i < n
            invariant
                0 <= i <= n,
                n == self.inner.len(),
                infos0 == self.spec_infos(),
                forall|j: int| 0 <= j < i ==> (#[trigger] infos0[j]).id != id,
                spec_find(infos0.skip(i as int), id) + i == spec_find(infos0, id),
            decreases n - i,
        {
            if self.inner[i].id.0 == id.0 {
                proof {
                    assert(infos0.skip(i as int)[0].id == id);
                    assert(spec_find(infos0, id) == i as int);
                }
                return i;
            }
            proof {
                let s = infos0.skip(i as int);
                assert(s[0].id != id);
                assert(s.skip(1) =~= infos0.skip((i + 1) as int));
            }
            i = i + 1;
        }
        proof {
            assert(infos0.skip(n as int) =~= Seq::<ClientInfo>::empty());
            assert(spec_find(infos0, id) == n as int);
        }
        n
    }

    /// Registers a session snapshot with no observed event yet; a
    /// snapshot already registered under the same id is replaced.
    pub fn register(&mut self, id: ClientId, label: Option<String>, state: ConnectionState)
        requires
            old(self).wf(),
        ensures
            final(self).wf(),
            ({
                let p = spec_find(old(self).spec_infos(), id);
                let info = ClientInfo {
                    id,
                    label,
                    state,
                    last_event: Option::None,
                    last_event_at_ms: Option::None,
                };
                if p < old(self).spec_infos().len() {
                    final(self).spec_infos() == old(self).spec_infos().update(p, info)
                } else {
                    final(self).spec_infos() == old(self).spec_infos().push(info)
                }
            }),
    {
        let info = ClientInfo {
            id,
            label,
            state,
            last_event: Option::None,
            last_event_at_ms: Option::None,
        };
        self.upsert(info);
    }

    /// Inserts the snapshot, replacing the one registered under the same
    /// id if any.
    fn upsert(&mut self, info: ClientInfo)
        requires
            old(self).wf(),
        ensures
            final(self).wf(),
            ({
                let p = spec_find(old(self).spec_infos(), info.id);
                if p < old(self).spec_infos().len() {
                    final(self).spec_infos() == old(self).spec_infos().update(p, info)
                } else {
                    final(self).spec_infos() == old(self).spec_infos().push(info)
                }
            }),
    {
        let p = self.find(info.id);
        if p < self.inner.len() {
            self.inner[p] = info;
            proof {
                assert(forall|k: int|
                    0 <= k < self.spec_infos().len() && k != p ==> (#[trigger] self.spec_infos()[k]).id
                        == old(self).spec_infos()[k].id);
                assert(self.spec_infos()[p as int].id == old(self).spec_infos()[p as int].id);
                assert(self.wf());
            }
        } else {
            let ghost infos0 = self.spec_infos();
            self.inner.push(info);
            proof {
                assert(forall|j: int| 0 <= j < infos0.len() ==> (#[trigger] infos0[j]).id
                    != info.id) by {
                    if exists|j: int| 0 <= j < infos0.len() && (#[trigger] infos0[j]).id
                        == info.id {
                        let j = choose|j: int|
                            0 <= j < infos0.len() && (#[trigger] infos0[j]).id == info.id;
                        lemma_find_bounds(infos0, info.id, j);
                    }
                }
                assert(self.wf());
            }
        }
    }

    /// Removes the snapshot registered under `id`, if any.
    pub fn unregister(&mut self, id: ClientId)
        requires
            old(self).wf(),
        ensures
            final(self).wf(),
            ({
                let p = spec_find(old(self).spec_infos(), id);
                if p < old(self).spec_infos().len() {
                    final(self).spec_infos() == old(self).spec_infos().remove(p)
                } else {
                    final(self).spec_infos() == old(self).spec_infos()
                }
            }),
    {
        let p = self.find(id);
        if p < self.inner.len() {
            self.inner.remove(p);
            proof {
                assert(self.wf());
            }
        }
    }

    /// Records an observed event for a session, refreshing its label and
    /// state; an unknown session is registered on the fly.
    pub fn update_event(
        &mut self,
        id: ClientId,
        label: Option<String>,
        state: ConnectionState,
        event: Event,
        now_ms: u64,
    )
        requires
            old(self).wf(),
        ensures
            final(self).wf(),
            ({
                let p = spec_find(old(self).spec_infos(), id);
                let info = ClientInfo {
                    id,
                    label,
                    state,
                    last_event: Option::Some(event),
                    last_event_at_ms: Option::Some(now_ms),
                };
                if p < old(self).spec_infos().len() {
                    final(self).spec_infos() == old(self).spec_infos().update(p, info)
                } else {
                    final(self).spec_infos() == old(self).spec_infos().push(info)
                }
            }),
    {
        let info = ClientInfo {
            id,
            label,
            state,
            last_event: Option::Some(event),
            last_event_at_ms: Option::Some(now_ms),
        };
        self.upsert(info);
    }

    /// Refreshes a session's label and state, keeping its last observed
    /// event; an unknown session is registered on the fly.
    pub fn update_snapshot(&mut self, id: ClientId, label: Option<String>, state: ConnectionState)
        requires
            old(self).wf(),
        ensures
            final(self).wf(),
            ({
                let p = spec_find(old(self).spec_infos(), id);
                if p < old(self).spec_infos().len() {
                    final(self).spec_infos().len() == old(self).spec_infos().len()
                        && final(self).spec_infos()[p] == (ClientInfo {
                        id,
                        label,
                        state,
                        last_event: old(self).spec_infos()[p].last_event,
                        last_event_at_ms: old(self).spec_infos()[p].last_event_at_ms,
                    }) && forall|k: int|
                        0 <= k < old(self).spec_infos().len() && k != p ==> final(self).spec_infos()[k] == old(self).spec_infos()[k]
                } else {
                    final(self).spec_infos() == old(self).spec_infos().push(
                        ClientInfo {
                            id,
                            label,
                            state,
                            last_event: Option::None,
                            last_event_at_ms: Option::None,
                        },
                    )
                }
            }),
    {
        let p = self.find(id);
        if p < self.inner.len() {
            let prev_event = self.inner[p].last_event;
            let prev_at = self.inner[p].last_event_at_ms;
            let info = ClientInfo {
                id,
                label,
                state,
                last_event: prev_event,
                last_event_at_ms: prev_at,
            };
            self.inner[p] = info;
            proof {
                assert(self.wf());
            }
        } else {
            let info = ClientInfo {
                id,
                label,
                state,
                last_event: Option::None,
                last_event_at_ms: Option::None,
            };
            self.upsert(info);
        }
    }

    /// Returns a consistent point-in-time copy of every snapshot.
    pub fn list(&self) -> (r: Vec<ClientInfo>)
        ensures
            r@ == self.spec_infos(),
    {
        let mut out: Vec<ClientInfo> = Vec::new();
        let mut i: usize = 0;
        let n = self.inner.len();
        while i < n
            invariant
                0 <= i <= n,
                n == self.inner.len(),
                out@ =~= self.spec_infos().take(i as int),
            decreases n - i,
        {
            out.push(self.inner[i].clone());
            proof {
                assert(out@ =~= self.spec_infos().take((i + 1) as int));
            }
            i = i + 1;
        }
        proof {
            assert(self.spec_infos().take(n as int) =~= self.spec_infos());
        }
        out
    }

    /// Returns a copy of the snapshot registered under `id`, if any.
    pub fn get(&self, id: ClientId) -> (r: Option<ClientInfo>)
        ensures
            ({
                let p = spec_find(self.spec_infos(), id);
                if p < self.spec_infos().len() {
                    r == Option::Some(self.spec_infos()[p])
                } else {
                    r is None
                }
            }),
    {
        let p = self.find(id);
        if p < self.inner.len() {
            Option::Some(self.inner[p].clone())
        } else {
            Option::None
        }
    }
}

/// A snapshot registered under `id` at index `j` bounds the first-match
/// index: the first match exists and is no later than `j`.
pub proof fn lemma_find_bounds(infos: Seq<ClientInfo>, id: ClientId, j: int)
    requires
        0 <= j < infos.len(),
        infos[j].id == id,
    ensures
        spec_find(infos, id) <= j,
    decreases infos.len(),
{
    if infos.len() > 0 && infos[0].id != id {
        lemma_find_bounds(infos.skip(1), id, j - 1);
    }
}

} // verus!
