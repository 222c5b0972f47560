//! Event dispatcher over a polled event source.
//!
//! Handlers are registered for one event kind or for all events; a
//! dispatched event runs every matching handler in registration order.
//! A `Stop` result is advisory to the driving loop and never cuts the
//! dispatch short: the set of handlers that run is determined by the
//! registered filters alone. A ghost invocation log records exactly which
//! handlers ran, for which event and message, and what flow each
//! returned; the dispatch result is the combination of those flows.
use vstd::prelude::*;
use crate::events::Error;
use crate::events::Event;
use crate::message::Message;
use crate::message::Payload;
use crate::reconnect::ReconnectConfig;
use crate::reconnect::ReconnectHandler;
use crate::reconnect::ReconnectView;
use crate::reconnect::spec_after_disconnect;
use crate::reconnect::spec_can_attempt;

verus! {

/// Owned connection parameters for reconnect workflows.
#[derive(Debug)]
pub struct ConnectParamsOwned {
    pub host: String,
    pub tcp: i32,
    pub udp: i32,
    pub encrypted: bool,
}

impl ConnectParamsOwned {
    /// Creates owned connection parameters.
    pub fn new(host: &str, tcp: i32, udp: i32, encrypted: bool) -> (r: Self)
        ensures
            r.host@ == host@,
            r.tcp == tcp,
            r.udp == udp,
            r.encrypted == encrypted,
    {
        ConnectParamsOwned { host: host.to_owned(), tcp, udp, encrypted }
    }

    /// Returns a borrowed view of the parameters.
    pub fn as_params(&self) -> (r: ConnectParams<'_>)
        ensures
            r.host@ == self.host@,
            r.tcp == self.tcp,
            r.udp == self.udp,
            r.encrypted == self.encrypted,
    {
        ConnectParams {
            host: self.host.as_str(),
            tcp: self.tcp,
            udp: self.udp,
            encrypted: self.encrypted,
        }
    }
}

impl Clone for ConnectParamsOwned {
    /// The copy carries exactly the same fields.
    fn clone(&self) -> (res: Self)
        ensures
            res == *self,
    {
        ConnectParamsOwned {
            host: self.host.clone(),
            tcp: self.tcp,
            udp: self.udp,
            encrypted: self.encrypted,
        }
    }
}

/// Borrowed connection parameters, handed to a transport call.
#[derive(Debug, Clone, Copy)]
pub struct ConnectParams<'a> {
    pub host: &'a str,
    pub tcp: i32,
    pub udp: i32,
    pub encrypted: bool,
}

/// Reconnect settings for dispatch flows.
#[derive(Debug)]
pub struct ReconnectSettings {
    pub params: ConnectParamsOwned,
    pub config: ReconnectConfig,
    pub extra_events: Vec<Event>,
}

impl ReconnectSettings {
    /// Creates reconnect settings with the default trigger set.
    pub fn new(params: ConnectParamsOwned, config: ReconnectConfig) -> (r: Self)
        ensures
            r.params == params,
            r.config == config,
            r.extra_events@ == Seq::<Event>::empty(),
    {
        ReconnectSettings { params, config, extra_events: Vec::new() }
    }

    /// Adds extra events which should trigger reconnection.
    pub fn with_extra_events(self, extra_events: Vec<Event>) -> (r: Self)
        ensures
            r.params == self.params,
            r.config == self.config,
            r.extra_events == extra_events,
    {
        let mut s = self;
        s.extra_events = extra_events;
        s
    }
}

/// Configuration for the dispatcher runtime.
#[derive(Debug)]
pub struct ClientConfig {
    pub poll_timeout_ms: i32,
    pub reconnect: Option<ReconnectSettings>,
}

impl Default for ClientConfig {
    /// A hundred-millisecond poll timeout and no automatic reconnect.
    fn default() -> (r: Self)
        ensures
            r.poll_timeout_ms == 100,
            r.reconnect is None,
    {
        ClientConfig { poll_timeout_ms: 100, reconnect: Option::None }
    }
}

impl ClientConfig {
    /// Creates a configuration with defaults.
    pub fn new() -> (r: Self)
        ensures
            r.poll_timeout_ms == 100,
            r.reconnect is None,
    {
        ClientConfig { poll_timeout_ms: 100, reconnect: Option::None }
    }

    /// Sets the poll timeout in milliseconds.
    pub fn poll_timeout_ms(self, timeout_ms: i32) -> (r: Self)
        ensures
            r.poll_timeout_ms == timeout_ms,
            r.reconnect == self.reconnect,
    {
        let mut c = self;
        c.poll_timeout_ms = timeout_ms;
        c
    }

    /// Enables reconnect using the provided connection parameters.
    pub fn reconnect(self, params: ConnectParamsOwned, config: ReconnectConfig) -> (r: Self)
        ensures
            r.poll_timeout_ms == self.poll_timeout_ms,
            r.reconnect matches Some(s) && s.params == params && s.config == config
                && s.extra_events@ == Seq::<Event>::empty(),
    {
        let mut c = self;
        c.reconnect = Option::Some(ReconnectSettings::new(params, config));
        c
    }

    /// Enables reconnect and adds extra events which trigger it.
    pub fn reconnect_with_events(
        self,
        params: ConnectParamsOwned,
        config: ReconnectConfig,
        extra_events: Vec<Event>,
    ) -> (r: Self)
        ensures
            r.poll_timeout_ms == self.poll_timeout_ms,
            r.reconnect matches Some(s) && s.params == params && s.config == config
                && s.extra_events == extra_events,
    {
        let mut c = self;
        c.reconnect = Option::Some(
            ReconnectSettings::new(params, config).with_extra_events(extra_events),
        );
        c
    }

    /// Disables automatic reconnect.
    pub fn without_reconnect(self) -> (r: Self)
        ensures
            r.poll_timeout_ms == self.poll_timeout_ms,
            r.reconnect is None,
    {
        let mut c = self;
        c.reconnect = Option::None;
        c
    }
}

/// A handler's advisory request to the driving loop.
#[derive(Debug, Clone, Copy, PartialEq, Eq, Structural)]
pub enum DispatchFlow {
    Continue,
    Stop,
}

/// Event context passed into dispatcher handlers.
#[derive(Clone, Copy)]
pub struct EventContext<'a> {
    event: Event,
    message: &'a Message,
}

impl<'a> EventContext<'a> {
    /// The dispatched event.
    pub closed spec fn spec_event(&self) -> Event {
        self.event
    }

    /// The message accompanying the event.
    pub closed spec fn spec_message(&self) -> &'a Message {
        self.message
    }

    /// Assembles a context.
    pub fn new(event: Event, message: &'a Message) -> (r: Self)
        ensures
            r.spec_event() == event,
            r.spec_message() == message,
    {
        EventContext { event, message }
    }

    /// Returns the event.
    pub fn event(&self) -> (r: Event)
        ensures
            r == self.spec_event(),
    {
        self.event
    }

    /// Returns the raw message.
    pub fn message(&self) -> (r: &'a Message)
        ensures
            r == self.spec_message(),
    {
        self.message
    }
}

/// A consumer-implemented event handler.
///
/// Nothing is assumed of an implementation: the dispatcher's guarantees
/// are about which handlers run, never about what they do.
pub trait EventHandler {
    /// Handles one dispatched event and advises the driving loop.
    fn handle<'a>(&mut self, ctx: EventContext<'a>) -> DispatchFlow;
}

/// A deterministic source of queued events, polled one event per call.
///
/// `pending` is the queue of events the source would hand out, oldest
/// first; `poll` pops the front of that queue. The in-memory mock source
/// implements this contract; a live transport is driven from outside the
/// library instead.
pub trait EventSource {
    /// The queued events this source would hand out, oldest first.
    spec fn pending(&self) -> Seq<(Event, Message)>;

    /// Polls for the next event: the front of the queue, if any.
    fn poll(&mut self, timeout_ms: i32) -> (r: Option<(Event, Message)>)
        ensures
            match r {
                Option::Some(em) => old(self).pending().len() > 0 && em == old(
                    self,
                ).pending()[0] && final(self).pending() == old(self).pending().skip(1),
                Option::None => old(self).pending().len() == 0 && final(self).pending() == old(
                    self,
                ).pending(),
            },
    ;

    /// Asks the source to initiate a connection with the given parameters.
    ///
    /// The request must not disturb the queue of already-pending events;
    /// whether it succeeds is the source's business.
    fn request_connect(&mut self, params: &ConnectParamsOwned) -> (accepted: bool)
        ensures
            final(self).pending() == old(self).pending(),
    ;
}

/// A single handler registration: an optional event-kind filter (none
/// means wildcard) and the handler itself.
pub struct HandlerEntry<H> {
    filter: Option<Event>,
    handler: H,
}

impl<H> HandlerEntry<H> {
    /// The registration's filter; none matches every event.
    pub closed spec fn spec_filter(&self) -> Option<Event> {
        self.filter
    }

    /// Returns true when the entry's filter matches the event's kind.
    pub fn matches(&self, event: &Event) -> (r: bool)
        ensures
            r == spec_filter_matches(self.spec_filter(), *event),
    {
        match &self.filter {
            Option::Some(f) => f.same_kind(event),
            Option::None => true,
        }
    }
}

/// Whether a registration filter matches an event: a kind filter matches
/// by variant identity, ignoring payload; no filter matches everything.
pub open spec fn spec_filter_matches(filter: Option<Event>, ev: Event) -> bool {
    match filter {
        Option::Some(f) => f.spec_same_kind(&ev),
        Option::None => true,
    }
}

/// The invocation log one dispatch of `ev` appends, given the registered
/// filters: the index of every matching registration, in registration
/// order, paired with the event.
pub open spec fn spec_dispatch_log(filters: Seq<Option<Event>>, ev: Event) -> Seq<(int, Event)>
    decreases filters.len(),
{
    if filters.len() == 0 {
        Seq::empty()
    } else {
        let rest = spec_dispatch_log(filters.drop_last(), ev);
        if spec_filter_matches(filters.last(), ev) {
            rest.push(((filters.len() - 1) as int, ev))
        } else {
            rest
        }
    }
}

/// The dispatch log holds exactly the matching registrations: every entry
/// names a matching filter and carries the event, every matching filter
/// appears, and entries are strictly ordered by registration index — so
/// each matching handler appears exactly once, in registration order.
pub proof fn lemma_dispatch_log_exact(filters: Seq<Option<Event>>, ev: Event)
    ensures
        forall|k: int|
            0 <= k < spec_dispatch_log(filters, ev).len() ==> {
                let entry = #[trigger] spec_dispatch_log(filters, ev)[k];
                &&& 0 <= entry.0 < filters.len()
                &&& spec_filter_matches(filters[entry.0], ev)
                &&& entry.1 == ev
            },
        forall|i: int|
            0 <= i < filters.len() && spec_filter_matches(#[trigger] filters[i], ev)
                ==> exists|k: int|
                0 <= k < spec_dispatch_log(filters, ev).len() && #[trigger] spec_dispatch_log(
                    filters,
                    ev,
                )[k].0 == i,
        forall|k1: int, k2: int|
            0 <= k1 < k2 < spec_dispatch_log(filters, ev).len() ==> #[trigger] spec_dispatch_log(
                filters,
                ev,
            )[k1].0 < #[trigger] spec_dispatch_log(filters, ev)[k2].0,
    decreases filters.len(),
{
    if filters.len() > 0 {
        let prefix = filters.drop_last();
        lemma_dispatch_log_exact(prefix, ev);
        let log = spec_dispatch_log(filters, ev);
        let plog = spec_dispatch_log(prefix, ev);
        assert(forall|i: int| 0 <= i < prefix.len() ==> prefix[i] == filters[i]);
        assert(forall|k: int| 0 <= k < plog.len() ==> log[k] == plog[k]);
        assert forall|i: int|
            0 <= i < filters.len() && spec_filter_matches(#[trigger] filters[i], ev)
                implies exists|k: int|
            0 <= k < log.len() && #[trigger] log[k].0 == i by {
            if i < filters.len() - 1 {
                let k = choose|k: int| 0 <= k < plog.len() && #[trigger] plog[k].0 == i;
                assert(0 <= k < log.len() && log[k].0 == i);
            } else {
                assert(filters.last() == filters[i]);
                assert(log.last().0 == i);
                assert(0 <= log.len() - 1 < log.len() && log[log.len() - 1].0 == i);
            }
        }
    }
}

/// A kind-specific registration and a wildcard registration both fire,
/// each exactly once, for an event of the registered kind, and they fire
/// in registration order; that a handler asks to stop never enters this
/// computation, so no handler's result can keep another from running.
pub proof fn lemma_both_surfaces_fire(
    filters: Seq<Option<Event>>,
    i: int,
    j: int,
    ev: Event,
)
    requires
        0 <= i < filters.len(),
        0 <= j < filters.len(),
        i != j,
        filters[i] matches Some(f) && f.spec_same_kind(&ev),
        filters[j] is None,
    ensures
        exists|k: int|
            0 <= k < spec_dispatch_log(filters, ev).len() && #[trigger] spec_dispatch_log(
                filters,
                ev,
            )[k].0 == i,
        exists|k: int|
            0 <= k < spec_dispatch_log(filters, ev).len() && #[trigger] spec_dispatch_log(
                filters,
                ev,
            )[k].0 == j,
        forall|k1: int, k2: int|
            (0 <= k1 < spec_dispatch_log(filters, ev).len() && 0 <= k2 < spec_dispatch_log(
                filters,
                ev,
            ).len() && #[trigger] spec_dispatch_log(filters, ev)[k1].0 == i
                && #[trigger] spec_dispatch_log(filters, ev)[k2].0 == j) ==> (k1 < k2 <==> i < j),
{
    lemma_dispatch_log_exact(filters, ev);
}

/// The flow a dispatch reports for a batch of handler results: `Stop`
/// exactly when some handler asked to stop.
pub open spec fn spec_combined_flow(results: Seq<DispatchFlow>) -> DispatchFlow {
    if exists|i: int| 0 <= i < results.len() && results[i] is Stop {
        DispatchFlow::Stop
    } else {
        DispatchFlow::Continue
    }
}

/// Combines handler results: `Stop` exactly when some handler asked to
/// stop, with every result inspected.
pub fn combine_flows(results: &Vec<DispatchFlow>) -> (r: DispatchFlow)
    ensures
        r == spec_combined_flow(results@),
{
    let mut stop = false;
    let mut i: usize = 0;
    while i < results.len()
        invariant
            0 <= i <= results.len(),
            stop == exists|j: int| 0 <= j < i && results@[j] is Stop,
        decreases results.len() - i,
    {
        if matches!(results[i], DispatchFlow::Stop) {
            stop = true;
        }
        i = i + 1;
    }
    if stop {
        DispatchFlow::Stop
    } else {
        DispatchFlow::Continue
    }
}

/// One recorded handler invocation: which handler ran, for which event,
/// and what flow it returned.
pub ghost struct HandlerCall {
    /// The registration index of the handler that ran.
    pub handler: int,
    /// The event it was handed.
    pub event: Event,
    /// The message accompanying the event.
    pub message: Message,
    /// The flow it returned.
    pub flow: DispatchFlow,
}

/// The (handler, event) signature of an invocation log.
pub open spec fn spec_calls_signature(calls: Seq<HandlerCall>) -> Seq<(int, Event)> {
    calls.map(|i: int, c: HandlerCall| (c.handler, c.event))
}

/// The flows the logged handlers returned, in invocation order.
pub open spec fn spec_calls_flows(calls: Seq<HandlerCall>) -> Seq<DispatchFlow> {
    calls.map(|i: int, c: HandlerCall| c.flow)
}

/// The controller state after one event is observed: a connection
/// success stamps the connected-since time; every other event leaves the
/// controller as it was (a failure's effect is applied separately).
pub open spec fn spec_reconnect_observed(v: ReconnectView, ev: Event, now_ms: nat) -> ReconnectView {
    if ev is ConnectSuccess {
        ReconnectView { connected_since: Option::Some(now_ms), ..v }
    } else {
        v
    }
}

/// The invocation-log signature a full drain of the first `k` pending
/// events appends, event by event in queue order.
pub open spec fn spec_drain_log(
    filters: Seq<Option<Event>>,
    pending: Seq<(Event, Message)>,
    k: int,
) -> Seq<(int, Event)>
    decreases k,
{
    if k <= 0 {
        Seq::empty()
    } else {
        spec_drain_log(filters, pending, k - 1) + spec_dispatch_log(filters, pending[k - 1].0)
    }
}

/// Reconnect bookkeeping chained into a dispatcher.
struct ReconnectState {
    params: ConnectParamsOwned,
    handler: ReconnectHandler,
    extra_events: Vec<Event>,
}

/// Event dispatcher built on top of a polled source.
pub struct Dispatcher<S: EventSource, H: EventHandler> {
    source: S,
    handlers: Vec<HandlerEntry<H>>,
    poll_timeout_ms: i32,
    reconnect: Option<ReconnectState>,
    stop: bool,
    calls: Ghost<Seq<HandlerCall>>,
    connects: Ghost<nat>,
}

/// Registration leaves the dispatcher's runtime state untouched: the
/// invocation log, the source queue, the stop flag, the reconnect
/// controller and the connect-request count all stay as they were.
pub open spec fn spec_same_runtime<S: EventSource, H: EventHandler>(
    pre: Dispatcher<S, H>,
    post: Dispatcher<S, H>,
) -> bool {
    &&& post.call_log() == pre.call_log()
    &&& post.spec_pending() == pre.spec_pending()
    &&& post.spec_stopped() == pre.spec_stopped()
    &&& post.spec_reconnect_view() == pre.spec_reconnect_view()
    &&& post.spec_reconnect_extra() == pre.spec_reconnect_extra()
    &&& post.spec_connect_requests() == pre.spec_connect_requests()
    &&& post.spec_reconnect_wf() == pre.spec_reconnect_wf()
}

/// Everything one dispatched event does to a dispatcher, `pre` to
/// `post`: the registered filters, the stop flag and the extra trigger
/// set are untouched; the log grows by the event's dispatch segment
/// (every matching handler, in registration order, with its returned
/// flow in the log) and the reported flow is the combination of exactly
/// those logged flows. The reconnect controller advances by the
/// observed event: a triggering event updates the controller as a
/// disconnect would, stability included, and when the policy then
/// permits an attempt, the controller counts exactly one attempt,
/// the source receives exactly one connect request, and a synthetic
/// `Reconnecting` notice carrying that attempt count and its gating
/// delay is dispatched after the event's own segment.
pub open spec fn spec_event_dispatched<S: EventSource, H: EventHandler>(
    pre: Dispatcher<S, H>,
    post: Dispatcher<S, H>,
    event: Event,
    message: Message,
    flow: DispatchFlow,
    now_ms: u64,
) -> bool {
    let filters = pre.spec_filters();
    let dlog = spec_dispatch_log(filters, event);
    let base = pre.call_log().len() as int;
    let log = post.call_log();
    &&& post.spec_filters() == filters
    &&& post.spec_stopped() == pre.spec_stopped()
    &&& post.spec_reconnect_extra() == pre.spec_reconnect_extra()
    &&& log.len() >= base + dlog.len()
    &&& log.take(base) == pre.call_log()
    &&& spec_calls_signature(log.subrange(base, base + dlog.len() as int)) == dlog
    &&& forall|j: int|
        base <= j < base + dlog.len() ==> (#[trigger] log[j]).message == message
    &&& flow == spec_combined_flow(spec_calls_flows(log.subrange(base, base + dlog.len() as int)))
    &&& match pre.spec_reconnect_view() {
        Option::None => {
            &&& post.spec_reconnect_view() is None
            &&& post.spec_connect_requests() == pre.spec_connect_requests()
            &&& log.len() == base + dlog.len()
        },
        Option::Some(v0) => {
            let v1 = spec_reconnect_observed(v0, event, now_ms as nat);
            let triggered = event.spec_is_reconnect_needed_with(pre.spec_reconnect_extra());
            let v2 = if triggered {
                spec_after_disconnect(v1, now_ms as nat)
            } else {
                v1
            };
            if triggered && spec_can_attempt(v2, now_ms as nat) {
                &&& post.spec_reconnect_view() matches Some(rf) && rf.config == v2.config
                    && rf.attempts == (if v2.attempts < u32::MAX {
                    v2.attempts + 1
                } else {
                    v2.attempts
                }) && rf.last_attempt == Option::Some(now_ms as nat) && rf.gate_delay
                    <= rf.config.max_delay_ms && rf.connected_since == v2.connected_since && ({
                    let notice = Event::Reconnecting {
                        attempt: rf.attempts as u32,
                        delay_ms: rf.gate_delay as u64,
                    };
                    let nlog = spec_dispatch_log(filters, notice);
                    log.len() == base + dlog.len() + nlog.len() && spec_calls_signature(
                        log.skip(base + dlog.len() as int),
                    ) == nlog
                })
                &&& post.spec_connect_requests() == pre.spec_connect_requests() + 1
            } else {
                &&& post.spec_reconnect_view() == Option::Some(v2)
                &&& post.spec_connect_requests() == pre.spec_connect_requests()
                &&& log.len() == base + dlog.len()
            }
        },
    }
}

impl<S: EventSource, H: EventHandler> Dispatcher<S, H> {
    /// The filters of the registered handlers, in registration order.
    pub closed spec fn spec_filters(&self) -> Seq<Option<Event>> {
        self.handlers@.map(|i: int, e: HandlerEntry<H>| e.spec_filter())
    }

    /// The invocation log: which handler ran for which event and what
    /// flow it returned, in order.
    pub closed spec fn call_log(&self) -> Seq<HandlerCall> {
        self.calls@
    }

    /// The source's queue of pending events.
    pub closed spec fn spec_pending(&self) -> Seq<(Event, Message)> {
        self.source.pending()
    }

    /// Whether the dispatcher was asked to stop.
    pub closed spec fn spec_stopped(&self) -> bool {
        self.stop
    }

    /// The reconnect controller's state, when reconnect is configured.
    pub closed spec fn spec_reconnect_view(&self) -> Option<ReconnectView> {
        match self.reconnect {
            Option::Some(ref rs) => Option::Some(rs.handler@),
            Option::None => Option::None,
        }
    }

    /// The extra events configured to trigger reconnection.
    pub closed spec fn spec_reconnect_extra(&self) -> Seq<Event> {
        match self.reconnect {
            Option::Some(ref rs) => rs.extra_events@,
            Option::None => Seq::empty(),
        }
    }

    /// How many connect requests the dispatcher has issued to its source.
    pub closed spec fn spec_connect_requests(&self) -> nat {
        self.connects@
    }

    /// Whether automatic reconnect is configured, and the controller is
    /// well formed if so.
    pub closed spec fn spec_reconnect_wf(&self) -> bool {
        match self.reconnect {
            Option::Some(ref rs) => rs.handler.wf(),
            Option::None => true,
        }
    }

    /// Creates a dispatcher with default configuration: no reconnect and
    /// a hundred-millisecond timeout.
    pub fn new(source: S) -> (r: Self)
        ensures
            r.spec_filters() == Seq::<Option<Event>>::empty(),
            r.call_log() == Seq::<HandlerCall>::empty(),
            r.spec_pending() == source.pending(),
            !r.spec_stopped(),
            r.spec_reconnect_wf(),
            r.spec_reconnect_view() is None,
            r.spec_reconnect_extra() == Seq::<Event>::empty(),
            r.spec_connect_requests() == 0,
    {
        Dispatcher {
            source,
            handlers: Vec::new(),
            poll_timeout_ms: 100,
            reconnect: Option::None,
            stop: false,
            calls: Ghost(Seq::empty()),
            connects: Ghost(0),
        }
    }

    /// Creates a dispatcher with a custom configuration.
    ///
    /// An invalid reconnect policy (delay cap below the first delay) is a
    /// configuration error reported here.
    pub fn with_config(source: S, config: ClientConfig) -> (r: Result<Self, Error>)
        ensures
            (match config.reconnect {
                Option::Some(s) => s.config.valid(),
                Option::None => true,
            }) <==> r is Ok,
            r matches Err(e) ==> e == Error::InvalidParam,
            r matches Ok(d) ==> {
                &&& d.spec_filters() == Seq::<Option<Event>>::empty()
                &&& d.call_log() == Seq::<HandlerCall>::empty()
                &&& d.spec_pending() == source.pending()
                &&& !d.spec_stopped()
                &&& d.spec_reconnect_wf()
                &&& d.spec_connect_requests() == 0
                &&& match config.reconnect {
                    Option::Some(s) => d.spec_reconnect_view() == Option::Some(
                        ReconnectView {
                            config: s.config,
                            attempts: 0,
                            last_attempt: Option::None,
                            connected_since: Option::None,
                            gate_delay: 0,
                        },
                    ) && d.spec_reconnect_extra() == s.extra_events@,
                    Option::None => d.spec_reconnect_view() is None,
                }
            },
    {
        let reconnect = match config.reconnect {
            Option::Some(settings) => {
                let handler = match ReconnectHandler::new(settings.config) {
                    Ok(h) => h,
                    Err(e) => {
                        return Err(e);
                    },
                };
                Option::Some(
                    ReconnectState {
                        params: settings.params,
                        handler,
                        extra_events: settings.extra_events,
                    },
                )
            },
            Option::None => Option::None,
        };
        Ok(
            Dispatcher {
                source,
                handlers: Vec::new(),
                poll_timeout_ms: config.poll_timeout_ms,
                reconnect,
                stop: false,
                calls: Ghost(Seq::empty()),
                connects: Ghost(0),
            },
        )
    }

    /// Returns the underlying event source.
    pub fn source(&self) -> (r: &S)
        ensures
            r.pending() == self.spec_pending(),
    {
        &self.source
    }

    /// Returns a mutable reference to the event source.
    pub fn source_mut(&mut self) -> (r: &mut S)
        ensures
            *r == old(self).source_value(),
            final(self).source_value() == *final(r),
            final(self).spec_filters() == old(self).spec_filters(),
            final(self).call_log() == old(self).call_log(),
            final(self).spec_stopped() == old(self).spec_stopped(),
            final(self).spec_reconnect_view() == old(self).spec_reconnect_view(),
            final(self).spec_reconnect_extra() == old(self).spec_reconnect_extra(),
            final(self).spec_connect_requests() == old(self).spec_connect_requests(),
            final(self).spec_reconnect_wf() == old(self).spec_reconnect_wf(),
    {
        &mut self.source
    }

    /// The source itself, for relating borrows in specifications.
    pub closed spec fn source_value(&self) -> S {
        self.source
    }

    /// Adds a handler for a specific event kind.
    pub fn add_handler(&mut self, event: Event, handler: H)
        ensures
            final(self).spec_filters() == old(self).spec_filters().push(Option::Some(event)),
            spec_same_runtime(*old(self), *final(self)),
    {
        self.handlers.push(HandlerEntry { filter: Option::Some(event), handler });
        proof {
            assert(self.spec_filters() =~= old(self).spec_filters().push(Option::Some(event)));
        }
    }

    /// Adds a handler which receives all events.
    pub fn add_handler_any(&mut self, handler: H)
        ensures
            final(self).spec_filters() == old(self).spec_filters().push(Option::None),
            spec_same_runtime(*old(self), *final(self)),
    {
        self.handlers.push(HandlerEntry { filter: Option::None, handler });
        proof {
            assert(self.spec_filters() =~= old(self).spec_filters().push(Option::<Event>::None));
        }
    }

    /// Adds a handler and returns the dispatcher for chaining.
    pub fn on_event(self, event: Event, handler: H) -> (r: Self)
        ensures
            r.spec_filters() == self.spec_filters().push(Option::Some(event)),
            spec_same_runtime(self, r),
    {
        let mut d = self;
        d.add_handler(event, handler);
        d
    }

    /// Adds a handler for all events and returns the dispatcher.
    pub fn on_any(self, handler: H) -> (r: Self)
        ensures
            r.spec_filters() == self.spec_filters().push(Option::None),
            spec_same_runtime(self, r),
    {
        let mut d = self;
        d.add_handler_any(handler);
        d
    }

    /// Adds a handler for user join events.
    pub fn on_user_joined(self, handler: H) -> (r: Self)
        ensures
            r.spec_filters() == self.spec_filters().push(Option::Some(Event::UserJoined)),
            spec_same_runtime(self, r),
    {
        self.on_event(Event::UserJoined, handler)
    }

    /// Adds a handler for user left events.
    pub fn on_user_left(self, handler: H) -> (r: Self)
        ensures
            r.spec_filters() == self.spec_filters().push(Option::Some(Event::UserLeft)),
            spec_same_runtime(self, r),
    {
        self.on_event(Event::UserLeft, handler)
    }

    /// Adds a handler for text messages.
    pub fn on_text_message(self, handler: H) -> (r: Self)
        ensures
            r.spec_filters() == self.spec_filters().push(Option::Some(Event::TextMessage)),
            spec_same_runtime(self, r),
    {
        self.on_event(Event::TextMessage, handler)
    }

    /// Adds a handler for connection success events.
    pub fn on_connect_success(self, handler: H) -> (r: Self)
        ensures
            r.spec_filters() == self.spec_filters().push(Option::Some(Event::ConnectSuccess)),
            spec_same_runtime(self, r),
    {
        self.on_event(Event::ConnectSuccess, handler)
    }

    /// Adds a handler for connection lost events.
    pub fn on_connection_lost(self, handler: H) -> (r: Self)
        ensures
            r.spec_filters() == self.spec_filters().push(Option::Some(Event::ConnectionLost)),
            spec_same_runtime(self, r),
    {
        self.on_event(Event::ConnectionLost, handler)
    }

    /// Adds a handler for connection failure events.
    pub fn on_connect_failed(self, handler: H) -> (r: Self)
        ensures
            r.spec_filters() == self.spec_filters().push(Option::Some(Event::ConnectFailed)),
            spec_same_runtime(self, r),
    {
        self.on_event(Event::ConnectFailed, handler)
    }

    /// Adds a handler for command error events.
    pub fn on_command_error(self, handler: H) -> (r: Self)
        ensures
            r.spec_filters() == self.spec_filters().push(Option::Some(Event::CmdError)),
            spec_same_runtime(self, r),
    {
        self.on_event(Event::CmdError, handler)
    }

    /// Requests the dispatcher loop to stop.
    pub fn stop(&mut self)
        ensures
            final(self).spec_stopped(),
            final(self).spec_filters() == old(self).spec_filters(),
            final(self).call_log() == old(self).call_log(),
            final(self).spec_pending() == old(self).spec_pending(),
            final(self).spec_reconnect_view() == old(self).spec_reconnect_view(),
            final(self).spec_reconnect_extra() == old(self).spec_reconnect_extra(),
            final(self).spec_connect_requests() == old(self).spec_connect_requests(),
            final(self).spec_reconnect_wf() == old(self).spec_reconnect_wf(),
    {
        self.stop = true;
    }

    /// Runs every matching handler for the event, in registration order,
    /// logging each invocation with the flow it returned, and collects
    /// the returned flows. Every matching handler runs whatever the
    /// earlier ones returned.
    fn fire_matching(&mut self, event: Event, message: &Message) -> (results: Vec<DispatchFlow>)
        requires
            old(self).spec_reconnect_wf(),
        ensures
            final(self).spec_filters() == old(self).spec_filters(),
            final(self).spec_pending() == old(self).spec_pending(),
            final(self).spec_reconnect_wf(),
            final(self).spec_stopped() == old(self).spec_stopped(),
            final(self).spec_reconnect_view() == old(self).spec_reconnect_view(),
            final(self).spec_reconnect_extra() == old(self).spec_reconnect_extra(),
            final(self).spec_connect_requests() == old(self).spec_connect_requests(),
            final(self).call_log().len() == old(self).call_log().len() + spec_dispatch_log(
                old(self).spec_filters(),
                event,
            ).len(),
            final(self).call_log().take(old(self).call_log().len() as int) == old(self).call_log(),
            spec_calls_signature(final(self).call_log().skip(old(self).call_log().len() as int))
                == spec_dispatch_log(old(self).spec_filters(), event),
            spec_calls_flows(final(self).call_log().skip(old(self).call_log().len() as int))
                == results@,
            forall|j: int|
                old(self).call_log().len() <= j < final(self).call_log().len()
                    ==> (#[trigger] final(self).call_log()[j]).message == *message,
    {
        let ghost original = *self;
        let ghost base = original.call_log().len() as int;
        let mut results: Vec<DispatchFlow> = Vec::new();
        let mut i: usize = 0;
        let n = self.handlers.len();
        while i < n
            invariant
                0 <= i <= n,
                n == self.handlers.len(),
                base == original.call_log().len() as int,
                self.spec_filters() == original.spec_filters(),
                self.spec_pending() == original.spec_pending(),
                self.spec_stopped() == original.spec_stopped(),
                self.spec_reconnect_wf(),
                self.spec_reconnect_view() == original.spec_reconnect_view(),
                self.spec_reconnect_extra() == original.spec_reconnect_extra(),
                self.spec_connect_requests() == original.spec_connect_requests(),
                self.call_log().len() == base + spec_dispatch_log(
                    original.spec_filters().take(i as int),
                    event,
                ).len(),
                self.call_log().take(base) == original.call_log(),
                spec_calls_signature(self.call_log().skip(base)) == spec_dispatch_log(
                    original.spec_filters().take(i as int),
                    event,
                ),
                spec_calls_flows(self.call_log().skip(base)) == results@,
                forall|j: int|
                    base <= j < self.call_log().len() ==> (#[trigger] self.call_log()[j]).message
                        == *message,
            decreases n - i,
        {
            let ghost filters_before = self.spec_filters();
            let ghost log_before = self.call_log();
            let matched = self.handlers[i].matches(&event);
            if matched {
                let ctx = EventContext::new(event, message);
                let entry = &mut self.handlers[i];
                let flow = entry.handler.handle(ctx);
                results.push(flow);
                proof {
                    self.calls@ = self.calls@.push(
                        HandlerCall { handler: i as int, event, message: *message, flow },
                    );
                    assert(self.call_log().take(base) =~= log_before.take(base));
                    assert(spec_calls_signature(self.call_log().skip(base)) =~= spec_calls_signature(
                        log_before.skip(base),
                    ).push((i as int, event)));
                    assert(spec_calls_flows(self.call_log().skip(base)) =~= spec_calls_flows(
                        log_before.skip(base),
                    ).push(flow));
                }
            }
            proof {
                assert(self.spec_filters() =~= filters_before);
                let pre = original.spec_filters().take(i as int);
                let cur = original.spec_filters().take((i + 1) as int);
                assert(cur.drop_last() =~= pre);
                assert(cur.last() == original.spec_filters()[i as int]);
            }
            i = i + 1;
        }
        proof {
            assert(original.spec_filters().take(n as int) =~= original.spec_filters());
        }
        results
    }

    /// Performs one poll step: polls the source once and, if an event came
    /// back, dispatches it.
    ///
    /// With no event pending, nothing is dispatched, nothing changes and
    /// the flow is `Continue`; otherwise the oldest pending event is
    /// dispatched exactly as `process_event` describes.
    pub fn step(&mut self, timeout_ms: i32, now_ms: u64) -> (flow: DispatchFlow)
        requires
            old(self).spec_reconnect_wf(),
        ensures
            final(self).spec_reconnect_wf(),
            old(self).spec_pending().len() == 0 ==> {
                &&& flow == DispatchFlow::Continue
                &&& final(self).spec_pending() == old(self).spec_pending()
                &&& final(self).call_log() == old(self).call_log()
                &&& final(self).spec_filters() == old(self).spec_filters()
                &&& final(self).spec_stopped() == old(self).spec_stopped()
                &&& final(self).spec_reconnect_view() == old(self).spec_reconnect_view()
                &&& final(self).spec_reconnect_extra() == old(self).spec_reconnect_extra()
                &&& final(self).spec_connect_requests() == old(self).spec_connect_requests()
            },
            old(self).spec_pending().len() > 0 ==> {
                &&& final(self).spec_pending() == old(self).spec_pending().skip(1)
                &&& spec_event_dispatched(
                    *old(self),
                    *final(self),
                    old(self).spec_pending()[0].0,
                    old(self).spec_pending()[0].1,
                    flow,
                    now_ms,
                )
            },
    {
        let (_polled, flow) = self.step_inner(timeout_ms, now_ms);
        flow
    }

    /// One poll step that also reports whether an event was polled.
    fn step_inner(&mut self, timeout_ms: i32, now_ms: u64) -> (r: (bool, DispatchFlow))
        requires
            old(self).spec_reconnect_wf(),
        ensures
            final(self).spec_reconnect_wf(),
            r.0 == (old(self).spec_pending().len() > 0),
            old(self).spec_pending().len() == 0 ==> {
                &&& r.1 == DispatchFlow::Continue
                &&& final(self).spec_pending() == old(self).spec_pending()
                &&& final(self).call_log() == old(self).call_log()
                &&& final(self).spec_filters() == old(self).spec_filters()
                &&& final(self).spec_stopped() == old(self).spec_stopped()
                &&& final(self).spec_reconnect_view() == old(self).spec_reconnect_view()
                &&& final(self).spec_reconnect_extra() == old(self).spec_reconnect_extra()
                &&& final(self).spec_connect_requests() == old(self).spec_connect_requests()
            },
            old(self).spec_pending().len() > 0 ==> {
                &&& final(self).spec_pending() == old(self).spec_pending().skip(1)
                &&& spec_event_dispatched(
                    *old(self),
                    *final(self),
                    old(self).spec_pending()[0].0,
                    old(self).spec_pending()[0].1,
                    r.1,
                    now_ms,
                )
            },
    {
        let polled = self.source.poll(timeout_ms);
        match polled {
            Option::Some((event, message)) => {
                let ghost after_poll = *self;
                let flow = self.process_event(event, message, now_ms);
                proof {
                    assert(after_poll.spec_filters() == old(self).spec_filters());
                    assert(after_poll.call_log() == old(self).call_log());
                    assert(spec_event_dispatched(*old(self), *self, event, message, flow, now_ms));
                }
                (true, flow)
            },
            Option::None => (false, DispatchFlow::Continue),
        }
    }

    /// Dispatches one event: reconnect bookkeeping first, then every
    /// matching handler in registration order, then — if a reconnect
    /// attempt was scheduled — a synthetic `Reconnecting` notification
    /// carrying the attempt number and its gating delay.
    ///
    /// The returned flow is `Stop` exactly when some handler that ran
    /// for the event itself asked to stop; every matching handler runs
    /// regardless, and the notice's handlers never influence the flow.
    pub fn process_event(&mut self, event: Event, message: Message, now_ms: u64) -> (flow:
        DispatchFlow)
        requires
            old(self).spec_reconnect_wf(),
        ensures
            final(self).spec_reconnect_wf(),
            final(self).spec_pending() == old(self).spec_pending(),
            spec_event_dispatched(*old(self), *final(self), event, message, flow, now_ms),
    {
        let mut attempt_made: Option<(u32, u64)> = Option::None;
        let has_reconnect = self.reconnect.is_some();
        if has_reconnect {
            attempt_made = self.reconnect_bookkeeping(&event, now_ms);
        }
        let ghost after_book = *self;
        let results = self.fire_matching(event, &message);
        let ghost after_fire = *self;
        let flow = combine_flows(&results);
        match attempt_made {
            Option::Some((attempt, delay_ms)) => {
                let notice = Event::Reconnecting { attempt, delay_ms };
                let empty = Message::from_parts(0, Payload::Empty);
                let _ = self.fire_matching(notice, &empty);
            },
            Option::None => {},
        }
        proof {
            let base = old(self).call_log().len() as int;
            let dlog = spec_dispatch_log(old(self).spec_filters(), event);
            assert(self.call_log().take(base) =~= old(self).call_log());
            assert(self.call_log().subrange(base, base + dlog.len() as int) =~= after_fire.call_log().skip(base));
            assert forall|j: int|
                base <= j < base + dlog.len() implies (#[trigger] self.call_log()[j]).message
                    == message by {
                assert(after_fire.call_log()[j].message == message);
                assert(self.call_log().take(after_fire.call_log().len() as int)
                    == after_fire.call_log());
                assert(self.call_log()[j] == after_fire.call_log()[j]);
            }
            assert(spec_calls_flows(self.call_log().subrange(base, base + dlog.len() as int))
                =~= results@);
            assert(spec_calls_signature(self.call_log().subrange(base, base + dlog.len() as int))
                =~= dlog);
        }
        flow
    }

    /// Updates the reconnect controller for one observed event and, when
    /// a failure event arrives and the policy permits an attempt now,
    /// records exactly one attempt and issues exactly one connect
    /// request to the source.
    ///
    /// Returns the attempt number and its gating delay when an attempt
    /// was scheduled.
    fn reconnect_bookkeeping(&mut self, event: &Event, now_ms: u64) -> (r: Option<(u32, u64)>)
        requires
            old(self).spec_reconnect_wf(),
        ensures
            final(self).spec_reconnect_wf(),
            final(self).spec_filters() == old(self).spec_filters(),
            final(self).call_log() == old(self).call_log(),
            final(self).spec_pending() == old(self).spec_pending(),
            final(self).spec_stopped() == old(self).spec_stopped(),
            final(self).spec_reconnect_extra() == old(self).spec_reconnect_extra(),
            match old(self).spec_reconnect_view() {
                Option::None => r is None && final(self).spec_reconnect_view() is None && final(self).spec_connect_requests() == old(self).spec_connect_requests(),
                Option::Some(v0) => {
                    let v1 = spec_reconnect_observed(v0, *event, now_ms as nat);
                    let triggered = event.spec_is_reconnect_needed_with(
                        old(self).spec_reconnect_extra(),
                    );
                    let v2 = if triggered {
                        spec_after_disconnect(v1, now_ms as nat)
                    } else {
                        v1
                    };
                    if triggered && spec_can_attempt(v2, now_ms as nat) {
                        &&& final(self).spec_reconnect_view() matches Some(rf) && rf.config
                            == v2.config && rf.attempts == (if v2.attempts < u32::MAX {
                            v2.attempts + 1
                        } else {
                            v2.attempts
                        }) && rf.last_attempt == Option::Some(now_ms as nat) && rf.gate_delay
                            <= rf.config.max_delay_ms && rf.connected_since == v2.connected_since
                            && (r matches Some(ad) && ad.0 as nat == rf.attempts && ad.1 as nat
                            == rf.gate_delay)
                        &&& final(self).spec_connect_requests() == old(self).spec_connect_requests()
                            + 1
                    } else {
                        &&& r is None
                        &&& final(self).spec_reconnect_view() == Option::Some(v2)
                        &&& final(self).spec_connect_requests() == old(
                            self,
                        ).spec_connect_requests()
                    }
                },
            },
    {
        let rc = match &mut self.reconnect {
            Option::Some(rc) => rc,
            Option::None => {
                return Option::None;
            },
        };
        if matches!(event, Event::ConnectSuccess) {
            rc.handler.mark_connected(now_ms);
        }
        if event.is_reconnect_needed_with(&rc.extra_events) {
            rc.handler.mark_disconnected(now_ms);
            if rc.handler.can_attempt(now_ms) {
                rc.handler.record_attempt(now_ms);
                let attempt = rc.handler.attempts();
                let delay_ms = rc.handler.current_delay();
                let params = rc.params.clone();
                let _ = self.source.request_connect(&params);
                proof {
                    self.connects@ = self.connects@ + 1;
                }
                return Option::Some((attempt, delay_ms));
            }
        }
        Option::None
    }

    /// Runs the dispatcher loop with the configured timeout until a
    /// handler asks to stop, `stop` is called, or the source runs out of
    /// queued events. Returns `Stop` when stopped, `Continue` when the
    /// source was exhausted. The given time stamp serves every step of
    /// this run; a driver that needs a moving clock calls `step` itself,
    /// and a loop that polls a live transport forever belongs to the
    /// caller as well.
    ///
    /// Some number `k` of pending events is consumed and dispatched, in
    /// exactly the order the source holds them; the whole queue when the
    /// run was not stopped. The stop flag rises only if it was already
    /// set or a handler that ran during this drain returned `Stop`; with
    /// no reconnect configured, the appended invocation log is exactly
    /// the concatenated dispatch segments of the first `k` events.
    pub fn run(&mut self, now_ms: u64) -> (flow: DispatchFlow)
        requires
            old(self).spec_reconnect_wf(),
        ensures
            final(self).spec_reconnect_wf(),
            final(self).spec_filters() == old(self).spec_filters(),
            (flow == DispatchFlow::Stop) == final(self).spec_stopped(),
            !final(self).spec_stopped() ==> final(self).spec_pending().len() == 0,
            final(self).call_log().take(old(self).call_log().len() as int) == old(
                self,
            ).call_log(),
            final(self).spec_stopped() ==> old(self).spec_stopped() || exists|i: int|
                old(self).call_log().len() <= i < final(self).call_log().len() && (#[trigger] final(self).call_log()[i]).flow is Stop,
            exists|k: int|
                {
                    &&& 0 <= #[trigger] spec_drain_log(
                        old(self).spec_filters(),
                        old(self).spec_pending(),
                        k,
                    ).len()
                    &&& 0 <= k <= old(self).spec_pending().len()
                    &&& final(self).spec_pending() == old(self).spec_pending().skip(k)
                    &&& (!final(self).spec_stopped() ==> k == old(self).spec_pending().len())
                    &&& (old(self).spec_reconnect_view() is None ==> spec_calls_signature(
                        final(self).call_log(),
                    ) == spec_calls_signature(old(self).call_log()) + spec_drain_log(
                        old(self).spec_filters(),
                        old(self).spec_pending(),
                        k,
                    ))
                },
    {
        let timeout_ms = self.poll_timeout_ms;
        self.run_with_timeout(timeout_ms, now_ms)
    }

    /// Runs the dispatcher loop with an explicit timeout until a handler
    /// asks to stop, `stop` is called, or the source runs out of queued
    /// events; the guarantees are those of `run`.
    pub fn run_with_timeout(&mut self, timeout_ms: i32, now_ms: u64) -> (flow: DispatchFlow)
        requires
            old(self).spec_reconnect_wf(),
        ensures
            final(self).spec_reconnect_wf(),
            final(self).spec_filters() == old(self).spec_filters(),
            (flow == DispatchFlow::Stop) == final(self).spec_stopped(),
            !final(self).spec_stopped() ==> final(self).spec_pending().len() == 0,
            final(self).call_log().take(old(self).call_log().len() as int) == old(
                self,
            ).call_log(),
            final(self).spec_stopped() ==> old(self).spec_stopped() || exists|i: int|
                old(self).call_log().len() <= i < final(self).call_log().len() && (#[trigger] final(self).call_log()[i]).flow is Stop,
            exists|k: int|
                {
                    &&& 0 <= #[trigger] spec_drain_log(
                        old(self).spec_filters(),
                        old(self).spec_pending(),
                        k,
                    ).len()
                    &&& 0 <= k <= old(self).spec_pending().len()
                    &&& final(self).spec_pending() == old(self).spec_pending().skip(k)
                    &&& (!final(self).spec_stopped() ==> k == old(self).spec_pending().len())
                    &&& (old(self).spec_reconnect_view() is None ==> spec_calls_signature(
                        final(self).call_log(),
                    ) == spec_calls_signature(old(self).call_log()) + spec_drain_log(
                        old(self).spec_filters(),
                        old(self).spec_pending(),
                        k,
                    ))
                },
    {
        let ghost filters0 = old(self).spec_filters();
        let ghost pending0 = old(self).spec_pending();
        let ghost log0 = old(self).call_log();
        let ghost stopped0 = old(self).spec_stopped();
        let ghost mut k: int = 0;
        proof {
            assert(pending0.skip(0) =~= pending0);
        }
        while !self.stop
            invariant
                self.spec_reconnect_wf(),
                self.spec_filters() == filters0,
                filters0 == old(self).spec_filters(),
                pending0 == old(self).spec_pending(),
                log0 == old(self).call_log(),
                stopped0 == old(self).spec_stopped(),
                0 <= k <= pending0.len(),
                self.spec_pending() == pending0.skip(k),
                log0.len() <= self.call_log().len(),
                self.call_log().take(log0.len() as int) == log0,
                self.spec_stopped() ==> stopped0 || exists|i: int|
                    log0.len() <= i < self.call_log().len() && (#[trigger] self.call_log()[i]).flow
                        is Stop,
                old(self).spec_reconnect_view() is None ==> self.spec_reconnect_view() is None
                    && spec_calls_signature(self.call_log()) == spec_calls_signature(log0)
                    + spec_drain_log(filters0, pending0, k),
            ensures
                self.spec_reconnect_wf(),
                self.spec_filters() == filters0,
                0 <= k <= pending0.len(),
                self.spec_pending() == pending0.skip(k),
                log0.len() <= self.call_log().len(),
                self.call_log().take(log0.len() as int) == log0,
                !self.spec_stopped() ==> k == pending0.len(),
                self.spec_stopped() ==> stopped0 || exists|i: int|
                    log0.len() <= i < self.call_log().len() && (#[trigger] self.call_log()[i]).flow
                        is Stop,
                old(self).spec_reconnect_view() is None ==> spec_calls_signature(self.call_log())
                    == spec_calls_signature(log0) + spec_drain_log(filters0, pending0, k),
            decreases self.spec_pending().len(),
        {
            let ghost pre = *self;
            let (polled, flow) = self.step_inner(timeout_ms, now_ms);
            proof {
                if polled {
                    assert(pre.spec_pending() == pending0.skip(k));
                    assert(pre.spec_pending()[0] == pending0[k]);
                    assert(self.spec_pending() =~= pending0.skip(k + 1));
                    let base = pre.call_log().len() as int;
                    let dlog = spec_dispatch_log(filters0, pending0[k].0);
                    assert(self.call_log().take(base) == pre.call_log());
                    assert(log0.len() <= base);
                    assert(self.call_log().take(log0.len() as int) =~= log0);
                    if flow is Stop {
                        // The combined flow of the event's own segment is
                        // Stop, so some recorded flow in it is Stop.
                        let seg = spec_calls_flows(
                            self.call_log().subrange(base, base + dlog.len() as int),
                        );
                        assert(exists|j: int| 0 <= j < seg.len() && seg[j] is Stop);
                        let j = choose|j: int| 0 <= j < seg.len() && seg[j] is Stop;
                        assert(self.call_log()[base + j].flow is Stop);
                        assert(log0.len() <= base + j < self.call_log().len());
                    }
                    if pre.spec_reconnect_view() is None {
                        assert(spec_calls_signature(self.call_log()) =~= spec_calls_signature(
                            pre.call_log(),
                        ) + spec_calls_signature(
                            self.call_log().subrange(base, base + dlog.len() as int),
                        ));
                        assert(spec_drain_log(filters0, pending0, k + 1) == spec_drain_log(
                            filters0,
                            pending0,
                            k,
                        ) + dlog);
                    }
                    k = k + 1;
                } else {
                    assert(pending0.skip(k).len() == 0);
                    assert(k == pending0.len());
                }
            }
            if matches!(flow, DispatchFlow::Stop) {
                self.stop = true;
            }
            if !polled {
                break ;
            }
        }
        proof {
            assert(0 <= spec_drain_log(
                old(self).spec_filters(),
                old(self).spec_pending(),
                k,
            ).len());
        }
        if self.stop {
            DispatchFlow::Stop
        } else {
            DispatchFlow::Continue
        }
    }
}

} // verus!
