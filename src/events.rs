use vstd::prelude::*;

use std::collections::{HashMap, VecDeque};

use tokio::sync::broadcast;

use crate::gpio::EdgeEvent;

verus! {

broadcast use vstd::std_specs::hash::group_hash_axioms;

#[verifier::external_type_specification]
#[verifier::external_body]
#[verifier::reject_recursive_types(T)]
pub struct ExSender<T>(broadcast::Sender<T>);

#[verifier::external_type_specification]
#[verifier::external_body]
#[verifier::reject_recursive_types(T)]
pub struct ExReceiver<T>(broadcast::Receiver<T>);

/// The events sent on the bus of `tx` so far, oldest first, whether or not
/// anyone listened.
pub uninterp spec fn bus_log(tx: broadcast::Sender<EdgeEvent>) -> Seq<EdgeEvent>;

/// The position in its bus's log from which a receiver gets events: it is
/// handed every event sent from there on (or a lag signal when it falls
/// behind by more than the capacity).
pub uninterp spec fn rx_from(rx: broadcast::Receiver<EdgeEvent>) -> nat;

/// Relies on tokio's `broadcast::channel`, which asserts that the capacity is
/// neither zero nor above `usize::MAX / 2`; the first receiver is dropped. A
/// new channel has carried nothing.
#[verifier::external_body]
fn open_bus(capacity: usize) -> (r: broadcast::Sender<EdgeEvent>)
    requires
        0 < capacity <= usize::MAX / 2,
    ensures
        bus_log(r) == Seq::<EdgeEvent>::empty(),
{
    broadcast::channel(capacity).0
}

/// Relies on tokio's `Sender::send`: the event goes to every live receiver; an
/// error only means that nobody listens, and is dropped.
#[verifier::external_body]
fn publish(tx: &mut broadcast::Sender<EdgeEvent>, event: EdgeEvent)
    ensures
        bus_log(*final(tx)) == bus_log(*old(tx)).push(event),
{
    let _ = tx.send(event);
}

/// Relies on tokio's `Sender::subscribe`: a receiver of every event sent from
/// now on. Its receiver-count assertion needs `usize::MAX / 4` live receivers,
/// more than memory holds.
#[verifier::external_body]
fn subscribe_bus(tx: &broadcast::Sender<EdgeEvent>) -> (r: broadcast::Receiver<EdgeEvent>)
    ensures
        rx_from(r) == bus_log(*tx).len(),
{
    tx.subscribe()
}

/// The `n` newest elements of `s`, oldest first (all of `s` if it is shorter).
pub open spec fn newest<A>(s: Seq<A>, n: nat) -> Seq<A> {
    if s.len() > n {
        s.subrange(s.len() - n, s.len() as int)
    } else {
        s
    }
}

/// The events that a receiver which joined at position `from` of `log` is
/// handed.
pub open spec fn pending(log: Seq<EdgeEvent>, from: nat) -> Seq<EdgeEvent> {
    if from <= log.len() {
        log.subrange(from as int, log.len() as int)
    } else {
        Seq::empty()
    }
}

/// Fan-out: an event sent on the bus is handed once, after what it already
/// had, to every receiver that joined before; a receiver that joins after it
/// is not handed it.
pub proof fn lemma_fan_out(log: Seq<EdgeEvent>, e: EdgeEvent, from: nat)
    requires
        from <= log.len(),
    ensures
        pending(log.push(e), from) == pending(log, from).push(e),
        pending(log.push(e), log.push(e).len()) == Seq::<EdgeEvent>::empty(),
{
    assert(pending(log.push(e), from) =~= pending(log, from).push(e));
    assert(pending(log.push(e), log.push(e).len()) =~= Seq::<EdgeEvent>::empty());
}

/// A history of capacity `cap` after `e` arrives: while it holds `cap` or more
/// events the oldest is evicted, then `e` is appended.
pub open spec fn bounded_push(h: Seq<EdgeEvent>, e: EdgeEvent, cap: nat) -> Seq<EdgeEvent> {
    let keep: nat = if cap == 0 {
        0
    } else {
        (cap - 1) as nat
    };
    newest(h, keep).push(e)
}

/// A history of capacity `cap` after each of `es` arrives, in order.
pub open spec fn push_all(h: Seq<EdgeEvent>, es: Seq<EdgeEvent>, cap: nat) -> Seq<EdgeEvent>
    decreases es.len(),
{
    if es.len() == 0 {
        h
    } else {
        bounded_push(push_all(h, es.drop_last(), cap), es.last(), cap)
    }
}

proof fn lemma_push_newest(s: Seq<EdgeEvent>, e: EdgeEvent, cap: nat)
    requires
        cap > 0,
    ensures
        bounded_push(newest(s, cap), e, cap) == newest(s.push(e), cap),
{
    if s.len() >= cap {
        assert(bounded_push(newest(s, cap), e, cap) =~= newest(s.push(e), cap));
    } else {
        assert(bounded_push(newest(s, cap), e, cap) =~= newest(s.push(e), cap));
    }
}

/// A history never holds more than its capacity, keeps the newest events in
/// arrival order, and once more events than its capacity have arrived holds
/// exactly the last `cap` of them.
pub proof fn lemma_history_bound(h: Seq<EdgeEvent>, es: Seq<EdgeEvent>, cap: nat)
    requires
        cap > 0,
        h.len() <= cap,
    ensures
        push_all(h, es, cap) == newest(h + es, cap),
        push_all(h, es, cap).len() <= cap,
        es.len() >= cap ==> push_all(h, es, cap) == es.subrange(es.len() - cap, es.len() as int),
    decreases es.len(),
{
    if es.len() == 0 {
        assert(h + es =~= h);
    } else {
        lemma_history_bound(h, es.drop_last(), cap);
        lemma_push_newest(h + es.drop_last(), es.last(), cap);
        assert((h + es.drop_last()).push(es.last()) =~= h + es);
    }
    if es.len() >= cap {
        assert(newest(h + es, cap) =~= es.subrange(es.len() - cap, es.len() as int));
    }
}

/// The event dispatcher: a bounded history per declared pin, and the
/// broadcast bus that fans events out to live subscribers.
pub struct EventCallbackHandler {
    event_tx: broadcast::Sender<EdgeEvent>,
    event_history: HashMap<u32, VecDeque<EdgeEvent>>,
    event_history_capacity: usize,
}

impl EventCallbackHandler {
    /// Whether events of `pin` are kept.
    pub closed spec fn tracks(&self, pin: u32) -> bool {
        self.event_history@.contains_key(pin)
    }

    /// The retained events of `pin`, oldest first.
    pub closed spec fn history(&self, pin: u32) -> Seq<EdgeEvent> {
        if self.event_history@.contains_key(pin) {
            self.event_history@[pin]@
        } else {
            Seq::empty()
        }
    }

    /// The events sent to subscribers so far.
    pub closed spec fn sent(&self) -> Seq<EdgeEvent> {
        bus_log(self.event_tx)
    }

    /// How many events a history retains.
    pub closed spec fn capacity(&self) -> nat {
        self.event_history_capacity as nat
    }

    /// A dispatcher that keeps up to `event_history_capacity` events for each of
    /// `pins`, each history empty, and sends on `event_tx`.
    pub fn new(
        event_tx: broadcast::Sender<EdgeEvent>,
        pins: Vec<u32>,
        event_history_capacity: usize,
    ) -> (r: Self)
        ensures
            r.sent() == bus_log(event_tx),
            r.capacity() == event_history_capacity,
            forall|p: u32| #[trigger] r.tracks(p) == pins@.contains(p),
            forall|p: u32| #[trigger] r.history(p) == Seq::<EdgeEvent>::empty(),
    {
        let mut event_history: HashMap<u32, VecDeque<EdgeEvent>> = HashMap::new();
        let mut i: usize = 0;
        while i < pins.len()
            invariant
                i <= pins@.len(),
                forall|p: u32|
                    #[trigger] event_history@.contains_key(p) == pins@.subrange(0, i as int).contains(
                        p,
                    ),
                forall|p: u32|
                    #[trigger] event_history@.contains_key(p) ==> event_history@[p]@
                        == Seq::<EdgeEvent>::empty(),
            decreases pins@.len() - i,
        {
            event_history.insert(pins[i], VecDeque::new());
            proof {
                assert forall|p: u32|
                    #[trigger] event_history@.contains_key(p) == pins@.subrange(
                        0,
                        i + 1,
                    ).contains(p) by {
                    let next = pins@.subrange(0, i + 1);
                    let prev = pins@.subrange(0, i as int);
                    if prev.contains(p) {
                        let k = choose|k: int| 0 <= k < prev.len() && prev[k] == p;
                        assert(next[k] == p);
                    }
                    if next.contains(p) && p != pins@[i as int] {
                        let k = choose|k: int| 0 <= k < next.len() && next[k] == p;
                        assert(k != i as int);
                        assert(prev[k] == p);
                    }
                    if p == pins@[i as int] {
                        assert(next[i as int] == p);
                    }
                }
            }
            i = i + 1;
        }
        assert(pins@.subrange(0, pins@.len() as int) =~= pins@);
        EventCallbackHandler { event_tx, event_history, event_history_capacity }
    }

    /// Appends `event` to its pin's history, evicting the oldest events while the
    /// history is full, then sends it to every subscriber. An event of a pin
    /// that is not kept is dropped.
    pub fn dispatch(&mut self, event: EdgeEvent)
        ensures
            final(self).capacity() == old(self).capacity(),
            final(self).sent() == if old(self).tracks(event.pin_id) {
                old(self).sent().push(event)
            } else {
                old(self).sent()
            },
            forall|p: u32| #[trigger] final(self).tracks(p) == old(self).tracks(p),
            forall|p: u32|
                #[trigger] final(self).history(p) == if p == event.pin_id && old(self).tracks(p) {
                    bounded_push(old(self).history(p), event, old(self).capacity())
                } else {
                    old(self).history(p)
                },
    {
        let ghost pre = *self;
        if let Some(mut events) = self.event_history.remove(&event.pin_id) {
            let ghost start = events@;
            assert(start == pre.history(event.pin_id));
            let ghost keep: nat = if self.event_history_capacity == 0 {
                0
            } else {
                (self.event_history_capacity - 1) as nat
            };
            while events.len() >= self.event_history_capacity && events.len() > 0
                invariant
                    keep == (if self.event_history_capacity == 0 {
                        0
                    } else {
                        (self.event_history_capacity - 1) as nat
                    }),
                    newest(events@, keep) == newest(start, keep),
                    events@.len() >= keep || events@ == start,
                    events@.len() <= start.len(),
                    events@ == start.subrange(start.len() - events@.len(), start.len() as int),
                decreases events@.len(),
            {
                events.pop_front();
                assert(newest(events@, keep) =~= newest(start, keep));
            }
            assert(newest(start, keep) =~= events@);
            events.push_back(event);
            self.event_history.insert(event.pin_id, events);
            publish(&mut self.event_tx, event);
            assert(self.event_history@ =~= pre.event_history@.insert(event.pin_id, events));
        }
    }

    /// A receiver of every event dispatched from now on.
    pub fn subscribe(&self) -> (r: broadcast::Receiver<EdgeEvent>)
        ensures
            rx_from(r) == self.sent().len(),
    {
        subscribe_bus(&self.event_tx)
    }

    /// The `limit` newest events of `pin` (all of them without a limit), oldest
    /// first.
    pub fn events_of(&self, pin: u32, limit: Option<usize>) -> (r: Vec<EdgeEvent>)
        ensures
            r@ == match limit {
                Some(n) => newest(self.history(pin), n as nat),
                None => self.history(pin),
            },
    {
        match self.event_history.get(&pin) {
            None => Vec::new(),
            Some(h) => {
                let start: usize = match limit {
                    Some(n) => if h.len() > n {
                        h.len() - n
                    } else {
                        0
                    },
                    None => 0,
                };
                let mut out: Vec<EdgeEvent> = Vec::new();
                let mut k: usize = start;
                while k < h.len()
                    invariant
                        start <= k <= h@.len(),
                        out@ == h@.subrange(start as int, k as int),
                    decreases h@.len() - k,
                {
                    out.push(h[k]);
                    k = k + 1;
                }
                assert(h@.subrange(0, h@.len() as int) =~= h@);
                out
            },
        }
    }

    /// The newest retained event of `pin`, if any.
    pub fn last_of(&self, pin: u32) -> (r: Option<EdgeEvent>)
        ensures
            r == (if self.history(pin).len() == 0 {
                None
            } else {
                Some(self.history(pin).last())
            }),
    {
        match self.event_history.get(&pin) {
            None => None,
            Some(h) => {
                if h.len() == 0 {
                    None
                } else {
                    Some(h[h.len() - 1])
                }
            },
        }
    }
}

/// Opens the broadcast bus with room for `capacity` unreceived events per
/// subscriber.
pub fn event_bus(capacity: usize) -> (r: broadcast::Sender<EdgeEvent>)
    requires
        0 < capacity <= usize::MAX / 2,
    ensures
        bus_log(r) == Seq::<EdgeEvent>::empty(),
{
    open_bus(capacity)
}

} // verus!
