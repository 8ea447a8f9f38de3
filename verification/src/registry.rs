//! Per-message-id handler registry: the arrival callback's enqueue step, the
//! consumer's dequeue step, registration lifecycle, and the delivery-order
//! laws — strict FIFO per id, and draining after unregistration.
//!
//! Waiting itself is the shell's work: `wait_msg` and `am_recv` are the
//! decision step of the wait loop, and answer `Wait` exactly when the caller
//! must suspend until the wake signal that `callback` triggers.
use vstd::prelude::*;

use crate::data::{arrival_view, MsgView, RawMsg, ATTR_FLAG_DATA, ATTR_FLAG_RNDV};
use crate::msg::AmMsg;

verus! {

/// What the arrival callback answers the transport: whether payload
/// ownership was deferred (a descriptor was kept and must be released later)
/// or the bytes were fully consumed inline, so the transport may reuse its
/// buffer at once.
#[derive(Clone, Copy, Debug, PartialEq, Eq, Structural)]
pub enum DispatchStatus {
    Consumed,
    Deferred,
}

/// The status an arrival with this attribute word earns: deferred exactly
/// when a descriptor flag (borrowed or rendezvous) is present.
pub open spec fn dispatch_status_of(attr: u64) -> DispatchStatus {
    if attr & (ATTR_FLAG_DATA | ATTR_FLAG_RNDV) != 0 {
        DispatchStatus::Deferred
    } else {
        DispatchStatus::Consumed
    }
}

/// Per-id handler state: the FIFO of arrived envelopes and the lifecycle
/// flag, set once by unregistration and never cleared. The queue keeps
/// draining after unregistration, so no already-arrived message is lost.
pub struct AmHandler {
    pub id: u32,
    pub msgs: Vec<RawMsg>,
    pub unregistered: bool,
}

/// Mathematical model of one handler.
pub struct HandlerView {
    pub id: u32,
    pub queue: Seq<MsgView>,
    pub unregistered: bool,
}

impl View for AmHandler {
    type V = HandlerView;

    open spec fn view(&self) -> HandlerView {
        HandlerView {
            id: self.id,
            queue: self.msgs@.map_values(|m: RawMsg| m@),
            unregistered: self.unregistered,
        }
    }
}

/// A freshly registered handler: empty queue, not unregistered.
pub open spec fn fresh_handler(id: u32) -> HandlerView {
    HandlerView { id, queue: Seq::empty(), unregistered: false }
}

/// One step of the consumer's wait loop.
pub enum AmPoll {
    /// The next message, in arrival order.
    Msg(AmMsg),
    /// Nothing queued yet: suspend until the wake signal, then step again.
    Wait,
    /// Unregistered and drained: no message will ever come.
    Finished,
}

/// Mathematical model of one wait step's answer.
pub enum PollView {
    Msg(MsgView),
    Wait,
    Finished,
}

impl View for AmPoll {
    type V = PollView;

    open spec fn view(&self) -> PollView {
        match self {
            AmPoll::Msg(m) => PollView::Msg(m@),
            AmPoll::Wait => PollView::Wait,
            AmPoll::Finished => PollView::Finished,
        }
    }
}

/// The wait step: deliver the queue's head if one is there; otherwise wait
/// while registered, and finish once unregistered.
pub open spec fn wait_msg_spec(h: HandlerView) -> (PollView, HandlerView) {
    if h.queue.len() > 0 {
        (PollView::Msg(h.queue[0]), HandlerView { queue: h.queue.drop_first(), ..h })
    } else if !h.unregistered {
        (PollView::Wait, h)
    } else {
        (PollView::Finished, h)
    }
}

impl AmHandler {
    /// A new handler for one message id.
    pub fn new(id: u32) -> (h: AmHandler)
        ensures
            h@ == fresh_handler(id),
    {
        let h = AmHandler { id, msgs: Vec::new(), unregistered: false };
        proof {
            assert(h@.queue =~= Seq::<MsgView>::empty());
        }
        h
    }

    /// Set the lifecycle flag; the queue stays as it is.
    pub fn unregister(&mut self)
        ensures
            final(self)@ == (HandlerView { unregistered: true, ..old(self)@ }),
    {
        self.unregistered = true;
    }

    /// The arrival callback's enqueue step: build the envelope, classify its
    /// payload from the attribute word, append it to the queue, and answer
    /// the transport whether ownership was deferred. The shell signals one
    /// waiter right after this step.
    pub fn callback(&mut self, header: Vec<u8>, data: Vec<u8>, reply_ep: u64, attr: u64) -> (st:
        DispatchStatus)
        ensures
            final(self)@ == (HandlerView {
                queue: old(self)@.queue.push(
                    arrival_view(old(self)@.id, header@, data@, reply_ep, attr),
                ),
                ..old(self)@
            }),
            st == dispatch_status_of(attr),
    {
        let m = RawMsg::from_raw(self.id, header, data, reply_ep, attr);
        let ghost mv = m@;
        self.msgs.push(m);
        proof {
            assert(self.msgs@.map_values(|x: RawMsg| x@) =~= old(self).msgs@.map_values(
                |x: RawMsg| x@,
            ).push(mv));
        }
        if attr & (ATTR_FLAG_DATA | ATTR_FLAG_RNDV) != 0 {
            DispatchStatus::Deferred
        } else {
            DispatchStatus::Consumed
        }
    }

    /// The consumer's dequeue step; see `wait_msg_spec`.
    pub fn wait_msg(&mut self) -> (r: AmPoll)
        ensures
            (r@, final(self)@) == wait_msg_spec(old(self)@),
    {
        if self.msgs.len() > 0 {
            let m = self.msgs.remove(0);
            proof {
                assert(self.msgs@.map_values(|x: RawMsg| x@) =~= old(self)@.queue.drop_first());
            }
            AmPoll::Msg(AmMsg::from_raw(m))
        } else if !self.unregistered {
            AmPoll::Wait
        } else {
            AmPoll::Finished
        }
    }
}

/// A handler after `k` deliveries: the first `k` queued messages are gone.
pub open spec fn drained(h: HandlerView, k: int) -> HandlerView {
    HandlerView { queue: h.queue.skip(k), ..h }
}

/// Strict FIFO per id: the callback appends at the tail and the wait step
/// always takes the head, so of the messages queued for one id — from any
/// senders — the consumer's `k`-th delivery is the `k`-th arrival, whatever
/// was delivered earlier.
pub proof fn lemma_fifo(h: HandlerView, k: int)
    requires
        0 <= k < h.queue.len(),
    ensures
        wait_msg_spec(drained(h, k)).0 == PollView::Msg(h.queue[k]),
        wait_msg_spec(drained(h, k)).1 == drained(h, k + 1),
{
    assert(h.queue.skip(k)[0] == h.queue[k]);
    assert(h.queue.skip(k).drop_first() =~= h.queue.skip(k + 1));
}

/// Of two messages enqueued in this order for one id — by any senders — the
/// first is delivered strictly before the second, whatever was queued ahead
/// of them: with `k` messages ahead, the earlier one is the `k`-th delivery
/// and the later one the next.
pub proof fn lemma_fifo_pair(h: HandlerView, a: MsgView, b: MsgView)
    ensures
        ({
            let h2 = HandlerView { queue: h.queue.push(a).push(b), ..h };
            &&& wait_msg_spec(drained(h2, h.queue.len() as int)).0 == PollView::Msg(a)
            &&& wait_msg_spec(drained(h2, h.queue.len() as int + 1)).0 == PollView::Msg(b)
        }),
{
    let h2 = HandlerView { queue: h.queue.push(a).push(b), ..h };
    lemma_fifo(h2, h.queue.len() as int);
    lemma_fifo(h2, h.queue.len() as int + 1);
    assert(h2.queue[h.queue.len() as int] == a);
    assert(h2.queue[h.queue.len() as int + 1] == b);
}

/// Unregistration drains: with the lifecycle flag set, the queue still
/// empties in arrival order — the `k`-th delivery is the `k`-th queued
/// message — and once it is empty, every later wait step answers `Finished`
/// and changes nothing, forever.
pub proof fn lemma_unregister_drains(h: HandlerView, k: int)
    requires
        h.unregistered,
        0 <= k <= h.queue.len(),
    ensures
        k < h.queue.len() ==> wait_msg_spec(drained(h, k)) == (
        PollView::Msg(h.queue[k]),
        drained(h, k + 1),
        ),
        k == h.queue.len() ==> wait_msg_spec(drained(h, k)) == (PollView::Finished, drained(h, k)),
{
    if k < h.queue.len() {
        lemma_fifo(h, k);
    } else {
        assert(h.queue.skip(k).len() == 0);
    }
}

/// The position of the handler registered for `id`, if any.
pub open spec fn find_id(hs: Seq<HandlerView>, id: u32) -> Option<int>
    decreases hs.len(),
{
    if hs.len() == 0 {
        None
    } else if hs[0].id == id {
        Some(0)
    } else {
        match find_id(hs.drop_first(), id) {
            None => None,
            Some(j) => Some(j + 1),
        }
    }
}

/// What a `find_id` answer means: a position holds the id; no position means
/// no handler holds it.
pub proof fn lemma_find_id_props(hs: Seq<HandlerView>, id: u32)
    ensures
        find_id(hs, id) matches Some(j) ==> 0 <= j < hs.len() && hs[j].id == id,
        find_id(hs, id) is None ==> forall|k: int| 0 <= k < hs.len() ==> hs[k].id != id,
    decreases hs.len(),
{
    if hs.len() == 0 {
    } else if hs[0].id == id {
    } else {
        lemma_find_id_props(hs.drop_first(), id);
        match find_id(hs.drop_first(), id) {
            Some(j) => {
                assert(hs.drop_first()[j] == hs[j + 1]);
            },
            None => {
                assert forall|k: int| 0 <= k < hs.len() implies hs[k].id != id by {
                    if k > 0 {
                        assert(hs.drop_first()[k - 1] == hs[k]);
                    }
                }
            },
        }
    }
}

/// `find_id` answers the first position that holds the id.
pub proof fn lemma_find_id_at(hs: Seq<HandlerView>, id: u32, j: int)
    requires
        0 <= j < hs.len(),
        hs[j].id == id,
        forall|k: int| 0 <= k < j ==> hs[k].id != id,
    ensures
        find_id(hs, id) == Some(j),
    decreases hs.len(),
{
    if j == 0 {
    } else {
        assert(hs[0].id != id);
        assert(hs.drop_first()[j - 1] == hs[j]);
        assert forall|k: int| 0 <= k < j - 1 implies hs.drop_first()[k].id != id by {
            assert(hs.drop_first()[k] == hs[k + 1]);
        }
        lemma_find_id_at(hs.drop_first(), id, j - 1);
    }
}

/// The registry a worker owns: one handler per registered message id.
///
/// In the running system the map is behind the worker's lock and each handler
/// is shared with its waiters; the shell provides that exclusion, and every
/// contract here describes one step made under it.
pub struct Worker {
    pub handlers: Vec<AmHandler>,
}

impl View for Worker {
    type V = Seq<HandlerView>;

    open spec fn view(&self) -> Seq<HandlerView> {
        self.handlers@.map_values(|h: AmHandler| h@)
    }
}

impl Worker {
    /// Registered ids are unique: at most one handler per id.
    pub open spec fn wf(&self) -> bool {
        forall|i: int, j: int| 0 <= i < j < self@.len() ==> self@[i].id != self@[j].id
    }

    /// A worker with no registrations.
    pub fn new() -> (w: Worker)
        ensures
            w.wf(),
            w@ == Seq::<HandlerView>::empty(),
    {
        let w = Worker { handlers: Vec::new() };
        proof {
            assert(w@ =~= Seq::<HandlerView>::empty());
        }
        w
    }

    /// Where the handler for `id` sits.
    fn find_handler(&self, id: u32) -> (r: Option<usize>)
        ensures
            match r {
                Some(i) => find_id(self@, id) == Some(i as int),
                None => find_id(self@, id) is None,
            },
    {
        let mut i: usize = 0;
        while i < self.handlers.len()
            invariant
                i <= self.handlers.len(),
                self@.len() == self.handlers@.len(),
                forall|k: int| 0 <= k < i ==> self@[k].id != id,
            decreases self.handlers.len() - i,
        {
            if self.handlers[i].id == id {
                proof {
                    lemma_find_id_at(self@, id, i as int);
                }
                return Some(i);
            }
            i += 1;
        }
        proof {
            lemma_find_id_props(self@, id);
            match find_id(self@, id) {
                Some(j) => {
                    assert(self@[j].id == id);
                    assert(false);
                },
                None => {},
            }
        }
        None
    }

    /// Register a handler for `id`. Idempotent: an id with a live handler is
    /// left exactly as it is (the native callback is not re-installed). An
    /// unregistered leftover is replaced by a fresh live handler, and an
    /// unknown id gets a new one.
    pub fn am_register(&mut self, id: u32)
        requires
            old(self).wf(),
        ensures
            final(self).wf(),
            match find_id(old(self)@, id) {
                Some(j) => {
                    if old(self)@[j].unregistered {
                        final(self)@ == old(self)@.update(j, fresh_handler(id))
                    } else {
                        final(self)@ == old(self)@
                    }
                },
                None => final(self)@ == old(self)@.push(fresh_handler(id)),
            },
    {
        proof {
            lemma_find_id_props(old(self)@, id);
        }
        match self.find_handler(id) {
            Some(i) => {
                if self.handlers[i].unregistered {
                    let h = AmHandler::new(id);
                    self.handlers.remove(i);
                    self.handlers.insert(i, h);
                    proof {
                        assert(self@ =~= old(self)@.update(i as int, fresh_handler(id)));
                        assert forall|a: int, b: int| 0 <= a < b < self@.len() implies self@[a].id
                            != self@[b].id by {
                            assert(old(self)@[a].id == self@[a].id);
                            assert(old(self)@[b].id == self@[b].id);
                        }
                    }
                }
            },
            None => {
                let h = AmHandler::new(id);
                self.handlers.push(h);
                proof {
                    assert(self@ =~= old(self)@.push(fresh_handler(id)));
                    assert forall|a: int, b: int| 0 <= a < b < self@.len() implies self@[a].id
                        != self@[b].id by {
                        if b < self@.len() - 1 {
                            assert(old(self)@[a].id == self@[a].id);
                            assert(old(self)@[b].id == self@[b].id);
                        } else {
                            assert(old(self)@[a].id == self@[a].id);
                            assert(self@[b].id == id);
                        }
                    }
                }
            },
        }
    }

    /// Remove the registration for `id`: its handler, if any, is marked and
    /// from then on accepts no arrival, but its queue stays drainable so that
    /// no already-arrived message is lost.
    pub fn am_unregister(&mut self, id: u32)
        requires
            old(self).wf(),
        ensures
            final(self).wf(),
            match find_id(old(self)@, id) {
                None => final(self)@ == old(self)@,
                Some(j) => final(self)@ == old(self)@.update(
                    j,
                    (HandlerView { unregistered: true, ..old(self)@[j] }),
                ),
            },
    {
        proof {
            lemma_find_id_props(old(self)@, id);
        }
        match self.find_handler(id) {
            None => {},
            Some(i) => {
                let mut h = self.handlers.remove(i);
                h.unregister();
                self.handlers.insert(i, h);
                proof {
                    assert(self@ =~= old(self)@.update(
                        i as int,
                        (HandlerView { unregistered: true, ..old(self)@[i as int] }),
                    ));
                    assert forall|a: int, b: int| 0 <= a < b < self@.len() implies self@[a].id
                        != self@[b].id by {
                        assert(old(self)@[a].id == self@[a].id);
                        assert(old(self)@[b].id == self@[b].id);
                    }
                }
            },
        }
    }

    /// The consumer's wait step for `id`: the handler's `wait_msg` when one
    /// is known, and `Finished` — no message will ever come — when the id has
    /// no handler at all.
    pub fn am_recv(&mut self, id: u32) -> (r: AmPoll)
        requires
            old(self).wf(),
        ensures
            final(self).wf(),
            match find_id(old(self)@, id) {
                None => r@ == PollView::Finished && final(self)@ == old(self)@,
                Some(j) => r@ == wait_msg_spec(old(self)@[j]).0 && final(self)@ == old(
                    self,
                )@.update(j, wait_msg_spec(old(self)@[j]).1),
            },
    {
        proof {
            lemma_find_id_props(old(self)@, id);
        }
        match self.find_handler(id) {
            None => AmPoll::Finished,
            Some(i) => {
                let mut h = self.handlers.remove(i);
                let r = h.wait_msg();
                self.handlers.insert(i, h);
                proof {
                    assert(self@ =~= old(self)@.update(
                        i as int,
                        wait_msg_spec(old(self)@[i as int]).1,
                    ));
                    assert forall|a: int, b: int| 0 <= a < b < self@.len() implies self@[a].id
                        != self@[b].id by {
                        assert(old(self)@[a].id == self@[a].id);
                        assert(old(self)@[b].id == self@[b].id);
                    }
                }
                r
            },
        }
    }

    /// The native arrival trampoline's step: find the live handler for `id`,
    /// enqueue the classified envelope there, and answer the transport's
    /// status question. An id without a live handler accepts nothing — after
    /// unregistration no new message can appear — and answers `None`.
    pub fn dispatch_arrival(
        &mut self,
        id: u32,
        header: Vec<u8>,
        data: Vec<u8>,
        reply_ep: u64,
        attr: u64,
    ) -> (r: Option<DispatchStatus>)
        requires
            old(self).wf(),
        ensures
            final(self).wf(),
            match find_id(old(self)@, id) {
                Some(j) => if old(self)@[j].unregistered {
                    r is None && final(self)@ == old(self)@
                } else {
                    r == Some(dispatch_status_of(attr)) && final(self)@ == old(self)@.update(
                        j,
                        (HandlerView {
                            queue: old(self)@[j].queue.push(
                                arrival_view(id, header@, data@, reply_ep, attr),
                            ),
                            ..old(self)@[j]
                        }),
                    )
                },
                None => r is None && final(self)@ == old(self)@,
            },
    {
        proof {
            lemma_find_id_props(old(self)@, id);
        }
        match self.find_handler(id) {
            None => None,
            Some(i) => {
                if self.handlers[i].unregistered {
                    None
                } else {
                    let mut h = self.handlers.remove(i);
                    let st = h.callback(header, data, reply_ep, attr);
                    self.handlers.insert(i, h);
                    proof {
                        assert(self@ =~= old(self)@.update(
                            i as int,
                            (HandlerView {
                                queue: old(self)@[i as int].queue.push(
                                    arrival_view(id, header@, data@, reply_ep, attr),
                                ),
                                ..old(self)@[i as int]
                            }),
                        ));
                        assert forall|a: int, b: int| 0 <= a < b < self@.len() implies self@[a].id
                            != self@[b].id by {
                            assert(old(self)@[a].id == self@[a].id);
                            assert(old(self)@[b].id == self@[b].id);
                        }
                    }
                    Some(st)
                }
            },
        }
    }
}

} // verus!
