//! The event broadcast hub.
//!
//! Producers put events into one intake channel. A single dispatch loop takes
//! them out in order and hands each to every registered subscriber.
//!
//! Every subscriber has a queue of its own, and a send never waits: a slow
//! consumer cannot hold the others back. The queue has a hard cap. A send
//! fails when the receiving side is gone or when the queue is full, and a
//! subscriber whose send failed is dropped from the registry in the same
//! dispatch; its connection then simply closes. There is no other way out of
//! the registry, and no heartbeat.

use vstd::prelude::*;
use std::sync::mpsc::Receiver;
use std::sync::mpsc::Sender;
use std::sync::mpsc::SyncSender;
use crate::select::marked;
use crate::select::select;
use crate::select::selected;
use crate::select::selected_upto;

verus! {

/// The sending half of a `std::sync::mpsc` channel; carried, never inspected.
#[verifier::external_type_specification]
#[verifier::external_body]
#[verifier::reject_recursive_types(T)]
pub struct ExSender<T>(Sender<T>);

/// The receiving half of a `std::sync::mpsc` channel; carried, never inspected.
#[verifier::external_type_specification]
#[verifier::external_body]
#[verifier::reject_recursive_types(T)]
pub struct ExReceiver<T>(Receiver<T>);

/// The sending half of a bounded `std::sync::mpsc` channel; carried, never
/// inspected.
#[verifier::external_type_specification]
#[verifier::external_body]
#[verifier::reject_recursive_types(T)]
pub struct ExSyncSender<T>(SyncSender<T>);

/// `std::sync::mpsc::sync_channel`: a fresh channel that holds at most `cap`
/// messages. Nothing is claimed of the two halves.
#[verifier::external_body]
fn open_queue(cap: usize) -> (pair: (SyncSender<String>, Receiver<String>)) {
    std::sync::mpsc::sync_channel(cap)
}

/// `SyncSender::try_send` with a copy of `event`, which never waits: `true`
/// when the channel took the message, `false` when it is full or the
/// receiving half has been dropped. Which of these happens depends on the
/// other side, so nothing is claimed of the result.
#[verifier::external_body]
fn offer_text(tx: &SyncSender<String>, event: &str) -> (delivered: bool) {
    tx.try_send(event.to_owned()).is_ok()
}

/// `std::sync::mpsc::channel`: a fresh unbounded channel. Nothing is claimed
/// of the two halves.
#[verifier::external_body]
fn open_channel() -> (pair: (Sender<String>, Receiver<String>)) {
    std::sync::mpsc::channel()
}

/// `Sender::send` with a copy of `event`: `true` when the channel took the
/// message, `false` when the receiving half has been dropped. Which of the two
/// happens depends on the other side, so nothing is claimed of the result.
#[verifier::external_body]
fn send_text(tx: &Sender<String>, event: &str) -> (delivered: bool) {
    tx.send(event.to_owned()).is_ok()
}

/// `Sender::clone`: another handle on the same channel.
#[verifier::external_body]
fn clone_sender(tx: &Sender<String>) -> (copy: Sender<String>) {
    tx.clone()
}

/// `Receiver::recv`: waits for the next message; `None` once every sender is
/// gone and the queue is empty.
#[verifier::external_body]
fn receive_text(rx: &Receiver<String>) -> (event: Option<String>) {
    rx.recv().ok()
}

/// `Receiver::try_recv`: the next message if one is queued, without waiting.
#[verifier::external_body]
fn poll_text(rx: &Receiver<String>) -> (event: Option<String>) {
    rx.try_recv().ok()
}

// ---------------------------------------------------------------------------
// Model
// ---------------------------------------------------------------------------

/// Whether the delivery attempt at position `i` succeeded. A position without
/// a recorded outcome counts as failed.
pub open spec fn delivered_at(delivered: Seq<bool>, i: int) -> bool {
    marked(delivered, i)
}

/// Whether `x` is the id at position `i`, among the first `n`, and the send
/// to it succeeded.
pub open spec fn sent_at(ids: Seq<u64>, delivered: Seq<bool>, n: nat, x: u64, i: int) -> bool {
    0 <= i < n && i < ids.len() && ids[i] == x && delivered_at(delivered, i)
}

/// The ids that stay registered after one dispatch: those whose delivery
/// succeeded, in the order they stood in.
pub open spec fn kept(ids: Seq<u64>, delivered: Seq<bool>) -> Seq<u64> {
    selected(ids, delivered)
}

/// The registry as a value: the registered ids in order of registration and
/// the id the next subscriber will get.
#[verifier::ext_equal]
pub struct HubModel {
    pub ids: Seq<u64>,
    pub next_id: int,
}

/// One thing that happens to the registry.
pub enum HubStep {
    /// A client connects.
    Register,
    /// The dispatch loop hands `event` to every registered subscriber;
    /// `delivered[i]` says whether the send to the subscriber at position `i`
    /// succeeded.
    Publish { event: Seq<char>, delivered: Seq<bool> },
}

impl HubModel {
    /// Ids are handed out in increasing order and never reused.
    pub open spec fn wf(self) -> bool {
        &&& 0 <= self.next_id <= u64::MAX
        &&& forall|i: int| 0 <= i < self.ids.len() ==> (#[trigger] self.ids[i]) < self.next_id
        &&& forall|i: int, j: int|
            0 <= i < j < self.ids.len() ==> (#[trigger] self.ids[i]) < (#[trigger] self.ids[j])
    }

    /// Whether the subscriber `id` is registered and the send to it succeeded.
    pub open spec fn delivered_to(self, delivered: Seq<bool>, id: u64) -> bool {
        exists|i: int|
            0 <= i < self.ids.len() && #[trigger] self.ids[i] == id && delivered_at(delivered, i)
    }

    /// The registry after one step.
    pub open spec fn step(self, s: HubStep) -> HubModel {
        match s {
            HubStep::Register => if self.next_id < u64::MAX {
                HubModel { ids: self.ids.push(self.next_id as u64), next_id: self.next_id + 1 }
            } else {
                self
            },
            HubStep::Publish { event, delivered } => HubModel {
                ids: kept(self.ids, delivered),
                next_id: self.next_id,
            },
        }
    }

    /// The registry after a sequence of steps.
    pub open spec fn run(self, steps: Seq<HubStep>) -> HubModel
        decreases steps.len(),
    {
        if steps.len() == 0 {
            self
        } else {
            self.run(steps.drop_last()).step(steps.last())
        }
    }

    /// What the subscriber `id` has been sent over a sequence of steps, in
    /// order of delivery.
    pub open spec fn inbox(self, steps: Seq<HubStep>, id: u64) -> Seq<Seq<char>>
        decreases steps.len(),
    {
        if steps.len() == 0 {
            Seq::<Seq<char>>::empty()
        } else {
            let before = self.inbox(steps.drop_last(), id);
            match steps.last() {
                HubStep::Publish { event, delivered } => if self.run(
                    steps.drop_last(),
                ).delivered_to(delivered, id) {
                    before.push(event)
                } else {
                    before
                },
                HubStep::Register => before,
            }
        }
    }
}

/// The events of the publish steps, in order.
pub open spec fn published(steps: Seq<HubStep>) -> Seq<Seq<char>>
    decreases steps.len(),
{
    if steps.len() == 0 {
        Seq::<Seq<char>>::empty()
    } else {
        let before = published(steps.drop_last());
        match steps.last() {
            HubStep::Publish { event, delivered } => before.push(event),
            HubStep::Register => before,
        }
    }
}

// ---------------------------------------------------------------------------
// Lemmas on `kept`
// ---------------------------------------------------------------------------

proof fn lemma_kept_members(ids: Seq<u64>, delivered: Seq<bool>, n: nat)
    requires
        n <= ids.len(),
    ensures
        selected_upto(ids, delivered, n).len() <= n,
        forall|x: u64| #[trigger]
            selected_upto(ids, delivered, n).contains(x) ==> exists|i: int| #[trigger]
                sent_at(ids, delivered, n, x, i),
        forall|i: int, x: u64| #[trigger]
            sent_at(ids, delivered, n, x, i) ==> selected_upto(ids, delivered, n).contains(x),
    decreases n,
{
    if n > 0 {
        let prev = selected_upto(ids, delivered, (n - 1) as nat);
        let cur = selected_upto(ids, delivered, n);
        lemma_kept_members(ids, delivered, (n - 1) as nat);
        assert forall|x: u64| #[trigger] cur.contains(x) implies exists|i: int| #[trigger]
            sent_at(ids, delivered, n, x, i) by {
            let k = choose|k: int| 0 <= k < cur.len() && cur[k] == x;
            if k < prev.len() {
                assert(prev[k] == x);
                assert(prev.contains(x));
                let i = choose|i: int| #[trigger] sent_at(ids, delivered, (n - 1) as nat, x, i);
                assert(sent_at(ids, delivered, n, x, i));
            } else {
                assert(sent_at(ids, delivered, n, x, n - 1));
            }
        }
        assert forall|i: int, x: u64| #[trigger]
            sent_at(ids, delivered, n, x, i) implies cur.contains(x) by {
            if i < n - 1 {
                assert(sent_at(ids, delivered, (n - 1) as nat, x, i));
                assert(prev.contains(x));
                let k = choose|k: int| 0 <= k < prev.len() && prev[k] == x;
                assert(cur[k] == x);
            } else {
                assert(cur[cur.len() - 1] == x);
            }
        }
    }
}

proof fn lemma_kept_increasing(ids: Seq<u64>, delivered: Seq<bool>, n: nat)
    requires
        n <= ids.len(),
        forall|i: int, j: int|
            0 <= i < j < ids.len() ==> (#[trigger] ids[i]) < (#[trigger] ids[j]),
    ensures
        forall|a: int, b: int|
            0 <= a < b < selected_upto(ids, delivered, n).len() ==> (#[trigger] selected_upto(
                ids,
                delivered,
                n,
            )[a]) < (#[trigger] selected_upto(ids, delivered, n)[b]),
    decreases n,
{
    if n > 0 {
        let prev = selected_upto(ids, delivered, (n - 1) as nat);
        let cur = selected_upto(ids, delivered, n);
        lemma_kept_increasing(ids, delivered, (n - 1) as nat);
        lemma_kept_members(ids, delivered, (n - 1) as nat);
        assert forall|a: int, b: int| 0 <= a < b < cur.len() implies (#[trigger] cur[a]) < (
        #[trigger] cur[b]) by {
            if b < prev.len() {
                assert(cur[a] == prev[a] && cur[b] == prev[b]);
            } else {
                assert(cur[b] == ids[n - 1]);
                assert(cur[a] == prev[a]);
                assert(prev.contains(prev[a]));
                let i = choose|i: int| #[trigger]
                    sent_at(ids, delivered, (n - 1) as nat, prev[a], i);
                assert(ids[i] < ids[n - 1]);
            }
        }
    }
}

/// An id stays registered after a dispatch exactly if it was registered and
/// the send to it succeeded; the order of those that stay is unchanged.
pub proof fn lemma_kept(m: HubModel, delivered: Seq<bool>)
    requires
        m.wf(),
    ensures
        forall|id: u64| #[trigger]
            kept(m.ids, delivered).contains(id) <==> m.delivered_to(delivered, id),
        (HubModel { ids: kept(m.ids, delivered), next_id: m.next_id }).wf(),
        kept(m.ids, delivered).len() <= m.ids.len(),
{
    let out = kept(m.ids, delivered);
    lemma_kept_members(m.ids, delivered, m.ids.len());
    lemma_kept_increasing(m.ids, delivered, m.ids.len());
    assert forall|id: u64| #[trigger] out.contains(id) <==> m.delivered_to(delivered, id) by {
        if out.contains(id) {
            let i = choose|i: int| #[trigger] sent_at(m.ids, delivered, m.ids.len(), id, i);
            assert(m.ids[i] == id && delivered_at(delivered, i));
        }
        if m.delivered_to(delivered, id) {
            let i = choose|i: int|
                0 <= i < m.ids.len() && #[trigger] m.ids[i] == id && delivered_at(delivered, i);
            assert(sent_at(m.ids, delivered, m.ids.len(), id, i));
        }
    }
    assert forall|k: int| 0 <= k < out.len() implies (#[trigger] out[k]) < m.next_id by {
        assert(out.contains(out[k]));
        let i = choose|i: int| #[trigger] sent_at(m.ids, delivered, m.ids.len(), out[k], i);
        assert(m.ids[i] == out[k]);
    }
}

// ---------------------------------------------------------------------------
// Laws of the registry
// ---------------------------------------------------------------------------

/// A step keeps the registry well formed and never hands an id out again.
pub proof fn lemma_step_wf(m: HubModel, s: HubStep)
    requires
        m.wf(),
    ensures
        m.step(s).wf(),
        m.step(s).next_id >= m.next_id,
{
    match s {
        HubStep::Register => {},
        HubStep::Publish { event, delivered } => {
            lemma_kept(m, delivered);
        },
    }
}

/// Any sequence of steps keeps the registry well formed.
pub proof fn lemma_run_wf(m: HubModel, steps: Seq<HubStep>)
    requires
        m.wf(),
    ensures
        m.run(steps).wf(),
        m.run(steps).next_id >= m.next_id,
    decreases steps.len(),
{
    if steps.len() > 0 {
        lemma_run_wf(m, steps.drop_last());
        lemma_step_wf(m.run(steps.drop_last()), steps.last());
    }
}

/// Running `a` and then `b` is running `a + b`, and what a subscriber is sent
/// over `a + b` is what it is sent over `a` followed by what it is sent over
/// `b`.
pub proof fn lemma_run_concat(m: HubModel, a: Seq<HubStep>, b: Seq<HubStep>, id: u64)
    ensures
        m.run(a + b) == m.run(a).run(b),
        m.inbox(a + b, id) == m.inbox(a, id) + m.run(a).inbox(b, id),
        published(a + b) == published(a) + published(b),
    decreases b.len(),
{
    if b.len() == 0 {
        assert(a + b =~= a);
        assert(m.inbox(a, id) + m.run(a).inbox(b, id) =~= m.inbox(a, id));
        assert(published(a) + published(b) =~= published(a));
    } else {
        assert((a + b).drop_last() =~= a + b.drop_last());
        assert((a + b).last() == b.last());
        lemma_run_concat(m, a, b.drop_last(), id);
        let pre = m.inbox(a, id);
        let mid = m.run(a).inbox(b.drop_last(), id);
        match b.last() {
            HubStep::Publish { event, delivered } => {
                assert((pre + mid).push(event) =~= pre + mid.push(event));
                assert((published(a) + published(b.drop_last())).push(event) =~= published(a)
                    + published(b.drop_last()).push(event));
            },
            HubStep::Register => {},
        }
    }
}

/// A subscriber that is not registered and whose id has been handed out is
/// never registered again and is sent nothing.
pub proof fn lemma_gone_stays_gone(m: HubModel, steps: Seq<HubStep>, id: u64)
    requires
        m.wf(),
        !m.ids.contains(id),
        id < m.next_id,
    ensures
        !m.run(steps).ids.contains(id),
        m.inbox(steps, id) == Seq::<Seq<char>>::empty(),
    decreases steps.len(),
{
    if steps.len() > 0 {
        let before = m.run(steps.drop_last());
        lemma_gone_stays_gone(m, steps.drop_last(), id);
        lemma_run_wf(m, steps.drop_last());
        match steps.last() {
            HubStep::Register => {
                if before.next_id < u64::MAX {
                    let after = before.step(HubStep::Register);
                    assert forall|k: int| 0 <= k < after.ids.len() implies after.ids[k] != id by {
                        if k < before.ids.len() {
                            assert(before.ids[k] == after.ids[k]);
                        }
                    }
                }
            },
            HubStep::Publish { event, delivered } => {
                lemma_kept(before, delivered);
                if before.delivered_to(delivered, id) {
                    let i = choose|i: int|
                        0 <= i < before.ids.len() && #[trigger] before.ids[i] == id && delivered_at(
                            delivered,
                            i,
                        );
                    assert(before.ids.contains(id));
                }
            },
        }
    }
}

/// A subscriber that is registered, and to which every send succeeds, stays
/// registered and is sent every published event, once each, in the order of
/// publication.
pub proof fn lemma_live_subscriber_receives_all(m: HubModel, steps: Seq<HubStep>, id: u64)
    requires
        m.wf(),
        m.ids.contains(id),
        forall|j: int|
            0 <= j < steps.len() ==> ((#[trigger] steps[j]) matches HubStep::Publish {
                event,
                delivered,
            } ==> m.run(steps.take(j)).delivered_to(delivered, id)),
    ensures
        m.run(steps).ids.contains(id),
        m.inbox(steps, id) == published(steps),
    decreases steps.len(),
{
    if steps.len() > 0 {
        let init = steps.drop_last();
        let before = m.run(init);
        assert forall|j: int| 0 <= j < init.len() implies ((#[trigger] init[j]) matches HubStep::Publish {
            event,
            delivered,
        } ==> m.run(init.take(j)).delivered_to(delivered, id)) by {
            assert(init[j] == steps[j]);
            assert(init.take(j) =~= steps.take(j));
        }
        lemma_live_subscriber_receives_all(m, init, id);
        lemma_run_wf(m, init);
        assert(steps.take(steps.len() - 1) =~= init);
        assert(steps[steps.len() - 1] == steps.last());
        match steps.last() {
            HubStep::Register => {
                let k = choose|k: int| 0 <= k < before.ids.len() && before.ids[k] == id;
                if before.next_id < u64::MAX {
                    assert(before.step(HubStep::Register).ids[k] == id);
                }
            },
            HubStep::Publish { event, delivered } => {
                lemma_kept(before, delivered);
                assert(before.delivered_to(delivered, id));
            },
        }
    }
}

/// A subscriber to which a send fails is absent from the registry after that
/// dispatch and for ever after, and is sent nothing from that dispatch on.
pub proof fn lemma_failed_subscriber_is_gone(m: HubModel, steps: Seq<HubStep>, j: int, id: u64)
    requires
        m.wf(),
        0 <= j < steps.len(),
        m.run(steps.take(j)).ids.contains(id),
        steps[j] matches HubStep::Publish { event, delivered } && !m.run(
            steps.take(j),
        ).delivered_to(delivered, id),
    ensures
        !m.run(steps).ids.contains(id),
        m.inbox(steps, id) == m.inbox(steps.take(j), id),
        forall|k: int| j < k <= steps.len() ==> !(#[trigger] m.run(steps.take(k))).ids.contains(id),
{
    let head = steps.take(j);
    let at = m.run(head);
    lemma_run_wf(m, head);
    assert(at.ids.contains(id) ==> id < at.next_id) by {
        if at.ids.contains(id) {
            let k = choose|k: int| 0 <= k < at.ids.len() && at.ids[k] == id;
            assert(at.ids[k] < at.next_id);
        }
    }
    let one = seq![steps[j]];
    assert(one.drop_last() =~= Seq::<HubStep>::empty());
    assert(one.last() == steps[j]);
    assert(at.run(one.drop_last()) == at);
    assert(at.run(one) == at.step(steps[j]));
    assert(at.inbox(one.drop_last(), id) == Seq::<Seq<char>>::empty());
    assert(at.inbox(one, id) == Seq::<Seq<char>>::empty());
    let after = at.step(steps[j]);
    lemma_step_wf(at, steps[j]);
    match steps[j] {
        HubStep::Publish { event, delivered } => {
            lemma_kept(at, delivered);
        },
        HubStep::Register => {},
    }
    assert(!after.ids.contains(id));
    assert forall|k: int| j < k <= steps.len() implies !(#[trigger] m.run(steps.take(k))).ids.contains(
        id,
    ) && m.inbox(steps.take(k), id) == m.inbox(head, id) by {
        let tail = steps.subrange(j + 1, k);
        assert(steps.take(k) =~= (head + one) + tail);
        lemma_run_concat(m, head, one, id);
        lemma_run_concat(m, head + one, tail, id);
        lemma_gone_stays_gone(after, tail, id);
        assert(m.inbox(head, id) + Seq::<Seq<char>>::empty() =~= m.inbox(head, id));
    }
    let whole = steps.take(steps.len() as int);
    assert(whole =~= steps);
    assert(!m.run(whole).ids.contains(id) && m.inbox(whole, id) == m.inbox(head, id));
}

// ---------------------------------------------------------------------------
// The registry
// ---------------------------------------------------------------------------

/// The number of events a subscriber may fall behind unless told otherwise.
pub const DEFAULT_QUEUE_CAP: usize = 1024;

/// A registered subscriber: its id and the sending half of its queue.
pub struct Subscriber {
    id: u64,
    tx: SyncSender<String>,
}

/// What a client holds after registering: its id and the receiving half of
/// its queue. Dropping the handle closes the queue, which the next dispatch
/// notices.
pub struct SubscriberHandle {
    id: u64,
    rx: Receiver<String>,
}

impl SubscriberHandle {
    /// The id under which the subscriber is registered.
    pub closed spec fn spec_id(&self) -> u64 {
        self.id
    }

    /// The id under which the subscriber is registered.
    #[verifier::when_used_as_spec(spec_id)]
    pub fn id(&self) -> (r: u64)
        ensures
            r == self.spec_id(),
    {
        self.id
    }

    /// Waits for the next event. `None` once the subscriber has been dropped
    /// from the registry and its queue is empty.
    pub fn next(&self) -> (event: Option<String>) {
        receive_text(&self.rx)
    }

    /// The next event if one is queued, without waiting.
    pub fn try_next(&self) -> (event: Option<String>) {
        poll_text(&self.rx)
    }
}

/// The ids of a sequence of subscribers, in the same order.
pub closed spec fn ids_of(subs: Seq<Subscriber>) -> Seq<u64> {
    Seq::new(subs.len(), |i: int| subs[i].id)
}

/// The ids of a selection of subscribers are the selection of their ids.
proof fn lemma_ids_of_selected(subs: Seq<Subscriber>, delivered: Seq<bool>, n: nat)
    requires
        n <= subs.len(),
    ensures
        ids_of(selected_upto(subs, delivered, n)) == selected_upto(ids_of(subs), delivered, n),
    decreases n,
{
    if n > 0 {
        lemma_ids_of_selected(subs, delivered, (n - 1) as nat);
        let before = selected_upto(subs, delivered, (n - 1) as nat);
        if marked(delivered, n - 1) {
            assert(ids_of(before.push(subs[n - 1])) =~= ids_of(before).push(ids_of(subs)[n - 1]));
        }
    } else {
        assert(ids_of(selected_upto(subs, delivered, n)) =~= Seq::<u64>::empty());
    }
}

/// The registry of live subscribers.
pub struct Hub {
    subscribers: Vec<Subscriber>,
    next_id: u64,
    queue_cap: usize,
}

impl View for Hub {
    type V = HubModel;

    closed spec fn view(&self) -> HubModel {
        HubModel { ids: ids_of(self.subscribers@), next_id: self.next_id as int }
    }
}

impl Hub {
    #[verifier::type_invariant]
    spec fn inv(&self) -> bool {
        self@.wf()
    }

    /// The number of events a subscriber of this registry may fall behind.
    pub closed spec fn spec_queue_cap(&self) -> usize {
        self.queue_cap
    }

    /// An empty registry whose subscribers may fall behind by
    /// `DEFAULT_QUEUE_CAP` events.
    pub fn new() -> (hub: Hub)
        ensures
            hub@.ids.len() == 0,
            hub@.next_id == 0,
            hub@.wf(),
            hub.spec_queue_cap() == DEFAULT_QUEUE_CAP,
    {
        Hub { subscribers: Vec::new(), next_id: 0, queue_cap: DEFAULT_QUEUE_CAP }
    }

    /// An empty registry whose subscribers may fall behind by `cap` events.
    pub fn with_queue_cap(cap: usize) -> (hub: Hub)
        ensures
            hub@.ids.len() == 0,
            hub@.next_id == 0,
            hub@.wf(),
            hub.spec_queue_cap() == cap,
    {
        Hub { subscribers: Vec::new(), next_id: 0, queue_cap: cap }
    }

    /// The number of events a subscriber of this registry may fall behind.
    #[verifier::when_used_as_spec(spec_queue_cap)]
    pub fn queue_cap(&self) -> (cap: usize)
        ensures
            cap == self.spec_queue_cap(),
    {
        self.queue_cap
    }

    /// The number of registered subscribers.
    pub fn subscriber_count(&self) -> (n: usize)
        ensures
            n == self@.ids.len(),
    {
        self.subscribers.len()
    }

    /// The ids of the registered subscribers, in order of registration.
    pub fn subscriber_ids(&self) -> (ids: Vec<u64>)
        ensures
            ids@ == self@.ids,
    {
        let mut ids: Vec<u64> = Vec::new();
        let mut i: usize = 0;
        while i < self.subscribers.len()
            invariant
                i <= self.subscribers.len(),
                ids@ == ids_of(self.subscribers@).take(i as int),
            decreases self.subscribers.len() - i,
        {
            ids.push(self.subscribers[i].id);
            i += 1;
        }
        ids
    }

    /// Whether `id` is registered.
    pub fn is_registered(&self, id: u64) -> (found: bool)
        ensures
            found == self@.ids.contains(id),
    {
        let mut i: usize = 0;
        while i < self.subscribers.len()
            invariant
                i <= self.subscribers.len(),
                forall|j: int| 0 <= j < i ==> ids_of(self.subscribers@)[j] != id,
            decreases self.subscribers.len() - i,
        {
            if self.subscribers[i].id == id {
                assert(ids_of(self.subscribers@)[i as int] == id);
                return true;
            }
            i += 1;
        }
        false
    }

    /// Registers a new subscriber with a fresh queue and hands back its
    /// handle. `None`, with the registry unchanged, only when every id has
    /// been handed out.
    pub fn register(&mut self) -> (handle: Option<SubscriberHandle>)
        ensures
            final(self)@ == old(self)@.step(HubStep::Register),
            handle is Some <==> old(self)@.next_id < u64::MAX,
            handle matches Some(h) ==> h.id() == old(self)@.next_id,
            old(self)@.wf() && final(self)@.wf(),
            final(self).queue_cap() == old(self).queue_cap(),
    {
        proof {
            use_type_invariant(&*self);
        }
        if self.next_id == u64::MAX {
            return None;
        }
        let id = self.next_id;
        let (tx, rx) = open_queue(self.queue_cap);
        let mut subs: Vec<Subscriber> = Vec::new();
        core::mem::swap(&mut self.subscribers, &mut subs);
        let ghost before = subs@;
        self.next_id = id + 1;
        subs.push(Subscriber { id, tx });
        proof {
            let now = ids_of(subs@);
            assert(now =~= ids_of(before).push(id));
            assert(ids_of(before) == old(self)@.ids);
            assert forall|a: int, b: int| 0 <= a < b < now.len() implies (#[trigger] now[a]) < (
            #[trigger] now[b]) by {
                if b < now.len() - 1 {
                    assert(now[a] == old(self)@.ids[a] && now[b] == old(self)@.ids[b]);
                } else {
                    assert(now[a] == old(self)@.ids[a]);
                }
            }
        }
        core::mem::swap(&mut self.subscribers, &mut subs);
        Some(SubscriberHandle { id, rx })
    }

    /// Drops every subscriber whose delivery failed. `delivered[i]` is the
    /// outcome of the send to the subscriber at position `i`; a subscriber
    /// without an outcome is dropped too.
    pub fn prune(&mut self, delivered: &Vec<bool>)
        ensures
            final(self)@.ids == kept(old(self)@.ids, delivered@),
            final(self)@.next_id == old(self)@.next_id,
            old(self)@.wf() && final(self)@.wf(),
            final(self).queue_cap() == old(self).queue_cap(),
    {
        proof {
            use_type_invariant(&*self);
            lemma_kept(self@, delivered@);
        }
        let mut rest: Vec<Subscriber> = Vec::new();
        core::mem::swap(&mut self.subscribers, &mut rest);
        let ghost orig = rest@;
        let mut live = select(rest, delivered);
        proof {
            lemma_ids_of_selected(orig, delivered@, orig.len());
        }
        core::mem::swap(&mut self.subscribers, &mut live);
    }

    /// Hands `event` to every registered subscriber, in order of
    /// registration, without waiting for any of them, and drops those whose
    /// send failed: those that are gone and those whose queue is full. The
    /// result holds one outcome for each subscriber that was registered.
    pub fn dispatch(&mut self, event: &str) -> (delivered: Vec<bool>)
        ensures
            delivered@.len() == old(self)@.ids.len(),
            final(self)@ == old(self)@.step(
                HubStep::Publish { event: event@, delivered: delivered@ },
            ),
            old(self)@.wf() && final(self)@.wf(),
            final(self).queue_cap() == old(self).queue_cap(),
    {
        let mut delivered: Vec<bool> = Vec::new();
        let mut i: usize = 0;
        while i < self.subscribers.len()
            invariant
                i <= self.subscribers.len(),
                delivered.len() == i,
            decreases self.subscribers.len() - i,
        {
            let ok = offer_text(&self.subscribers[i].tx, event);
            delivered.push(ok);
            i += 1;
        }
        self.prune(&delivered);
        delivered
    }
}

/// The producers' end of the intake channel.
pub struct Publisher {
    tx: Sender<String>,
}

/// The dispatch loop's end of the intake channel.
pub struct Intake {
    rx: Receiver<String>,
}

/// A fresh intake channel: one end for the producers, one for the dispatch
/// loop.
pub fn intake() -> (ends: (Publisher, Intake)) {
    let (tx, rx) = open_channel();
    (Publisher { tx }, Intake { rx })
}

impl Publisher {
    /// Puts `event` into the intake channel. `false` when the dispatch loop
    /// is gone.
    pub fn publish(&self, event: &str) -> (queued: bool) {
        send_text(&self.tx, event)
    }

    /// Another producer on the same intake channel.
    pub fn another(&self) -> (copy: Publisher) {
        Publisher { tx: clone_sender(&self.tx) }
    }
}

impl Intake {
    /// Waits for the next event. `None` once every producer is gone and the
    /// channel is empty.
    pub fn next_event(&self) -> (event: Option<String>) {
        receive_text(&self.rx)
    }

    /// The next event if one is queued, without waiting.
    pub fn poll_event(&self) -> (event: Option<String>) {
        poll_text(&self.rx)
    }
}

} // verus!
