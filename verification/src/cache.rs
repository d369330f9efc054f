//! The periodically refreshed cache.
//!
//! A cache slot holds one complete snapshot. A background loop fetches a new
//! snapshot at a fixed interval and swaps it in whole; readers see the old
//! snapshot or the new one, never a mixture. What the loop does next is
//! decided here, from its phase and from what just happened; the fetching,
//! the sleeping and the logging are the caller's.

use vstd::prelude::*;
use crate::errors::ShowMeErrors;

verus! {

/// The seconds between two refresh cycles unless told otherwise.
pub const DEFAULT_INTERVAL: u64 = 30;

/// A named slot that holds the latest complete snapshot.
pub struct CacheSlot<V> {
    key: String,
    value: V,
}

impl<V> CacheSlot<V> {
    /// The slot's name.
    pub closed spec fn key(&self) -> Seq<char> {
        self.key@
    }

    /// The snapshot that readers see.
    pub closed spec fn value(&self) -> V {
        self.value
    }

    /// A slot named `key` that holds `initial`.
    pub fn new(key: String, initial: V) -> (slot: CacheSlot<V>)
        ensures
            slot.key() == key@,
            slot.value() == initial,
    {
        CacheSlot { key, value: initial }
    }

    /// The slot's name.
    pub fn name(&self) -> (key: &String)
        ensures
            key@ == self.key(),
    {
        &self.key
    }

    /// The snapshot that was published last.
    pub fn read(&self) -> (snapshot: &V)
        ensures
            *snapshot == self.value(),
    {
        &self.value
    }

    /// Replaces the snapshot by `snapshot`, whole, and hands back the one
    /// that was replaced.
    pub fn publish(&mut self, snapshot: V) -> (replaced: V)
        ensures
            final(self).value() == snapshot,
            final(self).key() == old(self).key(),
            replaced == old(self).value(),
    {
        let mut held = snapshot;
        core::mem::swap(&mut self.value, &mut held);
        held
    }
}

/// Where the refresh loop stands.
#[derive(Clone, Copy, PartialEq, Eq, Structural, Debug)]
pub enum RefreshPhase {
    /// Between two cycles.
    Sleeping,
    /// A cycle has begun and waits for a credential.
    NeedToken,
    /// A cycle has its credential and waits for the snapshot.
    Fetching,
}

/// What just happened to the refresh loop.
pub enum RefreshEvent<V> {
    /// The loop starts, or the interval has passed.
    Tick,
    /// A credential was obtained.
    Token { token: String },
    /// A complete snapshot was fetched.
    Fetched { snapshot: V },
    /// The credential or the snapshot could not be had.
    Failed { error: ShowMeErrors },
}

/// What the refresh loop is to do next.
#[derive(Debug)]
pub enum RefreshAction {
    /// Obtain a credential and report it.
    AcquireToken,
    /// Fetch a complete snapshot with `token` and report it.
    Fetch { token: String },
    /// Wait `seconds`, then tick. `failure` is what cut the cycle short, for
    /// the log.
    Sleep { seconds: u64, failure: Option<ShowMeErrors> },
}

/// Whether the event makes the loop publish: only a snapshot that arrives
/// while one is awaited.
pub open spec fn publishes<V>(phase: RefreshPhase, e: RefreshEvent<V>) -> bool {
    phase is Fetching && e is Fetched
}

/// The phase after an event. An event that the phase does not await ends the
/// cycle.
pub open spec fn next_phase<V>(phase: RefreshPhase, e: RefreshEvent<V>) -> RefreshPhase {
    match (phase, e) {
        (RefreshPhase::Sleeping, RefreshEvent::Tick) => RefreshPhase::NeedToken,
        (RefreshPhase::NeedToken, RefreshEvent::Token { token }) => RefreshPhase::Fetching,
        _ => RefreshPhase::Sleeping,
    }
}

/// What the loop is to do after an event.
pub open spec fn next_action<V>(phase: RefreshPhase, interval: u64, e: RefreshEvent<V>) -> RefreshAction {
    match (phase, e) {
        (RefreshPhase::Sleeping, RefreshEvent::Tick) => RefreshAction::AcquireToken,
        (RefreshPhase::NeedToken, RefreshEvent::Token { token }) => RefreshAction::Fetch { token },
        (_, RefreshEvent::Failed { error }) => RefreshAction::Sleep {
            seconds: interval,
            failure: Some(error),
        },
        _ => RefreshAction::Sleep { seconds: interval, failure: None },
    }
}

/// The snapshot in the slot after an event.
pub open spec fn next_value<V>(phase: RefreshPhase, value: V, e: RefreshEvent<V>) -> V {
    match (phase, e) {
        (RefreshPhase::Fetching, RefreshEvent::Fetched { snapshot }) => snapshot,
        _ => value,
    }
}

/// The phase after a sequence of events.
pub open spec fn phase_after<V>(phase: RefreshPhase, events: Seq<RefreshEvent<V>>) -> RefreshPhase
    decreases events.len(),
{
    if events.len() == 0 {
        phase
    } else {
        next_phase(phase_after(phase, events.drop_last()), events.last())
    }
}

/// The snapshot in the slot after a sequence of events.
pub open spec fn value_after<V>(phase: RefreshPhase, value: V, events: Seq<RefreshEvent<V>>) -> V
    decreases events.len(),
{
    if events.len() == 0 {
        value
    } else {
        next_value(
            phase_after(phase, events.drop_last()),
            value_after(phase, value, events.drop_last()),
            events.last(),
        )
    }
}

/// The refresh loop's own state: its phase and its interval.
pub struct Refresher {
    phase: RefreshPhase,
    interval: u64,
}

impl Refresher {
    /// Where the loop stands.
    pub closed spec fn phase(&self) -> RefreshPhase {
        self.phase
    }

    /// The seconds between two cycles.
    pub closed spec fn interval(&self) -> u64 {
        self.interval
    }

    /// A loop that has not started, with `interval` seconds between cycles.
    pub fn new(interval: u64) -> (refresher: Refresher)
        ensures
            refresher.phase() == RefreshPhase::Sleeping,
            refresher.interval() == interval,
    {
        Refresher { phase: RefreshPhase::Sleeping, interval }
    }

    /// Where the loop stands.
    pub fn current_phase(&self) -> (phase: RefreshPhase)
        ensures
            phase == self.phase(),
    {
        self.phase
    }

    /// Takes what just happened, publishes the snapshot if one arrived while
    /// it was awaited, and says what to do next.
    ///
    /// A failure never touches the slot: it ends the cycle, and the next one
    /// starts after the same interval.
    pub fn step<V>(&mut self, slot: &mut CacheSlot<V>, event: RefreshEvent<V>) -> (action:
        RefreshAction)
        ensures
            final(self).phase() == next_phase(old(self).phase(), event),
            final(self).interval() == old(self).interval(),
            final(slot).value() == next_value(old(self).phase(), old(slot).value(), event),
            final(slot).key() == old(slot).key(),
            action == next_action(old(self).phase(), old(self).interval(), event),
    {
        let phase = self.phase;
        match event {
            RefreshEvent::Tick => {
                if phase == RefreshPhase::Sleeping {
                    self.phase = RefreshPhase::NeedToken;
                    RefreshAction::AcquireToken
                } else {
                    self.phase = RefreshPhase::Sleeping;
                    RefreshAction::Sleep { seconds: self.interval, failure: None }
                }
            },
            RefreshEvent::Token { token } => {
                if phase == RefreshPhase::NeedToken {
                    self.phase = RefreshPhase::Fetching;
                    RefreshAction::Fetch { token }
                } else {
                    self.phase = RefreshPhase::Sleeping;
                    RefreshAction::Sleep { seconds: self.interval, failure: None }
                }
            },
            RefreshEvent::Fetched { snapshot } => {
                if phase == RefreshPhase::Fetching {
                    let _ = slot.publish(snapshot);
                }
                self.phase = RefreshPhase::Sleeping;
                RefreshAction::Sleep { seconds: self.interval, failure: None }
            },
            RefreshEvent::Failed { error } => {
                self.phase = RefreshPhase::Sleeping;
                RefreshAction::Sleep { seconds: self.interval, failure: Some(error) }
            },
        }
    }
}

// ---------------------------------------------------------------------------
// Laws of the cache
// ---------------------------------------------------------------------------

/// A reader sees the snapshot of the last refresh that completed: if a
/// snapshot was published at event `j` and none after it, the slot holds that
/// snapshot, whatever else has happened since and whatever cycle is under
/// way.
pub proof fn lemma_slot_holds_last_completed_refresh<V>(
    phase: RefreshPhase,
    value: V,
    events: Seq<RefreshEvent<V>>,
    j: int,
)
    requires
        0 <= j < events.len(),
        publishes(phase_after(phase, events.take(j)), events[j]),
        forall|k: int|
            j < k < events.len() ==> !publishes(
                phase_after(phase, #[trigger] events.take(k)),
                events[k],
            ),
    ensures
        value_after(phase, value, events) == events[j]->Fetched_snapshot,
    decreases events.len(),
{
    let init = events.drop_last();
    assert(init =~= events.take(events.len() - 1));
    if j == events.len() - 1 {
    } else {
        assert(!publishes(phase_after(phase, events.take(events.len() - 1)), events[events.len() - 1]));
        assert(init.take(j) =~= events.take(j));
        assert forall|k: int| j < k < init.len() implies !publishes(
            phase_after(phase, #[trigger] init.take(k)),
            init[k],
        ) by {
            assert(init.take(k) =~= events.take(k));
        }
        lemma_slot_holds_last_completed_refresh(phase, value, init, j);
    }
}

/// Failures are invisible to readers: as long as no snapshot is published,
/// the slot holds what it held.
pub proof fn lemma_slot_survives_without_publish<V>(
    phase: RefreshPhase,
    value: V,
    events: Seq<RefreshEvent<V>>,
)
    requires
        forall|k: int|
            0 <= k < events.len() ==> !publishes(
                phase_after(phase, #[trigger] events.take(k)),
                events[k],
            ),
    ensures
        value_after(phase, value, events) == value,
    decreases events.len(),
{
    if events.len() > 0 {
        let init = events.drop_last();
        assert(init =~= events.take(events.len() - 1));
        assert(!publishes(phase_after(phase, events.take(events.len() - 1)), events[events.len() - 1]));
        assert forall|k: int| 0 <= k < init.len() implies !publishes(
            phase_after(phase, #[trigger] init.take(k)),
            init[k],
        ) by {
            assert(init.take(k) =~= events.take(k));
        }
        lemma_slot_survives_without_publish(phase, value, init);
    }
}

/// A failure ends the cycle without a publish and has the loop sleep for its
/// interval; the tick after that starts the next cycle.
pub proof fn lemma_failure_retries_after_interval<V>(
    phase: RefreshPhase,
    interval: u64,
    value: V,
    error: ShowMeErrors,
)
    ensures
        next_value(phase, value, RefreshEvent::<V>::Failed { error }) == value,
        next_action(phase, interval, RefreshEvent::<V>::Failed { error }) == (RefreshAction::Sleep {
            seconds: interval,
            failure: Some(error),
        }),
        next_action(
            next_phase(phase, RefreshEvent::<V>::Failed { error }),
            interval,
            RefreshEvent::<V>::Tick,
        ) == RefreshAction::AcquireToken,
{
}

} // verus!
