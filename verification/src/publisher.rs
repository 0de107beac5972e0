//! The periodic publisher: one outward message per tick, bounded by an
//! optional message limit, with ticks anchored to the start time so that
//! scheduling drift does not accumulate.

use vstd::prelude::*;

verus! {

/// State of the publish task. Owned by the publisher alone; nothing else
/// mutates it.
#[derive(Clone, Copy, PartialEq, Eq, Structural, Debug)]
pub struct Publisher {
    /// How many sends have been issued so far.
    pub sent: u64,
    /// Stop after this many messages; `None` runs indefinitely.
    pub limit: Option<u64>,
    /// Milliseconds between consecutive ticks.
    pub period_ms: u64,
}

/// What the publisher does next.
#[derive(Clone, Copy, PartialEq, Eq, Structural, Debug)]
pub enum PubAction {
    /// Wait for the tick with this index (counted from zero), then send.
    SendNext { tick_index: u64 },
    /// The limit is reached; the task ends on its own.
    Finished,
}

/// Whether another send is due: always without a limit, and exactly while
/// the count is below the limit otherwise.
pub open spec fn wants_to_send(p: Publisher) -> bool {
    match p.limit {
        None => true,
        Some(l) => p.sent < l,
    }
}

/// The next action, as a pure function of the state.
pub open spec fn spec_next_action(p: Publisher) -> PubAction {
    if wants_to_send(p) {
        PubAction::SendNext { tick_index: p.sent }
    } else {
        PubAction::Finished
    }
}

/// The number of sends a publisher with a limit still issues before it
/// finishes on its own, one per step.
pub open spec fn sends_remaining(p: Publisher) -> nat
    recommends
        p.limit is Some,
    decreases (match p.limit {
        Some(l) => l - p.sent,
        None => 0int,
    }),
{
    if p.limit is Some && p.sent < p.limit->0 {
        1 + sends_remaining(
            Publisher { sent: (p.sent + 1) as u64, limit: p.limit, period_ms: p.period_ms },
        )
    } else {
        0
    }
}

impl Publisher {
    /// The count never overshoots a configured limit.
    pub open spec fn wf(self) -> bool {
        match self.limit {
            None => true,
            Some(l) => self.sent <= l,
        }
    }

    /// A publisher that has sent nothing yet.
    pub fn new(limit: Option<u64>, period_ms: u64) -> (p: Self)
        ensures
            p.wf(),
            p.sent == 0,
            p.limit == limit,
            p.period_ms == period_ms,
    {
        Publisher { sent: 0, limit, period_ms }
    }

    /// Decide the next step: send on the next tick, or finish because the
    /// limit is reached.
    pub fn next_action(&self) -> (a: PubAction)
        ensures
            a == spec_next_action(*self),
    {
        let more = match self.limit {
            None => true,
            Some(l) => self.sent < l,
        };
        if more {
            PubAction::SendNext { tick_index: self.sent }
        } else {
            PubAction::Finished
        }
    }

    /// Record that one send completed.
    pub fn record_send(&mut self)
        requires
            old(self).wf(),
            wants_to_send(*old(self)),
            old(self).sent < u64::MAX,
        ensures
            final(self).wf(),
            final(self).sent == old(self).sent + 1,
            final(self).limit == old(self).limit,
            final(self).period_ms == old(self).period_ms,
    {
        self.sent = self.sent + 1;
    }
}

/// A send failure is fatal to the publisher: it is never retried.
#[derive(Clone, Copy, PartialEq, Eq, Structural, Debug)]
pub enum SendVerdict {
    /// The send succeeded; keep publishing.
    Proceed,
    /// The send failed; stop and surface the failure to the coordinator.
    FatalFailure,
}

/// Classify the result of one send call.
pub fn send_verdict<E>(res: &Result<(), E>) -> (r: SendVerdict)
    ensures
        r is FatalFailure <==> res is Err,
{
    match res {
        Ok(_) => SendVerdict::Proceed,
        Err(_) => SendVerdict::FatalFailure,
    }
}

/// When the tick with the given index is due: anchored to the start time,
/// not to the previous tick, so per-tick delays do not compound.
pub open spec fn tick_time(start_ms: int, index: int, period_ms: int) -> int {
    start_ms + index * period_ms
}

/// Compute the deadline of one tick, `None` when it does not fit in the
/// millisecond clock.
pub fn tick_deadline(start_ms: u64, index: u64, period_ms: u64) -> (r: Option<u64>)
    ensures
        r is Some <==> tick_time(start_ms as int, index as int, period_ms as int) <= u64::MAX,
        r is Some ==> r->0 == tick_time(start_ms as int, index as int, period_ms as int),
{
    match index.checked_mul(period_ms) {
        None => None,
        Some(offset) => start_ms.checked_add(offset),
    }
}

/// Law: with a limit of L, a fresh publisher issues exactly L sends before
/// finishing on its own; a publisher that has reached its limit issues zero
/// further sends.
pub proof fn lemma_publisher_sends_exactly_limit(limit: u64, period_ms: u64)
    ensures
        sends_remaining(Publisher { sent: 0, limit: Some(limit), period_ms }) == limit,
        forall|p: Publisher|
            p.limit == Some(limit) && p.sent >= limit ==> #[trigger] spec_next_action(p)
                is Finished,
{
    lemma_sends_remaining_counts(Publisher { sent: 0, limit: Some(limit), period_ms });
}

/// The remaining sends of a well-formed bounded publisher are exactly the
/// distance from its count to its limit.
pub proof fn lemma_sends_remaining_counts(p: Publisher)
    requires
        p.limit is Some,
        p.wf(),
    ensures
        sends_remaining(p) == p.limit->0 - p.sent,
    decreases p.limit->0 - p.sent,
{
    if p.sent < p.limit->0 {
        lemma_sends_remaining_counts(
            Publisher { sent: (p.sent + 1) as u64, limit: p.limit, period_ms: p.period_ms },
        );
    }
}

/// Law: each completed send brings a bounded publisher exactly one step
/// closer to finishing on its own, so a fresh publisher with limit L issues
/// its L sends one by one and then stops.
pub proof fn lemma_send_decrements_remaining(p: Publisher)
    requires
        p.wf(),
        p.limit is Some,
        wants_to_send(p),
    ensures
        sends_remaining(
            Publisher { sent: (p.sent + 1) as u64, limit: p.limit, period_ms: p.period_ms },
        ) == sends_remaining(p) - 1,
{
    lemma_sends_remaining_counts(p);
    lemma_sends_remaining_counts(
        Publisher { sent: (p.sent + 1) as u64, limit: p.limit, period_ms: p.period_ms },
    );
}

/// Law: ticks are anchored, so consecutive deadlines differ by exactly one
/// period and the tick with index N is due at start + N * period — drift
/// never compounds across iterations.
pub proof fn lemma_ticks_do_not_drift(start_ms: int, index: int, period_ms: int)
    ensures
        tick_time(start_ms, index, period_ms) == start_ms + index * period_ms,
        tick_time(start_ms, index + 1, period_ms) - tick_time(start_ms, index, period_ms)
            == period_ms,
{
    assert((index + 1) * period_ms == index * period_ms + period_ms) by (nonlinear_arith);
}

} // verus!
