//! The receiver: drains the event channel until it closes, logging each
//! received value or transport error. A receive error never stops it.

use vstd::prelude::*;

verus! {

/// What the receiver reads out of a successful event: a single boolean
/// scalar, or any other shape, which it deliberately ignores.
#[derive(Clone, Copy, PartialEq, Eq, Structural, Debug)]
pub enum EventPayload {
    /// An individual datastream value of boolean type.
    IndividualBoolean(bool),
    /// Every other event shape; explicitly a no-op.
    Other,
}

/// The receiver's reaction to one channel item.
#[derive(Clone, Copy, PartialEq, Eq, Structural, Debug)]
pub enum RxStep {
    /// Log the received boolean value and keep reading.
    LogBoolean(bool),
    /// An event of another shape: ignore it and keep reading.
    IgnoreEvent,
    /// A transport error: log it and keep reading.
    LogErrorAndContinue,
    /// The channel is closed; the task ends.
    Stop,
}

/// The receiver's reaction as a pure function of the channel item. `None`
/// stands for channel closure; `E` is the transport error type, carried by
/// the caller for logging.
pub open spec fn spec_receiver_step<E>(item: Option<Result<EventPayload, E>>) -> RxStep {
    match item {
        None => RxStep::Stop,
        Some(Err(_)) => RxStep::LogErrorAndContinue,
        Some(Ok(EventPayload::IndividualBoolean(b))) => RxStep::LogBoolean(b),
        Some(Ok(EventPayload::Other)) => RxStep::IgnoreEvent,
    }
}

/// Decide the reaction to one item from the event channel. The receiver
/// stops exactly when the channel reports closure.
pub fn receiver_step<E>(item: &Option<Result<EventPayload, E>>) -> (r: RxStep)
    ensures
        r == spec_receiver_step(*item),
        r is Stop <==> item is None,
{
    match item {
        None => RxStep::Stop,
        Some(Err(_)) => RxStep::LogErrorAndContinue,
        Some(Ok(EventPayload::IndividualBoolean(b))) => RxStep::LogBoolean(*b),
        Some(Ok(EventPayload::Other)) => RxStep::IgnoreEvent,
    }
}

/// Law: over any sequence of channel items, no delivered item — error or
/// event — makes the receiver stop; every error is logged and passed over,
/// and every boolean event is still delivered, however many errors came
/// before it. Only channel closure stops the receiver.
pub proof fn lemma_receiver_survives_errors<E>(items: Seq<Option<Result<EventPayload, E>>>)
    ensures
        forall|i: int|
            0 <= i < items.len() && items[i] is Some ==> !(#[trigger] spec_receiver_step(items[i])
                is Stop),
        forall|i: int|
            0 <= i < items.len() && (items[i] matches Some(r) && r is Err) ==> #[trigger] spec_receiver_step(
                items[i],
            ) is LogErrorAndContinue,
        forall|i: int|
            0 <= i < items.len() && (items[i] matches Some(r) && r matches Ok(p) && p
                is IndividualBoolean) ==> #[trigger] spec_receiver_step(items[i])
                == RxStep::LogBoolean(items[i]->0->Ok_0->IndividualBoolean_0),
{
}

} // verus!
