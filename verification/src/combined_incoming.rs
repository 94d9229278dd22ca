//! The dual-stack listener merge: two independently bound accept
//! streams — one per IP address family — presented as one sequence of
//! incoming connections.
//!
//! The rule is a two-step sequence on every cycle, "first ready wins,
//! the first listener checked first": poll the first listener, and a
//! ready answer — a connection, or a terminal event — is yielded at
//! once, with the second listener left unpolled, so an arrival waiting
//! there is not accepted only to be dropped; only when the first
//! listener is pending is the second polled, and its answer yielded or,
//! when it too has nothing, the cycle suspends, registered for wake-up
//! by both. This is not round-robin: fairness in practice is governed
//! by how the operating system delivers backlogs, not by the polling
//! order. A terminal event on either stream — its end, or a fatal
//! error carried as an item — ends the combined stream: a service
//! contracted to serve both families treats the loss of one as fatal.
//!
//! The caller drives one `first_poll_step` per cycle and polls its
//! second listener only when handed [`FirstPollStep::PollSecond`].

use vstd::prelude::*;

verus! {

/// One poll of an accept stream, as its consumer sees it: an item is
/// ready — a connection, or the stream's terminal `None` — or nothing
/// is ready yet.
#[derive(Clone, Copy, Debug, PartialEq, Eq)]
pub enum MergePoll<T> {
    Ready(Option<T>),
    Pending,
}

/// The decision after polling the first listener: yield its answer now
/// — the second listener is not to be polled this cycle — or, nothing
/// being ready, go on and poll the second.
#[derive(Clone, Copy, Debug, PartialEq, Eq)]
pub enum FirstPollStep<T> {
    Yield(Option<T>),
    PollSecond,
}

/// The decision after polling the second listener: yield its answer,
/// or suspend the cycle, registered for wake-up by both listeners.
#[derive(Clone, Copy, Debug, PartialEq, Eq)]
pub enum SecondPollStep<T> {
    Yield(Option<T>),
    Suspend,
}

/// The first step of a cycle: a ready answer from the first listener
/// is yielded with no further event required; only a pending first
/// listener sends the cycle on to the second.
pub open spec fn spec_first_poll_step<T>(a: MergePoll<T>) -> FirstPollStep<T> {
    match a {
        MergePoll::Ready(item) => FirstPollStep::Yield(item),
        MergePoll::Pending => FirstPollStep::PollSecond,
    }
}

/// The second step of a cycle, taken only on [`FirstPollStep::PollSecond`]:
/// a ready answer from the second listener is yielded; otherwise the
/// cycle suspends.
pub open spec fn spec_second_poll_step<T>(b: MergePoll<T>) -> SecondPollStep<T> {
    match b {
        MergePoll::Ready(item) => SecondPollStep::Yield(item),
        MergePoll::Pending => SecondPollStep::Suspend,
    }
}

/// Decides a cycle's first step from the first listener's poll answer.
pub fn first_poll_step<T>(a: MergePoll<T>) -> (r: FirstPollStep<T>)
    ensures
        r == spec_first_poll_step(a),
{
    match a {
        MergePoll::Ready(item) => FirstPollStep::Yield(item),
        MergePoll::Pending => FirstPollStep::PollSecond,
    }
}

/// Decides a cycle's second step from the second listener's poll
/// answer. To be consulted only when the first step said
/// [`FirstPollStep::PollSecond`].
pub fn second_poll_step<T>(b: MergePoll<T>) -> (r: SecondPollStep<T>)
    ensures
        r == spec_second_poll_step(b),
{
    match b {
        MergePoll::Ready(item) => SecondPollStep::Yield(item),
        MergePoll::Pending => SecondPollStep::Suspend,
    }
}

/// A ready first listener short-circuits the cycle: its item is
/// yielded and the step never asks for the second listener's answer,
/// so a connection waiting there is neither accepted nor dropped — its
/// readiness survives into the next cycle untouched.
pub proof fn lemma_first_ready_yields_without_second_poll<T>(item: Option<T>)
    ensures
        spec_first_poll_step(MergePoll::Ready(item)) == FirstPollStep::<T>::Yield(item),
        spec_first_poll_step(MergePoll::Ready(item)) != FirstPollStep::<T>::PollSecond,
{
}

/// Connections arriving concurrently on the two listeners are both
/// delivered, neither starving the other: the cycle on which both are
/// ready yields the first listener's connection and leaves the second
/// unpolled; the next cycle — the first arrival consumed, the second
/// still ready — reaches the second step and yields the other.
pub proof fn lemma_concurrent_arrivals_delivered<T>(x: T, y: T)
    ensures
        spec_first_poll_step(MergePoll::Ready(Some(x))) == FirstPollStep::Yield(Some(x)),
        spec_first_poll_step(MergePoll::<T>::Pending) == FirstPollStep::<T>::PollSecond,
        spec_second_poll_step(MergePoll::Ready(Some(y))) == SecondPollStep::Yield(Some(y)),
{
}

/// The combined stream ends as soon as either stream ends, and
/// suspends only when neither stream has anything ready.
pub proof fn lemma_terminal_and_pending<T>()
    ensures
        spec_first_poll_step(MergePoll::Ready(Option::<T>::None)) == FirstPollStep::<T>::Yield(
            None,
        ),
        spec_second_poll_step(MergePoll::Ready(Option::<T>::None)) == SecondPollStep::<T>::Yield(
            None,
        ),
        spec_second_poll_step(MergePoll::<T>::Pending) == SecondPollStep::<T>::Suspend,
{
}

} // verus!
