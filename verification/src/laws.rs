//! Laws of the expiry model.
//!
//! A [`Timeout`](crate::timeout::Timeout) is bound to an [`Expiry`]; these
//! definitions say when a timer with a given expiry is due, and the proof
//! functions state the guarantees the timer abstraction gives over that
//! model: readiness never goes away once reached, an absolute deadline and
//! the equivalent relative delay are due at the same moment, and a past or
//! zero expiry is due from the start.

use vstd::prelude::*;

use crate::timeout::Expiry;

verus! {

/// The moment a timer with expiry `e`, constructed at moment `start`, is
/// due: `start` plus the delay for a relative expiry, the moment itself
/// for an absolute one. All moments are in nanoseconds.
pub open spec fn deadline_of(e: Expiry, start: int) -> int {
    match e {
        Expiry::After(delay) => start + delay,
        Expiry::At(moment) => moment,
    }
}

/// Whether a timer with expiry `e`, constructed at moment `start`, is due
/// at moment `now`.
pub open spec fn ready_at(e: Expiry, start: int, now: int) -> bool {
    now >= deadline_of(e, start)
}

/// Readiness is monotonic: once a timer is due, it stays due at every
/// later moment; a poll taken at or after the deadline finds it ready,
/// however many polls came before.
pub proof fn lemma_ready_monotonic(e: Expiry, start: int, t1: int, t2: int)
    requires
        ready_at(e, start, t1),
        t1 <= t2,
    ensures
        ready_at(e, start, t2),
{
}

/// Before its deadline a timer is never due: a poll taken strictly before
/// the deadline finds it pending.
pub proof fn lemma_pending_before_deadline(e: Expiry, start: int, t: int)
    requires
        t < deadline_of(e, start),
    ensures
        !ready_at(e, start, t),
{
}

/// Deadline equivalence: a timer bound to the absolute moment `t` and one
/// bound to the relative delay `t - start`, both constructed at `start`,
/// are due at the same moment.
pub proof fn lemma_deadline_equivalence(t: int, start: int)
    requires
        start <= t,
    ensures
        deadline_of(Expiry::At(t), start) == deadline_of(Expiry::After(t - start), start),
{
}

/// Past-deadline immediacy: a timer bound to an absolute moment at or
/// before its construction moment is due from that construction moment
/// on.
pub proof fn lemma_past_deadline_immediate(t: int, start: int)
    requires
        t <= start,
    ensures
        ready_at(Expiry::At(t), start, start),
{
}

/// Zero-delay immediacy: a timer bound to a zero relative delay is due
/// from its construction moment on.
pub proof fn lemma_zero_delay_immediate(start: int)
    ensures
        ready_at(Expiry::After(0), start, start),
{
}

} // verus!
