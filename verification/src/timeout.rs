//! The unified timer future and its two backends.
//!
//! A [`Timeout`] owns exactly one backend value: either a native-runtime
//! sleep primitive bound to a deadline, or a browser-hosted handle bound to
//! a whole-millisecond delay. The expiry it was configured with is fixed at
//! construction and recorded in the type's view; the backend is handed the
//! normalized delay once, at construction, and then drives the wakeup on
//! its own.

use vstd::prelude::*;

use crate::time::Moment;
use crate::time::NANOS_PER_MILLI;
use crate::time::Span;

verus! {

#[verifier::external_type_specification]
#[verifier::external_body]
pub struct ExSleep(tokio::time::Sleep);

#[verifier::external_type_specification]
#[verifier::external_body]
pub struct ExTimeoutFuture(gloo_timers::future::TimeoutFuture);

/// Relies on `tokio::time::sleep`: the returned future resolves no earlier
/// than `delay` after the call, measured on the runtime's monotonic clock,
/// and dropping it releases its registration with the runtime's timer
/// driver. The call panics outside the context of a runtime with its time
/// driver enabled, so it must only be reached from such a context.
#[verifier::external_body]
fn native_sleep(delay: &Span) -> (r: tokio::time::Sleep)
    requires
        delay.wf(),
{
    tokio::time::sleep(std::time::Duration::new(delay.secs(), delay.subsec_nanos()))
}

/// Relies on `gloo_timers::future::TimeoutFuture::new`: the returned
/// future resolves once the host has waited the given number of whole
/// milliseconds, and dropping it clears the host timer. The host timer
/// facility exists only in a browser-hosted build; elsewhere the underlying
/// binding panics, so the call must only be reached on such a host.
#[verifier::external_body]
fn hosted_timeout(millis: u32) -> (r: gloo_timers::future::TimeoutFuture) {
    gloo_timers::future::TimeoutFuture::new(millis)
}

/// Relies on `std::time::SystemTime::now`: the reading is handed back as
/// the span elapsed since the clock's origin, decomposed into whole
/// seconds and a sub-second nanosecond remainder below one second; a
/// reading before the origin comes back as the origin itself. Nothing is
/// promised about the value: the clock is free to report any moment.
#[verifier::external_body]
fn clock_now() -> (r: Moment)
    ensures
        r.wf(),
{
    let elapsed = std::time::SystemTime::now().duration_since(
        std::time::SystemTime::UNIX_EPOCH,
    ).unwrap_or(std::time::Duration::ZERO);
    Moment::from_span(Span::from_parts(elapsed.as_secs(), elapsed.subsec_nanos()))
}

/// The expiry a [`Timeout`] is bound to: ready no earlier than a delay
/// after its construction, or no earlier than an absolute moment.
pub enum Expiry {
    After(int),
    At(int),
}

/// The one timer primitive a [`Timeout`] owns and delegates to.
pub enum Backend {
    Native(tokio::time::Sleep),
    Hosted(gloo_timers::future::TimeoutFuture),
}

/// A one-shot timer future: pending until its configured expiry is
/// reached, then ready once.
///
/// The expiry is fixed at construction and never changes; the view of a
/// `Timeout` is that expiry. Polling past completion is the caller's
/// responsibility to avoid, as with the underlying primitives.
pub struct Timeout {
    backend: Backend,
    expiry: Ghost<Expiry>,
}

impl View for Timeout {
    type V = Expiry;

    /// A timeout's mathematical value is the expiry it was configured
    /// with, in nanoseconds.
    closed spec fn view(&self) -> Expiry {
        self.expiry@
    }
}

/// The delay handed to the hosted backend: whole milliseconds, rounded
/// toward zero and saturated at the largest count the host accepts.
pub open spec fn hosted_millis_of(nanos: int) -> int {
    if nanos / (NANOS_PER_MILLI as int) > u32::MAX {
        u32::MAX as int
    } else {
        nanos / (NANOS_PER_MILLI as int)
    }
}

/// Normalizes a delay for the hosted backend: whole milliseconds, rounded
/// toward zero, saturated at the largest count the host accepts.
pub fn hosted_millis(delay: &Span) -> (r: u32)
    requires
        delay.wf(),
    ensures
        r == hosted_millis_of(delay@),
{
    let ms: u128 = delay.as_millis();
    if ms > u32::MAX as u128 {
        u32::MAX
    } else {
        ms as u32
    }
}

impl Timeout {
    /// Whether this timeout delegates to the native-runtime backend.
    pub closed spec fn is_native(&self) -> bool {
        self.backend is Native
    }

    /// A timer that becomes ready no earlier than `timeout` after its
    /// construction, driven by the native-runtime backend. A zero
    /// `timeout` is legal and yields an immediately ready timer.
    ///
    /// Must be called in the context of a native runtime with its time
    /// driver enabled.
    pub fn new(timeout: Span) -> (t: Timeout)
        requires
            timeout.wf(),
        ensures
            t@ == Expiry::After(timeout@),
            t.is_native(),
    {
        Timeout {
            backend: Backend::Native(native_sleep(&timeout)),
            expiry: Ghost(Expiry::After(timeout@)),
        }
    }

    /// A timer that becomes ready no earlier than the absolute moment
    /// `deadline`, driven by the native-runtime backend. The delay is
    /// resolved once, here: the time from the clock's present reading to
    /// `deadline`, clamped to zero when `deadline` is already past, so a
    /// past deadline yields an immediately ready timer.
    ///
    /// Must be called in the context of a native runtime with its time
    /// driver enabled.
    pub fn until(deadline: Moment) -> (t: Timeout)
        requires
            deadline.wf(),
        ensures
            t@ == Expiry::At(deadline@),
            t.is_native(),
    {
        let now = clock_now();
        let delay = deadline.saturating_span_since(&now);
        Timeout {
            backend: Backend::Native(native_sleep(&delay)),
            expiry: Ghost(Expiry::At(deadline@)),
        }
    }

    /// A timer that becomes ready no earlier than `timeout` after its
    /// construction, driven by the browser-hosted backend. The delay is
    /// resolved once, here, to [`hosted_millis`] of `timeout`: the host
    /// only counts whole milliseconds.
    ///
    /// Must be called on a browser-hosted build.
    pub fn new_hosted(timeout: Span) -> (t: Timeout)
        requires
            timeout.wf(),
        ensures
            t@ == Expiry::After(timeout@),
            !t.is_native(),
    {
        let ms = hosted_millis(&timeout);
        Timeout {
            backend: Backend::Hosted(hosted_timeout(ms)),
            expiry: Ghost(Expiry::After(timeout@)),
        }
    }

    /// A timer that becomes ready no earlier than the absolute moment
    /// `deadline`, driven by the browser-hosted backend. The delay is
    /// resolved once, here: the time from the clock's present reading to
    /// `deadline`, clamped to zero when `deadline` is already past, then
    /// normalized by [`hosted_millis`].
    ///
    /// Must be called on a browser-hosted build.
    pub fn until_hosted(deadline: Moment) -> (t: Timeout)
        requires
            deadline.wf(),
        ensures
            t@ == Expiry::At(deadline@),
            !t.is_native(),
    {
        let now = clock_now();
        let delay = deadline.saturating_span_since(&now);
        let ms = hosted_millis(&delay);
        Timeout {
            backend: Backend::Hosted(hosted_timeout(ms)),
            expiry: Ghost(Expiry::At(deadline@)),
        }
    }

    /// Hands out the owned backend, for the unverified shell that drives
    /// the suspend/resume protocol.
    pub fn into_backend(self) -> (r: Backend)
        ensures
            (r is Native) == self.is_native(),
    {
        self.backend
    }
}

/// A timer that becomes ready no earlier than `timeout` after its
/// construction; a thin constructor over [`Timeout::new`].
pub fn sleep(timeout: Span) -> (t: Timeout)
    requires
        timeout.wf(),
    ensures
        t@ == Expiry::After(timeout@),
        t.is_native(),
{
    Timeout::new(timeout)
}

/// A timer that becomes ready no earlier than the absolute moment
/// `deadline`; a thin constructor over [`Timeout::until`].
pub fn sleep_until(deadline: Moment) -> (t: Timeout)
    requires
        deadline.wf(),
    ensures
        t@ == Expiry::At(deadline@),
        t.is_native(),
{
    Timeout::until(deadline)
}

} // verus!

