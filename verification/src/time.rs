//! Plain-value time quantities: non-negative spans and clock moments.
//!
//! A [`Span`] is a length of time held as whole seconds plus a sub-second
//! nanosecond remainder; a [`Moment`] is a point in time held as the span
//! elapsed since the system clock's origin. All arithmetic on them is
//! verified against a mathematical view in whole nanoseconds.

use vstd::prelude::*;

verus! {

/// Nanoseconds in one second.
pub const NANOS_PER_SEC: u32 = 1_000_000_000;

/// Nanoseconds in one millisecond.
pub const NANOS_PER_MILLI: u32 = 1_000_000;

/// Milliseconds in one second.
pub const MILLIS_PER_SEC: u32 = 1_000;

/// A non-negative length of time: whole seconds plus a nanosecond
/// remainder strictly below one second.
pub struct Span {
    secs: u64,
    nanos: u32,
}

impl View for Span {
    type V = int;

    /// A span's mathematical value is its total length in nanoseconds.
    closed spec fn view(&self) -> int {
        self.secs * (NANOS_PER_SEC as int) + self.nanos
    }
}

/// The largest value a span can hold, in nanoseconds.
pub open spec fn span_max() -> int {
    u64::MAX * (NANOS_PER_SEC as int) + (NANOS_PER_SEC - 1)
}

impl Span {
    /// The nanosecond remainder stays below one second.
    pub closed spec fn wf(&self) -> bool {
        self.nanos < NANOS_PER_SEC
    }

    /// The zero-length span.
    pub fn zero() -> (r: Span)
        ensures
            r.wf(),
            r@ == 0,
    {
        Span { secs: 0, nanos: 0 }
    }

    /// Builds a span from whole seconds and a nanosecond remainder.
    pub fn from_parts(secs: u64, nanos: u32) -> (r: Span)
        requires
            nanos < NANOS_PER_SEC,
        ensures
            r.wf(),
            r@ == secs * (NANOS_PER_SEC as int) + nanos,
    {
        Span { secs, nanos }
    }

    /// Builds a span of whole seconds.
    pub fn from_secs(secs: u64) -> (r: Span)
        ensures
            r.wf(),
            r@ == secs * (NANOS_PER_SEC as int),
    {
        Span { secs, nanos: 0 }
    }

    /// Builds a span of whole milliseconds.
    pub fn from_millis(millis: u64) -> (r: Span)
        ensures
            r.wf(),
            r@ == millis * (NANOS_PER_MILLI as int),
    {
        let secs: u64 = millis / (MILLIS_PER_SEC as u64);
        let rem: u64 = millis % (MILLIS_PER_SEC as u64);
        let nanos: u32 = (rem as u32) * NANOS_PER_MILLI;
        proof {
            let m = millis as int;
            assert((m / 1000) * 1_000_000_000 + (m % 1000) * 1_000_000 == m * 1_000_000)
                by (nonlinear_arith)
                requires
                    0 <= m,
            ;
        }
        Span { secs, nanos }
    }

    /// Builds a span of whole nanoseconds.
    pub fn from_nanos(nanos: u64) -> (r: Span)
        ensures
            r.wf(),
            r@ == nanos,
    {
        let secs: u64 = nanos / (NANOS_PER_SEC as u64);
        let rem: u32 = (nanos % (NANOS_PER_SEC as u64)) as u32;
        proof {
            let n = nanos as int;
            assert((n / 1_000_000_000) * 1_000_000_000 + n % 1_000_000_000 == n)
                by (nonlinear_arith)
                requires
                    0 <= n,
            ;
        }
        Span { secs, nanos: rem }
    }

    /// The whole-second part of the span.
    pub fn secs(&self) -> (r: u64)
        requires
            self.wf(),
        ensures
            r == self@ / (NANOS_PER_SEC as int),
    {
        proof {
            lemma_parts_from_nanos(self.secs, self.nanos);
        }
        self.secs
    }

    /// The sub-second part of the span, in nanoseconds.
    pub fn subsec_nanos(&self) -> (r: u32)
        requires
            self.wf(),
        ensures
            r == self@ % (NANOS_PER_SEC as int),
    {
        proof {
            lemma_parts_from_nanos(self.secs, self.nanos);
        }
        self.nanos
    }

    /// The span's length in whole milliseconds, rounded toward zero.
    pub fn as_millis(&self) -> (r: u128)
        requires
            self.wf(),
        ensures
            r == self@ / (NANOS_PER_MILLI as int),
    {
        let whole: u128 = (self.secs as u128) * (MILLIS_PER_SEC as u128);
        let sub: u128 = (self.nanos / NANOS_PER_MILLI) as u128;
        proof {
            let s = self.secs as int;
            let n = self.nanos as int;
            assert(s * 1000 + n / 1_000_000 == (s * 1_000_000_000 + n) / 1_000_000)
                by (nonlinear_arith)
                requires
                    0 <= s,
                    0 <= n < 1_000_000_000,
            ;
        }
        whole + sub
    }

    /// Whether this span is no longer than `other`.
    pub fn le(&self, other: &Span) -> (r: bool)
        requires
            self.wf(),
            other.wf(),
        ensures
            r == (self@ <= other@),
    {
        proof {
            lemma_lex_order(self.secs, self.nanos, other.secs, other.nanos);
        }
        self.secs < other.secs || (self.secs == other.secs && self.nanos <= other.nanos)
    }

    /// The difference `self - other`, clamped to zero when `other` is the
    /// longer span.
    pub fn saturating_sub(&self, other: &Span) -> (r: Span)
        requires
            self.wf(),
            other.wf(),
        ensures
            r.wf(),
            r@ == if self@ >= other@ {
                self@ - other@
            } else {
                0
            },
    {
        proof {
            lemma_lex_order(self.secs, self.nanos, other.secs, other.nanos);
        }
        if self.secs > other.secs || (self.secs == other.secs && self.nanos >= other.nanos) {
            if self.nanos >= other.nanos {
                Span { secs: self.secs - other.secs, nanos: self.nanos - other.nanos }
            } else {
                Span {
                    secs: self.secs - other.secs - 1,
                    nanos: self.nanos + (NANOS_PER_SEC - other.nanos),
                }
            }
        } else {
            Span { secs: 0, nanos: 0 }
        }
    }

    /// The sum `self + other`, or `None` when it exceeds what a span can
    /// hold.
    pub fn checked_add(&self, other: &Span) -> (r: Option<Span>)
        requires
            self.wf(),
            other.wf(),
        ensures
            match r {
                Some(s) => s.wf() && s@ == self@ + other@,
                None => self@ + other@ > span_max(),
            },
    {
        let mut nanos: u32 = self.nanos + other.nanos;
        let mut carry: u64 = 0;
        if nanos >= NANOS_PER_SEC {
            nanos = nanos - NANOS_PER_SEC;
            carry = 1;
        }
        match self.secs.checked_add(other.secs) {
            Some(s) => match s.checked_add(carry) {
                Some(total) => Some(Span { secs: total, nanos }),
                None => None,
            },
            None => None,
        }
    }
}

/// A point in time, held as the span elapsed since the system clock's
/// origin.
pub struct Moment {
    since_origin: Span,
}

impl View for Moment {
    type V = int;

    /// A moment's mathematical value is its distance from the clock's
    /// origin, in nanoseconds.
    closed spec fn view(&self) -> int {
        self.since_origin@
    }
}

impl Moment {
    /// The nanosecond remainder of the underlying span stays below one
    /// second.
    pub closed spec fn wf(&self) -> bool {
        self.since_origin.wf()
    }

    /// The moment lying `span` after the clock's origin.
    pub fn from_span(span: Span) -> (r: Moment)
        requires
            span.wf(),
        ensures
            r.wf(),
            r@ == span@,
    {
        Moment { since_origin: span }
    }

    /// The moment's distance from the clock's origin.
    pub fn span_from_origin(&self) -> (r: Span)
        requires
            self.wf(),
        ensures
            r.wf(),
            r@ == self@,
    {
        Span { secs: self.since_origin.secs, nanos: self.since_origin.nanos }
    }

    /// Whether this moment is no later than `other`.
    pub fn le(&self, other: &Moment) -> (r: bool)
        requires
            self.wf(),
            other.wf(),
        ensures
            r == (self@ <= other@),
    {
        self.since_origin.le(&other.since_origin)
    }

    /// The time from `earlier` to `self`, clamped to zero when `earlier`
    /// is the later moment.
    pub fn saturating_span_since(&self, earlier: &Moment) -> (r: Span)
        requires
            self.wf(),
            earlier.wf(),
        ensures
            r.wf(),
            r@ == if self@ >= earlier@ {
                self@ - earlier@
            } else {
                0
            },
    {
        self.since_origin.saturating_sub(&earlier.since_origin)
    }

    /// The moment lying `span` after `self`, or `None` when it exceeds
    /// what a moment can hold.
    pub fn checked_add_span(&self, span: &Span) -> (r: Option<Moment>)
        requires
            self.wf(),
            span.wf(),
        ensures
            match r {
                Some(m) => m.wf() && m@ == self@ + span@,
                None => self@ + span@ > span_max(),
            },
    {
        match self.since_origin.checked_add(span) {
            Some(s) => Some(Moment { since_origin: s }),
            None => None,
        }
    }
}

/// Seconds-and-remainder decomposition agrees with division by one second:
/// from `s * NANOS_PER_SEC + n` with `n < NANOS_PER_SEC`, division recovers
/// `s` and the remainder recovers `n`.
proof fn lemma_parts_from_nanos(s: u64, n: u32)
    requires
        n < NANOS_PER_SEC,
    ensures
        (s * (NANOS_PER_SEC as int) + n) / (NANOS_PER_SEC as int) == s,
        (s * (NANOS_PER_SEC as int) + n) % (NANOS_PER_SEC as int) == n,
{
    let b = NANOS_PER_SEC as int;
    assert((s * b + n) / b == s && (s * b + n) % b == n) by (nonlinear_arith)
        requires
            0 <= n < b,
            0 <= s,
            b == 1_000_000_000,
    ;
}

/// Comparing seconds first and the nanosecond remainder second orders
/// spans the same way their nanosecond values are ordered.
proof fn lemma_lex_order(s1: u64, n1: u32, s2: u64, n2: u32)
    requires
        n1 < NANOS_PER_SEC,
        n2 < NANOS_PER_SEC,
    ensures
        (s1 * (NANOS_PER_SEC as int) + n1 <= s2 * (NANOS_PER_SEC as int) + n2) == (s1 < s2 || (s1
            == s2 && n1 <= n2)),
{
    let b = NANOS_PER_SEC as int;
    assert((s1 * b + n1 <= s2 * b + n2) == (s1 < s2 || (s1 == s2 && n1 <= n2)))
        by (nonlinear_arith)
        requires
            0 <= n1 < b,
            0 <= n2 < b,
            0 <= s1,
            0 <= s2,
            b == 1_000_000_000,
    ;
}

} // verus!
