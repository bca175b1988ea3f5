//! Spans of time, to the nanosecond.

use vstd::prelude::*;

verus! {

/// Nanoseconds in a second.
pub const NANOS_PER_SEC: u32 = 1_000_000_000;

/// A span of time: whole seconds and the nanoseconds beyond them.
#[derive(Clone, Copy, Debug, PartialEq, Eq, Structural)]
pub struct Span {
    pub secs: u64,
    pub nanos: u32,
}

impl Span {
    /// The nanoseconds are less than a second.
    pub open spec fn wf(self) -> bool {
        self.nanos < NANOS_PER_SEC
    }

    /// The length in nanoseconds.
    pub open spec fn total(self) -> nat {
        (self.secs * NANOS_PER_SEC + self.nanos) as nat
    }

    /// The length in nanoseconds.
    pub fn as_nanos(&self) -> (n: u128)
        ensures
            n == self.total(),
    {
        self.secs as u128 * 1_000_000_000 + self.nanos as u128
    }

    /// The span of `n` nanoseconds.
    pub fn from_nanos(n: u128) -> (s: Span)
        requires
            n / 1_000_000_000 <= u64::MAX,
        ensures
            s.wf(),
            s.total() == n,
    {
        Span { secs: (n / 1_000_000_000) as u64, nanos: (n % 1_000_000_000) as u32 }
    }
}

/// How `std` shows a span of time for debugging.
pub uninterp spec fn shown(secs: u64, nanos: u32) -> Seq<char>;

/// Calls `std::time::Duration::new` and writes the value with `{:?}`. The text is
/// named by `shown`, not spelled out.
#[verifier::external_body]
pub(crate) fn show(secs: u64, nanos: u32) -> (s: String)
    requires
        nanos < NANOS_PER_SEC,
    ensures
        s@ == shown(secs, nanos),
{
    format!("{:?}", std::time::Duration::new(secs, nanos))
}

/// Spans are as long as their seconds and nanoseconds say: the one with more seconds is
/// longer, and with as many seconds the one with more nanoseconds.
pub proof fn lemma_longer_spans_count_more(a: Span, b: Span)
    requires
        a.wf(),
        b.wf(),
    ensures
        a.total() < b.total() <==> a.secs < b.secs || (a.secs == b.secs && a.nanos < b.nanos),
        a.total() == b.total() ==> a == b,
        a.total() == 1_000_000_000 * a.secs + a.nanos,
{
}

} // verus!
