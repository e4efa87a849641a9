//! Lengths of time, exact to the nanosecond.

use vstd::prelude::*;
use std::time::Duration;

verus! {

/// Nanoseconds in one second.
pub const NANOS_PER_SEC: u32 = 1_000_000_000;

/// A length of time: whole seconds and the nanoseconds beyond them.
#[derive(Clone, Copy, Debug, PartialEq, Eq, Structural)]
pub struct Span {
    pub secs: u64,
    pub nanos: u32,
}

impl Span {
    /// The nanoseconds stay below one second.
    pub open spec fn wf(self) -> bool {
        self.nanos < NANOS_PER_SEC
    }

    /// The whole length in nanoseconds.
    pub open spec fn total_nanos(self) -> nat {
        (self.secs * NANOS_PER_SEC + self.nanos) as nat
    }

    /// The longest length a well-formed span can hold, in nanoseconds.
    pub open spec fn max_total() -> nat {
        (u64::MAX * NANOS_PER_SEC + NANOS_PER_SEC - 1) as nat
    }

    /// The span that is `total` nanoseconds long.
    pub open spec fn from_total(total: nat) -> Span {
        Span {
            secs: (total / (NANOS_PER_SEC as nat)) as u64,
            nanos: (total % (NANOS_PER_SEC as nat)) as u32,
        }
    }

    /// `secs` seconds and `nanos` nanoseconds.
    pub fn new(secs: u64, nanos: u32) -> (span: Span)
        requires
            nanos < NANOS_PER_SEC,
        ensures
            span == (Span { secs, nanos }),
            span.wf(),
    {
        Span { secs, nanos }
    }

    /// Whether the span is well formed.
    pub fn is_valid(&self) -> (valid: bool)
        ensures
            valid == self.wf(),
    {
        self.nanos < NANOS_PER_SEC
    }

    /// `secs` whole seconds.
    pub fn from_secs(secs: u64) -> (span: Span)
        ensures
            span == (Span { secs, nanos: 0 }),
            span.wf(),
            span.total_nanos() == secs * NANOS_PER_SEC,
    {
        Span { secs, nanos: 0 }
    }

    /// A well-formed span is the only one of its length, and no longer than
    /// `max_total()`.
    pub proof fn lemma_total_is_exact(self)
        requires
            self.wf(),
        ensures
            Span::from_total(self.total_nanos()) == self,
            self.total_nanos() <= Span::max_total(),
    {
    }

    /// Every length up to `max_total()` is held by a well-formed span.
    pub proof fn lemma_from_total(total: nat)
        requires
            total <= Span::max_total(),
        ensures
            Span::from_total(total).wf(),
            Span::from_total(total).total_nanos() == total,
    {
    }
}

/// The text that `Duration`'s `Debug` format gives for `secs` seconds and
/// `nanos` nanoseconds, such as `2s`, `1.5s` or `250ms`.
pub uninterp spec fn debug_text(secs: u64, nanos: u32) -> Seq<char>;

/// `Duration`'s `Debug` format, applied to the `Duration` of `secs` seconds
/// and `nanos` nanoseconds. The text depends on the length alone.
#[verifier::external_body]
pub(crate) fn duration_text(secs: u64, nanos: u32) -> (text: String)
    requires
        nanos < NANOS_PER_SEC,
    ensures
        text@ == debug_text(secs, nanos),
{
    format!("{:?}", Duration::new(secs, nanos))
}

} // verus!
