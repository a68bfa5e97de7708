use vstd::arithmetic::div_mod::{
    lemma_basic_div, lemma_div_by_multiple, lemma_fundamental_div_mod,
    lemma_hoist_over_denominator,
};
use vstd::prelude::*;

verus! {

/// A non-negative span of time: whole seconds plus a sub-second remainder
/// in nanoseconds.
///
/// The constructors keep `nanos` below one billion, so a span has exactly
/// one representation and field equality is equality of spans.
#[derive(Debug, Clone, Copy, PartialEq, Eq, Hash, Structural)]
pub struct Duration {
    /// Whole seconds of the span.
    pub secs: u64,
    /// Sub-second remainder of the span, in nanoseconds.
    pub nanos: u32,
}

impl Duration {
    /// The span in nanoseconds.
    pub open spec fn spec_as_nanos(&self) -> int {
        self.secs * 1_000_000_000 + self.nanos
    }

    /// The span in milliseconds, rounded down.
    pub open spec fn spec_as_millis(&self) -> int {
        self.secs * 1_000 + self.nanos / 1_000_000
    }

    /// The sub-second remainder is in its canonical range.
    pub open spec fn wf(&self) -> bool {
        self.nanos < 1_000_000_000
    }

    /// The zero span.
    pub fn zero() -> (r: Self)
        ensures
            r == (Duration { secs: 0, nanos: 0 }),
    {
        Duration { secs: 0, nanos: 0 }
    }

    /// A span of `secs` whole seconds.
    pub fn from_secs(secs: u64) -> (r: Self)
        ensures
            r.wf(),
            r.spec_as_nanos() == secs * 1_000_000_000,
            r.spec_as_millis() == secs * 1_000,
    {
        Duration { secs, nanos: 0 }
    }

    /// A span of `millis` milliseconds.
    pub fn from_millis(millis: u64) -> (r: Self)
        ensures
            r.wf(),
            r.spec_as_nanos() == millis * 1_000_000,
            r.spec_as_millis() == millis,
    {
        let secs = millis / 1_000;
        let rem = millis % 1_000;
        let r = Duration { secs, nanos: (rem as u32) * 1_000_000 };
        proof {
            lemma_fundamental_div_mod(millis as int, 1_000);
            assert(r.spec_as_nanos() == millis * 1_000_000) by (nonlinear_arith)
                requires
                    r.secs == millis as int / 1_000,
                    r.nanos == (millis as int % 1_000) * 1_000_000,
                    millis as int == 1_000 * (millis as int / 1_000) + millis as int % 1_000,
            {}
            lemma_div_by_multiple(rem as int, 1_000_000);
        }
        r
    }

    /// The span in milliseconds, rounded down.
    pub fn as_millis(&self) -> (r: u128)
        ensures
            r == self.spec_as_millis(),
            r == self.spec_as_nanos() / 1_000_000,
    {
        proof {
            lemma_millis_of_nanos(*self);
        }
        (self.secs as u128) * 1_000 + ((self.nanos / 1_000_000) as u128)
    }

    /// The span in whole seconds, rounded down.
    pub fn as_secs(&self) -> (r: u64)
        ensures
            r == self.secs,
            self.wf() ==> r == self.spec_as_nanos() / 1_000_000_000,
    {
        proof {
            if self.wf() {
                lemma_hoist_over_denominator(self.nanos as int, self.secs as int,
                    1_000_000_000nat);
                lemma_basic_div(self.nanos as int, 1_000_000_000);
            }
        }
        self.secs
    }

    /// The sub-second remainder, in nanoseconds.
    pub fn subsec_nanos(&self) -> (r: u32)
        ensures
            r == self.nanos,
    {
        self.nanos
    }
}

impl Default for Duration {
    /// The zero span.
    fn default() -> (r: Self)
        ensures
            r == (Duration { secs: 0, nanos: 0 }),
    {
        Duration { secs: 0, nanos: 0 }
    }
}

/// The two millisecond measures agree: the field formula in
/// `spec_as_millis` rounds the nanosecond total down by one million.
pub proof fn lemma_millis_of_nanos(d: Duration)
    ensures
        d.spec_as_millis() == d.spec_as_nanos() / 1_000_000,
{
    lemma_hoist_over_denominator(d.nanos as int, d.secs as int * 1_000, 1_000_000nat);
    assert(d.secs as int * 1_000 * 1_000_000 == d.secs as int * 1_000_000_000)
        by (nonlinear_arith);
}

} // verus!
