//! Lengths of time, counted in nanoseconds.

use vstd::prelude::*;

verus! {

pub const NANOS_PER_SEC: u32 = 1_000_000_000;

/// A length of time: whole seconds and a fraction below one second.
#[derive(Clone, Copy, Debug, PartialEq, Eq, Structural)]
pub struct Span {
    secs: u64,
    nanos: u32,
}

impl View for Span {
    type V = nat;

    /// The length in nanoseconds.
    closed spec fn view(&self) -> nat {
        (self.secs * NANOS_PER_SEC + self.nanos) as nat
    }
}

impl Span {
    #[verifier::type_invariant]
    spec fn fraction_below_second(self) -> bool {
        self.nanos < NANOS_PER_SEC
    }

    /// `secs` seconds and `nanos` nanoseconds.
    pub fn new(secs: u64, nanos: u32) -> (span: Span)
        requires
            nanos < NANOS_PER_SEC,
        ensures
            span@ == secs * NANOS_PER_SEC + nanos,
    {
        Span { secs, nanos }
    }

    pub fn from_secs(secs: u64) -> (span: Span)
        ensures
            span@ == secs * NANOS_PER_SEC,
    {
        Span { secs, nanos: 0 }
    }

    pub fn from_millis(millis: u64) -> (span: Span)
        ensures
            span@ == millis * 1_000_000,
    {
        let rest: u32 = (millis % 1_000) as u32;
        Span { secs: millis / 1_000, nanos: rest * 1_000_000 }
    }

    /// The whole seconds and the nanoseconds that are left over.
    pub fn parts(&self) -> (parts: (u64, u32))
        ensures
            self@ == parts.0 * NANOS_PER_SEC + parts.1,
            parts.1 < NANOS_PER_SEC,
    {
        proof {
            use_type_invariant(self);
        }
        (self.secs, self.nanos)
    }
}

/// A length of time has the parts that it was made of.
pub proof fn law_parts_are_what_was_given(secs: u64, nanos: u32, span: Span, parts: (u64, u32))
    requires
        nanos < NANOS_PER_SEC,
        call_ensures(Span::new, (secs, nanos), span),
        call_ensures(Span::parts, (&span,), parts),
    ensures
        parts == (secs, nanos),
{
}

/// A thousand milliseconds are a second.
pub proof fn law_thousand_millis_are_a_second(secs: u64, span: Span, millis: u64, other: Span)
    requires
        call_ensures(Span::from_secs, (secs,), span),
        call_ensures(Span::from_millis, (millis,), other),
    ensures
        span@ == other@ <==> millis == 1_000 * secs,
{
}

} // verus!
