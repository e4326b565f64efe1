//! Spans of time as plain data.

use vstd::prelude::*;

verus! {

/// Nanoseconds in one second.
pub const NANOS_PER_SEC: u32 = 1_000_000_000;

/// A span of time: whole seconds and the nanoseconds beyond them.
///
/// The fields are plain integers, so that contracts can speak of them. A
/// value converts to and from `std::time::Duration` field by field.
#[derive(Clone, Copy, Debug, PartialEq, Eq, Structural)]
pub struct Duration {
    secs: u64,
    nanos: u32,
}

impl Duration {
    /// The nanoseconds stay below one second.
    #[verifier::type_invariant]
    pub closed spec fn inv(self) -> bool {
        self.nanos < NANOS_PER_SEC
    }

    /// The whole seconds of the span.
    pub closed spec fn spec_as_secs(&self) -> u64 {
        self.secs
    }

    /// The nanoseconds beyond the whole seconds.
    pub closed spec fn spec_subsec_nanos(&self) -> u32 {
        self.nanos
    }

    /// The span of `secs` whole seconds.
    pub closed spec fn spec_from_secs(secs: u64) -> Duration {
        Duration { secs, nanos: 0 }
    }

    /// The span holds no time at all.
    pub open spec fn spec_is_zero(&self) -> bool {
        self.spec_as_secs() == 0 && self.spec_subsec_nanos() == 0
    }

    /// The parts of a span made of whole seconds.
    pub proof fn lemma_from_secs(secs: u64)
        ensures
            Self::spec_from_secs(secs).inv(),
            Self::spec_from_secs(secs).spec_as_secs() == secs,
            Self::spec_from_secs(secs).spec_subsec_nanos() == 0,
            Self::spec_from_secs(secs).spec_is_zero() <==> secs == 0,
    {
    }

    /// A span of `secs` whole seconds.
    #[verifier::when_used_as_spec(spec_from_secs)]
    pub fn from_secs(secs: u64) -> (d: Duration)
        ensures
            d == Self::spec_from_secs(secs),
            d.spec_as_secs() == secs,
            d.spec_subsec_nanos() == 0,
    {
        Duration { secs, nanos: 0 }
    }

    /// A span of `secs` seconds and `nanos` nanoseconds; `None` when the
    /// nanoseconds reach a full second.
    pub fn new(secs: u64, nanos: u32) -> (d: Option<Duration>)
        ensures
            d is Some <==> nanos < NANOS_PER_SEC,
            d matches Some(v) ==> v.spec_as_secs() == secs && v.spec_subsec_nanos() == nanos,
    {
        if nanos < NANOS_PER_SEC {
            Some(Duration { secs, nanos })
        } else {
            None
        }
    }

    /// The whole seconds of the span.
    #[verifier::when_used_as_spec(spec_as_secs)]
    pub fn as_secs(&self) -> (s: u64)
        ensures
            s == self.spec_as_secs(),
    {
        self.secs
    }

    /// The nanoseconds beyond the whole seconds.
    #[verifier::when_used_as_spec(spec_subsec_nanos)]
    pub fn subsec_nanos(&self) -> (n: u32)
        ensures
            n == self.spec_subsec_nanos(),
            n < NANOS_PER_SEC,
    {
        proof {
            use_type_invariant(self);
        }
        self.nanos
    }

    /// Whether the span holds no time at all.
    #[verifier::when_used_as_spec(spec_is_zero)]
    pub fn is_zero(&self) -> (z: bool)
        ensures
            z == self.spec_is_zero(),
    {
        self.secs == 0 && self.nanos == 0
    }
}

} // verus!
