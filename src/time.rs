use vstd::prelude::*;

verus! {

/// The largest value of the chip's 40-bit system time counter.
pub const TIME_MAX: u64 = 0xff_ffff_ffff;

/// A point in time of the chip's system time counter.
#[derive(Clone, Copy, Debug, PartialEq, Eq, Structural)]
pub struct Instant {
    value: u64,
}

impl Instant {
    /// The counter value of the instant.
    pub closed spec fn spec_value(self) -> u64 {
        self.value
    }

    #[verifier::type_invariant]
    spec fn in_range(self) -> bool {
        self.value <= TIME_MAX
    }

    /// The instant at counter value `value`, where the counter can hold it.
    pub fn new(value: u64) -> (r: Option<Instant>)
        ensures
            value <= TIME_MAX <==> r is Some,
            r matches Some(i) ==> i.spec_value() == value,
    {
        if value <= TIME_MAX {
            Some(Instant { value })
        } else {
            None
        }
    }

    /// The instant at counter value `value`, known to fit in the counter
    /// (as the values that the chip hands out do).
    pub fn new_in_range(value: u64) -> (r: Instant)
        requires
            value <= TIME_MAX,
        ensures
            r.spec_value() == value,
    {
        Instant { value }
    }

    /// The counter value of the instant.
    #[verifier::when_used_as_spec(spec_value)]
    pub fn value(self) -> (r: u64)
        ensures
            r == self.spec_value(),
            r <= TIME_MAX,
    {
        proof {
            use_type_invariant(self);
        }
        self.value
    }
}

} // verus!
