//! Percentages and microtiming.
use vstd::prelude::*;

verus! {

/// A setting between 0 and 100.
#[derive(Clone, Copy, Debug, PartialEq, Eq, Structural)]
pub struct Percent {
    value: u8,
}

impl View for Percent {
    type V = int;

    closed spec fn view(&self) -> int {
        self.value as int
    }
}

impl Percent {
    #[verifier::type_invariant]
    spec fn in_range(self) -> bool {
        self.value <= 100
    }

    pub fn new(value: u8) -> (percent: Option<Percent>)
        ensures
            percent is Some <==> value <= 100,
            percent matches Some(p) ==> p@ == value && p == Percent::at(value),
    {
        if value <= 100 {
            Some(Percent { value })
        } else {
            None
        }
    }

    /// The percentage with that value.
    pub closed spec fn at(value: u8) -> Percent {
        Percent { value }
    }

    /// A percentage that is known to be in range.
    pub fn exactly(value: u8) -> (percent: Percent)
        requires
            value <= 100,
        ensures
            percent@ == value,
            percent == Percent::at(value),
    {
        Percent { value }
    }

    pub fn zero() -> (percent: Percent)
        ensures
            percent@ == 0,
            percent == Percent::at(0),
    {
        Percent { value: 0 }
    }

    pub fn get(self) -> (value: u8)
        ensures
            value == self@,
            value <= 100,
    {
        proof {
            use_type_invariant(self);
        }
        self.value
    }

    /// Two percentages are the same when they name the same number.
    pub proof fn determined_by_view(self, other: Percent)
        ensures
            self@ == other@ <==> self == other,
    {
    }
}

/// An offset of an event from its step, in percent of the step, at most half
/// a step either way.
#[derive(Clone, Copy, Debug, PartialEq, Eq, Structural)]
pub struct Microtiming {
    value: i8,
}

impl View for Microtiming {
    type V = int;

    closed spec fn view(&self) -> int {
        self.value as int
    }
}

impl Microtiming {
    #[verifier::type_invariant]
    spec fn in_range(self) -> bool {
        -50 <= self.value <= 50
    }

    pub fn new(value: i8) -> (timing: Option<Microtiming>)
        ensures
            timing is Some <==> -50 <= value <= 50,
            timing matches Some(t) ==> t@ == value,
    {
        if -50 <= value && value <= 50 {
            Some(Microtiming { value })
        } else {
            None
        }
    }

    pub fn zero() -> (timing: Microtiming)
        ensures
            timing@ == 0,
    {
        Microtiming { value: 0 }
    }

    pub fn get(self) -> (value: i8)
        ensures
            value == self@,
            -50 <= value <= 50,
    {
        proof {
            use_type_invariant(self);
        }
        self.value
    }
}

} // verus!
