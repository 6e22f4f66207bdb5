//! Validated values: types whose constructors admit only the values their
//! rules allow, so that every instance is known to be in range.

use vstd::prelude::*;

verus! {

/// An age between 1 and 100. Only `new` builds one, so the bound holds of
/// every instance.
pub struct Aget {
    age: u32,
}

impl Aget {
    /// The stored age.
    pub closed spec fn spec_age(self) -> u32 {
        self.age
    }

    /// An age in range: between 1 and 100. `new` establishes it, and no
    /// method disturbs it.
    pub open spec fn wf(self) -> bool {
        1 <= self.spec_age() <= 100
    }

    /// Builds a validated age. Values outside 1 to 100 are not accepted.
    pub fn new(age: u32) -> (r: Aget)
        requires
            1 <= age <= 100,
        ensures
            r.spec_age() == age,
            r.wf(),
    {
        Aget { age }
    }

    /// Reads the age back.
    pub fn age(&self) -> (r: u32)
        ensures
            r == self.spec_age(),
    {
        self.age
    }
}

/// An age between 18 and 25, validated on construction.
pub struct ValidAge {
    age: u32,
}

impl ValidAge {
    /// The stored age.
    pub closed spec fn spec_age(self) -> u32 {
        self.age
    }

    /// An age in range: between 18 and 25. `new` establishes it, and no
    /// method disturbs it.
    pub open spec fn wf(self) -> bool {
        18 <= self.spec_age() <= 25
    }

    /// Builds a validated age. Values outside 18 to 25 are not accepted.
    pub fn new(value: u32) -> (r: ValidAge)
        requires
            18 <= value <= 25,
        ensures
            r.spec_age() == value,
            r.wf(),
    {
        ValidAge { age: value }
    }

    /// Reads the age back.
    pub fn get_age(&self) -> (r: u32)
        ensures
            r == self.spec_age(),
    {
        self.age
    }
}

} // verus!
