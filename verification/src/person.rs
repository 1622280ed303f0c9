//! The person entity of the organizational data model.

use vstd::prelude::*;

verus! {

/// A person, identified by a serial id; two persons are the same exactly
/// when their identifiers coincide.
#[derive(Debug, Clone, Copy, Hash)]
pub struct Person<Id = i32> {
    pub id: Id,
}

impl PartialEq for Person {
    fn eq(&self, other: &Self) -> (r: bool)
        ensures
            r == (self.id == other.id),
    {
        self.id == other.id
    }
}

impl vstd::std_specs::cmp::PartialEqSpecImpl for Person {
    open spec fn obeys_eq_spec() -> bool {
        true
    }

    open spec fn eq_spec(&self, other: &Self) -> bool {
        self.id == other.id
    }
}

impl Eq for Person {

}

} // verus!
