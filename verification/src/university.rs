//! The university entity of the organizational data model.

use vstd::prelude::*;

verus! {

/// A university, identified by a serial id and carrying a display name;
/// two universities are the same exactly when their identifiers coincide,
/// whatever their names.
#[derive(Debug, Clone)]
pub struct University<I = i32> {
    pub id: I,
    pub name: String,
}

impl PartialEq for University {
    fn eq(&self, other: &Self) -> (r: bool)
        ensures
            r == (self.id == other.id),
    {
        self.id == other.id
    }
}

impl vstd::std_specs::cmp::PartialEqSpecImpl for University {
    open spec fn obeys_eq_spec() -> bool {
        true
    }

    open spec fn eq_spec(&self, other: &Self) -> bool {
        self.id == other.id
    }
}

impl Eq for University {

}

} // verus!
