//! The tag entity of the organizational data model.

use vstd::prelude::*;

verus! {

/// A tag, identified by its name.
#[derive(Debug, Clone)]
pub struct Tag {
    pub name: String,
}

impl PartialEq for Tag {
    fn eq(&self, other: &Self) -> (r: bool)
        ensures
            r == (self.name@ == other.name@),
    {
        self.name == other.name
    }
}

impl vstd::std_specs::cmp::PartialEqSpecImpl for Tag {
    open spec fn obeys_eq_spec() -> bool {
        true
    }

    open spec fn eq_spec(&self, other: &Self) -> bool {
        self.name@ == other.name@
    }
}

impl Eq for Tag {

}

} // verus!
