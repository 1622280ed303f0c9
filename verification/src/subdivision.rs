//! The subdivision entity of the organizational data model: a named unit
//! of a university, with tags and members.

use crate::person::Person;
use crate::tag::Tag;
use crate::university::University;
use vstd::prelude::*;

verus! {

/// Natural identifier of a subdivision: the owning university and the
/// subdivision's name within it.
#[derive(Debug, Clone)]
pub struct SubdivisionId {
    pub university: University,
    pub name: String,
}

impl PartialEq for SubdivisionId {
    fn eq(&self, other: &Self) -> (r: bool)
        ensures
            r == (self.university.id == other.university.id && self.name@ == other.name@),
    {
        self.university == other.university && self.name == other.name
    }
}

impl vstd::std_specs::cmp::PartialEqSpecImpl for SubdivisionId {
    open spec fn obeys_eq_spec() -> bool {
        true
    }

    open spec fn eq_spec(&self, other: &Self) -> bool {
        self.university.id == other.university.id && self.name@ == other.name@
    }
}

impl Eq for SubdivisionId {

}

/// A subdivision; two subdivisions are the same exactly when their
/// identifiers coincide.
#[derive(Debug, Clone)]
pub struct Subdivision {
    pub id: SubdivisionId,
}

impl PartialEq for Subdivision {
    fn eq(&self, other: &Self) -> (r: bool)
        ensures
            r == (self.id.university.id == other.id.university.id && self.id.name@
                == other.id.name@),
    {
        self.id == other.id
    }
}

impl vstd::std_specs::cmp::PartialEqSpecImpl for Subdivision {
    open spec fn obeys_eq_spec() -> bool {
        true
    }

    open spec fn eq_spec(&self, other: &Self) -> bool {
        self.id.university.id == other.id.university.id && self.id.name@ == other.id.name@
    }
}

impl Eq for Subdivision {

}

/// A tag attached to a subdivision.
#[derive(Debug, Clone)]
pub struct SubdivisionTag(pub Subdivision, pub Tag);

impl PartialEq for SubdivisionTag {
    fn eq(&self, other: &Self) -> (r: bool)
        ensures
            r == (self.0.id.university.id == other.0.id.university.id && self.0.id.name@
                == other.0.id.name@ && self.1.name@ == other.1.name@),
    {
        self.0 == other.0 && self.1 == other.1
    }
}

impl vstd::std_specs::cmp::PartialEqSpecImpl for SubdivisionTag {
    open spec fn obeys_eq_spec() -> bool {
        true
    }

    open spec fn eq_spec(&self, other: &Self) -> bool {
        self.0.id.university.id == other.0.id.university.id && self.0.id.name@
            == other.0.id.name@ && self.1.name@ == other.1.name@
    }
}

impl Eq for SubdivisionTag {

}

/// Membership of a person in a subdivision, with a role; two memberships
/// are the same exactly when subdivision and person coincide, whatever the
/// role.
#[derive(Debug)]
pub struct SubdivisionMember {
    pub id: (Subdivision, Person),
    pub role: String,
}

impl PartialEq for SubdivisionMember {
    fn eq(&self, other: &Self) -> (r: bool)
        ensures
            r == (self.id.0.id.university.id == other.id.0.id.university.id && self.id.0.id.name@
                == other.id.0.id.name@ && self.id.1.id == other.id.1.id),
    {
        self.id.0 == other.id.0 && self.id.1 == other.id.1
    }
}

impl vstd::std_specs::cmp::PartialEqSpecImpl for SubdivisionMember {
    open spec fn obeys_eq_spec() -> bool {
        true
    }

    open spec fn eq_spec(&self, other: &Self) -> bool {
        self.id.0.id.university.id == other.id.0.id.university.id && self.id.0.id.name@
            == other.id.0.id.name@ && self.id.1.id == other.id.1.id
    }
}

impl Eq for SubdivisionMember {

}

} // verus!
