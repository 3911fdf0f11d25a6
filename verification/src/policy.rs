//! The classification of plain attributes into boolean and string-valued ones.

use vstd::prelude::*;

verus! {

/// Decides which attribute names are boolean attributes. The grammar asks it
/// only of a name that is no directive.
pub trait BooleanPolicy {
    /// Whether `name` is a boolean attribute.
    spec fn holds(&self, name: Seq<char>) -> bool;

    /// Whether `name` is a boolean attribute.
    fn is_boolean_attribute(&self, name: &str) -> (boolean: bool)
        ensures
            boolean == self.holds(name@),
    ;
}

/// A policy given by a list: the names on it are boolean attributes, all
/// others are not.
pub struct BooleanAttributes {
    names: Vec<String>,
}

impl BooleanAttributes {
    /// The names on the list.
    pub closed spec fn names(&self) -> Seq<Seq<char>> {
        self.names@.map_values(|name: String| name@)
    }

    /// The policy of the given list.
    pub fn new(names: Vec<String>) -> (policy: BooleanAttributes)
        ensures
            policy.names() == names@.map_values(|name: String| name@),
    {
        BooleanAttributes { names }
    }
}

impl BooleanPolicy for BooleanAttributes {
    open spec fn holds(&self, name: Seq<char>) -> bool {
        self.names().contains(name)
    }

    fn is_boolean_attribute(&self, name: &str) -> (boolean: bool) {
        let wanted = String::from_str(name);
        let mut i: usize = 0;
        while i < self.names.len()
            invariant
                i <= self.names.len(),
                wanted@ == name@,
                forall|j: int| 0 <= j < i ==> self.names()[j] != name@,
            decreases self.names.len() - i,
        {
            if self.names[i] == wanted {
                assert(self.names()[i as int] == name@);
                return true;
            }
            i += 1;
        }
        false
    }
}

} // verus!
