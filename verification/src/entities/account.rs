//! Accounts of a catalog.
use vstd::prelude::*;
use vstd::std_specs::cmp::PartialEqSpecImpl;

verus! {

/// An account: a name.
#[derive(Debug)]
pub struct Entity {
    name: String,
}

/// What an account is created from.
pub struct Input {
    pub name: String,
}

impl View for Entity {
    type V = Seq<char>;

    /// An account is its name.
    closed spec fn view(&self) -> Seq<char> {
        self.name@
    }
}

impl Entity {
    /// The account named as `input` says.
    pub fn new(input: Input) -> (entity: Entity)
        ensures
            entity@ == input.name@,
    {
        Entity { name: input.name }
    }

    /// The account's name.
    pub fn name(&self) -> (name: &str)
        ensures
            name@ == self@,
    {
        self.name.as_str()
    }
}

impl PartialEq for Entity {
    /// Accounts are equal where their names are.
    fn eq(&self, other: &Entity) -> (equal: bool) {
        self.name == other.name
    }
}

impl PartialEqSpecImpl for Entity {
    open spec fn obeys_eq_spec() -> bool {
        true
    }

    open spec fn eq_spec(&self, other: &Entity) -> bool {
        self@ == other@
    }
}

} // verus!
