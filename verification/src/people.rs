//! People: the entities that consume.

use vstd::prelude::*;

verus! {

/// What a person does for a living.
#[derive(Clone, Copy, Debug, PartialEq, Eq, Structural)]
pub enum PersonType {
    /// Works the land.
    Farmer,
}

/// A person. Each frame a person asks the market for as much wheat as their
/// capacity, whatever their role.
#[derive(Clone, Copy, Debug, PartialEq, Eq, Structural)]
pub struct Person {
    /// Wheat eaten per frame.
    pub capacity: u32,
    /// What the person does.
    pub role: PersonType,
}

impl Person {
    /// The wheat this person asks for each time they consume.
    pub open spec fn appetite(self) -> nat {
        self.capacity as nat
    }

    /// The person a player adds with a key press: a farmer of capacity 5.
    pub open spec fn standard() -> Person {
        Person { capacity: 5, role: PersonType::Farmer }
    }

    /// A person with the given attributes.
    pub fn new(capacity: u32, role: PersonType) -> (person: Person)
        ensures
            person == (Person { capacity, role }),
    {
        Person { capacity, role }
    }

    /// The person a player adds with a key press.
    pub fn farmer() -> (person: Person)
        ensures
            person == Person::standard(),
    {
        Person::new(5, PersonType::Farmer)
    }

    /// One frame's demand.
    pub fn consume(&self) -> (amount: u32)
        ensures
            amount == self.appetite(),
    {
        self.capacity
    }
}

} // verus!
