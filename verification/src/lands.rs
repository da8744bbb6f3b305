//! Lands: the entities that produce.

use vstd::prelude::*;

verus! {

/// What grows on a land.
#[derive(Clone, Copy, Debug, PartialEq, Eq, Structural)]
pub enum LandType {
    /// Open grassland, sown with wheat.
    Grassland,
}

/// A piece of land. Each frame it yields wheat at its yield rate, whatever
/// its size and kind.
#[derive(Clone, Copy, Debug, PartialEq, Eq, Structural)]
pub struct Land {
    /// How much the land can hold.
    pub size: u32,
    /// What grows on it.
    pub kind: LandType,
    /// Wheat yielded per frame.
    pub yield_rate: u32,
}

impl Land {
    /// The wheat this land yields each time it produces.
    pub open spec fn output(self) -> nat {
        self.yield_rate as nat
    }

    /// The land a player adds with a key press: grassland of size 10 that
    /// yields 5.
    pub open spec fn standard() -> Land {
        Land { size: 10, kind: LandType::Grassland, yield_rate: 5 }
    }

    /// A land with the given attributes.
    pub fn new(size: u32, kind: LandType, yield_rate: u32) -> (land: Land)
        ensures
            land == (Land { size, kind, yield_rate }),
    {
        Land { size, kind, yield_rate }
    }

    /// The land a player adds with a key press.
    pub fn grassland() -> (land: Land)
        ensures
            land == Land::standard(),
    {
        Land::new(10, LandType::Grassland, 5)
    }

    /// One frame's yield.
    pub fn produce(&self) -> (amount: u32)
        ensures
            amount == self.output(),
    {
        self.yield_rate
    }

    /// The size, as listed on screen.
    pub fn show_size(&self) -> (size: u32)
        ensures
            size == self.size,
    {
        self.size
    }
}

} // verus!
