use vstd::prelude::*;

verus! {

/// Marks a planet.
pub struct Planet {
    pub name: String,
}

/// A building.
pub struct Building {
    pub kind: BuildingType,
}

/// The kinds of building.
#[derive(Clone, Copy, PartialEq, Eq, Structural, Debug)]
pub enum BuildingType {
    Mine,
    Farm,
    Habitat,
}

} // verus!
