use vstd::prelude::*;

verus! {

/// Whether an entity follows its velocity or stays where it was placed.
#[derive(Copy, Clone, Debug, PartialEq, Eq, Structural)]
pub enum EntityType {
    Dynamic,
    Static,
}

impl EntityType {
    /// A static entity never changes position; a dynamic one advances by
    /// velocity times the time step on every tick.
    pub open spec fn moves(self) -> bool {
        self is Dynamic
    }

    pub fn is_dynamic(&self) -> (r: bool)
        ensures
            r == self.moves(),
    {
        match self {
            EntityType::Dynamic => true,
            EntityType::Static => false,
        }
    }
}

} // verus!
