use vstd::prelude::*;

verus! {

/// Identifies an entity of the simulation (a player, the ball, ...) by the
/// bits of its world handle.
#[derive(Debug, Clone, Copy, PartialEq, Eq, Structural, Hash)]
pub struct EntityId {
    pub bits: u64,
}

impl EntityId {
    /// Wraps the bits of a world handle.
    pub fn from_bits(bits: u64) -> (id: EntityId)
        ensures
            id.bits == bits,
    {
        EntityId { bits }
    }

    /// Whether two handles name the same entity.
    pub fn same(&self, other: &EntityId) -> (r: bool)
        ensures
            r == (*self == *other),
    {
        self.bits == other.bits
    }
}

/// Whether an optional handle names the given entity.
pub fn is_entity(opt: Option<EntityId>, entity: EntityId) -> (r: bool)
    ensures
        r == (opt == Some(entity)),
{
    match opt {
        Some(e) => e.same(&entity),
        None => false,
    }
}

} // verus!
