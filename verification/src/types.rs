//! Plain 2D grid coordinates, entity kinds, and the event log entries.

use vstd::prelude::*;

verus! {

/// A grid coordinate. Coordinates may be negative; negative coordinates are
/// always outside the room and are used to detect out-of-bounds queries.
#[derive(Copy, Clone, Debug, PartialEq, Eq, Structural)]
pub struct TilePoint {
    pub x: i32,
    pub y: i32,
}

/// A displacement between two grid coordinates.
pub type TileDelta = TilePoint;

/// A room extent; both axes are non-negative.
#[derive(Copy, Clone, Debug, PartialEq, Eq, Structural)]
pub struct TileSize {
    pub x: usize,
    pub y: usize,
}

impl TilePoint {
    pub fn new(x: i32, y: i32) -> (r: TilePoint)
        ensures
            r == (TilePoint { x, y }),
    {
        TilePoint { x, y }
    }
}

impl TileSize {
    pub fn new(x: usize, y: usize) -> (r: TileSize)
        ensures
            r == (TileSize { x, y }),
    {
        TileSize { x, y }
    }
}

/// Shorthand constructor for a point or delta.
pub fn vec2(x: i32, y: i32) -> (r: TilePoint)
    ensures
        r == (TilePoint { x, y }),
{
    TilePoint { x, y }
}

#[derive(Copy, Clone, Debug, PartialEq, Eq, Structural)]
pub enum ActorType {
    Player,
    Toad,
}

#[derive(Copy, Clone, Debug, PartialEq, Eq, Structural)]
pub enum ItemType {
    LumpOfBlackstone,
    BlackstoneSpear,
    CarmineChainmail,
    Bloodflower,
}

/// An entry of the append-only event log. The last four variants are
/// extension points that no core operation emits yet.
#[derive(Clone, Debug, PartialEq, Eq, Structural)]
pub enum GameEvent {
    Bonk { actor_id: u32 },
    MeleeAttack { attacker_id: u32, defender_id: u32, damage: u32 },
    Death { actor_id: u32 },
    GotItem { item_id: u32 },
    DroppedItem { item_id: u32 },
    EquippedItem { item_id: u32 },
    UnequippedItem { item_id: u32 },
    AteItem { item_id: u32 },
    ItemNotEdible { item_id: u32 },
    EffectHealed { actor_id: u32 },
    SlowedByWater { actor_id: u32 },
}

} // verus!
