use vstd::prelude::*;

verus! {

/// Direction from the agent's cell toward an orthogonally adjacent cell.
#[derive(Clone, Copy, Debug, PartialEq, Eq, Structural)]
pub enum Direction {
    Up,
    Down,
    Left,
    Right,
}

/// Terrain kind of a tile.
#[derive(Clone, Copy, Debug, PartialEq, Eq, Structural)]
pub enum TileKind {
    DeepWater,
    ShallowWater,
    Sand,
    Grass,
    Street,
    Hill,
    Mountain,
    Snow,
    Lava,
    Teleport(bool),
    Wall,
}

/// The tag of a tile content or inventory item.
///
/// The tag alone decides equality of kinds: the quantity a content carries
/// lives in a separate field of [`Content`], so that comparing kinds can
/// never be confused by differing payloads.
#[derive(Clone, Copy, Debug, PartialEq, Eq, Structural)]
pub enum ContentKind {
    Nothing,
    Rock,
    Tree,
    Garbage,
    Fire,
    Coin,
    Bin,
    Crate,
    Bank,
    Water,
    Market,
    Fish,
    Building,
    Bush,
    JollyBlock,
    Scarecrow,
}

/// An item sitting on a tile: a kind tag plus the quantity (or identifier)
/// it carries.
#[derive(Clone, Copy, Debug, PartialEq, Eq, Structural)]
pub struct Content {
    pub kind: ContentKind,
    pub quantity: usize,
}

/// One cell of the world grid: terrain, content and elevation, as an
/// immutable snapshot.
#[derive(Clone, Copy, Debug, PartialEq, Eq, Structural)]
pub struct Tile {
    pub tile_type: TileKind,
    pub content: Content,
    pub elevation: usize,
}

/// The closed set of kinds a market accepts as deposits.
pub open spec fn is_sellable(k: ContentKind) -> bool {
    k is Rock || k is Tree || k is Fish
}

/// Decide membership in the sellable set.
pub fn sellable_kind(k: ContentKind) -> (r: bool)
    ensures
        r == is_sellable(k),
{
    match k {
        ContentKind::Rock => true,
        ContentKind::Tree => true,
        ContentKind::Fish => true,
        _ => false,
    }
}

} // verus!
