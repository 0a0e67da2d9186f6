use vstd::prelude::*;

use crate::tiles::{Content, ContentKind, Tile, TileKind};

verus! {

/// A tile of the demo map: the given terrain and content at elevation zero.
pub open spec fn demo_map_tile(t: TileKind, k: ContentKind, q: usize) -> Tile {
    Tile { tile_type: t, content: Content { kind: k, quantity: q }, elevation: 0 }
}

/// The fixed 4x4 demo map: two markets, rocks, trees and a fish around a
/// grass field, with one shallow-water cell.
pub open spec fn demo_tile(i: int, j: int) -> Tile {
    if i == 1 && j == 1 {
        demo_map_tile(TileKind::Grass, ContentKind::Market, 1)
    } else if i == 1 && j == 2 {
        demo_map_tile(TileKind::Grass, ContentKind::Rock, 1)
    } else if i == 1 && j == 3 {
        demo_map_tile(TileKind::ShallowWater, ContentKind::Fish, 1)
    } else if i == 2 && j == 3 {
        demo_map_tile(TileKind::Grass, ContentKind::Rock, 1)
    } else if i == 3 && j == 1 {
        demo_map_tile(TileKind::Grass, ContentKind::Market, 2)
    } else if i == 3 && j == 2 {
        demo_map_tile(TileKind::Grass, ContentKind::Tree, 1)
    } else if i == 3 && j == 3 {
        demo_map_tile(TileKind::Grass, ContentKind::Tree, 2)
    } else {
        demo_map_tile(TileKind::Grass, ContentKind::Nothing, 0)
    }
}

/// World for the demo driver: a small square map with markets to sell at.
#[derive(Clone, Copy, Debug, PartialEq, Eq, Structural)]
pub struct DemoWorld {
    size: usize,
}

impl DemoWorld {
    /// Side length of the demo map.
    pub closed spec fn side(self) -> int {
        self.size as int
    }

    /// Set up the demo world.
    pub fn init() -> (w: DemoWorld)
        ensures
            w.side() == 4,
    {
        DemoWorld { size: 4 }
    }

    /// Generate the demo map, cell for cell as [`demo_tile`] lays it out.
    /// The agent is meant to spawn at the top-left corner.
    pub fn gen(&mut self) -> (map: Vec<Vec<Tile>>)
        ensures
            *final(self) == *old(self),
            map@.len() == 4,
            forall|i: int| 0 <= i < 4 ==> (#[trigger] map@[i])@.len() == 4,
            forall|i: int, j: int|
                0 <= i < 4 && 0 <= j < 4 ==> #[trigger] map@[i]@[j] == demo_tile(i, j),
    {
        let grass = mk_tile(TileKind::Grass, ContentKind::Nothing, 0);
        let mut row0: Vec<Tile> = Vec::new();
        row0.push(grass);
        row0.push(grass);
        row0.push(grass);
        row0.push(grass);
        let mut row1: Vec<Tile> = Vec::new();
        row1.push(grass);
        row1.push(mk_tile(TileKind::Grass, ContentKind::Market, 1));
        row1.push(mk_tile(TileKind::Grass, ContentKind::Rock, 1));
        row1.push(mk_tile(TileKind::ShallowWater, ContentKind::Fish, 1));
        let mut row2: Vec<Tile> = Vec::new();
        row2.push(grass);
        row2.push(grass);
        row2.push(grass);
        row2.push(mk_tile(TileKind::Grass, ContentKind::Rock, 1));
        let mut row3: Vec<Tile> = Vec::new();
        row3.push(grass);
        row3.push(mk_tile(TileKind::Grass, ContentKind::Market, 2));
        row3.push(mk_tile(TileKind::Grass, ContentKind::Tree, 1));
        row3.push(mk_tile(TileKind::Grass, ContentKind::Tree, 2));
        let mut map: Vec<Vec<Tile>> = Vec::new();
        map.push(row0);
        map.push(row1);
        map.push(row2);
        map.push(row3);
        map
    }
}

/// Build one tile at elevation zero.
fn mk_tile(t: TileKind, k: ContentKind, q: usize) -> (r: Tile)
    ensures
        r == demo_map_tile(t, k, q),
{
    Tile { tile_type: t, content: Content { kind: k, quantity: q }, elevation: 0 }
}

} // verus!
