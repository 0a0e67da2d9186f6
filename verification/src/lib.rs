//! Market-interaction core for a grid-walking agent: locate a market among
//! the four orthogonal neighbors of the agent's viewport, and run a
//! best-effort sell transaction that empties the sellable kinds of the
//! agent's inventory into that market.
//!
//! The surrounding simulation engine owns the world, the turn scheduling and
//! every mutation of the agent's inventory; this crate holds the decision
//! logic. The host hands in plain snapshots (a viewport, the inventory
//! contents) and performs each deposit the transaction asks for, handing the
//! outcome back to the transaction.

use vstd::prelude::*;

pub mod demo;
pub mod seller;
pub mod tiles;
pub mod viewport;

pub use demo::DemoWorld;
pub use seller::DepositOutcome;
pub use seller::DepositRequest;
pub use seller::SellError;
pub use seller::SellReceipt;
pub use seller::SellTransaction;
pub use tiles::Content;
pub use tiles::ContentKind;
pub use tiles::Direction;
pub use tiles::Tile;
pub use tiles::TileKind;
pub use tiles::sellable_kind;
pub use viewport::Viewport;

verus! {

/// The market tool: detection and selling over a host-supplied viewport.
pub struct SwiftSeller;

impl SwiftSeller {
    /// Report whether a market lies in one of the four orthogonally
    /// adjacent cells of the viewport, without selling anything.
    pub fn market_adjacent(view: &Viewport) -> (r: bool)
        ensures
            r == (view.located_market() is Some),
    {
        view.find_market().is_some()
    }
}

} // verus!
