//! A territorial map for a multiplayer strategy game: named locations, adjacency
//! tagged by unit type, ownership of supply centers, and a ledger of the pawns
//! placed on the map.
pub mod adjucator;
pub mod board;
pub mod error;
pub mod laws;
