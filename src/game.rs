use vstd::prelude::*;
use crate::geometry::Orientation;
use crate::manifest::Manifest;
use crate::map::GameMap;

verus! {

/// A game: its tile manifest and its map.
#[derive(Clone, Debug)]
pub struct Game {
    pub manifest: Manifest,
    pub map: GameMap,
}

impl Game {
    /// A game with no tiles and an empty map.
    pub fn new() -> (r: Game)
        ensures
            r.manifest.tiles@.len() == 0,
            r.manifest.amounts@.len() == 0,
            r.map.width == 0,
            r.map.height == 0,
            r.map.orientation == Orientation::Horizontal,
            r.map.tiles@.len() == 0,
            r.map.barriers@.len() == 0,
            r.map.tokens@.len() == 0,
    {
        Game {
            manifest: Manifest::default(),
            map: GameMap {
                width: 0,
                height: 0,
                orientation: Orientation::Horizontal,
                tiles: Vec::new(),
                barriers: Vec::new(),
                tokens: Vec::new(),
            },
        }
    }
}

} // verus!
