use vstd::prelude::*;

pub mod catalog;
pub mod game;
pub mod geometry;
pub mod label;
pub mod manifest;
pub mod map;
pub mod render;
pub mod sheets;
pub mod tile;

verus! {

/// Switches that apply to every export.
pub struct Options {
    pub verbose: bool,
    pub debug_coordinates: bool,
}

impl Options {
    pub fn new() -> (r: Options)
        ensures
            !r.verbose,
            !r.debug_coordinates,
    {
        Options { verbose: false, debug_coordinates: false }
    }
}

/// Which game's assets to export.
pub struct AssetOptions {
    pub name: String,
}

impl AssetOptions {
    pub fn new() -> (r: AssetOptions)
        ensures
            r.name@.len() == 0,
    {
        AssetOptions { name: String::new() }
    }
}

/// The game to start and the file name to save it under.
pub struct NewGameOptions {
    pub game: String,
    pub name: String,
}

impl NewGameOptions {
    pub fn new() -> (r: NewGameOptions)
        ensures
            r.game@.len() == 0,
            r.name@.len() == 0,
    {
        NewGameOptions { game: String::new(), name: String::new() }
    }
}

} // verus!
