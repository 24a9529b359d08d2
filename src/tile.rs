use vstd::prelude::*;
use vstd::string::*;
use crate::label::{decimal, decimal_string};

verus! {

/// Background colour of a tile, by upgrade phase.
#[derive(Clone, Copy, Debug, PartialEq, Eq, Structural)]
pub enum TileColor {
    Ground,
    Yellow,
    Green,
    Russet,
    Grey,
    Red,
}

/// How a path bends between its two edges.
#[derive(Clone, Copy, Debug, PartialEq, Eq, Structural)]
pub enum Curve {
    Straight,
    Gentle,
    Sharp,
}

/// A local offset inside a tile, in thousandths of a hex unit.
#[derive(Clone, Copy, Debug, PartialEq, Eq, Structural)]
pub struct Offset {
    pub x: i32,
    pub y: i32,
}

/// A track between two edges of the hex, each in `0..6`.
#[derive(Clone, Copy, Debug, PartialEq, Eq, Structural)]
pub struct Path {
    pub start: u8,
    pub end: u8,
    pub curve: Curve,
}

impl Path {
    pub open spec fn wf(self) -> bool {
        self.start < 6 && self.end < 6 && self.start != self.end
    }
}

/// A city: its position, its token circles (one to six), name and revenue.
#[derive(Clone, Debug)]
pub struct City {
    pub position: Offset,
    pub circles: u8,
    pub name: String,
    pub revenue: u32,
}

impl City {
    pub open spec fn wf(self) -> bool {
        1 <= self.circles <= 6
    }
}

/// A revenue point that is no city, which may sit on a city of the tile.
#[derive(Clone, Copy, Debug, PartialEq, Eq, Structural)]
pub struct Stop {
    pub position: Offset,
    pub revenue: u32,
    pub city: Option<usize>,
}

#[derive(Clone, Copy, Debug, PartialEq, Eq, Structural)]
pub enum TerrainKind {
    Rough,
    Hill,
    Mountain,
    River,
    Water,
}

#[derive(Clone, Copy, Debug, PartialEq, Eq, Structural)]
pub struct Terrain {
    pub position: Offset,
    pub kind: TerrainKind,
    pub cost: u32,
}

/// An arrow pointing off the tile at an edge.
#[derive(Clone, Copy, Debug, PartialEq, Eq, Structural)]
pub struct Arrow {
    pub position: Offset,
    pub edge: u8,
}

/// A row of revenue values printed along the tile.
#[derive(Clone, Debug)]
pub struct RevenueTrack {
    pub position: Offset,
    pub values: Vec<u32>,
}

#[derive(Clone, Copy, Debug, PartialEq, Eq, Structural)]
pub enum TextAnchor {
    Start,
    Middle,
    End,
}

/// Where and how one label of a tile is written; `id` names the label.
#[derive(Clone, Debug)]
pub struct TextSpec {
    pub id: String,
    pub position: Offset,
    pub anchor: TextAnchor,
    pub size: Option<u32>,
    pub bold: bool,
}

/// The contents of a tile, shared by definitions and placed tiles.
#[derive(Clone, Debug)]
pub struct TileDefinition {
    pub name: String,
    pub color: TileColor,
    pub paths: Vec<Path>,
    pub cities: Vec<City>,
    pub stops: Vec<Stop>,
    pub terrain: Option<Terrain>,
    pub arrows: Vec<Arrow>,
    pub revenue_track: Option<RevenueTrack>,
    pub text: Vec<TextSpec>,
    pub lawson: bool,
}

/// A tile definition laid on a map cell, turned by `rotation` sixths of a turn.
#[derive(Clone, Debug)]
pub struct PlacedTile {
    pub definition: TileDefinition,
    pub col: u32,
    pub row: u32,
    pub rotation: u8,
}

/// Either kind of tile, read through one set of accessors.
#[derive(Clone, Debug)]
pub enum TileSpec {
    Placed(PlacedTile),
    Definition(TileDefinition),
}

impl TileSpec {
    pub open spec fn def(&self) -> TileDefinition {
        match self {
            TileSpec::Placed(p) => p.definition,
            TileSpec::Definition(d) => *d,
        }
    }

    /// Sixths of a turn; a definition is never turned.
    pub open spec fn spec_rotation(&self) -> nat {
        match self {
            TileSpec::Placed(p) => (p.rotation % 6) as nat,
            TileSpec::Definition(_) => 0,
        }
    }

    pub fn definition(&self) -> (r: &TileDefinition)
        ensures
            *r == self.def(),
    {
        match self {
            TileSpec::Placed(p) => &p.definition,
            TileSpec::Definition(d) => d,
        }
    }

    /// The placement rotation in sixths of a turn, in `0..6`.
    pub fn rotation(&self) -> (r: u8)
        ensures
            r as nat == self.spec_rotation(),
            r < 6,
    {
        match self {
            TileSpec::Placed(p) => p.rotation % 6,
            TileSpec::Definition(_) => 0,
        }
    }

    pub fn name(&self) -> (r: &String)
        ensures
            *r == self.def().name,
    {
        &self.definition().name
    }

    pub fn color(&self) -> (r: TileColor)
        ensures
            r == self.def().color,
    {
        self.definition().color
    }

    pub fn paths(&self) -> (r: &Vec<Path>)
        ensures
            *r == self.def().paths,
    {
        &self.definition().paths
    }

    pub fn cities(&self) -> (r: &Vec<City>)
        ensures
            *r == self.def().cities,
    {
        &self.definition().cities
    }

    pub fn stops(&self) -> (r: &Vec<Stop>)
        ensures
            *r == self.def().stops,
    {
        &self.definition().stops
    }

    pub fn terrain(&self) -> (r: Option<Terrain>)
        ensures
            r == self.def().terrain,
    {
        self.definition().terrain
    }

    pub fn arrows(&self) -> (r: &Vec<Arrow>)
        ensures
            *r == self.def().arrows,
    {
        &self.definition().arrows
    }

    pub fn revenue_track(&self) -> (r: &Option<RevenueTrack>)
        ensures
            *r == self.def().revenue_track,
    {
        &self.definition().revenue_track
    }

    pub fn text_spec(&self) -> (r: &Vec<TextSpec>)
        ensures
            *r == self.def().text,
    {
        &self.definition().text
    }

    /// The words of label `id`: the tile's name for the number, the revenue
    /// of its first city (else of its first stop) for the revenue, and
    /// nothing for any other label.
    pub open spec fn text_of(&self, id: Seq<char>) -> Seq<char> {
        let d = self.def();
        if id == "number"@ {
            d.name@
        } else if id == "revenue"@ {
            if d.cities@.len() > 0 {
                decimal(d.cities@[0].revenue as nat)
            } else if d.stops@.len() > 0 {
                decimal(d.stops@[0].revenue as nat)
            } else {
                Seq::empty()
            }
        } else {
            Seq::empty()
        }
    }

    pub fn get_text(&self, id: &String) -> (r: String)
        ensures
            r@ == self.text_of(id@),
    {
        let d = self.definition();
        if *id == String::from_str("number") {
            d.name.clone()
        } else if *id == String::from_str("revenue") {
            if d.cities.len() > 0 {
                decimal_string(d.cities[0].revenue)
            } else if d.stops.len() > 0 {
                decimal_string(d.stops[0].revenue)
            } else {
                String::new()
            }
        } else {
            String::new()
        }
    }

    pub fn is_lawson(&self) -> (r: bool)
        ensures
            r == self.def().lawson,
    {
        self.definition().lawson
    }
}

} // verus!
