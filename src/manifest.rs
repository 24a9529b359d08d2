use vstd::prelude::*;
use crate::catalog::{GridEntry, grid_cell, grid_entry};
use crate::label::{amount_label, amount_text};
use crate::tile::TileDefinition;

verus! {

/// A count attached to a tile name.
#[derive(Clone, Debug)]
pub struct TileAmount {
    pub name: String,
    pub amount: u32,
}

/// A game's tiles in declared order, with how many of each exist.
#[derive(Clone, Debug)]
pub struct Manifest {
    pub tiles: Vec<TileDefinition>,
    pub amounts: Vec<TileAmount>,
}

/// A failed cross-reference that aborts a render.
#[derive(Clone, Debug, PartialEq, Eq)]
pub enum RenderError {
    /// A tile of the manifest has no amount.
    MissingAmount(String),
    /// A token names a cell where no tile lies.
    MissingTile(u32, u32),
    /// A token names a city that its tile does not have.
    MissingCity(usize),
    /// A token names a circle that its city does not have.
    MissingCircle(usize),
    /// More tile instances than memory can index.
    TooManyTiles,
}

/// The amount of the first entry named `name`, if any.
pub open spec fn lookup(entries: Seq<TileAmount>, name: Seq<char>) -> Option<u32>
    decreases entries.len(),
{
    if entries.len() == 0 {
        None
    } else if entries[0].name@ == name {
        Some(entries[0].amount)
    } else {
        lookup(entries.drop_first(), name)
    }
}

/// How many of a tile remain: its amount less what the usage log records,
/// never below zero.
pub open spec fn remaining(amount: u32, used: Option<u32>) -> u32 {
    match used {
        None => amount,
        Some(u) => if u >= amount { 0 } else { (amount - u) as u32 },
    }
}

/// Finds the amount recorded for `name`.
pub fn find_amount(entries: &Vec<TileAmount>, name: &String) -> (r: Option<u32>)
    ensures
        r == lookup(entries@, name@),
{
    let mut i: usize = 0;
    assert(entries@.subrange(0, entries@.len() as int) =~= entries@);
    while i < entries.len()
        invariant
            i <= entries@.len(),
            lookup(entries@, name@) == lookup(entries@.subrange(i as int, entries@.len() as int), name@),
        decreases entries.len() - i,
    {
        let ghost rest = entries@.subrange(i as int, entries@.len() as int);
        assert(rest.drop_first() =~= entries@.subrange(i + 1, entries@.len() as int));
        if entries[i].name == *name {
            return Some(entries[i].amount);
        }
        i += 1;
    }
    None
}

impl Manifest {
    /// An empty manifest.
    pub fn default() -> (r: Manifest)
        ensures
            r.tiles@.len() == 0,
            r.amounts@.len() == 0,
    {
        Manifest { tiles: Vec::new(), amounts: Vec::new() }
    }

    /// The amount of the manifest's tile `i`, as the spec functions state it.
    pub open spec fn amount_of(&self, i: int) -> Option<u32> {
        lookup(self.amounts@, self.tiles@[i].name@)
    }

    /// The amount of each tile, in manifest order, where every tile has one.
    pub open spec fn counts(&self) -> Seq<u32> {
        Seq::new(self.tiles@.len(), |i: int| self.amount_of(i).unwrap())
    }

    /// Whether every tile of the manifest has an amount.
    pub open spec fn complete(&self) -> bool {
        forall|i: int| 0 <= i < self.tiles@.len() ==> (#[trigger] self.amount_of(i)) is Some
    }

    /// The amount of each tile, in manifest order, or the name of the first
    /// tile without one.
    pub fn tile_counts(&self) -> (r: Result<Vec<u32>, RenderError>)
        ensures
            r is Ok <==> self.complete(),
            r matches Ok(c) ==> c@.len() == self.tiles@.len() && forall|i: int|
                0 <= i < c@.len() ==> self.amount_of(i) == Some(#[trigger] c@[i]),
            r matches Err(e) ==> exists|i: int|
                0 <= i < self.tiles@.len() && self.amount_of(i) is None
                    && e == RenderError::MissingAmount(self.tiles@[i].name)
                    && forall|j: int| 0 <= j < i ==> (#[trigger] self.amount_of(j)) is Some,
    {
        let mut counts: Vec<u32> = Vec::new();
        let mut i: usize = 0;
        while i < self.tiles.len()
            invariant
                i <= self.tiles@.len(),
                counts@.len() == i,
                forall|k: int| 0 <= k < i ==> self.amount_of(k) == Some(#[trigger] counts@[k]),
            decreases self.tiles.len() - i,
        {
            let name = &self.tiles[i].name;
            match find_amount(&self.amounts, name) {
                Some(a) => counts.push(a),
                None => {
                    assert(self.amount_of(i as int) is None);
                    assert(forall|j: int| 0 <= j < i ==> (#[trigger] self.amount_of(j)) is Some) by {
                        assert forall|j: int| 0 <= j < i implies (#[trigger] self.amount_of(j)) is Some by {
                            assert(self.amount_of(j) == Some(counts@[j]));
                        }
                    }
                    return Err(RenderError::MissingAmount(self.tiles[i].name.clone()));
                },
            }
            i += 1;
        }
        assert(self.complete()) by {
            assert forall|k: int| 0 <= k < self.tiles@.len() implies (#[trigger] self.amount_of(k)) is Some by {
                assert(self.amount_of(k) == Some(counts@[k]));
            }
        }
        Ok(counts)
    }
}

/// One tile of a manifest page: where it stands and its quantity label.
#[derive(Clone, Debug)]
pub struct ManifestEntry {
    pub cell: GridEntry,
    pub label: String,
}

/// Lays a manifest's tiles out in declared order, four to a row, each
/// labelled with how many remain once the usage log is taken off.
pub fn draw_tile_manifest(manifest: &Manifest, log: &Vec<TileAmount>) -> (r: Result<Vec<ManifestEntry>, RenderError>)
    ensures
        r is Ok <==> manifest.complete(),
        r matches Err(e) ==> exists|i: int|
            0 <= i < manifest.tiles@.len() && manifest.amount_of(i) is None
                && e == RenderError::MissingAmount(manifest.tiles@[i].name)
                && forall|j: int| 0 <= j < i ==> (#[trigger] manifest.amount_of(j)) is Some,
        r matches Ok(entries) ==> entries@.len() == manifest.tiles@.len() && forall|i: int|
            0 <= i < entries@.len() ==> (#[trigger] entries@[i]).cell == grid_entry(i as usize, i as nat)
                && entries@[i].label@ == amount_label(
                remaining(manifest.counts()[i], lookup(log@, manifest.tiles@[i].name@)) as nat,
            ),
{
    let counts = match manifest.tile_counts() {
        Ok(c) => c,
        Err(e) => return Err(e),
    };
    let mut entries: Vec<ManifestEntry> = Vec::new();
    let mut i: usize = 0;
    while i < counts.len()
        invariant
            i <= counts@.len(),
            counts@.len() == manifest.tiles@.len(),
            forall|k: int| 0 <= k < counts@.len() ==> manifest.amount_of(k) == Some(#[trigger] counts@[k]),
            entries@.len() == i,
            forall|k: int|
                0 <= k < i ==> (#[trigger] entries@[k]).cell == grid_entry(k as usize, k as nat)
                    && entries@[k].label@ == amount_label(
                    remaining(manifest.counts()[k], lookup(log@, manifest.tiles@[k].name@)) as nat,
                ),
        decreases counts.len() - i,
    {
        let used = find_amount(log, &manifest.tiles[i].name);
        let left = match used {
            None => counts[i],
            Some(u) => if u >= counts[i] { 0 } else { counts[i] - u },
        };
        assert(manifest.counts()[i as int] == counts@[i as int]);
        let label = amount_text(left);
        entries.push(ManifestEntry { cell: grid_cell(i, i), label });
        i += 1;
    }
    Ok(entries)
}

} // verus!
