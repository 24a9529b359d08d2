use vstd::prelude::*;
use crate::geometry::{Orientation, Surd, cell_position, cell_position_of, page_size, page_size_of};
use crate::manifest::RenderError;
use crate::tile::{Offset, PlacedTile};
use crate::Options;

verus! {

/// An edge of a cell that track may not cross.
#[derive(Clone, Copy, Debug, PartialEq, Eq, Structural)]
pub struct Barrier {
    pub col: u32,
    pub row: u32,
    pub edge: u8,
}

/// A company's station marker in one circle of one city of a cell.
#[derive(Clone, Debug)]
pub struct Token {
    pub name: String,
    pub color: String,
    pub is_home: bool,
    pub col: u32,
    pub row: u32,
    /// Index of the city among the tile's cities.
    pub station: usize,
    /// Index of the circle within the city.
    pub circle: usize,
}

/// A map: its size in cells, its orientation, the tiles laid on it in the
/// order they were laid, its barriers and its tokens.
#[derive(Clone, Debug)]
pub struct GameMap {
    pub width: u32,
    pub height: u32,
    pub orientation: Orientation,
    pub tiles: Vec<PlacedTile>,
    pub barriers: Vec<Barrier>,
    pub tokens: Vec<Token>,
}

impl GameMap {
    /// Cell coordinates are small enough to convert exactly.
    pub open spec fn wf(&self) -> bool {
        &&& forall|i: int| 0 <= i < self.tiles@.len() ==> (#[trigger] self.tiles@[i]).col <= i32::MAX
            && self.tiles@[i].row <= i32::MAX
        &&& forall|i: int, c: int|
            0 <= i < self.tiles@.len() && 0 <= c < self.tiles@[i].definition.cities@.len() ==> (
            #[trigger] self.tiles@[i].definition.cities@[c]).wf()
        &&& forall|i: int| 0 <= i < self.barriers@.len() ==> (#[trigger] self.barriers@[i]).col <= i32::MAX
            && self.barriers@[i].row <= i32::MAX
    }
}

/// The tile shown at a cell: the one laid there last.
pub open spec fn top_at(tiles: Seq<PlacedTile>, col: u32, row: u32) -> Option<usize>
    decreases tiles.len(),
{
    if tiles.len() == 0 {
        None
    } else if tiles.last().col == col && tiles.last().row == row {
        Some((tiles.len() - 1) as usize)
    } else {
        top_at(tiles.drop_last(), col, row)
    }
}

/// Finds the tile shown at (`col`, `row`), if any.
pub fn top_tile(tiles: &Vec<PlacedTile>, col: u32, row: u32) -> (r: Option<usize>)
    ensures
        r == top_at(tiles@, col, row),
        r matches Some(i) ==> i < tiles@.len() && tiles@[i as int].col == col && tiles@[i as int].row == row,
{
    let mut i: usize = tiles.len();
    assert(tiles@.take(i as int) =~= tiles@);
    while i > 0
        invariant
            i <= tiles@.len(),
            top_at(tiles@, col, row) == top_at(tiles@.take(i as int), col, row),
        decreases i,
    {
        assert(tiles@.take(i as int).drop_last() =~= tiles@.take(i - 1));
        if tiles[i - 1].col == col && tiles[i - 1].row == row {
            return Some(i - 1);
        }
        i -= 1;
    }
    None
}

/// Offset of circle `i` of a city with `n` circles from the city's centre, in
/// thousandths of a hex unit, before the tile's rotation.
pub open spec fn circle_offset_of(n: nat, i: nat) -> Offset {
    if n == 1 {
        Offset { x: 0, y: 0 }
    } else if n == 2 {
        if i == 0 { Offset { x: -250i32, y: 0 } } else { Offset { x: 250, y: 0 } }
    } else if n == 3 {
        if i == 0 { Offset { x: 0, y: -250i32 } }
        else if i == 1 { Offset { x: -250i32, y: 200 } }
        else { Offset { x: 250, y: 200 } }
    } else if n == 4 {
        if i == 0 { Offset { x: -250i32, y: -250i32 } }
        else if i == 1 { Offset { x: 250, y: -250i32 } }
        else if i == 2 { Offset { x: -250i32, y: 250 } }
        else { Offset { x: 250, y: 250 } }
    } else if n == 5 {
        if i == 0 { Offset { x: 0, y: 0 } }
        else if i == 1 { Offset { x: -300i32, y: -300i32 } }
        else if i == 2 { Offset { x: 300, y: -300i32 } }
        else if i == 3 { Offset { x: -300i32, y: 300 } }
        else { Offset { x: 300, y: 300 } }
    } else {
        if i == 0 { Offset { x: -500i32, y: -250i32 } }
        else if i == 1 { Offset { x: 0, y: -250i32 } }
        else if i == 2 { Offset { x: 500, y: -250i32 } }
        else if i == 3 { Offset { x: -500i32, y: 250 } }
        else if i == 4 { Offset { x: 0, y: 250 } }
        else { Offset { x: 500, y: 250 } }
    }
}

/// The offset of circle `index` of a city with `circles` circles.
pub fn circle_offset(circles: u8, index: usize) -> (r: Offset)
    requires
        1 <= circles <= 6,
        index < circles,
    ensures
        r == circle_offset_of(circles as nat, index as nat),
{
    if circles == 1 {
        Offset { x: 0, y: 0 }
    } else if circles == 2 {
        if index == 0 { Offset { x: -250, y: 0 } } else { Offset { x: 250, y: 0 } }
    } else if circles == 3 {
        if index == 0 { Offset { x: 0, y: -250 } }
        else if index == 1 { Offset { x: -250, y: 200 } }
        else { Offset { x: 250, y: 200 } }
    } else if circles == 4 {
        if index == 0 { Offset { x: -250, y: -250 } }
        else if index == 1 { Offset { x: 250, y: -250 } }
        else if index == 2 { Offset { x: -250, y: 250 } }
        else { Offset { x: 250, y: 250 } }
    } else if circles == 5 {
        if index == 0 { Offset { x: 0, y: 0 } }
        else if index == 1 { Offset { x: -300, y: -300 } }
        else if index == 2 { Offset { x: 300, y: -300 } }
        else if index == 3 { Offset { x: -300, y: 300 } }
        else { Offset { x: 300, y: 300 } }
    } else {
        if index == 0 { Offset { x: -500, y: -250 } }
        else if index == 1 { Offset { x: 0, y: -250 } }
        else if index == 2 { Offset { x: 500, y: -250 } }
        else if index == 3 { Offset { x: -500, y: 250 } }
        else if index == 4 { Offset { x: 0, y: 250 } }
        else { Offset { x: 500, y: 250 } }
    }
}

/// In a city of one to six circles, different circles sit at different places.
pub proof fn lemma_circles_distinct(n: nat, i: nat, j: nat)
    requires
        1 <= n <= 6,
        i < n,
        j < n,
        i != j,
    ensures
        circle_offset_of(n, i) != circle_offset_of(n, j),
{
}

/// Something drawn at an exact page position: the index of the tile or
/// barrier, and the centre of its cell.
#[derive(Clone, Copy, Debug, PartialEq, Eq, Structural)]
pub struct Placement {
    pub index: usize,
    pub x: Surd,
    pub y: Surd,
}

/// A token resolved to its tile, city and circle.
#[derive(Clone, Copy, Debug, PartialEq, Eq, Structural)]
pub struct TokenPlacement {
    /// Index of the token in the map.
    pub token: usize,
    /// Index of the tile shown at the token's cell.
    pub tile: usize,
    /// Centre of the cell.
    pub x: Surd,
    pub y: Surd,
    /// The city's offset within the tile, before the tile's rotation.
    pub city: Offset,
    /// The circle's offset from the city, before the tile's rotation.
    pub circle: Offset,
    /// The tile's rotation in sixths of a turn.
    pub rotation: u8,
    /// Rotation of the token's label about the city, on vertical maps.
    pub label_rotation: Option<i32>,
}

/// Everything a map page shows, with exact positions.
#[derive(Clone, Debug)]
pub struct MapPlan {
    pub width: Surd,
    pub height: Surd,
    pub tiles: Vec<Placement>,
    pub barriers: Vec<Placement>,
    pub tokens: Vec<TokenPlacement>,
    pub coordinate_axes: bool,
}

pub open spec fn is_top(tiles: Seq<PlacedTile>, i: int) -> bool {
    top_at(tiles, tiles[i].col, tiles[i].row) == Some(i as usize)
}

/// The indices of the tiles among the first `n` that are shown, in order.
pub open spec fn shown(tiles: Seq<PlacedTile>, n: nat) -> Seq<usize>
    decreases n,
{
    if n == 0 {
        Seq::empty()
    } else if is_top(tiles, n - 1) {
        shown(tiles, (n - 1) as nat).push((n - 1) as usize)
    } else {
        shown(tiles, (n - 1) as nat)
    }
}

pub open spec fn tile_placement(m: GameMap, i: usize) -> Placement {
    let (x, y) = cell_position_of(m.tiles@[i as int].col as int, m.tiles@[i as int].row as int, m.orientation);
    Placement { index: i, x, y }
}

pub open spec fn barrier_placement(m: GameMap, i: int) -> Placement {
    let (x, y) = cell_position_of(m.barriers@[i].col as int, m.barriers@[i].row as int, m.orientation);
    Placement { index: i as usize, x, y }
}

/// How token `k` resolves, or the error that stops the map.
pub open spec fn token_result(m: GameMap, k: int) -> Result<TokenPlacement, RenderError> {
    let t = m.tokens@[k];
    match top_at(m.tiles@, t.col, t.row) {
        None => Err(RenderError::MissingTile(t.col, t.row)),
        Some(ti) => {
            let tile = m.tiles@[ti as int];
            if t.station >= tile.definition.cities@.len() {
                Err(RenderError::MissingCity(k as usize))
            } else {
                let city = tile.definition.cities@[t.station as int];
                if t.circle >= city.circles {
                    Err(RenderError::MissingCircle(k as usize))
                } else {
                    let (x, y) = cell_position_of(tile.col as int, tile.row as int, m.orientation);
                    Ok(TokenPlacement {
                        token: k as usize,
                        tile: ti,
                        x,
                        y,
                        city: city.position,
                        circle: circle_offset_of(city.circles as nat, t.circle as nat),
                        rotation: tile.rotation % 6,
                        label_rotation: if m.orientation == Orientation::Vertical { Some(-30i32) } else { None },
                    })
                }
            }
        },
    }
}

fn resolve_token(m: &GameMap, k: usize) -> (r: Result<TokenPlacement, RenderError>)
    requires
        m.wf(),
        k < m.tokens@.len(),
    ensures
        r == token_result(*m, k as int),
{
    let t = &m.tokens[k];
    match top_tile(&m.tiles, t.col, t.row) {
        None => Err(RenderError::MissingTile(t.col, t.row)),
        Some(ti) => {
            let tile = &m.tiles[ti];
            if t.station >= tile.definition.cities.len() {
                return Err(RenderError::MissingCity(k));
            }
            let city = &tile.definition.cities[t.station];
            assert(city.wf());
            if t.circle >= city.circles as usize {
                return Err(RenderError::MissingCircle(k));
            }
            let (x, y) = cell_position(tile.col, tile.row, m.orientation);
            let label_rotation = match m.orientation {
                Orientation::Vertical => Some(-30i32),
                Orientation::Horizontal => None,
            };
            Ok(TokenPlacement {
                token: k,
                tile: ti,
                x,
                y,
                city: city.position,
                circle: circle_offset(city.circles, t.circle),
                rotation: tile.rotation % 6,
                label_rotation,
            })
        },
    }
}

/// Whether `plan` is the page of `m`: its exact size, the shown tiles in the
/// order they were laid, every barrier and every resolved token.
pub open spec fn planned(m: GameMap, axes: bool, plan: MapPlan) -> bool {
    &&& (plan.width, plan.height) == page_size_of(m.width as int, m.height as int, m.orientation)
    &&& plan.coordinate_axes == axes
    &&& plan.tiles@.len() == shown(m.tiles@, m.tiles@.len()).len()
    &&& forall|i: int| 0 <= i < plan.tiles@.len() ==> #[trigger] plan.tiles@[i] == tile_placement(
        m,
        shown(m.tiles@, m.tiles@.len())[i],
    )
    &&& plan.barriers@.len() == m.barriers@.len()
    &&& forall|i: int| 0 <= i < plan.barriers@.len() ==> #[trigger] plan.barriers@[i] == barrier_placement(m, i)
    &&& plan.tokens@.len() == m.tokens@.len()
    &&& forall|k: int|
        0 <= k < plan.tokens@.len() ==> token_result(m, k) == Ok::<TokenPlacement, RenderError>(
            #[trigger] plan.tokens@[k],
        )
}

/// A map has one page: two plans of one map agree in every part.
pub proof fn lemma_plan_deterministic(m: GameMap, axes: bool, a: MapPlan, b: MapPlan)
    requires
        planned(m, axes, a),
        planned(m, axes, b),
    ensures
        a.width == b.width,
        a.height == b.height,
        a.coordinate_axes == b.coordinate_axes,
        a.tiles@ == b.tiles@,
        a.barriers@ == b.barriers@,
        a.tokens@ == b.tokens@,
{
    assert(a.tiles@ =~= b.tiles@);
    assert(a.barriers@ =~= b.barriers@);
    assert forall|k: int| 0 <= k < a.tokens@.len() implies a.tokens@[k] == b.tokens@[k] by {
        assert(token_result(m, k) == Ok::<TokenPlacement, RenderError>(a.tokens@[k]));
        assert(token_result(m, k) == Ok::<TokenPlacement, RenderError>(b.tokens@[k]));
    }
    assert(a.tokens@ =~= b.tokens@);
}

/// Plans a map page: its exact size, the tile shown at each occupied cell,
/// each barrier, and each token at its circle, or the first token that does
/// not resolve.
pub fn draw_map(m: &GameMap, options: &Options) -> (r: Result<MapPlan, RenderError>)
    requires
        m.wf(),
    ensures
        r is Ok <==> forall|k: int| 0 <= k < m.tokens@.len() ==> (#[trigger] token_result(*m, k)) is Ok,
        r matches Err(e) ==> exists|k: int|
            0 <= k < m.tokens@.len() && token_result(*m, k) == Err::<TokenPlacement, RenderError>(e)
                && forall|j: int| 0 <= j < k ==> (#[trigger] token_result(*m, j)) is Ok,
        r matches Ok(plan) ==> planned(*m, options.debug_coordinates, plan),
{
    let (width, height) = page_size(m.width, m.height, m.orientation);

    let mut tiles: Vec<Placement> = Vec::new();
    let mut i: usize = 0;
    while i < m.tiles.len()
        invariant
            m.wf(),
            i <= m.tiles@.len(),
            tiles@.len() == shown(m.tiles@, i as nat).len(),
            forall|j: int| 0 <= j < tiles@.len() ==> #[trigger] tiles@[j] == tile_placement(*m, shown(m.tiles@, i as nat)[j]),
        decreases m.tiles.len() - i,
    {
        let tile = &m.tiles[i];
        let top = top_tile(&m.tiles, tile.col, tile.row);
        if top == Some(i) {
            assert(tile.col <= i32::MAX && tile.row <= i32::MAX);
            let (x, y) = cell_position(tile.col, tile.row, m.orientation);
            tiles.push(Placement { index: i, x, y });
        }
        i += 1;
    }

    let mut barriers: Vec<Placement> = Vec::new();
    let mut b: usize = 0;
    while b < m.barriers.len()
        invariant
            m.wf(),
            b <= m.barriers@.len(),
            barriers@.len() == b,
            forall|j: int| 0 <= j < b ==> #[trigger] barriers@[j] == barrier_placement(*m, j),
        decreases m.barriers.len() - b,
    {
        let barrier = &m.barriers[b];
        assert(barrier.col <= i32::MAX && barrier.row <= i32::MAX);
        let (x, y) = cell_position(barrier.col, barrier.row, m.orientation);
        barriers.push(Placement { index: b, x, y });
        b += 1;
    }

    let mut tokens: Vec<TokenPlacement> = Vec::new();
    let mut k: usize = 0;
    while k < m.tokens.len()
        invariant
            m.wf(),
            k <= m.tokens@.len(),
            tokens@.len() == k,
            forall|j: int| 0 <= j < k ==> token_result(*m, j) == Ok::<TokenPlacement, RenderError>(#[trigger] tokens@[j]),
        decreases m.tokens.len() - k,
    {
        match resolve_token(m, k) {
            Ok(p) => tokens.push(p),
            Err(e) => {
                assert forall|j: int| 0 <= j < k implies (#[trigger] token_result(*m, j)) is Ok by {
                    assert(token_result(*m, j) == Ok::<TokenPlacement, RenderError>(tokens@[j]));
                }
                return Err(e);
            },
        }
        k += 1;
    }
    assert forall|j: int| 0 <= j < m.tokens@.len() implies (#[trigger] token_result(*m, j)) is Ok by {
        assert(token_result(*m, j) == Ok::<TokenPlacement, RenderError>(tokens@[j]));
    }
    Ok(MapPlan { width, height, tiles, barriers, tokens, coordinate_axes: options.debug_coordinates })
}

} // verus!
