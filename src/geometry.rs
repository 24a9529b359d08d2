use vstd::prelude::*;

verus! {

/// The hex convention of a map: flat-top (`Horizontal`) or pointy-top (`Vertical`).
#[derive(Clone, Copy, Debug, PartialEq, Eq, Structural)]
pub enum Orientation {
    Horizontal,
    Vertical,
}

/// A cube coordinate; well-formed values satisfy `x + y + z == 0`.
#[derive(Clone, Copy, Debug, PartialEq, Eq, Structural)]
pub struct Cube {
    pub x: i64,
    pub y: i64,
    pub z: i64,
}

impl Cube {
    pub open spec fn wf(self) -> bool {
        self.x + self.y + self.z == 0
    }
}

/// Mathematical floor of `a / 2`.
pub open spec fn floor_half(a: int) -> int {
    if a >= 0 { a / 2 } else { -((1 - a) / 2) }
}

/// The cube coordinate of grid cell (`col`, `row`) on a map of orientation `o`.
pub open spec fn cube_of(col: int, row: int, o: Orientation) -> (int, int, int) {
    match o {
        Orientation::Vertical => {
            let x = col - floor_half(row);
            (x, -x - row, row)
        },
        Orientation::Horizontal => {
            let z = row - floor_half(col);
            (col, -col - z, z)
        },
    }
}

/// Floor of half an `i32`, exact also for negative odd values.
fn half_floor(a: i32) -> (r: i64)
    ensures
        r as int == floor_half(a as int),
        2 * r <= a <= 2 * r + 1,
{
    let a64 = a as i64;
    if a64 >= 0 {
        a64 / 2
    } else {
        -((1 - a64) / 2)
    }
}

/// Converts an offset-grid position to its cube coordinate.
pub fn convert_coord(col: i32, row: i32, orientation: Orientation) -> (c: Cube)
    ensures
        c.wf(),
        (c.x as int, c.y as int, c.z as int) == cube_of(col as int, row as int, orientation),
{
    match orientation {
        Orientation::Vertical => {
            let x = col as i64 - half_floor(row);
            let z = row as i64;
            Cube { x, y: -x - z, z }
        },
        Orientation::Horizontal => {
            let x = col as i64;
            let z = row as i64 - half_floor(col);
            Cube { x, y: -x - z, z }
        },
    }
}

/// An exact length `(rational + root3 * sqrt(3)) / 20`, in hex units.
#[derive(Clone, Copy, Debug, PartialEq, Eq, Structural)]
pub struct Surd {
    pub rational: i64,
    pub root3: i64,
}

pub open spec fn surd(rational: int, root3: int) -> Surd {
    Surd { rational: rational as i64, root3: root3 as i64 }
}

pub open spec fn surd_neg(a: Surd) -> Surd {
    surd(-a.rational, -a.root3)
}

pub open spec fn surd_add(a: Surd, b: Surd) -> Surd {
    surd(a.rational + b.rational, a.root3 + b.root3)
}

pub open spec fn surd_times(a: Surd, k: int) -> Surd {
    surd(a.rational * k, a.root3 * k)
}

/// A 2x3 matrix taking a cube vector to screen space.
#[derive(Clone, Copy, Debug, PartialEq, Eq, Structural)]
pub struct Basis {
    pub xx: Surd,
    pub xy: Surd,
    pub xz: Surd,
    pub yx: Surd,
    pub yy: Surd,
    pub yz: Surd,
}

/// The product of a quarter turn `[[0, -1], [1, 0]]` with a basis.
pub open spec fn quarter_turn(b: Basis) -> Basis {
    Basis { xx: surd_neg(b.yx), xy: surd_neg(b.yy), xz: surd_neg(b.yz), yx: b.xx, yy: b.xy, yz: b.xz }
}

pub open spec fn horizontal_basis() -> Basis {
    Basis {
        xx: surd(15, 0),
        xy: surd(0, 0),
        xz: surd(0, 0),
        yx: surd(0, 0),
        yy: surd(0, -10),
        yz: surd(0, 10),
    }
}

pub open spec fn basis_of(o: Orientation) -> Basis {
    match o {
        Orientation::Horizontal => horizontal_basis(),
        Orientation::Vertical => quarter_turn(horizontal_basis()),
    }
}

/// The basis vectors of an orientation.
pub fn basis(orientation: Orientation) -> (r: Basis)
    ensures
        r == basis_of(orientation),
{
    let z = Surd { rational: 0, root3: 0 };
    match orientation {
        Orientation::Horizontal => Basis {
            xx: Surd { rational: 15, root3: 0 },
            xy: z,
            xz: z,
            yx: z,
            yy: Surd { rational: 0, root3: -10 },
            yz: Surd { rational: 0, root3: 10 },
        },
        Orientation::Vertical => Basis {
            xx: z,
            xy: Surd { rational: 0, root3: 10 },
            xz: Surd { rational: 0, root3: -10 },
            yx: Surd { rational: 15, root3: 0 },
            yy: z,
            yz: z,
        },
    }
}

/// The vertical basis is the horizontal one turned a quarter turn.
pub proof fn lemma_vertical_basis_turned()
    ensures
        basis_of(Orientation::Vertical) == quarter_turn(basis_of(Orientation::Horizontal)),
{
}

/// `b` applied to the vector `(a, c, d)`.
pub open spec fn apply(b: Basis, a: int, c: int, d: int) -> (Surd, Surd) {
    (
        surd_add(surd_add(surd_times(b.xx, a), surd_times(b.xy, c)), surd_times(b.xz, d)),
        surd_add(surd_add(surd_times(b.yx, a), surd_times(b.yy, c)), surd_times(b.yz, d)),
    )
}

/// Width of a page border, in twentieths of a hex unit.
pub const BORDER: i64 = 10;

/// Where the centre of cell (0, 0) is put on the page.
pub open spec fn page_offset(o: Orientation) -> (Surd, Surd) {
    match o {
        Orientation::Horizontal => (surd(BORDER + 20int, 0), surd(BORDER as int, 10)),
        Orientation::Vertical => (surd(BORDER as int, 10), surd(BORDER + 20int, 0)),
    }
}

/// The page position of a cell's centre: its cube coordinate with `x` doubled,
/// through the basis, shifted by the page offset.
pub open spec fn cell_position_of(col: int, row: int, o: Orientation) -> (Surd, Surd) {
    let (x, y, z) = cube_of(col, row, o);
    let p = apply(basis_of(o), 2 * x, y, z);
    (surd_add(page_offset(o).0, p.0), surd_add(page_offset(o).1, p.1))
}

/// The page position of the centre of cell (`col`, `row`).
pub fn cell_position(col: u32, row: u32, orientation: Orientation) -> (r: (Surd, Surd))
    requires
        col <= i32::MAX,
        row <= i32::MAX,
    ensures
        r == cell_position_of(col as int, row as int, orientation),
{
    let c = convert_coord(col as i32, row as i32, orientation);
    proof {
        assert(-0x1_0000_0000 <= c.x <= 0x1_0000_0000);
        assert(-0x1_0000_0000 <= c.y <= 0x1_0000_0000);
        assert(-0x1_0000_0000 <= c.z <= 0x1_0000_0000);
        lemma_apply_basis(orientation, 2 * c.x, c.y as int, c.z as int);
    }
    match orientation {
        Orientation::Horizontal => (
            Surd { rational: BORDER + 20 + 30 * c.x, root3: 0 },
            Surd { rational: BORDER, root3: 10 - 10 * c.y + 10 * c.z },
        ),
        Orientation::Vertical => (
            Surd { rational: BORDER, root3: 10 + 10 * c.y - 10 * c.z },
            Surd { rational: BORDER + 20 + 30 * c.x, root3: 0 },
        ),
    }
}

proof fn lemma_apply_basis(o: Orientation, a: int, c: int, d: int)
    requires
        -0x10_0000_0000 <= a <= 0x10_0000_0000,
        -0x10_0000_0000 <= c <= 0x10_0000_0000,
        -0x10_0000_0000 <= d <= 0x10_0000_0000,
    ensures
        o == Orientation::Horizontal ==> apply(basis_of(o), a, c, d) == (surd(15 * a, 0), surd(0, -10 * c + 10 * d)),
        o == Orientation::Vertical ==> apply(basis_of(o), a, c, d) == (surd(0, 10 * c - 10 * d), surd(15 * a, 0)),
{
    let b = basis_of(o);
    if o == Orientation::Horizontal {
        assert(b.xx.rational * a == 15 * a);
        assert(b.xx.root3 * a == 0 * a);
        assert(b.xy.rational * c == 0 * c);
        assert(b.xy.root3 * c == 0 * c);
        assert(b.xz.rational * d == 0 * d);
        assert(b.xz.root3 * d == 0 * d);
        assert(b.yx.rational * a == 0 * a);
        assert(b.yx.root3 * a == 0 * a);
        assert(b.yy.rational * c == 0 * c);
        assert(b.yy.root3 * c == -10 * c);
        assert(b.yz.rational * d == 0 * d);
        assert(b.yz.root3 * d == 10 * d);
    } else {
        assert(b.xx.rational * a == 0 * a);
        assert(b.xx.root3 * a == 0 * a);
        assert(b.xy.rational * c == 0 * c);
        assert(b.xy.root3 * c == 10 * c);
        assert(b.xz.rational * d == 0 * d);
        assert(b.xz.root3 * d == -10 * d);
        assert(b.yx.rational * a == 15 * a);
        assert(b.yx.root3 * a == 0 * a);
        assert(b.yy.rational * c == 0 * c);
        assert(b.yy.root3 * c == 0 * c);
        assert(b.yz.rational * d == 0 * d);
        assert(b.yz.root3 * d == 0 * d);
    }
}

/// Width and height of a map of `w` by `h` cells, before the border.
pub open spec fn extent_of(w: int, h: int, o: Orientation) -> (Surd, Surd) {
    match o {
        Orientation::Horizontal => (surd(30 * w, 6), surd(0, 10 + 20 * h)),
        Orientation::Vertical => (surd(0, 10 + 20 * w), surd(30 * h, 6)),
    }
}

/// Width and height of the page of a map of `width` by `height` cells,
/// border included on each side.
pub open spec fn page_size_of(w: int, h: int, o: Orientation) -> (Surd, Surd) {
    let (a, b) = extent_of(w, h, o);
    (surd_add(a, surd(2 * BORDER as int, 0)), surd_add(b, surd(2 * BORDER as int, 0)))
}

pub fn page_extent(width: u32, height: u32, orientation: Orientation) -> (r: (Surd, Surd))
    ensures
        r == extent_of(width as int, height as int, orientation),
{
    let w = width as i64;
    let h = height as i64;
    match orientation {
        Orientation::Horizontal => (Surd { rational: 30 * w, root3: 6 }, Surd { rational: 0, root3: 10 + 20 * h }),
        Orientation::Vertical => (Surd { rational: 0, root3: 10 + 20 * w }, Surd { rational: 30 * h, root3: 6 }),
    }
}

pub fn page_size(width: u32, height: u32, orientation: Orientation) -> (r: (Surd, Surd))
    ensures
        r == page_size_of(width as int, height as int, orientation),
{
    let (a, b) = page_extent(width, height, orientation);
    (
        Surd { rational: a.rational + 2 * BORDER, root3: a.root3 },
        Surd { rational: b.rational + 2 * BORDER, root3: b.root3 },
    )
}

/// Every converted coordinate lies on the plane `x + y + z == 0`.
pub proof fn lemma_cube_plane(col: int, row: int, o: Orientation)
    ensures
        cube_of(col, row, o).0 + cube_of(col, row, o).1 + cube_of(col, row, o).2 == 0,
{
}

/// Halving floors: shifting a row by a whole period of two shifts the cube
/// coordinate by exactly one column step, for negative rows as for positive.
pub proof fn lemma_floor_half_period(a: int)
    ensures
        floor_half(a + 2) == floor_half(a) + 1,
        2 * floor_half(a) <= a <= 2 * floor_half(a) + 1,
{
}

} // verus!
