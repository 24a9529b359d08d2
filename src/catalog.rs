use vstd::prelude::*;
use vstd::string::*;
use vstd::utf8::encode_utf8;
use crate::tile::TileDefinition;

verus! {

/// Tiles in one row of a catalog or manifest page.
pub const TILES_PER_ROW: u32 = 4;

/// Lexicographic order of two byte strings.
pub open spec fn lex_lt(a: Seq<u8>, b: Seq<u8>) -> bool
    decreases a.len(),
{
    if a.len() == 0 || b.len() == 0 {
        false
    } else if a[0] == b[0] {
        lex_lt(a.drop_first(), b.drop_first())
    } else {
        a[0] < b[0]
    }
}

/// Catalog order on UTF-8 encodings: shorter first, those of one length
/// lexicographically.
pub open spec fn name_lt(a: Seq<u8>, b: Seq<u8>) -> bool {
    a.len() < b.len() || (a.len() == b.len() && lex_lt(a, b))
}

proof fn lemma_lex_asym(a: Seq<u8>, b: Seq<u8>)
    ensures
        lex_lt(a, b) ==> !lex_lt(b, a),
    decreases a.len(),
{
    if a.len() > 0 && b.len() > 0 && a[0] == b[0] {
        lemma_lex_asym(a.drop_first(), b.drop_first());
    }
}

proof fn lemma_lex_trans(a: Seq<u8>, b: Seq<u8>, c: Seq<u8>)
    requires
        lex_lt(a, b),
        lex_lt(b, c),
    ensures
        lex_lt(a, c),
    decreases a.len(),
{
    if a[0] == b[0] && b[0] == c[0] {
        lemma_lex_trans(a.drop_first(), b.drop_first(), c.drop_first());
    }
}

/// Whether `a` comes before `b` in catalog order.
pub fn name_before(a: &String, b: &String) -> (r: bool)
    ensures
        r == name_lt(encode_utf8(a@), encode_utf8(b@)),
{
    let ab = a.as_str().as_bytes();
    let bb = b.as_str().as_bytes();
    if ab.len() != bb.len() {
        return ab.len() < bb.len();
    }
    let n = ab.len();
    let mut i: usize = 0;
    assert(ab@.skip(0) =~= ab@);
    assert(bb@.skip(0) =~= bb@);
    while i < n
        invariant
            ab@ == encode_utf8(a@),
            bb@ == encode_utf8(b@),
            n == ab@.len(),
            n == bb@.len(),
            i <= n,
            lex_lt(ab@, bb@) == lex_lt(ab@.skip(i as int), bb@.skip(i as int)),
        decreases n - i,
    {
        assert(ab@.skip(i as int).drop_first() =~= ab@.skip(i + 1));
        assert(bb@.skip(i as int).drop_first() =~= bb@.skip(i + 1));
        if ab[i] != bb[i] {
            assert(ab@.skip(i as int)[0] == ab@[i as int] && bb@.skip(i as int)[0] == bb@[i as int]);
            return ab[i] < bb[i];
        }
        i += 1;
    }
    false
}

/// Where a tile of a catalog or manifest page stands.
#[derive(Clone, Copy, Debug, PartialEq, Eq, Structural)]
pub struct GridEntry {
    /// Index of the tile in the list it comes from.
    pub tile: usize,
    pub column: u32,
    pub row: u32,
}

pub open spec fn grid_entry(tile: usize, n: nat) -> GridEntry {
    GridEntry { tile, column: (n % 4) as u32, row: (n / 4) as u32 }
}

pub fn grid_cell(tile: usize, n: usize) -> (r: GridEntry)
    ensures
        r == grid_entry(tile, n as nat),
{
    GridEntry { tile, column: (n % 4) as u32, row: (n / 4) as u32 }
}

proof fn lemma_name_asym(a: Seq<u8>, b: Seq<u8>)
    ensures
        name_lt(a, b) ==> !name_lt(b, a),
{
    lemma_lex_asym(a, b);
}

proof fn lemma_name_trans(a: Seq<u8>, b: Seq<u8>, c: Seq<u8>)
    requires
        name_lt(a, b),
        name_lt(b, c),
    ensures
        name_lt(a, c),
{
    if a.len() == b.len() && b.len() == c.len() {
        lemma_lex_trans(a, b, c);
    }
}

/// The sort key of tile `i`: the UTF-8 bytes of its name.
pub open spec fn key(defs: Seq<TileDefinition>, i: usize) -> Seq<u8> {
    encode_utf8(defs[i as int].name@)
}

/// Whether `order` lists every index below `n` once, in catalog order of the
/// names of `defs`.
pub open spec fn catalog_order(defs: Seq<TileDefinition>, order: Seq<usize>, n: nat) -> bool {
    &&& order.len() == n
    &&& forall|j: int| 0 <= j < order.len() ==> (#[trigger] order[j]) < n
    &&& forall|j: int, k: int| 0 <= j < k < order.len() ==> order[j] != order[k]
    &&& forall|j: int, k: int|
        #![trigger order[j], order[k]]
        0 <= j < k < order.len() ==> !name_lt(key(defs, order[k]), key(defs, order[j]))
}

/// The catalog order of `defs`: each index once, shorter names first, names
/// of equal length lexicographically.
pub fn sorted_names(defs: &Vec<TileDefinition>) -> (order: Vec<usize>)
    ensures
        catalog_order(defs@, order@, defs@.len()),
{
    let mut order: Vec<usize> = Vec::new();
    let mut i: usize = 0;
    while i < defs.len()
        invariant
            i <= defs@.len(),
            catalog_order(defs@, order@, i as nat),
        decreases defs.len() - i,
    {
        let mut pos: usize = 0;
        while pos < order.len() && !name_before(&defs[i].name, &defs[order[pos]].name)
            invariant
                pos <= order@.len(),
                order@.len() == i,
                i < defs@.len(),
                catalog_order(defs@, order@, i as nat),
                forall|j: int| 0 <= j < pos ==> !name_lt(key(defs@, i), #[trigger] key(defs@, order@[j])),
            decreases order.len() - pos,
        {
            pos += 1;
        }
        let ghost old_order = order@;
        order.insert(pos, i);
        proof {
            let n = order@;
            assert(n == old_order.insert(pos as int, i));
            assert forall|j: int, k: int|
                #![trigger n[j], n[k]]
                0 <= j < k < n.len() implies !name_lt(key(defs@, n[k]), key(defs@, n[j])) by {
                if k < pos {
                    assert(n[j] == old_order[j] && n[k] == old_order[k]);
                } else if k == pos {
                    assert(n[j] == old_order[j]);
                } else if j > pos {
                    assert(n[j] == old_order[j - 1] && n[k] == old_order[k - 1]);
                } else if j == pos {
                    assert(n[k] == old_order[k - 1]);
                    assert(name_lt(key(defs@, i), key(defs@, old_order[pos as int])));
                    lemma_name_asym(key(defs@, i), key(defs@, old_order[pos as int]));
                    if k - 1 > pos {
                        assert(!name_lt(key(defs@, old_order[k - 1]), key(defs@, old_order[pos as int])));
                    }
                    if name_lt(key(defs@, n[k]), key(defs@, i)) {
                        lemma_name_trans(key(defs@, n[k]), key(defs@, i), key(defs@, old_order[pos as int]));
                    }
                } else {
                    assert(n[j] == old_order[j] && n[k] == old_order[k - 1]);
                }
            }
            assert forall|j: int, k: int| 0 <= j < k < n.len() implies n[j] != n[k] by {
                if k < pos {
                    assert(n[j] == old_order[j] && n[k] == old_order[k]);
                } else if k == pos {
                    assert(n[j] == old_order[j]);
                } else if j > pos {
                    assert(n[j] == old_order[j - 1] && n[k] == old_order[k - 1]);
                } else if j == pos {
                    assert(n[k] == old_order[k - 1]);
                } else {
                    assert(n[j] == old_order[j] && n[k] == old_order[k - 1]);
                }
            }
            assert forall|j: int| 0 <= j < n.len() implies (#[trigger] n[j]) < i + 1 by {
                if j < pos {
                    assert(n[j] == old_order[j]);
                } else if j > pos {
                    assert(n[j] == old_order[j - 1]);
                }
            }
        }
        i += 1;
    }
    order
}

/// Lays a catalog out four tiles to a row, in catalog order.
pub fn draw_tile_definitions(defs: &Vec<TileDefinition>) -> (r: Vec<GridEntry>)
    ensures
        catalog_order(defs@, r@.map_values(|e: GridEntry| e.tile), defs@.len()),
        forall|n: int| 0 <= n < r@.len() ==> #[trigger] r@[n] == grid_entry(r@[n].tile, n as nat),
{
    let order = sorted_names(defs);
    let mut r: Vec<GridEntry> = Vec::new();
    let mut n: usize = 0;
    while n < order.len()
        invariant
            n <= order@.len(),
            r@.len() == n,
            forall|j: int| 0 <= j < n ==> #[trigger] r@[j] == grid_entry(order@[j], j as nat),
        decreases order.len() - n,
    {
        r.push(grid_cell(order[n], n));
        n += 1;
    }
    assert(r@.map_values(|e: GridEntry| e.tile) =~= order@);
    r
}

} // verus!
