use vstd::prelude::*;
use crate::manifest::{Manifest, RenderError};

verus! {

/// Tiles on one printed page.
pub const TILES_PER_PAGE: u32 = 30;

/// Tiles in one column of a printed page.
pub const TILES_PER_COL: u32 = 6;

/// Where one tile instance lands on its page.
#[derive(Clone, Copy, Debug, PartialEq, Eq, Structural)]
pub struct SheetSlot {
    /// Index of the tile in the manifest.
    pub tile: usize,
    pub column: u32,
    pub row: u32,
}

/// The tile index of every instance, each tile repeated by its count.
pub open spec fn instances(counts: Seq<u32>) -> Seq<usize>
    decreases counts.len(),
{
    if counts.len() == 0 {
        Seq::empty()
    } else {
        instances(counts.drop_last()) + Seq::new(
            counts.last() as nat,
            |k: int| (counts.len() - 1) as usize,
        )
    }
}

pub open spec fn page_count(k: nat) -> nat {
    ((k + 29) / 30) as nat
}

/// How many instances page `p` holds when there are `k` in all.
pub open spec fn page_len(k: nat, p: nat) -> nat {
    if p + 1 < page_count(k) { 30 } else { (k - 30 * p) as nat }
}

/// The place of instance number `n` on its page.
pub open spec fn slot_of(tile: usize, n: nat) -> SheetSlot {
    SheetSlot { tile, column: ((n % 30) / 6) as u32, row: (n % 6) as u32 }
}

/// The pages for these tile counts: each page in order, each holding the
/// instances that fall on it.
pub open spec fn paginated(counts: Seq<u32>, pages: Seq<Seq<SheetSlot>>) -> bool {
    let inst = instances(counts);
    &&& pages.len() == page_count(inst.len())
    &&& forall|p: int| 0 <= p < pages.len() ==> (#[trigger] pages[p]).len() == page_len(inst.len(), p as nat)
    &&& forall|p: int, i: int|
        0 <= p < pages.len() && 0 <= i < pages[p].len() ==> #[trigger] pages[p][i] == slot_of(
            inst[30 * p + i],
            (30 * p + i) as nat,
        )
}

/// One set of counts has one layout: two paginations of it agree page by page.
pub proof fn lemma_pages_deterministic(counts: Seq<u32>, a: Seq<Seq<SheetSlot>>, b: Seq<Seq<SheetSlot>>)
    requires
        paginated(counts, a),
        paginated(counts, b),
    ensures
        a == b,
{
    assert forall|p: int| 0 <= p < a.len() implies a[p] == b[p] by {
        assert(a[p] =~= b[p]);
    }
    assert(a =~= b);
}

/// With `k` instances in all, a layout has the least number of pages that
/// hold them at thirty a page: none for no instances; its last page holds the
/// remainder of `k` by thirty, or a full thirty when that remainder is zero.
pub proof fn lemma_page_count(counts: Seq<u32>, pages: Seq<Seq<SheetSlot>>)
    requires
        paginated(counts, pages),
    ensures
        pages.len() * 30 >= instances(counts).len(),
        instances(counts).len() == 0 ==> pages.len() == 0,
        instances(counts).len() > 0 ==> (pages.len() - 1) * 30 < instances(counts).len(),
        instances(counts).len() > 0 && instances(counts).len() % 30 != 0 ==> pages.last().len()
            == instances(counts).len() % 30,
        instances(counts).len() > 0 && instances(counts).len() % 30 == 0 ==> pages.last().len() == 30,
{
    let k = instances(counts).len();
    if k > 0 {
        assert(pages.last() == pages[pages.len() - 1]);
    }
}

proof fn lemma_instances_push(counts: Seq<u32>, c: u32)
    ensures
        instances(counts.push(c)) == instances(counts) + Seq::new(c as nat, |k: int| counts.len() as usize),
{
    assert(counts.push(c).drop_last() =~= counts);
}

/// Lays out every instance of every tile on pages of thirty, six per column.
pub fn paginate(counts: &Vec<u32>) -> (pages: Vec<Vec<SheetSlot>>)
    requires
        instances(counts@).len() <= usize::MAX,
    ensures
        paginated(counts@, pages@.map_values(|v: Vec<SheetSlot>| v@)),
{
    let mut pages: Vec<Vec<SheetSlot>> = Vec::new();
    let mut cur: Vec<SheetSlot> = Vec::new();
    let mut n: usize = 0;
    let ghost mut seen: Seq<usize> = Seq::empty();
    let mut t: usize = 0;
    while t < counts.len()
        invariant
            t <= counts@.len(),
            instances(counts@).len() <= usize::MAX,
            seen == instances(counts@.take(t as int)),
            n == seen.len(),
            pages@.len() == n / 30,
            cur@.len() == n % 30,
            forall|p: int| 0 <= p < pages@.len() ==> (#[trigger] pages@[p])@.len() == 30,
            forall|p: int, i: int|
                0 <= p < pages@.len() && 0 <= i < 30 ==> #[trigger] pages@[p]@[i] == slot_of(
                    seen[30 * p + i],
                    (30 * p + i) as nat,
                ),
            forall|i: int|
                0 <= i < cur@.len() ==> #[trigger] cur@[i] == slot_of(
                    seen[30 * (n / 30) + i],
                    (30 * (n / 30) + i) as nat,
                ),
        decreases counts.len() - t,
    {
        proof {
            lemma_instances_push(counts@.take(t as int), counts@[t as int]);
            assert(counts@.take(t + 1) =~= counts@.take(t as int).push(counts@[t as int]));
            lemma_instances_prefix(counts@, t + 1);
        }
        let ghost goal = instances(counts@.take(t + 1));
        let c = counts[t];
        let mut j: u32 = 0;
        while j < c
            invariant
                j <= c,
                t < counts@.len(),
                c == counts@[t as int],
                goal == instances(counts@.take(t as int)) + Seq::new(c as nat, |k: int| t),
                goal.len() <= usize::MAX,
                seen == instances(counts@.take(t as int)) + Seq::new(j as nat, |k: int| t),
                n == seen.len(),
                pages@.len() == n / 30,
                cur@.len() == n % 30,
                forall|p: int| 0 <= p < pages@.len() ==> (#[trigger] pages@[p])@.len() == 30,
                forall|p: int, i: int|
                    0 <= p < pages@.len() && 0 <= i < 30 ==> #[trigger] pages@[p]@[i] == slot_of(
                        seen[30 * p + i],
                        (30 * p + i) as nat,
                    ),
                forall|i: int|
                    0 <= i < cur@.len() ==> #[trigger] cur@[i] == slot_of(
                        seen[30 * (n / 30) + i],
                        (30 * (n / 30) + i) as nat,
                    ),
            decreases c - j,
        {
            let ghost old_seen = seen;
            let column = ((n % 30) / 6) as u32;
            let row = (n % 6) as u32;
            cur.push(SheetSlot { tile: t, column, row });
            proof {
                seen = seen.push(t);
                assert(seen =~= instances(counts@.take(t as int)) + Seq::new((j + 1) as nat, |k: int| t));
                assert(forall|m: int| 0 <= m < old_seen.len() ==> seen[m] == old_seen[m]);
            }
            n = n + 1;
            j = j + 1;
            if cur.len() == 30 {
                pages.push(cur);
                cur = Vec::new();
            }
        }
        proof {
            assert(seen =~= goal);
        }
        t = t + 1;
    }
    assert(counts@.take(counts@.len() as int) =~= counts@);
    if cur.len() > 0 {
        pages.push(cur);
    }
    pages
}

proof fn lemma_instances_prefix(counts: Seq<u32>, t: int)
    requires
        0 <= t <= counts.len(),
    ensures
        instances(counts.take(t)).len() <= instances(counts).len(),
    decreases counts.len(),
{
    if t < counts.len() {
        assert(counts.drop_last().take(t) =~= counts.take(t));
        lemma_instances_prefix(counts.drop_last(), t);
    } else {
        assert(counts.take(t) =~= counts);
    }
}

/// The number of instances of all tiles together.
pub open spec fn total(counts: Seq<u32>) -> nat
    decreases counts.len(),
{
    if counts.len() == 0 {
        0
    } else {
        total(counts.drop_last()) + counts.last() as nat
    }
}

proof fn lemma_instances_len(counts: Seq<u32>)
    ensures
        instances(counts).len() == total(counts),
    decreases counts.len(),
{
    if counts.len() > 0 {
        lemma_instances_len(counts.drop_last());
    }
}

/// Adds up the counts, or `None` where the sum does not fit in a `usize`.
fn checked_total(counts: &Vec<u32>) -> (r: Option<usize>)
    ensures
        r matches Some(n) ==> n == total(counts@),
        r is None ==> total(counts@) > usize::MAX,
{
    let mut sum: usize = 0;
    let mut i: usize = 0;
    while i < counts.len()
        invariant
            i <= counts@.len(),
            sum == total(counts@.take(i as int)),
        decreases counts.len() - i,
    {
        assert(counts@.take(i + 1).drop_last() =~= counts@.take(i as int));
        proof {
            lemma_total_prefix(counts@, i + 1);
        }
        if sum > usize::MAX - counts[i] as usize {
            return None;
        }
        sum = sum + counts[i] as usize;
        i += 1;
    }
    assert(counts@.take(counts@.len() as int) =~= counts@);
    Some(sum)
}

proof fn lemma_total_prefix(counts: Seq<u32>, t: int)
    requires
        0 <= t <= counts.len(),
    ensures
        total(counts.take(t)) <= total(counts),
    decreases counts.len(),
{
    if t < counts.len() {
        assert(counts.drop_last().take(t) =~= counts.take(t));
        lemma_total_prefix(counts.drop_last(), t);
    } else {
        assert(counts.take(t) =~= counts);
    }
}

/// Lays out a manifest's tiles, each as many times as its amount, on
/// printable pages.
pub fn draw_tile_sheets(manifest: &Manifest) -> (r: Result<Vec<Vec<SheetSlot>>, RenderError>)
    ensures
        r matches Err(RenderError::MissingAmount(_)) <==> !manifest.complete(),
        r matches Err(e) ==> e is MissingAmount || e is TooManyTiles,
        r matches Err(RenderError::MissingAmount(name)) ==> exists|i: int|
            0 <= i < manifest.tiles@.len() && manifest.amount_of(i) is None && name == manifest.tiles@[i].name
                && forall|j: int| 0 <= j < i ==> (#[trigger] manifest.amount_of(j)) is Some,
        r is Ok <==> manifest.complete() && total(manifest.counts()) <= usize::MAX,
        r matches Ok(pages) ==> paginated(manifest.counts(), pages@.map_values(|v: Vec<SheetSlot>| v@)),
{
    let counts = match manifest.tile_counts() {
        Ok(c) => c,
        Err(e) => return Err(e),
    };
    assert(counts@ =~= manifest.counts());
    match checked_total(&counts) {
        None => Err(RenderError::TooManyTiles),
        Some(_) => {
            proof {
                lemma_instances_len(counts@);
            }
            Ok(paginate(&counts))
        },
    }
}

} // verus!
