use vstd::prelude::*;
use vstd::string::*;
use crate::geometry::Orientation;
use crate::tile::{TileDefinition, TileSpec};

verus! {

/// What one layer of a drawn tile shows.
#[derive(Clone, Copy, Debug, PartialEq, Eq, Structural)]
pub enum LayerKind {
    Background,
    PathContrast,
    CityContrast,
    Terrain,
    Lawson,
    Path,
    Stop,
    City,
    Arrow,
    Text,
    RevenueTrack,
    Outline,
}

/// One element of a drawn tile: its kind, the index of the feature it draws
/// among the tile's features of that kind, and for a label on a vertical map
/// the extra rotation in degrees about its own position.
#[derive(Clone, Copy, Debug, PartialEq, Eq, Structural)]
pub struct Layer {
    pub kind: LayerKind,
    pub index: usize,
    pub rotation: Option<i32>,
}

pub open spec fn single(kind: LayerKind) -> Seq<Layer> {
    seq![Layer { kind, index: 0, rotation: None }]
}

pub open spec fn indexed(kind: LayerKind, n: nat) -> Seq<Layer> {
    Seq::new(n, |i: int| Layer { kind, index: i as usize, rotation: None })
}

pub open spec fn optional(kind: LayerKind, present: bool) -> Seq<Layer> {
    if present { single(kind) } else { Seq::empty() }
}

/// Extra rotation of a label: none on a horizontal map; on a vertical map
/// -30 degrees, and for the tile number also the tile's placement rotation.
pub open spec fn text_rotation(id: Seq<char>, o: Orientation, sixths: nat) -> Option<i32> {
    match o {
        Orientation::Horizontal => None,
        Orientation::Vertical => if id == "number"@ {
            Some((-30 + 60 * sixths) as i32)
        } else {
            Some(-30i32)
        },
    }
}

pub open spec fn text_layers(d: TileDefinition, o: Orientation, sixths: nat) -> Seq<Layer> {
    Seq::new(
        d.text@.len(),
        |i: int| Layer { kind: LayerKind::Text, index: i as usize, rotation: text_rotation(d.text@[i].id@, o, sixths) },
    )
}

/// The layers of a tile, bottom first.
pub open spec fn layers_of(d: TileDefinition, o: Orientation, sixths: nat) -> Seq<Layer> {
    single(LayerKind::Background)
        + indexed(LayerKind::PathContrast, d.paths@.len())
        + indexed(LayerKind::CityContrast, d.cities@.len())
        + optional(LayerKind::Terrain, d.terrain is Some)
        + optional(LayerKind::Lawson, d.lawson)
        + indexed(LayerKind::Path, d.paths@.len())
        + indexed(LayerKind::Stop, d.stops@.len())
        + indexed(LayerKind::City, d.cities@.len())
        + indexed(LayerKind::Arrow, d.arrows@.len())
        + text_layers(d, o, sixths)
        + optional(LayerKind::RevenueTrack, d.revenue_track is Some)
        + single(LayerKind::Outline)
}

fn push_indexed(out: &mut Vec<Layer>, kind: LayerKind, n: usize)
    requires
        old(out)@.len() + n <= usize::MAX,
    ensures
        final(out)@ == old(out)@ + indexed(kind, n as nat),
{
    let ghost start = out@;
    let mut i: usize = 0;
    while i < n
        invariant
            i <= n,
            start.len() + n <= usize::MAX,
            out@ == start + indexed(kind, i as nat),
        decreases n - i,
    {
        out.push(Layer { kind, index: i, rotation: None });
        i += 1;
        assert(out@ =~= start + indexed(kind, i as nat));
    }
}

fn push_optional(out: &mut Vec<Layer>, kind: LayerKind, present: bool)
    ensures
        final(out)@ == old(out)@ + optional(kind, present),
{
    if present {
        out.push(Layer { kind, index: 0, rotation: None });
        assert(final(out)@ =~= old(out)@ + optional(kind, present));
    } else {
        assert(out@ =~= old(out)@ + optional(kind, present));
    }
}

/// Composes one tile, bottom layer first, for a map of the given orientation.
pub fn draw_tile(tile: &TileSpec, orientation: Orientation) -> (r: Vec<Layer>)
    requires
        layers_of(tile.def(), orientation, tile.spec_rotation()).len() <= usize::MAX,
    ensures
        r@ == layers_of(tile.def(), orientation, tile.spec_rotation()),
{
    let d = tile.definition();
    let sixths = tile.rotation();
    let mut out: Vec<Layer> = Vec::new();
    push_optional(&mut out, LayerKind::Background, true);
    push_indexed(&mut out, LayerKind::PathContrast, d.paths.len());
    push_indexed(&mut out, LayerKind::CityContrast, d.cities.len());
    push_optional(&mut out, LayerKind::Terrain, d.terrain.is_some());
    push_optional(&mut out, LayerKind::Lawson, d.lawson);
    push_indexed(&mut out, LayerKind::Path, d.paths.len());
    push_indexed(&mut out, LayerKind::Stop, d.stops.len());
    push_indexed(&mut out, LayerKind::City, d.cities.len());
    push_indexed(&mut out, LayerKind::Arrow, d.arrows.len());
    let ghost before_text = out@;
    proof {
        let t = text_layers(*d, orientation, sixths as nat);
        let total = layers_of(*d, orientation, sixths as nat);
        assert(t.len() == d.text@.len());
        assert(total.len() == before_text.len() + t.len() + optional(
            LayerKind::RevenueTrack,
            d.revenue_track is Some,
        ).len() + 1);
    }
    let number = String::from_str("number");
    let mut i: usize = 0;
    while i < d.text.len()
        invariant
            i <= d.text.len(),
            before_text.len() + d.text@.len() + 1 <= usize::MAX,
            sixths < 6,
            sixths as nat == tile.spec_rotation(),
            *d == tile.def(),
            number@ == "number"@,
            out@ == before_text + text_layers(*d, orientation, sixths as nat).take(i as int),
        decreases d.text.len() - i,
    {
        let rotation = match orientation {
            Orientation::Horizontal => None,
            Orientation::Vertical => if d.text[i].id == number {
                Some(-30 + 60 * (sixths as i32))
            } else {
                Some(-30i32)
            },
        };
        out.push(Layer { kind: LayerKind::Text, index: i, rotation });
        i += 1;
        assert(out@ =~= before_text + text_layers(*d, orientation, sixths as nat).take(i as int));
    }
    assert(text_layers(*d, orientation, sixths as nat).take(i as int) =~= text_layers(
        *d,
        orientation,
        sixths as nat,
    ));
    push_optional(&mut out, LayerKind::RevenueTrack, d.revenue_track.is_some());
    push_optional(&mut out, LayerKind::Outline, true);
    out
}

/// The outline is the last layer of every tile, and no other layer is an outline.
pub proof fn lemma_outline_last(d: TileDefinition, o: Orientation, sixths: nat)
    ensures
        layers_of(d, o, sixths).len() >= 2,
        layers_of(d, o, sixths).last().kind == LayerKind::Outline,
        forall|i: int|
            0 <= i < layers_of(d, o, sixths).len() - 1 ==> (#[trigger] layers_of(d, o, sixths)[i]).kind
                != LayerKind::Outline,
{
    let s = layers_of(d, o, sixths);
    let body = s.drop_last();
    assert(s == body + single(LayerKind::Outline));
    assert forall|i: int| 0 <= i < s.len() - 1 implies (#[trigger] s[i]).kind != LayerKind::Outline by {
        assert(s[i] == body[i]);
    }
}

} // verus!
