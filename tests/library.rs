use map18xx::catalog::{draw_tile_definitions, name_before, GridEntry};
use map18xx::geometry::{basis, cell_position, convert_coord, page_extent, page_size, Cube, Orientation, Surd};
use map18xx::label::{amount_text, decimal_string};
use map18xx::manifest::{draw_tile_manifest, find_amount, Manifest, RenderError, TileAmount};
use map18xx::map::{circle_offset, draw_map, top_tile, Barrier, GameMap, Token};
use map18xx::render::{draw_tile, Layer, LayerKind};
use map18xx::sheets::{draw_tile_sheets, paginate, SheetSlot};
use map18xx::tile::{
    City, Curve, Offset, Path, PlacedTile, Stop, TextAnchor, TextSpec, TileColor, TileDefinition, TileSpec,
};
use map18xx::game::Game;
use map18xx::{AssetOptions, NewGameOptions, Options};

fn value(s: Surd) -> f64 {
    (s.rational as f64 + s.root3 as f64 * 3.0_f64.sqrt()) / 20.0
}

fn text(id: &str) -> TextSpec {
    TextSpec {
        id: id.to_string(),
        position: Offset { x: 0, y: 0 },
        anchor: TextAnchor::Middle,
        size: None,
        bold: false,
    }
}

fn plain(name: &str) -> TileDefinition {
    TileDefinition {
        name: name.to_string(),
        color: TileColor::Yellow,
        paths: vec![],
        cities: vec![],
        stops: vec![],
        terrain: None,
        arrows: vec![],
        revenue_track: None,
        text: vec![],
        lawson: false,
    }
}

fn straight(name: &str) -> TileDefinition {
    let mut d = plain(name);
    d.paths = vec![Path { start: 0, end: 3, curve: Curve::Straight }];
    d.text = vec![text("number")];
    d
}

fn city(circles: u8) -> City {
    City { position: Offset { x: 0, y: 0 }, circles, name: "Town".to_string(), revenue: 20 }
}

fn placed(d: TileDefinition, col: u32, row: u32, rotation: u8) -> PlacedTile {
    PlacedTile { definition: d, col, row, rotation }
}

fn empty_map(width: u32, height: u32, orientation: Orientation) -> GameMap {
    GameMap { width, height, orientation, tiles: vec![], barriers: vec![], tokens: vec![] }
}

fn token(col: u32, row: u32, station: usize, circle: usize) -> Token {
    Token {
        name: "PRR".to_string(),
        color: "red".to_string(),
        is_home: true,
        col,
        row,
        station,
        circle,
    }
}

fn count(layers: &[Layer], kind: LayerKind) -> usize {
    layers.iter().filter(|l| l.kind == kind).count()
}

#[test]
fn cube_coordinates_sum_to_zero() {
    for col in -7..8 {
        for row in -7..8 {
            for o in [Orientation::Horizontal, Orientation::Vertical] {
                let c = convert_coord(col, row, o);
                assert_eq!(c.x + c.y + c.z, 0);
            }
        }
    }
}

#[test]
fn vertical_negative_coordinate_floors() {
    assert_eq!(convert_coord(-1, -3, Orientation::Vertical), Cube { x: 1, y: 2, z: -3 });
    // Two rows further down shifts x by exactly one.
    assert_eq!(convert_coord(-1, -1, Orientation::Vertical), Cube { x: 0, y: 1, z: -1 });
    assert_eq!(convert_coord(-1, 1, Orientation::Vertical), Cube { x: -1, y: 0, z: 1 });
}

#[test]
fn horizontal_negative_coordinate_floors() {
    assert_eq!(convert_coord(-3, -1, Orientation::Horizontal), Cube { x: -3, y: 2, z: 1 });
    assert_eq!(convert_coord(3, 4, Orientation::Horizontal), Cube { x: 3, y: -6, z: 3 });
}

#[test]
fn vertical_basis_is_quarter_turn() {
    let h = basis(Orientation::Horizontal);
    let v = basis(Orientation::Vertical);
    let rows_h = [[h.xx, h.xy, h.xz], [h.yx, h.yy, h.yz]];
    let rows_v = [[v.xx, v.xy, v.xz], [v.yx, v.yy, v.yz]];
    for i in 0..3 {
        assert!((value(rows_v[0][i]) + value(rows_h[1][i])).abs() < 1e-12);
        assert!((value(rows_v[1][i]) - value(rows_h[0][i])).abs() < 1e-12);
    }
}

#[test]
fn page_extent_of_one_cell_map() {
    let (w, h) = page_extent(1, 1, Orientation::Horizontal);
    assert!((value(w) - (0.3 * 3.0_f64.sqrt() + 1.5)).abs() < 1e-12);
    assert!((value(h) - 1.5 * 3.0_f64.sqrt()).abs() < 1e-12);
    let (w, h) = page_extent(2, 3, Orientation::Vertical);
    assert!((value(w) - 2.5 * 3.0_f64.sqrt()).abs() < 1e-12);
    assert!((value(h) - (0.3 * 3.0_f64.sqrt() + 4.5)).abs() < 1e-12);
    let (w, _) = page_size(1, 1, Orientation::Horizontal);
    assert!((value(w) - (0.3 * 3.0_f64.sqrt() + 2.5)).abs() < 1e-12);
}

#[test]
fn cell_positions_step_by_hex_spacing() {
    let (x0, y0) = cell_position(0, 0, Orientation::Horizontal);
    let (x1, y1) = cell_position(1, 0, Orientation::Horizontal);
    let (x2, y2) = cell_position(0, 1, Orientation::Horizontal);
    assert!((value(x1) - value(x0) - 1.5).abs() < 1e-12);
    assert!((value(y1) - value(y0) - 3.0_f64.sqrt() / 2.0).abs() < 1e-12);
    assert!((value(x2) - value(x0)).abs() < 1e-12);
    assert!((value(y2) - value(y0) - 3.0_f64.sqrt()).abs() < 1e-12);
}

#[test]
fn outline_is_last_layer() {
    let mut d = straight("57");
    d.cities = vec![city(1)];
    d.lawson = true;
    for spec in [TileSpec::Definition(d.clone()), TileSpec::Placed(placed(d, 0, 0, 3))] {
        for o in [Orientation::Horizontal, Orientation::Vertical] {
            let layers = draw_tile(&spec, o);
            assert_eq!(layers.last().unwrap().kind, LayerKind::Outline);
            assert_eq!(count(&layers, LayerKind::Outline), 1);
            assert_eq!(layers[0].kind, LayerKind::Background);
        }
    }
}

#[test]
fn layers_come_in_fixed_order() {
    let mut d = straight("14");
    d.cities = vec![city(2)];
    d.stops = vec![Stop { position: Offset { x: 0, y: 0 }, revenue: 10, city: None }];
    let layers = draw_tile(&TileSpec::Definition(d), Orientation::Horizontal);
    let kinds: Vec<LayerKind> = layers.iter().map(|l| l.kind).collect();
    assert_eq!(
        kinds,
        vec![
            LayerKind::Background,
            LayerKind::PathContrast,
            LayerKind::CityContrast,
            LayerKind::Path,
            LayerKind::Stop,
            LayerKind::City,
            LayerKind::Text,
            LayerKind::Outline,
        ]
    );
}

#[test]
fn vertical_labels_rotate() {
    let mut d = straight("9");
    d.text.push(text("revenue"));
    let layers = draw_tile(&TileSpec::Placed(placed(d.clone(), 0, 0, 2)), Orientation::Vertical);
    let texts: Vec<&Layer> = layers.iter().filter(|l| l.kind == LayerKind::Text).collect();
    assert_eq!(texts[0].rotation, Some(90));
    assert_eq!(texts[1].rotation, Some(-30));
    let layers = draw_tile(&TileSpec::Placed(placed(d, 0, 0, 2)), Orientation::Horizontal);
    assert!(layers.iter().all(|l| l.rotation.is_none()));
}

#[test]
fn one_tile_map_scenario() {
    let mut m = empty_map(1, 1, Orientation::Horizontal);
    m.tiles.push(placed(straight("9"), 0, 0, 0));
    let plan = draw_map(&m, &Options::new()).unwrap();
    assert!((value(plan.width) - (0.3 * 3.0_f64.sqrt() + 1.5 + 1.0)).abs() < 1e-12);
    let (w, _) = page_extent(m.width, m.height, m.orientation);
    assert!((value(w) - (0.3 * 3.0_f64.sqrt() + 1.5)).abs() < 1e-12);
    assert_eq!(plan.tiles.len(), 1);
    assert!(plan.tokens.is_empty());
    assert!(plan.barriers.is_empty());
    let layers = draw_tile(&TileSpec::Placed(m.tiles[0].clone()), m.orientation);
    assert_eq!(count(&layers, LayerKind::Outline), 1);
    assert_eq!(count(&layers, LayerKind::PathContrast), 1);
    assert_eq!(count(&layers, LayerKind::Path), 1);
    assert_eq!(count(&layers, LayerKind::City), 0);
    assert_eq!(count(&layers, LayerKind::CityContrast), 0);
}

#[test]
fn last_laid_tile_wins() {
    let tiles = vec![
        placed(plain("1"), 2, 3, 0),
        placed(plain("2"), 0, 0, 0),
        placed(plain("3"), 2, 3, 0),
    ];
    assert_eq!(top_tile(&tiles, 2, 3), Some(2));
    assert_eq!(top_tile(&tiles, 0, 0), Some(1));
    assert_eq!(top_tile(&tiles, 1, 1), None);
    let mut m = empty_map(4, 4, Orientation::Vertical);
    m.tiles = tiles;
    let plan = draw_map(&m, &Options::new()).unwrap();
    let shown: Vec<usize> = plan.tiles.iter().map(|p| p.index).collect();
    assert_eq!(shown, vec![1, 2]);
}

#[test]
fn barriers_are_placed() {
    let mut m = empty_map(2, 2, Orientation::Horizontal);
    m.barriers.push(Barrier { col: 1, row: 0, edge: 2 });
    let plan = draw_map(&m, &Options::new()).unwrap();
    assert_eq!(plan.barriers.len(), 1);
    assert_eq!((plan.barriers[0].x, plan.barriers[0].y), cell_position(1, 0, Orientation::Horizontal));
}

#[test]
fn circle_positions_are_distinct() {
    for n in 1..=6u8 {
        let offsets: Vec<Offset> = (0..n as usize).map(|i| circle_offset(n, i)).collect();
        for i in 0..offsets.len() {
            for j in 0..offsets.len() {
                if i != j {
                    assert_ne!(offsets[i], offsets[j]);
                }
            }
        }
        assert_eq!(offsets, (0..n as usize).map(|i| circle_offset(n, i)).collect::<Vec<_>>());
    }
}

#[test]
fn tokens_resolve_to_circles() {
    let mut d = plain("57");
    d.cities = vec![city(2)];
    let mut m = empty_map(3, 3, Orientation::Vertical);
    m.tiles.push(placed(d, 1, 1, 7));
    m.tokens.push(token(1, 1, 0, 1));
    let plan = draw_map(&m, &Options::new()).unwrap();
    assert_eq!(plan.tokens.len(), 1);
    assert_eq!(plan.tokens[0].circle, circle_offset(2, 1));
    assert_eq!(plan.tokens[0].rotation, 1);
    assert_eq!(plan.tokens[0].label_rotation, Some(-30));
}

#[test]
fn unresolved_tokens_fail() {
    let mut d = plain("57");
    d.cities = vec![city(1)];
    let mut m = empty_map(3, 3, Orientation::Horizontal);
    m.tiles.push(placed(d, 1, 1, 0));
    m.tokens = vec![token(0, 0, 0, 0)];
    assert_eq!(draw_map(&m, &Options::new()).unwrap_err(), RenderError::MissingTile(0, 0));
    m.tokens = vec![token(1, 1, 0, 0), token(1, 1, 1, 0)];
    assert_eq!(draw_map(&m, &Options::new()).unwrap_err(), RenderError::MissingCity(1));
    m.tokens = vec![token(1, 1, 0, 1)];
    assert_eq!(draw_map(&m, &Options::new()).unwrap_err(), RenderError::MissingCircle(0));
}

#[test]
fn debug_overlay_follows_options() {
    let m = empty_map(1, 1, Orientation::Horizontal);
    let mut options = Options::new();
    assert!(!draw_map(&m, &options).unwrap().coordinate_axes);
    options.debug_coordinates = true;
    assert!(draw_map(&m, &options).unwrap().coordinate_axes);
}

#[test]
fn rendering_twice_is_identical() {
    let mut d = straight("57");
    d.cities = vec![city(3)];
    let mut m = empty_map(2, 2, Orientation::Vertical);
    m.tiles.push(placed(d, 0, 1, 4));
    m.tokens.push(token(0, 1, 0, 2));
    let a = draw_map(&m, &Options::new()).unwrap();
    let b = draw_map(&m, &Options::new()).unwrap();
    assert_eq!(format!("{:?}", a), format!("{:?}", b));
    let spec = TileSpec::Placed(m.tiles[0].clone());
    assert_eq!(draw_tile(&spec, Orientation::Vertical), draw_tile(&spec, Orientation::Vertical));
}

#[test]
fn pages_hold_thirty() {
    assert!(paginate(&vec![]).is_empty());
    assert!(paginate(&vec![0, 0]).is_empty());
    let pages = paginate(&vec![20, 11]);
    assert_eq!(pages.len(), 2);
    assert_eq!(pages[0].len(), 30);
    assert_eq!(pages[1].len(), 1);
    assert_eq!(pages[0][0], SheetSlot { tile: 0, column: 0, row: 0 });
    assert_eq!(pages[0][7], SheetSlot { tile: 0, column: 1, row: 1 });
    assert_eq!(pages[0][29], SheetSlot { tile: 1, column: 4, row: 5 });
    assert_eq!(pages[1][0], SheetSlot { tile: 1, column: 0, row: 0 });
    let pages = paginate(&vec![30, 30]);
    assert_eq!(pages.len(), 2);
    assert_eq!(pages[1].len(), 30);
    let pages = paginate(&vec![29]);
    assert_eq!(pages.len(), 1);
    assert_eq!(pages[0].len(), 29);
}

#[test]
fn sheets_follow_manifest_amounts() {
    let manifest = Manifest {
        tiles: vec![plain("8"), plain("9")],
        amounts: vec![
            TileAmount { name: "9".to_string(), amount: 2 },
            TileAmount { name: "8".to_string(), amount: 3 },
        ],
    };
    let pages = draw_tile_sheets(&manifest).unwrap();
    assert_eq!(pages.len(), 1);
    let tiles: Vec<usize> = pages[0].iter().map(|s| s.tile).collect();
    assert_eq!(tiles, vec![0, 0, 0, 1, 1]);
    let missing = Manifest { tiles: vec![plain("7")], amounts: vec![] };
    assert_eq!(draw_tile_sheets(&missing).unwrap_err(), RenderError::MissingAmount("7".to_string()));
}

#[test]
fn manifest_labels_amount() {
    let manifest = Manifest {
        tiles: vec![plain("8")],
        amounts: vec![TileAmount { name: "8".to_string(), amount: 4 }],
    };
    let entries = draw_tile_manifest(&manifest, &vec![]).unwrap();
    assert_eq!(entries.len(), 1);
    assert_eq!(entries[0].label, "4×");
    assert_eq!(entries[0].cell, GridEntry { tile: 0, column: 0, row: 0 });
}

#[test]
fn manifest_subtracts_usage_and_clamps() {
    let manifest = Manifest {
        tiles: vec![plain("8"), plain("9"), plain("57"), plain("14"), plain("15")],
        amounts: vec![
            TileAmount { name: "8".to_string(), amount: 4 },
            TileAmount { name: "9".to_string(), amount: 12 },
            TileAmount { name: "57".to_string(), amount: 2 },
            TileAmount { name: "14".to_string(), amount: 1 },
            TileAmount { name: "15".to_string(), amount: 1 },
        ],
    };
    let log = vec![
        TileAmount { name: "9".to_string(), amount: 3 },
        TileAmount { name: "57".to_string(), amount: 5 },
    ];
    let entries = draw_tile_manifest(&manifest, &log).unwrap();
    let labels: Vec<&str> = entries.iter().map(|e| e.label.as_str()).collect();
    assert_eq!(labels, vec!["4×", "9×", "0×", "1×", "1×"]);
    assert_eq!(entries[4].cell, GridEntry { tile: 4, column: 0, row: 1 });
    let missing = Manifest { tiles: vec![plain("8"), plain("7")], amounts: manifest.amounts.clone() };
    assert_eq!(draw_tile_manifest(&missing, &log).unwrap_err(), RenderError::MissingAmount("7".to_string()));
}

#[test]
fn amounts_are_found_by_name() {
    let amounts = vec![
        TileAmount { name: "8".to_string(), amount: 4 },
        TileAmount { name: "8".to_string(), amount: 9 },
    ];
    assert_eq!(find_amount(&amounts, &"8".to_string()), Some(4));
    assert_eq!(find_amount(&amounts, &"80".to_string()), None);
    assert_eq!(Manifest::default().tiles.len(), 0);
}

#[test]
fn catalog_sorted_by_length_then_name() {
    let defs = vec![plain("9"), plain("10"), plain("8"), plain("1a"), plain("120")];
    let grid = draw_tile_definitions(&defs);
    let names: Vec<&str> = grid.iter().map(|e| defs[e.tile].name.as_str()).collect();
    assert_eq!(names, vec!["8", "9", "10", "1a", "120"]);
    assert_eq!(grid[4], GridEntry { tile: 4, column: 0, row: 1 });
    assert!(name_before(&"9".to_string(), &"10".to_string()));
    assert!(!name_before(&"10".to_string(), &"10".to_string()));
    assert!(draw_tile_definitions(&vec![]).is_empty());
}

#[test]
fn decimal_labels() {
    assert_eq!(decimal_string(0), "0");
    assert_eq!(decimal_string(1234), "1234");
    assert_eq!(decimal_string(u32::MAX), "4294967295");
    assert_eq!(amount_text(12), "12×");
}

#[test]
fn tile_text_lookup() {
    let mut d = straight("57");
    d.cities = vec![city(1)];
    let spec = TileSpec::Definition(d);
    assert_eq!(spec.get_text(&"number".to_string()), "57");
    assert_eq!(spec.get_text(&"revenue".to_string()), "20");
    assert_eq!(spec.get_text(&"other".to_string()), "");
    assert_eq!(spec.rotation(), 0);
    let p = TileSpec::Placed(placed(plain("3"), 0, 0, 8));
    assert_eq!(p.rotation(), 2);
    assert_eq!(p.color(), TileColor::Yellow);
}

#[test]
fn options_start_empty() {
    let o = Options::new();
    assert!(!o.verbose && !o.debug_coordinates);
    assert!(AssetOptions::new().name.is_empty());
    let n = NewGameOptions::new();
    assert!(n.game.is_empty() && n.name.is_empty());
}

#[test]
fn catalog_orders_by_bytes() {
    let defs = vec![plain("é"), plain("ab"), plain("z"), plain("B")];
    let grid = draw_tile_definitions(&defs);
    let names: Vec<&str> = grid.iter().map(|e| defs[e.tile].name.as_str()).collect();
    assert_eq!(names, vec!["B", "z", "ab", "é"]);
}

#[test]
fn new_game_is_empty() {
    let g = Game::new();
    assert!(g.manifest.tiles.is_empty() && g.manifest.amounts.is_empty());
    assert_eq!((g.map.width, g.map.height), (0, 0));
    assert!(g.map.tiles.is_empty() && g.map.tokens.is_empty() && g.map.barriers.is_empty());
    let plan = draw_map(&g.map, &Options::new()).unwrap();
    assert!(plan.tiles.is_empty());
}
