use map_generator::battle_map::{BattleMap, MapGenerator, TileNeighbors};
use map_generator::map_tiles::{
    BattleMapTileType, CampaignGenerationTiles, CampaignMapTile, CampaignMapTileType, MapTile,
    SymbolColor, TerrainFeature, TileOwner,
};

const TYPES: [BattleMapTileType; 10] = [
    BattleMapTileType::Forest,
    BattleMapTileType::Hill,
    BattleMapTileType::Mountain,
    BattleMapTileType::Outpost,
    BattleMapTileType::Plains,
    BattleMapTileType::River,
    BattleMapTileType::Road,
    BattleMapTileType::Swamp,
    BattleMapTileType::Town,
    BattleMapTileType::Default,
];

const OWNERS: [TileOwner; 6] = [
    TileOwner::Defender,
    TileOwner::Attacker,
    TileOwner::LeftFlank,
    TileOwner::RightFlank,
    TileOwner::SplitAttDef,
    TileOwner::Unassigned,
];

/// Gives each hex of `m` a distinct (terrain, owner) pair.
fn label_tiles(m: &mut BattleMap) {
    let mut k = 0;
    for r in 0..m.board_height() {
        for c in 0..m.width_for_row(r) {
            let mut t = MapTile::new(TYPES[k % 10]);
            t.set_owner(OWNERS[k / 10]);
            m.set_tile(r, c, t);
            k += 1;
        }
    }
}

fn find(m: &BattleMap, t: &MapTile) -> (usize, usize) {
    for r in 0..m.board_height() {
        for c in 0..m.width_for_row(r) {
            if m.get_tile(r, c).unwrap() == t {
                return (r, c);
            }
        }
    }
    panic!("tile not on the map");
}

fn all_six<'a>(n: &TileNeighbors<'a>) -> [Option<&'a MapTile>; 6] {
    [
        n.get_left(),
        n.get_upper_left(),
        n.get_upper_right(),
        n.get_right(),
        n.get_lower_right(),
        n.get_lower_left(),
    ]
}

#[test]
fn row_widths_alternate_on_odd_widths() {
    for w in 4..=9 {
        for h in 2..=7 {
            let m = MapGenerator::default().create_map(w, h);
            let mut total = 0;
            for r in 0..h {
                let expected = if w % 2 == 1 && r % 2 == 1 { w - 1 } else { w };
                assert_eq!(m.width_for_row(r), expected);
                assert!(m.get_tile(r, expected - 1).is_some());
                assert!(m.get_tile(r, expected).is_none());
                total += expected;
            }
            assert!(m.get_tile(h, 0).is_none());
            assert_eq!(total, w * h - (w % 2) * (h / 2));
        }
    }
    let m = MapGenerator::default().create_map(5, 3);
    assert!(m.get_tile(0, 4).is_some());
    assert!(m.get_tile(1, 3).is_some());
    assert!(m.get_tile(1, 4).is_none());
    assert!(m.get_tile(2, 4).is_some());
    assert!(m.get_tile(3, 0).is_none());
    assert!(m.get_tile(0, 5).is_none());
}

#[test]
fn neighbors_are_symmetric() {
    for (w, h) in [(4, 2), (5, 3), (4, 4), (5, 4)] {
        let mut m = MapGenerator::default().create_map(w, h);
        label_tiles(&mut m);
        for r in 0..h {
            for c in 0..m.width_for_row(r) {
                let here = *m.get_tile(r, c).unwrap();
                let six = all_six(&m.get_neighbors(r, c));
                for d in 0..6 {
                    if let Some(b) = six[d] {
                        let (br, bc) = find(&m, b);
                        let back = all_six(&m.get_neighbors(br, bc));
                        assert_eq!(back[(d + 3) % 6], Some(&here));
                    }
                }
            }
        }
    }
}

#[test]
fn boundary_hexes_lack_neighbors() {
    let (w, h) = (5, 3);
    let m = MapGenerator::default().create_map(w, h);
    for c in 0..w {
        let top = m.get_neighbors(0, c);
        assert_eq!(top.get_upper_left(), None);
        assert_eq!(top.get_upper_right(), None);
        let bottom = m.get_neighbors(h - 1, c);
        assert_eq!(bottom.get_lower_left(), None);
        assert_eq!(bottom.get_lower_right(), None);
    }
    for r in 0..h {
        assert_eq!(m.get_neighbors(r, 0).get_left(), None);
        assert_eq!(m.get_neighbors(r, m.width_for_row(r) - 1).get_right(), None);
    }
}

#[test]
fn odd_row_interior_has_all_six_neighbors() {
    let mut m = MapGenerator::default().create_map(4, 3);
    label_tiles(&mut m);
    let n = m.get_neighbors(1, 1);
    assert_eq!(n.get_upper_left(), m.get_tile(0, 1));
    assert_eq!(n.get_upper_right(), m.get_tile(0, 2));
    assert_eq!(n.get_lower_right(), m.get_tile(2, 2));
    assert_eq!(n.get_lower_left(), m.get_tile(2, 1));
    assert_eq!(n.get_left(), m.get_tile(1, 0));
    assert_eq!(n.get_right(), m.get_tile(1, 2));
}

#[test]
fn even_row_neighbors_lean_left() {
    let mut m = MapGenerator::default().create_map(5, 5);
    label_tiles(&mut m);
    let n = m.get_neighbors(2, 2);
    assert_eq!(n.get_upper_left(), m.get_tile(1, 1));
    assert_eq!(n.get_upper_right(), m.get_tile(1, 2));
    assert_eq!(n.get_lower_right(), m.get_tile(3, 2));
    assert_eq!(n.get_lower_left(), m.get_tile(3, 1));
    let edge = m.get_neighbors(2, 0);
    assert_eq!(edge.get_upper_left(), None);
    assert_eq!(edge.get_lower_left(), None);
    assert_eq!(edge.get_upper_right(), m.get_tile(1, 0));
    let odd_edge = m.get_neighbors(1, 3);
    assert_eq!(odd_edge.get_right(), None);
    assert_eq!(odd_edge.get_upper_right(), m.get_tile(0, 4));
    assert_eq!(odd_edge.get_lower_right(), m.get_tile(2, 4));
    assert_eq!(odd_edge.get_lower_left(), m.get_tile(2, 3));
}

#[test]
fn short_odd_rows_bound_their_neighbors() {
    let mut m = MapGenerator::default().create_map(5, 3);
    label_tiles(&mut m);
    let n = m.get_neighbors(0, 4);
    assert_eq!(n.get_left(), m.get_tile(0, 3));
    assert_eq!(n.get_lower_left(), m.get_tile(1, 3));
    assert_eq!(n.get_right(), None);
    assert_eq!(n.get_lower_right(), None);
    assert_eq!(n.get_upper_left(), None);
    assert_eq!(n.get_upper_right(), None);
    let n = m.get_neighbors(1, 3);
    assert_eq!(n.get_left(), m.get_tile(1, 2));
    assert_eq!(n.get_upper_left(), m.get_tile(0, 3));
    assert_eq!(n.get_upper_right(), m.get_tile(0, 4));
    assert_eq!(n.get_lower_right(), m.get_tile(2, 4));
    assert_eq!(n.get_lower_left(), m.get_tile(2, 3));
    assert_eq!(n.get_right(), None);
}

#[test]
fn painting_leaves_no_tile_unassigned() {
    for w in 4..=12 {
        for h in 2..=9 {
            let m = MapGenerator::default().create_map(w, h);
            let mut counts = [0usize; 6];
            for r in 0..h {
                for c in 0..m.width_for_row(r) {
                    let o = *m.get_tile(r, c).unwrap().get_owner();
                    assert_ne!(o, TileOwner::Unassigned);
                    counts[OWNERS.iter().position(|x| *x == o).unwrap()] += 1;
                }
            }
            let flank = w / 4;
            let depth = h / 2;
            let middle = |r: usize| m.width_for_row(r) - 2 * flank;
            assert_eq!(counts[2], flank * h);
            assert_eq!(counts[3], flank * h);
            assert_eq!(counts[1], (0..depth).map(middle).sum::<usize>());
            assert_eq!(counts[0], (h - depth..h).map(middle).sum::<usize>());
            assert_eq!(counts[4], if h % 2 == 1 { middle(depth) } else { 0 });
            assert_eq!(counts.iter().sum::<usize>(), w * h - (w % 2) * (h / 2));
        }
    }
}

#[test]
fn painting_is_idempotent_and_ignores_terrain() {
    let g = MapGenerator::default();
    let fresh = g.create_map(9, 5);
    let mut m = g.create_map(9, 5);
    label_tiles(&mut m);
    g.set_tile_owners(&mut m);
    let mut again = g.create_map(9, 5);
    label_tiles(&mut again);
    g.set_tile_owners(&mut again);
    g.set_tile_owners(&mut again);
    for r in 0..5 {
        for c in 0..m.width_for_row(r) {
            let a = m.get_tile(r, c).unwrap();
            assert_eq!(a.get_owner(), fresh.get_tile(r, c).unwrap().get_owner());
            assert_eq!(again.get_tile(r, c).unwrap(), a);
        }
    }
    assert_eq!(m.get_tile(0, 0).unwrap().get_type(), &BattleMapTileType::Forest);
}

#[test]
fn odd_width_odd_height_zones() {
    let m = MapGenerator::default().create_map(5, 3);
    let rows = [
        [TileOwner::LeftFlank, TileOwner::Attacker, TileOwner::Attacker, TileOwner::Attacker, TileOwner::RightFlank],
        [TileOwner::LeftFlank, TileOwner::SplitAttDef, TileOwner::SplitAttDef, TileOwner::RightFlank, TileOwner::Unassigned],
        [TileOwner::LeftFlank, TileOwner::Defender, TileOwner::Defender, TileOwner::Defender, TileOwner::RightFlank],
    ];
    for r in 0..3 {
        for c in 0..m.width_for_row(r) {
            assert_eq!(m.get_tile(r, c).unwrap().get_owner(), &rows[r][c]);
        }
    }
    assert!(m.get_tile(1, 4).is_none());
}

#[test]
fn smallest_map_zones() {
    let m = MapGenerator::default().create_map(4, 2);
    let rows = [
        [TileOwner::LeftFlank, TileOwner::Attacker, TileOwner::Attacker, TileOwner::RightFlank],
        [TileOwner::LeftFlank, TileOwner::Defender, TileOwner::Defender, TileOwner::RightFlank],
    ];
    for r in 0..2 {
        for c in 0..4 {
            assert_eq!(m.get_tile(r, c).unwrap().get_owner(), &rows[r][c]);
        }
    }
}

#[test]
fn wide_map_has_wider_flanks() {
    let m = MapGenerator::default().create_map(8, 4);
    for r in 0..4 {
        assert_eq!(m.get_tile(r, 1).unwrap().get_owner(), &TileOwner::LeftFlank);
        assert_eq!(m.get_tile(r, 6).unwrap().get_owner(), &TileOwner::RightFlank);
    }
    assert_eq!(m.get_tile(1, 2).unwrap().get_owner(), &TileOwner::Attacker);
    assert_eq!(m.get_tile(2, 5).unwrap().get_owner(), &TileOwner::Defender);
}

#[test]
fn default_map_is_fifteen_by_eleven() {
    let m = MapGenerator::default().create_default_map();
    assert_eq!(m.board_width(), 15);
    assert_eq!(m.board_height(), 11);
    assert_eq!(m.get_tile(5, 7).unwrap().get_owner(), &TileOwner::SplitAttDef);
    assert_eq!(m.get_tile(10, 14).unwrap().get_type(), &BattleMapTileType::Default);
    assert_eq!(m.width_for_row(1), 14);
    assert!(m.get_tile(1, 14).is_none());
    assert_eq!(m.get_tile(1, 13).unwrap().get_owner(), &TileOwner::RightFlank);
    assert_eq!(m.get_tile(1, 11).unwrap().get_owner(), &TileOwner::RightFlank);
    assert_eq!(m.get_tile(1, 10).unwrap().get_owner(), &TileOwner::Attacker);
}

#[test]
fn search_area_sizes() {
    assert_eq!(CampaignGenerationTiles::radius_search_size(0), 1);
    assert_eq!(CampaignGenerationTiles::radius_search_size(1), 7);
    assert_eq!(CampaignGenerationTiles::radius_search_size(2), 19);
    assert_eq!(CampaignGenerationTiles::radius_search_size(10), 331);
    let big = u32::MAX as u128;
    assert_eq!(CampaignGenerationTiles::radius_search_size(u32::MAX), 3 * big * big + 3 * big + 1);
}

#[test]
fn zero_count_has_zero_density() {
    for radius in [0, 1, 2, 7, 1000] {
        let t = CampaignGenerationTiles::new(
            CampaignMapTile::default(),
            CampaignMapTile::default(),
            CampaignMapTile::default(),
            CampaignMapTile::default(),
            0,
            0,
            0,
            0,
            radius,
        );
        assert_eq!(t.density_fraction(TerrainFeature::Town).0, 0);
        assert_eq!(t.target_feature_count(TerrainFeature::Hill, 165), 0);
    }
}

#[test]
fn feature_targets_follow_densities() {
    let base = CampaignGenerationTiles::new(
        CampaignMapTile::default(),
        CampaignMapTile::default(),
        CampaignMapTile::default(),
        CampaignMapTile::default(),
        7,
        3,
        1,
        14,
        1,
    );
    assert_eq!(base.feature_count(TerrainFeature::River), 3);
    assert_eq!(base.search_radius(), 1);
    assert_eq!(base.density_fraction(TerrainFeature::Hill), (14, 7));
    let g = MapGenerator::new(base);
    let m = g.create_map(4, 2);
    let t = g.feature_targets(&m).unwrap();
    assert_eq!(t.towns, 8);
    assert_eq!(t.rivers, 3);
    assert_eq!(t.mountains, 1);
    assert_eq!(t.hills, 16);
    let d = MapGenerator::default().feature_targets(&m).unwrap();
    assert_eq!((d.towns, d.rivers, d.mountains, d.hills), (0, 0, 0, 0));
}

#[test]
fn tiles_start_unassigned() {
    let t = MapTile::default();
    assert_eq!(t.get_type(), &BattleMapTileType::Default);
    assert_eq!(t.get_owner(), &TileOwner::Unassigned);
    let mut n = MapTile::new(BattleMapTileType::Swamp);
    assert_eq!(n.get_owner(), &TileOwner::Unassigned);
    n.set_owner(TileOwner::Defender);
    assert_eq!(n.get_owner(), &TileOwner::Defender);
    assert_eq!(n.get_type(), &BattleMapTileType::Swamp);
    let c = CampaignMapTile::default();
    assert_eq!(c.tile, CampaignMapTileType::Default);
    assert_eq!(c.add_on, None);
}

#[test]
fn set_tile_replaces_one_hex() {
    let mut m = MapGenerator::default().create_map(4, 2);
    m.set_tile(1, 2, MapTile::new(BattleMapTileType::River));
    assert_eq!(m.get_tile(1, 2).unwrap().get_type(), &BattleMapTileType::River);
    assert_eq!(m.get_tile(1, 2).unwrap().get_owner(), &TileOwner::Unassigned);
    assert_eq!(m.get_tile(1, 1).unwrap().get_type(), &BattleMapTileType::Default);
    assert_eq!(m.get_tile(1, 1).unwrap().get_owner(), &TileOwner::Defender);
}

#[test]
fn symbols_of_terrain_and_owners() {
    let s = BattleMapTileType::Road.symbol();
    assert_eq!(s.letter, 'V');
    assert_eq!(s.color, SymbolColor::Black);
    assert!(s.on_white);
    assert_eq!(BattleMapTileType::Plains.symbol().color, SymbolColor::Blue);
    assert_eq!(TileOwner::RightFlank.symbol().letter, 'R');
    assert_eq!(TileOwner::Defender.symbol().color, SymbolColor::Cyan);
    let t = MapTile::new(BattleMapTileType::Town);
    assert_eq!(t.tile_type_symbol().letter, 'T');
    assert_eq!(t.tile_owner_symbol().letter, '?');
}

#[test]
fn zones_mirror_within_each_row() {
    let swap = |o: TileOwner| match o {
        TileOwner::LeftFlank => TileOwner::RightFlank,
        TileOwner::RightFlank => TileOwner::LeftFlank,
        other => other,
    };
    for (w, h) in [(5, 3), (7, 4), (9, 5), (8, 6)] {
        let m = MapGenerator::default().create_map(w, h);
        for r in 0..h {
            let n = m.width_for_row(r);
            for c in 0..n {
                let a = *m.get_tile(r, c).unwrap().get_owner();
                let b = *m.get_tile(r, n - 1 - c).unwrap().get_owner();
                assert_eq!(b, swap(a));
            }
        }
    }
}

#[test]
fn feature_targets_count_short_rows() {
    let base = CampaignGenerationTiles::new(
        CampaignMapTile::default(),
        CampaignMapTile::default(),
        CampaignMapTile::default(),
        CampaignMapTile::default(),
        7,
        0,
        0,
        0,
        1,
    );
    let g = MapGenerator::new(base);
    let m = g.create_map(5, 3);
    assert_eq!(g.feature_targets(&m).unwrap().towns, 14);
}
