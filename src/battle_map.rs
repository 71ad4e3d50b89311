use vstd::prelude::*;
use crate::hex::{Direction, in_grid, neighbor_address, row_width, tile_count};
use crate::map_tiles::{
    BattleMapTileType, CampaignGenerationTiles, CampaignMapTile, MapSymbol, MapTile, TerrainFeature, TileOwner,
    feature_target,
};
use crate::render::{BoardCell, board_layout, board_lines};
use crate::zones::{in_zone, lemma_zones_partition, zone_owner, zones_containing};

verus! {

/// The six neighbours of one hex, as references into the map.
pub struct TileNeighbors<'a> {
    tile_location: (usize, usize),
    tile: &'a MapTile,
    left: Option<&'a MapTile>,
    upper_left: Option<&'a MapTile>,
    upper_right: Option<&'a MapTile>,
    right: Option<&'a MapTile>,
    lower_right: Option<&'a MapTile>,
    lower_left: Option<&'a MapTile>,
}

impl<'a> TileNeighbors<'a> {
    pub closed spec fn spec_location(&self) -> (usize, usize) {
        self.tile_location
    }

    pub closed spec fn spec_tile(&self) -> MapTile {
        *self.tile
    }

    /// The neighbour towards `d`, if there is one.
    pub closed spec fn spec_neighbor(&self, d: Direction) -> Option<&'a MapTile> {
        match d {
            Direction::Left => self.left,
            Direction::UpperLeft => self.upper_left,
            Direction::UpperRight => self.upper_right,
            Direction::Right => self.right,
            Direction::LowerRight => self.lower_right,
            Direction::LowerLeft => self.lower_left,
        }
    }

    fn new(
        tile_location: (usize, usize),
        tile: &'a MapTile,
        left: Option<&'a MapTile>,
        upper_left: Option<&'a MapTile>,
        upper_right: Option<&'a MapTile>,
        right: Option<&'a MapTile>,
        lower_right: Option<&'a MapTile>,
        lower_left: Option<&'a MapTile>,
    ) -> (r: Self)
        ensures
            r.spec_location() == tile_location,
            r.spec_tile() == *tile,
            r.spec_neighbor(Direction::Left) == left,
            r.spec_neighbor(Direction::UpperLeft) == upper_left,
            r.spec_neighbor(Direction::UpperRight) == upper_right,
            r.spec_neighbor(Direction::Right) == right,
            r.spec_neighbor(Direction::LowerRight) == lower_right,
            r.spec_neighbor(Direction::LowerLeft) == lower_left,
    {
        TileNeighbors {
            tile_location,
            tile,
            left,
            upper_left,
            upper_right,
            right,
            lower_right,
            lower_left,
        }
    }

    pub fn get_tile_location(&self) -> (r: (usize, usize))
        ensures
            r == self.spec_location(),
    {
        self.tile_location
    }

    pub fn tile_type(&self) -> (r: &MapTile)
        ensures
            *r == self.spec_tile(),
    {
        self.tile
    }

    pub fn get_lower_left(&self) -> (r: Option<&'a MapTile>)
        ensures
            r == self.spec_neighbor(Direction::LowerLeft),
    {
        self.lower_left
    }

    pub fn get_left(&self) -> (r: Option<&'a MapTile>)
        ensures
            r == self.spec_neighbor(Direction::Left),
    {
        self.left
    }

    pub fn get_upper_left(&self) -> (r: Option<&'a MapTile>)
        ensures
            r == self.spec_neighbor(Direction::UpperLeft),
    {
        self.upper_left
    }

    pub fn get_upper_right(&self) -> (r: Option<&'a MapTile>)
        ensures
            r == self.spec_neighbor(Direction::UpperRight),
    {
        self.upper_right
    }

    pub fn get_right(&self) -> (r: Option<&'a MapTile>)
        ensures
            r == self.spec_neighbor(Direction::Right),
    {
        self.right
    }

    pub fn get_lower_right(&self) -> (r: Option<&'a MapTile>)
        ensures
            r == self.spec_neighbor(Direction::LowerRight),
    {
        self.lower_right
    }
}

/// A battle map of `board_height` offset rows: odd rows sit half a hex to the
/// right of even rows. Where `board_width` is even every row holds that many
/// hexes; where it is odd the even rows hold `board_width` and the odd rows
/// one fewer (see `row_width`).
pub struct BattleMap {
    tiles: Vec<Vec<MapTile>>,
    board_height: usize,
    board_width: usize,
}

impl BattleMap {
    pub closed spec fn width(&self) -> int {
        self.board_width as int
    }

    pub closed spec fn height(&self) -> int {
        self.board_height as int
    }

    /// Number of hexes stored in `row`.
    pub closed spec fn row_len(&self, row: int) -> int {
        self.tiles@[row]@.len() as int
    }

    /// The hex at (row, column).
    pub closed spec fn tile_at(&self, row: int, column: int) -> MapTile {
        self.tiles@[row]@[column]
    }

    /// At least 4 wide and 2 high, with one stored row per board row, and
    /// `row_width(width, r)` hexes in row `r`.
    pub closed spec fn wf(&self) -> bool {
        &&& self.board_width >= 4
        &&& self.board_height >= 2
        &&& self.tiles@.len() == self.board_height
        &&& forall|r: int|
            0 <= r < self.board_height ==> #[trigger] self.tiles@[r]@.len() == row_width(
                self.board_width as int,
                r,
            )
    }

    /// The hex at (row, column), or `None` off the map.
    pub open spec fn tile_in_grid(&self, row: int, column: int) -> Option<MapTile> {
        if in_grid(self.width(), self.height(), row, column) {
            Some(self.tile_at(row, column))
        } else {
            None
        }
    }

    /// The neighbour of (row, column) towards `d`, or `None`.
    pub open spec fn neighbor_tile(&self, row: int, column: int, d: Direction) -> Option<MapTile> {
        match neighbor_address(self.width(), self.height(), row, column, d) {
            Some(a) => Some(self.tile_at(a.0, a.1)),
            None => None,
        }
    }

    /// Row `row` holds `row_width(width, row)` hexes: the full width on an
    /// even-width map, and on an odd-width map the full width on even rows and
    /// one fewer on odd rows.
    pub proof fn lemma_row_width(&self, row: int)
        requires
            self.wf(),
            0 <= row < self.height(),
        ensures
            self.row_len(row) == row_width(self.width(), row),
            self.width() % 2 == 0 ==> self.row_len(row) == self.width(),
            self.width() % 2 == 1 && row % 2 == 0 ==> self.row_len(row) == self.width(),
            self.width() % 2 == 1 && row % 2 == 1 ==> self.row_len(row) == self.width() - 1,
    {
    }

    /// Number of hexes in `row`: the width, less one on odd rows of an
    /// odd-width map.
    pub fn width_for_row(&self, row: usize) -> (r: usize)
        ensures
            r == row_width(self.width(), row as int),
    {
        row_width_of(self.board_width, row)
    }

    pub fn board_width(&self) -> (r: usize)
        ensures
            r == self.width(),
    {
        self.board_width
    }

    pub fn board_height(&self) -> (r: usize)
        ensures
            r == self.height(),
    {
        self.board_height
    }

    /// The symbol of each hex, row by row: its terrain's when `owners` is
    /// false, its owner's when it holds.
    pub open spec fn symbol_grid(&self, owners: bool) -> Seq<Seq<MapSymbol>> {
        Seq::new(
            self.height() as nat,
            |r: int|
                Seq::new(
                    row_width(self.width(), r) as nat,
                    |c: int|
                        if owners {
                            self.tile_at(r, c).spec_owner().spec_symbol()
                        } else {
                            self.tile_at(r, c).spec_type().spec_symbol()
                        },
                ),
        )
    }

    fn symbols(&self, owners: bool) -> (r: Vec<Vec<MapSymbol>>)
        requires
            self.wf(),
        ensures
            r@.len() == self.height(),
            forall|j: int| 0 <= j < self.height() ==> #[trigger] r@[j]@.len() == row_width(self.width(), j),
            r@.map_values(|v: Vec<MapSymbol>| v@) == self.symbol_grid(owners),
    {
        let mut out: Vec<Vec<MapSymbol>> = Vec::new();
        let mut j: usize = 0;
        while j < self.board_height
            invariant
                self.wf(),
                j <= self.board_height,
                out@.len() == j,
                forall|r: int| 0 <= r < j ==> #[trigger] out@[r]@ == self.symbol_grid(owners)[r],
            decreases self.board_height - j,
        {
            let mut line: Vec<MapSymbol> = Vec::new();
            let len = self.tiles[j].len();
            let mut i: usize = 0;
            while i < len
                invariant
                    self.wf(),
                    j < self.board_height,
                    len == row_width(self.width(), j as int),
                    i <= len,
                    line@.len() == i,
                    forall|c: int| 0 <= c < i ==> #[trigger] line@[c] == self.symbol_grid(owners)[j as int][c],
                decreases len - i,
            {
                let t = &self.tiles[j][i];
                let s = if owners {
                    t.tile_owner_symbol()
                } else {
                    t.tile_type_symbol()
                };
                line.push(s);
                i += 1;
            }
            assert(line@ =~= self.symbol_grid(owners)[j as int]);
            out.push(line);
            j += 1;
        }
        assert(out@.map_values(|v: Vec<MapSymbol>| v@) =~= self.symbol_grid(owners));
        out
    }

    /// The console drawing of the map with each hex's terrain symbol.
    pub fn board_tiles_layout(&self) -> (r: Vec<Vec<BoardCell>>)
        requires
            self.wf(),
        ensures
            r@.len() == 2 * self.height() + 2,
            forall|k: int|
                0 <= k < r@.len() ==> #[trigger] r@[k]@ == board_lines(
                    self.width() as nat,
                    self.height() as nat,
                    self.symbol_grid(false),
                )[k],
    {
        let symbols = self.symbols(false);
        board_layout(self.board_width, self.board_height, &symbols)
    }

    /// The console drawing of the map with each hex's owner symbol.
    pub fn board_owners_layout(&self) -> (r: Vec<Vec<BoardCell>>)
        requires
            self.wf(),
        ensures
            r@.len() == 2 * self.height() + 2,
            forall|k: int|
                0 <= k < r@.len() ==> #[trigger] r@[k]@ == board_lines(
                    self.width() as nat,
                    self.height() as nat,
                    self.symbol_grid(true),
                )[k],
    {
        let symbols = self.symbols(true);
        board_layout(self.board_width, self.board_height, &symbols)
    }

    /// Get the neighbors of a given hex
    pub fn get_neighbors(&self, row: usize, column: usize) -> (r: TileNeighbors<'_>)
        requires
            self.wf(),
            in_grid(self.width(), self.height(), row as int, column as int),
        ensures
            r.spec_location() == (row, column),
            r.spec_tile() == self.tile_at(row as int, column as int),
            forall|d: Direction|
                #[trigger] r.spec_neighbor(d) == match self.neighbor_tile(row as int, column as int, d) {
                    Some(t) => Some(&t),
                    None => None,
                },
    {
        let tile = &self.tiles[row][column];
        let right = self.get_tile(row, column + 1);
        let left = if column == 0 {
            None
        } else {
            self.get_tile(row, column - 1)
        };
        let (upper_left, upper_right, lower_right, lower_left) = if row % 2 == 0 {
            let ul = if row == 0 || column == 0 {
                None
            } else {
                self.get_tile(row - 1, column - 1)
            };
            let ur = if row == 0 {
                None
            } else {
                self.get_tile(row - 1, column)
            };
            let lr = self.get_tile(row + 1, column);
            let ll = if column == 0 {
                None
            } else {
                self.get_tile(row + 1, column - 1)
            };
            (ul, ur, lr, ll)
        } else {
            let ul = if row == 0 {
                None
            } else {
                self.get_tile(row - 1, column)
            };
            let ur = if row == 0 {
                None
            } else {
                self.get_tile(row - 1, column + 1)
            };
            let lr = self.get_tile(row + 1, column + 1);
            let ll = self.get_tile(row + 1, column);
            (ul, ur, lr, ll)
        };
        TileNeighbors::new(
            (row, column),
            tile,
            left,
            upper_left,
            upper_right,
            right,
            lower_right,
            lower_left,
        )
    }

    /// Get a reference to a tile from the board
    pub fn get_tile(&self, row: usize, column: usize) -> (r: Option<&MapTile>)
        requires
            self.wf(),
        ensures
            r == match self.tile_in_grid(row as int, column as int) {
                Some(t) => Some(&t),
                None => None,
            },
    {
        if row < self.tiles.len() && column < self.tiles[row].len() {
            Some(&self.tiles[row][column])
        } else {
            None
        }
    }

    /// Set a tile
    pub fn set_tile(&mut self, row: usize, column: usize, tile: MapTile)
        requires
            old(self).wf(),
            in_grid(old(self).width(), old(self).height(), row as int, column as int),
        ensures
            final(self).wf(),
            final(self).width() == old(self).width(),
            final(self).height() == old(self).height(),
            forall|r: int, c: int|
                in_grid(old(self).width(), old(self).height(), r, c) ==> #[trigger] final(self).tile_at(r, c)
                    == if r == row && c == column {
                    tile
                } else {
                    old(self).tile_at(r, c)
                },
    {
        self.tiles[row][column] = tile;
    }
}

/// Whether `after` is `before` with every owner painted by zone: the same
/// size, each hex owned as `zone_owner` says, and its terrain kept.
pub open spec fn paints(before: BattleMap, after: BattleMap) -> bool {
    &&& after.wf()
    &&& after.width() == before.width()
    &&& after.height() == before.height()
    &&& forall|r: int, c: int|
        in_grid(after.width(), after.height(), r, c) ==> {
            &&& #[trigger] after.tile_at(r, c).spec_owner() == zone_owner(after.width(), after.height(), r, c)
            &&& after.tile_at(r, c).spec_type() == before.tile_at(r, c).spec_type()
        }
}

/// After painting, every hex has exactly one owner: it lies in exactly one
/// of the five zones, its owner names that zone, and none is unassigned.
pub proof fn lemma_paint_total(before: BattleMap, after: BattleMap)
    requires
        paints(before, after),
    ensures
        forall|r: int, c: int|
            in_grid(after.width(), after.height(), r, c) ==> {
                &&& #[trigger] after.tile_at(r, c).spec_owner() != TileOwner::Unassigned
                &&& zones_containing(after.width(), after.height(), r, c) == 1
                &&& in_zone(after.tile_at(r, c).spec_owner(), after.width(), after.height(), r, c)
            },
{
    assert forall|r: int, c: int| in_grid(after.width(), after.height(), r, c) implies {
        &&& #[trigger] after.tile_at(r, c).spec_owner() != TileOwner::Unassigned
        &&& zones_containing(after.width(), after.height(), r, c) == 1
        &&& in_zone(after.tile_at(r, c).spec_owner(), after.width(), after.height(), r, c)
    } by {
        lemma_zones_partition(after.width(), after.height(), r, c);
    }
}

/// Painting a painted map changes none of its hexes.
pub proof fn lemma_paint_idempotent(m0: BattleMap, m1: BattleMap, m2: BattleMap)
    requires
        paints(m0, m1),
        paints(m1, m2),
    ensures
        m2.width() == m1.width(),
        m2.height() == m1.height(),
        forall|r: int, c: int|
            in_grid(m1.width(), m1.height(), r, c) ==> #[trigger] m2.tile_at(r, c) == m1.tile_at(r, c),
{
    assert forall|r: int, c: int| in_grid(m1.width(), m1.height(), r, c) implies #[trigger] m2.tile_at(r, c)
        == m1.tile_at(r, c) by {
        MapTile::lemma_attributes_determine(m2.tile_at(r, c), m1.tile_at(r, c));
    }
}

/// Owners after painting depend on the map's size alone: two maps of one size
/// are painted alike, whatever terrain or owners they held before.
pub proof fn lemma_paint_ignores_contents(a0: BattleMap, a1: BattleMap, b0: BattleMap, b1: BattleMap)
    requires
        paints(a0, a1),
        paints(b0, b1),
        a0.width() == b0.width(),
        a0.height() == b0.height(),
    ensures
        forall|r: int, c: int|
            in_grid(a1.width(), a1.height(), r, c) ==> #[trigger] a1.tile_at(r, c).spec_owner()
                == b1.tile_at(r, c).spec_owner(),
{
}

/// How many hexes of each feature a battle map should hold.
#[derive(Clone, Copy, PartialEq, Eq, Structural, Debug)]
pub struct FeatureTargets {
    pub towns: u128,
    pub rivers: u128,
    pub mountains: u128,
    pub hills: u128,
}

/// Builds battle maps from the campaign tiles around a battle.
pub struct MapGenerator {
    base_tiles: CampaignGenerationTiles,
}

impl MapGenerator {
    pub closed spec fn spec_base_tiles(&self) -> CampaignGenerationTiles {
        self.base_tiles
    }

    pub fn new(base_tiles: CampaignGenerationTiles) -> (r: Self)
        ensures
            r.spec_base_tiles() == base_tiles,
    {
        MapGenerator { base_tiles }
    }

    /// A generator over default campaign tiles, with no features around and
    /// search radius 1.
    pub fn default() -> (r: Self)
        ensures
            r.spec_base_tiles().spec_sides().0 == CampaignMapTile::spec_default(),
            r.spec_base_tiles().spec_sides().1 == CampaignMapTile::spec_default(),
            r.spec_base_tiles().spec_sides().2 == CampaignMapTile::spec_default(),
            r.spec_base_tiles().spec_sides().3 == CampaignMapTile::spec_default(),
            forall|f: TerrainFeature| #[trigger] r.spec_base_tiles().spec_count(f) == 0,
            r.spec_base_tiles().spec_radius() == 1,
    {
        MapGenerator { base_tiles: CampaignGenerationTiles::default() }
    }

    /// Create the default map size (15w x 11h)
    pub fn create_default_map(&self) -> (r: BattleMap)
        ensures
            r.wf(),
            r.width() == 15,
            r.height() == 11,
            forall|row: int, c: int|
                in_grid(15, 11, row, c) ==> {
                    &&& #[trigger] r.tile_at(row, c).spec_owner() == zone_owner(15, 11, row, c)
                    &&& r.tile_at(row, c).spec_type() == BattleMapTileType::Default
                },
    {
        self.create_map(15, 11)
    }

    /// A map of the given size with default terrain and every owner painted
    /// by zone.
    pub fn create_map(&self, board_width: usize, board_height: usize) -> (r: BattleMap)
        requires
            board_width >= 4,
            board_height >= 2,
        ensures
            r.wf(),
            r.width() == board_width,
            r.height() == board_height,
            forall|row: int, c: int|
                in_grid(board_width as int, board_height as int, row, c) ==> {
                    &&& #[trigger] r.tile_at(row, c).spec_owner() == zone_owner(
                        board_width as int,
                        board_height as int,
                        row,
                        c,
                    )
                    &&& r.tile_at(row, c).spec_type() == BattleMapTileType::Default
                },
    {
        let mut m = BattleMap {
            tiles: self.create_empty_board(board_width, board_height),
            board_height,
            board_width,
        };
        let ghost empty = m;
        self.set_tile_owners(&mut m);
        assert(forall|row: int, c: int|
            in_grid(board_width as int, board_height as int, row, c)
                ==> #[trigger] empty.tile_at(row, c).spec_type() == BattleMapTileType::Default);
        m
    }

    /// Create an empty board based on the widths and heights passed
    fn create_empty_board(&self, width: usize, height: usize) -> (r: Vec<Vec<MapTile>>)
        requires
            width >= 4,
            height >= 2,
        ensures
            r@.len() == height,
            forall|row: int| 0 <= row < height ==> #[trigger] r@[row]@.len() == row_width(width as int, row),
            forall|row: int, c: int|
                0 <= row < height && 0 <= c < row_width(width as int, row) ==> {
                    &&& #[trigger] r@[row]@[c].spec_type() == BattleMapTileType::Default
                    &&& r@[row]@[c].spec_owner() == TileOwner::Unassigned
                },
    {
        let mut board: Vec<Vec<MapTile>> = Vec::new();
        let mut j: usize = 0;
        while j < height
            invariant
                j <= height,
                board@.len() == j,
                forall|row: int| 0 <= row < j ==> #[trigger] board@[row]@.len() == row_width(width as int, row),
                forall|row: int, c: int|
                    0 <= row < j && 0 <= c < row_width(width as int, row) ==> {
                        &&& #[trigger] board@[row]@[c].spec_type() == BattleMapTileType::Default
                        &&& board@[row]@[c].spec_owner() == TileOwner::Unassigned
                    },
            decreases height - j,
        {
            let len = row_width_of(width, j);
            let mut row: Vec<MapTile> = Vec::new();
            let mut i: usize = 0;
            while i < len
                invariant
                    i <= len,
                    row@.len() == i,
                    forall|c: int|
                        0 <= c < i ==> {
                            &&& #[trigger] row@[c].spec_type() == BattleMapTileType::Default
                            &&& row@[c].spec_owner() == TileOwner::Unassigned
                        },
                decreases len - i,
            {
                row.push(MapTile::default());
                i += 1;
            }
            board.push(row);
            j += 1;
        }
        board
    }

    /// How many hexes of each feature `map` should hold, from the feature
    /// densities around the battle and the number of hexes on the map; `None`
    /// where that number does not fit in a `u64`.
    pub fn feature_targets(&self, map: &BattleMap) -> (r: Option<FeatureTargets>)
        ensures
            tile_count(map.width(), map.height()) <= u64::MAX <==> r is Some,
            r matches Some(t) ==> {
                let total = tile_count(map.width(), map.height());
                let radius = self.spec_base_tiles().spec_radius() as int;
                let counts = self.spec_base_tiles();
                &&& t.towns == feature_target(counts.spec_count(TerrainFeature::Town) as int, radius, total)
                &&& t.rivers == feature_target(counts.spec_count(TerrainFeature::River) as int, radius, total)
                &&& t.mountains == feature_target(counts.spec_count(TerrainFeature::Mountain) as int, radius, total)
                &&& t.hills == feature_target(counts.spec_count(TerrainFeature::Hill) as int, radius, total)
            },
    {
        let w = map.board_width as u128;
        let h = map.board_height as u128;
        assert(w * h <= u128::MAX) by (nonlinear_arith)
            requires
                w <= u64::MAX,
                h <= u64::MAX,
        ;
        let short_rows = if w % 2 == 1 {
            h / 2
        } else {
            0
        };
        assert(w * h >= short_rows) by (nonlinear_arith)
            requires
                w % 2 == 1 ==> short_rows == h / 2,
                w % 2 == 0 ==> short_rows == 0,
                h >= 0,
        ;
        let total = w * h - short_rows;
        assert(total == tile_count(w as int, h as int)) by {
            let wi = w as int;
            let hi = h as int;
            if w % 2 == 1 {
                assert(wi % 2 == 1);
                assert((wi % 2) * (hi / 2) == hi / 2);
            } else {
                assert(wi % 2 == 0);
                assert((wi % 2) * (hi / 2) == 0);
            }
        }
        if total > u64::MAX as u128 {
            return None;
        }
        let total = total as u64;
        Some(FeatureTargets {
            towns: self.base_tiles.target_feature_count(TerrainFeature::Town, total),
            rivers: self.base_tiles.target_feature_count(TerrainFeature::River, total),
            mountains: self.base_tiles.target_feature_count(TerrainFeature::Mountain, total),
            hills: self.base_tiles.target_feature_count(TerrainFeature::Hill, total),
        })
    }

    /// Paints every hex's owner by zone: the first and the last quarter-width
    /// columns of each row are the flanks; between them the top half of the rows belongs
    /// to the attacker, the bottom half to the defender, and the middle row of
    /// an odd height is split. Terrain is left as it is.
    pub fn set_tile_owners(&self, map: &mut BattleMap)
        requires
            old(map).wf(),
        ensures
            paints(*old(map), *final(map)),
    {
        let flank_width = map.board_width / 4;
        let vertical_owner_depth = map.board_height / 2;
        let width = map.board_width;
        let height = map.board_height;
        let mut row: usize = 0;
        while row < height
            invariant
                map.wf(),
                map.width() == width,
                map.height() == height,
                width == old(map).width(),
                height == old(map).height(),
                flank_width == width / 4,
                vertical_owner_depth == height / 2,
                row <= height,
                forall|r: int, c: int|
                    0 <= r < row && 0 <= c < row_width(width as int, r) ==> {
                        &&& #[trigger] map.tile_at(r, c).spec_owner() == zone_owner(width as int, height as int, r, c)
                        &&& map.tile_at(r, c).spec_type() == old(map).tile_at(r, c).spec_type()
                    },
                forall|r: int, c: int|
                    row <= r < height && 0 <= c < row_width(width as int, r) ==> #[trigger] map.tile_at(r, c)
                        == old(map).tile_at(r, c),
            decreases height - row,
        {
            let middle = if row < vertical_owner_depth {
                TileOwner::Attacker
            } else if row >= height - vertical_owner_depth {
                TileOwner::Defender
            } else {
                TileOwner::SplitAttDef
            };
            let ghost before = *map;
            paint_row(&mut map.tiles[row], flank_width, middle);
            assert forall|r: int, c: int| 0 <= r <= row && 0 <= c < row_width(width as int, r) implies {
                &&& #[trigger] map.tile_at(r, c).spec_owner() == zone_owner(width as int, height as int, r, c)
                &&& map.tile_at(r, c).spec_type() == old(map).tile_at(r, c).spec_type()
            } by {
                if r < row {
                    assert(map.tiles@[r] == before.tiles@[r]);
                    assert(before.tile_at(r, c).spec_owner() == zone_owner(width as int, height as int, r, c));
                } else {
                    assert(before.tiles@[r]@.len() == row_width(width as int, r));
                    assert(before.tile_at(r, c) == old(map).tile_at(r, c));
                }
            }
            assert forall|r: int, c: int| row < r < height && 0 <= c < row_width(width as int, r) implies #[trigger] map.tile_at(r, c)
                == old(map).tile_at(r, c) by {
                assert(map.tiles@[r] == before.tiles@[r]);
                assert(before.tile_at(r, c) == old(map).tile_at(r, c));
            }
            row += 1;
        }
    }
}

/// Number of hexes in `row` of a map `width` hexes wide.
fn row_width_of(width: usize, row: usize) -> (r: usize)
    ensures
        r == row_width(width as int, row as int),
{
    if width % 2 == 0 || row % 2 == 0 {
        width
    } else {
        width - 1
    }
}

/// Paints one row: `flank_width` hexes of left flank at its start, as many of
/// right flank at its end, and `middle` between them.
fn paint_row(tiles: &mut Vec<MapTile>, flank_width: usize, middle: TileOwner)
    requires
        2 * flank_width <= old(tiles)@.len(),
    ensures
        final(tiles)@.len() == old(tiles)@.len(),
        forall|c: int|
            0 <= c < old(tiles)@.len() ==> {
                &&& #[trigger] final(tiles)@[c].spec_owner() == if c < flank_width {
                    TileOwner::LeftFlank
                } else if c >= old(tiles)@.len() - flank_width {
                    TileOwner::RightFlank
                } else {
                    middle
                }
                &&& final(tiles)@[c].spec_type() == old(tiles)@[c].spec_type()
            },
{
    let len = tiles.len();
    let mut i: usize = 0;
    while i < len
        invariant
            i <= len,
            len == old(tiles)@.len(),
            2 * flank_width <= len,
            tiles@.len() == len,
            forall|c: int|
                0 <= c < i ==> {
                    &&& #[trigger] tiles@[c].spec_owner() == if c < flank_width {
                        TileOwner::LeftFlank
                    } else if c >= len - flank_width {
                        TileOwner::RightFlank
                    } else {
                        middle
                    }
                    &&& tiles@[c].spec_type() == old(tiles)@[c].spec_type()
                },
            forall|c: int| i <= c < len ==> #[trigger] tiles@[c] == old(tiles)@[c],
        decreases len - i,
    {
        let owner = if i < flank_width {
            TileOwner::LeftFlank
        } else if i >= len - flank_width {
            TileOwner::RightFlank
        } else {
            middle
        };
        tiles[i].set_owner(owner);
        i += 1;
    }
}

} // verus!
