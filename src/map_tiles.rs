use vstd::prelude::*;

verus! {

/// Terrain of a tile on the campaign map.
#[derive(Clone, Copy, PartialEq, Eq, Structural, Debug)]
pub enum CampaignMapTileType {
    Forest,
    Hill,
    Mountain,
    Outpost,
    Plains,
    River,
    Road,
    Swamp,
    Town,
    Default,
}

/// A feature laid over a campaign map tile.
#[derive(Clone, Copy, PartialEq, Eq, Structural, Debug)]
pub enum CampaignMapTileAddOn {
    Road,
    River,
    RiverFord,
    RiverBridge,
}

/// A tile of the campaign map from which a battle map is derived.
#[derive(Clone, Copy, PartialEq, Eq, Structural, Debug)]
pub struct CampaignMapTile {
    pub tile: CampaignMapTileType,
    pub add_on: Option<CampaignMapTileAddOn>,
}

impl CampaignMapTile {
    /// Unset terrain and nothing laid over it.
    pub open spec fn spec_default() -> CampaignMapTile {
        CampaignMapTile { tile: CampaignMapTileType::Default, add_on: None }
    }

    pub fn default() -> (r: Self)
        ensures
            r == CampaignMapTile::spec_default(),
    {
        CampaignMapTile { tile: CampaignMapTileType::Default, add_on: None }
    }
}

/// A terrain feature counted around the battle's location on the campaign map.
#[derive(Clone, Copy, PartialEq, Eq, Structural, Debug)]
pub enum TerrainFeature {
    Town,
    River,
    Mountain,
    Hill,
}

/// Number of hexes within `radius` steps of a centre hex: 3r² + 3r + 1.
pub open spec fn hex_area(radius: int) -> int {
    3 * (radius * radius) + 3 * radius + 1
}

/// How many hexes of a feature a map of `total_tiles` hexes should hold: the
/// feature's density, `count / hex_area(radius)`, times the tile count,
/// rounded down.
pub open spec fn feature_target(count: int, radius: int, total_tiles: int) -> int {
    count * total_tiles / hex_area(radius)
}

/// A feature absent from the search area has density zero, whatever the
/// radius, and so a target of zero on any map.
pub proof fn lemma_zero_count_zero_target(radius: int, total_tiles: int)
    requires
        radius >= 0,
        total_tiles >= 0,
    ensures
        feature_target(0, radius, total_tiles) == 0,
{
    assert(hex_area(radius) >= 1) by (nonlinear_arith)
        requires
            radius >= 0,
    ;
}

/// Campaign tiles from which the battle map is generated, with the counts of
/// features found within the search radius. Left and right flank tiles are
/// taken from the defender's perspective.
pub struct CampaignGenerationTiles {
    attacker: CampaignMapTile,
    defender: CampaignMapTile,
    left_flank: CampaignMapTile,
    right_flank: CampaignMapTile,
    cities_within_search_radius: u32,
    rivers_within_search_radius: u32,
    mountains_within_search_radius: u32,
    hills_within_search_radius: u32,
    search_radius: u32,
}

impl CampaignGenerationTiles {
    /// The campaign tiles of the attacker, the defender, the left flank and
    /// the right flank.
    pub closed spec fn spec_sides(
        self,
    ) -> (CampaignMapTile, CampaignMapTile, CampaignMapTile, CampaignMapTile) {
        (self.attacker, self.defender, self.left_flank, self.right_flank)
    }

    /// How many of `f` lie within the search radius.
    pub closed spec fn spec_count(self, f: TerrainFeature) -> u32 {
        match f {
            TerrainFeature::Town => self.cities_within_search_radius,
            TerrainFeature::River => self.rivers_within_search_radius,
            TerrainFeature::Mountain => self.mountains_within_search_radius,
            TerrainFeature::Hill => self.hills_within_search_radius,
        }
    }

    pub closed spec fn spec_radius(self) -> u32 {
        self.search_radius
    }

    pub fn new(
        attacker: CampaignMapTile,
        defender: CampaignMapTile,
        left_flank: CampaignMapTile,
        right_flank: CampaignMapTile,
        cities: u32,
        rivers: u32,
        mountains: u32,
        hills: u32,
        search_radius: u32,
    ) -> (r: Self)
        ensures
            r.spec_sides() == (attacker, defender, left_flank, right_flank),
            r.spec_count(TerrainFeature::Town) == cities,
            r.spec_count(TerrainFeature::River) == rivers,
            r.spec_count(TerrainFeature::Mountain) == mountains,
            r.spec_count(TerrainFeature::Hill) == hills,
            r.spec_radius() == search_radius,
    {
        CampaignGenerationTiles {
            attacker,
            defender,
            left_flank,
            right_flank,
            cities_within_search_radius: cities,
            rivers_within_search_radius: rivers,
            mountains_within_search_radius: mountains,
            hills_within_search_radius: hills,
            search_radius,
        }
    }

    /// Default campaign tiles, no features, search radius 1.
    pub fn default() -> (r: Self)
        ensures
            r.spec_sides().0.tile == CampaignMapTileType::Default,
            r.spec_sides().1.tile == CampaignMapTileType::Default,
            r.spec_sides().2.tile == CampaignMapTileType::Default,
            r.spec_sides().3.tile == CampaignMapTileType::Default,
            r.spec_sides().0.add_on is None,
            r.spec_sides().1.add_on is None,
            r.spec_sides().2.add_on is None,
            r.spec_sides().3.add_on is None,
            forall|f: TerrainFeature| #[trigger] r.spec_count(f) == 0,
            r.spec_radius() == 1,
    {
        CampaignGenerationTiles {
            attacker: CampaignMapTile::default(),
            defender: CampaignMapTile::default(),
            left_flank: CampaignMapTile::default(),
            right_flank: CampaignMapTile::default(),
            cities_within_search_radius: 0,
            rivers_within_search_radius: 0,
            mountains_within_search_radius: 0,
            hills_within_search_radius: 0,
            search_radius: 1,
        }
    }

    /// Calculate the number of hexes within the given radius
    pub fn radius_search_size(radius: u32) -> (r: u128)
        ensures
            r == hex_area(radius as int),
    {
        let r = radius as u128;
        assert(3 * (r * r) + 3 * r + 1 <= u128::MAX) by (nonlinear_arith)
            requires
                r <= u32::MAX,
        ;
        3 * (r * r) + 3 * r + 1
    }

    pub fn search_radius(&self) -> (r: u32)
        ensures
            r == self.spec_radius(),
    {
        self.search_radius
    }

    /// How many of `f` lie within the search radius.
    pub fn feature_count(&self, f: TerrainFeature) -> (r: u32)
        ensures
            r == self.spec_count(f),
    {
        match f {
            TerrainFeature::Town => self.cities_within_search_radius,
            TerrainFeature::River => self.rivers_within_search_radius,
            TerrainFeature::Mountain => self.mountains_within_search_radius,
            TerrainFeature::Hill => self.hills_within_search_radius,
        }
    }

    /// The density of `f` as an exact fraction: its count over the number of
    /// hexes in the search area.
    pub fn density_fraction(&self, f: TerrainFeature) -> (r: (u32, u128))
        ensures
            r.0 == self.spec_count(f),
            r.1 == hex_area(self.spec_radius() as int),
    {
        (self.feature_count(f), CampaignGenerationTiles::radius_search_size(self.search_radius))
    }

    /// How many hexes of `f` a map of `total_tiles` hexes should hold.
    pub fn target_feature_count(&self, f: TerrainFeature, total_tiles: u64) -> (r: u128)
        ensures
            r == feature_target(self.spec_count(f) as int, self.spec_radius() as int, total_tiles as int),
    {
        let (count, area) = self.density_fraction(f);
        let count = count as u128;
        let total = total_tiles as u128;
        assert(count * total <= u128::MAX) by (nonlinear_arith)
            requires
                count <= u32::MAX,
                total <= u64::MAX,
        ;
        assert(area >= 1) by (nonlinear_arith)
            requires
                area == hex_area(self.spec_radius() as int),
                self.spec_radius() >= 0,
        ;
        count * total / area
    }
}

/// Ownership zone of a battle map hex.
///
/// `Unassigned` marks a tile that zone painting has not reached yet; a painted
/// map holds none.
#[derive(Clone, Copy, PartialEq, Eq, Structural, Debug)]
pub enum TileOwner {
    Defender,
    Attacker,
    LeftFlank,
    RightFlank,
    SplitAttDef,
    Unassigned,
}

/// Terrain of a battle map hex.
#[derive(Clone, Copy, PartialEq, Eq, Structural, Debug)]
pub enum BattleMapTileType {
    Forest,
    Hill,
    Mountain,
    Outpost,
    Plains,
    River,
    Road,
    Swamp,
    Town,
    Default,
}

/// Console colours used to draw map symbols.
#[derive(Clone, Copy, PartialEq, Eq, Structural, Debug)]
pub enum SymbolColor {
    Black,
    Red,
    Green,
    Yellow,
    Blue,
    Magenta,
    Cyan,
    White,
}

/// One letter of the console map with its foreground colour, and whether it
/// stands on a white background.
#[derive(Clone, Copy, PartialEq, Eq, Structural, Debug)]
pub struct MapSymbol {
    pub letter: char,
    pub color: SymbolColor,
    pub on_white: bool,
}

impl TileOwner {
    pub open spec fn spec_symbol(self) -> MapSymbol {
        match self {
            TileOwner::Defender => MapSymbol { letter: 'D', color: SymbolColor::Cyan, on_white: false },
            TileOwner::Attacker => MapSymbol { letter: 'A', color: SymbolColor::Red, on_white: false },
            TileOwner::LeftFlank => MapSymbol { letter: 'L', color: SymbolColor::Green, on_white: false },
            TileOwner::RightFlank => MapSymbol { letter: 'R', color: SymbolColor::Magenta, on_white: false },
            TileOwner::SplitAttDef => MapSymbol { letter: 'S', color: SymbolColor::Yellow, on_white: false },
            TileOwner::Unassigned => MapSymbol { letter: '?', color: SymbolColor::White, on_white: false },
        }
    }

    /// The letter and colour that draw this owner on the console map.
    pub fn symbol(&self) -> (r: MapSymbol)
        ensures
            r == self.spec_symbol(),
    {
        match self {
            TileOwner::Defender => MapSymbol { letter: 'D', color: SymbolColor::Cyan, on_white: false },
            TileOwner::Attacker => MapSymbol { letter: 'A', color: SymbolColor::Red, on_white: false },
            TileOwner::LeftFlank => MapSymbol { letter: 'L', color: SymbolColor::Green, on_white: false },
            TileOwner::RightFlank => MapSymbol { letter: 'R', color: SymbolColor::Magenta, on_white: false },
            TileOwner::SplitAttDef => MapSymbol { letter: 'S', color: SymbolColor::Yellow, on_white: false },
            TileOwner::Unassigned => MapSymbol { letter: '?', color: SymbolColor::White, on_white: false },
        }
    }
}

impl BattleMapTileType {
    pub open spec fn spec_symbol(self) -> MapSymbol {
        match self {
            BattleMapTileType::Forest => MapSymbol { letter: 'F', color: SymbolColor::Green, on_white: false },
            BattleMapTileType::Hill => MapSymbol { letter: 'H', color: SymbolColor::Yellow, on_white: false },
            BattleMapTileType::Mountain => MapSymbol { letter: 'M', color: SymbolColor::Magenta, on_white: false },
            BattleMapTileType::Outpost => MapSymbol { letter: 'O', color: SymbolColor::Black, on_white: true },
            BattleMapTileType::Plains => MapSymbol { letter: 'P', color: SymbolColor::Blue, on_white: false },
            BattleMapTileType::River => MapSymbol { letter: 'R', color: SymbolColor::Cyan, on_white: false },
            BattleMapTileType::Road => MapSymbol { letter: 'V', color: SymbolColor::Black, on_white: true },
            BattleMapTileType::Swamp => MapSymbol { letter: 'S', color: SymbolColor::Yellow, on_white: false },
            BattleMapTileType::Town => MapSymbol { letter: 'T', color: SymbolColor::Black, on_white: true },
            BattleMapTileType::Default => MapSymbol { letter: 'D', color: SymbolColor::White, on_white: false },
        }
    }

    /// The letter and colour that draw this terrain on the console map.
    pub fn symbol(&self) -> (r: MapSymbol)
        ensures
            r == self.spec_symbol(),
    {
        match self {
            BattleMapTileType::Forest => MapSymbol { letter: 'F', color: SymbolColor::Green, on_white: false },
            BattleMapTileType::Hill => MapSymbol { letter: 'H', color: SymbolColor::Yellow, on_white: false },
            BattleMapTileType::Mountain => MapSymbol { letter: 'M', color: SymbolColor::Magenta, on_white: false },
            BattleMapTileType::Outpost => MapSymbol { letter: 'O', color: SymbolColor::Black, on_white: true },
            BattleMapTileType::Plains => MapSymbol { letter: 'P', color: SymbolColor::Blue, on_white: false },
            BattleMapTileType::River => MapSymbol { letter: 'R', color: SymbolColor::Cyan, on_white: false },
            BattleMapTileType::Road => MapSymbol { letter: 'V', color: SymbolColor::Black, on_white: true },
            BattleMapTileType::Swamp => MapSymbol { letter: 'S', color: SymbolColor::Yellow, on_white: false },
            BattleMapTileType::Town => MapSymbol { letter: 'T', color: SymbolColor::Black, on_white: true },
            BattleMapTileType::Default => MapSymbol { letter: 'D', color: SymbolColor::White, on_white: false },
        }
    }
}

/// A hex of the battle map: its terrain and its owner, set independently.
#[derive(Clone, Copy, PartialEq, Eq, Structural, Debug)]
pub struct MapTile {
    t_type: BattleMapTileType,
    owner: TileOwner,
}

impl MapTile {
    /// The tile's terrain.
    pub closed spec fn spec_type(self) -> BattleMapTileType {
        self.t_type
    }

    /// The tile's owner.
    pub closed spec fn spec_owner(self) -> TileOwner {
        self.owner
    }

    /// A tile is determined by its two attributes.
    pub proof fn lemma_attributes_determine(a: MapTile, b: MapTile)
        requires
            a.spec_type() == b.spec_type(),
            a.spec_owner() == b.spec_owner(),
        ensures
            a == b,
    {
    }

    /// Unset terrain, owner not assigned yet.
    pub fn default() -> (r: Self)
        ensures
            r.spec_type() == BattleMapTileType::Default,
            r.spec_owner() == TileOwner::Unassigned,
    {
        MapTile { t_type: BattleMapTileType::Default, owner: TileOwner::Unassigned }
    }

    /// A tile of the given terrain, owner not assigned yet.
    pub fn new(t_type: BattleMapTileType) -> (r: Self)
        ensures
            r.spec_type() == t_type,
            r.spec_owner() == TileOwner::Unassigned,
    {
        MapTile { t_type, owner: TileOwner::Unassigned }
    }

    /// The symbol that draws this tile's terrain.
    pub fn tile_type_symbol(&self) -> (r: MapSymbol)
        ensures
            r == self.spec_type().spec_symbol(),
    {
        self.t_type.symbol()
    }

    /// The symbol that draws this tile's owner.
    pub fn tile_owner_symbol(&self) -> (r: MapSymbol)
        ensures
            r == self.spec_owner().spec_symbol(),
    {
        self.owner.symbol()
    }

    pub fn set_owner(&mut self, owner: TileOwner)
        ensures
            final(self).spec_owner() == owner,
            final(self).spec_type() == old(self).spec_type(),
    {
        self.owner = owner;
    }

    pub fn get_owner(&self) -> (r: &TileOwner)
        ensures
            *r == self.spec_owner(),
    {
        &self.owner
    }

    pub fn get_type(&self) -> (r: &BattleMapTileType)
        ensures
            *r == self.spec_type(),
    {
        &self.t_type
    }
}

} // verus!
