use vstd::prelude::*;
use crate::hex::row_width;
use crate::map_tiles::TileOwner;

verus! {

/// Width of each flank band: a quarter of the grid width, rounded down.
pub open spec fn flank_width(width: int) -> int {
    width / 4
}

/// Depth of the attacker band and of the defender band: half the grid height,
/// rounded down.
pub open spec fn vertical_depth(height: int) -> int {
    height / 2
}

/// Columns of `row` between the two flanks.
pub open spec fn in_middle(width: int, row: int, column: int) -> bool {
    flank_width(width) <= column < row_width(width, row) - flank_width(width)
}

pub open spec fn in_left_flank(width: int, column: int) -> bool {
    column < flank_width(width)
}

/// The last `flank_width` columns of `row`.
pub open spec fn in_right_flank(width: int, row: int, column: int) -> bool {
    column >= row_width(width, row) - flank_width(width)
}

pub open spec fn in_attacker_zone(width: int, height: int, row: int, column: int) -> bool {
    in_middle(width, row, column) && row < vertical_depth(height)
}

pub open spec fn in_defender_zone(width: int, height: int, row: int, column: int) -> bool {
    in_middle(width, row, column) && row >= height - vertical_depth(height)
}

/// The single middle row of an odd-height grid, between the flanks.
pub open spec fn in_split_zone(width: int, height: int, row: int, column: int) -> bool {
    in_middle(width, row, column) && height % 2 == 1 && row == vertical_depth(height)
}

/// The owner that zone painting gives the hex at (row, column): flanks first,
/// then the attacker rows at the top, the defender rows at the bottom, and the
/// split row between them.
pub open spec fn zone_owner(width: int, height: int, row: int, column: int) -> TileOwner {
    if in_left_flank(width, column) {
        TileOwner::LeftFlank
    } else if in_right_flank(width, row, column) {
        TileOwner::RightFlank
    } else if row < vertical_depth(height) {
        TileOwner::Attacker
    } else if row >= height - vertical_depth(height) {
        TileOwner::Defender
    } else {
        TileOwner::SplitAttDef
    }
}

/// How many of the five zones hold the hex at (row, column).
pub open spec fn zones_containing(width: int, height: int, row: int, column: int) -> int {
    (if in_left_flank(width, column) { 1int } else { 0 })
        + (if in_right_flank(width, row, column) { 1int } else { 0 })
        + (if in_attacker_zone(width, height, row, column) { 1int } else { 0 })
        + (if in_defender_zone(width, height, row, column) { 1int } else { 0 })
        + (if in_split_zone(width, height, row, column) { 1int } else { 0 })
}

/// Whether the hex at (row, column) lies in the zone that `owner` names.
pub open spec fn in_zone(owner: TileOwner, width: int, height: int, row: int, column: int) -> bool {
    match owner {
        TileOwner::LeftFlank => in_left_flank(width, column),
        TileOwner::RightFlank => in_right_flank(width, row, column),
        TileOwner::Attacker => in_attacker_zone(width, height, row, column),
        TileOwner::Defender => in_defender_zone(width, height, row, column),
        TileOwner::SplitAttDef => in_split_zone(width, height, row, column),
        TileOwner::Unassigned => false,
    }
}

/// The five zones partition every grid of width at least 4 and height at
/// least 2: each hex lies in exactly one of them, and `zone_owner` names that
/// one, so no hex is left unassigned.
pub proof fn lemma_zones_partition(width: int, height: int, row: int, column: int)
    requires
        width >= 4,
        height >= 2,
        0 <= row < height,
        0 <= column < row_width(width, row),
    ensures
        zones_containing(width, height, row, column) == 1,
        in_zone(zone_owner(width, height, row, column), width, height, row, column),
        zone_owner(width, height, row, column) != TileOwner::Unassigned,
{
}

/// The owner seen in a mirror that swaps left and right.
pub open spec fn swap_flanks(owner: TileOwner) -> TileOwner {
    match owner {
        TileOwner::LeftFlank => TileOwner::RightFlank,
        TileOwner::RightFlank => TileOwner::LeftFlank,
        _ => owner,
    }
}

/// The owner seen in a mirror that swaps top and bottom.
pub open spec fn swap_sides(owner: TileOwner) -> TileOwner {
    match owner {
        TileOwner::Attacker => TileOwner::Defender,
        TileOwner::Defender => TileOwner::Attacker,
        _ => owner,
    }
}

/// Each row is painted symmetrically: the hex as far from the row's end as
/// another is from its start has the same owner, with the flanks swapped.
pub proof fn lemma_zones_mirror_columns(width: int, height: int, row: int, column: int)
    requires
        width >= 4,
        height >= 2,
        0 <= row < height,
        0 <= column < row_width(width, row),
    ensures
        zone_owner(width, height, row, row_width(width, row) - 1 - column) == swap_flanks(
            zone_owner(width, height, row, column),
        ),
{
}

/// Where every column reaches the same length in mirrored rows (an even width,
/// or an odd height, whose mirror keeps each row's parity), the bottom half is
/// painted as the top half with attacker and defender swapped.
pub proof fn lemma_zones_mirror_rows(width: int, height: int, row: int, column: int)
    requires
        width >= 4,
        height >= 2,
        width % 2 == 0 || height % 2 == 1,
        0 <= row < height,
        0 <= column < row_width(width, row),
    ensures
        row_width(width, height - 1 - row) == row_width(width, row),
        zone_owner(width, height, height - 1 - row, column) == swap_sides(
            zone_owner(width, height, row, column),
        ),
{
}

} // verus!
