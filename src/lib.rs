use vstd::prelude::*;

pub mod battle_map;
pub mod hex;
pub mod map_tiles;
pub mod render;
pub mod zones;

verus! {

} // verus!
