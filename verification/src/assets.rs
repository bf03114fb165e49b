//! The fixed list of tile assets the scene loads.
//!
//! Each entry is the path of one `.glb` scene resource, addressed by the
//! engine's asset loader; the list's order is the order of placement.

use vstd::prelude::*;
use vstd::string::StringExecFns;

verus! {

/// The paths of every tile asset, in placement order.
pub open spec fn spec_asset_paths() -> Seq<Seq<char>> {
    seq![
        "models/water.glb#Scene0"@,
        "models/water_rocks.glb#Scene0"@,
        "models/water_island.glb#Scene0"@,
        "models/river_straight.glb#Scene0"@,
        "models/river_start.glb#Scene0"@,
        "models/river_intersectionH.glb#Scene0"@,
        "models/river_intersectionG.glb#Scene0"@,
        "models/river_intersectionF.glb#Scene0"@,
        "models/river_intersectionE.glb#Scene0"@,
        "models/river_intersectionD.glb#Scene0"@,
        "models/river_intersectionC.glb#Scene0"@,
        "models/river_intersectionB.glb#Scene0"@,
        "models/river_intersectionA.glb#Scene0"@,
        "models/river_end.glb#Scene0"@,
        "models/river_crossing.glb#Scene0"@,
        "models/river_cornerSharp.glb#Scene0"@,
        "models/river_corner.glb#Scene0"@,
        "models/building_water.glb#Scene0"@,
        "models/building_wall.glb#Scene0"@,
        "models/building_village.glb#Scene0"@,
        "models/building_tower.glb#Scene0"@,
        "models/building_smelter.glb#Scene0"@,
        "models/building_sheep.glb#Scene0"@,
        "models/building_mine.glb#Scene0"@,
        "models/building_mill.glb#Scene0"@,
        "models/building_market.glb#Scene0"@,
        "models/building_house.glb#Scene0"@,
        "models/building_farm.glb#Scene0"@,
        "models/building_dock.glb#Scene0"@,
        "models/building_castle.glb#Scene0"@,
        "models/building_cabin.glb#Scene0"@,
        "models/sand.glb#Scene0"@,
        "models/sand_rocks.glb#Scene0"@,
        "models/grass.glb#Scene0"@,
        "models/grass_hill.glb#Scene0"@,
        "models/grass_forest.glb#Scene0"@,
        "models/dirt.glb#Scene0"@,
        "models/dirt_lumber.glb#Scene0"@,
        "models/stone.glb#Scene0"@,
        "models/stone_rocks.glb#Scene0"@,
        "models/stone_mountain.glb#Scene0"@,
        "models/stone_hill.glb#Scene0"@,
    ]
}

/// Builds the fixed asset path list, in placement order.
#[verifier::rlimit(60)]
pub fn tile_asset_paths() -> (v: Vec<String>)
    ensures
        v.deep_view() == spec_asset_paths(),
{
    let mut v: Vec<String> = Vec::new();
    v.push(String::from_str("models/water.glb#Scene0"));
    v.push(String::from_str("models/water_rocks.glb#Scene0"));
    v.push(String::from_str("models/water_island.glb#Scene0"));
    v.push(String::from_str("models/river_straight.glb#Scene0"));
    v.push(String::from_str("models/river_start.glb#Scene0"));
    v.push(String::from_str("models/river_intersectionH.glb#Scene0"));
    v.push(String::from_str("models/river_intersectionG.glb#Scene0"));
    v.push(String::from_str("models/river_intersectionF.glb#Scene0"));
    v.push(String::from_str("models/river_intersectionE.glb#Scene0"));
    v.push(String::from_str("models/river_intersectionD.glb#Scene0"));
    v.push(String::from_str("models/river_intersectionC.glb#Scene0"));
    v.push(String::from_str("models/river_intersectionB.glb#Scene0"));
    v.push(String::from_str("models/river_intersectionA.glb#Scene0"));
    v.push(String::from_str("models/river_end.glb#Scene0"));
    v.push(String::from_str("models/river_crossing.glb#Scene0"));
    v.push(String::from_str("models/river_cornerSharp.glb#Scene0"));
    v.push(String::from_str("models/river_corner.glb#Scene0"));
    v.push(String::from_str("models/building_water.glb#Scene0"));
    v.push(String::from_str("models/building_wall.glb#Scene0"));
    v.push(String::from_str("models/building_village.glb#Scene0"));
    v.push(String::from_str("models/building_tower.glb#Scene0"));
    v.push(String::from_str("models/building_smelter.glb#Scene0"));
    v.push(String::from_str("models/building_sheep.glb#Scene0"));
    v.push(String::from_str("models/building_mine.glb#Scene0"));
    v.push(String::from_str("models/building_mill.glb#Scene0"));
    v.push(String::from_str("models/building_market.glb#Scene0"));
    v.push(String::from_str("models/building_house.glb#Scene0"));
    v.push(String::from_str("models/building_farm.glb#Scene0"));
    v.push(String::from_str("models/building_dock.glb#Scene0"));
    v.push(String::from_str("models/building_castle.glb#Scene0"));
    v.push(String::from_str("models/building_cabin.glb#Scene0"));
    v.push(String::from_str("models/sand.glb#Scene0"));
    v.push(String::from_str("models/sand_rocks.glb#Scene0"));
    v.push(String::from_str("models/grass.glb#Scene0"));
    v.push(String::from_str("models/grass_hill.glb#Scene0"));
    v.push(String::from_str("models/grass_forest.glb#Scene0"));
    v.push(String::from_str("models/dirt.glb#Scene0"));
    v.push(String::from_str("models/dirt_lumber.glb#Scene0"));
    v.push(String::from_str("models/stone.glb#Scene0"));
    v.push(String::from_str("models/stone_rocks.glb#Scene0"));
    v.push(String::from_str("models/stone_mountain.glb#Scene0"));
    v.push(String::from_str("models/stone_hill.glb#Scene0"));
    proof {
        assert(v.deep_view() =~= spec_asset_paths());
    }
    v
}

} // verus!
