//! Planning the scene: one placement per asset, a camera, a light.

use vstd::prelude::*;
use crate::assets::{spec_asset_paths, tile_asset_paths};
use crate::camera::{camera_rig, spec_camera_rig, CameraRig};
use crate::units::{fixed_from_units, Vec3Fixed, MAX_WHOLE_COORD};

verus! {

/// One spawned instance: which asset it shows and where it stands.
#[derive(Clone, Copy, PartialEq, Eq, Structural, Debug)]
pub struct Placement {
    pub asset_index: usize,
    pub position: Vec3Fixed,
}

/// The `i`-th placement: asset `i` at `(i, 0, -1)` in whole units.
pub open spec fn placement_at(i: int) -> Placement {
    Placement { asset_index: i as usize, position: fixed_from_units(i, 0, -1) }
}

/// The scene's single light source.
#[derive(Clone, Copy, PartialEq, Eq, Structural, Debug)]
pub struct LightPlacement {
    pub position: Vec3Fixed,
}

/// The light stands at `(4, 8, 4)` in whole units.
pub open spec fn spec_light() -> LightPlacement {
    LightPlacement { position: fixed_from_units(4, 8, 4) }
}

/// Builds one placement for each of `count` assets, in list order: the
/// `i`-th stands at `(i, 0, -1)` in whole units.
pub fn placements(count: usize) -> (r: Vec<Placement>)
    requires
        count <= MAX_WHOLE_COORD,
    ensures
        r@.len() == count,
        forall|i: int| 0 <= i < count ==> r@[i] == placement_at(i),
        forall|i: int, j: int|
            0 <= i < count && 0 <= j < count && i != j ==> r@[i].position != r@[j].position,
{
    let mut r: Vec<Placement> = Vec::new();
    let mut idx: usize = 0;
    while idx < count
        invariant
            idx <= count,
            count <= MAX_WHOLE_COORD,
            r@.len() == idx,
            forall|i: int| 0 <= i < idx ==> r@[i] == placement_at(i),
        decreases count - idx,
    {
        let x: i64 = idx as i64;
        r.push(Placement { asset_index: idx, position: Vec3Fixed::from_units(x, 0, -1) });
        idx = idx + 1;
    }
    proof {
        assert forall|i: int, j: int|
            0 <= i < count && 0 <= j < count && i != j implies r@[i].position
            != r@[j].position by {
            lemma_placements_distinct(i, j);
        }
    }
    r
}

/// Two distinct placements never share a position: their first axes are
/// a whole unit apart for each step between their indices.
pub proof fn lemma_placements_distinct(i: int, j: int)
    requires
        -MAX_WHOLE_COORD <= i <= MAX_WHOLE_COORD,
        -MAX_WHOLE_COORD <= j <= MAX_WHOLE_COORD,
        i != j,
    ensures
        placement_at(i).position != placement_at(j).position,
{
}

/// Everything the scene holds, planned before the engine sees any of it.
pub struct ScenePlan {
    pub asset_paths: Vec<String>,
    pub placements: Vec<Placement>,
    pub camera: CameraRig,
    pub light: LightPlacement,
}

/// Plans the whole scene: the fixed asset list, one placement per asset
/// at `(i, 0, -1)`, one camera with the constant fly settings, one light.
pub fn plan_scene() -> (p: ScenePlan)
    ensures
        p.asset_paths.deep_view() == spec_asset_paths(),
        p.placements@.len() == spec_asset_paths().len(),
        forall|i: int| 0 <= i < p.placements@.len() ==> p.placements@[i] == placement_at(i),
        forall|i: int, j: int|
            0 <= i < p.placements@.len() && 0 <= j < p.placements@.len() && i != j
                ==> p.placements@[i].position != p.placements@[j].position,
        p.camera == spec_camera_rig(),
        p.light == spec_light(),
{
    let asset_paths = tile_asset_paths();
    let n: usize = asset_paths.len();
    proof {
        assert(asset_paths.deep_view().len() == asset_paths@.len());
        assert(spec_asset_paths().len() <= MAX_WHOLE_COORD);
    }
    let placements = placements(n);
    ScenePlan {
        asset_paths,
        placements,
        camera: camera_rig(),
        light: LightPlacement { position: Vec3Fixed::from_units(4, 8, 4) },
    }
}

} // verus!
