use tilescene::camera::{camera_rig, fly_settings};
use tilescene::config::app_config;
use tilescene::input::Key;
use tilescene::scene::{placements, plan_scene};
use tilescene::units::Vec3Fixed;

#[test]
fn asset_list_holds_every_tile_in_order() {
    let paths = tilescene::assets::tile_asset_paths();
    assert_eq!(paths.len(), 42);
    assert_eq!(paths[0], "models/water.glb#Scene0");
    assert_eq!(paths[1], "models/water_rocks.glb#Scene0");
    assert_eq!(paths[17], "models/building_water.glb#Scene0");
    assert_eq!(paths[41], "models/stone_hill.glb#Scene0");
}

#[test]
fn placements_stand_at_unit_offsets_in_list_order() {
    let ps = placements(5);
    assert_eq!(ps.len(), 5);
    for (i, p) in ps.iter().enumerate() {
        assert_eq!(p.asset_index, i);
        assert_eq!(
            p.position,
            Vec3Fixed { x_milli: 1000 * i as i64, y_milli: 0, z_milli: -1000 }
        );
    }
}

#[test]
fn no_assets_mean_no_placements() {
    assert!(placements(0).is_empty());
}

#[test]
fn placements_never_share_a_position() {
    let ps = placements(42);
    for i in 0..ps.len() {
        for j in 0..ps.len() {
            if i != j {
                assert_ne!(ps[i].position, ps[j].position);
            }
        }
    }
}

#[test]
fn planned_scene_places_each_asset_once() {
    let plan = plan_scene();
    assert_eq!(plan.asset_paths.len(), 42);
    assert_eq!(plan.placements.len(), plan.asset_paths.len());
    for (i, p) in plan.placements.iter().enumerate() {
        assert_eq!(p.asset_index, i);
        assert_eq!(p.position.x_milli, 1000 * i as i64);
        assert_eq!(p.position.y_milli, 0);
        assert_eq!(p.position.z_milli, -1000);
    }
}

#[test]
fn planned_scene_has_the_constant_camera() {
    let plan = plan_scene();
    assert_eq!(plan.camera, camera_rig());
    let s = plan.camera.settings;
    assert_eq!(s.accel_milli, 1500);
    assert_eq!(s.max_speed_milli, 500);
    assert_eq!(s.sensitivity_milli, 3000);
    assert_eq!(s.friction_milli, 1000);
    assert_eq!(s.pitch_milli, 0);
    assert_eq!(s.yaw_milli, 0);
    assert_eq!(s.velocity, Vec3Fixed { x_milli: 0, y_milli: 0, z_milli: 0 });
    assert_eq!(s.key_forward, Key::Comma);
    assert_eq!(s.key_backward, Key::O);
    assert_eq!(s.key_left, Key::A);
    assert_eq!(s.key_right, Key::E);
    assert_eq!(s.key_up, Key::Space);
    assert_eq!(s.key_down, Key::LShift);
    assert!(s.enabled);
}

#[test]
fn camera_rig_stands_where_the_scene_puts_it() {
    let rig = camera_rig();
    assert_eq!(rig.position, Vec3Fixed { x_milli: -2000, y_milli: 2500, z_milli: 5000 });
    assert_eq!(rig.target, Vec3Fixed { x_milli: 0, y_milli: 0, z_milli: 0 });
    assert_eq!(rig.up, Vec3Fixed { x_milli: 0, y_milli: 1000, z_milli: 0 });
    assert_eq!(rig.settings, fly_settings());
}

#[test]
fn planned_scene_lights_from_above() {
    let plan = plan_scene();
    assert_eq!(
        plan.light.position,
        Vec3Fixed { x_milli: 4000, y_milli: 8000, z_milli: 4000 }
    );
}

#[test]
fn startup_constants_match_the_window() {
    let cfg = app_config();
    assert_eq!(cfg.window_title, "I am a window!");
    assert_eq!(cfg.msaa_samples, 4);
    assert_eq!(cfg.exit_key, Key::Escape);
}
