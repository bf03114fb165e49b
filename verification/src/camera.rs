//! The fly camera's constant configuration.
//!
//! Movement scalars are carried in thousandths, as positions are: an
//! acceleration of one and a half units per second squared is 1500.

use vstd::prelude::*;
use crate::input::Key;
use crate::units::{fixed_from_units, Vec3Fixed};

verus! {

/// Movement parameters and key bindings for the fly camera.
#[derive(Clone, Copy, PartialEq, Eq, Structural, Debug)]
pub struct CameraSettings {
    pub accel_milli: i64,
    pub max_speed_milli: i64,
    pub sensitivity_milli: i64,
    pub friction_milli: i64,
    pub pitch_milli: i64,
    pub yaw_milli: i64,
    pub velocity: Vec3Fixed,
    pub key_forward: Key,
    pub key_backward: Key,
    pub key_left: Key,
    pub key_right: Key,
    pub key_up: Key,
    pub key_down: Key,
    pub enabled: bool,
}

/// The one fly-camera configuration this scene ever uses.
pub open spec fn spec_fly_settings() -> CameraSettings {
    CameraSettings {
        accel_milli: 1500,
        max_speed_milli: 500,
        sensitivity_milli: 3000,
        friction_milli: 1000,
        pitch_milli: 0,
        yaw_milli: 0,
        velocity: fixed_from_units(0, 0, 0),
        key_forward: Key::Comma,
        key_backward: Key::O,
        key_left: Key::A,
        key_right: Key::E,
        key_up: Key::Space,
        key_down: Key::LShift,
        enabled: true,
    }
}

/// Where the camera stands, what it looks at, and which way is up.
#[derive(Clone, Copy, PartialEq, Eq, Structural, Debug)]
pub struct CameraRig {
    pub position: Vec3Fixed,
    pub target: Vec3Fixed,
    pub up: Vec3Fixed,
    pub settings: CameraSettings,
}

/// The scene's camera: at `(-2, 2.5, 5)`, looking at the origin, y up.
pub open spec fn spec_camera_rig() -> CameraRig {
    CameraRig {
        position: Vec3Fixed { x_milli: -2000i64, y_milli: 2500, z_milli: 5000 },
        target: fixed_from_units(0, 0, 0),
        up: fixed_from_units(0, 1, 0),
        settings: spec_fly_settings(),
    }
}

/// Builds the constant fly-camera configuration.
pub fn fly_settings() -> (c: CameraSettings)
    ensures
        c == spec_fly_settings(),
{
    CameraSettings {
        accel_milli: 1500,
        max_speed_milli: 500,
        sensitivity_milli: 3000,
        friction_milli: 1000,
        pitch_milli: 0,
        yaw_milli: 0,
        velocity: Vec3Fixed::zero(),
        key_forward: Key::Comma,
        key_backward: Key::O,
        key_left: Key::A,
        key_right: Key::E,
        key_up: Key::Space,
        key_down: Key::LShift,
        enabled: true,
    }
}

/// Builds the constant camera rig.
pub fn camera_rig() -> (c: CameraRig)
    ensures
        c == spec_camera_rig(),
{
    CameraRig {
        position: Vec3Fixed { x_milli: -2000, y_milli: 2500, z_milli: 5000 },
        target: Vec3Fixed::zero(),
        up: Vec3Fixed::from_units(0, 1, 0),
        settings: fly_settings(),
    }
}

} // verus!
