//! A verified planning core for a small tiled 3-D scene.
//!
//! The library decides *what* a scene contains: which assets are placed
//! where, how the fly camera is configured, and how window events drive
//! the cursor lock. Rendering, asset loading and input polling are left
//! to an engine; a thin binary hands the engine the values planned here.
//!
//! Coordinates are carried as integers in thousandths of a world unit,
//! so that every position the library computes is an exact value.

pub mod assets;
pub mod camera;
pub mod config;
pub mod cursor;
pub mod input;
pub mod report;
pub mod scene;
pub mod units;
