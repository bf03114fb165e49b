//! Compiled-in application constants: window title, multisampling,
//! and the key that exits the run.

use vstd::prelude::*;
use vstd::string::StringExecFns;
use crate::input::Key;

verus! {

/// The constants the application hands the engine at startup.
pub struct AppConfig {
    pub window_title: String,
    pub msaa_samples: u32,
    pub exit_key: Key,
}

/// Builds the startup constants: the window title, four multisampling
/// samples, and escape as the exit key.
pub fn app_config() -> (c: AppConfig)
    ensures
        c.window_title@ == "I am a window!"@,
        c.msaa_samples == 4,
        c.exit_key == Key::Escape,
{
    AppConfig {
        window_title: String::from_str("I am a window!"),
        msaa_samples: 4,
        exit_key: Key::Escape,
    }
}

} // verus!
