//! Settings, layout, update and installer logic of the Chosen Visualizer desktop app.
use vstd::prelude::*;

pub mod settings;
pub mod text;
pub mod version;
pub mod updater;
pub mod window;
pub mod presets;
pub mod tray;
pub mod audio;
pub mod installer;
pub mod cover;
