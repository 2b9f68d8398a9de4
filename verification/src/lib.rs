//! Decides how the main window of a desktop application comes up: whether it
//! starts fullscreen, and in which order the settings store and the window
//! are touched during launch.

pub mod document;
pub mod preference;
pub mod startup;
pub mod text;
pub mod trace;
