//! Sets a desktop wallpaper for a window-manager session: the decisions of a
//! run, from the palette document that the generator prints to the descriptor
//! that other desktop components read. Processes and files are left to the
//! caller, who carries out one action at a time and reports what came of it.

pub mod command;
pub mod document;
pub mod error;
pub mod json;
pub mod laws;
pub mod palette;
pub mod paths;
pub mod session;
pub mod text;
