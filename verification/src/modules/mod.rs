//! The decisions and plans behind each task of the tool's menus.

pub mod advanced;
pub mod diagnostic;
pub mod laws;
pub mod network;
pub mod package;
pub mod release;
pub mod update;
