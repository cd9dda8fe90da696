//! Verified core of the CatWrt configuration tool: input validation,
//! version handling, text processing of command output and the plans of
//! UCI commands that the tool issues.

pub mod error;
pub mod text;
pub mod utils;
pub mod uci;
pub mod cli;
pub mod config;
pub mod constants;
pub mod menu;
pub mod api;
pub mod archive;
pub mod modules;
