//! What the tool learns from the CatWrt web services.

pub mod json;
pub mod repo;
pub mod update;
