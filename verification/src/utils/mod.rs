//! Helpers shared by the tool: input validation, system checks and network
//! probes.

pub mod network;
pub mod system;
pub mod validation;
