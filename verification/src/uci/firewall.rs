//! The firewall section of the configuration. These tasks issue no command
//! yet: each plan is empty.

use vstd::prelude::*;

use crate::uci::Uci;
use crate::utils::system::Command;

verus! {

/// The commands that switch UPnP on or off: none yet.
pub fn enable_upnp(_uci: &Uci, _enable: bool) -> (r: Vec<Command>)
    ensures
        r@.len() == 0,
{
    Vec::new()
}

/// The commands that add a firewall rule: none yet.
pub fn add_firewall_rule(_uci: &Uci, _rule: &str) -> (r: Vec<Command>)
    ensures
        r@.len() == 0,
{
    Vec::new()
}

} // verus!
