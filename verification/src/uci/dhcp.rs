//! The DHCP section of the configuration. These tasks issue no command yet:
//! each plan is empty.

use vstd::prelude::*;

use crate::uci::Uci;
use crate::utils::system::Command;

verus! {

/// The commands that set the DNS servers handed out by DHCP: none yet.
pub fn set_dns(_uci: &Uci, _dns: &[&str]) -> (r: Vec<Command>)
    ensures
        r@.len() == 0,
{
    Vec::new()
}

/// The commands that set the DHCP address pool: none yet.
pub fn configure_dhcp_pool(_uci: &Uci, _start: u8, _limit: u8) -> (r: Vec<Command>)
    ensures
        r@.len() == 0,
{
    Vec::new()
}

/// The commands that switch the DHCP server on or off: none yet.
pub fn enable_dhcp(_uci: &Uci, _enable: bool) -> (r: Vec<Command>)
    ensures
        r@.len() == 0,
{
    Vec::new()
}

/// The commands that switch forced DHCP on or off: none yet.
pub fn set_dhcp_force(_uci: &Uci, _force: bool) -> (r: Vec<Command>)
    ensures
        r@.len() == 0,
{
    Vec::new()
}

} // verus!
