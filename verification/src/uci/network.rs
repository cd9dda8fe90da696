//! The network section of the configuration: LAN address, gateway, netmask,
//! PPPoE on the WAN.

use vstd::prelude::*;

use crate::uci::{uci_commit, uci_set, Uci};
use crate::utils::system::{commands_view, push_command, Command};

verus! {

/// The commands that give the LAN the address `ip` and commit it.
pub fn set_ip_address(uci: &Uci, ip: &str) -> (r: Vec<Command>)
    ensures
        commands_view(r@) == seq![uci_set("network.lan.ipaddr"@, ip@), uci_commit("network"@)],
{
    let mut r: Vec<Command> = Vec::new();
    push_command(&mut r, uci.set("network.lan.ipaddr", ip));
    push_command(&mut r, uci.commit("network"));
    r
}

/// The command that sets the LAN gateway (not committed).
pub fn set_gateway(uci: &Uci, gateway: &str) -> (r: Vec<Command>)
    ensures
        commands_view(r@) == seq![uci_set("network.lan.gateway"@, gateway@)],
{
    let mut r: Vec<Command> = Vec::new();
    push_command(&mut r, uci.set("network.lan.gateway", gateway));
    r
}

/// The command that sets the LAN netmask (not committed).
pub fn set_netmask(uci: &Uci, mask: &str) -> (r: Vec<Command>)
    ensures
        commands_view(r@) == seq![uci_set("network.lan.netmask"@, mask@)],
{
    let mut r: Vec<Command> = Vec::new();
    push_command(&mut r, uci.set("network.lan.netmask", mask));
    r
}

/// The commands that switch IPv6 on or off: none yet.
pub fn enable_ipv6(_uci: &Uci, _enable: bool) -> (r: Vec<Command>)
    ensures
        r@.len() == 0,
{
    Vec::new()
}

/// The commands that make the WAN dial PPPoE with the given account (not
/// committed).
pub fn configure_pppoe(uci: &Uci, username: &str, password: &str) -> (r: Vec<Command>)
    ensures
        commands_view(r@) == seq![
            uci_set("network.wan.proto"@, "pppoe"@),
            uci_set("network.wan.username"@, username@),
            uci_set("network.wan.password"@, password@),
        ],
{
    let mut r: Vec<Command> = Vec::new();
    push_command(&mut r, uci.set("network.wan.proto", "pppoe"));
    push_command(&mut r, uci.set("network.wan.username", username));
    push_command(&mut r, uci.set("network.wan.password", password));
    r
}

/// The commands that choose the WAN interface: none yet.
pub fn set_wan_interface(_uci: &Uci, _iface: &str) -> (r: Vec<Command>)
    ensures
        r@.len() == 0,
{
    Vec::new()
}

/// The commands that bridge interfaces: none yet.
pub fn bridge_interfaces(_uci: &Uci, _interfaces: &[&str]) -> (r: Vec<Command>)
    ensures
        r@.len() == 0,
{
    Vec::new()
}

} // verus!
