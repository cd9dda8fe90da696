//! The system section of the configuration: the host name.

use vstd::prelude::*;

use crate::uci::{uci_commit, uci_get, uci_set, Uci};
use crate::utils::system::{command_view, commands_view, push_command, Command};

verus! {

/// The UCI path of the host name.
pub open spec fn hostname_path() -> Seq<char> {
    "system.@system[0].hostname"@
}

/// The command that reads the host name (its output is read with
/// `Uci::read_value`).
pub fn get_hostname(uci: &Uci) -> (c: Command)
    ensures
        command_view(c) == uci_get(hostname_path()),
{
    uci.get("system.@system[0].hostname")
}

/// The commands that set the host name to `name` and commit it.
pub fn set_hostname(uci: &Uci, name: &str) -> (r: Vec<Command>)
    ensures
        commands_view(r@) == seq![uci_set(hostname_path(), name@), uci_commit("system"@)],
{
    let mut r: Vec<Command> = Vec::new();
    push_command(&mut r, uci.set("system.@system[0].hostname", name));
    push_command(&mut r, uci.commit("system"));
    r
}

} // verus!
