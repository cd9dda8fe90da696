//! The UCI commands (`uci get/set/delete/commit/add_list`) through which the
//! tool reads and changes the router's configuration, and the plans of
//! commands for each configuration task.

pub mod dhcp;
pub mod firewall;
pub mod network;
pub mod system;

use vstd::prelude::*;

use crate::text::{trim, trim_str, views};
use crate::utils::system::{command, command_is, command_view, Command, CommandView};

verus! {

/// The `uci` command line tool.
pub struct Uci;

/// `uci get <path>`.
pub open spec fn uci_get(path: Seq<char>) -> CommandView {
    ("uci"@, seq!["get"@, path])
}

/// `uci set <path>=<value>`.
pub open spec fn uci_set(path: Seq<char>, value: Seq<char>) -> CommandView {
    ("uci"@, seq!["set"@, path + "="@ + value])
}

/// `uci delete <path>`.
pub open spec fn uci_delete(path: Seq<char>) -> CommandView {
    ("uci"@, seq!["delete"@, path])
}

/// `uci commit <config>`.
pub open spec fn uci_commit(config: Seq<char>) -> CommandView {
    ("uci"@, seq!["commit"@, config])
}

/// `uci add_list <path>=<value>`.
pub open spec fn uci_add_list(path: Seq<char>, value: Seq<char>) -> CommandView {
    ("uci"@, seq!["add_list"@, path + "="@ + value])
}

/// `uci` with two arguments.
fn uci2(a: &str, b: String) -> (c: Command)
    ensures
        command_is(c, "uci"@, seq![a@, b@]),
{
    let mut args: Vec<String> = Vec::new();
    args.push(String::from_str(a));
    args.push(b);
    let c = command("uci", args);
    assert(views(c.args@) =~= seq![a@, b@]);
    c
}

/// `<path>=<value>`.
fn assignment(path: &str, value: &str) -> (r: String)
    ensures
        r@ == path@ + "="@ + value@,
{
    let mut r = String::from_str(path);
    r.append("=");
    r.append(value);
    r
}

impl Uci {
    /// A handle on the `uci` tool.
    pub fn new() -> (u: Uci)
        ensures
            u == Uci,
    {
        Uci
    }

    /// The command that reads the option at `path`.
    pub fn get(&self, path: &str) -> (c: Command)
        ensures
            command_view(c) == uci_get(path@),
    {
        uci2("get", String::from_str(path))
    }

    /// The value that `uci get` printed: its output without surrounding
    /// white space.
    pub fn read_value(output: &str) -> (r: String)
        ensures
            r@ == trim(output@),
    {
        trim_str(output)
    }

    /// The command that sets the option at `path` to `value`.
    pub fn set(&self, path: &str, value: &str) -> (c: Command)
        ensures
            command_view(c) == uci_set(path@, value@),
    {
        uci2("set", assignment(path, value))
    }

    /// The command that deletes the option at `path`.
    pub fn delete(&self, path: &str) -> (c: Command)
        ensures
            command_view(c) == uci_delete(path@),
    {
        uci2("delete", String::from_str(path))
    }

    /// The command that commits the pending changes of `config`.
    pub fn commit(&self, config: &str) -> (c: Command)
        ensures
            command_view(c) == uci_commit(config@),
    {
        uci2("commit", String::from_str(config))
    }

    /// The command that appends `value` to the list option at `path`.
    pub fn add_list(&self, path: &str, value: &str) -> (c: Command)
        ensures
            command_view(c) == uci_add_list(path@, value@),
    {
        uci2("add_list", assignment(path, value))
    }
}

impl Default for Uci {
    fn default() -> (u: Uci)
        ensures
            u == Uci,
    {
        Uci::new()
    }
}

} // verus!
