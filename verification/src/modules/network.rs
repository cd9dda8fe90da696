//! Network set-up: the network wizard, the bypass-gateway set-up it may hand
//! over to, and the assignment of Ethernet ports.
//!
//! The wizard and the bypass set-up talk with the user and run commands in
//! turn. Each is a state machine: from its state and the event that the
//! caller reports (an answer, the output of a command, the outcome of a
//! plan), a step gives the next state, the notices to show, and the next
//! action for the caller to perform.

use vstd::prelude::*;

use crate::cli::opt_view;
use crate::constants::DEFAULT_IP;
use crate::error::CatoolsError;
use crate::text::{
    numeral, contains_seq, contains_str, join, join_with, lines, lines_of, split, split_char, starts_with, starts_with_str,
    str_eq, views,
};
use crate::uci::{uci_commit, uci_delete, uci_set, Uci};
use crate::utils::system::{
    checked_steps, command, command_view, commands_view, push_command, push_step, restart_service,
    steps_view, Command, CommandView, Step,
};
use crate::utils::validation::{ip_rejection, is_valid_ip, validate_ip};

verus! {

// ---------------------------------------------------------------------------
// Ethernet ports
// ---------------------------------------------------------------------------

/// The Ethernet interfaces listed by `ls /sys/class/net`: the lines that
/// start with `eth`.
pub open spec fn eth_names(ls_output: Seq<char>) -> Seq<Seq<char>> {
    lines(ls_output).filter(|l: Seq<char>| starts_with(l, "eth"@))
}

/// The Ethernet interfaces listed by `ls /sys/class/net`.
pub fn eth_interfaces(ls_output: &str) -> (r: Vec<String>)
    ensures
        views(r@) == eth_names(ls_output@),
{
    let ls = lines_of(ls_output);
    let ghost all = lines(ls_output@);
    let mut out: Vec<String> = Vec::new();
    let mut k: usize = 0;
    assert(all.take(0).filter(|l: Seq<char>| starts_with(l, "eth"@)) =~= Seq::<Seq<char>>::empty())
        by {
        reveal_with_fuel(Seq::filter, 1);
    }
    while k < ls.len()
        invariant
            k <= ls@.len(),
            views(ls@) == all,
            views(out@) == all.take(k as int).filter(|l: Seq<char>| starts_with(l, "eth"@)),
        decreases ls@.len() - k,
    {
        let ghost prev = all.take(k as int);
        assert(all.take(k + 1) =~= prev.push(ls@[k as int]@));
        proof {
            prev.lemma_filter_push(ls@[k as int]@, |l: Seq<char>| starts_with(l, "eth"@));
        }
        if starts_with_str(ls[k].as_str(), "eth") {
            let s = ls[k].clone();
            proof {
                crate::text::lemma_views_push(out@, s);
            }
            out.push(s);
        }
        k = k + 1;
    }
    assert(all.take(ls@.len() as int) =~= all);
    out
}

/// The LAN bridge ports: every Ethernet interface but `eth0`, separated by
/// spaces.
pub open spec fn bridge_ports(ls_output: Seq<char>) -> Seq<char> {
    join(eth_names(ls_output).filter(|i: Seq<char>| i != "eth0"@), " "@)
}

/// The LAN bridge ports: every Ethernet interface but `eth0`, separated by
/// spaces.
pub fn bridge_ports_text(ls_output: &str) -> (r: String)
    ensures
        r@ == bridge_ports(ls_output@),
{
    let ifaces = eth_interfaces(ls_output);
    let ghost all = views(ifaces@);
    let mut ports: Vec<String> = Vec::new();
    let mut k: usize = 0;
    assert(all.take(0).filter(|i: Seq<char>| i != "eth0"@) =~= Seq::<Seq<char>>::empty()) by {
        reveal_with_fuel(Seq::filter, 1);
    }
    while k < ifaces.len()
        invariant
            k <= ifaces@.len(),
            all == views(ifaces@),
            views(ports@) == all.take(k as int).filter(|i: Seq<char>| i != "eth0"@),
        decreases ifaces@.len() - k,
    {
        let ghost prev = all.take(k as int);
        assert(all.take(k + 1) =~= prev.push(ifaces@[k as int]@));
        proof {
            prev.lemma_filter_push(ifaces@[k as int]@, |i: Seq<char>| i != "eth0"@);
        }
        if !str_eq(ifaces[k].as_str(), "eth0") {
            let s = ifaces[k].clone();
            proof {
                crate::text::lemma_views_push(ports@, s);
            }
            ports.push(s);
        }
        k = k + 1;
    }
    assert(all.take(ifaces@.len() as int) =~= all);
    join_with(&ports, " ")
}

/// The settings that make `eth0` the WAN port and bridge the other ports
/// `ports` into the LAN.
pub open spec fn port_settings(ports: Seq<char>) -> Seq<CommandView> {
    seq![
        uci_set("network.wan.ifname"@, "eth0"@),
        uci_set("network.wan.proto"@, "dhcp"@),
        uci_set("network.lan.type"@, "bridge"@),
        uci_set("network.lan.ifname"@, ports),
        uci_set("network.lan._orig_ifname"@, ports),
        uci_set("network.lan._orig_bridge"@, "true"@),
        uci_set("network.wan6._orig_bridge"@, "false"@),
        uci_set("network.wan6._orig_ifname"@, "eth1"@),
        uci_set("network.wan6.ifname"@, "eth0"@),
        uci_set("network.wan6.reqaddress"@, "try"@),
        uci_set("network.wan6.reqprefix"@, "auto"@),
    ]
}

/// The commands that make `eth0` the WAN port and bridge the other Ethernet
/// ports listed by `ls /sys/class/net` into the LAN (not committed).
pub fn configure_network_interfaces(uci: &Uci, ls_output: &str) -> (r: Vec<Command>)
    ensures
        commands_view(r@) == port_settings(bridge_ports(ls_output@)),
{
    let ports = bridge_ports_text(ls_output);
    let p = ports.as_str();
    let mut r: Vec<Command> = Vec::new();
    push_command(&mut r, uci.set("network.wan.ifname", "eth0"));
    push_command(&mut r, uci.set("network.wan.proto", "dhcp"));
    push_command(&mut r, uci.set("network.lan.type", "bridge"));
    push_command(&mut r, uci.set("network.lan.ifname", p));
    push_command(&mut r, uci.set("network.lan._orig_ifname", p));
    push_command(&mut r, uci.set("network.lan._orig_bridge", "true"));
    push_command(&mut r, uci.set("network.wan6._orig_bridge", "false"));
    push_command(&mut r, uci.set("network.wan6._orig_ifname", "eth1"));
    push_command(&mut r, uci.set("network.wan6.ifname", "eth0"));
    push_command(&mut r, uci.set("network.wan6.reqaddress", "try"));
    push_command(&mut r, uci.set("network.wan6.reqprefix", "auto"));
    assert(commands_view(r@) =~= port_settings(bridge_ports(ls_output@)));
    r
}

// ---------------------------------------------------------------------------
// Setting the LAN address
// ---------------------------------------------------------------------------

/// The steps that give the LAN the address `ip`: set it, commit, restart
/// the network; each failure ends the plan.
pub open spec fn set_ip_steps(ip: Seq<char>) -> Seq<(CommandView, bool)> {
    seq![
        (uci_set("network.lan.ipaddr"@, ip), true),
        (uci_commit("network"@), true),
        (restart("network"@), true),
    ]
}

/// The plan that gives the LAN the address `ip`, once `ip` is checked; the
/// error of the check when it is not an address the tool accepts.
pub fn set_ip_address(ip: &str) -> (r: Result<Vec<Step>, CatoolsError>)
    ensures
        r is Ok <==> is_valid_ip(ip@),
        r matches Ok(p) ==> steps_view(p@) == set_ip_steps(ip@),
        r matches Err(e) ==> ip_rejection(ip@, e),
{
    match validate_ip(ip) {
        Err(e) => Err(e),
        Ok(()) => {
            let uci = Uci::new();
            let mut r: Vec<Step> = Vec::new();
            push_step(&mut r, uci.set("network.lan.ipaddr", ip), true);
            push_step(&mut r, uci.commit("network"), true);
            push_step(&mut r, restart_service("network"), true);
            assert(steps_view(r@) =~= set_ip_steps(ip@));
            Ok(r)
        },
    }
}

// ---------------------------------------------------------------------------
// Addresses of the bypass gateway
// ---------------------------------------------------------------------------

/// A main-router address the bypass set-up accepts: not empty, and in one
/// of the private ranges `10.`, `172.`, `192.168.`.
pub open spec fn is_private_router_ip(ip: Seq<char>) -> bool {
    ip.len() > 0 && (starts_with(ip, "10."@) || starts_with(ip, "172."@) || starts_with(
        ip,
        "192.168."@,
    ))
}

/// Is `ip` an acceptable main-router address?
pub fn private_router_ip(ip: &str) -> (r: bool)
    ensures
        r == is_private_router_ip(ip@),
{
    ip.unicode_len() > 0 && (starts_with_str(ip, "10.") || starts_with_str(ip, "172.")
        || starts_with_str(ip, "192.168."))
}

/// The first three dot-separated parts of `ip`, joined by dots.
pub open spec fn subnet_prefix(ip: Seq<char>) -> Seq<char> {
    let p = split(ip, '.');
    p[0] + "."@ + p[1] + "."@ + p[2]
}

/// The first three dot-separated parts of `ip`, joined by dots. The address
/// must have at least three parts.
pub fn subnet_of(ip: &str) -> (r: String)
    requires
        split(ip@, '.').len() >= 3,
    ensures
        r@ == subnet_prefix(ip@),
{
    let parts = split_char(ip, '.');
    let mut r = parts[0].clone();
    r.append(".");
    r.append(parts[1].as_str());
    r.append(".");
    r.append(parts[2].as_str());
    r
}

/// The host at position `host` of the subnet: `subnet.host`.
pub open spec fn host_in(subnet: Seq<char>, host: nat) -> Seq<char> {
    subnet + "."@ + numeral(host)
}

/// The address of host `host` in the subnet `subnet`.
pub fn host_address(subnet: &str, host: u8) -> (r: String)
    ensures
        r@ == host_in(subnet@, host as nat),
{
    let mut r = String::from_str(subnet);
    r.append(".");
    r.append(crate::text::decimal_text(host as usize).as_str());
    r
}

/// The command that pings `ip` once, waiting at most a second.
pub fn ping_once(ip: &str) -> (c: Command)
    ensures
        command_view(c) == ("ping"@, seq!["-c"@, "1"@, "-W"@, "1"@, ip@]),
{
    let mut a: Vec<String> = Vec::new();
    a.push(String::from_str("-c"));
    a.push(String::from_str("1"));
    a.push(String::from_str("-W"));
    a.push(String::from_str("1"));
    a.push(String::from_str(ip));
    let c = command("ping", a);
    assert(views(c.args@) =~= seq!["-c"@, "1"@, "-W"@, "1"@, ip@]);
    c
}

// ---------------------------------------------------------------------------
// The conversation: questions, events, actions, notices
// ---------------------------------------------------------------------------

/// A question that the network set-up asks.
#[derive(Debug, Clone, Copy, PartialEq, Eq, Structural)]
pub enum Question {
    UseWizard,
    BypassSetup,
    ChangeIp,
    NewIp,
    DisableIpv6,
    UsePppoe,
    PppoeAccount,
    PppoePassword,
    WizardDns,
    CustomDns,
    ChangeDhcpPool,
    DhcpRange,
    ForceDhcp,
    EnableUpnp,
    ConfigurePorts,
    RouterIp,
    DeviceIp,
    SuggestedDeviceIp,
    BypassDns,
}

/// How a question is asked, with the answer given when the user just
/// presses enter.
pub enum Prompt {
    Confirm { question: Question, default: bool },
    Input { question: Question, default: Option<String> },
    Password { question: Question },
}

/// What the caller reports back after performing an action.
pub enum Event {
    /// The conversation starts.
    Begin,
    /// The answer to a yes/no question.
    Confirmed(bool),
    /// The answer to a text question.
    Text(String),
    /// The outcome of a command whose output matters.
    Output(Result<String, CatoolsError>),
    /// The content of a file, if it could be read.
    File(Option<String>),
    /// The outcome of a plan.
    Done(Result<(), CatoolsError>),
    /// The prompt itself failed.
    Failed(CatoolsError),
}

/// What the caller is to do next.
pub enum Action {
    /// Ask the user; answer with `Confirmed`, `Text` or `Failed`.
    Ask(Prompt),
    /// Run a command; answer with `Output`.
    Run(Command),
    /// Read a file; answer with `File`.
    ReadFile(String),
    /// Run the steps in order, stopping at the first checked step that
    /// fails; answer with `Done` and that failure, or success.
    RunPlan(Vec<Step>),
    /// The conversation is over, with this outcome.
    Finish(Result<(), CatoolsError>),
}

/// Something to tell the user.
pub enum Notice {
    WizardHeader,
    WizardDeclined,
    SingleInterface,
    IpStep,
    IpSet(String),
    IpKept,
    Ipv6Step,
    Ipv6Disabled,
    PppoeStep,
    PppoeHint,
    PppoeDone,
    DnsStep,
    DhcpPoolStep,
    ForceDhcpStep,
    ForceDhcpOn,
    UpnpStep,
    UpnpOn,
    PortsStep,
    PortsConfigured(String),
    Restarting,
    WizardDone(String),
    BypassHeader,
    RouterIpEmpty,
    RouterIpInvalid,
    Scanning(String),
    Probing(String),
    Free(String),
    Occupied,
    NoFreeIp,
    Summary(String, String),
    BypassDone(String),
    FirewallWarning,
}

/// `a` asks the yes/no question `q`, defaulting to `d`.
pub open spec fn is_confirm(a: Action, q: Question, d: bool) -> bool {
    a matches Action::Ask(Prompt::Confirm { question, default }) && question == q && default == d
}

/// `a` asks the text question `q`, defaulting to `d`.
pub open spec fn is_input(a: Action, q: Question, d: Option<Seq<char>>) -> bool {
    a matches Action::Ask(Prompt::Input { question, default }) && question == q && opt_view(
        default,
    ) == d
}

/// `a` asks for the password `q`.
pub open spec fn is_password(a: Action, q: Question) -> bool {
    a matches Action::Ask(Prompt::Password { question }) && question == q
}

/// `a` runs the command `c`.
pub open spec fn is_run(a: Action, c: CommandView) -> bool {
    a matches Action::Run(x) && command_view(x) == c
}

/// `a` runs the plan `p`.
pub open spec fn is_plan(a: Action, p: Seq<(CommandView, bool)>) -> bool {
    a matches Action::RunPlan(x) && steps_view(x@) == p
}

/// `a` ends the conversation with outcome `r`.
pub open spec fn is_finish(a: Action, r: Result<(), CatoolsError>) -> bool {
    a == Action::Finish(r)
}

/// Builds a yes/no question.
fn confirm(q: Question, d: bool) -> (a: Action)
    ensures
        is_confirm(a, q, d),
{
    Action::Ask(Prompt::Confirm { question: q, default: d })
}

/// Builds a text question.
fn input(q: Question, d: Option<String>) -> (a: Action)
    ensures
        is_input(a, q, opt_view(d)),
{
    Action::Ask(Prompt::Input { question: q, default: d })
}

/// A notice list of one notice.
fn one(n: Notice) -> (r: Vec<Notice>)
    ensures
        r@ == seq![n],
{
    let mut r: Vec<Notice> = Vec::new();
    r.push(n);
    r
}

/// A notice list of two notices.
fn two(n: Notice, m: Notice) -> (r: Vec<Notice>)
    ensures
        r@ == seq![n, m],
{
    let mut r: Vec<Notice> = Vec::new();
    r.push(n);
    r.push(m);
    r
}

/// The command that restarts the init script `s`.
pub open spec fn restart(s: Seq<char>) -> CommandView {
    ("/etc/init.d"@, seq![s, "restart"@])
}

/// The command that pings `ip` once.
pub open spec fn ping_view(ip: Seq<char>) -> CommandView {
    ("ping"@, seq!["-c"@, "1"@, "-W"@, "1"@, ip])
}

// ---------------------------------------------------------------------------
// The bypass-gateway set-up
// ---------------------------------------------------------------------------

/// Where the bypass set-up stands.
pub enum BypassState {
    /// Not started.
    Start,
    /// The main router's address was asked for.
    AwaitRouterIp,
    /// Host `host` of `subnet` is being pinged, to find a free address.
    Probing { router_ip: String, subnet: String, host: u8 },
    /// The device's own address was asked for.
    AwaitDeviceIp { router_ip: String },
    /// Whether to use the recommended DNS servers was asked.
    AwaitDnsChoice { router_ip: String, device_ip: String },
    /// The DNS servers were asked for.
    AwaitDnsInput { router_ip: String, device_ip: String },
    /// The settings are being applied.
    AwaitConfigured { device_ip: String },
    /// The services are being restarted.
    AwaitRestarted,
    /// Over.
    Finished,
}

/// The recommended DNS servers of a bypass gateway.
pub open spec fn bypass_dns() -> Seq<char> {
    "223.6.6.6 223.5.5.5"@
}

/// The settings of a bypass gateway at `device` behind the main router
/// `router`, with DNS servers `dns`: a static LAN address with the router as
/// gateway, no IPv6 announcements, no DHCP server (the deletions of the
/// pool may fail).
pub open spec fn bypass_settings(router: Seq<char>, device: Seq<char>, dns: Seq<char>) -> Seq<
    (CommandView, bool),
> {
    seq![
        (uci_set("network.lan.ipaddr"@, device), true),
        (uci_set("network.lan.gateway"@, router), true),
        (uci_set("network.lan.proto"@, "static"@), true),
        (uci_set("network.lan.dns"@, dns), true),
        (uci_commit("network"@), true),
        (uci_set("dhcp.lan.dhcpv6"@, "disabled"@), true),
        (uci_set("dhcp.lan.ra"@, "disabled"@), true),
        (uci_commit("dhcp"@), true),
        (uci_set("dhcp.lan.ignore"@, "1"@), true),
        (uci_delete("dhcp.lan.leasetime"@), false),
        (uci_delete("dhcp.lan.limit"@), false),
        (uci_delete("dhcp.lan.start"@), false),
        (uci_commit("dhcp"@), true),
    ]
}

/// The restarts that put a bypass gateway's settings into effect.
pub open spec fn bypass_restarts() -> Seq<(CommandView, bool)> {
    seq![
        (restart("network"@), true),
        (restart("firewall"@), true),
        (restart("dnsmasq"@), true),
    ]
}

/// The states the bypass set-up can be in: a probed host lies in 4..=10.
pub open spec fn bypass_wf(s: BypassState) -> bool {
    s matches BypassState::Probing { host, .. } ==> 4 <= host <= 10
}

/// The events that the bypass set-up can take in state `s`: what answers
/// the action it last gave. An accepted main-router address has at least
/// three dot-separated parts.
pub open spec fn bypass_accepts(s: BypassState, e: Event) -> bool {
    match s {
        BypassState::Start => e is Begin,
        BypassState::AwaitRouterIp => e is Failed || (e matches Event::Text(t) && (
        is_private_router_ip(t@) ==> split(t@, '.').len() >= 3)),
        BypassState::Probing { .. } => e is Output,
        BypassState::AwaitDeviceIp { .. } => e is Text || e is Failed,
        BypassState::AwaitDnsChoice { .. } => e is Confirmed || e is Failed,
        BypassState::AwaitDnsInput { .. } => e is Text || e is Failed,
        BypassState::AwaitConfigured { .. } => e is Done,
        BypassState::AwaitRestarted => e is Done,
        BypassState::Finished => false,
    }
}

/// The step of the bypass set-up from state `s` on event `e` to state `n`,
/// with notices `ns` and action `a`.
pub open spec fn bypass_transition(
    s: BypassState,
    e: Event,
    n: BypassState,
    ns: Seq<Notice>,
    a: Action,
) -> bool {
    match e {
        Event::Failed(err) => n is Finished && ns.len() == 0 && is_finish(a, Err(err)),
        _ => match s {
            BypassState::Start => n is AwaitRouterIp && ns == seq![Notice::BypassHeader]
                && is_input(a, Question::RouterIp, None),
            BypassState::AwaitRouterIp => match e {
                Event::Text(t) => if t@.len() == 0 {
                    n is AwaitRouterIp && ns == seq![Notice::RouterIpEmpty] && is_input(
                        a,
                        Question::RouterIp,
                        None,
                    )
                } else if !is_private_router_ip(t@) {
                    n is AwaitRouterIp && ns == seq![Notice::RouterIpInvalid] && is_input(
                        a,
                        Question::RouterIp,
                        None,
                    )
                } else {
                    let sub = subnet_prefix(t@);
                    &&& n matches BypassState::Probing { router_ip, subnet, host } && router_ip@
                        == t@ && subnet@ == sub && host == 4
                    &&& ns.len() == 2
                    &&& ns[0] matches Notice::Scanning(x) && x@ == sub
                    &&& ns[1] matches Notice::Probing(y) && y@ == host_in(sub, 4)
                    &&& is_run(a, ping_view(host_in(sub, 4)))
                },
                _ => false,
            },
            BypassState::Probing { router_ip, subnet, host } => match e {
                Event::Output(Err(_)) => {
                    let free = host_in(subnet@, host as nat);
                    &&& n matches BypassState::AwaitDeviceIp { router_ip: r } && r@ == router_ip@
                    &&& ns.len() == 1
                    &&& ns[0] matches Notice::Free(x) && x@ == free
                    &&& is_input(a, Question::SuggestedDeviceIp, Some(free))
                },
                Event::Output(Ok(_)) => if host < 10 {
                    let next = host_in(subnet@, (host + 1) as nat);
                    &&& n matches BypassState::Probing { router_ip: r, subnet: sb, host: h } && r@
                        == router_ip@ && sb@ == subnet@ && h == host + 1
                    &&& ns.len() == 2 && ns[0] == Notice::Occupied
                    &&& ns[1] matches Notice::Probing(y) && y@ == next
                    &&& is_run(a, ping_view(next))
                } else {
                    &&& n matches BypassState::AwaitDeviceIp { router_ip: r } && r@ == router_ip@
                    &&& ns == seq![Notice::Occupied, Notice::NoFreeIp]
                    &&& is_input(a, Question::DeviceIp, None)
                },
                _ => false,
            },
            BypassState::AwaitDeviceIp { router_ip } => match e {
                Event::Text(d) => {
                    &&& n matches BypassState::AwaitDnsChoice { router_ip: r, device_ip: x } && r@
                        == router_ip@ && x@ == d@
                    &&& ns.len() == 1
                    &&& ns[0] matches Notice::Summary(p, q) && p@ == router_ip@
                        && q@ == d@
                    &&& is_confirm(a, Question::BypassDns, true)
                },
                _ => false,
            },
            BypassState::AwaitDnsChoice { router_ip, device_ip } => match e {
                Event::Confirmed(true) => {
                    &&& n matches BypassState::AwaitConfigured { device_ip: x } && x@ == device_ip@
                    &&& ns.len() == 0
                    &&& is_plan(a, bypass_settings(router_ip@, device_ip@, bypass_dns()))
                },
                Event::Confirmed(false) => {
                    &&& n matches BypassState::AwaitDnsInput { router_ip: r, device_ip: x } && r@
                        == router_ip@ && x@ == device_ip@
                    &&& ns.len() == 0
                    &&& is_input(a, Question::CustomDns, None)
                },
                _ => false,
            },
            BypassState::AwaitDnsInput { router_ip, device_ip } => match e {
                Event::Text(dns) => {
                    &&& n matches BypassState::AwaitConfigured { device_ip: x } && x@ == device_ip@
                    &&& ns.len() == 0
                    &&& is_plan(a, bypass_settings(router_ip@, device_ip@, dns@))
                },
                _ => false,
            },
            BypassState::AwaitConfigured { device_ip } => match e {
                Event::Done(Ok(())) => {
                    &&& n is AwaitRestarted
                    &&& ns.len() == 1
                    &&& ns[0] matches Notice::BypassDone(x) && x@ == device_ip@
                    &&& is_plan(a, bypass_restarts())
                },
                Event::Done(Err(err)) => n is Finished && ns.len() == 0 && is_finish(a, Err(err)),
                _ => false,
            },
            BypassState::AwaitRestarted => match e {
                Event::Done(Ok(())) => n is Finished && ns == seq![Notice::FirewallWarning]
                    && is_finish(a, Ok(())),
                Event::Done(Err(err)) => n is Finished && ns.len() == 0 && is_finish(a, Err(err)),
                _ => false,
            },
            BypassState::Finished => false,
        },
    }
}

/// The plan that applies the settings of a bypass gateway.
fn bypass_settings_plan(router: &str, device: &str, dns: &str) -> (r: Vec<Step>)
    ensures
        steps_view(r@) == bypass_settings(router@, device@, dns@),
{
    let uci = Uci::new();
    let mut r: Vec<Step> = Vec::new();
    push_step(&mut r, uci.set("network.lan.ipaddr", device), true);
    push_step(&mut r, uci.set("network.lan.gateway", router), true);
    push_step(&mut r, uci.set("network.lan.proto", "static"), true);
    push_step(&mut r, uci.set("network.lan.dns", dns), true);
    push_step(&mut r, uci.commit("network"), true);
    push_step(&mut r, uci.set("dhcp.lan.dhcpv6", "disabled"), true);
    push_step(&mut r, uci.set("dhcp.lan.ra", "disabled"), true);
    push_step(&mut r, uci.commit("dhcp"), true);
    push_step(&mut r, uci.set("dhcp.lan.ignore", "1"), true);
    push_step(&mut r, uci.delete("dhcp.lan.leasetime"), false);
    push_step(&mut r, uci.delete("dhcp.lan.limit"), false);
    push_step(&mut r, uci.delete("dhcp.lan.start"), false);
    push_step(&mut r, uci.commit("dhcp"), true);
    assert(steps_view(r@) =~= bypass_settings(router@, device@, dns@));
    r
}

/// The plan that restarts the services after a bypass set-up.
fn bypass_restart_plan() -> (r: Vec<Step>)
    ensures
        steps_view(r@) == bypass_restarts(),
{
    let mut r: Vec<Step> = Vec::new();
    push_step(&mut r, restart_service("network"), true);
    push_step(&mut r, restart_service("firewall"), true);
    push_step(&mut r, restart_service("dnsmasq"), true);
    assert(steps_view(r@) =~= bypass_restarts());
    r
}

/// One step of the bypass-gateway set-up: asks for the main router's
/// address until it is a private one, pings hosts 4 to 10 of its subnet to
/// suggest a free address for this device, asks for the device's address and
/// the DNS servers, then applies the settings and restarts the services.
pub fn configure_bypass_gateway(s: BypassState, e: Event) -> (r: (BypassState, Vec<Notice>, Action))
    requires
        bypass_wf(s),
        bypass_accepts(s, e),
    ensures
        bypass_wf(r.0),
        bypass_transition(s, e, r.0, r.1@, r.2),
{
    if let Event::Failed(err) = e {
        return (BypassState::Finished, Vec::new(), Action::Finish(Err(err)));
    }
    match s {
        BypassState::Start => (
            BypassState::AwaitRouterIp,
            one(Notice::BypassHeader),
            input(Question::RouterIp, None),
        ),
        BypassState::AwaitRouterIp => match e {
            Event::Text(t) => {
                if t.as_str().unicode_len() == 0 {
                    (
                        BypassState::AwaitRouterIp,
                        one(Notice::RouterIpEmpty),
                        input(Question::RouterIp, None),
                    )
                } else if !private_router_ip(t.as_str()) {
                    (
                        BypassState::AwaitRouterIp,
                        one(Notice::RouterIpInvalid),
                        input(Question::RouterIp, None),
                    )
                } else {
                    let subnet = subnet_of(t.as_str());
                    let first = host_address(subnet.as_str(), 4);
                    let ping = ping_once(first.as_str());
                    (
                        BypassState::Probing { router_ip: t, subnet: subnet.clone(), host: 4 },
                        two(Notice::Scanning(subnet), Notice::Probing(first)),
                        Action::Run(ping),
                    )
                }
            },
            _ => {
                proof {
                    assert(false);
                }
                (BypassState::Finished, Vec::new(), Action::Finish(Ok(())))
            },
        },
        BypassState::Probing { router_ip, subnet, host } => match e {
            Event::Output(Err(_)) => {
                let free = host_address(subnet.as_str(), host);
                (
                    BypassState::AwaitDeviceIp { router_ip },
                    one(Notice::Free(free.clone())),
                    input(Question::SuggestedDeviceIp, Some(free)),
                )
            },
            Event::Output(Ok(_)) => {
                if host < 10 {
                    let next = host_address(subnet.as_str(), host + 1);
                    let ping = ping_once(next.as_str());
                    (
                        BypassState::Probing { router_ip, subnet, host: host + 1 },
                        two(Notice::Occupied, Notice::Probing(next)),
                        Action::Run(ping),
                    )
                } else {
                    (
                        BypassState::AwaitDeviceIp { router_ip },
                        two(Notice::Occupied, Notice::NoFreeIp),
                        input(Question::DeviceIp, None),
                    )
                }
            },
            _ => {
                proof {
                    assert(false);
                }
                (BypassState::Finished, Vec::new(), Action::Finish(Ok(())))
            },
        },
        BypassState::AwaitDeviceIp { router_ip } => match e {
            Event::Text(d) => {
                let summary = Notice::Summary(router_ip.clone(), d.clone());
                (
                    BypassState::AwaitDnsChoice { router_ip, device_ip: d },
                    one(summary),
                    confirm(Question::BypassDns, true),
                )
            },
            _ => {
                proof {
                    assert(false);
                }
                (BypassState::Finished, Vec::new(), Action::Finish(Ok(())))
            },
        },
        BypassState::AwaitDnsChoice { router_ip, device_ip } => match e {
            Event::Confirmed(yes) => {
                if yes {
                    let plan = bypass_settings_plan(
                        router_ip.as_str(),
                        device_ip.as_str(),
                        "223.6.6.6 223.5.5.5",
                    );
                    (BypassState::AwaitConfigured { device_ip }, Vec::new(), Action::RunPlan(plan))
                } else {
                    (
                        BypassState::AwaitDnsInput { router_ip, device_ip },
                        Vec::new(),
                        input(Question::CustomDns, None),
                    )
                }
            },
            _ => {
                proof {
                    assert(false);
                }
                (BypassState::Finished, Vec::new(), Action::Finish(Ok(())))
            },
        },
        BypassState::AwaitDnsInput { router_ip, device_ip } => match e {
            Event::Text(dns) => {
                let plan = bypass_settings_plan(router_ip.as_str(), device_ip.as_str(), dns.as_str());
                (BypassState::AwaitConfigured { device_ip }, Vec::new(), Action::RunPlan(plan))
            },
            _ => {
                proof {
                    assert(false);
                }
                (BypassState::Finished, Vec::new(), Action::Finish(Ok(())))
            },
        },
        BypassState::AwaitConfigured { device_ip } => match e {
            Event::Done(Ok(())) => (
                BypassState::AwaitRestarted,
                one(Notice::BypassDone(device_ip)),
                Action::RunPlan(bypass_restart_plan()),
            ),
            Event::Done(Err(err)) => (BypassState::Finished, Vec::new(), Action::Finish(Err(err))),
            _ => {
                proof {
                    assert(false);
                }
                (BypassState::Finished, Vec::new(), Action::Finish(Ok(())))
            },
        },
        BypassState::AwaitRestarted => match e {
            Event::Done(Ok(())) => (
                BypassState::Finished,
                one(Notice::FirewallWarning),
                Action::Finish(Ok(())),
            ),
            Event::Done(Err(err)) => (BypassState::Finished, Vec::new(), Action::Finish(Err(err))),
            _ => {
                proof {
                    assert(false);
                }
                (BypassState::Finished, Vec::new(), Action::Finish(Ok(())))
            },
        },
        BypassState::Finished => {
            proof {
                assert(false);
            }
            (BypassState::Finished, Vec::new(), Action::Finish(Ok(())))
        },
    }
}

// ---------------------------------------------------------------------------
// The network wizard
// ---------------------------------------------------------------------------

/// Where the network wizard stands. `eth` is the number of Ethernet ports
/// found; `ip` the LAN address the wizard reports at the end.
pub enum WizardState {
    Start,
    AwaitUse,
    AwaitInterfaces,
    AwaitBypassChoice { eth: usize },
    /// The bypass-gateway set-up has taken over.
    Bypass(BypassState),
    AwaitChangeIp { eth: usize },
    AwaitNewIp { eth: usize },
    AwaitIpSet { eth: usize, ip: String },
    AwaitIpv6 { eth: usize, ip: String },
    AwaitIpv6Removed { eth: usize, ip: String },
    AwaitPppoe { eth: usize, ip: String },
    AwaitPppoeAccount { eth: usize, ip: String },
    AwaitPppoePassword { eth: usize, ip: String, account: String },
    AwaitPppoeSet { eth: usize, ip: String },
    AwaitDnsChoice { eth: usize, ip: String },
    AwaitDnsInput { eth: usize, ip: String },
    AwaitDnsSet { eth: usize, ip: String },
    AwaitPoolChoice { eth: usize, ip: String },
    AwaitPoolRange { eth: usize, ip: String },
    AwaitPoolSet { eth: usize, ip: String },
    AwaitForce { eth: usize, ip: String },
    AwaitForceSet { eth: usize, ip: String },
    AwaitUpnp { eth: usize, ip: String },
    AwaitUpnpSet { eth: usize, ip: String },
    AwaitRelease { eth: usize, ip: String },
    AwaitPortsChoice { ip: String },
    AwaitPortsList { ip: String },
    AwaitPortsSet { ip: String, ports: String },
    AwaitFinalPlan { ip: String },
    Finished,
}

/// The command that lists the network interfaces.
pub open spec fn list_interfaces() -> CommandView {
    ("ls"@, seq!["/sys/class/net"@])
}

/// The DNS servers the wizard recommends.
pub open spec fn wizard_dns() -> Seq<char> {
    "223.6.6.6 119.29.29.99"@
}

/// The deletions that switch IPv6 off; each may fail.
pub open spec fn ipv6_removal() -> Seq<(CommandView, bool)> {
    seq![
        (uci_delete("dhcp.lan.dhcpv6"@), false),
        (uci_delete("dhcp.lan.ra"@), false),
        (uci_delete("dhcp.lan.ra_management"@), false),
        (uci_delete("network.lan.ip6assign"@), false),
    ]
}

/// The settings of PPPoE dialling with the given account.
pub open spec fn pppoe_settings(account: Seq<char>, password: Seq<char>) -> Seq<
    (CommandView, bool),
> {
    seq![
        (uci_set("network.wan.proto"@, "pppoe"@), true),
        (uci_set("network.wan.username"@, account), true),
        (uci_set("network.wan.password"@, password), true),
    ]
}

/// The setting of the DHCP pool: first address and size.
pub open spec fn pool_settings(start: Seq<char>, limit: Seq<char>) -> Seq<(CommandView, bool)> {
    seq![(uci_set("dhcp.lan.start"@, start), true), (uci_set("dhcp.lan.limit"@, limit), true)]
}

/// Commit everything, then restart the services; only the restart of
/// miniupnpd may fail.
pub open spec fn wizard_final() -> Seq<(CommandView, bool)> {
    seq![
        (uci_commit("network"@), true),
        (uci_commit("dhcp"@), true),
        (uci_commit("firewall"@), true),
        (restart("network"@), true),
        (restart("dnsmasq"@), true),
        (restart("firewall"@), true),
        (restart("miniupnpd"@), false),
    ]
}

/// A release on which the wizard offers to assign the Ethernet ports: amd64
/// or aarch64_generic.
pub open spec fn ports_configurable(release: Option<String>) -> bool {
    release matches Some(c) && (contains_seq(c@, "arch=amd64"@) || contains_seq(
        c@,
        "arch=aarch64_generic"@,
    ))
}

/// The states the wizard can be in.
pub open spec fn wizard_wf(s: WizardState) -> bool {
    s matches WizardState::Bypass(b) ==> bypass_wf(b)
}

/// The events that the wizard can take in state `s`: what answers the action
/// it last gave.
pub open spec fn wizard_accepts(s: WizardState, e: Event) -> bool {
    match s {
        WizardState::Start => e is Begin,
        WizardState::AwaitInterfaces => e is Output,
        WizardState::Bypass(b) => bypass_accepts(b, e),
        WizardState::AwaitIpSet { .. } => e is Done,
        WizardState::AwaitIpv6Removed { .. } => e is Done,
        WizardState::AwaitPppoeSet { .. } => e is Done,
        WizardState::AwaitDnsSet { .. } => e is Done,
        WizardState::AwaitPoolSet { .. } => e is Done,
        WizardState::AwaitForceSet { .. } => e is Done,
        WizardState::AwaitUpnpSet { .. } => e is Done,
        WizardState::AwaitRelease { .. } => e is File,
        WizardState::AwaitPortsList { .. } => e is Output,
        WizardState::AwaitPortsSet { .. } => e is Done,
        WizardState::AwaitFinalPlan { .. } => e is Done,
        WizardState::AwaitNewIp { .. } => e is Text || e is Failed,
        WizardState::AwaitPppoeAccount { .. } => e is Text || e is Failed,
        WizardState::AwaitPppoePassword { .. } => e is Text || e is Failed,
        WizardState::AwaitDnsInput { .. } => e is Text || e is Failed,
        WizardState::AwaitPoolRange { .. } => e is Text || e is Failed,
        WizardState::Finished => false,
        _ => e is Confirmed || e is Failed,
    }
}

/// The wizard moves on to the IPv6 question, keeping `eth` and `ip`.
pub open spec fn to_ipv6(n: WizardState, eth: usize, ip: Seq<char>, a: Action) -> bool {
    &&& n matches WizardState::AwaitIpv6 { eth: x, ip: y } && x == eth && y@ == ip
    &&& is_confirm(a, Question::DisableIpv6, false)
}

/// The wizard moves on to the PPPoE question.
pub open spec fn to_pppoe(n: WizardState, eth: usize, ip: Seq<char>, a: Action) -> bool {
    &&& n matches WizardState::AwaitPppoe { eth: x, ip: y } && x == eth && y@ == ip
    &&& is_confirm(a, Question::UsePppoe, false)
}

/// The wizard moves on to the DNS question.
pub open spec fn to_dns(n: WizardState, eth: usize, ip: Seq<char>, a: Action) -> bool {
    &&& n matches WizardState::AwaitDnsChoice { eth: x, ip: y } && x == eth && y@ == ip
    &&& is_confirm(a, Question::WizardDns, true)
}

/// The wizard sets the DNS servers `dns`.
pub open spec fn to_dns_set(n: WizardState, eth: usize, ip: Seq<char>, dns: Seq<char>, a: Action) -> bool {
    &&& n matches WizardState::AwaitDnsSet { eth: x, ip: y } && x == eth && y@ == ip
    &&& is_plan(a, seq![(uci_set("network.lan.dns"@, dns), true)])
}

/// The wizard moves on to the DHCP pool question.
pub open spec fn to_pool(n: WizardState, eth: usize, ip: Seq<char>, a: Action) -> bool {
    &&& n matches WizardState::AwaitPoolChoice { eth: x, ip: y } && x == eth && y@ == ip
    &&& is_confirm(a, Question::ChangeDhcpPool, false)
}

/// The wizard sets the DHCP pool.
pub open spec fn to_pool_set(
    n: WizardState,
    eth: usize,
    ip: Seq<char>,
    start: Seq<char>,
    limit: Seq<char>,
    a: Action,
) -> bool {
    &&& n matches WizardState::AwaitPoolSet { eth: x, ip: y } && x == eth && y@ == ip
    &&& is_plan(a, pool_settings(start, limit))
}

/// The wizard moves on to the forced-DHCP question.
pub open spec fn to_force(n: WizardState, eth: usize, ip: Seq<char>, a: Action) -> bool {
    &&& n matches WizardState::AwaitForce { eth: x, ip: y } && x == eth && y@ == ip
    &&& is_confirm(a, Question::ForceDhcp, true)
}

/// The wizard moves on to the UPnP question.
pub open spec fn to_upnp(n: WizardState, eth: usize, ip: Seq<char>, a: Action) -> bool {
    &&& n matches WizardState::AwaitUpnp { eth: x, ip: y } && x == eth && y@ == ip
    &&& is_confirm(a, Question::EnableUpnp, true)
}

/// The wizard reads the release description.
pub open spec fn to_release(n: WizardState, eth: usize, ip: Seq<char>, a: Action) -> bool {
    &&& n matches WizardState::AwaitRelease { eth: x, ip: y } && x == eth && y@ == ip
    &&& a matches Action::ReadFile(f) && f@ == "/etc/catwrt_release"@
}

/// The wizard commits and restarts.
pub open spec fn to_final(n: WizardState, ip: Seq<char>, a: Action) -> bool {
    &&& n matches WizardState::AwaitFinalPlan { ip: y } && y@ == ip
    &&& is_plan(a, wizard_final())
}

/// The step of the wizard from state `s` on event `e` to state `n`, with
/// notices `ns` and action `a`.
pub open spec fn wizard_transition(
    s: WizardState,
    e: Event,
    n: WizardState,
    ns: Seq<Notice>,
    a: Action,
) -> bool {
    match s {
        WizardState::Bypass(b) => exists|b2: BypassState|
            bypass_transition(b, e, b2, ns, a) && (if a is Finish {
                n is Finished
            } else {
                n == WizardState::Bypass(b2)
            }),
        _ => match e {
            Event::Failed(err) => n is Finished && ns.len() == 0 && is_finish(a, Err(err)),
            _ => wizard_answer(s, e, n, ns, a),
        },
    }
}

/// The step of the wizard on an event other than a failed prompt.
pub open spec fn wizard_answer(
    s: WizardState,
    e: Event,
    n: WizardState,
    ns: Seq<Notice>,
    a: Action,
) -> bool {
    match (s, e) {
        (WizardState::Start, _) => n is AwaitUse && ns == seq![Notice::WizardHeader] && is_confirm(
            a,
            Question::UseWizard,
            true,
        ),
        (WizardState::AwaitUse, Event::Confirmed(false)) => n is Finished && ns == seq![
            Notice::WizardDeclined,
        ] && is_finish(a, Ok(())),
        (WizardState::AwaitUse, Event::Confirmed(true)) => n is AwaitInterfaces && ns.len() == 0
            && is_run(a, list_interfaces()),
        (WizardState::AwaitInterfaces, Event::Output(Err(err))) => n is Finished && ns.len() == 0
            && is_finish(a, Err(err)),
        (WizardState::AwaitInterfaces, Event::Output(Ok(out))) => {
            let eth = eth_names(out@).len();
            if eth == 1 {
                n == WizardState::AwaitBypassChoice { eth: 1 } && ns == seq![
                    Notice::SingleInterface,
                ] && is_confirm(a, Question::BypassSetup, true)
            } else {
                n matches WizardState::AwaitChangeIp { eth: x } && x == eth && ns == seq![
                    Notice::IpStep,
                ] && is_confirm(a, Question::ChangeIp, false)
            }
        },
        (WizardState::AwaitBypassChoice { eth }, Event::Confirmed(true)) => exists|
            b2: BypassState,
        |
            bypass_transition(BypassState::Start, Event::Begin, b2, ns, a) && n
                == WizardState::Bypass(b2),
        (WizardState::AwaitBypassChoice { eth }, Event::Confirmed(false)) => n
            == WizardState::AwaitChangeIp { eth } && ns == seq![Notice::IpStep] && is_confirm(
            a,
            Question::ChangeIp,
            false,
        ),
        (WizardState::AwaitChangeIp { eth }, Event::Confirmed(true)) => n
            == WizardState::AwaitNewIp { eth } && ns.len() == 0 && is_input(
            a,
            Question::NewIp,
            Some(DEFAULT_IP@),
        ),
        (WizardState::AwaitChangeIp { eth }, Event::Confirmed(false)) => ns == seq![
            Notice::IpKept,
            Notice::Ipv6Step,
        ] && to_ipv6(n, eth, DEFAULT_IP@, a),
        (WizardState::AwaitNewIp { eth }, Event::Text(ip)) => if is_valid_ip(ip@) {
            &&& n matches WizardState::AwaitIpSet { eth: x, ip: y } && x == eth && y@ == ip@
            &&& ns.len() == 0
            &&& is_plan(a, seq![(uci_set("network.lan.ipaddr"@, ip@), true)])
        } else {
            &&& n is Finished
            &&& ns.len() == 0
            &&& a matches Action::Finish(Err(err)) && crate::utils::validation::ip_rejection(
                ip@,
                err,
            )
        },
        (WizardState::AwaitIpSet { eth, ip }, Event::Done(Ok(()))) => {
            &&& ns.len() == 2
            &&& ns[0] matches Notice::IpSet(x) && x@ == ip@
            &&& ns[1] == Notice::Ipv6Step
            &&& to_ipv6(n, eth, ip@, a)
        },
        (WizardState::AwaitIpv6 { eth, ip }, Event::Confirmed(true)) => {
            &&& n matches WizardState::AwaitIpv6Removed { eth: x, ip: y } && x == eth && y@ == ip@
            &&& ns.len() == 0
            &&& is_plan(a, ipv6_removal())
        },
        (WizardState::AwaitIpv6 { eth, ip }, Event::Confirmed(false)) => ns == seq![
            Notice::PppoeStep,
        ] && to_pppoe(n, eth, ip@, a),
        (WizardState::AwaitIpv6Removed { eth, ip }, Event::Done(_)) => ns == seq![
            Notice::Ipv6Disabled,
            Notice::PppoeStep,
        ] && to_pppoe(n, eth, ip@, a),
        (WizardState::AwaitPppoe { eth, ip }, Event::Confirmed(true)) => {
            &&& n matches WizardState::AwaitPppoeAccount { eth: x, ip: y } && x == eth && y@
                == ip@
            &&& ns == seq![Notice::PppoeHint]
            &&& is_input(a, Question::PppoeAccount, None)
        },
        (WizardState::AwaitPppoe { eth, ip }, Event::Confirmed(false)) => ns == seq![
            Notice::DnsStep,
        ] && to_dns(n, eth, ip@, a),
        (WizardState::AwaitPppoeAccount { eth, ip }, Event::Text(account)) => {
            &&& n matches WizardState::AwaitPppoePassword { eth: x, ip: y, account: z } && x
                == eth && y@ == ip@ && z@ == account@
            &&& ns.len() == 0
            &&& is_password(a, Question::PppoePassword)
        },
        (WizardState::AwaitPppoePassword { eth, ip, account }, Event::Text(password)) => {
            &&& n matches WizardState::AwaitPppoeSet { eth: x, ip: y } && x == eth && y@ == ip@
            &&& ns.len() == 0
            &&& is_plan(a, pppoe_settings(account@, password@))
        },
        (WizardState::AwaitPppoeSet { eth, ip }, Event::Done(Ok(()))) => ns == seq![
            Notice::PppoeDone,
            Notice::DnsStep,
        ] && to_dns(n, eth, ip@, a),
        (WizardState::AwaitDnsChoice { eth, ip }, Event::Confirmed(true)) => ns.len() == 0
            && to_dns_set(n, eth, ip@, wizard_dns(), a),
        (WizardState::AwaitDnsChoice { eth, ip }, Event::Confirmed(false)) => {
            &&& n matches WizardState::AwaitDnsInput { eth: x, ip: y } && x == eth && y@ == ip@
            &&& ns.len() == 0
            &&& is_input(a, Question::CustomDns, None)
        },
        (WizardState::AwaitDnsInput { eth, ip }, Event::Text(dns)) => ns.len() == 0 && to_dns_set(
            n,
            eth,
            ip@,
            dns@,
            a,
        ),
        (WizardState::AwaitDnsSet { eth, ip }, Event::Done(Ok(()))) => ns == seq![
            Notice::DhcpPoolStep,
        ] && to_pool(n, eth, ip@, a),
        (WizardState::AwaitPoolChoice { eth, ip }, Event::Confirmed(true)) => {
            &&& n matches WizardState::AwaitPoolRange { eth: x, ip: y } && x == eth && y@ == ip@
            &&& ns.len() == 0
            &&& is_input(a, Question::DhcpRange, None)
        },
        (WizardState::AwaitPoolChoice { eth, ip }, Event::Confirmed(false)) => ns.len() == 0
            && to_pool_set(n, eth, ip@, "30"@, "200"@, a),
        (WizardState::AwaitPoolRange { eth, ip }, Event::Text(range)) => {
            let parts = split(range@, '-');
            if parts.len() == 2 {
                ns.len() == 0 && to_pool_set(n, eth, ip@, parts[0], parts[1], a)
            } else {
                ns == seq![Notice::ForceDhcpStep] && to_force(n, eth, ip@, a)
            }
        },
        (WizardState::AwaitPoolSet { eth, ip }, Event::Done(Ok(()))) => ns == seq![
            Notice::ForceDhcpStep,
        ] && to_force(n, eth, ip@, a),
        (WizardState::AwaitForce { eth, ip }, Event::Confirmed(true)) => {
            &&& n matches WizardState::AwaitForceSet { eth: x, ip: y } && x == eth && y@ == ip@
            &&& ns.len() == 0
            &&& is_plan(a, seq![(uci_set("dhcp.lan.force"@, "1"@), true)])
        },
        (WizardState::AwaitForce { eth, ip }, Event::Confirmed(false)) => ns == seq![
            Notice::UpnpStep,
        ] && to_upnp(n, eth, ip@, a),
        (WizardState::AwaitForceSet { eth, ip }, Event::Done(Ok(()))) => ns == seq![
            Notice::ForceDhcpOn,
            Notice::UpnpStep,
        ] && to_upnp(n, eth, ip@, a),
        (WizardState::AwaitUpnp { eth, ip }, Event::Confirmed(true)) => {
            &&& n matches WizardState::AwaitUpnpSet { eth: x, ip: y } && x == eth && y@ == ip@
            &&& ns.len() == 0
            &&& is_plan(a, seq![(uci_set("upnpd.config.enabled"@, "1"@), true)])
        },
        (WizardState::AwaitUpnp { eth, ip }, Event::Confirmed(false)) => ns.len() == 0
            && to_release(n, eth, ip@, a),
        (WizardState::AwaitUpnpSet { eth, ip }, Event::Done(Ok(()))) => ns == seq![
            Notice::UpnpOn,
        ] && to_release(n, eth, ip@, a),
        (WizardState::AwaitRelease { eth, ip }, Event::File(content)) => if ports_configurable(
            content,
        ) {
            if eth > 2 {
                &&& n matches WizardState::AwaitPortsChoice { ip: y } && y@ == ip@
                &&& ns == seq![Notice::PortsStep]
                &&& is_confirm(a, Question::ConfigurePorts, false)
            } else {
                ns == seq![Notice::PortsStep, Notice::Restarting] && to_final(n, ip@, a)
            }
        } else {
            ns == seq![Notice::Restarting] && to_final(n, ip@, a)
        },
        (WizardState::AwaitPortsChoice { ip }, Event::Confirmed(true)) => {
            &&& n matches WizardState::AwaitPortsList { ip: y } && y@ == ip@
            &&& ns.len() == 0
            &&& is_run(a, list_interfaces())
        },
        (WizardState::AwaitPortsChoice { ip }, Event::Confirmed(false)) => ns == seq![
            Notice::Restarting,
        ] && to_final(n, ip@, a),
        (WizardState::AwaitPortsList { ip }, Event::Output(Ok(out))) => {
            let ports = bridge_ports(out@);
            &&& n matches WizardState::AwaitPortsSet { ip: y, ports: z } && y@ == ip@ && z@
                == ports
            &&& ns.len() == 0
            &&& is_plan(a, port_settings(ports).map_values(|c: CommandView| (c, true)))
        },
        (WizardState::AwaitPortsSet { ip, ports }, Event::Done(Ok(()))) => {
            &&& ns.len() == 2
            &&& ns[0] matches Notice::PortsConfigured(x) && x@ == ports@
            &&& ns[1] == Notice::Restarting
            &&& to_final(n, ip@, a)
        },
        (WizardState::AwaitFinalPlan { ip }, Event::Done(Ok(()))) => {
            &&& n is Finished
            &&& ns.len() == 1
            &&& ns[0] matches Notice::WizardDone(x) && x@ == ip@
            &&& is_finish(a, Ok(()))
        },
        (_, Event::Output(Err(err))) => n is Finished && ns.len() == 0 && is_finish(a, Err(err)),
        (_, Event::Done(Err(err))) => n is Finished && ns.len() == 0 && is_finish(a, Err(err)),
        _ => false,
    }
}

/// A plan of one checked step.
fn plan_of(c: Command) -> (r: Vec<Step>)
    ensures
        steps_view(r@) == seq![(command_view(c), true)],
{
    let mut r: Vec<Step> = Vec::new();
    push_step(&mut r, c, true);
    r
}

/// The command that lists the network interfaces.
fn list_interfaces_command() -> (c: Command)
    ensures
        command_view(c) == list_interfaces(),
{
    let mut a: Vec<String> = Vec::new();
    a.push(String::from_str("/sys/class/net"));
    let c = command("ls", a);
    assert(views(c.args@) =~= seq!["/sys/class/net"@]);
    c
}

/// The plan that switches IPv6 off.
fn ipv6_removal_plan() -> (r: Vec<Step>)
    ensures
        steps_view(r@) == ipv6_removal(),
{
    let uci = Uci::new();
    let mut r: Vec<Step> = Vec::new();
    push_step(&mut r, uci.delete("dhcp.lan.dhcpv6"), false);
    push_step(&mut r, uci.delete("dhcp.lan.ra"), false);
    push_step(&mut r, uci.delete("dhcp.lan.ra_management"), false);
    push_step(&mut r, uci.delete("network.lan.ip6assign"), false);
    assert(steps_view(r@) =~= ipv6_removal());
    r
}

/// The plan that sets up PPPoE dialling.
fn pppoe_plan(account: &str, password: &str) -> (r: Vec<Step>)
    ensures
        steps_view(r@) == pppoe_settings(account@, password@),
{
    let uci = Uci::new();
    let mut r: Vec<Step> = Vec::new();
    push_step(&mut r, uci.set("network.wan.proto", "pppoe"), true);
    push_step(&mut r, uci.set("network.wan.username", account), true);
    push_step(&mut r, uci.set("network.wan.password", password), true);
    assert(steps_view(r@) =~= pppoe_settings(account@, password@));
    r
}

/// The plan that sets the DHCP pool.
fn pool_plan(start: &str, limit: &str) -> (r: Vec<Step>)
    ensures
        steps_view(r@) == pool_settings(start@, limit@),
{
    let uci = Uci::new();
    let mut r: Vec<Step> = Vec::new();
    push_step(&mut r, uci.set("dhcp.lan.start", start), true);
    push_step(&mut r, uci.set("dhcp.lan.limit", limit), true);
    assert(steps_view(r@) =~= pool_settings(start@, limit@));
    r
}

/// The plan that commits everything and restarts the services.
fn final_plan() -> (r: Vec<Step>)
    ensures
        steps_view(r@) == wizard_final(),
{
    let uci = Uci::new();
    let mut r: Vec<Step> = Vec::new();
    push_step(&mut r, uci.commit("network"), true);
    push_step(&mut r, uci.commit("dhcp"), true);
    push_step(&mut r, uci.commit("firewall"), true);
    push_step(&mut r, restart_service("network"), true);
    push_step(&mut r, restart_service("dnsmasq"), true);
    push_step(&mut r, restart_service("firewall"), true);
    push_step(&mut r, restart_service("miniupnpd"), false);
    assert(steps_view(r@) =~= wizard_final());
    r
}

/// The action that reads the release description.
fn read_release() -> (a: Action)
    ensures
        a matches Action::ReadFile(f) && f@ == "/etc/catwrt_release"@,
{
    Action::ReadFile(String::from_str("/etc/catwrt_release"))
}

/// One step of the network wizard.
///
/// After the user agrees to use it, the wizard counts the Ethernet ports; with
/// a single port it offers the bypass-gateway set-up, which then takes over.
/// Otherwise it asks in turn for the LAN address (validated before it is
/// set), whether to switch IPv6 off, PPPoE dialling, the DNS servers, the
/// DHCP pool, forced DHCP and UPnP, applying each answer at once; on an amd64
/// or aarch64 release with more than two ports it offers to make `eth0` the
/// WAN port and bridge the others; at last it commits the configuration and
/// restarts the services. A failed prompt, a failed command whose output is
/// needed, or a failed checked step ends it with that error.
pub fn network_wizard(s: WizardState, e: Event) -> (r: (WizardState, Vec<Notice>, Action))
    requires
        wizard_wf(s),
        wizard_accepts(s, e),
    ensures
        wizard_wf(r.0),
        wizard_transition(s, e, r.0, r.1@, r.2),
{
    match s {
        WizardState::Bypass(b) => {
            let (b2, ns, a) = configure_bypass_gateway(b, e);
            let ghost gb2 = b2;
            assert(bypass_transition(b, e, gb2, ns@, a));
            if matches!(a, Action::Finish(_)) {
                (WizardState::Finished, ns, a)
            } else {
                (WizardState::Bypass(b2), ns, a)
            }
        },
        _ => {
            if let Event::Failed(err) = e {
                return (WizardState::Finished, Vec::new(), Action::Finish(Err(err)));
            }
            wizard_answer_step(s, e)
        },
    }
}

/// The step of the wizard on an event other than a failed prompt, outside
/// the bypass set-up.
fn wizard_answer_step(s: WizardState, e: Event) -> (r: (WizardState, Vec<Notice>, Action))
    requires
        !(s is Bypass),
        !(e is Failed),
        wizard_accepts(s, e),
    ensures
        wizard_wf(r.0),
        wizard_answer(s, e, r.0, r.1@, r.2),
{
    let fin = WizardState::Finished;
    match s {
        WizardState::Start => (
            WizardState::AwaitUse,
            one(Notice::WizardHeader),
            confirm(Question::UseWizard, true),
        ),
        WizardState::AwaitUse => match e {
            Event::Confirmed(yes) => {
                if yes {
                    (
                        WizardState::AwaitInterfaces,
                        Vec::new(),
                        Action::Run(list_interfaces_command()),
                    )
                } else {
                    (fin, one(Notice::WizardDeclined), Action::Finish(Ok(())))
                }
            },
            _ => {
                proof {
                    assert(false);
                }
                (fin, Vec::new(), Action::Finish(Ok(())))
            },
        },
        WizardState::AwaitInterfaces => match e {
            Event::Output(Ok(out)) => {
                let eth = eth_interfaces(out.as_str()).len();
                if eth == 1 {
                    (
                        WizardState::AwaitBypassChoice { eth: 1 },
                        one(Notice::SingleInterface),
                        confirm(Question::BypassSetup, true),
                    )
                } else {
                    (
                        WizardState::AwaitChangeIp { eth },
                        one(Notice::IpStep),
                        confirm(Question::ChangeIp, false),
                    )
                }
            },
            Event::Output(Err(err)) => (fin, Vec::new(), Action::Finish(Err(err))),
            _ => {
                proof {
                    assert(false);
                }
                (fin, Vec::new(), Action::Finish(Ok(())))
            },
        },
        WizardState::AwaitBypassChoice { eth } => match e {
            Event::Confirmed(yes) => {
                if yes {
                    let (b2, ns, a) = configure_bypass_gateway(BypassState::Start, Event::Begin);
                    let ghost gb2 = b2;
                    assert(bypass_transition(BypassState::Start, Event::Begin, gb2, ns@, a));
                    (WizardState::Bypass(b2), ns, a)
                } else {
                    (
                        WizardState::AwaitChangeIp { eth },
                        one(Notice::IpStep),
                        confirm(Question::ChangeIp, false),
                    )
                }
            },
            _ => {
                proof {
                    assert(false);
                }
                (fin, Vec::new(), Action::Finish(Ok(())))
            },
        },
        WizardState::AwaitChangeIp { eth } => match e {
            Event::Confirmed(yes) => {
                if yes {
                    (
                        WizardState::AwaitNewIp { eth },
                        Vec::new(),
                        input(Question::NewIp, Some(String::from_str(DEFAULT_IP))),
                    )
                } else {
                    (
                        WizardState::AwaitIpv6 { eth, ip: String::from_str(DEFAULT_IP) },
                        two(Notice::IpKept, Notice::Ipv6Step),
                        confirm(Question::DisableIpv6, false),
                    )
                }
            },
            _ => {
                proof {
                    assert(false);
                }
                (fin, Vec::new(), Action::Finish(Ok(())))
            },
        },
        WizardState::AwaitNewIp { eth } => match e {
            Event::Text(ip) => match validate_ip(ip.as_str()) {
                Ok(()) => {
                    let plan = plan_of(Uci::new().set("network.lan.ipaddr", ip.as_str()));
                    (WizardState::AwaitIpSet { eth, ip }, Vec::new(), Action::RunPlan(plan))
                },
                Err(err) => (fin, Vec::new(), Action::Finish(Err(err))),
            },
            _ => {
                proof {
                    assert(false);
                }
                (fin, Vec::new(), Action::Finish(Ok(())))
            },
        },
        WizardState::AwaitIpSet { eth, ip } => match e {
            Event::Done(Ok(())) => {
                let n = one(Notice::IpSet(ip.clone()));
                let mut ns = n;
                ns.push(Notice::Ipv6Step);
                (WizardState::AwaitIpv6 { eth, ip }, ns, confirm(Question::DisableIpv6, false))
            },
            Event::Done(Err(err)) => (fin, Vec::new(), Action::Finish(Err(err))),
            _ => {
                proof {
                    assert(false);
                }
                (fin, Vec::new(), Action::Finish(Ok(())))
            },
        },
        WizardState::AwaitIpv6 { eth, ip } => match e {
            Event::Confirmed(yes) => {
                if yes {
                    (
                        WizardState::AwaitIpv6Removed { eth, ip },
                        Vec::new(),
                        Action::RunPlan(ipv6_removal_plan()),
                    )
                } else {
                    (
                        WizardState::AwaitPppoe { eth, ip },
                        one(Notice::PppoeStep),
                        confirm(Question::UsePppoe, false),
                    )
                }
            },
            _ => {
                proof {
                    assert(false);
                }
                (fin, Vec::new(), Action::Finish(Ok(())))
            },
        },
        WizardState::AwaitIpv6Removed { eth, ip } => (
            WizardState::AwaitPppoe { eth, ip },
            two(Notice::Ipv6Disabled, Notice::PppoeStep),
            confirm(Question::UsePppoe, false),
        ),
        WizardState::AwaitPppoe { eth, ip } => match e {
            Event::Confirmed(yes) => {
                if yes {
                    (
                        WizardState::AwaitPppoeAccount { eth, ip },
                        one(Notice::PppoeHint),
                        input(Question::PppoeAccount, None),
                    )
                } else {
                    (
                        WizardState::AwaitDnsChoice { eth, ip },
                        one(Notice::DnsStep),
                        confirm(Question::WizardDns, true),
                    )
                }
            },
            _ => {
                proof {
                    assert(false);
                }
                (fin, Vec::new(), Action::Finish(Ok(())))
            },
        },
        WizardState::AwaitPppoeAccount { eth, ip } => match e {
            Event::Text(account) => (
                WizardState::AwaitPppoePassword { eth, ip, account },
                Vec::new(),
                Action::Ask(Prompt::Password { question: Question::PppoePassword }),
            ),
            _ => {
                proof {
                    assert(false);
                }
                (fin, Vec::new(), Action::Finish(Ok(())))
            },
        },
        WizardState::AwaitPppoePassword { eth, ip, account } => match e {
            Event::Text(password) => (
                WizardState::AwaitPppoeSet { eth, ip },
                Vec::new(),
                Action::RunPlan(pppoe_plan(account.as_str(), password.as_str())),
            ),
            _ => {
                proof {
                    assert(false);
                }
                (fin, Vec::new(), Action::Finish(Ok(())))
            },
        },
        WizardState::AwaitPppoeSet { eth, ip } => match e {
            Event::Done(Ok(())) => (
                WizardState::AwaitDnsChoice { eth, ip },
                two(Notice::PppoeDone, Notice::DnsStep),
                confirm(Question::WizardDns, true),
            ),
            Event::Done(Err(err)) => (fin, Vec::new(), Action::Finish(Err(err))),
            _ => {
                proof {
                    assert(false);
                }
                (fin, Vec::new(), Action::Finish(Ok(())))
            },
        },
        WizardState::AwaitDnsChoice { eth, ip } => match e {
            Event::Confirmed(yes) => {
                if yes {
                    let plan = plan_of(Uci::new().set("network.lan.dns", "223.6.6.6 119.29.29.99"));
                    (WizardState::AwaitDnsSet { eth, ip }, Vec::new(), Action::RunPlan(plan))
                } else {
                    (
                        WizardState::AwaitDnsInput { eth, ip },
                        Vec::new(),
                        input(Question::CustomDns, None),
                    )
                }
            },
            _ => {
                proof {
                    assert(false);
                }
                (fin, Vec::new(), Action::Finish(Ok(())))
            },
        },
        WizardState::AwaitDnsInput { eth, ip } => match e {
            Event::Text(dns) => {
                let plan = plan_of(Uci::new().set("network.lan.dns", dns.as_str()));
                (WizardState::AwaitDnsSet { eth, ip }, Vec::new(), Action::RunPlan(plan))
            },
            _ => {
                proof {
                    assert(false);
                }
                (fin, Vec::new(), Action::Finish(Ok(())))
            },
        },
        WizardState::AwaitDnsSet { eth, ip } => match e {
            Event::Done(Ok(())) => (
                WizardState::AwaitPoolChoice { eth, ip },
                one(Notice::DhcpPoolStep),
                confirm(Question::ChangeDhcpPool, false),
            ),
            Event::Done(Err(err)) => (fin, Vec::new(), Action::Finish(Err(err))),
            _ => {
                proof {
                    assert(false);
                }
                (fin, Vec::new(), Action::Finish(Ok(())))
            },
        },
        WizardState::AwaitPoolChoice { eth, ip } => match e {
            Event::Confirmed(yes) => {
                if yes {
                    (
                        WizardState::AwaitPoolRange { eth, ip },
                        Vec::new(),
                        input(Question::DhcpRange, None),
                    )
                } else {
                    (
                        WizardState::AwaitPoolSet { eth, ip },
                        Vec::new(),
                        Action::RunPlan(pool_plan("30", "200")),
                    )
                }
            },
            _ => {
                proof {
                    assert(false);
                }
                (fin, Vec::new(), Action::Finish(Ok(())))
            },
        },
        WizardState::AwaitPoolRange { eth, ip } => match e {
            Event::Text(range) => {
                let parts = split_char(range.as_str(), '-');
                if parts.len() == 2 {
                    let plan = pool_plan(parts[0].as_str(), parts[1].as_str());
                    (WizardState::AwaitPoolSet { eth, ip }, Vec::new(), Action::RunPlan(plan))
                } else {
                    (
                        WizardState::AwaitForce { eth, ip },
                        one(Notice::ForceDhcpStep),
                        confirm(Question::ForceDhcp, true),
                    )
                }
            },
            _ => {
                proof {
                    assert(false);
                }
                (fin, Vec::new(), Action::Finish(Ok(())))
            },
        },
        WizardState::AwaitPoolSet { eth, ip } => match e {
            Event::Done(Ok(())) => (
                WizardState::AwaitForce { eth, ip },
                one(Notice::ForceDhcpStep),
                confirm(Question::ForceDhcp, true),
            ),
            Event::Done(Err(err)) => (fin, Vec::new(), Action::Finish(Err(err))),
            _ => {
                proof {
                    assert(false);
                }
                (fin, Vec::new(), Action::Finish(Ok(())))
            },
        },
        WizardState::AwaitForce { eth, ip } => match e {
            Event::Confirmed(yes) => {
                if yes {
                    let plan = plan_of(Uci::new().set("dhcp.lan.force", "1"));
                    (WizardState::AwaitForceSet { eth, ip }, Vec::new(), Action::RunPlan(plan))
                } else {
                    (
                        WizardState::AwaitUpnp { eth, ip },
                        one(Notice::UpnpStep),
                        confirm(Question::EnableUpnp, true),
                    )
                }
            },
            _ => {
                proof {
                    assert(false);
                }
                (fin, Vec::new(), Action::Finish(Ok(())))
            },
        },
        WizardState::AwaitForceSet { eth, ip } => match e {
            Event::Done(Ok(())) => (
                WizardState::AwaitUpnp { eth, ip },
                two(Notice::ForceDhcpOn, Notice::UpnpStep),
                confirm(Question::EnableUpnp, true),
            ),
            Event::Done(Err(err)) => (fin, Vec::new(), Action::Finish(Err(err))),
            _ => {
                proof {
                    assert(false);
                }
                (fin, Vec::new(), Action::Finish(Ok(())))
            },
        },
        WizardState::AwaitUpnp { eth, ip } => match e {
            Event::Confirmed(yes) => {
                if yes {
                    let plan = plan_of(Uci::new().set("upnpd.config.enabled", "1"));
                    (WizardState::AwaitUpnpSet { eth, ip }, Vec::new(), Action::RunPlan(plan))
                } else {
                    (WizardState::AwaitRelease { eth, ip }, Vec::new(), read_release())
                }
            },
            _ => {
                proof {
                    assert(false);
                }
                (fin, Vec::new(), Action::Finish(Ok(())))
            },
        },
        WizardState::AwaitUpnpSet { eth, ip } => match e {
            Event::Done(Ok(())) => (
                WizardState::AwaitRelease { eth, ip },
                one(Notice::UpnpOn),
                read_release(),
            ),
            Event::Done(Err(err)) => (fin, Vec::new(), Action::Finish(Err(err))),
            _ => {
                proof {
                    assert(false);
                }
                (fin, Vec::new(), Action::Finish(Ok(())))
            },
        },
        WizardState::AwaitRelease { eth, ip } => match e {
            Event::File(content) => {
                let configurable = match &content {
                    Some(c) => contains_str(c.as_str(), "arch=amd64") || contains_str(
                        c.as_str(),
                        "arch=aarch64_generic",
                    ),
                    None => false,
                };
                if configurable {
                    if eth > 2 {
                        (
                            WizardState::AwaitPortsChoice { ip },
                            one(Notice::PortsStep),
                            confirm(Question::ConfigurePorts, false),
                        )
                    } else {
                        (
                            WizardState::AwaitFinalPlan { ip },
                            two(Notice::PortsStep, Notice::Restarting),
                            Action::RunPlan(final_plan()),
                        )
                    }
                } else {
                    (
                        WizardState::AwaitFinalPlan { ip },
                        one(Notice::Restarting),
                        Action::RunPlan(final_plan()),
                    )
                }
            },
            _ => {
                proof {
                    assert(false);
                }
                (fin, Vec::new(), Action::Finish(Ok(())))
            },
        },
        WizardState::AwaitPortsChoice { ip } => match e {
            Event::Confirmed(yes) => {
                if yes {
                    (
                        WizardState::AwaitPortsList { ip },
                        Vec::new(),
                        Action::Run(list_interfaces_command()),
                    )
                } else {
                    (
                        WizardState::AwaitFinalPlan { ip },
                        one(Notice::Restarting),
                        Action::RunPlan(final_plan()),
                    )
                }
            },
            _ => {
                proof {
                    assert(false);
                }
                (fin, Vec::new(), Action::Finish(Ok(())))
            },
        },
        WizardState::AwaitPortsList { ip } => match e {
            Event::Output(Ok(out)) => {
                let ports = bridge_ports_text(out.as_str());
                let cmds = configure_network_interfaces(&Uci::new(), out.as_str());
                let plan = checked_steps(cmds);
                (WizardState::AwaitPortsSet { ip, ports }, Vec::new(), Action::RunPlan(plan))
            },
            Event::Output(Err(err)) => (fin, Vec::new(), Action::Finish(Err(err))),
            _ => {
                proof {
                    assert(false);
                }
                (fin, Vec::new(), Action::Finish(Ok(())))
            },
        },
        WizardState::AwaitPortsSet { ip, ports } => match e {
            Event::Done(Ok(())) => (
                WizardState::AwaitFinalPlan { ip },
                two(Notice::PortsConfigured(ports), Notice::Restarting),
                Action::RunPlan(final_plan()),
            ),
            Event::Done(Err(err)) => (fin, Vec::new(), Action::Finish(Err(err))),
            _ => {
                proof {
                    assert(false);
                }
                (fin, Vec::new(), Action::Finish(Ok(())))
            },
        },
        WizardState::AwaitFinalPlan { ip } => match e {
            Event::Done(Ok(())) => (fin, one(Notice::WizardDone(ip)), Action::Finish(Ok(()))),
            Event::Done(Err(err)) => (fin, Vec::new(), Action::Finish(Err(err))),
            _ => {
                proof {
                    assert(false);
                }
                (fin, Vec::new(), Action::Finish(Ok(())))
            },
        },
        WizardState::Bypass(_) | WizardState::Finished => {
            proof {
                assert(false);
            }
            (fin, Vec::new(), Action::Finish(Ok(())))
        },
    }
}

// ---------------------------------------------------------------------------
// Laws of the conversations
// ---------------------------------------------------------------------------

/// The bypass set-up stops exactly when it says it is over.
pub proof fn lemma_bypass_stops_when_finished(
    s: BypassState,
    e: Event,
    n: BypassState,
    ns: Seq<Notice>,
    a: Action,
)
    requires
        bypass_transition(s, e, n, ns, a),
    ensures
        a is Finish <==> n is Finished,
{
}

/// The bypass set-up reports success only once its settings were applied
/// and the services restarted.
pub proof fn lemma_bypass_success_after_restart(
    s: BypassState,
    e: Event,
    n: BypassState,
    ns: Seq<Notice>,
    a: Action,
)
    requires
        bypass_transition(s, e, n, ns, a),
        is_finish(a, Ok(())),
    ensures
        s is AwaitRestarted,
        e matches Event::Done(Ok(_)),
{
}

/// The wizard stops exactly when it says it is over.
pub proof fn lemma_wizard_stops_when_finished(
    s: WizardState,
    e: Event,
    n: WizardState,
    ns: Seq<Notice>,
    a: Action,
)
    requires
        wizard_transition(s, e, n, ns, a),
    ensures
        a is Finish <==> n is Finished,
{
    if let WizardState::Bypass(b) = s {
        let b2 = choose|b2: BypassState|
            bypass_transition(b, e, b2, ns, a) && (if a is Finish {
                n is Finished
            } else {
                n == WizardState::Bypass(b2)
            });
        lemma_bypass_stops_when_finished(b, e, b2, ns, a);
    }
}

/// The wizard gives the LAN an address only once it passed validation.
pub proof fn lemma_wizard_sets_only_valid_ip(
    s: WizardState,
    e: Event,
    n: WizardState,
    ns: Seq<Notice>,
    a: Action,
)
    requires
        wizard_transition(s, e, n, ns, a),
        n matches WizardState::AwaitIpSet { .. },
    ensures
        n matches WizardState::AwaitIpSet { ip, .. } && is_valid_ip(ip@),
        s matches WizardState::AwaitNewIp { .. },
        e matches Event::Text(t) && n matches WizardState::AwaitIpSet { ip, .. } && t@ == ip@
            && is_plan(a, seq![(uci_set("network.lan.ipaddr"@, t@), true)]),
{
}

/// A failed prompt ends the wizard with the prompt's error.
pub proof fn lemma_wizard_prompt_failure_ends(
    s: WizardState,
    err: CatoolsError,
    n: WizardState,
    ns: Seq<Notice>,
    a: Action,
)
    requires
        wizard_transition(s, Event::Failed(err), n, ns, a),
    ensures
        n is Finished,
        is_finish(a, Err(err)),
{
}

/// A failed checked step ends the wizard with that failure (switching IPv6
/// off runs no checked step).
pub proof fn lemma_wizard_step_failure_ends(
    s: WizardState,
    err: CatoolsError,
    n: WizardState,
    ns: Seq<Notice>,
    a: Action,
)
    requires
        wizard_accepts(s, Event::Done(Err(err))),
        wizard_transition(s, Event::Done(Err(err)), n, ns, a),
        !(s is AwaitIpv6Removed),
    ensures
        n is Finished,
        is_finish(a, Err(err)),
{
    if let WizardState::Bypass(b) = s {
        let e = Event::Done(Err(err));
        let b2 = choose|b2: BypassState|
            bypass_transition(b, e, b2, ns, a) && (if a is Finish {
                n is Finished
            } else {
                n == WizardState::Bypass(b2)
            });
    }
}

/// The wizard reports success only when the user declines it at once, when
/// the bypass set-up it handed over to succeeded, or after it committed the
/// configuration and restarted the services.
pub proof fn lemma_wizard_success_after_commit(
    s: WizardState,
    e: Event,
    n: WizardState,
    ns: Seq<Notice>,
    a: Action,
)
    requires
        wizard_transition(s, e, n, ns, a),
        is_finish(a, Ok(())),
    ensures
        s is AwaitUse && e == Event::Confirmed(false) || s matches WizardState::Bypass(
            BypassState::AwaitRestarted,
        ) || s is AwaitFinalPlan && e matches Event::Done(Ok(_)),
{
    if let WizardState::Bypass(b) = s {
        let b2 = choose|b2: BypassState|
            bypass_transition(b, e, b2, ns, a) && (if a is Finish {
                n is Finished
            } else {
                n == WizardState::Bypass(b2)
            });
        lemma_bypass_success_after_restart(b, e, b2, ns, a);
    }
}

} // verus!
