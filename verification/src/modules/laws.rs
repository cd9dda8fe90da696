//! What the network set-up and the system report are for, stated over all
//! inputs in terms of the commands and texts they produce.

use vstd::prelude::*;

use crate::modules::diagnostic::{debug_report, opt_text, plugin_text, section, DebugSources};
use crate::modules::network::{
    bridge_ports, eth_names, subnet_prefix, bypass_transition, is_confirm, wizard_transition, Action, BypassState, Event, Notice, Question,
    WizardState,
};
use crate::text::{contains_seq, lemma_split_append, lemma_split_single, lines, numeral, split, starts_with};
use crate::utils::validation::is_valid_ip;
use crate::uci::{uci_commit, uci_delete, uci_set};
use crate::utils::system::{command_view, steps_view, CommandView};
use crate::modules::package::{repo_transition, trim_end_char, RepoAction, RepoEvent, RepoNotice, RepoState};

verus! {

// ---------------------------------------------------------------------------
// The shape of the uci commands
// ---------------------------------------------------------------------------

/// `uci set` writes `path=value`, `uci delete` and `uci commit` name their
/// argument: the commands the plans below are made of.
pub proof fn lemma_uci_commands(path: Seq<char>, value: Seq<char>)
    ensures
        uci_set(path, value) == ("uci"@, seq!["set"@, path + "="@ + value]),
        uci_delete(path) == ("uci"@, seq!["delete"@, path]),
        uci_commit(path) == ("uci"@, seq!["commit"@, path]),
{
}

/// The plan that `a` runs, as program, arguments and whether a failure ends
/// it.
pub open spec fn plan_of(a: Action) -> Seq<(CommandView, bool)> {
    match a {
        Action::RunPlan(p) => steps_view(p@),
        _ => Seq::empty(),
    }
}

// ---------------------------------------------------------------------------
// The network wizard
// ---------------------------------------------------------------------------

/// On a release that names the amd64 or the aarch64_generic architecture,
/// a wizard that found more than two Ethernet ports offers to make `eth0`
/// the WAN port and bridge the others, before it restarts anything.
pub proof fn lemma_wizard_offers_ports(
    eth: usize,
    ip: String,
    release: String,
    n: WizardState,
    ns: Seq<Notice>,
    a: Action,
)
    requires
        eth > 2,
        contains_seq(release@, "arch=amd64"@) || contains_seq(release@, "arch=aarch64_generic"@),
        wizard_transition(
            WizardState::AwaitRelease { eth, ip },
            Event::File(Some(release)),
            n,
            ns,
            a,
        ),
    ensures
        ns == seq![Notice::PortsStep],
        is_confirm(a, Question::ConfigurePorts, false),
        n matches WizardState::AwaitPortsChoice { ip: y } && y@ == ip@,
{
}

/// On any other release, or when the release cannot be read, the wizard
/// offers no port assignment: it goes on to commit and restart.
pub proof fn lemma_wizard_skips_ports(
    eth: usize,
    ip: String,
    release: Option<String>,
    n: WizardState,
    ns: Seq<Notice>,
    a: Action,
)
    requires
        !(release matches Some(c) && (contains_seq(c@, "arch=amd64"@) || contains_seq(
            c@,
            "arch=aarch64_generic"@,
        ))),
        wizard_transition(WizardState::AwaitRelease { eth, ip }, Event::File(release), n, ns, a),
    ensures
        ns == seq![Notice::Restarting],
        a is RunPlan,
        n matches WizardState::AwaitFinalPlan { ip: y } && y@ == ip@,
{
}

/// Disabling IPv6 deletes, each without ending the wizard when it fails,
/// exactly the DHCPv6 server, the router advertisements and their
/// management on the LAN, and the LAN's IPv6 prefix assignment.
pub proof fn lemma_wizard_disables_ipv6(
    eth: usize,
    ip: String,
    n: WizardState,
    ns: Seq<Notice>,
    a: Action,
)
    requires
        wizard_transition(WizardState::AwaitIpv6 { eth, ip }, Event::Confirmed(true), n, ns, a),
    ensures
        a is RunPlan,
        plan_of(a).len() == 4,
        forall|i: int| 0 <= i < 4 ==> !(#[trigger] plan_of(a)[i]).1,
        plan_of(a).contains((uci_delete("dhcp.lan.dhcpv6"@), false)),
        plan_of(a).contains((uci_delete("dhcp.lan.ra"@), false)),
        plan_of(a).contains((uci_delete("dhcp.lan.ra_management"@), false)),
        plan_of(a).contains((uci_delete("network.lan.ip6assign"@), false)),
{
    let p = plan_of(a);
    assert(p[0] == (uci_delete("dhcp.lan.dhcpv6"@), false));
    assert(p[1] == (uci_delete("dhcp.lan.ra"@), false));
    assert(p[2] == (uci_delete("dhcp.lan.ra_management"@), false));
    assert(p[3] == (uci_delete("network.lan.ip6assign"@), false));
}

// ---------------------------------------------------------------------------
// The bypass gateway
// ---------------------------------------------------------------------------

/// A bypass gateway's LAN gets a static address: the device's address, the
/// main router as gateway, the DNS servers chosen, the static protocol, and
/// no DHCP server; the network configuration is committed. Each of these
/// steps ends the set-up when it fails.
pub open spec fn bypass_lan_settings(
    plan: Seq<(CommandView, bool)>,
    router: Seq<char>,
    device: Seq<char>,
    dns: Seq<char>,
) -> bool {
    &&& plan.contains((uci_set("network.lan.ipaddr"@, device), true))
    &&& plan.contains((uci_set("network.lan.gateway"@, router), true))
    &&& plan.contains((uci_set("network.lan.proto"@, "static"@), true))
    &&& plan.contains((uci_set("network.lan.dns"@, dns), true))
    &&& plan.contains((uci_set("dhcp.lan.ignore"@, "1"@), true))
    &&& plan.contains((uci_commit("network"@), true))
    &&& plan.contains((uci_commit("dhcp"@), true))
}

/// With the recommended DNS servers, the bypass set-up gives its LAN the
/// static settings of a bypass gateway.
pub proof fn lemma_bypass_static_lan(
    router: String,
    device: String,
    n: BypassState,
    ns: Seq<Notice>,
    a: Action,
)
    requires
        bypass_transition(
            BypassState::AwaitDnsChoice { router_ip: router, device_ip: device },
            Event::Confirmed(true),
            n,
            ns,
            a,
        ),
    ensures
        a is RunPlan,
        bypass_lan_settings(plan_of(a), router@, device@, "223.6.6.6 223.5.5.5"@),
{
    let p = plan_of(a);
    assert(p[0] == (uci_set("network.lan.ipaddr"@, device@), true));
    assert(p[1] == (uci_set("network.lan.gateway"@, router@), true));
    assert(p[2] == (uci_set("network.lan.proto"@, "static"@), true));
    assert(p[3] == (uci_set("network.lan.dns"@, "223.6.6.6 223.5.5.5"@), true));
    assert(p[4] == (uci_commit("network"@), true));
    assert(p[7] == (uci_commit("dhcp"@), true));
    assert(p[8] == (uci_set("dhcp.lan.ignore"@, "1"@), true));
}

/// With DNS servers of the user's own, the bypass set-up gives its LAN the
/// static settings of a bypass gateway with those servers.
pub proof fn lemma_bypass_static_lan_custom_dns(
    router: String,
    device: String,
    dns: String,
    n: BypassState,
    ns: Seq<Notice>,
    a: Action,
)
    requires
        bypass_transition(
            BypassState::AwaitDnsInput { router_ip: router, device_ip: device },
            Event::Text(dns),
            n,
            ns,
            a,
        ),
    ensures
        a is RunPlan,
        bypass_lan_settings(plan_of(a), router@, device@, dns@),
{
    let p = plan_of(a);
    assert(p[0] == (uci_set("network.lan.ipaddr"@, device@), true));
    assert(p[1] == (uci_set("network.lan.gateway"@, router@), true));
    assert(p[2] == (uci_set("network.lan.proto"@, "static"@), true));
    assert(p[3] == (uci_set("network.lan.dns"@, dns@), true));
    assert(p[4] == (uci_commit("network"@), true));
    assert(p[7] == (uci_commit("dhcp"@), true));
    assert(p[8] == (uci_set("dhcp.lan.ignore"@, "1"@), true));
}

// ---------------------------------------------------------------------------
// The system report
// ---------------------------------------------------------------------------

/// `p` stands in `s` from position `i` on.
pub open spec fn holds_at(s: Seq<char>, p: Seq<char>, i: int) -> bool {
    0 <= i && i + p.len() <= s.len() && s.subrange(i, i + p.len()) == p
}

/// The heading of the report's section `title`: `## title` and a rule.
pub open spec fn heading(title: Seq<char>) -> Seq<char> {
    "## "@ + title + "\n==========\n"@
}

/// The text of an optional output; nothing when it is absent.
pub open spec fn output_text(o: Option<String>) -> Seq<char> {
    match o {
        Some(s) => s@,
        None => Seq::empty(),
    }
}

/// What ends `x + p` is `p`.
proof fn lemma_holds_at_end(x: Seq<char>, p: Seq<char>)
    ensures
        holds_at(x + p, p, x.len() as int),
{
    assert((x + p).subrange(x.len() as int, (x.len() + p.len()) as int) =~= p);
}

/// What stands in `x` still stands there in `x + y`.
proof fn lemma_holds_at_extend(x: Seq<char>, y: Seq<char>, p: Seq<char>, i: int)
    requires
        holds_at(x, p, i),
    ensures
        holds_at(x + y, p, i),
{
    assert((x + y).subrange(i, i + p.len()) =~= x.subrange(i, i + p.len()));
}

/// The report opens with the banner (when it could be read) on a line of
/// its own, then the time and a blank line.
pub proof fn lemma_report_opens_with_banner_and_time(d: DebugSources)
    ensures
        holds_at(
            debug_report(d),
            match d.banner {
                Some(b) => b@ + "\n"@,
                None => Seq::<char>::empty(),
            } + d.now@ + "\n\n"@,
            0,
        ),
{
    let x0 = (match d.banner {
        Some(b) => b@ + "\n"@,
        None => Seq::empty(),
    }) + d.now@ + "\n\n"@;
    lemma_holds_at_end(Seq::<char>::empty(), x0);
    assert(Seq::<char>::empty() + x0 =~= x0);

    let x1 = x0 + section("RELEASE"@, opt_text(d.release));
    lemma_holds_at_extend(x0, section("RELEASE"@, opt_text(d.release)), x0, 0);
    let x2 = x1 + section("Memory Usage"@, opt_text(d.memory));
    lemma_holds_at_extend(x1, section("Memory Usage"@, opt_text(d.memory)), x0, 0);
    let x3 = x2 + section("Disk Usage"@, opt_text(d.disk));
    lemma_holds_at_extend(x2, section("Disk Usage"@, opt_text(d.disk)), x0, 0);
    let x4 = x3 + section("Application"@, opt_text(d.packages));
    lemma_holds_at_extend(x3, section("Application"@, opt_text(d.packages)), x0, 0);
    let x5 = x4 + section("SYSLOG"@, opt_text(d.syslog));
    lemma_holds_at_extend(x4, section("SYSLOG"@, opt_text(d.syslog)), x0, 0);
    let x6 = x5 + section("DMESG"@, opt_text(d.dmesg));
    lemma_holds_at_extend(x5, section("DMESG"@, opt_text(d.dmesg)), x0, 0);
    let x7 = x6 + section("Plugins"@, plugin_text(d.plugin_logs@));
    lemma_holds_at_extend(x6, section("Plugins"@, plugin_text(d.plugin_logs@)), x0, 0);
    let x8 = x7 + section("Network Configuration"@, opt_text(d.interfaces));
    lemma_holds_at_extend(x7, section("Network Configuration"@, opt_text(d.interfaces)), x0, 0);
    let x9 = x8 + section("UCI Network"@, opt_text(d.uci_network));
    lemma_holds_at_extend(x8, section("UCI Network"@, opt_text(d.uci_network)), x0, 0);
    let x10 = x9 + section("Firewall"@, opt_text(d.iptables) + opt_text(d.ip6tables));
    lemma_holds_at_extend(x9, section("Firewall"@, opt_text(d.iptables) + opt_text(d.ip6tables)), x0, 0);
    let x11 = x10 + section("Routing Table"@, opt_text(d.routes) + opt_text(d.routes6));
    lemma_holds_at_extend(x10, section("Routing Table"@, opt_text(d.routes) + opt_text(d.routes6)), x0, 0);
    assert(debug_report(d) == x11);
}

/// Under the heading `RELEASE` the report holds the output of `release` (nothing when it is absent), in full
/// and nothing else, then a line break.
pub proof fn lemma_report_section_release(d: DebugSources)
    ensures
        exists|i: int| holds_at(debug_report(d), heading("RELEASE"@) + output_text(d.release) + "\n"@, i),
{
    let x0 = (match d.banner {
        Some(b) => b@ + "\n"@,
        None => Seq::empty(),
    }) + d.now@ + "\n\n"@;
    let x1 = x0 + section("RELEASE"@, opt_text(d.release));
    lemma_holds_at_end(x0, section("RELEASE"@, opt_text(d.release)));
    assert(section("RELEASE"@, opt_text(d.release)) == heading("RELEASE"@) + output_text(d.release) + "\n"@);
    let x2 = x1 + section("Memory Usage"@, opt_text(d.memory));
    lemma_holds_at_extend(x1, section("Memory Usage"@, opt_text(d.memory)), section("RELEASE"@, opt_text(d.release)), x0.len() as int);
    let x3 = x2 + section("Disk Usage"@, opt_text(d.disk));
    lemma_holds_at_extend(x2, section("Disk Usage"@, opt_text(d.disk)), section("RELEASE"@, opt_text(d.release)), x0.len() as int);
    let x4 = x3 + section("Application"@, opt_text(d.packages));
    lemma_holds_at_extend(x3, section("Application"@, opt_text(d.packages)), section("RELEASE"@, opt_text(d.release)), x0.len() as int);
    let x5 = x4 + section("SYSLOG"@, opt_text(d.syslog));
    lemma_holds_at_extend(x4, section("SYSLOG"@, opt_text(d.syslog)), section("RELEASE"@, opt_text(d.release)), x0.len() as int);
    let x6 = x5 + section("DMESG"@, opt_text(d.dmesg));
    lemma_holds_at_extend(x5, section("DMESG"@, opt_text(d.dmesg)), section("RELEASE"@, opt_text(d.release)), x0.len() as int);
    let x7 = x6 + section("Plugins"@, plugin_text(d.plugin_logs@));
    lemma_holds_at_extend(x6, section("Plugins"@, plugin_text(d.plugin_logs@)), section("RELEASE"@, opt_text(d.release)), x0.len() as int);
    let x8 = x7 + section("Network Configuration"@, opt_text(d.interfaces));
    lemma_holds_at_extend(x7, section("Network Configuration"@, opt_text(d.interfaces)), section("RELEASE"@, opt_text(d.release)), x0.len() as int);
    let x9 = x8 + section("UCI Network"@, opt_text(d.uci_network));
    lemma_holds_at_extend(x8, section("UCI Network"@, opt_text(d.uci_network)), section("RELEASE"@, opt_text(d.release)), x0.len() as int);
    let x10 = x9 + section("Firewall"@, opt_text(d.iptables) + opt_text(d.ip6tables));
    lemma_holds_at_extend(x9, section("Firewall"@, opt_text(d.iptables) + opt_text(d.ip6tables)), section("RELEASE"@, opt_text(d.release)), x0.len() as int);
    let x11 = x10 + section("Routing Table"@, opt_text(d.routes) + opt_text(d.routes6));
    lemma_holds_at_extend(x10, section("Routing Table"@, opt_text(d.routes) + opt_text(d.routes6)), section("RELEASE"@, opt_text(d.release)), x0.len() as int);
    assert(debug_report(d) == x11);
    assert(holds_at(debug_report(d), heading("RELEASE"@) + output_text(d.release) + "\n"@, x0.len() as int));
}

/// Under the heading `Memory Usage` the report holds the output of `memory` (nothing when it is absent), in full
/// and nothing else, then a line break.
pub proof fn lemma_report_section_memory_usage(d: DebugSources)
    ensures
        exists|i: int| holds_at(debug_report(d), heading("Memory Usage"@) + output_text(d.memory) + "\n"@, i),
{
    let x0 = (match d.banner {
        Some(b) => b@ + "\n"@,
        None => Seq::empty(),
    }) + d.now@ + "\n\n"@;
    let x1 = x0 + section("RELEASE"@, opt_text(d.release));
    let x2 = x1 + section("Memory Usage"@, opt_text(d.memory));
    lemma_holds_at_end(x1, section("Memory Usage"@, opt_text(d.memory)));
    assert(section("Memory Usage"@, opt_text(d.memory)) == heading("Memory Usage"@) + output_text(d.memory) + "\n"@);
    let x3 = x2 + section("Disk Usage"@, opt_text(d.disk));
    lemma_holds_at_extend(x2, section("Disk Usage"@, opt_text(d.disk)), section("Memory Usage"@, opt_text(d.memory)), x1.len() as int);
    let x4 = x3 + section("Application"@, opt_text(d.packages));
    lemma_holds_at_extend(x3, section("Application"@, opt_text(d.packages)), section("Memory Usage"@, opt_text(d.memory)), x1.len() as int);
    let x5 = x4 + section("SYSLOG"@, opt_text(d.syslog));
    lemma_holds_at_extend(x4, section("SYSLOG"@, opt_text(d.syslog)), section("Memory Usage"@, opt_text(d.memory)), x1.len() as int);
    let x6 = x5 + section("DMESG"@, opt_text(d.dmesg));
    lemma_holds_at_extend(x5, section("DMESG"@, opt_text(d.dmesg)), section("Memory Usage"@, opt_text(d.memory)), x1.len() as int);
    let x7 = x6 + section("Plugins"@, plugin_text(d.plugin_logs@));
    lemma_holds_at_extend(x6, section("Plugins"@, plugin_text(d.plugin_logs@)), section("Memory Usage"@, opt_text(d.memory)), x1.len() as int);
    let x8 = x7 + section("Network Configuration"@, opt_text(d.interfaces));
    lemma_holds_at_extend(x7, section("Network Configuration"@, opt_text(d.interfaces)), section("Memory Usage"@, opt_text(d.memory)), x1.len() as int);
    let x9 = x8 + section("UCI Network"@, opt_text(d.uci_network));
    lemma_holds_at_extend(x8, section("UCI Network"@, opt_text(d.uci_network)), section("Memory Usage"@, opt_text(d.memory)), x1.len() as int);
    let x10 = x9 + section("Firewall"@, opt_text(d.iptables) + opt_text(d.ip6tables));
    lemma_holds_at_extend(x9, section("Firewall"@, opt_text(d.iptables) + opt_text(d.ip6tables)), section("Memory Usage"@, opt_text(d.memory)), x1.len() as int);
    let x11 = x10 + section("Routing Table"@, opt_text(d.routes) + opt_text(d.routes6));
    lemma_holds_at_extend(x10, section("Routing Table"@, opt_text(d.routes) + opt_text(d.routes6)), section("Memory Usage"@, opt_text(d.memory)), x1.len() as int);
    assert(debug_report(d) == x11);
    assert(holds_at(debug_report(d), heading("Memory Usage"@) + output_text(d.memory) + "\n"@, x1.len() as int));
}

/// Under the heading `Disk Usage` the report holds the output of `disk` (nothing when it is absent), in full
/// and nothing else, then a line break.
pub proof fn lemma_report_section_disk_usage(d: DebugSources)
    ensures
        exists|i: int| holds_at(debug_report(d), heading("Disk Usage"@) + output_text(d.disk) + "\n"@, i),
{
    let x0 = (match d.banner {
        Some(b) => b@ + "\n"@,
        None => Seq::empty(),
    }) + d.now@ + "\n\n"@;
    let x1 = x0 + section("RELEASE"@, opt_text(d.release));
    let x2 = x1 + section("Memory Usage"@, opt_text(d.memory));
    let x3 = x2 + section("Disk Usage"@, opt_text(d.disk));
    lemma_holds_at_end(x2, section("Disk Usage"@, opt_text(d.disk)));
    assert(section("Disk Usage"@, opt_text(d.disk)) == heading("Disk Usage"@) + output_text(d.disk) + "\n"@);
    let x4 = x3 + section("Application"@, opt_text(d.packages));
    lemma_holds_at_extend(x3, section("Application"@, opt_text(d.packages)), section("Disk Usage"@, opt_text(d.disk)), x2.len() as int);
    let x5 = x4 + section("SYSLOG"@, opt_text(d.syslog));
    lemma_holds_at_extend(x4, section("SYSLOG"@, opt_text(d.syslog)), section("Disk Usage"@, opt_text(d.disk)), x2.len() as int);
    let x6 = x5 + section("DMESG"@, opt_text(d.dmesg));
    lemma_holds_at_extend(x5, section("DMESG"@, opt_text(d.dmesg)), section("Disk Usage"@, opt_text(d.disk)), x2.len() as int);
    let x7 = x6 + section("Plugins"@, plugin_text(d.plugin_logs@));
    lemma_holds_at_extend(x6, section("Plugins"@, plugin_text(d.plugin_logs@)), section("Disk Usage"@, opt_text(d.disk)), x2.len() as int);
    let x8 = x7 + section("Network Configuration"@, opt_text(d.interfaces));
    lemma_holds_at_extend(x7, section("Network Configuration"@, opt_text(d.interfaces)), section("Disk Usage"@, opt_text(d.disk)), x2.len() as int);
    let x9 = x8 + section("UCI Network"@, opt_text(d.uci_network));
    lemma_holds_at_extend(x8, section("UCI Network"@, opt_text(d.uci_network)), section("Disk Usage"@, opt_text(d.disk)), x2.len() as int);
    let x10 = x9 + section("Firewall"@, opt_text(d.iptables) + opt_text(d.ip6tables));
    lemma_holds_at_extend(x9, section("Firewall"@, opt_text(d.iptables) + opt_text(d.ip6tables)), section("Disk Usage"@, opt_text(d.disk)), x2.len() as int);
    let x11 = x10 + section("Routing Table"@, opt_text(d.routes) + opt_text(d.routes6));
    lemma_holds_at_extend(x10, section("Routing Table"@, opt_text(d.routes) + opt_text(d.routes6)), section("Disk Usage"@, opt_text(d.disk)), x2.len() as int);
    assert(debug_report(d) == x11);
    assert(holds_at(debug_report(d), heading("Disk Usage"@) + output_text(d.disk) + "\n"@, x2.len() as int));
}

/// Under the heading `Application` the report holds the output of `packages` (nothing when it is absent), in full
/// and nothing else, then a line break.
pub proof fn lemma_report_section_application(d: DebugSources)
    ensures
        exists|i: int| holds_at(debug_report(d), heading("Application"@) + output_text(d.packages) + "\n"@, i),
{
    let x0 = (match d.banner {
        Some(b) => b@ + "\n"@,
        None => Seq::empty(),
    }) + d.now@ + "\n\n"@;
    let x1 = x0 + section("RELEASE"@, opt_text(d.release));
    let x2 = x1 + section("Memory Usage"@, opt_text(d.memory));
    let x3 = x2 + section("Disk Usage"@, opt_text(d.disk));
    let x4 = x3 + section("Application"@, opt_text(d.packages));
    lemma_holds_at_end(x3, section("Application"@, opt_text(d.packages)));
    assert(section("Application"@, opt_text(d.packages)) == heading("Application"@) + output_text(d.packages) + "\n"@);
    let x5 = x4 + section("SYSLOG"@, opt_text(d.syslog));
    lemma_holds_at_extend(x4, section("SYSLOG"@, opt_text(d.syslog)), section("Application"@, opt_text(d.packages)), x3.len() as int);
    let x6 = x5 + section("DMESG"@, opt_text(d.dmesg));
    lemma_holds_at_extend(x5, section("DMESG"@, opt_text(d.dmesg)), section("Application"@, opt_text(d.packages)), x3.len() as int);
    let x7 = x6 + section("Plugins"@, plugin_text(d.plugin_logs@));
    lemma_holds_at_extend(x6, section("Plugins"@, plugin_text(d.plugin_logs@)), section("Application"@, opt_text(d.packages)), x3.len() as int);
    let x8 = x7 + section("Network Configuration"@, opt_text(d.interfaces));
    lemma_holds_at_extend(x7, section("Network Configuration"@, opt_text(d.interfaces)), section("Application"@, opt_text(d.packages)), x3.len() as int);
    let x9 = x8 + section("UCI Network"@, opt_text(d.uci_network));
    lemma_holds_at_extend(x8, section("UCI Network"@, opt_text(d.uci_network)), section("Application"@, opt_text(d.packages)), x3.len() as int);
    let x10 = x9 + section("Firewall"@, opt_text(d.iptables) + opt_text(d.ip6tables));
    lemma_holds_at_extend(x9, section("Firewall"@, opt_text(d.iptables) + opt_text(d.ip6tables)), section("Application"@, opt_text(d.packages)), x3.len() as int);
    let x11 = x10 + section("Routing Table"@, opt_text(d.routes) + opt_text(d.routes6));
    lemma_holds_at_extend(x10, section("Routing Table"@, opt_text(d.routes) + opt_text(d.routes6)), section("Application"@, opt_text(d.packages)), x3.len() as int);
    assert(debug_report(d) == x11);
    assert(holds_at(debug_report(d), heading("Application"@) + output_text(d.packages) + "\n"@, x3.len() as int));
}

/// Under the heading `SYSLOG` the report holds the output of `syslog` (nothing when it is absent), in full
/// and nothing else, then a line break.
pub proof fn lemma_report_section_syslog(d: DebugSources)
    ensures
        exists|i: int| holds_at(debug_report(d), heading("SYSLOG"@) + output_text(d.syslog) + "\n"@, i),
{
    let x0 = (match d.banner {
        Some(b) => b@ + "\n"@,
        None => Seq::empty(),
    }) + d.now@ + "\n\n"@;
    let x1 = x0 + section("RELEASE"@, opt_text(d.release));
    let x2 = x1 + section("Memory Usage"@, opt_text(d.memory));
    let x3 = x2 + section("Disk Usage"@, opt_text(d.disk));
    let x4 = x3 + section("Application"@, opt_text(d.packages));
    let x5 = x4 + section("SYSLOG"@, opt_text(d.syslog));
    lemma_holds_at_end(x4, section("SYSLOG"@, opt_text(d.syslog)));
    assert(section("SYSLOG"@, opt_text(d.syslog)) == heading("SYSLOG"@) + output_text(d.syslog) + "\n"@);
    let x6 = x5 + section("DMESG"@, opt_text(d.dmesg));
    lemma_holds_at_extend(x5, section("DMESG"@, opt_text(d.dmesg)), section("SYSLOG"@, opt_text(d.syslog)), x4.len() as int);
    let x7 = x6 + section("Plugins"@, plugin_text(d.plugin_logs@));
    lemma_holds_at_extend(x6, section("Plugins"@, plugin_text(d.plugin_logs@)), section("SYSLOG"@, opt_text(d.syslog)), x4.len() as int);
    let x8 = x7 + section("Network Configuration"@, opt_text(d.interfaces));
    lemma_holds_at_extend(x7, section("Network Configuration"@, opt_text(d.interfaces)), section("SYSLOG"@, opt_text(d.syslog)), x4.len() as int);
    let x9 = x8 + section("UCI Network"@, opt_text(d.uci_network));
    lemma_holds_at_extend(x8, section("UCI Network"@, opt_text(d.uci_network)), section("SYSLOG"@, opt_text(d.syslog)), x4.len() as int);
    let x10 = x9 + section("Firewall"@, opt_text(d.iptables) + opt_text(d.ip6tables));
    lemma_holds_at_extend(x9, section("Firewall"@, opt_text(d.iptables) + opt_text(d.ip6tables)), section("SYSLOG"@, opt_text(d.syslog)), x4.len() as int);
    let x11 = x10 + section("Routing Table"@, opt_text(d.routes) + opt_text(d.routes6));
    lemma_holds_at_extend(x10, section("Routing Table"@, opt_text(d.routes) + opt_text(d.routes6)), section("SYSLOG"@, opt_text(d.syslog)), x4.len() as int);
    assert(debug_report(d) == x11);
    assert(holds_at(debug_report(d), heading("SYSLOG"@) + output_text(d.syslog) + "\n"@, x4.len() as int));
}

/// Under the heading `DMESG` the report holds the output of `dmesg` (nothing when it is absent), in full
/// and nothing else, then a line break.
pub proof fn lemma_report_section_dmesg(d: DebugSources)
    ensures
        exists|i: int| holds_at(debug_report(d), heading("DMESG"@) + output_text(d.dmesg) + "\n"@, i),
{
    let x0 = (match d.banner {
        Some(b) => b@ + "\n"@,
        None => Seq::empty(),
    }) + d.now@ + "\n\n"@;
    let x1 = x0 + section("RELEASE"@, opt_text(d.release));
    let x2 = x1 + section("Memory Usage"@, opt_text(d.memory));
    let x3 = x2 + section("Disk Usage"@, opt_text(d.disk));
    let x4 = x3 + section("Application"@, opt_text(d.packages));
    let x5 = x4 + section("SYSLOG"@, opt_text(d.syslog));
    let x6 = x5 + section("DMESG"@, opt_text(d.dmesg));
    lemma_holds_at_end(x5, section("DMESG"@, opt_text(d.dmesg)));
    assert(section("DMESG"@, opt_text(d.dmesg)) == heading("DMESG"@) + output_text(d.dmesg) + "\n"@);
    let x7 = x6 + section("Plugins"@, plugin_text(d.plugin_logs@));
    lemma_holds_at_extend(x6, section("Plugins"@, plugin_text(d.plugin_logs@)), section("DMESG"@, opt_text(d.dmesg)), x5.len() as int);
    let x8 = x7 + section("Network Configuration"@, opt_text(d.interfaces));
    lemma_holds_at_extend(x7, section("Network Configuration"@, opt_text(d.interfaces)), section("DMESG"@, opt_text(d.dmesg)), x5.len() as int);
    let x9 = x8 + section("UCI Network"@, opt_text(d.uci_network));
    lemma_holds_at_extend(x8, section("UCI Network"@, opt_text(d.uci_network)), section("DMESG"@, opt_text(d.dmesg)), x5.len() as int);
    let x10 = x9 + section("Firewall"@, opt_text(d.iptables) + opt_text(d.ip6tables));
    lemma_holds_at_extend(x9, section("Firewall"@, opt_text(d.iptables) + opt_text(d.ip6tables)), section("DMESG"@, opt_text(d.dmesg)), x5.len() as int);
    let x11 = x10 + section("Routing Table"@, opt_text(d.routes) + opt_text(d.routes6));
    lemma_holds_at_extend(x10, section("Routing Table"@, opt_text(d.routes) + opt_text(d.routes6)), section("DMESG"@, opt_text(d.dmesg)), x5.len() as int);
    assert(debug_report(d) == x11);
    assert(holds_at(debug_report(d), heading("DMESG"@) + output_text(d.dmesg) + "\n"@, x5.len() as int));
}

/// Under the heading `Network Configuration` the report holds the output of `interfaces` (nothing when it is absent), in full
/// and nothing else, then a line break.
pub proof fn lemma_report_section_network_configuration(d: DebugSources)
    ensures
        exists|i: int| holds_at(debug_report(d), heading("Network Configuration"@) + output_text(d.interfaces) + "\n"@, i),
{
    let x0 = (match d.banner {
        Some(b) => b@ + "\n"@,
        None => Seq::empty(),
    }) + d.now@ + "\n\n"@;
    let x1 = x0 + section("RELEASE"@, opt_text(d.release));
    let x2 = x1 + section("Memory Usage"@, opt_text(d.memory));
    let x3 = x2 + section("Disk Usage"@, opt_text(d.disk));
    let x4 = x3 + section("Application"@, opt_text(d.packages));
    let x5 = x4 + section("SYSLOG"@, opt_text(d.syslog));
    let x6 = x5 + section("DMESG"@, opt_text(d.dmesg));
    let x7 = x6 + section("Plugins"@, plugin_text(d.plugin_logs@));
    let x8 = x7 + section("Network Configuration"@, opt_text(d.interfaces));
    lemma_holds_at_end(x7, section("Network Configuration"@, opt_text(d.interfaces)));
    assert(section("Network Configuration"@, opt_text(d.interfaces)) == heading("Network Configuration"@) + output_text(d.interfaces) + "\n"@);
    let x9 = x8 + section("UCI Network"@, opt_text(d.uci_network));
    lemma_holds_at_extend(x8, section("UCI Network"@, opt_text(d.uci_network)), section("Network Configuration"@, opt_text(d.interfaces)), x7.len() as int);
    let x10 = x9 + section("Firewall"@, opt_text(d.iptables) + opt_text(d.ip6tables));
    lemma_holds_at_extend(x9, section("Firewall"@, opt_text(d.iptables) + opt_text(d.ip6tables)), section("Network Configuration"@, opt_text(d.interfaces)), x7.len() as int);
    let x11 = x10 + section("Routing Table"@, opt_text(d.routes) + opt_text(d.routes6));
    lemma_holds_at_extend(x10, section("Routing Table"@, opt_text(d.routes) + opt_text(d.routes6)), section("Network Configuration"@, opt_text(d.interfaces)), x7.len() as int);
    assert(debug_report(d) == x11);
    assert(holds_at(debug_report(d), heading("Network Configuration"@) + output_text(d.interfaces) + "\n"@, x7.len() as int));
}

/// Under the heading `UCI Network` the report holds the output of `uci_network` (nothing when it is absent), in full
/// and nothing else, then a line break.
pub proof fn lemma_report_section_uci_network(d: DebugSources)
    ensures
        exists|i: int| holds_at(debug_report(d), heading("UCI Network"@) + output_text(d.uci_network) + "\n"@, i),
{
    let x0 = (match d.banner {
        Some(b) => b@ + "\n"@,
        None => Seq::empty(),
    }) + d.now@ + "\n\n"@;
    let x1 = x0 + section("RELEASE"@, opt_text(d.release));
    let x2 = x1 + section("Memory Usage"@, opt_text(d.memory));
    let x3 = x2 + section("Disk Usage"@, opt_text(d.disk));
    let x4 = x3 + section("Application"@, opt_text(d.packages));
    let x5 = x4 + section("SYSLOG"@, opt_text(d.syslog));
    let x6 = x5 + section("DMESG"@, opt_text(d.dmesg));
    let x7 = x6 + section("Plugins"@, plugin_text(d.plugin_logs@));
    let x8 = x7 + section("Network Configuration"@, opt_text(d.interfaces));
    let x9 = x8 + section("UCI Network"@, opt_text(d.uci_network));
    lemma_holds_at_end(x8, section("UCI Network"@, opt_text(d.uci_network)));
    assert(section("UCI Network"@, opt_text(d.uci_network)) == heading("UCI Network"@) + output_text(d.uci_network) + "\n"@);
    let x10 = x9 + section("Firewall"@, opt_text(d.iptables) + opt_text(d.ip6tables));
    lemma_holds_at_extend(x9, section("Firewall"@, opt_text(d.iptables) + opt_text(d.ip6tables)), section("UCI Network"@, opt_text(d.uci_network)), x8.len() as int);
    let x11 = x10 + section("Routing Table"@, opt_text(d.routes) + opt_text(d.routes6));
    lemma_holds_at_extend(x10, section("Routing Table"@, opt_text(d.routes) + opt_text(d.routes6)), section("UCI Network"@, opt_text(d.uci_network)), x8.len() as int);
    assert(debug_report(d) == x11);
    assert(holds_at(debug_report(d), heading("UCI Network"@) + output_text(d.uci_network) + "\n"@, x8.len() as int));
}

/// Under the heading `Firewall` the report holds the outputs of `iptables` and then `ip6tables`, in full
/// and nothing else, then a line break.
pub proof fn lemma_report_section_firewall(d: DebugSources)
    ensures
        exists|i: int| holds_at(debug_report(d), heading("Firewall"@) + output_text(d.iptables) + output_text(d.ip6tables) + "\n"@, i),
{
    let x0 = (match d.banner {
        Some(b) => b@ + "\n"@,
        None => Seq::empty(),
    }) + d.now@ + "\n\n"@;
    let x1 = x0 + section("RELEASE"@, opt_text(d.release));
    let x2 = x1 + section("Memory Usage"@, opt_text(d.memory));
    let x3 = x2 + section("Disk Usage"@, opt_text(d.disk));
    let x4 = x3 + section("Application"@, opt_text(d.packages));
    let x5 = x4 + section("SYSLOG"@, opt_text(d.syslog));
    let x6 = x5 + section("DMESG"@, opt_text(d.dmesg));
    let x7 = x6 + section("Plugins"@, plugin_text(d.plugin_logs@));
    let x8 = x7 + section("Network Configuration"@, opt_text(d.interfaces));
    let x9 = x8 + section("UCI Network"@, opt_text(d.uci_network));
    let x10 = x9 + section("Firewall"@, opt_text(d.iptables) + opt_text(d.ip6tables));
    lemma_holds_at_end(x9, section("Firewall"@, opt_text(d.iptables) + opt_text(d.ip6tables)));
    assert(section("Firewall"@, opt_text(d.iptables) + opt_text(d.ip6tables)) == heading("Firewall"@) + output_text(d.iptables) + output_text(d.ip6tables) + "\n"@);
    let x11 = x10 + section("Routing Table"@, opt_text(d.routes) + opt_text(d.routes6));
    lemma_holds_at_extend(x10, section("Routing Table"@, opt_text(d.routes) + opt_text(d.routes6)), section("Firewall"@, opt_text(d.iptables) + opt_text(d.ip6tables)), x9.len() as int);
    assert(debug_report(d) == x11);
    assert(holds_at(debug_report(d), heading("Firewall"@) + output_text(d.iptables) + output_text(d.ip6tables) + "\n"@, x9.len() as int));
}

/// Under the heading `Routing Table` the report holds the outputs of `routes` and then `routes6`, in full
/// and nothing else, then a line break.
pub proof fn lemma_report_section_routing_table(d: DebugSources)
    ensures
        exists|i: int| holds_at(debug_report(d), heading("Routing Table"@) + output_text(d.routes) + output_text(d.routes6) + "\n"@, i),
{
    let x0 = (match d.banner {
        Some(b) => b@ + "\n"@,
        None => Seq::empty(),
    }) + d.now@ + "\n\n"@;
    let x1 = x0 + section("RELEASE"@, opt_text(d.release));
    let x2 = x1 + section("Memory Usage"@, opt_text(d.memory));
    let x3 = x2 + section("Disk Usage"@, opt_text(d.disk));
    let x4 = x3 + section("Application"@, opt_text(d.packages));
    let x5 = x4 + section("SYSLOG"@, opt_text(d.syslog));
    let x6 = x5 + section("DMESG"@, opt_text(d.dmesg));
    let x7 = x6 + section("Plugins"@, plugin_text(d.plugin_logs@));
    let x8 = x7 + section("Network Configuration"@, opt_text(d.interfaces));
    let x9 = x8 + section("UCI Network"@, opt_text(d.uci_network));
    let x10 = x9 + section("Firewall"@, opt_text(d.iptables) + opt_text(d.ip6tables));
    let x11 = x10 + section("Routing Table"@, opt_text(d.routes) + opt_text(d.routes6));
    lemma_holds_at_end(x10, section("Routing Table"@, opt_text(d.routes) + opt_text(d.routes6)));
    assert(section("Routing Table"@, opt_text(d.routes) + opt_text(d.routes6)) == heading("Routing Table"@) + output_text(d.routes) + output_text(d.routes6) + "\n"@);
    assert(debug_report(d) == x11);
    assert(holds_at(debug_report(d), heading("Routing Table"@) + output_text(d.routes) + output_text(d.routes6) + "\n"@, x10.len() as int));
}

/// The block of a plugin log in the report: a `--- path ---` line, then the
/// log.
pub open spec fn plugin_block(path: Seq<char>, content: Seq<char>) -> Seq<char> {
    "\n--- "@ + path + " ---\n"@ + content
}

/// What stands in `inner`, which stands in `s`, stands in `s`.
proof fn lemma_holds_at_inside(s: Seq<char>, outer: Seq<char>, j: int, inner: Seq<char>, i: int)
    requires
        holds_at(s, outer, j),
        holds_at(outer, inner, i),
    ensures
        holds_at(s, inner, j + i),
{
    assert(s.subrange(j + i, j + i + inner.len()) =~= outer.subrange(i, i + inner.len()));
}

/// Each plugin log stands in the plugins' text, in its block.
proof fn lemma_plugin_text_holds(logs: Seq<(String, String)>, k: int)
    requires
        0 <= k < logs.len(),
    ensures
        exists|i: int| holds_at(plugin_text(logs), plugin_block(logs[k].0@, logs[k].1@), i),
    decreases logs.len(),
{
    let rest = logs.drop_last();
    let last = logs.last();
    assert(plugin_text(logs) == plugin_text(rest) + plugin_block(last.0@, last.1@));
    if k == logs.len() - 1 {
        lemma_holds_at_end(plugin_text(rest), plugin_block(last.0@, last.1@));
        assert(holds_at(plugin_text(logs), plugin_block(logs[k].0@, logs[k].1@), plugin_text(rest).len() as int));
    } else {
        lemma_plugin_text_holds(rest, k);
        assert(rest[k] == logs[k]);
        let i = choose|i: int| holds_at(plugin_text(rest), plugin_block(rest[k].0@, rest[k].1@), i);
        lemma_holds_at_extend(plugin_text(rest), plugin_block(last.0@, last.1@), plugin_block(logs[k].0@, logs[k].1@), i);
    }
}

/// The plugins' section of the report: its heading, the plugin logs, then a
/// line break.
proof fn lemma_report_plugins_section(d: DebugSources)
    ensures
        exists|i: int| holds_at(debug_report(d), heading("Plugins"@) + plugin_text(d.plugin_logs@) + "\n"@, i),
{
    let x0 = (match d.banner {
        Some(b) => b@ + "\n"@,
        None => Seq::empty(),
    }) + d.now@ + "\n\n"@;
    let x1 = x0 + section("RELEASE"@, opt_text(d.release));
    let x2 = x1 + section("Memory Usage"@, opt_text(d.memory));
    let x3 = x2 + section("Disk Usage"@, opt_text(d.disk));
    let x4 = x3 + section("Application"@, opt_text(d.packages));
    let x5 = x4 + section("SYSLOG"@, opt_text(d.syslog));
    let x6 = x5 + section("DMESG"@, opt_text(d.dmesg));
    let x7 = x6 + section("Plugins"@, plugin_text(d.plugin_logs@));
    lemma_holds_at_end(x6, section("Plugins"@, plugin_text(d.plugin_logs@)));
    let x8 = x7 + section("Network Configuration"@, opt_text(d.interfaces));
    lemma_holds_at_extend(x7, section("Network Configuration"@, opt_text(d.interfaces)), section("Plugins"@, plugin_text(d.plugin_logs@)), x6.len() as int);
    let x9 = x8 + section("UCI Network"@, opt_text(d.uci_network));
    lemma_holds_at_extend(x8, section("UCI Network"@, opt_text(d.uci_network)), section("Plugins"@, plugin_text(d.plugin_logs@)), x6.len() as int);
    let x10 = x9 + section("Firewall"@, opt_text(d.iptables) + opt_text(d.ip6tables));
    lemma_holds_at_extend(x9, section("Firewall"@, opt_text(d.iptables) + opt_text(d.ip6tables)), section("Plugins"@, plugin_text(d.plugin_logs@)), x6.len() as int);
    let x11 = x10 + section("Routing Table"@, opt_text(d.routes) + opt_text(d.routes6));
    lemma_holds_at_extend(x10, section("Routing Table"@, opt_text(d.routes) + opt_text(d.routes6)), section("Plugins"@, plugin_text(d.plugin_logs@)), x6.len() as int);
    assert(debug_report(d) == x11);
    assert(holds_at(debug_report(d), heading("Plugins"@) + plugin_text(d.plugin_logs@) + "\n"@, x6.len() as int));
}

/// Every plugin log that could be read stands in the report, whole, right
/// after a `--- path ---` line naming its file.
pub proof fn lemma_report_plugin_logs(d: DebugSources, k: int)
    requires
        0 <= k < d.plugin_logs@.len(),
    ensures
        exists|i: int| holds_at(
            debug_report(d),
            "\n--- "@ + d.plugin_logs@[k].0@ + " ---\n"@ + d.plugin_logs@[k].1@,
            i,
        ),
{
    let logs = d.plugin_logs@;
    let outer = heading("Plugins"@) + plugin_text(logs) + "\n"@;
    lemma_report_plugins_section(d);
    let j = choose|j: int| holds_at(debug_report(d), outer, j);
    lemma_plugin_text_holds(logs, k);
    let i = choose|i: int| holds_at(plugin_text(logs), plugin_block(logs[k].0@, logs[k].1@), i);
    assert(holds_at(outer, plugin_text(logs), heading("Plugins"@).len() as int)) by {
        assert(outer.subrange(heading("Plugins"@).len() as int, (heading("Plugins"@).len() + plugin_text(logs).len()) as int) =~= plugin_text(logs));
    }
    lemma_holds_at_inside(outer, plugin_text(logs), heading("Plugins"@).len() as int, plugin_block(logs[k].0@, logs[k].1@), i);
    lemma_holds_at_inside(debug_report(d), outer, j, plugin_block(logs[k].0@, logs[k].1@), heading("Plugins"@).len() + i);
}

// ---------------------------------------------------------------------------
// The wizard's other settings
// ---------------------------------------------------------------------------

/// A checked `uci set path=value` that is the whole plan.
pub open spec fn sets_only(a: Action, path: Seq<char>, value: Seq<char>) -> bool {
    a is RunPlan && plan_of(a).len() == 1 && plan_of(a)[0] == (uci_set(path, value), true)
}

/// An address that passed validation becomes the LAN's address, and that
/// is all the step changes.
pub proof fn lemma_wizard_sets_lan_address(
    eth: usize,
    ip: String,
    n: WizardState,
    ns: Seq<Notice>,
    a: Action,
)
    requires
        is_valid_ip(ip@),
        wizard_transition(WizardState::AwaitNewIp { eth }, Event::Text(ip), n, ns, a),
    ensures
        sets_only(a, "network.lan.ipaddr"@, ip@),
{
}

/// Keeping the default address carries on with `192.168.1.4`, the address
/// the wizard reports at the end.
pub proof fn lemma_wizard_keeps_default_address(
    eth: usize,
    n: WizardState,
    ns: Seq<Notice>,
    a: Action,
)
    requires
        wizard_transition(WizardState::AwaitChangeIp { eth }, Event::Confirmed(false), n, ns, a),
    ensures
        n matches WizardState::AwaitIpv6 { ip, .. } && ip@ == "192.168.1.4"@,
{
}

/// PPPoE dialling sets the WAN protocol to `pppoe` with the account and the
/// password given, each step ending the wizard when it fails, and nothing
/// else.
pub proof fn lemma_wizard_dials_pppoe(
    eth: usize,
    ip: String,
    account: String,
    password: String,
    n: WizardState,
    ns: Seq<Notice>,
    a: Action,
)
    requires
        wizard_transition(
            WizardState::AwaitPppoePassword { eth, ip, account },
            Event::Text(password),
            n,
            ns,
            a,
        ),
    ensures
        a is RunPlan,
        plan_of(a).len() == 3,
        plan_of(a).contains((uci_set("network.wan.proto"@, "pppoe"@), true)),
        plan_of(a).contains((uci_set("network.wan.username"@, account@), true)),
        plan_of(a).contains((uci_set("network.wan.password"@, password@), true)),
{
    assert(plan_of(a)[0] == (uci_set("network.wan.proto"@, "pppoe"@), true));
    assert(plan_of(a)[1] == (uci_set("network.wan.username"@, account@), true));
    assert(plan_of(a)[2] == (uci_set("network.wan.password"@, password@), true));
}

/// The recommended DNS servers are 223.6.6.6 and 119.29.29.99, set on the
/// LAN.
pub proof fn lemma_wizard_recommended_dns(
    eth: usize,
    ip: String,
    n: WizardState,
    ns: Seq<Notice>,
    a: Action,
)
    requires
        wizard_transition(WizardState::AwaitDnsChoice { eth, ip }, Event::Confirmed(true), n, ns, a),
    ensures
        sets_only(a, "network.lan.dns"@, "223.6.6.6 119.29.29.99"@),
{
}

/// DNS servers of the user's own are set on the LAN as given.
pub proof fn lemma_wizard_custom_dns(
    eth: usize,
    ip: String,
    dns: String,
    n: WizardState,
    ns: Seq<Notice>,
    a: Action,
)
    requires
        wizard_transition(WizardState::AwaitDnsInput { eth, ip }, Event::Text(dns), n, ns, a),
    ensures
        sets_only(a, "network.lan.dns"@, dns@),
{
}

/// The DHCP pool: without a change it starts at 30 and holds 200
/// addresses.
pub proof fn lemma_wizard_default_pool(
    eth: usize,
    ip: String,
    n: WizardState,
    ns: Seq<Notice>,
    a: Action,
)
    requires
        wizard_transition(WizardState::AwaitPoolChoice { eth, ip }, Event::Confirmed(false), n, ns, a),
    ensures
        a is RunPlan,
        plan_of(a) == seq![
            (uci_set("dhcp.lan.start"@, "30"@), true),
            (uci_set("dhcp.lan.limit"@, "200"@), true),
        ],
{
}

/// A range `start-limit` (neither part holding a `-`) sets the pool's
/// start and size to its two parts.
pub proof fn lemma_wizard_pool_range(
    eth: usize,
    ip: String,
    range: String,
    start: Seq<char>,
    limit: Seq<char>,
    n: WizardState,
    ns: Seq<Notice>,
    a: Action,
)
    requires
        range@ == start + seq!['-'] + limit,
        !start.contains('-'),
        !limit.contains('-'),
        wizard_transition(WizardState::AwaitPoolRange { eth, ip }, Event::Text(range), n, ns, a),
    ensures
        a is RunPlan,
        plan_of(a) == seq![
            (uci_set("dhcp.lan.start"@, start), true),
            (uci_set("dhcp.lan.limit"@, limit), true),
        ],
{
    lemma_split_single(start, '-');
    lemma_split_append(start, '-', limit);
    assert(split(range@, '-') == seq![start, limit]);
}

/// Forced DHCP sets `dhcp.lan.force` to 1.
pub proof fn lemma_wizard_forces_dhcp(
    eth: usize,
    ip: String,
    n: WizardState,
    ns: Seq<Notice>,
    a: Action,
)
    requires
        wizard_transition(WizardState::AwaitForce { eth, ip }, Event::Confirmed(true), n, ns, a),
    ensures
        sets_only(a, "dhcp.lan.force"@, "1"@),
{
}

/// UPnP is switched on by `upnpd.config.enabled=1`.
pub proof fn lemma_wizard_enables_upnp(
    eth: usize,
    ip: String,
    n: WizardState,
    ns: Seq<Notice>,
    a: Action,
)
    requires
        wizard_transition(WizardState::AwaitUpnp { eth, ip }, Event::Confirmed(true), n, ns, a),
    ensures
        sets_only(a, "upnpd.config.enabled"@, "1"@),
{
}

/// The service restart `/etc/init.d/<service> restart`.
pub open spec fn init_restart(service: Seq<char>) -> CommandView {
    ("/etc/init.d"@, seq![service, "restart"@])
}

/// The wizard's last plan commits the network, DHCP and firewall
/// configurations, then restarts the network, dnsmasq and the firewall;
/// only the restart of miniupnpd may fail without ending it.
pub proof fn lemma_wizard_commits_then_restarts(
    ip: String,
    n: WizardState,
    ns: Seq<Notice>,
    a: Action,
)
    requires
        wizard_transition(WizardState::AwaitPortsChoice { ip }, Event::Confirmed(false), n, ns, a),
    ensures
        a is RunPlan,
        plan_of(a).len() == 7,
        plan_of(a).subrange(0, 3) == seq![
            (uci_commit("network"@), true),
            (uci_commit("dhcp"@), true),
            (uci_commit("firewall"@), true),
        ],
        plan_of(a).subrange(3, 7).contains((init_restart("network"@), true)),
        plan_of(a).subrange(3, 7).contains((init_restart("dnsmasq"@), true)),
        plan_of(a).subrange(3, 7).contains((init_restart("firewall"@), true)),
        plan_of(a).subrange(3, 7).contains((init_restart("miniupnpd"@), false)),
{
    let p = plan_of(a).subrange(3, 7);
    assert(p[0] == (init_restart("network"@), true));
    assert(p[1] == (init_restart("dnsmasq"@), true));
    assert(p[2] == (init_restart("firewall"@), true));
    assert(p[3] == (init_restart("miniupnpd"@), false));
    assert(plan_of(a).subrange(0, 3) =~= seq![
        (uci_commit("network"@), true),
        (uci_commit("dhcp"@), true),
        (uci_commit("firewall"@), true),
    ]);
}

/// After a bypass gateway's settings are applied, the network, the firewall
/// and dnsmasq are restarted, each failure ending the set-up.
pub proof fn lemma_bypass_restarts_services(
    device: String,
    n: BypassState,
    ns: Seq<Notice>,
    a: Action,
)
    requires
        bypass_transition(
            BypassState::AwaitConfigured { device_ip: device },
            Event::Done(Ok(())),
            n,
            ns,
            a,
        ),
    ensures
        a is RunPlan,
        plan_of(a).len() == 3,
        plan_of(a).contains((init_restart("network"@), true)),
        plan_of(a).contains((init_restart("firewall"@), true)),
        plan_of(a).contains((init_restart("dnsmasq"@), true)),
{
    assert(plan_of(a)[0] == (init_restart("network"@), true));
    assert(plan_of(a)[1] == (init_restart("firewall"@), true));
    assert(plan_of(a)[2] == (init_restart("dnsmasq"@), true));
}

// ---------------------------------------------------------------------------
// Ethernet ports and the bypass probe
// ---------------------------------------------------------------------------

/// Assigning the ports makes `eth0` the WAN port with DHCP and bridges the
/// other Ethernet ports into the LAN; each step ends the wizard when it
/// fails.
pub proof fn lemma_wizard_assigns_ports(
    ip: String,
    out: String,
    n: WizardState,
    ns: Seq<Notice>,
    a: Action,
)
    requires
        wizard_transition(WizardState::AwaitPortsList { ip }, Event::Output(Ok(out)), n, ns, a),
    ensures
        a is RunPlan,
        forall|i: int| 0 <= i < plan_of(a).len() ==> (#[trigger] plan_of(a)[i]).1,
        plan_of(a).contains((uci_set("network.wan.ifname"@, "eth0"@), true)),
        plan_of(a).contains((uci_set("network.wan.proto"@, "dhcp"@), true)),
        plan_of(a).contains((uci_set("network.lan.type"@, "bridge"@), true)),
        plan_of(a).contains((uci_set("network.lan.ifname"@, bridge_ports(out@)), true)),
{
    let p = plan_of(a);
    assert(p[0] == (uci_set("network.wan.ifname"@, "eth0"@), true));
    assert(p[1] == (uci_set("network.wan.proto"@, "dhcp"@), true));
    assert(p[2] == (uci_set("network.lan.type"@, "bridge"@), true));
    assert(p[3] == (uci_set("network.lan.ifname"@, bridge_ports(out@)), true));
}

/// The Ethernet interfaces are lines of the listing that start with `eth`,
/// and every such line is one.
pub proof fn lemma_eth_names_are_eth_lines(ls_output: Seq<char>)
    ensures
        forall|k: int|
            0 <= k < eth_names(ls_output).len() ==> starts_with(#[trigger] eth_names(ls_output)[k], "eth"@)
                && lines(ls_output).contains(eth_names(ls_output)[k]),
        forall|k: int|
            0 <= k < lines(ls_output).len() && starts_with(#[trigger] lines(ls_output)[k], "eth"@)
                ==> eth_names(ls_output).contains(lines(ls_output)[k]),
{
    let f = |l: Seq<char>| starts_with(l, "eth"@);
    lines(ls_output).filter_lemma(f);
    assert forall|k: int| 0 <= k < eth_names(ls_output).len() implies starts_with(#[trigger] eth_names(ls_output)[k], "eth"@)
        && lines(ls_output).contains(eth_names(ls_output)[k]) by {
        assert(f(eth_names(ls_output)[k]));
        assert(eth_names(ls_output).contains(eth_names(ls_output)[k]));
        lines(ls_output).lemma_filter_contains_rev(f, eth_names(ls_output)[k]);
    }
}

/// Once the main router's address is accepted, the bypass set-up probes
/// host 4 of its subnet (the first three parts of the address) with a
/// single ping that waits one second.
pub proof fn lemma_bypass_probes_host_4(t: String, n: BypassState, ns: Seq<Notice>, a: Action)
    requires
        t@.len() > 0,
        starts_with(t@, "10."@) || starts_with(t@, "172."@) || starts_with(t@, "192.168."@),
        bypass_transition(BypassState::AwaitRouterIp, Event::Text(t), n, ns, a),
    ensures
        a matches Action::Run(c) && command_view(c) == (
            "ping"@,
            seq!["-c"@, "1"@, "-W"@, "1"@, subnet_prefix(t@) + "."@ + seq!['4']],
        ),
        n matches BypassState::Probing { host, .. } && host == 4,
{
    assert(numeral(4) =~= seq!['4']);
}

// ---------------------------------------------------------------------------
// The package source
// ---------------------------------------------------------------------------

/// The list of the stable mirror chosen at position `i` (1 to 5; position 0
/// is the main site): github, cfnetlify, netlify, cfvercel, vercel.
pub open spec fn stable_list(i: usize) -> Seq<char> {
    if i == 1 {
        "github.conf"@
    } else if i == 2 {
        "cfnetlify.conf"@
    } else if i == 3 {
        "netlify.conf"@
    } else if i == 4 {
        "cfvercel.conf"@
    } else {
        "vercel.conf"@
    }
}

/// On the stable channel, the mirror at position 1 to 5 is looked for as its
/// list under the source, the source's trailing slashes dropped.
pub proof fn lemma_repo_stable_mirror(
    arch: String,
    repo_url: String,
    i: usize,
    n: RepoState,
    ns: Seq<RepoNotice>,
    a: RepoAction,
)
    requires
        1 <= i <= 5,
        repo_transition(
            RepoState::AwaitMirror { arch, repo_url, beta: false },
            RepoEvent::Selected(i),
            n,
            ns,
            a,
        ),
    ensures
        a matches RepoAction::CheckUrl(u) && u@ == trim_end_char(repo_url@, '/') + "/"@ + stable_list(i),
{
}

/// On the beta channel, position 0 is the netlify list and any other the
/// vercel list.
pub proof fn lemma_repo_beta_mirror(
    arch: String,
    repo_url: String,
    i: usize,
    n: RepoState,
    ns: Seq<RepoNotice>,
    a: RepoAction,
)
    requires
        repo_transition(
            RepoState::AwaitMirror { arch, repo_url, beta: true },
            RepoEvent::Selected(i),
            n,
            ns,
            a,
        ),
    ensures
        a matches RepoAction::CheckUrl(u) && u@ == trim_end_char(repo_url@, '/') + "/"@ + (if i == 0 {
            "netlify.conf"@
        } else {
            "vercel.conf"@
        }),
{
}

/// The support code is `cat666`: with it the main site's list is looked
/// for; with any other the dialogue starts over.
pub proof fn lemma_repo_support_code(
    arch: String,
    repo_url: String,
    code: String,
    n: RepoState,
    ns: Seq<RepoNotice>,
    a: RepoAction,
)
    requires
        repo_transition(RepoState::AwaitCode { arch, repo_url }, RepoEvent::Text(code), n, ns, a),
    ensures
        code@ == "cat666"@ ==> (a matches RepoAction::CheckUrl(u) && u@ == trim_end_char(repo_url@, '/')
            + "/"@ + "distfeeds.conf"@),
        code@ != "cat666"@ ==> n is AwaitRelease && a is ReadFile,
{
}

/// When the service names no source, the default source is the
/// architecture's directory under `https://raw.miaoer.net/cattools/repo`,
/// and it is a beta one exactly when the version says `beta` or `Beta`.
pub proof fn lemma_repo_default_source(
    arch: String,
    version: String,
    n: RepoState,
    ns: Seq<RepoNotice>,
    a: RepoAction,
)
    requires
        repo_transition(RepoState::AwaitSource { arch, version }, RepoEvent::Source(None), n, ns, a),
    ensures
        n matches RepoState::AwaitConsent { repo_url, beta, .. } && repo_url@
            == "https://raw.miaoer.net/cattools/repo"@ + "/"@ + arch@ && beta == (contains_seq(
            version@,
            "beta"@,
        ) || contains_seq(version@, "Beta"@)),
{
}

} // verus!
