//! Network diagnosis (what the ping results and the network configuration
//! mean) and the assembly of the system report.

use vstd::prelude::*;

use crate::text::{contains_seq, contains_str, lines, lines_of, trim, trim_str, views};

verus! {

// ---------------------------------------------------------------------------
// Network diagnosis
// ---------------------------------------------------------------------------

/// The addresses pinged to test the connection: the primary, then the backup.
pub const PRIMARY_PING_HOST: &'static str = "223.5.5.5";

/// The address pinged when the primary does not answer.
pub const BACKUP_PING_HOST: &'static str = "119.29.29.99";

/// What the ping test found.
#[derive(Debug, Clone, Copy, PartialEq, Eq, Structural)]
pub enum PingVerdict {
    /// The primary address answered.
    Connected,
    /// Only the backup address answered.
    Degraded,
    /// Neither answered; `pppoe` tells whether the network is set up for
    /// PPPoE, so that its account is worth checking.
    Failed { pppoe: bool },
}

/// The configuration dials PPPoE: it mentions `pppoe`.
pub fn uses_pppoe(network_config: &str) -> (r: bool)
    ensures
        r == contains_seq(network_config@, "pppoe"@),
{
    contains_str(network_config, "pppoe")
}

/// The verdict of the ping test: connected if the primary answered,
/// degraded if only the backup did, else failed, with the PPPoE hint when
/// the network configuration could be read and mentions `pppoe`.
pub fn ping_verdict(primary_ok: bool, backup_ok: bool, network_config: Option<&str>) -> (v:
    PingVerdict)
    ensures
        primary_ok ==> v == PingVerdict::Connected,
        !primary_ok && backup_ok ==> v == PingVerdict::Degraded,
        !primary_ok && !backup_ok ==> v == (PingVerdict::Failed {
            pppoe: match network_config {
                Some(c) => contains_seq(c@, "pppoe"@),
                None => false,
            },
        }),
{
    if primary_ok {
        PingVerdict::Connected
    } else if backup_ok {
        PingVerdict::Degraded
    } else {
        let pppoe = match network_config {
            Some(c) => uses_pppoe(c),
            None => false,
        };
        PingVerdict::Failed { pppoe }
    }
}

/// Which address the ping test pings.
#[derive(Debug, Clone, Copy, PartialEq, Eq, Structural)]
pub enum PingTarget {
    /// `PRIMARY_PING_HOST`.
    Primary,
    /// `BACKUP_PING_HOST`.
    Backup,
}

/// What the ping test does next.
#[derive(Debug, Clone, Copy, PartialEq, Eq, Structural)]
pub enum PingAction {
    /// Ping the address; report whether it answered.
    Ping(PingTarget),
    /// Read the network configuration; report its text, if any.
    ReadConfig,
    /// The test is over with this verdict.
    Report(PingVerdict),
}

/// The ping test starts with the primary address.
pub fn ping_start() -> (a: PingAction)
    ensures
        a == PingAction::Ping(PingTarget::Primary),
{
    PingAction::Ping(PingTarget::Primary)
}

/// After the primary address: connected if it answered, else the backup
/// address is pinged.
pub fn ping_after_primary(answered: bool) -> (a: PingAction)
    ensures
        answered ==> a == PingAction::Report(PingVerdict::Connected),
        !answered ==> a == PingAction::Ping(PingTarget::Backup),
{
    if answered {
        PingAction::Report(PingVerdict::Connected)
    } else {
        PingAction::Ping(PingTarget::Backup)
    }
}

/// After the backup address: degraded if it answered, else the network
/// configuration is read for the PPPoE hint.
pub fn ping_after_backup(answered: bool) -> (a: PingAction)
    ensures
        answered ==> a == PingAction::Report(PingVerdict::Degraded),
        !answered ==> a == PingAction::ReadConfig,
{
    if answered {
        PingAction::Report(PingVerdict::Degraded)
    } else {
        PingAction::ReadConfig
    }
}

/// After reading the network configuration: failed, with the PPPoE hint
/// when the configuration could be read and mentions `pppoe`; the verdict
/// `ping_verdict` gives when neither address answered.
pub fn ping_after_config(network_config: Option<&str>) -> (a: PingAction)
    ensures
        a == PingAction::Report(
            PingVerdict::Failed {
                pppoe: match network_config {
                    Some(c) => contains_seq(c@, "pppoe"@),
                    None => false,
                },
            },
        ),
{
    PingAction::Report(ping_verdict(false, false, network_config))
}

/// The DNS settings of a network configuration: its lines that mention
/// `option dns`, trimmed.
pub open spec fn dns_lines(config: Seq<char>) -> Seq<Seq<char>> {
    lines(config).filter(|l: Seq<char>| contains_seq(l, "option dns"@)).map_values(
        |l: Seq<char>| trim(l),
    )
}

/// The DNS settings of a network configuration: its lines that mention
/// `option dns`, trimmed.
pub fn dns_config_lines(config: &str) -> (r: Vec<String>)
    ensures
        views(r@) == dns_lines(config@),
{
    let ls = lines_of(config);
    let ghost all = lines(config@);
    let mut out: Vec<String> = Vec::new();
    let mut k: usize = 0;
    assert(all.take(0).filter(|l: Seq<char>| contains_seq(l, "option dns"@)) =~= Seq::<
        Seq<char>,
    >::empty()) by {
        reveal_with_fuel(Seq::filter, 1);
    }
    while k < ls.len()
        invariant
            k <= ls@.len(),
            views(ls@) == all,
            views(out@) == all.take(k as int).filter(
                |l: Seq<char>| contains_seq(l, "option dns"@),
            ).map_values(|l: Seq<char>| trim(l)),
        decreases ls@.len() - k,
    {
        let line = ls[k].as_str();
        let ghost prev = all.take(k as int);
        assert(all.take(k + 1) =~= prev.push(line@));
        proof {
            prev.lemma_filter_push(line@, |l: Seq<char>| contains_seq(l, "option dns"@));
        }
        let ghost before = prev.filter(|l: Seq<char>| contains_seq(l, "option dns"@));
        if contains_str(line, "option dns") {
            let t = trim_str(line);
            proof {
                crate::text::lemma_views_push(out@, t);
                assert(before.push(line@).map_values(|l: Seq<char>| trim(l)) =~= before.map_values(
                    |l: Seq<char>| trim(l),
                ).push(trim(line@)));
            }
            out.push(t);
        }
        k = k + 1;
    }
    assert(all.take(ls@.len() as int) =~= all);
    out
}

/// The sites whose reachability the diagnosis tests.
pub fn tcping_sites() -> (r: Vec<&'static str>)
    ensures
        r@ == seq!["cn.bing.com", "bilibili.com", "github.com", "google.com.hk"],
{
    vec!["cn.bing.com", "bilibili.com", "github.com", "google.com.hk"]
}

// ---------------------------------------------------------------------------
// System report
// ---------------------------------------------------------------------------

/// What the system report is made of; `None` where a file could not be read
/// or a command failed.
pub struct DebugSources {
    pub banner: Option<String>,
    pub now: String,
    pub release: Option<String>,
    pub memory: Option<String>,
    pub disk: Option<String>,
    pub packages: Option<String>,
    pub syslog: Option<String>,
    pub dmesg: Option<String>,
    /// The plugin logs that could be read: path and content.
    pub plugin_logs: Vec<(String, String)>,
    pub interfaces: Option<String>,
    pub uci_network: Option<String>,
    pub iptables: Option<String>,
    pub ip6tables: Option<String>,
    pub routes: Option<String>,
    pub routes6: Option<String>,
}

/// The text of an optional string; empty when absent.
pub open spec fn opt_text(o: Option<String>) -> Seq<char> {
    match o {
        Some(s) => s@,
        None => Seq::empty(),
    }
}

/// A section of the report: a `## title` heading, a rule, the body and a
/// line break.
pub open spec fn section(title: Seq<char>, body: Seq<char>) -> Seq<char> {
    "## "@ + title + "\n==========\n"@ + body + "\n"@
}

/// The plugin logs of the report, each under a `--- path ---` line.
pub open spec fn plugin_text(logs: Seq<(String, String)>) -> Seq<char>
    decreases logs.len(),
{
    if logs.len() == 0 {
        Seq::empty()
    } else {
        plugin_text(logs.drop_last()) + "\n--- "@ + logs.last().0@ + " ---\n"@ + logs.last().1@
    }
}

/// The report: the banner, the time, then the sections release, memory,
/// disk, packages, system log, kernel log, plugins, interfaces, UCI network,
/// firewall and routes.
pub open spec fn debug_report(d: DebugSources) -> Seq<char> {
    (match d.banner {
        Some(b) => b@ + "\n"@,
        None => Seq::empty(),
    }) + d.now@ + "\n\n"@ + section("RELEASE"@, opt_text(d.release)) + section(
        "Memory Usage"@,
        opt_text(d.memory),
    ) + section("Disk Usage"@, opt_text(d.disk)) + section("Application"@, opt_text(d.packages))
        + section("SYSLOG"@, opt_text(d.syslog)) + section("DMESG"@, opt_text(d.dmesg)) + section(
        "Plugins"@,
        plugin_text(d.plugin_logs@),
    ) + section("Network Configuration"@, opt_text(d.interfaces)) + section(
        "UCI Network"@,
        opt_text(d.uci_network),
    ) + section("Firewall"@, opt_text(d.iptables) + opt_text(d.ip6tables)) + section(
        "Routing Table"@,
        opt_text(d.routes) + opt_text(d.routes6),
    )
}

/// Appends the text of an optional string.
fn append_opt(out: &mut String, o: &Option<String>)
    ensures
        final(out)@ == old(out)@ + opt_text(*o),
{
    match o {
        Some(s) => out.append(s.as_str()),
        None => {
            assert(old(out)@ + Seq::<char>::empty() =~= old(out)@);
        },
    }
}

/// Appends a section with the given title and body parts.
fn append_section(out: &mut String, title: &str, a: &Option<String>, b: &Option<String>)
    ensures
        final(out)@ == old(out)@ + section(title@, opt_text(*a) + opt_text(*b)),
{
    let ghost o = out@;
    out.append("## ");
    out.append(title);
    out.append("\n==========\n");
    append_opt(out, a);
    append_opt(out, b);
    out.append("\n");
    assert(out@ =~= o + section(title@, opt_text(*a) + opt_text(*b)));
}

/// The system report assembled from its sources.
pub fn debug_report_text(d: &DebugSources) -> (r: String)
    ensures
        r@ == debug_report(*d),
{
    let none: Option<String> = None;
    let mut out = String::new();
    match &d.banner {
        Some(b) => {
            out.append(b.as_str());
            out.append("\n");
        },
        None => {},
    }
    out.append(d.now.as_str());
    out.append("\n\n");
    let ghost head = out@;
    append_section(&mut out, "RELEASE", &d.release, &none);
    append_section(&mut out, "Memory Usage", &d.memory, &none);
    append_section(&mut out, "Disk Usage", &d.disk, &none);
    append_section(&mut out, "Application", &d.packages, &none);
    append_section(&mut out, "SYSLOG", &d.syslog, &none);
    append_section(&mut out, "DMESG", &d.dmesg, &none);
    let ghost before_plugins = out@;
    out.append("## ");
    out.append("Plugins");
    out.append("\n==========\n");
    let ghost start = out@;
    let mut k: usize = 0;
    assert(d.plugin_logs@.take(0) =~= Seq::<(String, String)>::empty());
    assert(start + plugin_text(d.plugin_logs@.take(0)) =~= start);
    while k < d.plugin_logs.len()
        invariant
            k <= d.plugin_logs@.len(),
            out@ == start + plugin_text(d.plugin_logs@.take(k as int)),
        decreases d.plugin_logs@.len() - k,
    {
        let ghost o = out@;
        out.append("\n--- ");
        out.append(d.plugin_logs[k].0.as_str());
        out.append(" ---\n");
        out.append(d.plugin_logs[k].1.as_str());
        let ghost t = d.plugin_logs@.take(k + 1);
        assert(t.drop_last() =~= d.plugin_logs@.take(k as int));
        assert(t.last() == d.plugin_logs@[k as int]);
        assert(out@ =~= start + plugin_text(t));
        k = k + 1;
    }
    assert(d.plugin_logs@.take(d.plugin_logs@.len() as int) =~= d.plugin_logs@);
    out.append("\n");
    assert(out@ =~= before_plugins + section("Plugins"@, plugin_text(d.plugin_logs@)));
    append_section(&mut out, "Network Configuration", &d.interfaces, &none);
    append_section(&mut out, "UCI Network", &d.uci_network, &none);
    append_section(&mut out, "Firewall", &d.iptables, &d.ip6tables);
    append_section(&mut out, "Routing Table", &d.routes, &d.routes6);
    proof {
        assert(opt_text(none) + Seq::<char>::empty() =~= Seq::<char>::empty());
        let e = opt_text(none);
        assert(opt_text(d.release) + e =~= opt_text(d.release));
        assert(opt_text(d.memory) + e =~= opt_text(d.memory));
        assert(opt_text(d.disk) + e =~= opt_text(d.disk));
        assert(opt_text(d.packages) + e =~= opt_text(d.packages));
        assert(opt_text(d.syslog) + e =~= opt_text(d.syslog));
        assert(opt_text(d.dmesg) + e =~= opt_text(d.dmesg));
        assert(opt_text(d.interfaces) + e =~= opt_text(d.interfaces));
        assert(opt_text(d.uci_network) + e =~= opt_text(d.uci_network));
    }
    assert(out@ =~= debug_report(*d));
    out
}

/// The address the report is downloaded from: the LAN address that
/// `uci get network.lan.ipaddr` printed, trimmed, or `192.168.1.1` if that
/// failed.
pub fn report_host(lan_ip_output: Option<&str>) -> (r: String)
    ensures
        r@ == (match lan_ip_output {
            Some(o) => trim(o@),
            None => "192.168.1.1"@,
        }),
{
    match lan_ip_output {
        Some(o) => trim_str(o),
        None => String::from_str("192.168.1.1"),
    }
}

} // verus!
