use catools::error::CatoolsError;
use catools::modules::network::{
    bridge_ports_text, configure_bypass_gateway, configure_network_interfaces, eth_interfaces,
    host_address, network_wizard, ping_once, private_router_ip, set_ip_address, subnet_of, Action,
    BypassState, Event, Notice, Prompt, Question, WizardState,
};
use catools::uci::Uci;
use catools::utils::system::{Command, Step};

const LS_THREE: &str = "br-lan\neth0\neth1\neth2\nlo\nwlan0\n";

fn args(c: &Command) -> Vec<String> {
    c.args.clone()
}

fn plan_args(p: &[Step]) -> Vec<(String, Vec<String>, bool)> {
    p.iter().map(|s| (s.command.program.clone(), s.command.args.clone(), s.checked)).collect()
}

fn uci(a: &str, b: &str) -> (String, Vec<String>, bool) {
    ("uci".to_string(), vec![a.to_string(), b.to_string()], true)
}

fn restart(s: &str, checked: bool) -> (String, Vec<String>, bool) {
    ("/etc/init.d".to_string(), vec![s.to_string(), "restart".to_string()], checked)
}

#[test]
fn ethernet_ports() {
    assert_eq!(eth_interfaces(LS_THREE), vec!["eth0", "eth1", "eth2"]);
    assert!(eth_interfaces("lo\nwlan0").is_empty());
    assert_eq!(bridge_ports_text(LS_THREE), "eth1 eth2");
    assert_eq!(bridge_ports_text("eth0\n"), "");
    let r = configure_network_interfaces(&Uci::new(), LS_THREE);
    assert_eq!(r.len(), 11);
    assert_eq!(args(&r[0]), vec!["set", "network.wan.ifname=eth0"]);
    assert_eq!(args(&r[3]), vec!["set", "network.lan.ifname=eth1 eth2"]);
    assert_eq!(args(&r[4]), vec!["set", "network.lan._orig_ifname=eth1 eth2"]);
    assert_eq!(args(&r[10]), vec!["set", "network.wan6.reqprefix=auto"]);
}

#[test]
fn lan_address_plan() {
    let p = set_ip_address("192.168.10.1").unwrap();
    assert_eq!(
        plan_args(&p),
        vec![
            uci("set", "network.lan.ipaddr=192.168.10.1"),
            uci("commit", "network"),
            restart("network", true),
        ]
    );
    match set_ip_address("192.168.10") {
        Err(CatoolsError::ValidationError(m)) => assert_eq!(m, "Invalid IP format: 192.168.10"),
        _ => panic!("expected a validation error"),
    }
    match set_ip_address("192.168.10.255") {
        Err(CatoolsError::ValidationError(m)) => assert_eq!(m, "Last octet must be 1-254"),
        _ => panic!("expected a validation error"),
    }
}

#[test]
fn router_addresses() {
    assert!(private_router_ip("192.168.1.1"));
    assert!(private_router_ip("10.0.0.1"));
    assert!(private_router_ip("172.16.0.1"));
    assert!(!private_router_ip("8.8.8.8"));
    assert!(!private_router_ip("192.169.1.1"));
    assert!(!private_router_ip(""));
    assert_eq!(subnet_of("192.168.1.1"), "192.168.1");
    assert_eq!(subnet_of("10.0.0"), "10.0.0");
    assert_eq!(host_address("192.168.1", 4), "192.168.1.4");
    assert_eq!(host_address("192.168.1", 10), "192.168.1.10");
    assert_eq!(host_address("10.0.0", 99), "10.0.0.99");
    assert_eq!(host_address("10.0.0", 0), "10.0.0.0");
    let c = ping_once("192.168.1.5");
    assert_eq!(c.program, "ping");
    assert_eq!(args(&c), vec!["-c", "1", "-W", "1", "192.168.1.5"]);
}

fn bypass(s: BypassState, e: Event) -> (BypassState, Vec<Notice>, Action) {
    configure_bypass_gateway(s, e)
}

#[test]
fn bypass_setup_finds_a_free_address() {
    let (s, ns, a) = bypass(BypassState::Start, Event::Begin);
    assert!(matches!(ns.as_slice(), [Notice::BypassHeader]));
    assert!(matches!(a, Action::Ask(Prompt::Input { question: Question::RouterIp, default: None })));
    let (s, ns, _) = bypass(s, Event::Text(String::new()));
    assert!(matches!(ns.as_slice(), [Notice::RouterIpEmpty]));
    let (s, ns, _) = bypass(s, Event::Text("8.8.8.8".to_string()));
    assert!(matches!(ns.as_slice(), [Notice::RouterIpInvalid]));
    let (s, ns, a) = bypass(s, Event::Text("192.168.1.1".to_string()));
    assert!(matches!(&ns[0], Notice::Scanning(x) if x == "192.168.1"));
    assert!(matches!(&ns[1], Notice::Probing(x) if x == "192.168.1.4"));
    assert!(matches!(&a, Action::Run(c) if c.args.last().map(|x| x.as_str()) == Some("192.168.1.4")));
    let (s, ns, a) = bypass(s, Event::Output(Ok("reply".to_string())));
    assert!(matches!(ns[0], Notice::Occupied));
    assert!(matches!(&ns[1], Notice::Probing(x) if x == "192.168.1.5"));
    assert!(matches!(&a, Action::Run(c) if c.args.last().map(|x| x.as_str()) == Some("192.168.1.5")));
    let (s, ns, a) = bypass(s, Event::Output(Err(CatoolsError::CommandError("timeout".to_string()))));
    assert!(matches!(&ns[0], Notice::Free(x) if x == "192.168.1.5"));
    assert!(matches!(&a, Action::Ask(Prompt::Input { question: Question::SuggestedDeviceIp, default: Some(d) }) if d == "192.168.1.5"));
    let (s, ns, a) = bypass(s, Event::Text("192.168.1.5".to_string()));
    assert!(matches!(&ns[0], Notice::Summary(r, d) if r == "192.168.1.1" && d == "192.168.1.5"));
    assert!(matches!(a, Action::Ask(Prompt::Confirm { question: Question::BypassDns, default: true })));
    let (s, ns, a) = bypass(s, Event::Confirmed(true));
    assert!(ns.is_empty());
    match &a {
        Action::RunPlan(p) => {
            let v = plan_args(p);
            assert_eq!(v.len(), 13);
            assert_eq!(v[0], uci("set", "network.lan.ipaddr=192.168.1.5"));
            assert_eq!(v[1], uci("set", "network.lan.gateway=192.168.1.1"));
            assert_eq!(v[3], uci("set", "network.lan.dns=223.6.6.6 223.5.5.5"));
            assert_eq!(v[8], uci("set", "dhcp.lan.ignore=1"));
            assert_eq!(v[9], ("uci".to_string(), vec!["delete".to_string(), "dhcp.lan.leasetime".to_string()], false));
            assert_eq!(v[12], uci("commit", "dhcp"));
        }
        _ => panic!("expected a plan"),
    }
    let (s, ns, a) = bypass(s, Event::Done(Ok(())));
    assert!(matches!(&ns[0], Notice::BypassDone(d) if d == "192.168.1.5"));
    match &a {
        Action::RunPlan(p) => assert_eq!(
            plan_args(p),
            vec![restart("network", true), restart("firewall", true), restart("dnsmasq", true)]
        ),
        _ => panic!("expected a plan"),
    }
    let (s, ns, a) = bypass(s, Event::Done(Ok(())));
    assert!(matches!(ns.as_slice(), [Notice::FirewallWarning]));
    assert!(matches!(a, Action::Finish(Ok(()))));
    assert!(matches!(s, BypassState::Finished));
}

#[test]
fn bypass_setup_when_every_address_answers() {
    let (s, _, _) = bypass(BypassState::Start, Event::Begin);
    let (mut s, _, _) = bypass(s, Event::Text("10.0.0.1".to_string()));
    for h in 5..=10 {
        let (n, ns, _) = bypass(s, Event::Output(Ok(String::new())));
        let want = format!("10.0.0.{}", h);
        assert!(matches!(&ns[1], Notice::Probing(x) if *x == want));
        s = n;
    }
    let (s, ns, a) = bypass(s, Event::Output(Ok(String::new())));
    assert!(matches!(ns.as_slice(), [Notice::Occupied, Notice::NoFreeIp]));
    assert!(matches!(a, Action::Ask(Prompt::Input { question: Question::DeviceIp, default: None })));
    let (s, _, _) = bypass(s, Event::Text("10.0.0.20".to_string()));
    let (s, _, a) = bypass(s, Event::Confirmed(false));
    assert!(matches!(a, Action::Ask(Prompt::Input { question: Question::CustomDns, default: None })));
    let (s, _, a) = bypass(s, Event::Text("1.1.1.1".to_string()));
    match &a {
        Action::RunPlan(p) => assert_eq!(plan_args(p)[3], uci("set", "network.lan.dns=1.1.1.1")),
        _ => panic!("expected a plan"),
    }
    let (s, ns, a) = bypass(s, Event::Done(Err(CatoolsError::CommandError("uci".to_string()))));
    assert!(ns.is_empty());
    assert!(matches!(a, Action::Finish(Err(CatoolsError::CommandError(_)))));
    assert!(matches!(s, BypassState::Finished));
}

#[test]
fn bypass_setup_prompt_failure_ends_it() {
    let (s, _, _) = bypass(BypassState::Start, Event::Begin);
    let (s, ns, a) = bypass(s, Event::Failed(CatoolsError::UciError("tty".to_string())));
    assert!(ns.is_empty());
    assert!(matches!(a, Action::Finish(Err(CatoolsError::UciError(_)))));
    assert!(matches!(s, BypassState::Finished));
}

fn wizard(s: WizardState, e: Event) -> (WizardState, Vec<Notice>, Action) {
    network_wizard(s, e)
}

fn expect_plan(a: &Action) -> Vec<(String, Vec<String>, bool)> {
    match a {
        Action::RunPlan(p) => plan_args(p),
        _ => panic!("expected a plan"),
    }
}

#[test]
fn wizard_full_run() {
    let (s, ns, a) = wizard(WizardState::Start, Event::Begin);
    assert!(matches!(ns.as_slice(), [Notice::WizardHeader]));
    assert!(matches!(a, Action::Ask(Prompt::Confirm { question: Question::UseWizard, default: true })));
    let (s, _, a) = wizard(s, Event::Confirmed(true));
    assert!(matches!(&a, Action::Run(c) if c.program == "ls" && c.args == vec!["/sys/class/net".to_string()]));
    let (s, ns, a) = wizard(s, Event::Output(Ok(LS_THREE.to_string())));
    assert!(matches!(ns.as_slice(), [Notice::IpStep]));
    assert!(matches!(a, Action::Ask(Prompt::Confirm { question: Question::ChangeIp, default: false })));
    let (s, _, a) = wizard(s, Event::Confirmed(true));
    assert!(matches!(&a, Action::Ask(Prompt::Input { question: Question::NewIp, default: Some(d) }) if d == "192.168.1.4"));
    let (s, _, a) = wizard(s, Event::Text("192.168.5.1".to_string()));
    assert_eq!(expect_plan(&a), vec![uci("set", "network.lan.ipaddr=192.168.5.1")]);
    let (s, ns, a) = wizard(s, Event::Done(Ok(())));
    assert!(matches!(&ns[0], Notice::IpSet(x) if x == "192.168.5.1"));
    assert!(matches!(ns[1], Notice::Ipv6Step));
    assert!(matches!(a, Action::Ask(Prompt::Confirm { question: Question::DisableIpv6, default: false })));
    let (s, _, a) = wizard(s, Event::Confirmed(true));
    let v = expect_plan(&a);
    assert_eq!(v.len(), 4);
    assert!(v.iter().all(|x| !x.2));
    let (s, ns, a) = wizard(s, Event::Done(Err(CatoolsError::CommandError("ignored".to_string()))));
    assert!(matches!(ns.as_slice(), [Notice::Ipv6Disabled, Notice::PppoeStep]));
    assert!(matches!(a, Action::Ask(Prompt::Confirm { question: Question::UsePppoe, default: false })));
    let (s, ns, a) = wizard(s, Event::Confirmed(true));
    assert!(matches!(ns.as_slice(), [Notice::PppoeHint]));
    assert!(matches!(a, Action::Ask(Prompt::Input { question: Question::PppoeAccount, default: None })));
    let (s, _, a) = wizard(s, Event::Text("user".to_string()));
    assert!(matches!(a, Action::Ask(Prompt::Password { question: Question::PppoePassword })));
    let (s, _, a) = wizard(s, Event::Text("pw".to_string()));
    assert_eq!(
        expect_plan(&a),
        vec![
            uci("set", "network.wan.proto=pppoe"),
            uci("set", "network.wan.username=user"),
            uci("set", "network.wan.password=pw"),
        ]
    );
    let (s, ns, a) = wizard(s, Event::Done(Ok(())));
    assert!(matches!(ns.as_slice(), [Notice::PppoeDone, Notice::DnsStep]));
    assert!(matches!(a, Action::Ask(Prompt::Confirm { question: Question::WizardDns, default: true })));
    let (s, _, a) = wizard(s, Event::Confirmed(true));
    assert_eq!(expect_plan(&a), vec![uci("set", "network.lan.dns=223.6.6.6 119.29.29.99")]);
    let (s, ns, a) = wizard(s, Event::Done(Ok(())));
    assert!(matches!(ns.as_slice(), [Notice::DhcpPoolStep]));
    assert!(matches!(a, Action::Ask(Prompt::Confirm { question: Question::ChangeDhcpPool, default: false })));
    let (s, _, a) = wizard(s, Event::Confirmed(true));
    assert!(matches!(a, Action::Ask(Prompt::Input { question: Question::DhcpRange, default: None })));
    let (s, _, a) = wizard(s, Event::Text("100-50".to_string()));
    assert_eq!(expect_plan(&a), vec![uci("set", "dhcp.lan.start=100"), uci("set", "dhcp.lan.limit=50")]);
    let (s, ns, a) = wizard(s, Event::Done(Ok(())));
    assert!(matches!(ns.as_slice(), [Notice::ForceDhcpStep]));
    assert!(matches!(a, Action::Ask(Prompt::Confirm { question: Question::ForceDhcp, default: true })));
    let (s, _, a) = wizard(s, Event::Confirmed(true));
    assert_eq!(expect_plan(&a), vec![uci("set", "dhcp.lan.force=1")]);
    let (s, ns, a) = wizard(s, Event::Done(Ok(())));
    assert!(matches!(ns.as_slice(), [Notice::ForceDhcpOn, Notice::UpnpStep]));
    assert!(matches!(a, Action::Ask(Prompt::Confirm { question: Question::EnableUpnp, default: true })));
    let (s, _, a) = wizard(s, Event::Confirmed(true));
    assert_eq!(expect_plan(&a), vec![uci("set", "upnpd.config.enabled=1")]);
    let (s, ns, a) = wizard(s, Event::Done(Ok(())));
    assert!(matches!(ns.as_slice(), [Notice::UpnpOn]));
    assert!(matches!(&a, Action::ReadFile(f) if f == "/etc/catwrt_release"));
    let (s, ns, a) = wizard(s, Event::File(Some("arch=amd64\nversion=v25.8\n".to_string())));
    assert!(matches!(ns.as_slice(), [Notice::PortsStep]));
    assert!(matches!(a, Action::Ask(Prompt::Confirm { question: Question::ConfigurePorts, default: false })));
    let (s, _, a) = wizard(s, Event::Confirmed(true));
    assert!(matches!(&a, Action::Run(c) if c.program == "ls"));
    let (s, _, a) = wizard(s, Event::Output(Ok(LS_THREE.to_string())));
    let v = expect_plan(&a);
    assert_eq!(v.len(), 11);
    assert!(v.iter().all(|x| x.2));
    assert_eq!(v[3], uci("set", "network.lan.ifname=eth1 eth2"));
    let (s, ns, a) = wizard(s, Event::Done(Ok(())));
    assert!(matches!(&ns[0], Notice::PortsConfigured(p) if p == "eth1 eth2"));
    assert!(matches!(ns[1], Notice::Restarting));
    let v = expect_plan(&a);
    assert_eq!(
        v,
        vec![
            uci("commit", "network"),
            uci("commit", "dhcp"),
            uci("commit", "firewall"),
            restart("network", true),
            restart("dnsmasq", true),
            restart("firewall", true),
            restart("miniupnpd", false),
        ]
    );
    let (s, ns, a) = wizard(s, Event::Done(Ok(())));
    assert!(matches!(&ns[0], Notice::WizardDone(ip) if ip == "192.168.5.1"));
    assert!(matches!(a, Action::Finish(Ok(()))));
    assert!(matches!(s, WizardState::Finished));
}

#[test]
fn wizard_short_run_keeps_default_address() {
    let (s, _, _) = wizard(WizardState::Start, Event::Begin);
    let (s, _, _) = wizard(s, Event::Confirmed(true));
    let (s, _, _) = wizard(s, Event::Output(Ok("eth0\neth1\nlo\n".to_string())));
    let (s, ns, _) = wizard(s, Event::Confirmed(false));
    assert!(matches!(ns.as_slice(), [Notice::IpKept, Notice::Ipv6Step]));
    let (s, ns, _) = wizard(s, Event::Confirmed(false));
    assert!(matches!(ns.as_slice(), [Notice::PppoeStep]));
    let (s, ns, _) = wizard(s, Event::Confirmed(false));
    assert!(matches!(ns.as_slice(), [Notice::DnsStep]));
    let (s, _, a) = wizard(s, Event::Confirmed(false));
    assert!(matches!(a, Action::Ask(Prompt::Input { question: Question::CustomDns, default: None })));
    let (s, _, a) = wizard(s, Event::Text("1.1.1.1".to_string()));
    assert_eq!(expect_plan(&a), vec![uci("set", "network.lan.dns=1.1.1.1")]);
    let (s, _, _) = wizard(s, Event::Done(Ok(())));
    let (s, _, a) = wizard(s, Event::Confirmed(false));
    assert_eq!(expect_plan(&a), vec![uci("set", "dhcp.lan.start=30"), uci("set", "dhcp.lan.limit=200")]);
    let (s, _, _) = wizard(s, Event::Done(Ok(())));
    let (s, ns, _) = wizard(s, Event::Confirmed(false));
    assert!(matches!(ns.as_slice(), [Notice::UpnpStep]));
    let (s, ns, a) = wizard(s, Event::Confirmed(false));
    assert!(ns.is_empty());
    assert!(matches!(&a, Action::ReadFile(_)));
    // Two ports on amd64: nothing to assign.
    let (s, ns, _) = wizard(s, Event::File(Some("arch=amd64\n".to_string())));
    assert!(matches!(ns.as_slice(), [Notice::PortsStep, Notice::Restarting]));
    let (_, ns, a) = wizard(s, Event::Done(Ok(())));
    assert!(matches!(&ns[0], Notice::WizardDone(ip) if ip == "192.168.1.4"));
    assert!(matches!(a, Action::Finish(Ok(()))));
}

#[test]
fn wizard_dhcp_range_without_dash_skips_the_pool() {
    let mut s = WizardState::Start;
    let mut e = Event::Begin;
    // Walk to the DHCP range question with the shortest answers.
    let answers = vec![
        Event::Confirmed(true),
        Event::Output(Ok("eth0\neth1\n".to_string())),
        Event::Confirmed(false),
        Event::Confirmed(false),
        Event::Confirmed(false),
        Event::Confirmed(true),
        Event::Done(Ok(())),
        Event::Confirmed(true),
    ];
    for next in answers {
        let (n, _, _) = wizard(s, e);
        s = n;
        e = next;
    }
    let (s, _, a) = wizard(s, e);
    assert!(matches!(a, Action::Ask(Prompt::Input { question: Question::DhcpRange, default: None })));
    let (_, ns, a) = wizard(s, Event::Text("100".to_string()));
    assert!(matches!(ns.as_slice(), [Notice::ForceDhcpStep]));
    assert!(matches!(a, Action::Ask(Prompt::Confirm { question: Question::ForceDhcp, default: true })));
}

#[test]
fn wizard_on_other_release_skips_ports() {
    let mut s = WizardState::Start;
    let mut e = Event::Begin;
    let answers = vec![
        Event::Confirmed(true),
        Event::Output(Ok(LS_THREE.to_string())),
        Event::Confirmed(false),
        Event::Confirmed(false),
        Event::Confirmed(false),
        Event::Confirmed(true),
        Event::Done(Ok(())),
        Event::Confirmed(false),
        Event::Done(Ok(())),
        Event::Confirmed(false),
        Event::Confirmed(false),
    ];
    for next in answers {
        let (n, _, _) = wizard(s, e);
        s = n;
        e = next;
    }
    let (s, _, a) = wizard(s, e);
    assert!(matches!(&a, Action::ReadFile(_)));
    let (_, ns, a) = wizard(s, Event::File(Some("arch=mt7621\n".to_string())));
    assert!(matches!(ns.as_slice(), [Notice::Restarting]));
    assert_eq!(expect_plan(&a).len(), 7);
}

#[test]
fn wizard_rejects_a_bad_address() {
    let (s, _, _) = wizard(WizardState::Start, Event::Begin);
    let (s, _, _) = wizard(s, Event::Confirmed(true));
    let (s, _, _) = wizard(s, Event::Output(Ok(LS_THREE.to_string())));
    let (s, _, _) = wizard(s, Event::Confirmed(true));
    let (s, ns, a) = wizard(s, Event::Text("300.1.1.1".to_string()));
    assert!(ns.is_empty());
    match a {
        Action::Finish(Err(CatoolsError::ValidationError(m))) => assert_eq!(m, "Invalid IP octet"),
        _ => panic!("expected a validation error"),
    }
    assert!(matches!(s, WizardState::Finished));
}

#[test]
fn wizard_declined_or_failing() {
    let (s, _, _) = wizard(WizardState::Start, Event::Begin);
    let (s, ns, a) = wizard(s, Event::Confirmed(false));
    assert!(matches!(ns.as_slice(), [Notice::WizardDeclined]));
    assert!(matches!(a, Action::Finish(Ok(()))));
    assert!(matches!(s, WizardState::Finished));
    let (s, _, _) = wizard(WizardState::Start, Event::Begin);
    let (s, _, _) = wizard(s, Event::Confirmed(true));
    let (s, ns, a) = wizard(s, Event::Output(Err(CatoolsError::CommandError("ls".to_string()))));
    assert!(ns.is_empty());
    assert!(matches!(a, Action::Finish(Err(CatoolsError::CommandError(_)))));
    assert!(matches!(s, WizardState::Finished));
}

#[test]
fn wizard_hands_a_single_port_to_the_bypass_setup() {
    let (s, _, _) = wizard(WizardState::Start, Event::Begin);
    let (s, _, _) = wizard(s, Event::Confirmed(true));
    let (s, ns, a) = wizard(s, Event::Output(Ok("eth0\nlo\n".to_string())));
    assert!(matches!(ns.as_slice(), [Notice::SingleInterface]));
    assert!(matches!(a, Action::Ask(Prompt::Confirm { question: Question::BypassSetup, default: true })));
    let (s, ns, a) = wizard(s, Event::Confirmed(true));
    assert!(matches!(ns.as_slice(), [Notice::BypassHeader]));
    assert!(matches!(a, Action::Ask(Prompt::Input { question: Question::RouterIp, default: None })));
    assert!(matches!(s, WizardState::Bypass(BypassState::AwaitRouterIp)));
    let (s, _, a) = wizard(s, Event::Text("192.168.2.1".to_string()));
    assert!(matches!(&a, Action::Run(_)));
    let (s, ns, _) = wizard(s, Event::Output(Err(CatoolsError::CommandError("no reply".to_string()))));
    assert!(matches!(&ns[0], Notice::Free(x) if x == "192.168.2.4"));
    let (s, ns, a) = wizard(s, Event::Failed(CatoolsError::ValidationError("stop".to_string())));
    assert!(ns.is_empty());
    assert!(matches!(a, Action::Finish(Err(_))));
    assert!(matches!(s, WizardState::Finished));
}

#[test]
fn wizard_single_port_without_bypass() {
    let (s, _, _) = wizard(WizardState::Start, Event::Begin);
    let (s, _, _) = wizard(s, Event::Confirmed(true));
    let (s, _, _) = wizard(s, Event::Output(Ok("eth0\n".to_string())));
    let (s, ns, a) = wizard(s, Event::Confirmed(false));
    assert!(matches!(ns.as_slice(), [Notice::IpStep]));
    assert!(matches!(a, Action::Ask(Prompt::Confirm { question: Question::ChangeIp, default: false })));
    assert!(matches!(s, WizardState::AwaitChangeIp { eth: 1 }));
}

#[test]
fn wizard_failed_step_ends_it() {
    let (s, _, _) = wizard(WizardState::Start, Event::Begin);
    let (s, _, _) = wizard(s, Event::Confirmed(true));
    let (s, _, _) = wizard(s, Event::Output(Ok(LS_THREE.to_string())));
    let (s, _, _) = wizard(s, Event::Confirmed(true));
    let (s, _, _) = wizard(s, Event::Text("192.168.7.1".to_string()));
    let (s, ns, a) = wizard(s, Event::Done(Err(CatoolsError::CommandError("uci failed".to_string()))));
    assert!(ns.is_empty());
    match a {
        Action::Finish(Err(CatoolsError::CommandError(m))) => assert_eq!(m, "uci failed"),
        _ => panic!("expected the step's error"),
    }
    assert!(matches!(s, WizardState::Finished));
}
