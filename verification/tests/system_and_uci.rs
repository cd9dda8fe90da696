use catools::cli::Cli;
use catools::config::{join_path, Config};
use catools::error::CatoolsError;
use catools::menu::{Menu, MenuOption, UtilitiesMenuOption};
use catools::uci::dhcp::{configure_dhcp_pool, enable_dhcp, set_dhcp_force, set_dns};
use catools::uci::firewall::{add_firewall_rule, enable_upnp};
use catools::uci::network::{
    bridge_interfaces, configure_pppoe, enable_ipv6, set_gateway, set_ip_address, set_netmask,
    set_wan_interface,
};
use catools::uci::system::{get_hostname, set_hostname};
use catools::uci::Uci;
use catools::utils::network::{get_local_ip, ping};
use catools::utils::system::{
    check_openwrt, check_root, checked_steps, command, command_outcome, patch_banner_domains,
    patch_catwrt_release, restart_service, Command,
};

fn args(c: &Command) -> Vec<&str> {
    c.args.iter().map(|a| a.as_str()).collect()
}

fn strings(v: &[&str]) -> Vec<String> {
    v.iter().map(|s| s.to_string()).collect()
}

#[test]
fn uci_commands() {
    let uci = Uci::new();
    let c = uci.get("system.@system[0].hostname");
    assert_eq!(c.program, "uci");
    assert_eq!(args(&c), vec!["get", "system.@system[0].hostname"]);
    let c = uci.set("network.lan.ipaddr", "192.168.1.4");
    assert_eq!(c.program, "uci");
    assert_eq!(args(&c), vec!["set", "network.lan.ipaddr=192.168.1.4"]);
    let c = uci.delete("dhcp.lan.ra");
    assert_eq!(args(&c), vec!["delete", "dhcp.lan.ra"]);
    let c = uci.commit("network");
    assert_eq!(args(&c), vec!["commit", "network"]);
    let c = uci.add_list("dhcp.lan.dhcp_option", "6,223.5.5.5");
    assert_eq!(args(&c), vec!["add_list", "dhcp.lan.dhcp_option=6,223.5.5.5"]);
    let d: Uci = Default::default();
    assert_eq!(args(&d.commit("dhcp")), vec!["commit", "dhcp"]);
}

#[test]
fn uci_read_value_trims() {
    assert_eq!(Uci::read_value("  CatWrt\n"), "CatWrt");
    assert_eq!(Uci::read_value(""), "");
}

#[test]
fn network_section_commands() {
    let uci = Uci::new();
    let r = set_ip_address(&uci, "10.0.0.1");
    assert_eq!(r.len(), 2);
    assert_eq!(args(&r[0]), vec!["set", "network.lan.ipaddr=10.0.0.1"]);
    assert_eq!(args(&r[1]), vec!["commit", "network"]);
    let r = set_gateway(&uci, "10.0.0.254");
    assert_eq!(r.len(), 1);
    assert_eq!(args(&r[0]), vec!["set", "network.lan.gateway=10.0.0.254"]);
    let r = set_netmask(&uci, "255.255.255.0");
    assert_eq!(args(&r[0]), vec!["set", "network.lan.netmask=255.255.255.0"]);
    let r = configure_pppoe(&uci, "user", "secret");
    assert_eq!(r.len(), 3);
    assert_eq!(args(&r[0]), vec!["set", "network.wan.proto=pppoe"]);
    assert_eq!(args(&r[1]), vec!["set", "network.wan.username=user"]);
    assert_eq!(args(&r[2]), vec!["set", "network.wan.password=secret"]);
    assert!(enable_ipv6(&uci, true).is_empty());
    assert!(set_wan_interface(&uci, "eth0").is_empty());
    assert!(bridge_interfaces(&uci, &["eth1", "eth2"]).is_empty());
}

#[test]
fn system_section_commands() {
    let uci = Uci::new();
    let c = get_hostname(&uci);
    assert_eq!(args(&c), vec!["get", "system.@system[0].hostname"]);
    let r = set_hostname(&uci, "CatWrt");
    assert_eq!(r.len(), 2);
    assert_eq!(args(&r[0]), vec!["set", "system.@system[0].hostname=CatWrt"]);
    assert_eq!(args(&r[1]), vec!["commit", "system"]);
}

#[test]
fn unfinished_sections_do_nothing() {
    let uci = Uci::new();
    assert!(set_dns(&uci, &["223.5.5.5"]).is_empty());
    assert!(configure_dhcp_pool(&uci, 30, 200).is_empty());
    assert!(enable_dhcp(&uci, true).is_empty());
    assert!(set_dhcp_force(&uci, true).is_empty());
    assert!(enable_upnp(&uci, true).is_empty());
    assert!(add_firewall_rule(&uci, "rule").is_empty());
    assert!(matches!(ping("223.5.5.5"), Ok(true)));
    assert_eq!(get_local_ip().unwrap(), "192.168.1.1");
}

#[test]
fn command_outcomes() {
    let ok = command_outcome("opkg", true, "done".to_string(), "");
    assert_eq!(ok.unwrap(), "done");
    match command_outcome("opkg", false, "ignored".to_string(), "no space left") {
        Err(CatoolsError::CommandError(m)) => assert_eq!(m, "Command opkg failed: no space left"),
        _ => panic!("expected a command error"),
    }
}

#[test]
fn root_and_openwrt_checks() {
    assert!(check_root("0\n").is_ok());
    assert!(check_root(" 0 ").is_ok());
    match check_root("1000\n") {
        Err(CatoolsError::CommandError(m)) => {
            assert_eq!(m, "This tool requires root privileges. Please run with sudo or as root.")
        }
        _ => panic!("expected a command error"),
    }
    assert!(check_root("").is_err());
    assert!(check_openwrt(true).is_ok());
    match check_openwrt(false) {
        Err(CatoolsError::CommandError(m)) => {
            assert_eq!(m, "This tool is designed for OpenWrt/CatWrt systems.")
        }
        _ => panic!("expected a command error"),
    }
}

#[test]
fn restart_and_plans() {
    let c = restart_service("network");
    assert_eq!(c.program, "/etc/init.d");
    assert_eq!(args(&c), vec!["network", "restart"]);
    let c = command("ls", strings(&["/sys/class/net"]));
    assert_eq!(c.program, "ls");
    let steps = checked_steps(vec![restart_service("a"), restart_service("b")]);
    assert_eq!(steps.len(), 2);
    assert!(steps.iter().all(|s| s.checked));
    assert_eq!(args(&steps[1].command), vec!["b", "restart"]);
}

#[test]
fn banner_patch_replaces_every_old_domain() {
    assert_eq!(
        patch_banner_domains("see miaoer.xyz and www.miaoer.xyz/blog"),
        "see miaoer.net and www.miaoer.net/blog"
    );
    assert_eq!(patch_banner_domains("nothing to do"), "nothing to do");
    assert_eq!(patch_banner_domains(""), "");
}

#[test]
fn banner_patch_is_idempotent() {
    for banner in ["miaoer.xyz", "mmiaoer.xyzxyz", "miaoer.miaoer.xyzxyz", "a miaoer.xy z", "miaoer.xyzmiaoer.xyz"] {
        let once = patch_banner_domains(banner);
        assert!(!once.contains("miaoer.xyz"));
        assert_eq!(patch_banner_domains(&once), once);
    }
    assert_eq!(patch_banner_domains("miaoer.miaoer.xyzxyz"), "miaoer.miaoer.netxyz");
}

#[test]
fn release_patch_only_when_missing() {
    assert!(patch_catwrt_release(true).is_none());
    assert_eq!(
        patch_catwrt_release(false).unwrap(),
        "CATWRT_RELEASE=\"v25.8\"\nCATWRT_ARCH=\"unknown\"\n"
    );
}

#[test]
fn cli_flags() {
    let c = Cli::parse(&strings(&["catools"]));
    assert!(!c.update);
    assert!(c.config.is_none());
    let c = Cli::parse(&strings(&["catools", "-u"]));
    assert!(c.update);
    let c = Cli::parse(&strings(&["catools", "--update", "--config", "/tmp/c.toml"]));
    assert!(c.update);
    assert_eq!(c.config.as_deref(), Some("/tmp/c.toml"));
    let c = Cli::parse(&strings(&["catools", "--config"]));
    assert!(c.config.is_none());
    let c = Cli::parse(&strings(&["catools", "--config", "a", "--config", "b", "x"]));
    assert_eq!(c.config.as_deref(), Some("b"));
    assert!(!c.update);
    let c = Cli::parse(&strings(&["catools", "--config", "-u"]));
    assert_eq!(c.config.as_deref(), Some("-u"));
    assert!(!c.update);
    let c = Cli::parse(&Vec::new());
    assert!(!c.update);
}

#[test]
fn config_defaults_and_paths() {
    let c: Config = Default::default();
    assert_eq!(c.mirror_priority, strings(&["netlify", "github", "miaoer"]));
    assert_eq!(c.default_ip, "192.168.1.4");
    assert!(!c.beta_channel);
    assert_eq!(c.language, "zh_CN");
    assert_eq!(join_path("/root/.config", "catools"), "/root/.config/catools");
    assert_eq!(join_path("/root/.config/", "catools"), "/root/.config/catools");
    assert_eq!(join_path("", "catools"), "catools");
    assert_eq!(Config::config_dir(Some("/root/.config")).unwrap(), "/root/.config/catools");
    assert_eq!(
        Config::config_file(Some("/root/.config")).unwrap(),
        "/root/.config/catools/config.toml"
    );
    match Config::config_file(None) {
        Err(CatoolsError::ConfigError(m)) => assert_eq!(m, "Cannot find config directory"),
        _ => panic!("expected a config error"),
    }
    assert!(matches!(Config::config_dir(None), Err(CatoolsError::ConfigError(_))));
}

#[test]
fn menu_positions() {
    assert_eq!(Menu::main_len(), 10);
    assert_eq!(Menu::utilities_len(), 9);
    assert!(matches!(Menu::option_at(0), MenuOption::SetIp));
    assert!(matches!(Menu::option_at(1), MenuOption::NetworkWizard));
    assert!(matches!(Menu::option_at(2), MenuOption::ApplyRepo));
    assert!(matches!(Menu::option_at(3), MenuOption::NetworkDiagnostic));
    assert!(matches!(Menu::option_at(4), MenuOption::SystemDebug));
    assert!(matches!(Menu::option_at(5), MenuOption::CheckUpdate));
    assert!(matches!(Menu::option_at(6), MenuOption::SystemUpgrade));
    assert!(matches!(Menu::option_at(7), MenuOption::PackageBackup));
    assert!(matches!(Menu::option_at(8), MenuOption::UtilitiesMenu));
    assert!(matches!(Menu::option_at(9), MenuOption::Exit));
    assert!(matches!(Menu::option_at(42), MenuOption::Exit));
    assert!(matches!(Menu::utility_at(0), UtilitiesMenuOption::ConfigureMihomo));
    assert!(matches!(Menu::utility_at(1), UtilitiesMenuOption::ConfigureTailscale));
    assert!(matches!(Menu::utility_at(2), UtilitiesMenuOption::ConfigureLeigod));
    assert!(matches!(Menu::utility_at(3), UtilitiesMenuOption::ConfigureTtyd));
    assert!(matches!(Menu::utility_at(4), UtilitiesMenuOption::InstallIpk));
    assert!(matches!(Menu::utility_at(5), UtilitiesMenuOption::DeploySslCert));
    assert!(matches!(Menu::utility_at(6), UtilitiesMenuOption::ResetPassword));
    assert!(matches!(Menu::utility_at(7), UtilitiesMenuOption::SystemReset));
    assert!(matches!(Menu::utility_at(8), UtilitiesMenuOption::Back));
    assert!(matches!(Menu::utility_at(100), UtilitiesMenuOption::Back));
}
