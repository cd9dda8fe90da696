use catools::api::update::update_info_from_reply;
use catools::constants::{SYSUP_AMD64_URL, SYSUP_MT7621_URL, SYSUP_MT798X_URL};
use catools::error::CatoolsError;
use catools::modules::advanced::{
    find_certificate_files, make_executable, mihomo_arch, mihomo_download_url, ssl_cert_plan,
    ttyd_passwordless_plan, MIHOMO_KERNEL_PATH, UHTTPD_CERT, UHTTPD_KEY,
};
use catools::modules::diagnostic::{
    debug_report_text, dns_config_lines, ping_verdict, report_host, tcping_sites, uses_pppoe,
    DebugSources, PingVerdict, BACKUP_PING_HOST, PRIMARY_PING_HOST,
};
use catools::modules::release::{release_arch, release_field, release_or_fallback, release_version};
use catools::modules::update::{
    amd64_upgrade_script, newer_release_available, upgrade_plan, upgrade_target, UpgradeTarget,
    UPGRADE_SCRIPT_PATH,
};
use catools::uci::Uci;

fn strings(v: &[&str]) -> Vec<String> {
    v.iter().map(|s| s.to_string()).collect()
}

#[test]
fn release_fields() {
    let content = "arch=mt798x\nversion=v24.9=beta\nnote=x";
    assert_eq!(release_arch(content), "mt798x");
    assert_eq!(release_version(content), "v24.9");
    assert_eq!(release_field(content, "note", "none"), "x");
    assert_eq!(release_field(content, "missing", "none"), "none");
    assert_eq!(release_arch("version=v25.8"), "amd64");
    assert_eq!(release_version(""), "v25.8");
    assert_eq!(release_arch("arch=\n"), "");
    assert_eq!(release_arch("xarch=arm\narch=rkarm"), "rkarm");
    assert_eq!(release_arch("arch=rkarm\r\n"), "rkarm");
    assert_eq!(release_or_fallback(None), "arch=amd64\nversion=v25.8");
    assert_eq!(release_or_fallback(Some("arch=x".to_string())), "arch=x");
}

#[test]
fn newer_release() {
    assert!(newer_release_available("v24.12", "v25.8").unwrap());
    assert!(!newer_release_available("v25.8", "v25.8").unwrap());
    assert!(newer_release_available("v25.08", "v25.8").is_err());
    assert!(!newer_release_available("v25.9", "v25.8").unwrap());
    match newer_release_available("25.8", "v25.9") {
        Err(CatoolsError::ValidationError(m)) => assert!(m.contains("25.8")),
        _ => panic!("expected a validation error"),
    }
    match newer_release_available("v25.8", "latest") {
        Err(CatoolsError::ValidationError(m)) => assert!(m.contains("latest")),
        _ => panic!("expected a validation error"),
    }
}

#[test]
fn upgrade_targets() {
    assert!(matches!(upgrade_target("amd64"), UpgradeTarget::AskBootMode));
    assert!(matches!(upgrade_target("mt7621"), UpgradeTarget::Script(u) if u == SYSUP_MT7621_URL));
    assert!(matches!(upgrade_target("mt798x"), UpgradeTarget::Script(u) if u == SYSUP_MT798X_URL));
    assert!(matches!(upgrade_target("rkarm"), UpgradeTarget::Unsupported));
    assert!(matches!(upgrade_target(""), UpgradeTarget::Unsupported));
    assert_eq!(amd64_upgrade_script(0).unwrap(), SYSUP_AMD64_URL);
    assert!(amd64_upgrade_script(1).is_none());
    let p = upgrade_plan();
    assert_eq!(p.len(), 2);
    assert_eq!(p[0].command.program, "chmod");
    assert_eq!(p[0].command.args, strings(&["+x", UPGRADE_SCRIPT_PATH]));
    assert_eq!(p[1].command.program, "sh");
    assert_eq!(p[1].command.args, strings(&["/tmp/sysupgrade.sh"]));
    assert!(p[0].checked && p[1].checked);
}

#[test]
fn update_reply() {
    let r = update_info_from_reply(200, "v25.8".to_string(), "2025-08-01".to_string(), "  fix a\n\n- add b \r\n   \n");
    let info = r.unwrap();
    assert_eq!(info.version, "v25.8");
    assert_eq!(info.date, "2025-08-01");
    assert_eq!(info.changes, strings(&["fix a", "- add b"]));
    match update_info_from_reply(500, "v".to_string(), "d".to_string(), "x") {
        Err(CatoolsError::ApiError(m)) => assert_eq!(m, "API 返回错误"),
        _ => panic!("expected an API error"),
    }
    assert!(update_info_from_reply(200, String::new(), String::new(), "").unwrap().changes.is_empty());
}

#[test]
fn ping_verdicts() {
    assert_eq!(PRIMARY_PING_HOST, "223.5.5.5");
    assert_eq!(BACKUP_PING_HOST, "119.29.29.99");
    assert_eq!(ping_verdict(true, false, None), PingVerdict::Connected);
    assert_eq!(ping_verdict(true, true, Some("pppoe")), PingVerdict::Connected);
    assert_eq!(ping_verdict(false, true, None), PingVerdict::Degraded);
    assert_eq!(ping_verdict(false, false, None), PingVerdict::Failed { pppoe: false });
    assert_eq!(
        ping_verdict(false, false, Some("config interface 'wan'\n\toption proto 'pppoe'\n")),
        PingVerdict::Failed { pppoe: true }
    );
    assert_eq!(ping_verdict(false, false, Some("option proto 'dhcp'")), PingVerdict::Failed { pppoe: false });
    assert!(uses_pppoe("xpppoex"));
    assert!(!uses_pppoe("ppp oe"));
}

#[test]
fn dns_lines_and_sites() {
    let config = "config interface 'lan'\n\toption dns '223.5.5.5'\n\toption proto 'static'\n  option dns '1.1.1.1'  \n";
    assert_eq!(dns_config_lines(config), strings(&["option dns '223.5.5.5'", "option dns '1.1.1.1'"]));
    assert!(dns_config_lines("").is_empty());
    assert_eq!(tcping_sites(), vec!["cn.bing.com", "bilibili.com", "github.com", "google.com.hk"]);
}

fn empty_sources() -> DebugSources {
    DebugSources {
        banner: None,
        now: "NOW".to_string(),
        release: None,
        memory: None,
        disk: None,
        packages: None,
        syslog: None,
        dmesg: None,
        plugin_logs: Vec::new(),
        interfaces: None,
        uci_network: None,
        iptables: None,
        ip6tables: None,
        routes: None,
        routes6: None,
    }
}

#[test]
fn debug_report_assembly() {
    let r = debug_report_text(&empty_sources());
    let titles = [
        "RELEASE",
        "Memory Usage",
        "Disk Usage",
        "Application",
        "SYSLOG",
        "DMESG",
        "Plugins",
        "Network Configuration",
        "UCI Network",
        "Firewall",
        "Routing Table",
    ];
    let mut want = "NOW\n\n".to_string();
    for t in titles {
        want.push_str(&format!("## {}\n==========\n\n", t));
    }
    assert_eq!(r, want);

    let mut d = empty_sources();
    d.banner = Some("BANNER".to_string());
    d.release = Some("arch=amd64".to_string());
    d.plugin_logs = vec![("/tmp/openclash.log".to_string(), "oc".to_string())];
    d.iptables = Some("v4".to_string());
    d.ip6tables = Some("v6".to_string());
    d.routes6 = Some("r6".to_string());
    let r = debug_report_text(&d);
    assert!(r.starts_with("BANNER\nNOW\n\n## RELEASE\n==========\narch=amd64\n## Memory Usage"));
    assert!(r.contains("## Plugins\n==========\n\n--- /tmp/openclash.log ---\noc\n## Network Configuration"));
    assert!(r.contains("## Firewall\n==========\nv4v6\n"));
    assert!(r.ends_with("## Routing Table\n==========\nr6\n"));
}

#[test]
fn report_address() {
    assert_eq!(report_host(Some("192.168.1.4\n")), "192.168.1.4");
    assert_eq!(report_host(None), "192.168.1.1");
}

#[test]
fn mihomo_kernels() {
    assert_eq!(mihomo_arch("amd64"), Some("amd64"));
    assert_eq!(mihomo_arch("mt7621"), Some("mipsle-softfloat"));
    assert_eq!(mihomo_arch("mt798x"), Some("armv8"));
    assert_eq!(mihomo_arch("rkarm"), Some("armv8"));
    assert_eq!(mihomo_arch("x86"), None);
    assert_eq!(mihomo_download_url("armv8"), "https://raw.miaoer.net/Meta-Kernel/armv8/clash.meta");
    let c = make_executable(MIHOMO_KERNEL_PATH);
    assert_eq!(c.program, "chmod");
    assert_eq!(c.args, strings(&["+x", "/tmp/clash.meta"]));
}

#[test]
fn ttyd_and_ssl_plans() {
    let uci = Uci::new();
    let r = ttyd_passwordless_plan(&uci);
    assert_eq!(r.len(), 3);
    assert_eq!(r[0].args, strings(&["set", "ttyd.@ttyd[0].command=/bin/login -f root"]));
    assert_eq!(r[1].args, strings(&["commit", "ttyd"]));
    assert_eq!(r[2].program, "/etc/init.d");
    assert_eq!(r[2].args, strings(&["ttyd", "restart"]));
    let r = ssl_cert_plan(&uci);
    assert_eq!(r.len(), 4);
    assert_eq!(r[0].args, strings(&["set", "uhttpd.main.cert=/etc/uhttpd.crt"]));
    assert_eq!(r[1].args, strings(&["set", "uhttpd.main.key=/etc/uhttpd.key"]));
    assert_eq!(r[2].args, strings(&["commit", "uhttpd"]));
    assert_eq!(r[3].args, strings(&["uhttpd", "restart"]));
    assert_eq!(UHTTPD_CERT, "/etc/uhttpd.crt");
    assert_eq!(UHTTPD_KEY, "/etc/uhttpd.key");
}

#[test]
fn certificate_selection_takes_the_last_match() {
    let files = strings(&["a.pem", "readme.txt", "b.key", "chain.crt", "c.key", "d.pem.bak"]);
    assert_eq!(find_certificate_files(&files), (Some(3), Some(4)));
    assert_eq!(find_certificate_files(&strings(&["x.txt"])), (None, None));
    assert_eq!(find_certificate_files(&Vec::new()), (None, None));
    assert_eq!(find_certificate_files(&strings(&["only.key"])), (None, Some(0)));
}
