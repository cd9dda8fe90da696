use catools::api::repo::RepoSource;
use catools::constants::{beta_mirror_options, common_packages, mirror_options, BACKUP_FILE};
use catools::error::CatoolsError;
use catools::modules::package::{
    apply_repo, backup_list, contains_text, installed_packages, ipk_download_path, ipk_file_name,
    ipk_source, opkg_install, package_menu_choice, packages_to_restore, trim_end_char_str,
    IpkSource, PackageMenuChoice, RepoAction, RepoEvent, RepoNotice, RepoPrompt, RepoQuestion,
    RepoState,
};
use catools::text::join_with;

const OPKG: &str = "luci-app-openclash - 0.46.011\nbase-files - 1583\nttyd - 1.7.3-1\r\n\n  curl - 8.5.0-1\nluci-app-ssr-plus - 189-1\n";

fn strings(v: &[&str]) -> Vec<String> {
    v.iter().map(|s| s.to_string()).collect()
}

#[test]
fn installed_names_are_first_words() {
    assert_eq!(
        installed_packages(OPKG),
        strings(&["luci-app-openclash", "base-files", "ttyd", "curl", "luci-app-ssr-plus"])
    );
    assert!(installed_packages("").is_empty());
    assert!(installed_packages("\n \n").is_empty());
}

#[test]
fn contains_text_looks_for_exact_entries() {
    let v = strings(&["ttyd", "curl"]);
    assert!(contains_text(&v, "curl"));
    assert!(!contains_text(&v, "cur"));
    assert!(!contains_text(&Vec::new(), "curl"));
}

#[test]
fn backup_keeps_common_order() {
    let common = strings(&["luci-app-ssr-plus", "luci-app-passwall", "luci-app-openclash", "ttyd", "curl"]);
    assert_eq!(
        backup_list(&common, OPKG),
        strings(&["luci-app-ssr-plus", "luci-app-openclash", "ttyd", "curl"])
    );
    assert!(backup_list(&common, "").is_empty());
}

#[test]
fn common_package_list() {
    let c = common_packages();
    assert_eq!(c.first().map(|s| s.as_str()), Some("luci-app-ssr-plus"));
    assert_eq!(c.last().map(|s| s.as_str()), Some("smartmontools"));
    assert!(c.iter().all(|p| !p.is_empty() && !p.contains(' ')));
    assert!(c.iter().any(|p| p == "luci-app-LingTiGameAcc"));
    assert_eq!(BACKUP_FILE, "/etc/catwrt_opkg_list_installed");
}

#[test]
fn restore_lists_missing_packages_once() {
    let backup = "ttyd\n  docker \n\nvim\ndocker\r\nttyd\n";
    assert_eq!(packages_to_restore(backup, OPKG), strings(&["docker", "vim"]));
    assert!(packages_to_restore("", OPKG).is_empty());
    assert_eq!(packages_to_restore("a\nb", ""), strings(&["a", "b"]));
}

#[test]
fn restore_after_backup_installs_nothing() {
    let common = common_packages();
    let selected = backup_list(&common, OPKG);
    let content = join_with(&selected, "\n");
    assert_eq!(content, "luci-app-ssr-plus\nluci-app-openclash\nttyd\ncurl");
    assert!(packages_to_restore(&content, OPKG).is_empty());
}

#[test]
fn join_with_separators() {
    assert_eq!(join_with(&strings(&["a", "b", "c"]), ", "), "a, b, c");
    assert_eq!(join_with(&strings(&["a"]), "\n"), "a");
    assert_eq!(join_with(&Vec::new(), "\n"), "");
}

#[test]
fn package_menu_and_install() {
    assert_eq!(package_menu_choice(0), PackageMenuChoice::Backup);
    assert_eq!(package_menu_choice(1), PackageMenuChoice::Restore);
    assert_eq!(package_menu_choice(2), PackageMenuChoice::Back);
    assert_eq!(package_menu_choice(7), PackageMenuChoice::Back);
    let c = opkg_install("vim");
    assert_eq!(c.program, "opkg");
    assert_eq!(c.args, strings(&["install", "vim"]));
}

#[test]
fn ipk_sources_and_paths() {
    assert_eq!(ipk_source(0), IpkSource::LocalFile);
    assert_eq!(ipk_source(1), IpkSource::Download);
    assert_eq!(ipk_source(2), IpkSource::Back);
    assert_eq!(ipk_source(9), IpkSource::Back);
    assert_eq!(ipk_file_name("https://example.com/pkgs/foo_1.0_all.ipk"), "foo_1.0_all.ipk");
    assert_eq!(ipk_file_name("foo.ipk"), "foo.ipk");
    assert_eq!(ipk_file_name("https://example.com/dir/"), "");
    assert_eq!(ipk_download_path("https://example.com/pkgs/foo.ipk"), "/tmp/foo.ipk");
}

#[test]
fn trailing_characters_removed() {
    assert_eq!(trim_end_char_str("https://a/b///", '/'), "https://a/b");
    assert_eq!(trim_end_char_str("abc", '/'), "abc");
    assert_eq!(trim_end_char_str("///", '/'), "");
}

#[test]
fn mirror_lists() {
    assert_eq!(mirror_options().len(), 6);
    assert_eq!(mirror_options()[3], "Netlify (默认)");
    assert_eq!(beta_mirror_options(), vec!["netlify", "vercel (默认)"]);
}

fn step(s: RepoState, e: RepoEvent) -> (RepoState, Vec<RepoNotice>, RepoAction) {
    apply_repo(s, e)
}

#[test]
fn repo_dialogue_stable_mirror() {
    let (s, ns, a) = step(RepoState::Start, RepoEvent::Begin);
    assert!(matches!(ns.as_slice(), [RepoNotice::Heading]));
    assert!(matches!(&a, RepoAction::ReadFile(f) if f == "/etc/catwrt_release"));
    let (s, ns, a) = step(s, RepoEvent::File(Some("arch=mt7621\nversion=v24.9\n".to_string())));
    assert!(matches!(&ns[0], RepoNotice::Release { arch, version } if arch == "mt7621" && version == "v24.9"));
    assert!(matches!(&a, RepoAction::FetchSource { arch, version } if arch == "mt7621" && version == "v24.9"));
    let (s, ns, a) = step(s, RepoEvent::Source(None));
    assert!(matches!(ns.as_slice(), [RepoNotice::Terms]));
    assert!(matches!(a, RepoAction::Ask(RepoPrompt::Confirm { question: RepoQuestion::Consent, default: true })));
    let (s, ns, a) = step(s, RepoEvent::Confirmed(true));
    assert!(matches!(ns.as_slice(), [RepoNotice::ChooseMirror]));
    assert!(matches!(a, RepoAction::Ask(RepoPrompt::Select { question: RepoQuestion::Mirror, default: 3 })));
    let (s, ns, a) = step(s, RepoEvent::Selected(1));
    let url = "https://raw.miaoer.net/cattools/repo/mt7621/github.conf";
    assert!(matches!(&ns[0], RepoNotice::Downloading(u) if u == url));
    assert!(matches!(&a, RepoAction::CheckUrl(u) if u == url));
    let (s, _, a) = step(s, RepoEvent::Exists(true));
    assert!(matches!(&a, RepoAction::Apply(u) if u == url));
    let (s, ns, a) = step(s, RepoEvent::Done(Ok(())));
    assert!(matches!(ns.as_slice(), [RepoNotice::Ready]));
    assert!(matches!(a, RepoAction::Finish(Ok(()))));
    assert!(matches!(s, RepoState::Finished));
}

#[test]
fn repo_dialogue_fallback_release_and_beta_source() {
    let (s, _, _) = step(RepoState::Start, RepoEvent::Begin);
    let (s, ns, _) = step(s, RepoEvent::File(None));
    assert!(matches!(&ns[0], RepoNotice::Release { arch, version } if arch == "amd64" && version == "v25.8"));
    let src = RepoSource { url: "https://mirror.example/history/v24.3/".to_string(), beta: true };
    let (s, _, _) = step(s, RepoEvent::Source(Some(src)));
    let (s, ns, a) = step(s, RepoEvent::Confirmed(true));
    assert!(matches!(ns.as_slice(), [RepoNotice::BetaOnly]));
    assert!(matches!(a, RepoAction::Ask(RepoPrompt::Select { question: RepoQuestion::BetaMirror, default: 1 })));
    let (s, _, a) = step(s, RepoEvent::Selected(0));
    assert!(matches!(&a, RepoAction::CheckUrl(u) if u == "https://mirror.example/history/v24.3/netlify.conf"));
    let (s, ns, a) = step(s, RepoEvent::Exists(false));
    let fallback = "https://raw.miaoer.net/cattools/repo/amd64/netlify.conf";
    assert!(matches!(&ns[0], RepoNotice::HistoryFallback(f) if f == fallback));
    assert!(matches!(&a, RepoAction::CheckUrl(u) if u == fallback));
    let (s, ns, a) = step(s, RepoEvent::Exists(true));
    assert!(matches!(ns.as_slice(), [RepoNotice::UsingFallback]));
    assert!(matches!(&a, RepoAction::Apply(u) if u == fallback));
    let (_, ns, a) = step(s, RepoEvent::Done(Err(CatoolsError::ApiError("x".to_string()))));
    assert!(ns.is_empty());
    assert!(matches!(a, RepoAction::Finish(Err(CatoolsError::ApiError(_)))));
}

#[test]
fn repo_dialogue_missing_list_is_an_error() {
    let (s, _, _) = step(RepoState::Start, RepoEvent::Begin);
    let (s, _, _) = step(s, RepoEvent::File(Some("version=v25.8-beta\n".to_string())));
    let (s, _, _) = step(s, RepoEvent::Source(None));
    let (s, ns, _) = step(s, RepoEvent::Confirmed(true));
    // "beta" in the version makes the default source a beta one.
    assert!(matches!(ns.as_slice(), [RepoNotice::BetaOnly]));
    let (s, _, _) = step(s, RepoEvent::Selected(1));
    let (s, ns, a) = step(s, RepoEvent::Exists(false));
    assert!(ns.is_empty());
    match a {
        RepoAction::Finish(Err(CatoolsError::ApiError(m))) => assert_eq!(
            m,
            "repo conf 不存在: https://raw.miaoer.net/cattools/repo/amd64/vercel.conf"
        ),
        _ => panic!("expected an API error"),
    }
    assert!(matches!(s, RepoState::Finished));
}

#[test]
fn repo_dialogue_support_code() {
    let (s, _, _) = step(RepoState::Start, RepoEvent::Begin);
    let (s, _, _) = step(s, RepoEvent::File(Some("arch=rkarm\nversion=v25.8\n".to_string())));
    let (s, _, _) = step(s, RepoEvent::Source(None));
    let (s, _, _) = step(s, RepoEvent::Confirmed(true));
    let (s, ns, a) = step(s, RepoEvent::Selected(0));
    assert!(matches!(ns.as_slice(), [RepoNotice::Sponsor]));
    assert!(matches!(a, RepoAction::Ask(RepoPrompt::Input { question: RepoQuestion::SupportCode })));
    let (s2, ns, a) = step(s, RepoEvent::Text("wrong".to_string()));
    assert!(matches!(ns.as_slice(), [RepoNotice::InvalidCode, RepoNotice::Heading]));
    assert!(matches!(&a, RepoAction::ReadFile(_)));
    assert!(matches!(s2, RepoState::AwaitRelease));
    let (s, _, _) = step(s2, RepoEvent::File(Some("arch=rkarm\nversion=v25.8\n".to_string())));
    let (s, _, _) = step(s, RepoEvent::Source(None));
    let (s, _, _) = step(s, RepoEvent::Confirmed(true));
    let (s, _, _) = step(s, RepoEvent::Selected(0));
    let (_, _, a) = step(s, RepoEvent::Text("cat666".to_string()));
    assert!(matches!(&a, RepoAction::CheckUrl(u) if u == "https://raw.miaoer.net/cattools/repo/rkarm/distfeeds.conf"));
}

#[test]
fn repo_dialogue_declined_or_failed() {
    let (s, _, _) = step(RepoState::Start, RepoEvent::Begin);
    let (s, _, _) = step(s, RepoEvent::File(None));
    let (s, _, _) = step(s, RepoEvent::Source(None));
    let (s, ns, a) = step(s, RepoEvent::Confirmed(false));
    assert!(matches!(ns.as_slice(), [RepoNotice::Cancelled]));
    assert!(matches!(a, RepoAction::Finish(Ok(()))));
    assert!(matches!(s, RepoState::Finished));
    let (s, _, _) = step(RepoState::Start, RepoEvent::Begin);
    let (s, _, _) = step(s, RepoEvent::File(None));
    let (s, _, _) = step(s, RepoEvent::Source(None));
    let (s, _, _) = step(s, RepoEvent::Confirmed(true));
    let (_, _, a) = step(s, RepoEvent::Failed(CatoolsError::ValidationError("no tty".to_string())));
    assert!(matches!(a, RepoAction::Finish(Err(CatoolsError::ValidationError(_)))));
}

#[test]
fn repo_dialogue_other_mirrors() {
    let expect = [
        (2, "cfnetlify.conf"),
        (3, "netlify.conf"),
        (4, "cfvercel.conf"),
        (5, "vercel.conf"),
        (6, "netlify.conf"),
    ];
    for (i, conf) in expect {
        let (s, _, _) = step(RepoState::Start, RepoEvent::Begin);
        let (s, _, _) = step(s, RepoEvent::File(None));
        let (s, _, _) = step(s, RepoEvent::Source(Some(RepoSource { url: "https://m.example/x".to_string(), beta: false })));
        let (s, _, _) = step(s, RepoEvent::Confirmed(true));
        let (_, _, a) = step(s, RepoEvent::Selected(i));
        let want = format!("https://m.example/x/{}", conf);
        assert!(matches!(&a, RepoAction::CheckUrl(u) if *u == want));
    }
}
