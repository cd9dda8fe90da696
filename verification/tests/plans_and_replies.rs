use catools::modules::diagnostic::{
    ping_after_backup, ping_after_config, ping_after_primary, ping_start, PingAction, PingTarget,
    PingVerdict,
};
use catools::api::json::{json_member, Json};
use catools::api::repo::{repo_source_from_json, repo_source_from_reply};
use catools::error::CatoolsError;
use catools::modules::advanced::{
    confirm_start, confirm_step, factory_reset_plan, password_reset_plan, Confirmation,
    FACTORY_RESET_CONFIRMATIONS, PASSWORD_RESET_CONFIRMATIONS, PASSWORD_RESET_SCRIPT,
    TTYD_CONFIRMATIONS,
};
use catools::modules::package::{local_ipk_install, restore_plan};
use catools::uci::network::set_ip_address;
use catools::uci::Uci;
use catools::utils::system::{checked_steps, plan_start, plan_step, restart_service, PlanNext, Step};
use catools::utils::validation::parse_version;

fn strings(v: &[&str]) -> Vec<String> {
    v.iter().map(|s| s.to_string()).collect()
}

fn fail() -> Result<String, CatoolsError> {
    Err(CatoolsError::CommandError("failed".to_string()))
}

/// Follows the plan step with the given outcome for each step; the indexes
/// of the steps that ran and the outcome.
fn follow(plan: &Vec<Step>, outs: Vec<Result<String, CatoolsError>>) -> (Vec<usize>, Result<(), CatoolsError>) {
    let mut outs: Vec<Option<Result<String, CatoolsError>>> = outs.into_iter().map(Some).collect();
    let mut ran = Vec::new();
    let mut next = plan_start(plan);
    loop {
        match next {
            PlanNext::Run(k) => {
                ran.push(k);
                next = plan_step(plan, k, outs[k].take().unwrap());
            }
            PlanNext::Stop(e) => return (ran, Err(e)),
            PlanNext::Done => return (ran, Ok(())),
        }
    }
}

#[test]
fn plan_stops_at_first_checked_failure() {
    // Setting the LAN address: the commit runs only after the set succeeded.
    let plan = checked_steps(set_ip_address(&Uci::new(), "10.0.0.1"));
    let (ran, r) = follow(&plan, vec![fail(), Ok(String::new())]);
    assert_eq!(ran, vec![0]);
    assert!(matches!(r, Err(CatoolsError::CommandError(m)) if m == "failed"));
    let (ran, r) = follow(&plan, vec![Ok(String::new()), fail()]);
    assert_eq!(ran, vec![0, 1]);
    assert!(r.is_err());
    let (ran, r) = follow(&plan, vec![Ok(String::new()), Ok(String::new())]);
    assert_eq!(ran, vec![0, 1]);
    assert!(r.is_ok());
}

#[test]
fn plan_passes_over_unchecked_failures() {
    let plan = restore_plan(&strings(&["vim", "git", "curl"]));
    assert_eq!(plan.len(), 3);
    assert!(plan.iter().all(|s| !s.checked));
    assert_eq!(plan[1].command.program, "opkg");
    assert_eq!(plan[1].command.args, strings(&["install", "git"]));
    let (ran, r) = follow(&plan, vec![fail(), fail(), Ok(String::new())]);
    assert_eq!(ran, vec![0, 1, 2]);
    assert!(r.is_ok());
    assert!(matches!(plan_start(&Vec::new()), PlanNext::Done));
    assert!(restore_plan(&Vec::new()).is_empty());
}

#[test]
fn plan_step_single_steps() {
    let plan = checked_steps(vec![restart_service("a")]);
    assert!(matches!(plan_start(&plan), PlanNext::Run(0)));
    assert!(matches!(plan_step(&plan, 0, Ok(String::new())), PlanNext::Done));
    assert!(matches!(plan_step(&plan, 0, fail()), PlanNext::Stop(_)));
}

fn confirm_all(needed: usize, answers: &[bool]) -> Confirmation {
    let mut state = confirm_start();
    let mut i = 0;
    loop {
        match state {
            Confirmation::Ask(k) => {
                assert_eq!(k, i);
                if i == answers.len() {
                    return state;
                }
                state = confirm_step(needed, k, answers[i]);
                i += 1;
            }
            other => return other,
        }
    }
}

#[test]
fn confirmations_gate_the_task() {
    assert_eq!(TTYD_CONFIRMATIONS, 2);
    assert_eq!(PASSWORD_RESET_CONFIRMATIONS, 1);
    assert_eq!(FACTORY_RESET_CONFIRMATIONS, 3);
    assert_eq!(confirm_all(2, &[true, true]), Confirmation::Proceed);
    assert_eq!(confirm_all(2, &[true, false]), Confirmation::Cancelled);
    assert_eq!(confirm_all(2, &[false]), Confirmation::Cancelled);
    assert_eq!(confirm_all(3, &[true, true, true]), Confirmation::Proceed);
    assert_eq!(confirm_all(3, &[true, true]), Confirmation::Ask(2));
    assert_eq!(confirm_all(1, &[true]), Confirmation::Proceed);
    assert_eq!(confirm_step(3, 0, true), Confirmation::Ask(1));
}

#[test]
fn reset_plans() {
    let p = factory_reset_plan();
    assert_eq!(p.len(), 2);
    assert_eq!(p[0].command.program, "firstboot");
    assert_eq!(p[0].command.args, strings(&["-y"]));
    assert!(p[0].checked);
    assert_eq!(p[1].command.program, "reboot");
    assert!(p[1].command.args.is_empty());
    assert!(!p[1].checked);
    let p = password_reset_plan();
    assert_eq!(p[0].command.args, strings(&["+x", "/tmp/reset_passwd.sh"]));
    assert_eq!(p[1].command.program, "sh");
    assert!(p[0].checked && p[1].checked);
    assert_eq!(PASSWORD_RESET_SCRIPT, "#!/bin/sh\necho \"root:password\" | chpasswd\n");
}

#[test]
fn local_package_file() {
    let c = local_ipk_install(true, "/tmp/x.ipk").unwrap();
    assert_eq!(c.program, "opkg");
    assert_eq!(c.args, strings(&["install", "/tmp/x.ipk"]));
    assert!(local_ipk_install(false, "/tmp/x.ipk").is_none());
}

fn obj(members: Vec<(&str, Json)>) -> Json {
    Json::Object(members.into_iter().map(|(k, v)| (k.to_string(), v)).collect())
}

fn text(s: &str) -> Json {
    Json::Str(s.to_string())
}

#[test]
fn repo_source_from_values() {
    let entry = obj(vec![("beta", Json::Bool(true)), ("url", text("https://m/x")), ("note", Json::Null)]);
    let root = obj(vec![("amd64", obj(vec![("v25.8", entry)]))]);
    let s = repo_source_from_json(&root, "amd64", "v25.8").unwrap().unwrap();
    assert_eq!(s.url, "https://m/x");
    assert!(s.beta);
    assert!(repo_source_from_json(&root, "amd64", "v24.1").unwrap().is_none());
    assert!(repo_source_from_json(&root, "mt7621", "v25.8").unwrap().is_none());
    assert!(repo_source_from_json(&Json::Array(Vec::new()), "amd64", "v25.8").unwrap().is_none());
    assert!(json_member(&root, "amd64").is_some());
    assert!(json_member(&text("amd64"), "amd64").is_none());

    let root = obj(vec![("rkarm", obj(vec![("v1", obj(vec![("url", text("u"))]))]))]);
    let s = repo_source_from_json(&root, "rkarm", "v1").unwrap().unwrap();
    assert!(!s.beta);

    let root = obj(vec![("a", obj(vec![("v", obj(vec![("beta", Json::Bool(false))]))]))]);
    match repo_source_from_json(&root, "a", "v") {
        Err(CatoolsError::ApiError(m)) => assert_eq!(m, "解析软件源配置失败: missing field `url`"),
        _ => panic!("expected an API error"),
    }
    let root = obj(vec![("a", obj(vec![("v", obj(vec![("url", Json::Number("5".to_string()))]))]))]);
    assert!(matches!(repo_source_from_json(&root, "a", "v"), Err(CatoolsError::ApiError(_))));
    let root = obj(vec![("a", obj(vec![("v", obj(vec![("url", text("u")), ("beta", text("yes"))]))]))]);
    assert!(matches!(repo_source_from_json(&root, "a", "v"), Err(CatoolsError::ApiError(_))));
    let root = obj(vec![("a", obj(vec![("v", text("u"))]))]);
    assert!(matches!(repo_source_from_json(&root, "a", "v"), Err(CatoolsError::ApiError(_))));

    let root = obj(vec![("a", obj(vec![("v", Json::Array(vec![text("u"), Json::Bool(true)]))]))]);
    let s = repo_source_from_json(&root, "a", "v").unwrap().unwrap();
    assert_eq!(s.url, "u");
    assert!(s.beta);
    let root = obj(vec![("a", obj(vec![("v", Json::Array(vec![text("u")]))]))]);
    assert!(!repo_source_from_json(&root, "a", "v").unwrap().unwrap().beta);
    let root = obj(vec![("a", obj(vec![("v", Json::Array(vec![]))]))]);
    assert!(repo_source_from_json(&root, "a", "v").is_err());
    let root = obj(vec![("a", obj(vec![("v", Json::Array(vec![text("u"), Json::Bool(true), Json::Null]))]))]);
    assert!(repo_source_from_json(&root, "a", "v").is_err());
}

#[test]
fn repo_source_from_text() {
    let body = r#"{"amd64": {"v25.8": {"url": "https://mirror.example/history/v25.8", "beta": true}}, "mt7621": {}}"#;
    let s = repo_source_from_reply(body, "amd64", "v25.8").unwrap().unwrap();
    assert_eq!(s.url, "https://mirror.example/history/v25.8");
    assert!(s.beta);
    assert!(repo_source_from_reply(body, "mt7621", "v25.8").unwrap().is_none());
    let s = repo_source_from_reply(r#"{"a": {"v": {"url": "u"}}}"#, "a", "v").unwrap().unwrap();
    assert_eq!(s.url, "u");
    assert!(!s.beta);
    match repo_source_from_reply("not json", "a", "v") {
        Err(CatoolsError::ApiError(m)) => assert!(m.starts_with("解析软件源配置失败: ") && m.len() > "解析软件源配置失败: ".len()),
        _ => panic!("expected an API error"),
    }
    assert!(repo_source_from_reply(r#"{"a": {"v": {"beta": true}}}"#, "a", "v").is_err());
}

#[test]
fn versions_round_trip() {
    for (text, y, m) in [("v25.8", 25, 8), ("v05.10", 5, 10), ("v99.99", 99, 99), ("v00.0", 0, 0)] {
        assert_eq!(parse_version(text).unwrap(), (y, m));
        assert_eq!(format!("v{:02}.{}", y, m), text);
    }
    for y in [0u32, 7, 24, 99] {
        for m in [0u32, 1, 9, 10, 12, 99] {
            let t = format!("v{:02}.{}", y, m);
            assert_eq!(parse_version(&t).unwrap(), (y, m));
        }
    }
}

fn entry_error(entry: Json) -> String {
    let root = obj(vec![("a", obj(vec![("v", entry)]))]);
    match repo_source_from_json(&root, "a", "v") {
        Err(CatoolsError::ApiError(m)) => m,
        _ => panic!("expected an API error"),
    }
}

fn serde_string_error(v: serde_json::Value) -> String {
    serde_json::from_value::<String>(v).unwrap_err().to_string()
}

fn serde_bool_error(v: serde_json::Value) -> String {
    serde_json::from_value::<bool>(v).unwrap_err().to_string()
}

#[test]
fn entry_errors_read_as_serde_words_them() {
    let p = "解析软件源配置失败: ";
    assert_eq!(
        entry_error(obj(vec![("url", Json::Number("5".to_string()))])),
        format!("{}{}", p, serde_string_error(serde_json::Value::from(5)))
    );
    assert_eq!(
        entry_error(obj(vec![("url", Json::Number("-3".to_string()))])),
        format!("{}{}", p, serde_string_error(serde_json::Value::from(-3)))
    );
    assert_eq!(
        entry_error(obj(vec![("url", Json::Number("1.5".to_string()))])),
        format!("{}{}", p, serde_string_error(serde_json::from_str("1.5").unwrap()))
    );
    assert_eq!(
        entry_error(obj(vec![("url", Json::Null)])),
        format!("{}{}", p, serde_string_error(serde_json::Value::Null))
    );
    assert_eq!(
        entry_error(obj(vec![("url", Json::Bool(true))])),
        format!("{}{}", p, serde_string_error(serde_json::Value::Bool(true)))
    );
    assert_eq!(
        entry_error(obj(vec![("url", Json::Array(Vec::new()))])),
        format!("{}{}", p, serde_string_error(serde_json::from_str("[]").unwrap()))
    );
    assert_eq!(
        entry_error(obj(vec![("url", obj(Vec::new()))])),
        format!("{}{}", p, serde_string_error(serde_json::from_str("{}").unwrap()))
    );
    assert_eq!(
        entry_error(obj(vec![("beta", text("y\"es")), ("url", text("u"))])),
        format!("{}{}", p, serde_bool_error(serde_json::Value::from("y\"es")))
    );
    assert_eq!(
        entry_error(obj(vec![("url", text("u")), ("url", text("w"))])),
        format!("{}duplicate field `url`", p)
    );
    assert_eq!(entry_error(obj(Vec::new())), format!("{}missing field `url`", p));
    assert_eq!(
        entry_error(text("u")),
        format!("{}invalid type: string \"u\", expected struct RepoSource", p)
    );
    assert_eq!(
        entry_error(Json::Array(vec![text("u"), Json::Bool(true), Json::Null])),
        format!("{}invalid length 3, expected fewer elements in array", p)
    );
    assert_eq!(
        entry_error(Json::Array(Vec::new())),
        format!("{}invalid length 0, expected struct RepoSource with 2 elements", p)
    );
    assert_eq!(
        entry_error(Json::Array(vec![text("u"), Json::Number("1".to_string())])),
        format!("{}invalid type: integer `1`, expected a boolean", p)
    );
}

#[test]
fn reply_errors_read_as_serde_words_them() {
    let body = r#"{"a": {"v": {"url": 7}}}"#;
    match repo_source_from_reply(body, "a", "v") {
        Err(CatoolsError::ApiError(m)) => {
            assert_eq!(m, "解析软件源配置失败: invalid type: integer `7`, expected a string")
        }
        _ => panic!("expected an API error"),
    }
    let body = r#"{"a": {"v": ["u", true, 1, 2]}}"#;
    match repo_source_from_reply(body, "a", "v") {
        Err(CatoolsError::ApiError(m)) => {
            assert_eq!(m, "解析软件源配置失败: invalid length 4, expected fewer elements in array")
        }
        _ => panic!("expected an API error"),
    }
}

#[test]
fn ping_steps() {
    assert_eq!(ping_start(), PingAction::Ping(PingTarget::Primary));
    assert_eq!(ping_after_primary(true), PingAction::Report(PingVerdict::Connected));
    assert_eq!(ping_after_primary(false), PingAction::Ping(PingTarget::Backup));
    assert_eq!(ping_after_backup(true), PingAction::Report(PingVerdict::Degraded));
    assert_eq!(ping_after_backup(false), PingAction::ReadConfig);
    assert_eq!(
        ping_after_config(Some("option proto 'pppoe'")),
        PingAction::Report(PingVerdict::Failed { pppoe: true })
    );
    assert_eq!(ping_after_config(None), PingAction::Report(PingVerdict::Failed { pppoe: false }));
}
