use clos_monitor::checks::{
    backend_health, check_console_text, frontend_ok, health_verdict, collect_container_failures, dev_check_result, docker_unavailable_result,
    environment_failures, notice_text, plan_alerts, scoped_check_result, target_label,
    AlertNotice, AlertState, BackendProbe, CheckResult, FrontendProbe,
};
use clos_monitor::config::{Config, Environment, MonitorScope};
use clos_monitor::docker::{ContainerInfo, ContainerStatus, HealthStatus};

fn config_of(pairs: &[(&str, &str)]) -> Config {
    Config::from_env(&Environment {
        vars: pairs
            .iter()
            .map(|(k, v)| (k.to_string(), v.to_string()))
            .collect(),
    })
}

fn alerting_config() -> Config {
    config_of(&[
        ("TELEGRAM_BOT_TOKEN", "token"),
        ("TELEGRAM_CHAT_ID", "42"),
        ("MONITOR_PROD_DOMAIN", "prod.example"),
        ("MONITOR_STAGING_DOMAIN", "stage.example"),
    ])
}

fn strings(v: &[&str]) -> Vec<String> {
    v.iter().map(|s| s.to_string()).collect()
}

fn result(server: bool, prod: bool, staging: bool) -> CheckResult {
    CheckResult {
        server_ok: server,
        prod_ok: prod,
        staging_ok: staging,
        prod_monitored: true,
        staging_monitored: true,
        server_failures: if server { vec![] } else { strings(&["Low memory"]) },
        prod_failures: if prod { vec![] } else { strings(&["Frontend unreachable"]) },
        staging_failures: if staging { vec![] } else { strings(&["Backend: HTTP 502"]) },
    }
}

fn info(name: &str, status: ContainerStatus, health: HealthStatus) -> ContainerInfo {
    ContainerInfo { name: name.to_string(), status, health }
}

fn describe(n: &AlertNotice) -> String {
    match n {
        AlertNotice::Failure { target, failures } => format!("fail {} {:?}", target, failures),
        AlertNotice::Resolved { target } => format!("ok {}", target),
    }
}

#[test]
fn all_ok_and_failures() {
    let r = result(true, true, true);
    assert!(r.all_ok());
    assert!(!r.has_failures());
    let s = result(true, false, true);
    assert!(!s.all_ok());
    assert!(s.has_failures());
}

#[test]
fn container_failure_lines() {
    let mut f = Vec::new();
    collect_container_failures(&info("app_db", ContainerStatus::Running, HealthStatus::Healthy), &mut f);
    collect_container_failures(&info("app_web", ContainerStatus::Running, HealthStatus::Unhealthy), &mut f);
    assert!(f.is_empty());
    collect_container_failures(&info("app_db", ContainerStatus::Running, HealthStatus::Unhealthy), &mut f);
    collect_container_failures(&info("app_db", ContainerStatus::Running, HealthStatus::Starting), &mut f);
    collect_container_failures(&info("app_db", ContainerStatus::Running, HealthStatus::NoHealthcheck), &mut f);
    collect_container_failures(&info("web", ContainerStatus::Exited, HealthStatus::NoHealthcheck), &mut f);
    collect_container_failures(&info("web", ContainerStatus::Restarting, HealthStatus::NoHealthcheck), &mut f);
    collect_container_failures(&info("web", ContainerStatus::Dead, HealthStatus::NoHealthcheck), &mut f);
    collect_container_failures(&info("web", ContainerStatus::Paused, HealthStatus::NoHealthcheck), &mut f);
    collect_container_failures(
        &info("web", ContainerStatus::Other("created".to_string()), HealthStatus::NoHealthcheck),
        &mut f,
    );
    assert_eq!(
        f,
        vec![
            "app_db: DB unhealthy",
            "app_db: DB still starting",
            "app_db: DB health unknown",
            "web: container exited",
            "web: container restarting",
            "web: container dead",
            "web: container paused",
            "web: status=created",
        ]
    );
}

fn reply(code: u16, status: &str, body: Result<&str, &str>) -> BackendProbe {
    BackendProbe::Reply {
        code,
        status: status.to_string(),
        body: body.map(|b| b.to_string()).map_err(|e| e.to_string()),
    }
}

#[test]
fn backend_health_verdicts() {
    assert_eq!(backend_health(&reply(200, "200 OK", Ok("{\"status\":\"ok\"}"))), Ok(()));
    assert_eq!(
        backend_health(&reply(200, "200 OK", Ok(" { \"db\": true, \"status\" : \"ok\" } "))),
        Ok(())
    );
    assert_eq!(
        backend_health(&reply(200, "200 OK", Ok("{\"state\":\"ok\"}"))),
        Err("invalid health response".to_string())
    );
    assert_eq!(
        backend_health(&reply(200, "200 OK", Ok("{\"status\":\"down\"}"))),
        Err("invalid health response".to_string())
    );
    // A body that merely mentions "status" and ok is not a healthy reply.
    assert_eq!(
        backend_health(&reply(200, "200 OK", Ok("{\"status\":\"broken\",\"note\":\"ok\"}"))),
        Err("invalid health response".to_string())
    );
    assert_eq!(
        backend_health(&reply(200, "200 OK", Ok("status ok"))),
        Err("invalid health response".to_string())
    );
    assert_eq!(
        backend_health(&reply(200, "200 OK", Ok("{\"status\":true}"))),
        Err("invalid health response".to_string())
    );
    assert_eq!(
        backend_health(&reply(503, "503 Service Unavailable", Ok("{\"status\":\"ok\"}"))),
        Err("HTTP 503 Service Unavailable".to_string())
    );
    assert_eq!(
        backend_health(&reply(204, "204 No Content", Ok(""))),
        Err("HTTP 204 No Content".to_string())
    );
    assert_eq!(
        backend_health(&BackendProbe::Unreachable("connection refused".to_string())),
        Err("unreachable: connection refused".to_string())
    );
    assert_eq!(
        backend_health(&reply(200, "200 OK", Err("eof"))),
        Err("read error: eof".to_string())
    );
}

#[test]
fn health_verdict_on_parsed_field() {
    let ok = reply(200, "200 OK", Ok("ignored"));
    assert_eq!(health_verdict(&ok, Some("ok")), Ok(()));
    assert_eq!(health_verdict(&ok, Some("broken")), Err("invalid health response".to_string()));
    assert_eq!(health_verdict(&ok, None), Err("invalid health response".to_string()));
    assert_eq!(
        health_verdict(&reply(500, "500 Internal Server Error", Ok("")), Some("ok")),
        Err("HTTP 500 Internal Server Error".to_string())
    );
}

#[test]
fn frontend_needs_200() {
    assert!(frontend_ok(&FrontendProbe::Reply(200)));
    assert!(!frontend_ok(&FrontendProbe::Reply(204)));
    assert!(!frontend_ok(&FrontendProbe::Reply(502)));
    assert!(!frontend_ok(&FrontendProbe::Unreachable("refused".to_string())));
}

#[test]
fn environment_failure_order() {
    let containers = Ok(vec![
        info("x_db", ContainerStatus::Running, HealthStatus::Healthy),
        info("x_web", ContainerStatus::Exited, HealthStatus::NoHealthcheck),
    ]);
    let f = environment_failures(&containers, &Err("HTTP 500".to_string()), false);
    assert_eq!(f, vec!["x_web: container exited", "Backend: HTTP 500", "Frontend unreachable"]);
    let g = environment_failures(&Err("socket gone".to_string()), &Ok(()), true);
    assert_eq!(g, vec!["Docker inspect failed: socket gone"]);
    let h = environment_failures(&Ok(vec![]), &Ok(()), true);
    assert!(h.is_empty());
}

#[test]
fn dev_results() {
    let r = dev_check_result(vec![], &Err("unreachable: x".to_string()), true);
    assert!(r.server_ok);
    assert!(!r.prod_ok);
    assert!(r.staging_ok);
    assert!(r.prod_monitored);
    assert!(!r.staging_monitored);
    assert_eq!(r.prod_failures, vec!["Backend: unreachable: x"]);
    let s = dev_check_result(strings(&["Low memory"]), &Ok(()), true);
    assert!(!s.server_ok);
    assert!(s.prod_ok);
}

#[test]
fn docker_down_fails_every_environment() {
    let r = docker_unavailable_result(MonitorScope::Prod, vec![], "no socket");
    assert!(!r.prod_ok && !r.staging_ok);
    assert!(r.prod_monitored);
    assert!(!r.staging_monitored);
    assert_eq!(r.prod_failures, vec!["Docker connection failed: no socket"]);
    assert_eq!(r.staging_failures, vec!["Docker connection failed: no socket"]);
}

#[test]
fn scope_outside_counts_as_fine() {
    let r = scoped_check_result(MonitorScope::Staging, vec![], strings(&["ignored"]), vec![]);
    assert!(r.prod_ok);
    assert!(!r.prod_monitored);
    assert!(r.prod_failures.is_empty());
    assert!(r.staging_ok);
    assert!(!r.has_failures());
    assert!(r.all_ok());
    let p = scoped_check_result(MonitorScope::Prod, vec![], vec![], strings(&["ignored"]));
    assert!(p.staging_failures.is_empty() && p.staging_ok && !p.has_failures());
    let s = scoped_check_result(MonitorScope::Both, vec![], vec![], strings(&["bad"]));
    assert!(s.prod_ok);
    assert!(!s.staging_ok);
}

#[test]
fn status_messages() {
    let r = CheckResult {
        server_ok: false,
        prod_ok: true,
        staging_ok: true,
        prod_monitored: true,
        staging_monitored: false,
        server_failures: strings(&["Low memory"]),
        prod_failures: vec![],
        staging_failures: vec![],
    };
    assert_eq!(
        r.format_status_at("2024-01-01 00:00:00 UTC"),
        "<b>ClosLamartine Monitor — Status</b>\nTime: 2024-01-01 00:00:00 UTC\n\n<b>Server:</b> ❌\n  • Low memory\n<b>Production:</b> ✅ OK\n<b>Staging:</b> ℹ️ Not monitored\n"
    );
    assert_eq!(
        r.format_status_prod_at("T"),
        "<b>Production status</b>\nTime: T\n\n✅ OK"
    );
    assert_eq!(
        r.format_status_staging_at("T"),
        "<b>Staging status</b>\nTime: T\n\nℹ️ Not monitored by this instance"
    );
    let s = result(true, false, true);
    assert_eq!(
        s.format_status_prod_at("T"),
        "<b>Production status</b>\nTime: T\n\n• Frontend unreachable\n"
    );
    let live = r.format_status();
    assert!(live.starts_with("<b>ClosLamartine Monitor — Status</b>\nTime: "));
    assert!(live.ends_with("<b>Staging:</b> ℹ️ Not monitored\n"));
}

#[test]
fn target_labels() {
    let c = alerting_config();
    assert_eq!(target_label(&c, "production"), "production (prod.example)");
    assert_eq!(target_label(&c, "staging"), "staging (stage.example)");
    assert_eq!(target_label(&c, "server"), "server");
}

#[test]
fn first_run_reports_current_failures() {
    let c = alerting_config();
    let mut state = AlertState::default();
    let notices = plan_alerts(&c, &result(false, true, false), &mut state);
    let d: Vec<String> = notices.iter().map(describe).collect();
    assert_eq!(
        d,
        vec![
            "fail server [\"Low memory\"]".to_string(),
            "fail staging (stage.example) [\"Backend: HTTP 502\"]".to_string(),
        ]
    );
}

#[test]
fn alerts_are_not_repeated() {
    let c = alerting_config();
    let mut state = AlertState::default();
    let failing = result(false, false, true);
    assert_eq!(plan_alerts(&c, &failing, &mut state).len(), 2);
    assert!(plan_alerts(&c, &failing, &mut state).is_empty());
    assert!(plan_alerts(&c, &failing, &mut state).is_empty());
}

#[test]
fn alerts_on_state_changes_only() {
    let c = alerting_config();
    let mut state = AlertState::default();
    plan_alerts(&c, &result(true, true, true), &mut state);
    let down = plan_alerts(&c, &result(true, false, true), &mut state);
    let d: Vec<String> = down.iter().map(describe).collect();
    assert_eq!(d, vec!["fail production (prod.example) [\"Frontend unreachable\"]".to_string()]);
    let up = plan_alerts(&c, &result(true, true, true), &mut state);
    let u: Vec<String> = up.iter().map(describe).collect();
    assert_eq!(u, vec!["ok production (prod.example)".to_string()]);
    let server = plan_alerts(&c, &result(false, true, true), &mut state);
    let s: Vec<String> = server.iter().map(describe).collect();
    assert_eq!(s, vec!["fail server [\"Low memory\"]".to_string()]);
}

#[test]
fn unmonitored_environment_gets_no_alert() {
    let c = alerting_config();
    let mut state = AlertState::default();
    let mut r = result(true, false, true);
    r.prod_monitored = false;
    assert!(plan_alerts(&c, &r, &mut state).is_empty());
}

#[test]
fn no_alerts_without_telegram() {
    let c = config_of(&[("TELEGRAM_BOT_TOKEN", "t"), ("TELEGRAM_ALLOWED_CHAT_IDS", "1")]);
    let mut state = AlertState::default();
    assert!(plan_alerts(&c, &result(false, false, false), &mut state).is_empty());
    // The state is left as it was: once the chat is configured, the first run reports.
    let d = alerting_config();
    assert_eq!(plan_alerts(&d, &result(false, true, true), &mut state).len(), 1);
}

#[test]
fn notice_texts() {
    let f = AlertNotice::Failure { target: "server".to_string(), failures: strings(&["a", "b"]) };
    let t = notice_text(&f);
    assert!(t.starts_with("<b>ClosLamartine Monitor Alert</b>\nTarget: <code>server</code>\nTime: "));
    assert!(t.ends_with(" UTC\n\n<b>Failures:</b>\n• a\n• b\n"));
    let r = AlertNotice::Resolved { target: "staging (s)".to_string() };
    let u = notice_text(&r);
    assert!(u.starts_with("<b>ClosLamartine Monitor Resolved</b>\nTarget: <code>staging (s)</code>\nTime: "));
    assert!(u.ends_with("\n\n✅ Issue is resolved and checks are healthy again."));
}

#[test]
fn console_all_clear() {
    assert_eq!(check_console_text(&result(true, true, true)), "OK: all checks passed\n");
}

#[test]
fn console_lists_failing_targets() {
    assert_eq!(
        check_console_text(&result(false, true, false)),
        "SERVER FAILURES:\n  - Low memory\nSTAGING FAILURES:\n  - Backend: HTTP 502\n"
    );
    assert_eq!(
        check_console_text(&result(true, false, true)),
        "PROD FAILURES:\n  - Frontend unreachable\n"
    );
}
