use clos_monitor::config::{Config, Environment};
use clos_monitor::diagnose_core::{
    check_env, check_nginx_proxy, check_pid, check_reverse_proxy, check_telegram_api,
    check_traefik_proxy, check_webhook_port, comm_path, env_file_candidates, format_report_telegram,
    mask_token, pid_from_contents, startup_check, startup_outcome, StartupAction, StartupCheck, report_console_text, status_rejected, summary_console_text, telegram_api_section, webhook_fetch_result,
    webhook_info_url, webhook_listen_address, webhook_startup_verdict, DiagLine, DiagReport,
    DiagSection, DiagSeverity, GrepOutcome, PathScan, PidProbe, PortProbe, ProxyProbe, SecretFile,
    WebhookFetch, WebhookInfo, WebhookResult, MONITOR_VERSION,
};

fn config_of(pairs: &[(&str, &str)]) -> Config {
    Config::from_env(&Environment {
        vars: pairs
            .iter()
            .map(|(k, v)| (k.to_string(), v.to_string()))
            .collect(),
    })
}

fn lines(s: &DiagSection) -> Vec<(DiagSeverity, String, Option<String>)> {
    s.lines
        .iter()
        .map(|l| (l.severity, l.message.clone(), l.detail.clone()))
        .collect()
}

fn registration(url: Option<&str>) -> WebhookResult {
    WebhookResult {
        url: url.map(|u| u.to_string()),
        has_custom_certificate: None,
        pending_update_count: None,
        last_error_date: None,
        last_error_message: None,
        max_connections: None,
    }
}

fn line(severity: DiagSeverity, message: &str) -> DiagLine {
    DiagLine { severity, message: message.to_string(), detail: None }
}

#[test]
fn report_counts_by_severity() {
    let mut r = DiagReport::default();
    r.push_section(DiagSection {
        title: "A".to_string(),
        lines: vec![
            line(DiagSeverity::Pass, "a"),
            line(DiagSeverity::Warn, "b"),
            line(DiagSeverity::Fail, "c"),
            line(DiagSeverity::Pass, "d"),
        ],
    });
    r.push_section(DiagSection { title: "B".to_string(), lines: vec![line(DiagSeverity::Fail, "e")] });
    assert_eq!((r.passed, r.warned, r.failed), (2, 1, 2));
    assert_eq!(r.sections.len(), 2);
}

#[test]
fn tokens_are_masked() {
    assert_eq!(mask_token("abcd"), "***");
    assert_eq!(mask_token(""), "***");
    assert_eq!(mask_token("123456:ABCDEF"), "***...CDEF");
    assert_eq!(mask_token("ééé"), "***...ééé");
}

#[test]
fn env_candidates() {
    assert_eq!(env_file_candidates(None), vec!["/etc/clos-monitor.env", ".env"]);
    assert_eq!(env_file_candidates(Some("/x.env")), vec!["/x.env", "/etc/clos-monitor.env", ".env"]);
}

#[test]
fn environment_section() {
    let c = config_of(&[
        ("TELEGRAM_BOT_TOKEN", "123456:ABCDEFGH"),
        ("TELEGRAM_ALLOWED_CHAT_IDS", "1,2"),
        ("MONITOR_WEBHOOK_SECRET", "0123456789abcdef"),
        ("MONITOR_SCOPE", "prod"),
        ("MONITOR_REVERSE_PROXY", "none"),
    ]);
    let s = check_env(&c, Some("/etc/clos-monitor.env"));
    assert_eq!(s.title, "Environment");
    assert_eq!(
        lines(&s),
        vec![
            (DiagSeverity::Pass, "Env file: /etc/clos-monitor.env (exists)".to_string(), None),
            (DiagSeverity::Pass, "TELEGRAM_BOT_TOKEN: set (***...EFGH)".to_string(), None),
            (DiagSeverity::Pass, "Allowed chat IDs: 1, 2".to_string(), None),
            (DiagSeverity::Pass, "MONITOR_WEBHOOK_SECRET: set (01234567...)".to_string(), None),
            (DiagSeverity::Pass, "MONITOR_WEBHOOK_PORT: 9090".to_string(), None),
            (DiagSeverity::Pass, "MONITOR_SCOPE: prod".to_string(), None),
            (DiagSeverity::Pass, "MONITOR_REVERSE_PROXY: none".to_string(), None),
            (
                DiagSeverity::Pass,
                "Expected Telegram webhook URL: https://www.mobile-i-love.com/monitor/webhook"
                    .to_string(),
                None
            ),
        ]
    );
    let e = check_env(&config_of(&[]), None);
    let l = lines(&e);
    assert_eq!(l[0].0, DiagSeverity::Warn);
    assert_eq!(l[1].1, "TELEGRAM_BOT_TOKEN: not set — alerts and getWebhookInfo will fail");
    assert_eq!(l[2].0, DiagSeverity::Fail);
    assert_eq!(l[3].1, "MONITOR_WEBHOOK_SECRET: not set — webhook server will NOT start");
}

#[test]
fn pid_sections() {
    let c = config_of(&[("MONITOR_PID_FILE", "/run/m.pid")]);
    let missing = check_pid(&c, &PidProbe::Missing);
    assert_eq!(missing.title, "Daemon Process");
    assert_eq!(
        lines(&missing),
        vec![(DiagSeverity::Warn, "PID file not found: /run/m.pid — daemon may not be running".to_string(), None)]
    );
    let bad = check_pid(&c, &PidProbe::Read { contents: " 12x\n".to_string(), comm: None });
    assert_eq!(lines(&bad)[0].1, "PID file contains invalid value: '12x'");
    let gone = check_pid(&c, &PidProbe::Read { contents: "77\n".to_string(), comm: None });
    assert_eq!(
        lines(&gone)[0],
        (DiagSeverity::Fail, "PID 77 from PID file is not running (process not found in /proc)".to_string(), None)
    );
    let ok = check_pid(
        &c,
        &PidProbe::Read { contents: "77".to_string(), comm: Some("clos-monitor-x\n".to_string()) },
    );
    assert_eq!(lines(&ok)[0], (DiagSeverity::Pass, "Daemon running: PID 77 (clos-monitor-x)".to_string(), None));
    let stale = check_pid(&c, &PidProbe::Read { contents: "77".to_string(), comm: Some("bash".to_string()) });
    assert_eq!(
        lines(&stale)[0].1,
        "PID 77 in PID file but process comm is 'bash' — expected one of [clos-monitor, server-monitor] (stale PID file?)"
    );
    let unreadable = check_pid(&c, &PidProbe::Unreadable("denied".to_string()));
    assert_eq!(lines(&unreadable)[0].1, "PID file unreadable (/run/m.pid): denied");
}

#[test]
fn pid_helpers() {
    assert_eq!(pid_from_contents(" 123 \n"), Some(123));
    assert_eq!(pid_from_contents("4294967296"), None);
    assert_eq!(pid_from_contents("-1"), None);
    assert_eq!(comm_path(123), "/proc/123/comm");
}

#[test]
fn port_sections() {
    let c = config_of(&[("MONITOR_WEBHOOK_PORT", "9191")]);
    assert_eq!(webhook_listen_address(9191), "127.0.0.1:9191");
    let open = check_webhook_port(&c, &PortProbe::Open);
    assert_eq!(open.title, "Webhook Server (local port)");
    assert_eq!(lines(&open)[0], (DiagSeverity::Pass, "Port 9191 is open — webhook server is listening".to_string(), None));
    let refused = check_webhook_port(&c, &PortProbe::Refused("Connection refused".to_string()));
    assert_eq!(lines(&refused)[0].1, "Port 9191 refused: Connection refused — webhook not running?");
    let timeout = check_webhook_port(&c, &PortProbe::TimedOut);
    assert_eq!(lines(&timeout)[0].1, "Port 9191 timed out — webhook not responding");
    let invalid = check_webhook_port(&c, &PortProbe::InvalidAddress("bad".to_string()));
    assert_eq!(lines(&invalid)[0].1, "Invalid webhook address 127.0.0.1:9191: bad");
}

#[test]
fn fetch_outcomes() {
    assert!(status_rejected(401));
    assert!(status_rejected(500));
    assert!(status_rejected(199));
    assert!(!status_rejected(200));
    assert_eq!(
        webhook_fetch_result(WebhookFetch::NoToken).unwrap_err(),
        "TELEGRAM_BOT_TOKEN not set"
    );
    assert_eq!(
        webhook_fetch_result(WebhookFetch::Rejected { code: 401, status: "401 Unauthorized".to_string() })
            .unwrap_err(),
        "Telegram API 401 — TELEGRAM_BOT_TOKEN invalid"
    );
    assert_eq!(
        webhook_fetch_result(WebhookFetch::Rejected { code: 502, status: "502 Bad Gateway".to_string() })
            .unwrap_err(),
        "Telegram API HTTP 502 Bad Gateway"
    );
    assert_eq!(
        webhook_fetch_result(WebhookFetch::Unreachable("dns".to_string())).unwrap_err(),
        "Telegram API unreachable: dns"
    );
    assert_eq!(
        webhook_fetch_result(WebhookFetch::ClientError("tls".to_string())).unwrap_err(),
        "tls"
    );
    assert_eq!(
        webhook_fetch_result(WebhookFetch::Parsed(Err("eof".to_string()))).unwrap_err(),
        "Could not parse Telegram response: eof"
    );
    assert_eq!(
        webhook_fetch_result(WebhookFetch::Parsed(Ok(WebhookInfo { ok: false, result: None })))
            .unwrap_err(),
        "Telegram API response: ok=false"
    );
    assert_eq!(
        webhook_fetch_result(WebhookFetch::Parsed(Ok(WebhookInfo { ok: true, result: None })))
            .unwrap_err(),
        "Telegram API returned empty result"
    );
    let got = webhook_fetch_result(WebhookFetch::Parsed(Ok(WebhookInfo {
        ok: true,
        result: Some(registration(Some("https://a/monitor/webhook"))),
    })))
    .unwrap();
    assert_eq!(got.url.as_deref(), Some("https://a/monitor/webhook"));
}

#[test]
fn info_url() {
    assert_eq!(webhook_info_url(&config_of(&[])), None);
    assert_eq!(
        webhook_info_url(&config_of(&[("TELEGRAM_BOT_TOKEN", "1:AB")])),
        Some("https://api.telegram.org/bot1:AB/getWebhookInfo".to_string())
    );
}

#[test]
fn telegram_api_matching_url() {
    let c = config_of(&[("MONITOR_WEBHOOK_EXPECTED_URL", "https://a/monitor/webhook")]);
    let s = check_telegram_api(&c, &Ok(registration(Some(" https://a/monitor/webhook "))));
    assert_eq!(s.title, "Telegram API (getWebhookInfo)");
    let l = lines(&s);
    assert_eq!(l.len(), 1);
    assert_eq!(l[0].0, DiagSeverity::Pass);
    assert_eq!(l[0].1, "Telegram webhook URL matches MONITOR_WEBHOOK_EXPECTED_URL");
    assert_eq!(
        l[0].2.as_deref(),
        Some("url:                    https://a/monitor/webhook\nhas_custom_certificate: false\npending_update_count:    0\nmax_connections:         0\nlast_error_message:      (none)")
    );
}

#[test]
fn telegram_api_problems() {
    let c = config_of(&[("MONITOR_WEBHOOK_EXPECTED_URL", "https://a/monitor/webhook")]);
    let mut reg = registration(Some("https://b/hook"));
    reg.pending_update_count = Some(11);
    reg.last_error_message = Some("Connection timed out".to_string());
    reg.last_error_date = Some(1431648000);
    reg.has_custom_certificate = Some(true);
    reg.max_connections = Some(40);
    let s = check_telegram_api(&c, &Ok(reg));
    let l = lines(&s);
    assert_eq!(l.len(), 3);
    assert_eq!(l[0].0, DiagSeverity::Warn);
    assert_eq!(l[0].1, "Webhook URL mismatch — registered: https://b/hook  expected: https://a/monitor/webhook");
    assert_eq!(
        l[0].2.as_deref(),
        Some("url:                    https://b/hook\nhas_custom_certificate: true\npending_update_count:    11\nmax_connections:         40\nlast_error_date:         2015-05-15 00:00:00 UTC\nlast_error_message:      Connection timed out")
    );
    assert_eq!(l[1], (DiagSeverity::Warn, "11 pending updates — webhook may be failing".to_string(), None));
    assert_eq!(l[2], (DiagSeverity::Warn, "Telegram reports last_error_message (see detail above)".to_string(), None));
    let unset = check_telegram_api(&c, &Ok(registration(None)));
    assert_eq!(lines(&unset)[0].0, DiagSeverity::Fail);
    assert_eq!(lines(&unset)[0].1, "Webhook not registered. Expected URL: https://a/monitor/webhook");
    let failed = check_telegram_api(&c, &Err("Telegram API unreachable: x".to_string()));
    assert_eq!(lines(&failed), vec![(DiagSeverity::Fail, "Telegram API unreachable: x".to_string(), None)]);
}

#[test]
fn telegram_api_unformatted_error_date() {
    let c = config_of(&[]);
    let mut reg = registration(Some(""));
    reg.last_error_message = Some("boom".to_string());
    reg.last_error_date = Some(5);
    let s = telegram_api_section(&c, &Ok(reg), &None);
    let l = lines(&s);
    assert_eq!(l[0].0, DiagSeverity::Fail);
    assert!(l[0].2.as_deref().unwrap().contains("last_error_date:         unix:5\n"));
}

#[test]
fn startup_verdicts() {
    assert_eq!(
        webhook_startup_verdict(&Ok(registration(Some("https://a/monitor/webhook"))), " https://a/monitor/webhook"),
        Ok(())
    );
    assert_eq!(
        webhook_startup_verdict(&Ok(registration(None)), "x"),
        Err("Telegram webhook URL is empty — register with setWebhook (see DEPLOY_CHECKLIST.md)".to_string())
    );
    assert_eq!(
        webhook_startup_verdict(&Ok(registration(Some("https://b"))), "https://a"),
        Err("webhook mismatch: registered=https://b expected=https://a".to_string())
    );
    assert_eq!(webhook_startup_verdict(&Err("e".to_string()), "https://a"), Err("e".to_string()));
}

#[test]
fn nginx_sections() {
    let s = check_nginx_proxy(
        &GrepOutcome::Found("/etc/nginx/sites-enabled/a\r\n\n/etc/nginx/sites-enabled/b\n".to_string()),
        &SecretFile::Contents("abc\n".to_string()),
    );
    assert_eq!(s.title, "Reverse proxy (nginx)");
    assert_eq!(
        lines(&s),
        vec![
            (
                DiagSeverity::Pass,
                "/monitor/webhook block found in: /etc/nginx/sites-enabled/a, /etc/nginx/sites-enabled/b".to_string(),
                None
            ),
            (DiagSeverity::Pass, "/etc/nginx/telegram-webhook-secret.conf has a value".to_string(), None),
        ]
    );
    let t = check_nginx_proxy(&GrepOutcome::NotFound, &SecretFile::Contents("x run-monitor-deploy-to-update".to_string()));
    assert_eq!(lines(&t)[0].1, "No nginx site contains 'monitor/webhook' (grep exit non-zero)");
    assert_eq!(lines(&t)[1], (DiagSeverity::Warn, "telegram-webhook-secret.conf looks like a placeholder".to_string(), None));
    let u = check_nginx_proxy(&GrepOutcome::Failed("EACCES".to_string()), &SecretFile::Missing);
    assert_eq!(lines(&u)[0], (DiagSeverity::Warn, "Could not grep nginx config (EACCES): skipped (permissions?)".to_string(), None));
    assert_eq!(lines(&u)[1], (DiagSeverity::Fail, "/etc/nginx/telegram-webhook-secret.conf missing".to_string(), None));
    let v = check_nginx_proxy(&GrepOutcome::Found("\n".to_string()), &SecretFile::Unreadable("denied".to_string()));
    assert_eq!(lines(&v)[0].1, "No nginx site contains 'monitor/webhook'");
    assert_eq!(lines(&v)[1].1, "telegram-webhook-secret.conf unreadable (denied): skipped");
}

#[test]
fn traefik_sections() {
    let none = check_traefik_proxy(&config_of(&[]), &PathScan::Missing);
    assert_eq!(none.title, "Reverse proxy (Traefik)");
    assert_eq!(lines(&none).len(), 1);
    assert_eq!(lines(&none)[0].0, DiagSeverity::Warn);
    let c = config_of(&[("MONITOR_TRAEFIK_CONFIG_SCAN_PATH", "/etc/traefik")]);
    let missing = check_traefik_proxy(&c, &PathScan::Missing);
    assert_eq!(lines(&missing), vec![(DiagSeverity::Fail, "MONITOR_TRAEFIK_CONFIG_SCAN_PATH does not exist: /etc/traefik".to_string(), None)]);
    let found = check_traefik_proxy(&c, &PathScan::Grep(GrepOutcome::Found("/etc/traefik/a.yml\n".to_string())));
    assert_eq!(lines(&found)[0], (DiagSeverity::Pass, "monitor/webhook referenced in: /etc/traefik/a.yml".to_string(), None));
    assert_eq!(lines(&found)[1].0, DiagSeverity::Pass);
    let nothing = check_traefik_proxy(&c, &PathScan::Grep(GrepOutcome::NotFound));
    assert_eq!(lines(&nothing)[0].1, "grep found no monitor/webhook in Traefik scan path");
    let t = config_of(&[("MONITOR_REVERSE_PROXY", "traefik")]);
    let r = check_reverse_proxy(&t, &ProxyProbe::Traefik { scan: PathScan::Missing });
    assert_eq!(r.title, "Reverse proxy (Traefik)");
    let n = check_reverse_proxy(
        &c,
        &ProxyProbe::Nginx { grep: GrepOutcome::NotFound, secret: SecretFile::Missing },
    );
    assert_eq!(n.title, "Reverse proxy (nginx)");
    assert_eq!(lines(&n).len(), 2);
    let d = config_of(&[("MONITOR_REVERSE_PROXY", "off")]);
    let skipped = check_reverse_proxy(&d, &ProxyProbe::Skipped);
    assert_eq!(skipped.title, "Reverse proxy");
    assert_eq!(lines(&skipped)[0].1, "MONITOR_REVERSE_PROXY=none — skipped local routing file scan");
}

#[test]
fn report_as_telegram_text() {
    let mut r = DiagReport::default();
    r.push_section(DiagSection {
        title: "S".to_string(),
        lines: vec![
            DiagLine { severity: DiagSeverity::Pass, message: "fine".to_string(), detail: Some("a<b>&c".to_string()) },
            line(DiagSeverity::Warn, "hmm"),
            line(DiagSeverity::Fail, "bad"),
        ],
    });
    let full = format_report_telegram(&r, 3900);
    assert_eq!(
        full,
        format!(
            "<b>Monitor self-check</b> v{}\n\n<b>S</b>\n✅ fine\n<pre>a&lt;b&gt;&amp;c</pre>\n⚠️ hmm\n❌ bad\n\n<i>1 ok, 1 warn, 1 fail</i>",
            MONITOR_VERSION
        )
    );
    let cut = format_report_telegram(&r, 10);
    assert_eq!(cut, "<b>Monito…");
    assert_eq!(cut.chars().count(), 10);
}

#[test]
fn console_report_lists_sections() {
    let mut r = DiagReport::default();
    r.push_section(DiagSection {
        title: "Environment".to_string(),
        lines: vec![
            line(DiagSeverity::Pass, "token set"),
            DiagLine {
                severity: DiagSeverity::Warn,
                message: "mismatch".to_string(),
                detail: Some("url: a\r\nmax: 3\n".to_string()),
            },
        ],
    });
    r.push_section(DiagSection { title: "Proxy".to_string(), lines: vec![line(DiagSeverity::Fail, "missing")] });
    assert_eq!(
        report_console_text(&r),
        "\n--- Environment ---\n[OK]   token set\n[WARN] mismatch\n       url: a\n       max: 3\n\n--- Proxy ---\n[FAIL] missing\n"
    );
    assert_eq!(report_console_text(&DiagReport::default()), "");
}

#[test]
fn console_summary_all_good() {
    let mut r = DiagReport::default();
    r.push_section(DiagSection {
        title: "A".to_string(),
        lines: vec![line(DiagSeverity::Pass, "a"), line(DiagSeverity::Pass, "b")],
    });
    assert_eq!(
        summary_console_text(&r),
        "\n=============================================\nSummary: 2/2 checks passed — all good!\n"
    );
}

#[test]
fn console_summary_with_failures() {
    let mut r = DiagReport::default();
    r.push_section(DiagSection {
        title: "A".to_string(),
        lines: vec![
            line(DiagSeverity::Pass, "a"),
            line(DiagSeverity::Fail, "b"),
            line(DiagSeverity::Warn, "c"),
            line(DiagSeverity::Warn, "d"),
        ],
    });
    assert_eq!(
        summary_console_text(&r),
        "\n=============================================\nSummary: 1 passed, 1 failed, 2 warnings (total 4)\n\nFAILED checks indicate a broken link in the webhook chain.\nSee DEPLOY_CHECKLIST.md or run 'make monitor-webhook-set' to fix registration.\n"
    );
    let mut w = DiagReport::default();
    w.push_section(DiagSection { title: "A".to_string(), lines: vec![line(DiagSeverity::Warn, "c")] });
    assert_eq!(
        summary_console_text(&w),
        "\n=============================================\nSummary: 0 passed, 0 failed, 1 warnings (total 1)\n"
    );
}

#[test]
fn startup_check_follows_config() {
    assert_eq!(
        startup_check(&config_of(&[("MONITOR_WEBHOOK_STARTUP_VERIFY", "0"), ("TELEGRAM_BOT_TOKEN", "t")])),
        StartupCheck::NotRequested
    );
    // Verification is on unless turned off.
    assert_eq!(startup_check(&config_of(&[])), StartupCheck::NoToken);
    assert_eq!(
        startup_check(&config_of(&[("MONITOR_WEBHOOK_STARTUP_VERIFY", "1"), ("TELEGRAM_BOT_TOKEN", "t")])),
        StartupCheck::Verify
    );
}

#[test]
fn startup_outcomes() {
    assert!(matches!(startup_outcome(true, &Ok(())), StartupAction::Proceed));
    assert!(matches!(startup_outcome(false, &Ok(())), StartupAction::Proceed));
    match startup_outcome(true, &Err("webhook mismatch".to_string())) {
        StartupAction::Abort(e) => assert_eq!(e, "webhook mismatch"),
        _ => panic!("strict mode stops"),
    }
    match startup_outcome(false, &Err("webhook mismatch".to_string())) {
        StartupAction::WarnAndProceed(e) => assert_eq!(e, "webhook mismatch"),
        _ => panic!("lenient mode warns"),
    }
}
