use clos_monitor::config::{Config, Environment};
use clos_monitor::docker::{ContainerInfo, ContainerStatus, HealthStatus};
use clos_monitor::webhook::{
    backup_dump_path, backup_reply, command_of, docker_connect_failed_text, docker_list_text,
    format_container, help_message_html, kylit_db_reply, kylit_dir_error_reply,
    kylit_docker_failed_text, kylit_docker_text, kylit_minio_script, kylit_missing_reply,
    kylit_pg_dump_script, kylit_script_reply, normalize_command, pg_dump_script, plan_command,
    plan_for_command, restart_reply, restart_script, route_message, webhook_action, CommandPlan,
    RunOutcome, TelegramChat, TelegramMessage, TelegramUpdate, WebhookAction, HELP_CORE,
    HELP_KYLIT, IP_ADMIN_DISABLED_REPLY, IP_PASSWORD_INVALID_REPLY, KYLIT_DISABLED_REPLY,
    UNKNOWN_COMMAND_REPLY,
};

fn config_of(pairs: &[(&str, &str)]) -> Config {
    Config::from_env(&Environment {
        vars: pairs
            .iter()
            .map(|(k, v)| (k.to_string(), v.to_string()))
            .collect(),
    })
}

fn webhook_config() -> Config {
    config_of(&[
        ("MONITOR_WEBHOOK_SECRET", "sekret"),
        ("TELEGRAM_BOT_TOKEN", "tok"),
        ("TELEGRAM_ALLOWED_CHAT_IDS", "42, -100123"),
    ])
}

fn ip_config() -> Config {
    config_of(&[
        ("MONITOR_IP_BACKEND", "ufw"),
        ("MONITOR_IP_ADMIN_SECRET", "s3cret"),
    ])
}

fn update(chat: i64, text: Option<&str>) -> TelegramUpdate {
    TelegramUpdate {
        update_id: 1,
        message: Some(TelegramMessage {
            chat: TelegramChat { id: chat },
            text: text.map(|t| t.to_string()),
        }),
    }
}

fn reply_text(p: CommandPlan) -> String {
    match p {
        CommandPlan::Reply(t) => t,
        _ => panic!("expected a reply"),
    }
}

fn info(name: &str, status: ContainerStatus, health: HealthStatus) -> ContainerInfo {
    ContainerInfo { name: name.to_string(), status, health }
}

#[test]
fn normalize_strips_bot_suffix() {
    assert_eq!(normalize_command("/help@closlamartineBot"), "/help");
    assert_eq!(normalize_command("/status@a@b"), "/status");
    assert_eq!(normalize_command("@bot"), "");
}

#[test]
fn normalize_accepts_dashes_and_colons() {
    assert_eq!(normalize_command("/status-prod"), "/status_prod");
    assert_eq!(normalize_command("/status—staging"), "/status_staging");
    assert_eq!(normalize_command("/status–server"), "/status_server");
    assert_eq!(normalize_command("/space:left"), "/space_left");
    assert_eq!(normalize_command("/uptime_stats"), "/uptime_stats");
}

#[test]
fn normalize_is_idempotent_on_examples() {
    for c in ["/help@bot", "/a-b:c", "/x—y", "plain"] {
        let once = normalize_command(c);
        assert_eq!(normalize_command(&once), once);
    }
}

#[test]
fn command_of_first_word_lowercased() {
    assert_eq!(command_of("/STATUS@Bot now"), "/status");
    assert_eq!(command_of("  /Status-Prod  extra words"), "/status_prod");
    assert_eq!(command_of(""), "");
    assert_eq!(command_of("hello there"), "hello");
}

#[test]
fn plan_basic_commands() {
    let c = config_of(&[]);
    assert!(matches!(plan_command(&c, "/status"), CommandPlan::Status));
    assert!(matches!(plan_command(&c, "/status_prod"), CommandPlan::StatusProd));
    assert!(matches!(plan_command(&c, "/STATUS-STAGING"), CommandPlan::StatusStaging));
    assert!(matches!(plan_command(&c, "/status_server"), CommandPlan::StatusServer));
    assert!(matches!(plan_command(&c, "/space_left"), CommandPlan::SpaceLeft));
    assert!(matches!(plan_command(&c, "/uptime_stats"), CommandPlan::UptimeStats));
    assert!(matches!(plan_command(&c, "/memory"), CommandPlan::Memory));
    assert!(matches!(plan_command(&c, "/certs"), CommandPlan::Certs));
    assert!(matches!(plan_command(&c, "/docker@bot"), CommandPlan::Docker));
    assert!(matches!(plan_command(&c, "/self"), CommandPlan::SelfCheck));
    assert!(matches!(plan_command(&c, "/prod_backup"), CommandPlan::ProdBackup));
    assert!(matches!(plan_command(&c, "/prod-restart"), CommandPlan::ProdRestart));
    assert!(matches!(plan_command(&c, "/staging_backup"), CommandPlan::StagingBackup));
    assert!(matches!(plan_command(&c, "/staging_restart"), CommandPlan::StagingRestart));
}

#[test]
fn plan_unknown_and_silent() {
    let c = config_of(&[]);
    assert_eq!(reply_text(plan_command(&c, "/nope")), UNKNOWN_COMMAND_REPLY);
    assert!(matches!(plan_command(&c, "hello"), CommandPlan::Silent));
    assert!(matches!(plan_command(&c, ""), CommandPlan::Silent));
}

#[test]
fn plan_help_is_help_text() {
    let c = config_of(&[]);
    assert_eq!(reply_text(plan_command(&c, "/help")), HELP_CORE);
}

#[test]
fn plan_for_normalized_command() {
    let c = config_of(&[]);
    let words = vec!["/memory".to_string()];
    assert!(matches!(plan_for_command(&c, "/memory", &words), CommandPlan::Memory));
    assert!(matches!(plan_for_command(&c, "memory", &words), CommandPlan::Silent));
}

#[test]
fn ip_commands_off_without_admin() {
    let c = config_of(&[]);
    assert_eq!(reply_text(plan_command(&c, "/ip_list pw")), IP_ADMIN_DISABLED_REPLY);
    assert_eq!(reply_text(plan_command(&c, "/ip_ban 1.2.3.4 pw")), IP_ADMIN_DISABLED_REPLY);
    // A secret alone is not enough: the backend is needed too.
    let c = config_of(&[("MONITOR_IP_ADMIN_SECRET", "s3cret")]);
    assert_eq!(reply_text(plan_command(&c, "/ip_list s3cret")), IP_ADMIN_DISABLED_REPLY);
}

#[test]
fn ip_list_password_gate() {
    let c = ip_config();
    assert_eq!(reply_text(plan_command(&c, "/ip_list")), "Usage: <code>/ip_list password</code>");
    assert_eq!(reply_text(plan_command(&c, "/ip_list wrong")), IP_PASSWORD_INVALID_REPLY);
    assert!(matches!(plan_command(&c, "/ip_list s3cret"), CommandPlan::IpList));
}

#[test]
fn ip_ban_and_unban() {
    let c = ip_config();
    match plan_command(&c, "/ip_ban 1.2.3.4 s3cret") {
        CommandPlan::IpBan(ip) => assert_eq!(ip, "1.2.3.4"),
        _ => panic!("expected a ban"),
    }
    match plan_command(&c, "/ip-unban 5.6.7.8 s3cret") {
        CommandPlan::IpUnban(ip) => assert_eq!(ip, "5.6.7.8"),
        _ => panic!("expected an unban"),
    }
    assert_eq!(
        reply_text(plan_command(&c, "/ip_ban 1.2.3.4")),
        "Usage: <code>/ip_ban x.x.x.x password</code>"
    );
    assert_eq!(
        reply_text(plan_command(&c, "/ip_unban")),
        "Usage: <code>/ip_unban x.x.x.x password</code>"
    );
    assert_eq!(reply_text(plan_command(&c, "/ip_ban 1.2.3.4 nope")), IP_PASSWORD_INVALID_REPLY);
}

#[test]
fn kylit_commands_need_flag() {
    let off = config_of(&[]);
    for cmd in ["/kylit_backup_db", "/kylit_backup_minio", "/kylit_backup_all", "/kylit_docker"] {
        assert_eq!(reply_text(plan_command(&off, cmd)), KYLIT_DISABLED_REPLY);
    }
    let on = config_of(&[("MONITOR_KYLIT_WEBHOOK", "true")]);
    assert!(matches!(plan_command(&on, "/kylit_backup_db"), CommandPlan::KylitBackupDb));
    assert!(matches!(plan_command(&on, "/kylit-backup-minio"), CommandPlan::KylitBackupMinio));
    assert!(matches!(plan_command(&on, "/kylit_backup_all"), CommandPlan::KylitBackupAll));
    assert!(matches!(plan_command(&on, "/kylit_docker"), CommandPlan::KylitDocker));
}

#[test]
fn help_sections_follow_config() {
    assert_eq!(help_message_html(&config_of(&[])), HELP_CORE);
    let c = config_of(&[
        ("MONITOR_KYLIT_WEBHOOK", "1"),
        ("MONITOR_IP_BACKEND", "crowdsec"),
        ("MONITOR_IP_ADMIN_SECRET", "x"),
    ]);
    let expected = format!(
        "{}{}\n<b>IP admin (crowdsec)</b>\n/ip_list &lt;password&gt;\n/ip_ban &lt;ipv4&gt; &lt;password&gt;\n/ip_unban &lt;ipv4&gt; &lt;password&gt;\n",
        HELP_CORE, HELP_KYLIT
    );
    assert_eq!(help_message_html(&c), expected);
}

#[test]
fn webhook_not_configured_without_secret() {
    let c = config_of(&[("TELEGRAM_BOT_TOKEN", "tok")]);
    let a = webhook_action(&c, Some("anything"), &update(42, Some("/status")));
    assert!(matches!(a, WebhookAction::NotConfigured));
}

#[test]
fn webhook_forbidden_on_wrong_or_missing_header() {
    let c = webhook_config();
    let u = update(42, Some("/status"));
    assert!(matches!(webhook_action(&c, Some("wrong!"), &u), WebhookAction::Forbidden));
    assert!(matches!(webhook_action(&c, Some("sekre"), &u), WebhookAction::Forbidden));
    assert!(matches!(webhook_action(&c, None, &u), WebhookAction::Forbidden));
}

#[test]
fn webhook_ignores_update_without_message() {
    let c = webhook_config();
    let u = TelegramUpdate { update_id: 9, message: None };
    assert!(matches!(webhook_action(&c, Some("sekret"), &u), WebhookAction::Ignore));
}

#[test]
fn webhook_dispatches_allowed_chat() {
    let c = webhook_config();
    match webhook_action(&c, Some("sekret"), &update(42, Some("  /status  "))) {
        WebhookAction::Dispatch { chat_id, text } => {
            assert_eq!(chat_id, "42");
            assert_eq!(text, "/status");
        }
        _ => panic!("expected dispatch"),
    }
    match webhook_action(&c, Some("sekret"), &update(-100123, Some("/docker"))) {
        WebhookAction::Dispatch { chat_id, .. } => assert_eq!(chat_id, "-100123"),
        _ => panic!("expected dispatch"),
    }
}

#[test]
fn webhook_ignores_unknown_chat() {
    let c = webhook_config();
    assert!(matches!(
        webhook_action(&c, Some("sekret"), &update(7, Some("/status"))),
        WebhookAction::Ignore
    ));
}

#[test]
fn webhook_myid_and_help_for_any_chat() {
    let c = webhook_config();
    match webhook_action(&c, Some("sekret"), &update(7, Some("/myid"))) {
        WebhookAction::Reply { chat_id, text } => {
            assert_eq!(chat_id, "7");
            assert_eq!(
                text,
                "Your Chat ID: <code>7</code>\n\nAdd this to TELEGRAM_ALLOWED_CHAT_IDS in the monitor config, then redeploy to get access."
            );
        }
        _ => panic!("expected a reply"),
    }
    assert!(matches!(
        webhook_action(&c, Some("sekret"), &update(7, Some("/start"))),
        WebhookAction::Reply { .. }
    ));
    match webhook_action(&c, Some("sekret"), &update(7, Some("/help@bot"))) {
        WebhookAction::Reply { text, .. } => assert_eq!(text, HELP_CORE),
        _ => panic!("expected a reply"),
    }
}

#[test]
fn webhook_myid_needs_bot_token() {
    let c = config_of(&[("MONITOR_WEBHOOK_SECRET", "sekret")]);
    assert!(matches!(
        webhook_action(&c, Some("sekret"), &update(7, Some("/myid"))),
        WebhookAction::Ignore
    ));
}

#[test]
fn route_message_direct() {
    let c = webhook_config();
    match route_message(&c, "42".to_string(), "/memory".to_string(), "/memory") {
        WebhookAction::Dispatch { chat_id, text } => {
            assert_eq!(chat_id, "42");
            assert_eq!(text, "/memory");
        }
        _ => panic!("expected dispatch"),
    }
}

#[test]
fn container_lines() {
    assert_eq!(
        format_container(&info("app_db", ContainerStatus::Running, HealthStatus::Unhealthy)),
        "  ✅ app_db running (unhealthy)"
    );
    assert_eq!(
        format_container(&info("app_db", ContainerStatus::Running, HealthStatus::Starting)),
        "  ✅ app_db running (starting)"
    );
    assert_eq!(
        format_container(&info("app_db", ContainerStatus::Running, HealthStatus::Healthy)),
        "  ✅ app_db running"
    );
    assert_eq!(
        format_container(&info("web", ContainerStatus::Running, HealthStatus::Unhealthy)),
        "  ✅ web running"
    );
    assert_eq!(
        format_container(&info("web", ContainerStatus::Exited, HealthStatus::NoHealthcheck)),
        "  ❌ web exited"
    );
    assert_eq!(
        format_container(&info("web", ContainerStatus::Restarting, HealthStatus::NoHealthcheck)),
        "  🔄 web restarting"
    );
    assert_eq!(
        format_container(&info("web", ContainerStatus::Paused, HealthStatus::NoHealthcheck)),
        "  ⏸ web paused"
    );
    assert_eq!(
        format_container(&info("web", ContainerStatus::Dead, HealthStatus::NoHealthcheck)),
        "  ❌ web dead"
    );
    assert_eq!(
        format_container(&info(
            "web",
            ContainerStatus::Other("inspect_failed".to_string()),
            HealthStatus::NoHealthcheck
        )),
        "  ❓ web inspect_failed"
    );
}

#[test]
fn docker_list_blocks() {
    let prod = Ok(vec![
        info("p_web", ContainerStatus::Running, HealthStatus::NoHealthcheck),
        info("p_db", ContainerStatus::Exited, HealthStatus::NoHealthcheck),
    ]);
    let staging: Result<Vec<ContainerInfo>, String> = Err("no socket".to_string());
    assert_eq!(
        docker_list_text(&prod, &staging),
        "<b>Docker containers</b>\n\n<b>Prod</b>\n  ✅ p_web running\n  ❌ p_db exited\n\n<b>Staging</b>\n  (inspect failed)"
    );
    let empty: Result<Vec<ContainerInfo>, String> = Ok(vec![]);
    assert_eq!(
        docker_list_text(&empty, &empty),
        "<b>Docker containers</b>\n\n<b>Prod</b>\n\n<b>Staging</b>"
    );
}

#[test]
fn docker_failure_texts() {
    assert_eq!(
        docker_connect_failed_text("refused"),
        "❌ <b>Docker</b>\nConnection failed: refused"
    );
    assert_eq!(kylit_docker_failed_text("refused"), "❌ <b>Kylit Docker</b>\nrefused");
}

#[test]
fn kylit_docker_lists() {
    let ok = Ok(vec![info("kylit-postgres", ContainerStatus::Running, HealthStatus::Healthy)]);
    assert_eq!(kylit_docker_text(&ok), "<b>Kylit containers</b>\n  ✅ kylit-postgres running");
    let err: Result<Vec<ContainerInfo>, String> = Err("boom".to_string());
    assert_eq!(kylit_docker_text(&err), "<b>Kylit containers</b>\n  (inspect failed: boom)");
}

#[test]
fn backup_paths_and_scripts() {
    assert_eq!(
        backup_dump_path("prod", "20240102_030405"),
        "/tmp/clos-monitor-backups/prod_backup_20240102_030405.sql"
    );
    assert_eq!(
        pg_dump_script("app_db", "/tmp/x.sql"),
        "docker exec app_db sh -c 'pg_dump -U $POSTGRES_USER -d $POSTGRES_DBNAME --clean --if-exists --no-owner --no-acl' > /tmp/x.sql 2>&1"
    );
    assert_eq!(restart_script("/home/app", "./restart.sh"), "cd /home/app && ./restart.sh");
}

#[test]
fn backup_replies() {
    let ok = RunOutcome::Succeeded { stdout: String::new(), stderr: String::new() };
    assert_eq!(
        backup_reply("Prod", "/tmp/p.sql", &ok, "1.5 MB"),
        "✅ <b>Prod backup done</b>\nPath: <code>/tmp/p.sql</code>\nSize: 1.5 MB"
    );
    let failed = RunOutcome::Failed { stdout: "out".to_string(), stderr: "  no such container\n".to_string() };
    assert_eq!(
        backup_reply("Staging", "/tmp/s.sql", &failed, "0 B"),
        "❌ <b>Staging backup failed</b>\nno such container"
    );
    let spawn = RunOutcome::SpawnError("sh missing".to_string());
    assert_eq!(
        backup_reply("Prod", "/tmp/p.sql", &spawn, "0 B"),
        "❌ <b>Prod backup failed</b>\nsh missing"
    );
}

#[test]
fn restart_replies() {
    let ok = RunOutcome::Succeeded { stdout: String::new(), stderr: String::new() };
    assert_eq!(restart_reply("Prod", &ok), "✅ <b>Prod containers restarted</b>");
    let failed = RunOutcome::Failed { stdout: String::new(), stderr: "\tdenied ".to_string() };
    assert_eq!(restart_reply("Staging", &failed), "❌ <b>Staging restart failed</b>\ndenied");
    let spawn = RunOutcome::SpawnError("no bash".to_string());
    assert_eq!(restart_reply("Prod", &spawn), "❌ <b>Prod restart failed</b>\nno bash");
}

#[test]
fn kylit_dump_script_quotes_names() {
    let c = config_of(&[("KYLIT_PG_USER", "o'brien")]);
    assert_eq!(
        kylit_pg_dump_script(&c, "/b/postgres.sql", "/b/postgres.log"),
        "docker exec kylit-postgres pg_dump -U 'o'\"'\"'brien' -d 'kylit' --clean --if-exists --no-owner --no-acl > /b/postgres.sql 2> /b/postgres.log"
    );
}

#[test]
fn kylit_db_replies() {
    let ok = RunOutcome::Succeeded { stdout: String::new(), stderr: String::new() };
    assert_eq!(
        kylit_db_reply("/b/postgres.sql", &ok, "12 B", ""),
        "✅ <b>Kylit DB backup</b>\n<code>/b/postgres.sql</code>\n12 B"
    );
    let failed = RunOutcome::Failed { stdout: String::new(), stderr: " err ".to_string() };
    let long_log = "x".repeat(600);
    let expected = format!("❌ <b>Kylit DB backup failed</b>\nerr\n{}", "x".repeat(500));
    assert_eq!(kylit_db_reply("/b/postgres.sql", &failed, "0 B", &long_log), expected);
    let spawn = RunOutcome::SpawnError("no sh".to_string());
    assert_eq!(
        kylit_db_reply("/b/postgres.sql", &spawn, "0 B", ""),
        "❌ <b>Kylit DB backup failed</b>\nno sh"
    );
    assert_eq!(kylit_dir_error_reply("read-only"), "❌ <b>Kylit DB backup</b>\nread-only");
}

#[test]
fn kylit_scripts_and_missing() {
    let c = config_of(&[]);
    assert_eq!(kylit_minio_script(&c), "/home/kylit/kylit/scripts/minio-mirror-backup.sh");
    assert_eq!(
        kylit_missing_reply("Kylit MinIO backup", "Missing script ", "/s.sh"),
        "❌ <b>Kylit MinIO backup</b>\nMissing script <code>/s.sh</code>"
    );
}

#[test]
fn kylit_script_replies_cut_output() {
    let ok = RunOutcome::Succeeded { stdout: "abcdefghij".to_string(), stderr: String::new() };
    assert_eq!(
        kylit_script_reply("Kylit MinIO mirror", 4, 3, &ok),
        "✅ <b>Kylit MinIO mirror</b>\n<pre>ghij</pre>"
    );
    let failed = RunOutcome::Failed { stdout: " 123456 ".to_string(), stderr: "abcdef".to_string() };
    assert_eq!(
        kylit_script_reply("Kylit full backup", 4, 3, &failed),
        "❌ <b>Kylit full backup failed</b>\nstderr: abc\nstdout: 123"
    );
    let spawn = RunOutcome::SpawnError("gone".to_string());
    assert_eq!(
        kylit_script_reply("Kylit full backup", 4, 3, &spawn),
        "❌ <b>Kylit full backup failed</b>\ngone"
    );
}

#[test]
fn normalized_and_raw_commands_plan_alike() {
    let c = config_of(&[
        ("MONITOR_IP_BACKEND", "ufw"),
        ("MONITOR_IP_ADMIN_SECRET", "s3cret"),
    ]);
    assert!(matches!(plan_command(&c, "/Status-Prod@MonBot"), CommandPlan::StatusProd));
    assert!(matches!(plan_command(&c, "/status_prod"), CommandPlan::StatusProd));
    match (plan_command(&c, "/IP—BAN@Bot 1.2.3.4 s3cret"), plan_command(&c, "/ip_ban 1.2.3.4 s3cret")) {
        (CommandPlan::IpBan(a), CommandPlan::IpBan(b)) => assert_eq!(a, b),
        _ => panic!("both ban"),
    }
}
