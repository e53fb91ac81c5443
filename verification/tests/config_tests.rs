use clos_monitor::config::{
    expected_webhook_url, path_join, Config, Environment, IpFirewallBackend, MonitorScope,
    ReverseProxyKind,
};

fn env_of(pairs: &[(&str, &str)]) -> Environment {
    Environment {
        vars: pairs
            .iter()
            .map(|(k, v)| (k.to_string(), v.to_string()))
            .collect(),
    }
}

fn config_of(pairs: &[(&str, &str)]) -> Config {
    Config::from_env(&env_of(pairs))
}

#[test]
fn scope_names() {
    assert_eq!(MonitorScope::from_str("prod"), MonitorScope::Prod);
    assert_eq!(MonitorScope::from_str("  Production "), MonitorScope::Prod);
    assert_eq!(MonitorScope::from_str("STAGING"), MonitorScope::Staging);
    assert_eq!(MonitorScope::from_str("both"), MonitorScope::Both);
    assert_eq!(MonitorScope::from_str("whatever"), MonitorScope::Both);
    assert_eq!(MonitorScope::from_str(""), MonitorScope::Both);
}

#[test]
fn scope_coverage() {
    assert!(MonitorScope::Both.covers_prod() && MonitorScope::Both.covers_staging());
    assert!(MonitorScope::Prod.covers_prod() && !MonitorScope::Prod.covers_staging());
    assert!(!MonitorScope::Staging.covers_prod() && MonitorScope::Staging.covers_staging());
}

#[test]
fn backend_names() {
    assert_eq!(IpFirewallBackend::from_str(" UFW "), Some(IpFirewallBackend::Ufw));
    assert_eq!(IpFirewallBackend::from_str("CrowdSec"), Some(IpFirewallBackend::Crowdsec));
    assert_eq!(IpFirewallBackend::from_str("iptables"), None);
}

#[test]
fn proxy_names() {
    assert_eq!(ReverseProxyKind::from_str("nginx"), Some(ReverseProxyKind::Nginx));
    assert_eq!(ReverseProxyKind::from_str("Traefik"), Some(ReverseProxyKind::Traefik));
    assert_eq!(ReverseProxyKind::from_str("none"), Some(ReverseProxyKind::Disabled));
    assert_eq!(ReverseProxyKind::from_str("\toff\n"), Some(ReverseProxyKind::Disabled));
    assert_eq!(ReverseProxyKind::from_str("caddy"), None);
}

#[test]
fn defaults_from_empty_environment() {
    let c = config_of(&[]);
    assert_eq!(c.telegram_bot_token, None);
    assert_eq!(c.telegram_chat_id, None);
    assert!(c.allowed_chat_ids.is_empty());
    assert_eq!(c.interval_secs, 300);
    assert_eq!(c.docker_socket, "/var/run/docker.sock");
    assert_eq!(c.min_available_memory_bytes, 100 * 1024 * 1024);
    assert_eq!(c.min_available_disk_bytes, 1024 * 1024 * 1024);
    assert_eq!(c.cert_warn_days, 30);
    assert!(!c.dev);
    assert_eq!(c.webhook_port, 9090);
    assert_eq!(c.webhook_secret, None);
    assert_eq!(c.prod_deploy_path, "/home/closlamartine/app");
    assert_eq!(c.staging_deploy_path, "/home/clsmstaging/app");
    assert_eq!(c.scope, MonitorScope::Both);
    assert_eq!(c.prod_domain, "www.mobile-i-love.com");
    assert_eq!(c.staging_domain, "dlc.netsrv.be");
    assert_eq!(c.pid_file, "/tmp/clos-monitor.pid");
    assert_eq!(c.expected_process_names, vec!["clos-monitor", "server-monitor"]);
    assert!(!c.kylit_webhook_enabled);
    assert_eq!(c.kylit_deploy_path, "/home/kylit/kylit");
    assert_eq!(c.kylit_backup_script, "/home/kylit/kylit/scripts/kylit-prod-backup.sh");
    assert_eq!(c.kylit_env_file, None);
    assert_eq!(c.kylit_pg_container, "kylit-postgres");
    assert_eq!(c.kylit_pg_user, "kylit");
    assert_eq!(c.kylit_pg_db, "kylit");
    assert_eq!(c.kylit_backup_root, "/var/backups/kylit");
    assert_eq!(
        c.kylit_container_names,
        vec!["kylit-postgres", "kylit-backend", "kylit-minio", "kylit-app"]
    );
    assert_eq!(
        c.prod_containers,
        vec!["closlamartine_db", "closlamartine_backend", "closlamartine_frontend"]
    );
    assert_eq!(
        c.staging_containers,
        vec!["clsmstaging_db", "clsmstaging_backend", "clsmstaging_frontend"]
    );
    assert_eq!(c.prod_backend_url, "http://127.0.0.1:8087/api/health");
    assert_eq!(c.prod_frontend_url, "http://127.0.0.1:3009/");
    assert_eq!(c.staging_backend_url, "http://127.0.0.1:8088/api/health");
    assert_eq!(c.staging_frontend_url, "http://127.0.0.1:3010/");
    assert_eq!(c.dev_backend_url, "http://127.0.0.1:58081/api/health");
    assert_eq!(c.dev_frontend_url, "http://127.0.0.1:58080/");
    assert_eq!(c.prod_pg_container, "closlamartine_db");
    assert_eq!(c.staging_pg_container, "clsmstaging_db");
    assert_eq!(
        c.prod_compose_restart_sh,
        "docker compose --env-file .env.prod -p closlamartine -f docker-compose.prod.yml restart 2>&1"
    );
    assert_eq!(
        c.staging_compose_restart_sh,
        "docker compose --env-file .env.staging -p clsmstaging -f docker-compose.staging.yml restart 2>&1"
    );
    assert_eq!(c.ip_backend, None);
    assert_eq!(c.ip_admin_secret, None);
    assert_eq!(c.crowdsec_ban_duration, "4h");
    assert_eq!(c.crowdsec_ban_reason, "monitor");
    assert_eq!(c.reverse_proxy, ReverseProxyKind::Nginx);
    assert_eq!(c.traefik_config_scan_path, None);
    assert_eq!(c.webhook_expected_url, "https://www.mobile-i-love.com/monitor/webhook");
    assert!(c.webhook_startup_verify);
    assert!(!c.webhook_startup_strict);
}

#[test]
fn numbers_parse_or_fall_back() {
    let c = config_of(&[
        ("MONITOR_INTERVAL_SECS", "60"),
        ("MONITOR_MIN_MEMORY_MB", "512"),
        ("MONITOR_MIN_DISK_GB", "+2"),
        ("MONITOR_CERT_WARN_DAYS", "x"),
        ("MONITOR_WEBHOOK_PORT", "70000"),
    ]);
    assert_eq!(c.interval_secs, 60);
    assert_eq!(c.min_available_memory_bytes, 512 * 1024 * 1024);
    assert_eq!(c.min_available_disk_bytes, 2 * 1024 * 1024 * 1024);
    assert_eq!(c.cert_warn_days, 30);
    assert_eq!(c.webhook_port, 9090);
    let d = config_of(&[("MONITOR_INTERVAL_SECS", " 60"), ("MONITOR_WEBHOOK_PORT", "8443")]);
    assert_eq!(d.interval_secs, 300);
    assert_eq!(d.webhook_port, 8443);
}

#[test]
fn memory_threshold_wraps_like_u64() {
    let c = config_of(&[("MONITOR_MIN_MEMORY_MB", "18446744073709551615")]);
    assert_eq!(c.min_available_memory_bytes, u64::MAX.wrapping_mul(1024 * 1024));
}

#[test]
fn flags_accept_one_and_true() {
    let c = config_of(&[
        ("MONITOR_DEV", "TRUE"),
        ("MONITOR_KYLIT_WEBHOOK", "1"),
        ("MONITOR_WEBHOOK_STARTUP_VERIFY", "yes"),
        ("MONITOR_WEBHOOK_STARTUP_STRICT", "true"),
    ]);
    assert!(c.dev);
    assert!(c.kylit_webhook_enabled);
    assert!(!c.webhook_startup_verify);
    assert!(c.webhook_startup_strict);
}

#[test]
fn allowed_chat_ids_from_list_or_single() {
    let c = config_of(&[("TELEGRAM_ALLOWED_CHAT_IDS", " 123, ,-456 ,"), ("TELEGRAM_CHAT_ID", "9")]);
    assert_eq!(c.allowed_chat_ids, vec!["123", "-456"]);
    assert_eq!(c.telegram_chat_id, Some("9".to_string()));
    let d = config_of(&[("TELEGRAM_CHAT_ID", "9")]);
    assert_eq!(d.allowed_chat_ids, vec!["9"]);
    let e = config_of(&[("TELEGRAM_ALLOWED_CHAT_IDS", " , ")]);
    assert!(e.allowed_chat_ids.is_empty());
}

#[test]
fn container_lists_fall_back_when_empty() {
    let c = config_of(&[("MONITOR_PROD_CONTAINERS", " a , b ")]);
    assert_eq!(c.prod_containers, vec!["a", "b"]);
    let d = config_of(&[("MONITOR_PROD_CONTAINERS", " , ")]);
    assert_eq!(
        d.prod_containers,
        vec!["closlamartine_db", "closlamartine_backend", "closlamartine_frontend"]
    );
}

#[test]
fn first_variable_set_wins() {
    let c = config_of(&[("POSTGRES_USER", "pg"), ("KYLIT_PG_DB", "db"), ("POSTGRES_DB", "other")]);
    assert_eq!(c.kylit_pg_user, "pg");
    assert_eq!(c.kylit_pg_db, "db");
    let d = config_of(&[("MONITOR_SCOPE", "first"), ("MONITOR_SCOPE", "prod")]);
    assert_eq!(d.scope, MonitorScope::Both);
}

#[test]
fn blank_domains_and_secret_are_unset() {
    let c = config_of(&[
        ("MONITOR_PROD_DOMAIN", "   "),
        ("MONITOR_STAGING_DOMAIN", "stage.example"),
        ("MONITOR_IP_ADMIN_SECRET", " \t"),
        ("MONITOR_IP_BACKEND", "ufw"),
    ]);
    assert_eq!(c.prod_domain, "www.mobile-i-love.com");
    assert_eq!(c.staging_domain, "stage.example");
    assert_eq!(c.ip_admin_secret, None);
    assert_eq!(c.ip_backend, Some(IpFirewallBackend::Ufw));
    assert!(!c.ip_admin_enabled());
}

#[test]
fn kylit_script_follows_deploy_path() {
    let c = config_of(&[("KYLIT_DEPLOY_PATH", "/srv/kylit/")]);
    assert_eq!(c.kylit_backup_script, "/srv/kylit/scripts/kylit-prod-backup.sh");
    let d = config_of(&[("KYLIT_BACKUP_SCRIPT", "/x.sh")]);
    assert_eq!(d.kylit_backup_script, "/x.sh");
}

#[test]
fn path_joining() {
    assert_eq!(path_join("/tmp", "a"), "/tmp/a");
    assert_eq!(path_join("/tmp/", "a"), "/tmp/a");
    assert_eq!(path_join("", "a"), "a");
}

#[test]
fn expected_url_from_domain_or_override() {
    assert_eq!(
        expected_webhook_url(None, " https://https://example.org/path "),
        "https://example.org/monitor/webhook"
    );
    assert_eq!(
        expected_webhook_url(None, "http://host.example"),
        "https://host.example/monitor/webhook"
    );
    assert_eq!(
        expected_webhook_url(Some("  https://x/y  ".to_string()), "ignored"),
        "https://x/y"
    );
    assert_eq!(
        expected_webhook_url(Some("   ".to_string()), "d.example"),
        "https://d.example/monitor/webhook"
    );
    let c = config_of(&[("MONITOR_PROD_DOMAIN", "prod.example/sub")]);
    assert_eq!(c.webhook_expected_url, "https://prod.example/monitor/webhook");
}

#[test]
fn builders_change_one_setting() {
    let c = config_of(&[]);
    let d = c.clone().with_dev(true);
    assert!(d.dev);
    assert_eq!(d.scope, c.scope);
    let e = d.with_scope(MonitorScope::Staging);
    assert_eq!(e.scope, MonitorScope::Staging);
    assert!(e.dev);
}

#[test]
fn feature_switches() {
    let c = config_of(&[]);
    assert!(!c.telegram_configured());
    assert!(!c.webhook_enabled());
    let d = config_of(&[
        ("TELEGRAM_BOT_TOKEN", "t"),
        ("TELEGRAM_CHAT_ID", "1"),
        ("MONITOR_WEBHOOK_SECRET", "s"),
        ("MONITOR_IP_BACKEND", "crowdsec"),
        ("MONITOR_IP_ADMIN_SECRET", "pw"),
    ]);
    assert!(d.telegram_configured());
    assert!(d.webhook_enabled());
    assert!(d.ip_admin_enabled());
    let e = config_of(&[("TELEGRAM_BOT_TOKEN", "t"), ("TELEGRAM_ALLOWED_CHAT_IDS", "")]);
    assert!(!e.telegram_configured());
}
