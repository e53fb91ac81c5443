//! Configuration read from environment variables.
use vstd::prelude::*;

use crate::text::{
    all_digits, ascii_lower_seq, decimal, eq_ignore_ascii_case, has_prefix, non_empty_only,
    owned, parse_decimal, parse_unsigned, split_seq, split_trimmed_non_empty, str_eq,
    strip_all_prefix, trim, trim_all, trim_seq, views,
};

verus! {

/// Environment scope monitored by this instance.
#[derive(Debug, Clone, Copy, PartialEq, Eq, Structural)]
pub enum MonitorScope {
    Both,
    Prod,
    Staging,
}

/// The scope that a configured name selects.
pub open spec fn scope_named(value: Seq<char>) -> MonitorScope {
    let v = ascii_lower_seq(trim_seq(value));
    if v == "prod"@ || v == "production"@ {
        MonitorScope::Prod
    } else if v == "staging"@ {
        MonitorScope::Staging
    } else {
        MonitorScope::Both
    }
}

impl MonitorScope {
    /// `prod` / `production`, `staging`, anything else: both (case and
    /// surrounding whitespace ignored).
    pub fn from_str(value: &str) -> (r: Self)
        ensures
            r == scope_named(value@),
    {
        let t = trim(value);
        let v = crate::text::ascii_lower(t.as_str());
        if str_eq(v.as_str(), "prod") || str_eq(v.as_str(), "production") {
            MonitorScope::Prod
        } else if str_eq(v.as_str(), "staging") {
            MonitorScope::Staging
        } else {
            MonitorScope::Both
        }
    }

    /// Production is checked under this scope.
    pub fn covers_prod(&self) -> (r: bool)
        ensures
            r == (*self != MonitorScope::Staging),
    {
        match self {
            MonitorScope::Both | MonitorScope::Prod => true,
            MonitorScope::Staging => false,
        }
    }

    /// Staging is checked under this scope.
    pub fn covers_staging(&self) -> (r: bool)
        ensures
            r == (*self != MonitorScope::Prod),
    {
        match self {
            MonitorScope::Both | MonitorScope::Staging => true,
            MonitorScope::Prod => false,
        }
    }
}

/// Backend for password-gated IP admin commands (`/ip_*`).
#[derive(Debug, Clone, Copy, PartialEq, Eq, Structural)]
pub enum IpFirewallBackend {
    Ufw,
    Crowdsec,
}

/// The firewall backend that a configured name selects.
pub open spec fn backend_named(value: Seq<char>) -> Option<IpFirewallBackend> {
    let v = ascii_lower_seq(trim_seq(value));
    if v == "ufw"@ {
        Some(IpFirewallBackend::Ufw)
    } else if v == "crowdsec"@ {
        Some(IpFirewallBackend::Crowdsec)
    } else {
        None
    }
}

impl IpFirewallBackend {
    /// `ufw` or `crowdsec` (case and surrounding whitespace ignored).
    pub fn from_str(value: &str) -> (r: Option<Self>)
        ensures
            r == backend_named(value@),
    {
        let t = trim(value);
        let v = crate::text::ascii_lower(t.as_str());
        if str_eq(v.as_str(), "ufw") {
            Some(IpFirewallBackend::Ufw)
        } else if str_eq(v.as_str(), "crowdsec") {
            Some(IpFirewallBackend::Crowdsec)
        } else {
            None
        }
    }
}

/// Which reverse proxy `diagnose` / `/self` should check on disk.
#[derive(Debug, Clone, Copy, PartialEq, Eq, Structural)]
pub enum ReverseProxyKind {
    /// grep `/etc/nginx/sites-enabled/` + `telegram-webhook-secret.conf`
    Nginx,
    /// grep `MONITOR_TRAEFIK_CONFIG_SCAN_PATH` for `monitor/webhook`
    Traefik,
    /// Skip local proxy file checks (e.g. cloud LB only)
    Disabled,
}

/// The reverse proxy that a configured name selects.
pub open spec fn proxy_named(value: Seq<char>) -> Option<ReverseProxyKind> {
    let v = ascii_lower_seq(trim_seq(value));
    if v == "nginx"@ {
        Some(ReverseProxyKind::Nginx)
    } else if v == "traefik"@ {
        Some(ReverseProxyKind::Traefik)
    } else if v == "none"@ || v == "off"@ {
        Some(ReverseProxyKind::Disabled)
    } else {
        None
    }
}

impl ReverseProxyKind {
    /// `nginx`, `traefik`, `none` or `off` (case and surrounding whitespace ignored).
    pub fn from_str(value: &str) -> (r: Option<Self>)
        ensures
            r == proxy_named(value@),
    {
        let t = trim(value);
        let v = crate::text::ascii_lower(t.as_str());
        if str_eq(v.as_str(), "nginx") {
            Some(ReverseProxyKind::Nginx)
        } else if str_eq(v.as_str(), "traefik") {
            Some(ReverseProxyKind::Traefik)
        } else if str_eq(v.as_str(), "none") || str_eq(v.as_str(), "off") {
            Some(ReverseProxyKind::Disabled)
        } else {
            None
        }
    }
}

/// The process environment: names and values of the variables that hold text.
pub struct Environment {
    pub vars: Vec<(String, String)>,
}

/// The value of the variable `name`: the first pair with that name.
pub open spec fn env_lookup(vars: Seq<(String, String)>, name: Seq<char>) -> Option<Seq<char>>
    decreases vars.len(),
{
    if vars.len() == 0 {
        None
    } else if vars[0].0@ == name {
        Some(vars[0].1@)
    } else {
        env_lookup(vars.drop_first(), name)
    }
}

/// The text of an optional `String`.
pub open spec fn opt_text(o: Option<String>) -> Option<Seq<char>> {
    match o {
        Some(s) => Some(s@),
        None => None,
    }
}

/// The value, or `default` when the variable is unset.
pub open spec fn text_or(v: Option<Seq<char>>, default: Seq<char>) -> Seq<char> {
    match v {
        Some(t) => t,
        None => default,
    }
}

/// `1` or `true` (any case) is on.
pub open spec fn truthy(v: Seq<char>) -> bool {
    v == "1"@ || ascii_lower_seq(v) == ascii_lower_seq("true"@)
}

/// A flag variable: `truthy` when set, `default` when unset.
pub open spec fn flag_or(v: Option<Seq<char>>, default: bool) -> bool {
    match v {
        Some(t) => truthy(t),
        None => default,
    }
}

/// A number variable read as an unsigned integer up to `max`, `default` when
/// it is unset or does not parse.
pub open spec fn number_or(v: Option<Seq<char>>, max: nat, default: nat) -> nat {
    match v {
        Some(t) => match parse_unsigned(t, max) {
            Some(n) => n,
            None => default,
        },
        None => default,
    }
}

/// The value when it is set and not blank.
pub open spec fn non_blank(v: Option<Seq<char>>) -> Option<Seq<char>> {
    match v {
        Some(t) => if trim_seq(t).len() > 0 {
            Some(t)
        } else {
            None
        },
        None => None,
    }
}

/// A comma-separated list: trimmed non-empty items, `default` when unset or
/// when no item remains.
pub open spec fn csv_or(v: Option<Seq<char>>, default: Seq<Seq<char>>) -> Seq<Seq<char>> {
    match v {
        Some(t) => {
            let items = non_empty_only(trim_all(split_seq(t, ',')));
            if items.len() == 0 {
                default
            } else {
                items
            }
        },
        None => default,
    }
}

/// A relative path `part` appended to `base` (`PathBuf::join`).
pub open spec fn path_join_seq(base: Seq<char>, part: Seq<char>) -> Seq<char> {
    if base.len() > 0 && base.last() != '/' {
        base + seq!['/'] + part
    } else {
        base + part
    }
}

/// The public webhook URL: the non-blank override trimmed, otherwise
/// `https://HOST/monitor/webhook` with HOST taken from the production domain.
pub open spec fn expected_url_from(over: Option<Seq<char>>, domain: Seq<char>) -> Seq<char> {
    match non_blank(over) {
        Some(u) => trim_seq(u),
        None => {
            let bare = strip_all_prefix(strip_all_prefix(trim_seq(domain), "https://"@), "http://"@);
            "https://"@ + split_seq(bare, '/')[0] + "/monitor/webhook"@
        },
    }
}

/// Allowed chat IDs: the comma-separated list when set (possibly empty),
/// otherwise the single alert chat ID, otherwise none.
pub open spec fn chat_ids_from(list: Option<Seq<char>>, single: Option<Seq<char>>) -> Seq<
    Seq<char>,
> {
    match list {
        Some(t) => non_empty_only(trim_all(split_seq(t, ','))),
        None => match single {
            Some(id) => seq![id],
            None => Seq::empty(),
        },
    }
}

impl Environment {
    /// `std::env::var(name).ok()`.
    pub fn var(&self, name: &str) -> (r: Option<String>)
        ensures
            opt_text(r) == env_lookup(self.vars@, name@),
    {
        let mut i: usize = 0;
        assert(self.vars@.skip(0) =~= self.vars@);
        while i < self.vars.len()
            invariant
                i <= self.vars@.len(),
                env_lookup(self.vars@, name@) == env_lookup(self.vars@.skip(i as int), name@),
            decreases self.vars.len() - i,
        {
            proof {
                assert(self.vars@.skip(i as int).drop_first() =~= self.vars@.skip(i + 1));
                assert(self.vars@.skip(i as int)[0] == self.vars@[i as int]);
            }
            if str_eq(self.vars[i].0.as_str(), name) {
                return Some(owned(self.vars[i].1.as_str()));
            }
            i += 1;
        }
        None
    }

    fn var_or(&self, name: &str, default: &str) -> (r: String)
        ensures
            r@ == text_or(env_lookup(self.vars@, name@), default@),
    {
        match self.var(name) {
            Some(v) => v,
            None => owned(default),
        }
    }

    fn flag(&self, name: &str, default: bool) -> (r: bool)
        ensures
            r == flag_or(env_lookup(self.vars@, name@), default),
    {
        match self.var(name) {
            Some(v) => str_eq(v.as_str(), "1") || eq_ignore_ascii_case(v.as_str(), "true"),
            None => default,
        }
    }

    fn number(&self, name: &str, max: u64, default: u64) -> (r: u64)
        requires
            default <= max,
        ensures
            r as nat == number_or(env_lookup(self.vars@, name@), max as nat, default as nat),
            r <= max,
    {
        match self.var(name) {
            Some(v) => match parse_decimal(v.as_str(), max) {
                Some(n) => n,
                None => default,
            },
            None => default,
        }
    }

    fn non_blank_var(&self, name: &str) -> (r: Option<String>)
        ensures
            opt_text(r) == non_blank(env_lookup(self.vars@, name@)),
    {
        match self.var(name) {
            Some(v) => {
                let t = trim(v.as_str());
                if t.unicode_len() > 0 {
                    Some(v)
                } else {
                    None
                }
            },
            None => None,
        }
    }

    fn csv(&self, name: &str, default: Vec<String>) -> (r: Vec<String>)
        ensures
            views(r@) == csv_or(env_lookup(self.vars@, name@), views(default@)),
    {
        match self.var(name) {
            Some(v) => {
                let items = split_trimmed_non_empty(v.as_str(), ',');
                if items.len() == 0 {
                    default
                } else {
                    items
                }
            },
            None => default,
        }
    }
}

/// `base` joined with the relative path `part`.
pub fn path_join(base: &str, part: &str) -> (r: String)
    ensures
        r@ == path_join_seq(base@, part@),
{
    let mut r = owned(base);
    let n = base.unicode_len();
    if n > 0 && base.get_char(n - 1) != '/' {
        crate::text::push_char(&mut r, '/');
    }
    r.append(part);
    r
}

/// The public webhook URL Telegram must call.
pub fn expected_webhook_url(over: Option<String>, domain: &str) -> (r: String)
    ensures
        r@ == expected_url_from(opt_text(over), domain@),
{
    let over_blank = match &over {
        Some(u) => trim(u.as_str()).unicode_len() == 0,
        None => true,
    };
    match over {
        Some(u) if !over_blank => trim(u.as_str()),
        _ => {
            proof {
                reveal_strlit("https://");
                reveal_strlit("http://");
            }
            let t = trim(domain);
            let a = crate::text::trim_start_matches(t.as_str(), "https://");
            let b = crate::text::trim_start_matches(a.as_str(), "http://");
            let host = crate::text::before_first(b.as_str(), '/');
            let mut r = owned("https://");
            r.append(host.as_str());
            r.append("/monitor/webhook");
            r
        },
    }
}

/// Monitor configuration.
#[derive(Debug, Clone)]
pub struct Config {
    pub telegram_bot_token: Option<String>,
    pub telegram_chat_id: Option<String>,
    /// Allowed chat IDs for webhook commands (TELEGRAM_CHAT_ID or comma-separated TELEGRAM_ALLOWED_CHAT_IDS).
    pub allowed_chat_ids: Vec<String>,
    pub interval_secs: u64,
    pub docker_socket: String,
    /// Min available memory (bytes) before alert. Default: 100 MiB.
    pub min_available_memory_bytes: u64,
    /// Min available disk space (bytes) before alert. Default: 1 GiB.
    pub min_available_disk_bytes: u64,
    /// Warn when SSL cert expires within this many days. Default: 30.
    pub cert_warn_days: u32,
    /// Dev mode: check local docker-compose (backend 58081, frontend 58080), skip nginx/SSL.
    pub dev: bool,
    /// Webhook HTTP server port. Default: 9090.
    pub webhook_port: u16,
    /// Secret token for webhook validation (X-Telegram-Bot-Api-Secret-Token).
    pub webhook_secret: Option<String>,
    /// Prod deploy path for backup/restart. Default: /home/closlamartine/app.
    pub prod_deploy_path: String,
    /// Staging deploy path for backup/restart. Default: /home/clsmstaging/app.
    pub staging_deploy_path: String,
    /// Scope of monitored environments (both|prod|staging). Default: both.
    pub scope: MonitorScope,
    /// Production domain shown in alert messages.
    pub prod_domain: String,
    /// Staging domain shown in alert messages.
    pub staging_domain: String,
    /// Path for PID file (daemon mode). Default: /tmp/clos-monitor.pid.
    pub pid_file: String,
    /// Expected `comm` names for PID file check / diagnose (MONITOR_PROCESS_COMM comma-separated).
    pub expected_process_names: Vec<String>,
    /// When true, Telegram webhook exposes /kylit_* backup commands (MONITOR_KYLIT_WEBHOOK=1).
    pub kylit_webhook_enabled: bool,
    /// Kylit deploy directory on server. Default: /home/kylit/kylit
    pub kylit_deploy_path: String,
    /// Full path to kylit-prod-backup.sh. Default: {kylit_deploy_path}/scripts/kylit-prod-backup.sh
    pub kylit_backup_script: String,
    /// Passed to backup script as KYLIT_ENV_FILE (e.g. .env.prod).
    pub kylit_env_file: Option<String>,
    /// Postgres container name. Default: kylit-postgres
    pub kylit_pg_container: String,
    pub kylit_pg_user: String,
    pub kylit_pg_db: String,
    /// SQL dumps from /kylit_backup_db. Default: /var/backups/kylit
    pub kylit_backup_root: String,
    /// Kylit Docker container names for /kylit_docker (comma-separated).
    pub kylit_container_names: Vec<String>,
    /// Prod stack container names (MONITOR_PROD_CONTAINERS).
    pub prod_containers: Vec<String>,
    /// Staging stack container names (MONITOR_STAGING_CONTAINERS).
    pub staging_containers: Vec<String>,
    pub prod_backend_url: String,
    pub prod_frontend_url: String,
    pub staging_backend_url: String,
    pub staging_frontend_url: String,
    pub dev_backend_url: String,
    pub dev_frontend_url: String,
    /// Postgres container for /prod_backup (docker exec).
    pub prod_pg_container: String,
    pub staging_pg_container: String,
    /// Shell fragment run after `cd prod_deploy_path` for prod restart.
    pub prod_compose_restart_sh: String,
    pub staging_compose_restart_sh: String,
    /// IP admin: backend when MONITOR_IP_BACKEND=ufw|crowdsec and MONITOR_IP_ADMIN_SECRET set.
    pub ip_backend: Option<IpFirewallBackend>,
    pub ip_admin_secret: Option<String>,
    pub crowdsec_ban_duration: String,
    pub crowdsec_ban_reason: String,
    /// Local reverse proxy type for diagnose (`MONITOR_REVERSE_PROXY`).
    pub reverse_proxy: ReverseProxyKind,
    /// Directory or file scanned with `grep -r` for `monitor/webhook` when using Traefik.
    pub traefik_config_scan_path: Option<String>,
    /// Public webhook URL Telegram must call (default `https://MONITOR_PROD_DOMAIN/monitor/webhook`).
    pub webhook_expected_url: String,
    /// After daemon start, call `getWebhookInfo` and compare to `webhook_expected_url`.
    pub webhook_startup_verify: bool,
    /// If true, daemon exits with error when startup webhook check fails.
    pub webhook_startup_strict: bool,
}

/// The default comm names of the daemon.
pub open spec fn default_process_names() -> Seq<Seq<char>> {
    seq!["clos-monitor"@, "server-monitor"@]
}

/// The default Kylit container names.
pub open spec fn default_kylit_containers() -> Seq<Seq<char>> {
    seq!["kylit-postgres"@, "kylit-backend"@, "kylit-minio"@, "kylit-app"@]
}

/// The default production container names.
pub open spec fn default_prod_containers() -> Seq<Seq<char>> {
    seq!["closlamartine_db"@, "closlamartine_backend"@, "closlamartine_frontend"@]
}

/// The default staging container names.
pub open spec fn default_staging_containers() -> Seq<Seq<char>> {
    seq!["clsmstaging_db"@, "clsmstaging_backend"@, "clsmstaging_frontend"@]
}

/// The Kylit deploy path.
pub open spec fn kylit_deploy_of(env: Seq<(String, String)>) -> Seq<char> {
    text_or(env_lookup(env, "KYLIT_DEPLOY_PATH"@), "/home/kylit/kylit"@)
}

/// The production domain.
pub open spec fn prod_domain_of(env: Seq<(String, String)>) -> Seq<char> {
    text_or(non_blank(env_lookup(env, "MONITOR_PROD_DOMAIN"@)), "www.mobile-i-love.com"@)
}

/// A value read from the first of two variables that is set, `default` otherwise.
pub open spec fn first_set_or(a: Option<Seq<char>>, b: Option<Seq<char>>, default: Seq<char>) -> Seq<char> {
    match a {
        Some(t) => t,
        None => text_or(b, default),
    }
}

fn var_or_either(env: &Environment, first: &str, second: &str, default: &str) -> (r: String)
    ensures
        r@ == first_set_or(env_lookup(env.vars@, first@), env_lookup(env.vars@, second@), default@),
{
    match env.var(first) {
        Some(v) => v,
        None => env.var_or(second, default),
    }
}

/// A number read from a variable as a `u64`, when it is set and parses.
pub open spec fn parse_or_none(v: Option<Seq<char>>) -> Option<nat> {
    match v {
        Some(t) => parse_unsigned(t, u64::MAX as nat),
        None => None,
    }
}

/// `n * factor` as `u64` multiplication wraps it.
fn wrapping_scale(n: u64, factor: u64) -> (r: u64)
    requires
        factor <= 0x1_0000_0000,
    ensures
        r == (n as nat * factor as nat) % 0x1_0000_0000_0000_0000,
{
    assert((n as u128) * (factor as u128) <= 0xffff_ffff_ffff_ffff * 0x1_0000_0000) by (nonlinear_arith)
        requires
            factor <= 0x1_0000_0000,
            n <= 0xffff_ffff_ffff_ffff,
    {
    }
    let wide: u128 = (n as u128) * (factor as u128);
    (wide % 0x1_0000_0000_0000_0000u128) as u64
}

fn default_names2(a: &str, b: &str) -> (r: Vec<String>)
    ensures
        views(r@) == seq![a@, b@],
{
    let r = vec![owned(a), owned(b)];
    assert(views(r@) =~= seq![a@, b@]);
    r
}

fn default_names3(a: &str, b: &str, c: &str) -> (r: Vec<String>)
    ensures
        views(r@) == seq![a@, b@, c@],
{
    let r = vec![owned(a), owned(b), owned(c)];
    assert(views(r@) =~= seq![a@, b@, c@]);
    r
}

fn default_names4(a: &str, b: &str, c: &str, d: &str) -> (r: Vec<String>)
    ensures
        views(r@) == seq![a@, b@, c@, d@],
{
    let r = vec![owned(a), owned(b), owned(c), owned(d)];
    assert(views(r@) =~= seq![a@, b@, c@, d@]);
    r
}

impl Config {
    /// Configuration from the environment, each setting with its default.
    #[verifier::rlimit(60)]
    pub fn from_env(env: &Environment) -> (c: Self)
        ensures
            opt_text(c.telegram_bot_token) == env_lookup(env.vars@, "TELEGRAM_BOT_TOKEN"@),
            opt_text(c.telegram_chat_id) == env_lookup(env.vars@, "TELEGRAM_CHAT_ID"@),
            views(c.allowed_chat_ids@) == chat_ids_from(
                env_lookup(env.vars@, "TELEGRAM_ALLOWED_CHAT_IDS"@),
                env_lookup(env.vars@, "TELEGRAM_CHAT_ID"@),
            ),
            c.interval_secs == number_or(
                env_lookup(env.vars@, "MONITOR_INTERVAL_SECS"@),
                u64::MAX as nat,
                300,
            ),
            c.docker_socket@ == text_or(
                env_lookup(env.vars@, "DOCKER_SOCKET"@),
                "/var/run/docker.sock"@,
            ),
            c.min_available_memory_bytes == (match parse_or_none(
                env_lookup(env.vars@, "MONITOR_MIN_MEMORY_MB"@),
            ) {
                Some(mb) => (mb * 0x10_0000) % 0x1_0000_0000_0000_0000,
                None => 100 * 0x10_0000,
            }),
            c.min_available_disk_bytes == (match parse_or_none(
                env_lookup(env.vars@, "MONITOR_MIN_DISK_GB"@),
            ) {
                Some(gb) => (gb * 0x4000_0000) % 0x1_0000_0000_0000_0000,
                None => 0x4000_0000,
            }),
            c.cert_warn_days == number_or(
                env_lookup(env.vars@, "MONITOR_CERT_WARN_DAYS"@),
                u32::MAX as nat,
                30,
            ),
            c.dev == flag_or(env_lookup(env.vars@, "MONITOR_DEV"@), false),
            c.webhook_port == number_or(
                env_lookup(env.vars@, "MONITOR_WEBHOOK_PORT"@),
                u16::MAX as nat,
                9090,
            ),
            opt_text(c.webhook_secret) == env_lookup(env.vars@, "MONITOR_WEBHOOK_SECRET"@),
            c.prod_deploy_path@ == text_or(
                env_lookup(env.vars@, "MONITOR_PROD_DEPLOY_PATH"@),
                "/home/closlamartine/app"@,
            ),
            c.staging_deploy_path@ == text_or(
                env_lookup(env.vars@, "MONITOR_STAGING_DEPLOY_PATH"@),
                "/home/clsmstaging/app"@,
            ),
            c.scope == (match env_lookup(env.vars@, "MONITOR_SCOPE"@) {
                Some(v) => scope_named(v),
                None => MonitorScope::Both,
            }),
            c.prod_domain@ == prod_domain_of(env.vars@),
            c.staging_domain@ == text_or(
                non_blank(env_lookup(env.vars@, "MONITOR_STAGING_DOMAIN"@)),
                "dlc.netsrv.be"@,
            ),
            c.pid_file@ == text_or(
                env_lookup(env.vars@, "MONITOR_PID_FILE"@),
                "/tmp/clos-monitor.pid"@,
            ),
            views(c.expected_process_names@) == csv_or(
                env_lookup(env.vars@, "MONITOR_PROCESS_COMM"@),
                default_process_names(),
            ),
            c.kylit_webhook_enabled == flag_or(env_lookup(env.vars@, "MONITOR_KYLIT_WEBHOOK"@), false),
            c.kylit_deploy_path@ == kylit_deploy_of(env.vars@),
            c.kylit_backup_script@ == text_or(
                env_lookup(env.vars@, "KYLIT_BACKUP_SCRIPT"@),
                path_join_seq(
                    path_join_seq(kylit_deploy_of(env.vars@), "scripts"@),
                    "kylit-prod-backup.sh"@,
                ),
            ),
            opt_text(c.kylit_env_file) == env_lookup(env.vars@, "KYLIT_ENV_FILE"@),
            c.kylit_pg_container@ == text_or(
                env_lookup(env.vars@, "KYLIT_PG_CONTAINER"@),
                "kylit-postgres"@,
            ),
            c.kylit_pg_user@ == first_set_or(
                env_lookup(env.vars@, "KYLIT_PG_USER"@),
                env_lookup(env.vars@, "POSTGRES_USER"@),
                "kylit"@,
            ),
            c.kylit_pg_db@ == first_set_or(
                env_lookup(env.vars@, "KYLIT_PG_DB"@),
                env_lookup(env.vars@, "POSTGRES_DB"@),
                "kylit"@,
            ),
            c.kylit_backup_root@ == text_or(
                env_lookup(env.vars@, "KYLIT_BACKUP_ROOT"@),
                "/var/backups/kylit"@,
            ),
            views(c.kylit_container_names@) == csv_or(
                env_lookup(env.vars@, "MONITOR_KYLIT_CONTAINERS"@),
                default_kylit_containers(),
            ),
            views(c.prod_containers@) == csv_or(
                env_lookup(env.vars@, "MONITOR_PROD_CONTAINERS"@),
                default_prod_containers(),
            ),
            views(c.staging_containers@) == csv_or(
                env_lookup(env.vars@, "MONITOR_STAGING_CONTAINERS"@),
                default_staging_containers(),
            ),
            c.prod_backend_url@ == text_or(
                env_lookup(env.vars@, "MONITOR_PROD_BACKEND_URL"@),
                "http://127.0.0.1:8087/api/health"@,
            ),
            c.prod_frontend_url@ == text_or(
                env_lookup(env.vars@, "MONITOR_PROD_FRONTEND_URL"@),
                "http://127.0.0.1:3009/"@,
            ),
            c.staging_backend_url@ == text_or(
                env_lookup(env.vars@, "MONITOR_STAGING_BACKEND_URL"@),
                "http://127.0.0.1:8088/api/health"@,
            ),
            c.staging_frontend_url@ == text_or(
                env_lookup(env.vars@, "MONITOR_STAGING_FRONTEND_URL"@),
                "http://127.0.0.1:3010/"@,
            ),
            c.dev_backend_url@ == text_or(
                env_lookup(env.vars@, "MONITOR_DEV_BACKEND_URL"@),
                "http://127.0.0.1:58081/api/health"@,
            ),
            c.dev_frontend_url@ == text_or(
                env_lookup(env.vars@, "MONITOR_DEV_FRONTEND_URL"@),
                "http://127.0.0.1:58080/"@,
            ),
            c.prod_pg_container@ == text_or(
                env_lookup(env.vars@, "MONITOR_PROD_PG_CONTAINER"@),
                "closlamartine_db"@,
            ),
            c.staging_pg_container@ == text_or(
                env_lookup(env.vars@, "MONITOR_STAGING_PG_CONTAINER"@),
                "clsmstaging_db"@,
            ),
            c.prod_compose_restart_sh@ == text_or(
                env_lookup(env.vars@, "MONITOR_PROD_COMPOSE_RESTART_SH"@),
                "docker compose --env-file .env.prod -p closlamartine -f docker-compose.prod.yml restart 2>&1"@,
            ),
            c.staging_compose_restart_sh@ == text_or(
                env_lookup(env.vars@, "MONITOR_STAGING_COMPOSE_RESTART_SH"@),
                "docker compose --env-file .env.staging -p clsmstaging -f docker-compose.staging.yml restart 2>&1"@,
            ),
            c.ip_backend == (match env_lookup(env.vars@, "MONITOR_IP_BACKEND"@) {
                Some(v) => backend_named(v),
                None => None,
            }),
            opt_text(c.ip_admin_secret) == non_blank(
                env_lookup(env.vars@, "MONITOR_IP_ADMIN_SECRET"@),
            ),
            c.crowdsec_ban_duration@ == text_or(
                env_lookup(env.vars@, "MONITOR_CROWDSEC_BAN_DURATION"@),
                "4h"@,
            ),
            c.crowdsec_ban_reason@ == text_or(
                env_lookup(env.vars@, "MONITOR_CROWDSEC_BAN_REASON"@),
                "monitor"@,
            ),
            c.reverse_proxy == (match env_lookup(env.vars@, "MONITOR_REVERSE_PROXY"@) {
                Some(v) => match proxy_named(v) {
                    Some(k) => k,
                    None => ReverseProxyKind::Nginx,
                },
                None => ReverseProxyKind::Nginx,
            }),
            opt_text(c.traefik_config_scan_path) == env_lookup(
                env.vars@,
                "MONITOR_TRAEFIK_CONFIG_SCAN_PATH"@,
            ),
            c.webhook_expected_url@ == expected_url_from(
                env_lookup(env.vars@, "MONITOR_WEBHOOK_EXPECTED_URL"@),
                prod_domain_of(env.vars@),
            ),
            c.webhook_startup_verify == flag_or(
                env_lookup(env.vars@, "MONITOR_WEBHOOK_STARTUP_VERIFY"@),
                true,
            ),
            c.webhook_startup_strict == flag_or(
                env_lookup(env.vars@, "MONITOR_WEBHOOK_STARTUP_STRICT"@),
                false,
            ),
    {
        let interval_secs = env.number("MONITOR_INTERVAL_SECS", u64::MAX, 300);
        let docker_socket = env.var_or("DOCKER_SOCKET", "/var/run/docker.sock");
        let min_available_memory_bytes = match env.var("MONITOR_MIN_MEMORY_MB") {
            Some(v) => match parse_decimal(v.as_str(), u64::MAX) {
                Some(mb) => wrapping_scale(mb, 0x10_0000),
                None => 100 * 1024 * 1024,
            },
            None => 100 * 1024 * 1024,
        };
        let min_available_disk_bytes = match env.var("MONITOR_MIN_DISK_GB") {
            Some(v) => match parse_decimal(v.as_str(), u64::MAX) {
                Some(gb) => wrapping_scale(gb, 0x4000_0000),
                None => 1024 * 1024 * 1024,
            },
            None => 1024 * 1024 * 1024,
        };
        let cert_warn_days = env.number("MONITOR_CERT_WARN_DAYS", 0xffff_ffff, 30) as u32;
        let dev = env.flag("MONITOR_DEV", false);
        let webhook_port = env.number("MONITOR_WEBHOOK_PORT", 0xffff, 9090) as u16;
        let webhook_secret = env.var("MONITOR_WEBHOOK_SECRET");
        let allowed_chat_ids = match env.var("TELEGRAM_ALLOWED_CHAT_IDS") {
            Some(v) => split_trimmed_non_empty(v.as_str(), ','),
            None => match env.var("TELEGRAM_CHAT_ID") {
                Some(id) => vec![id],
                None => Vec::new(),
            },
        };
        let prod_deploy_path = env.var_or("MONITOR_PROD_DEPLOY_PATH", "/home/closlamartine/app");
        let staging_deploy_path = env.var_or("MONITOR_STAGING_DEPLOY_PATH", "/home/clsmstaging/app");
        let scope = match env.var("MONITOR_SCOPE") {
            Some(v) => MonitorScope::from_str(v.as_str()),
            None => MonitorScope::Both,
        };
        let prod_domain = match env.non_blank_var("MONITOR_PROD_DOMAIN") {
            Some(v) => v,
            None => owned("www.mobile-i-love.com"),
        };
        let staging_domain = match env.non_blank_var("MONITOR_STAGING_DOMAIN") {
            Some(v) => v,
            None => owned("dlc.netsrv.be"),
        };
        let pid_file = env.var_or("MONITOR_PID_FILE", "/tmp/clos-monitor.pid");
        let expected_process_names = env.csv(
            "MONITOR_PROCESS_COMM",
            default_names2("clos-monitor", "server-monitor"),
        );
        let kylit_webhook_enabled = env.flag("MONITOR_KYLIT_WEBHOOK", false);
        let kylit_deploy_path = env.var_or("KYLIT_DEPLOY_PATH", "/home/kylit/kylit");
        let kylit_backup_script = match env.var("KYLIT_BACKUP_SCRIPT") {
            Some(v) => v,
            None => {
                let scripts = path_join(kylit_deploy_path.as_str(), "scripts");
                path_join(scripts.as_str(), "kylit-prod-backup.sh")
            },
        };
        let kylit_env_file = env.var("KYLIT_ENV_FILE");
        let kylit_pg_container = env.var_or("KYLIT_PG_CONTAINER", "kylit-postgres");
        let kylit_pg_user = var_or_either(env, "KYLIT_PG_USER", "POSTGRES_USER", "kylit");
        let kylit_pg_db = var_or_either(env, "KYLIT_PG_DB", "POSTGRES_DB", "kylit");
        let kylit_backup_root = env.var_or("KYLIT_BACKUP_ROOT", "/var/backups/kylit");
        let kylit_container_names = env.csv(
            "MONITOR_KYLIT_CONTAINERS",
            default_names4("kylit-postgres", "kylit-backend", "kylit-minio", "kylit-app"),
        );
        let prod_containers = env.csv(
            "MONITOR_PROD_CONTAINERS",
            default_names3("closlamartine_db", "closlamartine_backend", "closlamartine_frontend"),
        );
        let staging_containers = env.csv(
            "MONITOR_STAGING_CONTAINERS",
            default_names3("clsmstaging_db", "clsmstaging_backend", "clsmstaging_frontend"),
        );
        let prod_backend_url = env.var_or(
            "MONITOR_PROD_BACKEND_URL",
            "http://127.0.0.1:8087/api/health",
        );
        let prod_frontend_url = env.var_or("MONITOR_PROD_FRONTEND_URL", "http://127.0.0.1:3009/");
        let staging_backend_url = env.var_or(
            "MONITOR_STAGING_BACKEND_URL",
            "http://127.0.0.1:8088/api/health",
        );
        let staging_frontend_url = env.var_or(
            "MONITOR_STAGING_FRONTEND_URL",
            "http://127.0.0.1:3010/",
        );
        let dev_backend_url = env.var_or(
            "MONITOR_DEV_BACKEND_URL",
            "http://127.0.0.1:58081/api/health",
        );
        let dev_frontend_url = env.var_or("MONITOR_DEV_FRONTEND_URL", "http://127.0.0.1:58080/");
        let prod_pg_container = env.var_or("MONITOR_PROD_PG_CONTAINER", "closlamartine_db");
        let staging_pg_container = env.var_or("MONITOR_STAGING_PG_CONTAINER", "clsmstaging_db");
        let prod_compose_restart_sh = env.var_or(
            "MONITOR_PROD_COMPOSE_RESTART_SH",
            "docker compose --env-file .env.prod -p closlamartine -f docker-compose.prod.yml restart 2>&1",
        );
        let staging_compose_restart_sh = env.var_or(
            "MONITOR_STAGING_COMPOSE_RESTART_SH",
            "docker compose --env-file .env.staging -p clsmstaging -f docker-compose.staging.yml restart 2>&1",
        );
        let ip_backend = match env.var("MONITOR_IP_BACKEND") {
            Some(v) => IpFirewallBackend::from_str(v.as_str()),
            None => None,
        };
        let ip_admin_secret = env.non_blank_var("MONITOR_IP_ADMIN_SECRET");
        let crowdsec_ban_duration = env.var_or("MONITOR_CROWDSEC_BAN_DURATION", "4h");
        let crowdsec_ban_reason = env.var_or("MONITOR_CROWDSEC_BAN_REASON", "monitor");
        let reverse_proxy = match env.var("MONITOR_REVERSE_PROXY") {
            Some(v) => match ReverseProxyKind::from_str(v.as_str()) {
                Some(k) => k,
                None => ReverseProxyKind::Nginx,
            },
            None => ReverseProxyKind::Nginx,
        };
        let traefik_config_scan_path = env.var("MONITOR_TRAEFIK_CONFIG_SCAN_PATH");
        let webhook_expected_url = expected_webhook_url(
            env.var("MONITOR_WEBHOOK_EXPECTED_URL"),
            prod_domain.as_str(),
        );
        let webhook_startup_verify = env.flag("MONITOR_WEBHOOK_STARTUP_VERIFY", true);
        let webhook_startup_strict = env.flag("MONITOR_WEBHOOK_STARTUP_STRICT", false);
        let telegram_bot_token = env.var("TELEGRAM_BOT_TOKEN");
        let telegram_chat_id = env.var("TELEGRAM_CHAT_ID");
        Config {
            telegram_bot_token,
            telegram_chat_id,
            allowed_chat_ids,
            interval_secs,
            docker_socket,
            min_available_memory_bytes,
            min_available_disk_bytes,
            cert_warn_days,
            dev,
            webhook_port,
            webhook_secret,
            prod_deploy_path,
            staging_deploy_path,
            scope,
            prod_domain,
            staging_domain,
            pid_file,
            expected_process_names,
            kylit_webhook_enabled,
            kylit_deploy_path,
            kylit_backup_script,
            kylit_env_file,
            kylit_pg_container,
            kylit_pg_user,
            kylit_pg_db,
            kylit_backup_root,
            kylit_container_names,
            prod_containers,
            staging_containers,
            prod_backend_url,
            prod_frontend_url,
            staging_backend_url,
            staging_frontend_url,
            dev_backend_url,
            dev_frontend_url,
            prod_pg_container,
            staging_pg_container,
            prod_compose_restart_sh,
            staging_compose_restart_sh,
            ip_backend,
            ip_admin_secret,
            crowdsec_ban_duration,
            crowdsec_ban_reason,
            reverse_proxy,
            traefik_config_scan_path,
            webhook_expected_url,
            webhook_startup_verify,
            webhook_startup_strict,
        }
    }

    pub fn with_dev(self, dev: bool) -> (c: Self)
        ensures
            c == (Config { dev, ..self }),
    {
        let mut c = self;
        c.dev = dev;
        c
    }

    pub fn with_scope(self, scope: MonitorScope) -> (c: Self)
        ensures
            c == (Config { scope, ..self }),
    {
        let mut c = self;
        c.scope = scope;
        c
    }

    /// Alerts can be sent: a bot token and at least one allowed chat.
    pub fn telegram_configured(&self) -> (r: bool)
        ensures
            r == (self.telegram_bot_token is Some && self.allowed_chat_ids@.len() > 0),
    {
        self.telegram_bot_token.is_some() && self.allowed_chat_ids.len() > 0
    }

    /// Webhook is enabled when secret is set (required for security).
    pub fn webhook_enabled(&self) -> (r: bool)
        ensures
            r == self.webhook_secret is Some,
    {
        self.webhook_secret.is_some()
    }

    /// Password-gated `/ip_*` commands when secret and backend are set.
    pub fn ip_admin_enabled(&self) -> (r: bool)
        ensures
            r == (self.ip_admin_secret is Some && self.ip_backend is Some),
    {
        self.ip_admin_secret.is_some() && self.ip_backend.is_some()
    }
}

} // verus!
