//! Telegram webhook commands: the checks made on each update, the command
//! it asks for, and the texts of the replies.
use vstd::prelude::*;
use vstd::string::StringSliceAdditionalSpecFns;

use crate::config::{opt_text, path_join_seq, Config, IpFirewallBackend};
use crate::docker::{ContainerInfo, ContainerStatus, HealthStatus};
use crate::ip_admin::password_ok;
use crate::text::{
    first_chars, has_substring, join_seq, last_chars, owned, shell_quote_seq, signed_decimal,
    split_seq, trim_seq, views, words_seq,
};

verus! {

broadcast use vstd::utf8::encode_utf8_decode_utf8;

/// Telegram Update payload (minimal fields we need).
#[derive(Debug, Clone)]
pub struct TelegramUpdate {
    pub update_id: i64,
    pub message: Option<TelegramMessage>,
}

#[derive(Debug, Clone)]
pub struct TelegramMessage {
    pub chat: TelegramChat,
    pub text: Option<String>,
}

#[derive(Debug, Clone)]
pub struct TelegramChat {
    pub id: i64,
}

// ---------------------------------------------------------------------
// Commands
// ---------------------------------------------------------------------

/// What `str::to_lowercase` gives (Unicode lower case of every character).
pub uninterp spec fn unicode_lower(s: Seq<char>) -> Seq<char>;

/// `str::to_lowercase`. The contract claims only that the result is a
/// function of the text, named `unicode_lower`.
#[verifier::external_body]
fn to_lowercase(s: &str) -> (r: String)
    ensures
        r@ == unicode_lower(s@),
{
    s.to_lowercase()
}

/// Dashes (including the long ones phones type) and colons become underscores.
pub open spec fn command_char(c: char) -> char {
    if c == '—' || c == '–' || c == '-' || c == ':' {
        '_'
    } else {
        c
    }
}

/// A command without the `@BotName` suffix, separators made underscores.
pub open spec fn normalized(cmd: Seq<char>) -> Seq<char> {
    split_seq(cmd, '@')[0].map_values(|c: char| command_char(c))
}

/// Strip the bot suffix of group chats (`/help@closlamartineBot` → `/help`)
/// and accept `-`, `—`, `–` and `:` as separators (`/status-prod` → `/status_prod`).
pub fn normalize_command(cmd: &str) -> (r: String)
    ensures
        r@ == normalized(cmd@),
{
    let head = crate::text::before_first(cmd, '@');
    let v = crate::text::chars_of(head.as_str());
    let mut r = String::new();
    let mut i: usize = 0;
    while i < v.len()
        invariant
            i <= v@.len(),
            v@ == split_seq(cmd@, '@')[0],
            r@ == v@.take(i as int).map_values(|c: char| command_char(c)),
        decreases v.len() - i,
    {
        let c = v[i];
        let d = if c == '—' || c == '–' || c == '-' || c == ':' {
            '_'
        } else {
            c
        };
        crate::text::push_char(&mut r, d);
        assert(v@.take(i + 1).map_values(|c: char| command_char(c)) =~= v@.take(i as int).map_values(
            |c: char| command_char(c),
        ).push(command_char(v@[i as int])));
        i += 1;
    }
    assert(v@.take(v@.len() as int) =~= v@);
    r
}

proof fn lemma_split_state_no_sep(s: Seq<char>, c: char)
    requires
        !s.contains(c),
    ensures
        crate::text::split_state(s, c).0.len() == 0,
        crate::text::split_state(s, c).1 == s,
    decreases s.len(),
{
    if s.len() > 0 {
        assert(!s.drop_last().contains(c)) by {
            if s.drop_last().contains(c) {
                let i = choose|i: int| 0 <= i < s.drop_last().len() && s.drop_last()[i] == c;
                assert(s[i] == c);
            }
        }
        lemma_split_state_no_sep(s.drop_last(), c);
        assert(s.drop_last().push(s.last()) =~= s);
    }
}

proof fn lemma_split_state_first(s: Seq<char>, c: char)
    ensures
        !crate::text::split_seq(s, c)[0].contains(c),
        crate::text::split_state(s, c).1.len() <= s.len(),
        forall|k: int|
            0 <= k < crate::text::split_state(s, c).0.len() ==> !#[trigger] crate::text::split_state(
                s,
                c,
            ).0[k].contains(c),
        !crate::text::split_state(s, c).1.contains(c),
    decreases s.len(),
{
    if s.len() > 0 {
        lemma_split_state_first(s.drop_last(), c);
        let (done, cur) = crate::text::split_state(s.drop_last(), c);
        if s.last() != c {
            assert(!cur.push(s.last()).contains(c)) by {
                if cur.push(s.last()).contains(c) {
                    let i = choose|i: int| 0 <= i < cur.push(s.last()).len() && cur.push(s.last())[i] == c;
                    if i < cur.len() {
                        assert(cur[i] == c);
                    }
                }
            }
        }
    }
}

/// Normalizing twice gives what normalizing once gives.
pub proof fn lemma_normalize_idempotent(cmd: Seq<char>)
    ensures
        normalized(normalized(cmd)) == normalized(cmd),
{
    let once = normalized(cmd);
    let head = split_seq(cmd, '@')[0];
    lemma_split_state_first(cmd, '@');
    assert(!once.contains('@')) by {
        if once.contains('@') {
            let i = choose|i: int| 0 <= i < once.len() && once[i] == '@';
            assert(head[i] == '@');
        }
    }
    lemma_split_state_no_sep(once, '@');
    assert(split_seq(once, '@')[0] == once);
    assert(normalized(once) =~= once);
}

/// The `i`-th word of a message, or nothing.
pub open spec fn word(words: Seq<Seq<char>>, i: int) -> Seq<char> {
    if 0 <= i < words.len() {
        words[i]
    } else {
        Seq::empty()
    }
}

/// The command a message asks for: its first word in lower case, normalized.
pub open spec fn command_in(text: Seq<char>) -> Seq<char> {
    normalized(unicode_lower(word(words_seq(text), 0)))
}

fn word_at(words: &Vec<String>, i: usize) -> (r: String)
    ensures
        r@ == word(views(words@), i as int),
{
    if i < words.len() {
        assert(views(words@)[i as int] == words@[i as int]@);
        owned(words[i].as_str())
    } else {
        String::new()
    }
}

/// The command a message asks for.
pub fn command_of(text: &str) -> (r: String)
    ensures
        r@ == command_in(text@),
{
    let words = crate::text::split_words(text);
    let first = word_at(&words, 0);
    let lower = to_lowercase(first.as_str());
    normalize_command(lower.as_str())
}

/// What to do for a command.
pub enum CommandPlan {
    /// Answer with this text.
    Reply(String),
    /// Not a command: no answer.
    Silent,
    Status,
    StatusProd,
    StatusStaging,
    StatusServer,
    SpaceLeft,
    UptimeStats,
    Memory,
    Certs,
    Docker,
    SelfCheck,
    ProdBackup,
    ProdRestart,
    StagingBackup,
    StagingRestart,
    IpList,
    /// Ban the address.
    IpBan(String),
    /// Lift the ban of the address.
    IpUnban(String),
    KylitBackupDb,
    KylitBackupMinio,
    KylitBackupAll,
    KylitDocker,
}

/// What a command plan is.
pub enum PlanView {
    Reply(Seq<char>),
    Silent,
    Status,
    StatusProd,
    StatusStaging,
    StatusServer,
    SpaceLeft,
    UptimeStats,
    Memory,
    Certs,
    Docker,
    SelfCheck,
    ProdBackup,
    ProdRestart,
    StagingBackup,
    StagingRestart,
    IpList,
    IpBan(Seq<char>),
    IpUnban(Seq<char>),
    KylitBackupDb,
    KylitBackupMinio,
    KylitBackupAll,
    KylitDocker,
}

impl View for CommandPlan {
    type V = PlanView;

    open spec fn view(&self) -> PlanView {
        match self {
            CommandPlan::Reply(t) => PlanView::Reply(t@),
            CommandPlan::Silent => PlanView::Silent,
            CommandPlan::Status => PlanView::Status,
            CommandPlan::StatusProd => PlanView::StatusProd,
            CommandPlan::StatusStaging => PlanView::StatusStaging,
            CommandPlan::StatusServer => PlanView::StatusServer,
            CommandPlan::SpaceLeft => PlanView::SpaceLeft,
            CommandPlan::UptimeStats => PlanView::UptimeStats,
            CommandPlan::Memory => PlanView::Memory,
            CommandPlan::Certs => PlanView::Certs,
            CommandPlan::Docker => PlanView::Docker,
            CommandPlan::SelfCheck => PlanView::SelfCheck,
            CommandPlan::ProdBackup => PlanView::ProdBackup,
            CommandPlan::ProdRestart => PlanView::ProdRestart,
            CommandPlan::StagingBackup => PlanView::StagingBackup,
            CommandPlan::StagingRestart => PlanView::StagingRestart,
            CommandPlan::IpList => PlanView::IpList,
            CommandPlan::IpBan(ip) => PlanView::IpBan(ip@),
            CommandPlan::IpUnban(ip) => PlanView::IpUnban(ip@),
            CommandPlan::KylitBackupDb => PlanView::KylitBackupDb,
            CommandPlan::KylitBackupMinio => PlanView::KylitBackupMinio,
            CommandPlan::KylitBackupAll => PlanView::KylitBackupAll,
            CommandPlan::KylitDocker => PlanView::KylitDocker,
        }
    }
}

/// The reply when the IP admin commands are off.
pub const IP_ADMIN_DISABLED_REPLY: &'static str = "ℹ️ IP admin is off. Set MONITOR_IP_BACKEND=ufw or crowdsec and MONITOR_IP_ADMIN_SECRET.";

/// The reply to a wrong password.
pub const IP_PASSWORD_INVALID_REPLY: &'static str = "❌ Invalid password.";

/// The reply when the Kylit commands are off.
pub const KYLIT_DISABLED_REPLY: &'static str = "ℹ️ Kylit commands are off. Set MONITOR_KYLIT_WEBHOOK=1 and see cmd/server-monitor/env.kylit.example.";

/// The reply to an unknown command.
pub const UNKNOWN_COMMAND_REPLY: &'static str = "Unknown command. Send /help for the full command list.";

/// The plan of a password-gated IP command with `needed` words after it.
pub open spec fn ip_plan(
    c: Config,
    words: Seq<Seq<char>>,
    usage: Seq<char>,
    with_ip: bool,
    allowed: PlanView,
) -> PlanView {
    let ip = word(words, 1);
    let pw = if with_ip {
        word(words, 2)
    } else {
        word(words, 1)
    };
    if !(c.ip_admin_secret is Some && c.ip_backend is Some) {
        PlanView::Reply(IP_ADMIN_DISABLED_REPLY@)
    } else if (with_ip && ip.len() == 0) || pw.len() == 0 {
        PlanView::Reply(usage)
    } else if !password_ok(c.ip_admin_secret, pw) {
        PlanView::Reply(IP_PASSWORD_INVALID_REPLY@)
    } else {
        allowed
    }
}

/// The plan of a Kylit command.
pub open spec fn kylit_plan(c: Config, allowed: PlanView) -> PlanView {
    if !c.kylit_webhook_enabled {
        PlanView::Reply(KYLIT_DISABLED_REPLY@)
    } else {
        allowed
    }
}

/// What the command `cmd` of a message of words `words` asks for.
pub open spec fn plan_of(c: Config, cmd: Seq<char>, words: Seq<Seq<char>>) -> PlanView {
    if cmd == "/status"@ {
        PlanView::Status
    } else if cmd == "/status_prod"@ {
        PlanView::StatusProd
    } else if cmd == "/status_staging"@ {
        PlanView::StatusStaging
    } else if cmd == "/status_server"@ {
        PlanView::StatusServer
    } else if cmd == "/space_left"@ {
        PlanView::SpaceLeft
    } else if cmd == "/uptime_stats"@ {
        PlanView::UptimeStats
    } else if cmd == "/memory"@ {
        PlanView::Memory
    } else if cmd == "/certs"@ {
        PlanView::Certs
    } else if cmd == "/docker"@ {
        PlanView::Docker
    } else if cmd == "/self"@ {
        PlanView::SelfCheck
    } else if cmd == "/help"@ {
        PlanView::Reply(help_text(c))
    } else if cmd == "/prod_backup"@ {
        PlanView::ProdBackup
    } else if cmd == "/prod_restart"@ {
        PlanView::ProdRestart
    } else if cmd == "/staging_backup"@ {
        PlanView::StagingBackup
    } else if cmd == "/staging_restart"@ {
        PlanView::StagingRestart
    } else if cmd == "/ip_list"@ {
        ip_plan(c, words, "Usage: <code>/ip_list password</code>"@, false, PlanView::IpList)
    } else if cmd == "/ip_ban"@ {
        ip_plan(
            c,
            words,
            "Usage: <code>/ip_ban x.x.x.x password</code>"@,
            true,
            PlanView::IpBan(word(words, 1)),
        )
    } else if cmd == "/ip_unban"@ {
        ip_plan(
            c,
            words,
            "Usage: <code>/ip_unban x.x.x.x password</code>"@,
            true,
            PlanView::IpUnban(word(words, 1)),
        )
    } else if cmd == "/kylit_backup_db"@ {
        kylit_plan(c, PlanView::KylitBackupDb)
    } else if cmd == "/kylit_backup_minio"@ {
        kylit_plan(c, PlanView::KylitBackupMinio)
    } else if cmd == "/kylit_backup_all"@ {
        kylit_plan(c, PlanView::KylitBackupAll)
    } else if cmd == "/kylit_docker"@ {
        kylit_plan(c, PlanView::KylitDocker)
    } else if cmd.len() > 0 && cmd[0] == '/' {
        PlanView::Reply(UNKNOWN_COMMAND_REPLY@)
    } else {
        PlanView::Silent
    }
}

fn ip_command_plan(
    config: &Config,
    words: &Vec<String>,
    usage: &str,
    with_ip: bool,
    allowed: CommandPlan,
) -> (r: CommandPlan)
    ensures
        r@ == ip_plan(*config, views(words@), usage@, with_ip, allowed@),
{
    let ip = word_at(words, 1);
    let pw = if with_ip {
        word_at(words, 2)
    } else {
        word_at(words, 1)
    };
    if !config.ip_admin_enabled() {
        CommandPlan::Reply(owned(IP_ADMIN_DISABLED_REPLY))
    } else if (with_ip && ip.unicode_len() == 0) || pw.unicode_len() == 0 {
        CommandPlan::Reply(owned(usage))
    } else if !crate::ip_admin::verify_password(config, pw.as_str()) {
        CommandPlan::Reply(owned(IP_PASSWORD_INVALID_REPLY))
    } else {
        allowed
    }
}

fn kylit_command_plan(config: &Config, allowed: CommandPlan) -> (r: CommandPlan)
    ensures
        r@ == kylit_plan(*config, allowed@),
{
    if !config.kylit_webhook_enabled {
        CommandPlan::Reply(owned(KYLIT_DISABLED_REPLY))
    } else {
        allowed
    }
}

/// What the normalized command `cmd` asks for, the message having the words `words`.
pub fn plan_for_command(config: &Config, cmd: &str, words: &Vec<String>) -> (r: CommandPlan)
    ensures
        r@ == plan_of(*config, cmd@, views(words@)),
{
    let is = |name: &str| -> (b: bool)
        ensures
            b == (cmd@ == name@),
        { crate::text::str_eq(cmd, name) };
    if is("/status") {
        CommandPlan::Status
    } else if is("/status_prod") {
        CommandPlan::StatusProd
    } else if is("/status_staging") {
        CommandPlan::StatusStaging
    } else if is("/status_server") {
        CommandPlan::StatusServer
    } else if is("/space_left") {
        CommandPlan::SpaceLeft
    } else if is("/uptime_stats") {
        CommandPlan::UptimeStats
    } else if is("/memory") {
        CommandPlan::Memory
    } else if is("/certs") {
        CommandPlan::Certs
    } else if is("/docker") {
        CommandPlan::Docker
    } else if is("/self") {
        CommandPlan::SelfCheck
    } else if is("/help") {
        CommandPlan::Reply(help_message_html(config))
    } else if is("/prod_backup") {
        CommandPlan::ProdBackup
    } else if is("/prod_restart") {
        CommandPlan::ProdRestart
    } else if is("/staging_backup") {
        CommandPlan::StagingBackup
    } else if is("/staging_restart") {
        CommandPlan::StagingRestart
    } else if is("/ip_list") {
        ip_command_plan(config, words, "Usage: <code>/ip_list password</code>", false, CommandPlan::IpList)
    } else if is("/ip_ban") {
        let ip = word_at(words, 1);
        ip_command_plan(
            config,
            words,
            "Usage: <code>/ip_ban x.x.x.x password</code>",
            true,
            CommandPlan::IpBan(ip),
        )
    } else if is("/ip_unban") {
        let ip = word_at(words, 1);
        ip_command_plan(
            config,
            words,
            "Usage: <code>/ip_unban x.x.x.x password</code>",
            true,
            CommandPlan::IpUnban(ip),
        )
    } else if is("/kylit_backup_db") {
        kylit_command_plan(config, CommandPlan::KylitBackupDb)
    } else if is("/kylit_backup_minio") {
        kylit_command_plan(config, CommandPlan::KylitBackupMinio)
    } else if is("/kylit_backup_all") {
        kylit_command_plan(config, CommandPlan::KylitBackupAll)
    } else if is("/kylit_docker") {
        kylit_command_plan(config, CommandPlan::KylitDocker)
    } else if cmd.unicode_len() > 0 && cmd.get_char(0) == '/' {
        CommandPlan::Reply(owned(UNKNOWN_COMMAND_REPLY))
    } else {
        CommandPlan::Silent
    }
}

/// What a message from an allowed chat asks for.
pub fn plan_command(config: &Config, text: &str) -> (r: CommandPlan)
    ensures
        r@ == plan_of(*config, command_in(text@), words_seq(text@)),
{
    let words = crate::text::split_words(text);
    let first = word_at(&words, 0);
    let lower = to_lowercase(first.as_str());
    let cmd = normalize_command(lower.as_str());
    plan_for_command(config, cmd.as_str(), &words)
}

// ---------------------------------------------------------------------
// Help
// ---------------------------------------------------------------------

/// The commands every configuration offers.
pub const HELP_CORE: &'static str = "<b>Monitor — Commands</b>\n\n<b>Status</b>\n/status — Full status (prod, staging, server)\n/status_prod — Production only\n/status_staging — Staging only\n/status_server — Server vitals only\n/self — Self-check (webhook chain, CLI diagnose equivalent)\n\n<b>Server stats</b>\n/space_left — Disk space (/ /var /home)\n/uptime_stats — Uptime + load average\n/memory — RAM usage\n/certs — SSL cert expiry\n/docker — Container list\n\n<b>Production</b>\n/prod_backup — Backup production DB\n/prod_restart — Restart prod containers\n\n<b>Staging</b>\n/staging_backup — Backup staging DB\n/staging_restart — Restart staging containers\n\n/help — This message\n/myid — Get your Chat ID (no auth required)\n";

/// The Kylit commands.
pub const HELP_KYLIT: &'static str = "\n<b>Kylit</b>\n/kylit_backup_db — Postgres dump under KYLIT_BACKUP_ROOT\n/kylit_backup_minio — mc mirror (see deploy env)\n/kylit_backup_all — kylit-prod-backup.sh\n/kylit_docker — Kylit container status\n";

/// The name of the IP backend in the help.
pub open spec fn backend_text(b: Option<IpFirewallBackend>) -> Seq<char> {
    match b {
        Some(IpFirewallBackend::Ufw) => "ufw"@,
        Some(IpFirewallBackend::Crowdsec) => "crowdsec"@,
        None => "none"@,
    }
}

/// The help message: the core commands, then the Kylit commands and the IP
/// admin commands when they are enabled.
pub open spec fn help_text(c: Config) -> Seq<char> {
    HELP_CORE@ + (if c.kylit_webhook_enabled {
        HELP_KYLIT@
    } else {
        Seq::empty()
    }) + if c.ip_admin_secret is Some && c.ip_backend is Some {
        "\n<b>IP admin ("@ + backend_text(c.ip_backend)
            + ")</b>\n/ip_list &lt;password&gt;\n/ip_ban &lt;ipv4&gt; &lt;password&gt;\n/ip_unban &lt;ipv4&gt; &lt;password&gt;\n"@
    } else {
        Seq::empty()
    }
}

/// The help message for the live configuration.
pub fn help_message_html(config: &Config) -> (r: String)
    ensures
        r@ == help_text(*config),
{
    let mut s = owned(HELP_CORE);
    if config.kylit_webhook_enabled {
        s.append(HELP_KYLIT);
    }
    if config.ip_admin_enabled() {
        let be = match config.ip_backend {
            Some(IpFirewallBackend::Ufw) => "ufw",
            Some(IpFirewallBackend::Crowdsec) => "crowdsec",
            None => "none",
        };
        s.append("\n<b>IP admin (");
        s.append(be);
        s.append(
            ")</b>\n/ip_list &lt;password&gt;\n/ip_ban &lt;ipv4&gt; &lt;password&gt;\n/ip_unban &lt;ipv4&gt; &lt;password&gt;\n",
        );
    }
    s
}

// ---------------------------------------------------------------------
// Updates
// ---------------------------------------------------------------------

/// What to do with an update.
pub enum WebhookAction {
    /// No secret is configured: answer 500.
    NotConfigured,
    /// The secret header is wrong or missing: answer 403.
    Forbidden,
    /// Answer 200 and do nothing more.
    Ignore,
    /// Answer 200 and send `text` to the chat.
    Reply { chat_id: String, text: String },
    /// Answer 200 and run the command `text` for the chat.
    Dispatch { chat_id: String, text: String },
}

/// What an action is.
pub enum ActionView {
    NotConfigured,
    Forbidden,
    Ignore,
    Reply(Seq<char>, Seq<char>),
    Dispatch(Seq<char>, Seq<char>),
}

impl View for WebhookAction {
    type V = ActionView;

    open spec fn view(&self) -> ActionView {
        match self {
            WebhookAction::NotConfigured => ActionView::NotConfigured,
            WebhookAction::Forbidden => ActionView::Forbidden,
            WebhookAction::Ignore => ActionView::Ignore,
            WebhookAction::Reply { chat_id, text } => ActionView::Reply(chat_id@, text@),
            WebhookAction::Dispatch { chat_id, text } => ActionView::Dispatch(chat_id@, text@),
        }
    }
}

/// The answer to `/myid` and `/start`.
pub open spec fn my_id_text(chat_id: Seq<char>) -> Seq<char> {
    "Your Chat ID: <code>"@ + chat_id
        + "</code>\n\nAdd this to TELEGRAM_ALLOWED_CHAT_IDS in the monitor config, then redeploy to get access."@
}

/// What to do with a message of text `text` (trimmed) from chat `chat_id`
/// whose command is `cmd`: `/myid`, `/start` and `/help` are answered to
/// anyone; anything else only for allowed chats.
pub open spec fn route_of(c: Config, chat_id: Seq<char>, text: Seq<char>, cmd: Seq<char>) -> ActionView {
    if cmd == "/myid"@ || cmd == "/start"@ {
        if c.telegram_bot_token is Some {
            ActionView::Reply(chat_id, my_id_text(chat_id))
        } else {
            ActionView::Ignore
        }
    } else if cmd == "/help"@ {
        if c.telegram_bot_token is Some {
            ActionView::Reply(chat_id, help_text(c))
        } else {
            ActionView::Ignore
        }
    } else if !views(c.allowed_chat_ids@).contains(chat_id) {
        ActionView::Ignore
    } else {
        ActionView::Dispatch(chat_id, text)
    }
}

/// What to do with an update, given the secret header and the message's command.
pub open spec fn action_of(c: Config, header: Option<Seq<char>>, u: TelegramUpdate) -> ActionView {
    match c.webhook_secret {
        None => ActionView::NotConfigured,
        Some(secret) => {
            let given = match header {
                Some(h) => h,
                None => Seq::empty(),
            };
            if given != secret@ {
                ActionView::Forbidden
            } else {
                match u.message {
                    None => ActionView::Ignore,
                    Some(m) => {
                        let text = trim_seq(
                            match m.text {
                                Some(t) => t@,
                                None => Seq::empty(),
                            },
                        );
                        route_of(c, signed_decimal(m.chat.id as int), text, command_in(text))
                    },
                }
            }
        },
    }
}

fn chat_allowed(ids: &Vec<String>, chat_id: &str) -> (r: bool)
    ensures
        r == views(ids@).contains(chat_id@),
{
    let mut i: usize = 0;
    while i < ids.len()
        invariant
            i <= ids@.len(),
            forall|k: int| 0 <= k < i ==> views(ids@)[k] != chat_id@,
        decreases ids.len() - i,
    {
        assert(views(ids@)[i as int] == ids@[i as int]@);
        if crate::text::str_eq(ids[i].as_str(), chat_id) {
            assert(views(ids@)[i as int] == chat_id@);
            return true;
        }
        i += 1;
    }
    false
}

/// What to do with a message from `chat_id` whose command is `cmd`.
pub fn route_message(config: &Config, chat_id: String, text: String, cmd: &str) -> (r: WebhookAction)
    ensures
        r@ == route_of(*config, chat_id@, text@, cmd@),
{
    if crate::text::str_eq(cmd, "/myid") || crate::text::str_eq(cmd, "/start") {
        if config.telegram_bot_token.is_some() {
            let mut reply = owned("Your Chat ID: <code>");
            reply.append(chat_id.as_str());
            reply.append(
                "</code>\n\nAdd this to TELEGRAM_ALLOWED_CHAT_IDS in the monitor config, then redeploy to get access.",
            );
            return WebhookAction::Reply { chat_id, text: reply };
        }
        return WebhookAction::Ignore;
    }
    if crate::text::str_eq(cmd, "/help") {
        if config.telegram_bot_token.is_some() {
            return WebhookAction::Reply { chat_id, text: help_message_html(config) };
        }
        return WebhookAction::Ignore;
    }
    if !chat_allowed(&config.allowed_chat_ids, chat_id.as_str()) {
        return WebhookAction::Ignore;
    }
    WebhookAction::Dispatch { chat_id, text }
}

/// Validate the secret header, read the message and decide what to do.
pub fn webhook_action(config: &Config, header_token: Option<&str>, update: &TelegramUpdate) -> (r:
    WebhookAction)
    ensures
        r@ == action_of(
            *config,
            match header_token {
                Some(h) => Some(h@),
                None => None,
            },
            *update,
        ),
{
    let secret = match &config.webhook_secret {
        Some(s) => s.as_str(),
        None => {
            return WebhookAction::NotConfigured;
        },
    };
    let given = match header_token {
        Some(h) => h,
        None => "",
    };
    proof {
        reveal_strlit("");
    }
    if given.len() != secret.len() || !crate::ip_admin::bytes_ct_eq(
        secret.as_bytes(),
        given.as_bytes(),
    ) {
        proof {
            if given@ == secret@ {
                assert(given.spec_bytes() == secret.spec_bytes());
            }
        }
        return WebhookAction::Forbidden;
    }
    proof {
        vstd::utf8::encode_utf8_decode_utf8(given@);
        vstd::utf8::encode_utf8_decode_utf8(secret@);
    }
    let msg = match &update.message {
        Some(m) => m,
        None => {
            return WebhookAction::Ignore;
        },
    };
    let chat_id = crate::text::i128_text(msg.chat.id as i128);
    let raw = match &msg.text {
        Some(t) => owned(t.as_str()),
        None => String::new(),
    };
    let text = crate::text::trim(raw.as_str());
    let cmd = command_of(text.as_str());
    route_message(config, chat_id, text, cmd.as_str())
}

// ---------------------------------------------------------------------
// Containers
// ---------------------------------------------------------------------

/// A container on a line: icon, name and state.
pub open spec fn container_line(c: ContainerInfo) -> Seq<char> {
    let name = c.name@;
    let (icon, state) = match c.status {
        ContainerStatus::Running => (
            "✅"@,
            "running"@ + if has_substring(name, "_db"@) {
                match c.health {
                    HealthStatus::Unhealthy => " (unhealthy)"@,
                    HealthStatus::Starting => " (starting)"@,
                    _ => Seq::empty(),
                }
            } else {
                Seq::empty()
            },
        ),
        ContainerStatus::Exited => ("❌"@, "exited"@),
        ContainerStatus::Restarting => ("🔄"@, "restarting"@),
        ContainerStatus::Paused => ("⏸"@, "paused"@),
        ContainerStatus::Dead => ("❌"@, "dead"@),
        ContainerStatus::Other(s) => ("❓"@, s@),
    };
    "  "@ + icon + " "@ + name + " "@ + state
}

/// A container on a line: icon, name and state.
pub fn format_container(c: &ContainerInfo) -> (r: String)
    ensures
        r@ == container_line(*c),
{
    let name = c.name.as_str();
    let mut r = owned("  ");
    match &c.status {
        ContainerStatus::Running => {
            let health = if crate::text::contains(name, "_db") {
                match c.health {
                    HealthStatus::Unhealthy => " (unhealthy)",
                    HealthStatus::Starting => " (starting)",
                    _ => "",
                }
            } else {
                ""
            };
            r.append("✅");
            r.append(" ");
            r.append(name);
            r.append(" ");
            r.append("running");
            r.append(health);
            proof {
                reveal_strlit("");
            }
        },
        ContainerStatus::Exited => {
            r.append("❌ ");
            r.append(name);
            r.append(" exited");
        },
        ContainerStatus::Restarting => {
            r.append("🔄 ");
            r.append(name);
            r.append(" restarting");
        },
        ContainerStatus::Paused => {
            r.append("⏸ ");
            r.append(name);
            r.append(" paused");
        },
        ContainerStatus::Dead => {
            r.append("❌ ");
            r.append(name);
            r.append(" dead");
        },
        ContainerStatus::Other(s) => {
            r.append("❓ ");
            r.append(name);
            r.append(" ");
            r.append(s.as_str());
        },
    }
    proof {
        reveal_strlit("❌ ");
        reveal_strlit("❌");
        reveal_strlit("🔄 ");
        reveal_strlit("🔄");
        reveal_strlit("⏸ ");
        reveal_strlit("⏸");
        reveal_strlit("❓ ");
        reveal_strlit("❓");
        reveal_strlit(" ");
        reveal_strlit(" exited");
        reveal_strlit("exited");
        reveal_strlit(" restarting");
        reveal_strlit("restarting");
        reveal_strlit(" paused");
        reveal_strlit("paused");
        reveal_strlit(" dead");
        reveal_strlit("dead");
    }
    assert(r@ =~= container_line(*c));
    r
}

/// The container lines, or `failed` when inspection failed.
pub open spec fn container_block(list: Result<Seq<ContainerInfo>, Seq<char>>, failed: Seq<char>) -> Seq<
    Seq<char>,
> {
    match list {
        Ok(cs) => cs.map_values(|c: ContainerInfo| container_line(c)),
        Err(_) => seq![failed],
    }
}

fn push_container_block(
    lines: &mut Vec<String>,
    list: &Result<Vec<ContainerInfo>, String>,
    failed: String,
)
    ensures
        views(final(lines)@) == views(old(lines)@) + container_block(
            crate::checks::inspected(*list),
            failed@,
        ),
{
    let ghost start = views(lines@);
    match list {
        Ok(cs) => {
            let mut i: usize = 0;
            while i < cs.len()
                invariant
                    i <= cs@.len(),
                    views(lines@) == start + cs@.take(i as int).map_values(
                        |c: ContainerInfo| container_line(c),
                    ),
                decreases cs.len() - i,
            {
                let ghost before = lines@;
                let l = format_container(&cs[i]);
                lines.push(l);
                assert(views(lines@) =~= views(before).push(l@));
                assert(cs@.take(i + 1).map_values(|c: ContainerInfo| container_line(c)) =~= cs@.take(
                    i as int,
                ).map_values(|c: ContainerInfo| container_line(c)).push(container_line(cs@[i as int])));
                i += 1;
            }
            assert(cs@.take(cs@.len() as int) =~= cs@);
        },
        Err(_) => {
            let ghost before = lines@;
            let f = failed;
            lines.push(f);
            assert(views(lines@) =~= views(before).push(f@));
        },
    }
}

/// The `/docker` reply: the prod and staging containers.
pub open spec fn docker_list_spec(
    prod: Result<Seq<ContainerInfo>, Seq<char>>,
    staging: Result<Seq<ContainerInfo>, Seq<char>>,
) -> Seq<char> {
    join_seq(
        seq!["<b>Docker containers</b>"@, "\n<b>Prod</b>"@] + container_block(
            prod,
            "  (inspect failed)"@,
        ) + seq!["\n<b>Staging</b>"@] + container_block(staging, "  (inspect failed)"@),
        "\n"@,
    )
}

/// The `/docker` reply from the inspection of both stacks.
pub fn docker_list_text(
    prod: &Result<Vec<ContainerInfo>, String>,
    staging: &Result<Vec<ContainerInfo>, String>,
) -> (r: String)
    ensures
        r@ == docker_list_spec(crate::checks::inspected(*prod), crate::checks::inspected(*staging)),
{
    let mut lines: Vec<String> = vec![owned("<b>Docker containers</b>"), owned("\n<b>Prod</b>")];
    assert(views(lines@) =~= seq!["<b>Docker containers</b>"@, "\n<b>Prod</b>"@]);
    push_container_block(&mut lines, prod, owned("  (inspect failed)"));
    let ghost before = lines@;
    let h = owned("\n<b>Staging</b>");
    lines.push(h);
    assert(views(lines@) =~= views(before).push(h@));
    push_container_block(&mut lines, staging, owned("  (inspect failed)"));
    assert(views(lines@) =~= seq!["<b>Docker containers</b>"@, "\n<b>Prod</b>"@] + container_block(
        crate::checks::inspected(*prod),
        "  (inspect failed)"@,
    ) + seq!["\n<b>Staging</b>"@] + container_block(
        crate::checks::inspected(*staging),
        "  (inspect failed)"@,
    ));
    crate::text::join(&lines, "\n")
}

/// The `/docker` reply when Docker cannot be reached.
pub fn docker_connect_failed_text(error: &str) -> (r: String)
    ensures
        r@ == "❌ <b>Docker</b>\nConnection failed: "@ + error@,
{
    let mut r = owned("❌ <b>Docker</b>\nConnection failed: ");
    r.append(error);
    r
}

/// The `/kylit_docker` reply.
pub open spec fn kylit_docker_spec(list: Result<Seq<ContainerInfo>, Seq<char>>) -> Seq<char> {
    join_seq(
        seq!["<b>Kylit containers</b>"@] + match list {
            Ok(cs) => cs.map_values(|c: ContainerInfo| container_line(c)),
            Err(e) => seq!["  (inspect failed: "@ + e + ")"@],
        },
        "\n"@,
    )
}

/// The `/kylit_docker` reply from the inspection of the Kylit containers.
pub fn kylit_docker_text(list: &Result<Vec<ContainerInfo>, String>) -> (r: String)
    ensures
        r@ == kylit_docker_spec(crate::checks::inspected(*list)),
{
    let mut lines: Vec<String> = vec![owned("<b>Kylit containers</b>")];
    assert(views(lines@) =~= seq!["<b>Kylit containers</b>"@]);
    let failed = match list {
        Ok(_) => String::new(),
        Err(e) => {
            let mut f = owned("  (inspect failed: ");
            f.append(e.as_str());
            f.append(")");
            f
        },
    };
    push_container_block(&mut lines, list, failed);
    assert(views(lines@) =~= seq!["<b>Kylit containers</b>"@] + match crate::checks::inspected(
        *list,
    ) {
        Ok(cs) => cs.map_values(|c: ContainerInfo| container_line(c)),
        Err(e) => seq!["  (inspect failed: "@ + e + ")"@],
    });
    crate::text::join(&lines, "\n")
}

/// The `/kylit_docker` reply when Docker cannot be reached.
pub fn kylit_docker_failed_text(error: &str) -> (r: String)
    ensures
        r@ == "❌ <b>Kylit Docker</b>\n"@ + error@,
{
    let mut r = owned("❌ <b>Kylit Docker</b>\n");
    r.append(error);
    r
}


// ---------------------------------------------------------------------
// Backups and restarts
// ---------------------------------------------------------------------

/// How a shell command ended.
pub enum RunOutcome {
    /// It exited with success; what it printed.
    Succeeded { stdout: String, stderr: String },
    /// It exited with failure; what it printed.
    Failed { stdout: String, stderr: String },
    /// It could not be started (the error's text).
    SpawnError(String),
}

/// Where backups of the app databases are written.
pub const BACKUP_DIR: &'static str = "/tmp/clos-monitor-backups";

/// The dump file of a backup of `env` (`prod` or `staging`) taken at `timestamp`.
pub fn backup_dump_path(env: &str, timestamp: &str) -> (r: String)
    ensures
        r@ == path_join_seq(BACKUP_DIR@, env@ + "_backup_"@ + timestamp@ + ".sql"@),
{
    let mut file = owned(env);
    file.append("_backup_");
    file.append(timestamp);
    file.append(".sql");
    crate::config::path_join(BACKUP_DIR, file.as_str())
}

/// The shell command that dumps the database of `container` into `out_path`.
pub open spec fn pg_dump_spec(container: Seq<char>, out_path: Seq<char>) -> Seq<char> {
    "docker exec "@ + container
        + " sh -c 'pg_dump -U $POSTGRES_USER -d $POSTGRES_DBNAME --clean --if-exists --no-owner --no-acl' > "@
        + out_path + " 2>&1"@
}

/// The shell command that dumps the database of `container` into `out_path`.
pub fn pg_dump_script(container: &str, out_path: &str) -> (r: String)
    ensures
        r@ == pg_dump_spec(container@, out_path@),
{
    let mut r = owned("docker exec ");
    r.append(container);
    r.append(
        " sh -c 'pg_dump -U $POSTGRES_USER -d $POSTGRES_DBNAME --clean --if-exists --no-owner --no-acl' > ",
    );
    r.append(out_path);
    r.append(" 2>&1");
    r
}

/// The reply to a backup of `env` (`Prod` or `Staging`); `size` is the
/// dump's size as text.
pub open spec fn backup_reply_spec(env: Seq<char>, out_path: Seq<char>, o: RunOutcome, size: Seq<char>) -> Seq<
    char,
> {
    match o {
        RunOutcome::Succeeded { .. } => "✅ <b>"@ + env + " backup done</b>\nPath: <code>"@ + out_path
            + "</code>\nSize: "@ + size,
        RunOutcome::Failed { stderr, .. } => "❌ <b>"@ + env + " backup failed</b>\n"@ + trim_seq(
            stderr@,
        ),
        RunOutcome::SpawnError(e) => "❌ <b>"@ + env + " backup failed</b>\n"@ + e@,
    }
}

/// The reply to a backup.
pub fn backup_reply(env: &str, out_path: &str, outcome: &RunOutcome, size: &str) -> (r: String)
    ensures
        r@ == backup_reply_spec(env@, out_path@, *outcome, size@),
{
    match outcome {
        RunOutcome::Succeeded { .. } => {
            let mut r = owned("✅ <b>");
            r.append(env);
            r.append(" backup done</b>\nPath: <code>");
            r.append(out_path);
            r.append("</code>\nSize: ");
            r.append(size);
            r
        },
        RunOutcome::Failed { stderr, .. } => {
            let mut r = owned("❌ <b>");
            r.append(env);
            r.append(" backup failed</b>\n");
            r.append(crate::text::trim(stderr.as_str()).as_str());
            r
        },
        RunOutcome::SpawnError(e) => {
            let mut r = owned("❌ <b>");
            r.append(env);
            r.append(" backup failed</b>\n");
            r.append(e.as_str());
            r
        },
    }
}

/// The shell command that restarts a stack: `cd DEPLOY && RESTART`.
pub fn restart_script(deploy_path: &str, restart_sh: &str) -> (r: String)
    ensures
        r@ == "cd "@ + deploy_path@ + " && "@ + restart_sh@,
{
    let mut r = owned("cd ");
    r.append(deploy_path);
    r.append(" && ");
    r.append(restart_sh);
    r
}

/// The reply to a restart of `env` (`Prod` or `Staging`).
pub open spec fn restart_reply_spec(env: Seq<char>, o: RunOutcome) -> Seq<char> {
    match o {
        RunOutcome::Succeeded { .. } => "✅ <b>"@ + env + " containers restarted</b>"@,
        RunOutcome::Failed { stderr, .. } => "❌ <b>"@ + env + " restart failed</b>\n"@ + trim_seq(
            stderr@,
        ),
        RunOutcome::SpawnError(e) => "❌ <b>"@ + env + " restart failed</b>\n"@ + e@,
    }
}

/// The reply to a restart.
pub fn restart_reply(env: &str, outcome: &RunOutcome) -> (r: String)
    ensures
        r@ == restart_reply_spec(env@, *outcome),
{
    match outcome {
        RunOutcome::Succeeded { .. } => {
            let mut r = owned("✅ <b>");
            r.append(env);
            r.append(" containers restarted</b>");
            r
        },
        RunOutcome::Failed { stderr, .. } => {
            let mut r = owned("❌ <b>");
            r.append(env);
            r.append(" restart failed</b>\n");
            r.append(crate::text::trim(stderr.as_str()).as_str());
            r
        },
        RunOutcome::SpawnError(e) => {
            let mut r = owned("❌ <b>");
            r.append(env);
            r.append(" restart failed</b>\n");
            r.append(e.as_str());
            r
        },
    }
}

/// The shell command that dumps the Kylit database into `sql_path`, its
/// errors into `log_path`.
pub open spec fn kylit_dump_spec(c: Config, sql_path: Seq<char>, log_path: Seq<char>) -> Seq<char> {
    "docker exec "@ + c.kylit_pg_container@ + " pg_dump -U "@ + shell_quote_seq(c.kylit_pg_user@)
        + " -d "@ + shell_quote_seq(c.kylit_pg_db@)
        + " --clean --if-exists --no-owner --no-acl > "@ + sql_path + " 2> "@ + log_path
}

/// The shell command of `/kylit_backup_db`.
pub fn kylit_pg_dump_script(config: &Config, sql_path: &str, log_path: &str) -> (r: String)
    ensures
        r@ == kylit_dump_spec(*config, sql_path@, log_path@),
{
    let mut r = owned("docker exec ");
    r.append(config.kylit_pg_container.as_str());
    r.append(" pg_dump -U ");
    r.append(crate::text::shell_escape(config.kylit_pg_user.as_str()).as_str());
    r.append(" -d ");
    r.append(crate::text::shell_escape(config.kylit_pg_db.as_str()).as_str());
    r.append(" --clean --if-exists --no-owner --no-acl > ");
    r.append(sql_path);
    r.append(" 2> ");
    r.append(log_path);
    r
}

/// The reply to `/kylit_backup_db`; `size` is the dump's size as text and
/// `log` what the dump logged.
pub open spec fn kylit_db_reply_spec(sql_path: Seq<char>, o: RunOutcome, size: Seq<char>, log: Seq<char>) -> Seq<
    char,
> {
    match o {
        RunOutcome::Succeeded { .. } => "✅ <b>Kylit DB backup</b>\n<code>"@ + sql_path + "</code>\n"@
            + size,
        RunOutcome::Failed { stderr, .. } => "❌ <b>Kylit DB backup failed</b>\n"@ + trim_seq(stderr@)
            + "\n"@ + first_chars(trim_seq(log), 500),
        RunOutcome::SpawnError(e) => "❌ <b>Kylit DB backup failed</b>\n"@ + e@,
    }
}

/// The reply to `/kylit_backup_db`.
pub fn kylit_db_reply(sql_path: &str, outcome: &RunOutcome, size: &str, log: &str) -> (r: String)
    ensures
        r@ == kylit_db_reply_spec(sql_path@, *outcome, size@, log@),
{
    match outcome {
        RunOutcome::Succeeded { .. } => {
            let mut r = owned("✅ <b>Kylit DB backup</b>\n<code>");
            r.append(sql_path);
            r.append("</code>\n");
            r.append(size);
            r
        },
        RunOutcome::Failed { stderr, .. } => {
            let mut r = owned("❌ <b>Kylit DB backup failed</b>\n");
            r.append(crate::text::trim(stderr.as_str()).as_str());
            r.append("\n");
            let t = crate::text::trim(log);
            r.append(crate::text::take_chars(t.as_str(), 500).as_str());
            r
        },
        RunOutcome::SpawnError(e) => {
            let mut r = owned("❌ <b>Kylit DB backup failed</b>\n");
            r.append(e.as_str());
            r
        },
    }
}

/// The reply when the Kylit backup directory cannot be made.
pub fn kylit_dir_error_reply(error: &str) -> (r: String)
    ensures
        r@ == "❌ <b>Kylit DB backup</b>\n"@ + error@,
{
    let mut r = owned("❌ <b>Kylit DB backup</b>\n");
    r.append(error);
    r
}

/// The MinIO mirror script of the Kylit deployment.
pub fn kylit_minio_script(config: &Config) -> (r: String)
    ensures
        r@ == path_join_seq(
            path_join_seq(config.kylit_deploy_path@, "scripts"@),
            "minio-mirror-backup.sh"@,
        ),
{
    let scripts = crate::config::path_join(config.kylit_deploy_path.as_str(), "scripts");
    crate::config::path_join(scripts.as_str(), "minio-mirror-backup.sh")
}

/// The reply when a Kylit script is missing: `title` and the message before the path.
pub fn kylit_missing_reply(title: &str, missing: &str, script: &str) -> (r: String)
    ensures
        r@ == "❌ <b>"@ + title@ + "</b>\n"@ + missing@ + "<code>"@ + script@ + "</code>"@,
{
    let mut r = owned("❌ <b>");
    r.append(title);
    r.append("</b>\n");
    r.append(missing);
    r.append("<code>");
    r.append(script);
    r.append("</code>");
    r
}

/// The reply to a Kylit script run: the tail of its output on success, the
/// head of both outputs on failure.
pub open spec fn kylit_script_reply_spec(title: Seq<char>, tail: nat, head: nat, o: RunOutcome) -> Seq<
    char,
> {
    match o {
        RunOutcome::Succeeded { stdout, .. } => "✅ <b>"@ + title + "</b>\n<pre>"@ + last_chars(
            stdout@,
            tail,
        ) + "</pre>"@,
        RunOutcome::Failed { stdout, stderr } => "❌ <b>"@ + title + " failed</b>\nstderr: "@
            + first_chars(trim_seq(stderr@), head) + "\nstdout: "@ + first_chars(
            trim_seq(stdout@),
            head,
        ),
        RunOutcome::SpawnError(e) => "❌ <b>"@ + title + " failed</b>\n"@ + e@,
    }
}

/// The reply to a Kylit script run.
pub fn kylit_script_reply(title: &str, tail: usize, head: usize, outcome: &RunOutcome) -> (r: String)
    ensures
        r@ == kylit_script_reply_spec(title@, tail as nat, head as nat, *outcome),
{
    match outcome {
        RunOutcome::Succeeded { stdout, .. } => {
            let mut r = owned("✅ <b>");
            r.append(title);
            r.append("</b>\n<pre>");
            r.append(crate::text::tail_chars(stdout.as_str(), tail).as_str());
            r.append("</pre>");
            r
        },
        RunOutcome::Failed { stdout, stderr } => {
            let mut r = owned("❌ <b>");
            r.append(title);
            r.append(" failed</b>\nstderr: ");
            let e = crate::text::trim(stderr.as_str());
            r.append(crate::text::take_chars(e.as_str(), head).as_str());
            r.append("\nstdout: ");
            let o = crate::text::trim(stdout.as_str());
            r.append(crate::text::take_chars(o.as_str(), head).as_str());
            r
        },
        RunOutcome::SpawnError(e) => {
            let mut r = owned("❌ <b>");
            r.append(title);
            r.append(" failed</b>\n");
            r.append(e.as_str());
            r
        },
    }
}


// ---------------------------------------------------------------------
// Laws of the webhook
// ---------------------------------------------------------------------

/// An update gets a reply or runs a command only when a secret is
/// configured and the header carries exactly that secret.
pub proof fn lemma_webhook_needs_secret(c: Config, header: Option<Seq<char>>, u: TelegramUpdate)
    ensures
        (action_of(c, header, u) is Reply || action_of(c, header, u) is Dispatch) ==> (
        c.webhook_secret is Some && (match header {
            Some(h) => h,
            None => Seq::empty(),
        }) == c.webhook_secret->0@),
{
}

/// A command runs only for a chat in the allowed list, and only the
/// chat's own message is run.
pub proof fn lemma_dispatch_only_for_allowed_chats(
    c: Config,
    header: Option<Seq<char>>,
    u: TelegramUpdate,
)
    ensures
        action_of(c, header, u) matches ActionView::Dispatch(chat, _) ==> (views(
            c.allowed_chat_ids@,
        ).contains(chat) && (u.message matches Some(m) && chat == signed_decimal(
            m.chat.id as int,
        ))),
{
}

/// The IP commands run only when IP admin is enabled and the password is right.
pub proof fn lemma_ip_commands_need_password(c: Config, cmd: Seq<char>, words: Seq<Seq<char>>)
    ensures
        (plan_of(c, cmd, words) is IpList || plan_of(c, cmd, words) is IpBan || plan_of(
            c,
            cmd,
            words,
        ) is IpUnban) ==> c.ip_admin_secret is Some && c.ip_backend is Some && (password_ok(
            c.ip_admin_secret,
            word(words, 1),
        ) || password_ok(c.ip_admin_secret, word(words, 2))),
{
    reveal_strlit("/ip_list");
    reveal_strlit("/ip_ban");
    reveal_strlit("/ip_unban");
}

/// The Kylit commands run only when they are enabled.
pub proof fn lemma_kylit_commands_need_flag(c: Config, cmd: Seq<char>, words: Seq<Seq<char>>)
    ensures
        (plan_of(c, cmd, words) is KylitBackupDb || plan_of(c, cmd, words) is KylitBackupMinio
            || plan_of(c, cmd, words) is KylitBackupAll || plan_of(c, cmd, words) is KylitDocker)
            ==> c.kylit_webhook_enabled,
{
}

/// Two messages that ask for the same command and agree after their first
/// word get the same plan: the plan depends on the first word only through
/// the command it normalizes to.
pub proof fn lemma_same_command_same_plan(c: Config, t1: Seq<char>, t2: Seq<char>)
    requires
        command_in(t1) == command_in(t2),
        forall|i: int| i >= 1 ==> #[trigger] word(words_seq(t1), i) == word(words_seq(t2), i),
    ensures
        plan_of(c, command_in(t1), words_seq(t1)) == plan_of(c, command_in(t2), words_seq(t2)),
{
    assert(word(words_seq(t1), 1) == word(words_seq(t2), 1));
    assert(word(words_seq(t1), 2) == word(words_seq(t2), 2));
}

/// A message whose first word, in lower case, is already the normalized
/// command of another (`/status_prod` beside `/Status-Prod@MonBot`) gets
/// the same plan when the later words agree.
pub proof fn lemma_normalized_command_plans_alike(c: Config, t1: Seq<char>, t2: Seq<char>)
    requires
        unicode_lower(word(words_seq(t2), 0)) == command_in(t1),
        forall|i: int| i >= 1 ==> #[trigger] word(words_seq(t1), i) == word(words_seq(t2), i),
    ensures
        command_in(t2) == command_in(t1),
        plan_of(c, command_in(t1), words_seq(t1)) == plan_of(c, command_in(t2), words_seq(t2)),
{
    lemma_normalize_idempotent(unicode_lower(word(words_seq(t1), 0)));
    lemma_same_command_same_plan(c, t1, t2);
}

} // verus!
