//! Shared diagnostic checks for CLI `diagnose` and Telegram `/self`: each
//! section of the report drawn from what was probed, and the report's text.
use vstd::prelude::*;

use crate::config::{opt_text, Config, MonitorScope, ReverseProxyKind};
use crate::text::{
    all_lines, decimal, first_chars, has_prefix, has_substring, html_escape_seq, join_seq,
    last_chars, non_empty_lines, owned, parse_unsigned, trim_seq, u64_text, views,
};

verus! {

/// The version shown in the self-check report.
pub const MONITOR_VERSION: &'static str = "0.1.0";

#[derive(Debug, Clone, Copy, PartialEq, Eq, Structural)]
pub enum DiagSeverity {
    Pass,
    Warn,
    Fail,
}

#[derive(Debug, Clone)]
pub struct DiagLine {
    pub severity: DiagSeverity,
    pub message: String,
    pub detail: Option<String>,
}

#[derive(Debug, Clone)]
pub struct DiagSection {
    pub title: String,
    pub lines: Vec<DiagLine>,
}

#[derive(Debug, Clone)]
pub struct DiagReport {
    pub sections: Vec<DiagSection>,
    pub passed: usize,
    pub failed: usize,
    pub warned: usize,
}

/// A line: severity, message and optional detail.
pub type LineView = (DiagSeverity, Seq<char>, Option<Seq<char>>);

impl View for DiagLine {
    type V = LineView;

    open spec fn view(&self) -> LineView {
        (self.severity, self.message@, opt_text(self.detail))
    }
}

/// The lines of a section.
pub open spec fn line_views(lines: Seq<DiagLine>) -> Seq<LineView> {
    lines.map_values(|l: DiagLine| l@)
}

impl View for DiagSection {
    type V = (Seq<char>, Seq<LineView>);

    open spec fn view(&self) -> (Seq<char>, Seq<LineView>) {
        (self.title@, line_views(self.lines@))
    }
}

/// How many lines have severity `sev`.
pub open spec fn count_severity(lines: Seq<DiagLine>, sev: DiagSeverity) -> nat
    decreases lines.len(),
{
    if lines.len() == 0 {
        0
    } else {
        count_severity(lines.drop_last(), sev) + if lines.last().severity == sev {
            1nat
        } else {
            0nat
        }
    }
}

/// How many lines of all sections have severity `sev`.
pub open spec fn report_count(sections: Seq<DiagSection>, sev: DiagSeverity) -> nat
    decreases sections.len(),
{
    if sections.len() == 0 {
        0
    } else {
        report_count(sections.drop_last(), sev) + count_severity(sections.last().lines@, sev)
    }
}

/// The counters agree with the lines of the sections.
pub open spec fn counts_consistent(r: DiagReport) -> bool {
    &&& r.passed == report_count(r.sections@, DiagSeverity::Pass)
    &&& r.warned == report_count(r.sections@, DiagSeverity::Warn)
    &&& r.failed == report_count(r.sections@, DiagSeverity::Fail)
}

proof fn lemma_count_bound(lines: Seq<DiagLine>, sev: DiagSeverity)
    ensures
        count_severity(lines, sev) <= lines.len(),
    decreases lines.len(),
{
    if lines.len() > 0 {
        lemma_count_bound(lines.drop_last(), sev);
    }
}

/// How many lines all sections hold.
pub open spec fn total_lines(sections: Seq<DiagSection>) -> nat
    decreases sections.len(),
{
    if sections.len() == 0 {
        0
    } else {
        total_lines(sections.drop_last()) + sections.last().lines@.len()
    }
}

proof fn lemma_line_counts_add_up(lines: Seq<DiagLine>)
    ensures
        count_severity(lines, DiagSeverity::Pass) + count_severity(lines, DiagSeverity::Warn)
            + count_severity(lines, DiagSeverity::Fail) == lines.len(),
    decreases lines.len(),
{
    if lines.len() > 0 {
        lemma_line_counts_add_up(lines.drop_last());
    }
}

/// Every line counts under exactly one severity: over any sections, the
/// three counts add up to the number of lines.
pub proof fn lemma_severity_counts_add_up(sections: Seq<DiagSection>)
    ensures
        report_count(sections, DiagSeverity::Pass) + report_count(sections, DiagSeverity::Warn)
            + report_count(sections, DiagSeverity::Fail) == total_lines(sections),
    decreases sections.len(),
{
    if sections.len() > 0 {
        lemma_severity_counts_add_up(sections.drop_last());
        lemma_line_counts_add_up(sections.last().lines@);
    }
}

/// A report built from `DiagReport::default()` by any sequence of
/// `push_section` calls keeps its counters consistent: `default` ensures
/// `counts_consistent`, and `push_section` ensures
/// `counts_consistent(*old(self)) ==> counts_consistent(*final(self))`.
/// Such a report's passed, warned and failed
/// counters are the numbers of lines of each severity over all its
/// sections, and they add up to the number of lines.
pub proof fn lemma_report_counts(r: DiagReport)
    requires
        counts_consistent(r),
    ensures
        r.passed == report_count(r.sections@, DiagSeverity::Pass),
        r.warned == report_count(r.sections@, DiagSeverity::Warn),
        r.failed == report_count(r.sections@, DiagSeverity::Fail),
        r.passed + r.warned + r.failed == total_lines(r.sections@),
{
    lemma_severity_counts_add_up(r.sections@);
}

impl Default for DiagReport {
    /// An empty report.
    fn default() -> (r: Self)
        ensures
            r.sections@.len() == 0,
            r.passed == 0,
            r.failed == 0,
            r.warned == 0,
            counts_consistent(r),
    {
        DiagReport { sections: Vec::new(), passed: 0, failed: 0, warned: 0 }
    }
}

impl DiagReport {
    /// Appends a section and counts its lines by severity.
    pub fn push_section(&mut self, section: DiagSection)
        requires
            old(self).passed + section.lines@.len() <= usize::MAX,
            old(self).warned + section.lines@.len() <= usize::MAX,
            old(self).failed + section.lines@.len() <= usize::MAX,
        ensures
            final(self).sections@ == old(self).sections@.push(section),
            final(self).passed == old(self).passed + count_severity(section.lines@, DiagSeverity::Pass),
            final(self).warned == old(self).warned + count_severity(
                section.lines@,
                DiagSeverity::Warn,
            ),
            final(self).failed == old(self).failed + count_severity(
                section.lines@,
                DiagSeverity::Fail,
            ),
            counts_consistent(*old(self)) ==> counts_consistent(*final(self)),
    {
        let ghost start = *self;
        let mut i: usize = 0;
        while i < section.lines.len()
            invariant
                i <= section.lines@.len(),
                self.sections@ == start.sections@,
                self.passed == start.passed + count_severity(
                    section.lines@.take(i as int),
                    DiagSeverity::Pass,
                ),
                self.warned == start.warned + count_severity(
                    section.lines@.take(i as int),
                    DiagSeverity::Warn,
                ),
                self.failed == start.failed + count_severity(
                    section.lines@.take(i as int),
                    DiagSeverity::Fail,
                ),
                start.passed + section.lines@.len() <= usize::MAX,
                start.warned + section.lines@.len() <= usize::MAX,
                start.failed + section.lines@.len() <= usize::MAX,
            decreases section.lines.len() - i,
        {
            proof {
                assert(section.lines@.take(i + 1).drop_last() =~= section.lines@.take(i as int));
                lemma_count_bound(section.lines@.take(i as int), DiagSeverity::Pass);
                lemma_count_bound(section.lines@.take(i as int), DiagSeverity::Warn);
                lemma_count_bound(section.lines@.take(i as int), DiagSeverity::Fail);
            }
            match section.lines[i].severity {
                DiagSeverity::Pass => self.passed += 1,
                DiagSeverity::Warn => self.warned += 1,
                DiagSeverity::Fail => self.failed += 1,
            }
            i += 1;
        }
        assert(section.lines@.take(section.lines@.len() as int) =~= section.lines@);
        self.sections.push(section);
        assert(self.sections@.drop_last() =~= start.sections@);
    }
}

fn line(severity: DiagSeverity, message: String) -> (l: DiagLine)
    ensures
        l@ == (severity, message@, None::<Seq<char>>),
{
    DiagLine { severity, message, detail: None }
}

fn cat2(a: &str, b: &str) -> (r: String)
    ensures
        r@ == a@ + b@,
{
    let mut r = owned(a);
    r.append(b);
    r
}

fn cat3(a: &str, b: &str, c: &str) -> (r: String)
    ensures
        r@ == a@ + b@ + c@,
{
    let mut r = owned(a);
    r.append(b);
    r.append(c);
    r
}

// ---------------------------------------------------------------------
// Environment
// ---------------------------------------------------------------------

/// The env files looked for, in order: `MONITOR_ENV_FILE`, `/etc/clos-monitor.env`, `.env`.
pub fn env_file_candidates(monitor_env_file: Option<&str>) -> (r: Vec<String>)
    ensures
        views(r@) == match monitor_env_file {
            Some(p) => seq![p@, "/etc/clos-monitor.env"@, ".env"@],
            None => seq!["/etc/clos-monitor.env"@, ".env"@],
        },
{
    let mut r: Vec<String> = Vec::new();
    match monitor_env_file {
        Some(p) => r.push(owned(p)),
        None => {},
    }
    r.push(owned("/etc/clos-monitor.env"));
    r.push(owned(".env"));
    assert(views(r@) =~= match monitor_env_file {
        Some(p) => seq![p@, "/etc/clos-monitor.env"@, ".env"@],
        None => seq!["/etc/clos-monitor.env"@, ".env"@],
    });
    r
}

/// A token shown by its last four characters only.
pub open spec fn masked_token(t: Seq<char>) -> Seq<char> {
    if vstd::utf8::encode_utf8(t).len() as usize <= 4 {
        "***"@
    } else {
        "***..."@ + last_chars(t, 4)
    }
}

/// A token shown by its last four characters only (`***` when it is at most four bytes).
pub fn mask_token(token: &str) -> (r: String)
    ensures
        r@ == masked_token(token@),
{
    if token.len() <= 4 {
        return owned("***");
    }
    let tail = crate::text::tail_chars(token, 4);
    cat2("***...", tail.as_str())
}

/// The name of a scope as the report shows it.
pub open spec fn scope_text(s: MonitorScope) -> Seq<char> {
    match s {
        MonitorScope::Both => "both"@,
        MonitorScope::Prod => "prod"@,
        MonitorScope::Staging => "staging"@,
    }
}

/// The name of a reverse proxy kind as the report shows it.
pub open spec fn proxy_text(k: ReverseProxyKind) -> Seq<char> {
    match k {
        ReverseProxyKind::Nginx => "nginx"@,
        ReverseProxyKind::Traefik => "traefik"@,
        ReverseProxyKind::Disabled => "none"@,
    }
}

/// The lines of the environment section.
pub open spec fn env_lines(c: Config, env_file: Option<Seq<char>>) -> Seq<LineView> {
    seq![
        match env_file {
            Some(p) => (DiagSeverity::Pass, "Env file: "@ + p + " (exists)"@, None),
            None => (
                DiagSeverity::Warn,
                "No env file found (MONITOR_ENV_FILE / /etc/clos-monitor.env / .env)"@,
                None,
            ),
        },
        match c.telegram_bot_token {
            Some(t) => (DiagSeverity::Pass, "TELEGRAM_BOT_TOKEN: set ("@ + masked_token(t@) + ")"@, None),
            None => (
                DiagSeverity::Fail,
                "TELEGRAM_BOT_TOKEN: not set — alerts and getWebhookInfo will fail"@,
                None,
            ),
        },
        if c.allowed_chat_ids@.len() == 0 {
            (
                DiagSeverity::Fail,
                "TELEGRAM_CHAT_ID / TELEGRAM_ALLOWED_CHAT_IDS: not set — commands ignored"@,
                None,
            )
        } else {
            (
                DiagSeverity::Pass,
                "Allowed chat IDs: "@ + join_seq(views(c.allowed_chat_ids@), ", "@),
                None,
            )
        },
        match c.webhook_secret {
            Some(s) => (
                DiagSeverity::Pass,
                "MONITOR_WEBHOOK_SECRET: set ("@ + first_chars(s@, 8) + "...)"@,
                None,
            ),
            None => (
                DiagSeverity::Fail,
                "MONITOR_WEBHOOK_SECRET: not set — webhook server will NOT start"@,
                None,
            ),
        },
        (DiagSeverity::Pass, "MONITOR_WEBHOOK_PORT: "@ + decimal(c.webhook_port as nat), None),
        (DiagSeverity::Pass, "MONITOR_SCOPE: "@ + scope_text(c.scope), None),
        (DiagSeverity::Pass, "MONITOR_REVERSE_PROXY: "@ + proxy_text(c.reverse_proxy), None),
        (DiagSeverity::Pass, "Expected Telegram webhook URL: "@ + c.webhook_expected_url@, None),
    ]
}

/// How many line views have severity `sev`.
pub open spec fn severity_count(ls: Seq<LineView>, sev: DiagSeverity) -> nat
    decreases ls.len(),
{
    if ls.len() == 0 {
        0
    } else {
        severity_count(ls.drop_last(), sev) + if ls.last().0 == sev {
            1nat
        } else {
            0nat
        }
    }
}

proof fn lemma_prefix_extends(p: Seq<char>, a: Seq<char>, b: Seq<char>)
    requires
        has_prefix(a, p),
    ensures
        has_prefix(a + b, p),
{
    assert((a + b).take(p.len() as int) =~= a.take(p.len() as int));
}

/// The environment section fails once for each missing setting that the
/// webhook needs (the bot token, the allowed chat IDs, the webhook secret)
/// and for nothing else, and warns only when no env file was found. The
/// line naming the token, and the one naming the secret, fail exactly when
/// that setting is missing; a missing chat ID list has a failing line of
/// its own.
pub proof fn lemma_env_flags_missing_settings(c: Config, f: Option<Seq<char>>)
    ensures
        severity_count(env_lines(c, f), DiagSeverity::Fail) == (if c.telegram_bot_token is None {
            1nat
        } else {
            0nat
        }) + (if c.allowed_chat_ids@.len() == 0 {
            1nat
        } else {
            0nat
        }) + (if c.webhook_secret is None {
            1nat
        } else {
            0nat
        }),
        severity_count(env_lines(c, f), DiagSeverity::Warn) == if f is None {
            1nat
        } else {
            0nat
        },
        exists|i: int|
            0 <= i < env_lines(c, f).len() && has_prefix(
                #[trigger] env_lines(c, f)[i].1,
                "MONITOR_WEBHOOK_SECRET: "@,
            ) && (env_lines(c, f)[i].0 == DiagSeverity::Fail <==> c.webhook_secret is None),
        exists|i: int|
            0 <= i < env_lines(c, f).len() && has_prefix(
                #[trigger] env_lines(c, f)[i].1,
                "TELEGRAM_BOT_TOKEN: "@,
            ) && (env_lines(c, f)[i].0 == DiagSeverity::Fail <==> c.telegram_bot_token is None),
        c.allowed_chat_ids@.len() == 0 ==> exists|i: int|
            0 <= i < env_lines(c, f).len() && has_prefix(
                #[trigger] env_lines(c, f)[i].1,
                "TELEGRAM_CHAT_ID"@,
            ) && env_lines(c, f)[i].0 == DiagSeverity::Fail,
{
    let ls = env_lines(c, f);
    reveal_with_fuel(severity_count, 9);
    assert(ls.len() == 8);
    assert(ls.drop_last().drop_last().drop_last().drop_last().drop_last().drop_last().drop_last().drop_last()
        =~= Seq::<LineView>::empty());
    reveal_strlit("MONITOR_WEBHOOK_SECRET: ");
    reveal_strlit("MONITOR_WEBHOOK_SECRET: set (");
    reveal_strlit("MONITOR_WEBHOOK_SECRET: not set — webhook server will NOT start");
    reveal_strlit("TELEGRAM_BOT_TOKEN: ");
    reveal_strlit("TELEGRAM_BOT_TOKEN: set (");
    reveal_strlit("TELEGRAM_BOT_TOKEN: not set — alerts and getWebhookInfo will fail");
    reveal_strlit("TELEGRAM_CHAT_ID");
    reveal_strlit("TELEGRAM_CHAT_ID / TELEGRAM_ALLOWED_CHAT_IDS: not set — commands ignored");
    match c.webhook_secret {
        Some(sec) => {
            let lit = "MONITOR_WEBHOOK_SECRET: set ("@;
            assert(lit.take(24) =~= "MONITOR_WEBHOOK_SECRET: "@);
            lemma_prefix_extends("MONITOR_WEBHOOK_SECRET: "@, lit, first_chars(sec@, 8));
            lemma_prefix_extends(
                "MONITOR_WEBHOOK_SECRET: "@,
                lit + first_chars(sec@, 8),
                "...)"@,
            );
            assert(has_prefix(ls[3].1, "MONITOR_WEBHOOK_SECRET: "@));
        },
        None => {
            let lit = "MONITOR_WEBHOOK_SECRET: not set — webhook server will NOT start"@;
            assert(lit.take(24) =~= "MONITOR_WEBHOOK_SECRET: "@);
            assert(has_prefix(ls[3].1, "MONITOR_WEBHOOK_SECRET: "@));
        },
    }
    match c.telegram_bot_token {
        Some(t) => {
            let lit = "TELEGRAM_BOT_TOKEN: set ("@;
            assert(lit.take(20) =~= "TELEGRAM_BOT_TOKEN: "@);
            lemma_prefix_extends("TELEGRAM_BOT_TOKEN: "@, lit, masked_token(t@));
            lemma_prefix_extends("TELEGRAM_BOT_TOKEN: "@, lit + masked_token(t@), ")"@);
            assert(has_prefix(ls[1].1, "TELEGRAM_BOT_TOKEN: "@));
        },
        None => {
            let lit = "TELEGRAM_BOT_TOKEN: not set — alerts and getWebhookInfo will fail"@;
            assert(lit.take(20) =~= "TELEGRAM_BOT_TOKEN: "@);
            assert(has_prefix(ls[1].1, "TELEGRAM_BOT_TOKEN: "@));
        },
    }
    if c.allowed_chat_ids@.len() == 0 {
        let lit = "TELEGRAM_CHAT_ID / TELEGRAM_ALLOWED_CHAT_IDS: not set — commands ignored"@;
        assert(lit.take(16) =~= "TELEGRAM_CHAT_ID"@);
        assert(has_prefix(ls[2].1, "TELEGRAM_CHAT_ID"@));
    }
}

/// The environment section, given the env file that was found, if any.
pub fn check_env(config: &Config, env_file: Option<&str>) -> (r: DiagSection)
    ensures
        r@ == ("Environment"@, env_lines(*config, match env_file {
            Some(p) => Some(p@),
            None => None,
        })),
{
    let mut lines: Vec<DiagLine> = Vec::new();
    match env_file {
        Some(p) => lines.push(line(DiagSeverity::Pass, cat3("Env file: ", p, " (exists)"))),
        None => lines.push(
            line(
                DiagSeverity::Warn,
                owned("No env file found (MONITOR_ENV_FILE / /etc/clos-monitor.env / .env)"),
            ),
        ),
    }
    match &config.telegram_bot_token {
        Some(token) => lines.push(
            line(
                DiagSeverity::Pass,
                cat3("TELEGRAM_BOT_TOKEN: set (", mask_token(token.as_str()).as_str(), ")"),
            ),
        ),
        None => lines.push(
            line(
                DiagSeverity::Fail,
                owned("TELEGRAM_BOT_TOKEN: not set — alerts and getWebhookInfo will fail"),
            ),
        ),
    }
    if config.allowed_chat_ids.len() == 0 {
        lines.push(
            line(
                DiagSeverity::Fail,
                owned("TELEGRAM_CHAT_ID / TELEGRAM_ALLOWED_CHAT_IDS: not set — commands ignored"),
            ),
        );
    } else {
        let ids = crate::text::join(&config.allowed_chat_ids, ", ");
        lines.push(line(DiagSeverity::Pass, cat2("Allowed chat IDs: ", ids.as_str())));
    }
    match &config.webhook_secret {
        Some(secret) => {
            let preview = crate::text::take_chars(secret.as_str(), 8);
            lines.push(
                line(
                    DiagSeverity::Pass,
                    cat3("MONITOR_WEBHOOK_SECRET: set (", preview.as_str(), "...)"),
                ),
            );
        },
        None => lines.push(
            line(
                DiagSeverity::Fail,
                owned("MONITOR_WEBHOOK_SECRET: not set — webhook server will NOT start"),
            ),
        ),
    }
    let port = u64_text(config.webhook_port as u64);
    lines.push(line(DiagSeverity::Pass, cat2("MONITOR_WEBHOOK_PORT: ", port.as_str())));
    let scope = match config.scope {
        MonitorScope::Both => "both",
        MonitorScope::Prod => "prod",
        MonitorScope::Staging => "staging",
    };
    lines.push(line(DiagSeverity::Pass, cat2("MONITOR_SCOPE: ", scope)));
    let rp = match config.reverse_proxy {
        ReverseProxyKind::Nginx => "nginx",
        ReverseProxyKind::Traefik => "traefik",
        ReverseProxyKind::Disabled => "none",
    };
    lines.push(line(DiagSeverity::Pass, cat2("MONITOR_REVERSE_PROXY: ", rp)));
    lines.push(
        line(
            DiagSeverity::Pass,
            cat2("Expected Telegram webhook URL: ", config.webhook_expected_url.as_str()),
        ),
    );
    let r = DiagSection { title: owned("Environment"), lines };
    assert(r@.1 =~= env_lines(*config, match env_file {
        Some(p) => Some(p@),
        None => None,
    }));
    r
}


// ---------------------------------------------------------------------
// Daemon process
// ---------------------------------------------------------------------

/// What was found of the PID file and of the process it names.
pub enum PidProbe {
    /// There is no PID file.
    Missing,
    /// The PID file could not be read (the error's text).
    Unreadable(String),
    /// The PID file holds `contents`; `comm` is the process name read for
    /// the PID it holds, `None` when no such process was found.
    Read { contents: String, comm: Option<String> },
}

/// The PID that a PID file holds: its trimmed text as a `u32`.
pub open spec fn pid_in(contents: Seq<char>) -> Option<nat> {
    parse_unsigned(trim_seq(contents), u32::MAX as nat)
}

/// The PID that a PID file holds.
pub fn pid_from_contents(contents: &str) -> (r: Option<u32>)
    ensures
        match pid_in(contents@) {
            Some(n) => r == Some(n as u32),
            None => r is None,
        },
{
    let t = crate::text::trim(contents);
    match crate::text::parse_decimal(t.as_str(), 0xffff_ffff) {
        Some(n) => Some(n as u32),
        None => None,
    }
}

/// Where the process name of `pid` is read.
pub fn comm_path(pid: u32) -> (r: String)
    ensures
        r@ == "/proc/"@ + decimal(pid as nat) + "/comm"@,
{
    let n = u64_text(pid as u64);
    cat3("/proc/", n.as_str(), "/comm")
}

/// `comm` is one of the expected daemon names, or starts with one.
pub open spec fn comm_expected(comm: Seq<char>, names: Seq<Seq<char>>) -> bool {
    exists|i: int| 0 <= i < names.len() && (comm == names[i] || has_prefix(comm, #[trigger] names[i]))
}

/// The line of the daemon process section.
pub open spec fn pid_line(c: Config, p: PidProbe) -> LineView {
    let path = c.pid_file@;
    match p {
        PidProbe::Missing => (
            DiagSeverity::Warn,
            "PID file not found: "@ + path + " — daemon may not be running"@,
            None,
        ),
        PidProbe::Unreadable(e) => (
            DiagSeverity::Fail,
            "PID file unreadable ("@ + path + "): "@ + e@,
            None,
        ),
        PidProbe::Read { contents, comm } => match pid_in(contents@) {
            None => (
                DiagSeverity::Fail,
                "PID file contains invalid value: '"@ + trim_seq(contents@) + "'"@,
                None,
            ),
            Some(pid) => match comm {
                None => (
                    DiagSeverity::Fail,
                    "PID "@ + decimal(pid) + " from PID file is not running (process not found in /proc)"@,
                    None,
                ),
                Some(name) => {
                    let comm = trim_seq(name@);
                    if comm_expected(comm, views(c.expected_process_names@)) {
                        (
                            DiagSeverity::Pass,
                            "Daemon running: PID "@ + decimal(pid) + " ("@ + comm + ")"@,
                            None,
                        )
                    } else {
                        (
                            DiagSeverity::Warn,
                            "PID "@ + decimal(pid) + " in PID file but process comm is '"@ + comm
                                + "' — expected one of ["@ + join_seq(
                                views(c.expected_process_names@),
                                ", "@,
                            ) + "] (stale PID file?)"@,
                            None,
                        )
                    }
                },
            },
        },
    }
}

fn comm_matches(comm: &str, names: &Vec<String>) -> (r: bool)
    ensures
        r == comm_expected(comm@, views(names@)),
{
    let mut i: usize = 0;
    while i < names.len()
        invariant
            i <= names@.len(),
            forall|k: int|
                0 <= k < i ==> !(comm@ == views(names@)[k] || has_prefix(
                    comm@,
                    #[trigger] views(names@)[k],
                )),
        decreases names.len() - i,
    {
        let name = names[i].as_str();
        assert(views(names@)[i as int] == names@[i as int]@);
        if crate::text::str_eq(comm, name) || crate::text::starts_with(comm, name) {
            return true;
        }
        i += 1;
    }
    false
}

/// The daemon process section.
pub fn check_pid(config: &Config, probe: &PidProbe) -> (r: DiagSection)
    ensures
        r@ == ("Daemon Process"@, seq![pid_line(*config, *probe)]),
{
    let path = config.pid_file.as_str();
    let l = match probe {
        PidProbe::Missing => line(
            DiagSeverity::Warn,
            cat3("PID file not found: ", path, " — daemon may not be running"),
        ),
        PidProbe::Unreadable(e) => {
            let mut m = cat3("PID file unreadable (", path, "): ");
            m.append(e.as_str());
            line(DiagSeverity::Fail, m)
        },
        PidProbe::Read { contents, comm } => {
            let pid_str = crate::text::trim(contents.as_str());
            match pid_from_contents(contents.as_str()) {
                None => line(
                    DiagSeverity::Fail,
                    cat3("PID file contains invalid value: '", pid_str.as_str(), "'"),
                ),
                Some(pid) => {
                    let pid_text = u64_text(pid as u64);
                    match comm {
                        None => line(
                            DiagSeverity::Fail,
                            cat3(
                                "PID ",
                                pid_text.as_str(),
                                " from PID file is not running (process not found in /proc)",
                            ),
                        ),
                        Some(name) => {
                            let c = crate::text::trim(name.as_str());
                            if comm_matches(c.as_str(), &config.expected_process_names) {
                                let mut m = cat3("Daemon running: PID ", pid_text.as_str(), " (");
                                m.append(c.as_str());
                                m.append(")");
                                line(DiagSeverity::Pass, m)
                            } else {
                                let mut m = cat3(
                                    "PID ",
                                    pid_text.as_str(),
                                    " in PID file but process comm is '",
                                );
                                m.append(c.as_str());
                                m.append("' — expected one of [");
                                m.append(
                                    crate::text::join(&config.expected_process_names, ", ").as_str(),
                                );
                                m.append("] (stale PID file?)");
                                line(DiagSeverity::Warn, m)
                            }
                        },
                    }
                },
            }
        },
    };
    let lines = vec![l];
    let r = DiagSection { title: owned("Daemon Process"), lines };
    assert(r@.1 =~= seq![pid_line(*config, *probe)]);
    r
}

// ---------------------------------------------------------------------
// Local webhook port
// ---------------------------------------------------------------------

/// What connecting to the local webhook port gave.
pub enum PortProbe {
    /// The address could not be formed (the error's text).
    InvalidAddress(String),
    /// The connection was accepted.
    Open,
    /// The connection was refused (the error's text).
    Refused(String),
    /// No answer in time.
    TimedOut,
}

/// The local address the webhook listens on.
pub open spec fn listen_address(port: u16) -> Seq<char> {
    "127.0.0.1:"@ + decimal(port as nat)
}

/// The local address the webhook listens on: `127.0.0.1:PORT`.
pub fn webhook_listen_address(port: u16) -> (r: String)
    ensures
        r@ == listen_address(port),
{
    cat2("127.0.0.1:", u64_text(port as u64).as_str())
}

/// The line of the local port section.
pub open spec fn port_line(port: u16, p: PortProbe) -> LineView {
    let n = decimal(port as nat);
    match p {
        PortProbe::InvalidAddress(e) => (
            DiagSeverity::Fail,
            "Invalid webhook address "@ + listen_address(port) + ": "@ + e@,
            None,
        ),
        PortProbe::Open => (DiagSeverity::Pass, "Port "@ + n + " is open — webhook server is listening"@, None),
        PortProbe::Refused(e) => (
            DiagSeverity::Fail,
            "Port "@ + n + " refused: "@ + e@ + " — webhook not running?"@,
            None,
        ),
        PortProbe::TimedOut => (
            DiagSeverity::Fail,
            "Port "@ + n + " timed out — webhook not responding"@,
            None,
        ),
    }
}

/// The local webhook port section.
pub fn check_webhook_port(config: &Config, probe: &PortProbe) -> (r: DiagSection)
    ensures
        r@ == ("Webhook Server (local port)"@, seq![port_line(config.webhook_port, *probe)]),
{
    let n = u64_text(config.webhook_port as u64);
    let l = match probe {
        PortProbe::InvalidAddress(e) => {
            let mut m = cat2("Invalid webhook address ", webhook_listen_address(config.webhook_port).as_str());
            m.append(": ");
            m.append(e.as_str());
            line(DiagSeverity::Fail, m)
        },
        PortProbe::Open => line(
            DiagSeverity::Pass,
            cat3("Port ", n.as_str(), " is open — webhook server is listening"),
        ),
        PortProbe::Refused(e) => {
            let mut m = cat3("Port ", n.as_str(), " refused: ");
            m.append(e.as_str());
            m.append(" — webhook not running?");
            line(DiagSeverity::Fail, m)
        },
        PortProbe::TimedOut => line(
            DiagSeverity::Fail,
            cat3("Port ", n.as_str(), " timed out — webhook not responding"),
        ),
    };
    let lines = vec![l];
    let r = DiagSection { title: owned("Webhook Server (local port)"), lines };
    assert(r@.1 =~= seq![port_line(config.webhook_port, *probe)]);
    r
}


// ---------------------------------------------------------------------
// Telegram getWebhookInfo
// ---------------------------------------------------------------------

/// The reply of `getWebhookInfo`.
#[derive(Debug, Clone)]
pub struct WebhookInfo {
    pub ok: bool,
    pub result: Option<WebhookResult>,
}

/// The webhook registration that Telegram reports.
#[derive(Debug, Clone)]
pub struct WebhookResult {
    pub url: Option<String>,
    pub has_custom_certificate: Option<bool>,
    pub pending_update_count: Option<u64>,
    pub last_error_date: Option<u64>,
    pub last_error_message: Option<String>,
    pub max_connections: Option<u64>,
}

/// How a `getWebhookInfo` call went.
pub enum WebhookFetch {
    /// No bot token is configured.
    NoToken,
    /// The HTTP client could not be built (the error's text).
    ClientError(String),
    /// The request could not be sent (the error's text).
    Unreachable(String),
    /// The reply's status was refused: its code and how `StatusCode` displays it.
    Rejected { code: u16, status: String },
    /// The reply's body, decoded or not (the decoding error's text).
    Parsed(Result<WebhookInfo, String>),
}

/// The `getWebhookInfo` address for the configured bot, if a token is set.
pub fn webhook_info_url(config: &Config) -> (r: Option<String>)
    ensures
        match config.telegram_bot_token {
            Some(t) => r is Some && r->0@ == "https://api.telegram.org/bot"@ + t@ + "/"@
                + "getWebhookInfo"@,
            None => r is None,
        },
{
    match &config.telegram_bot_token {
        Some(t) => Some(crate::telegram::bot_method_url(t.as_str(), "getWebhookInfo")),
        None => None,
    }
}

/// A reply with this status is not read: 401, or anything outside 2xx.
pub fn status_rejected(code: u16) -> (r: bool)
    ensures
        r == (code == 401 || !(200 <= code && code <= 299)),
{
    code == 401 || !(200 <= code && code <= 299)
}

/// The registration, or the text of what went wrong.
pub open spec fn fetch_verdict(f: WebhookFetch) -> Result<WebhookResult, Seq<char>> {
    match f {
        WebhookFetch::NoToken => Err("TELEGRAM_BOT_TOKEN not set"@),
        WebhookFetch::ClientError(e) => Err(e@),
        WebhookFetch::Unreachable(e) => Err("Telegram API unreachable: "@ + e@),
        WebhookFetch::Rejected { code, status } => if code == 401 {
            Err("Telegram API 401 — TELEGRAM_BOT_TOKEN invalid"@)
        } else {
            Err("Telegram API HTTP "@ + status@)
        },
        WebhookFetch::Parsed(Err(e)) => Err("Could not parse Telegram response: "@ + e@),
        WebhookFetch::Parsed(Ok(info)) => if !info.ok {
            Err("Telegram API response: ok=false"@)
        } else {
            match info.result {
                Some(r) => Ok(r),
                None => Err("Telegram API returned empty result"@),
            }
        },
    }
}

/// A result with its error as text.
pub open spec fn fetched_text(r: Result<WebhookResult, String>) -> Result<WebhookResult, Seq<char>> {
    match r {
        Ok(x) => Ok(x),
        Err(e) => Err(e@),
    }
}

/// The registration that a `getWebhookInfo` call gave, or what went wrong.
pub fn webhook_fetch_result(f: WebhookFetch) -> (r: Result<WebhookResult, String>)
    ensures
        fetched_text(r) == fetch_verdict(f),
{
    match f {
        WebhookFetch::NoToken => Err(owned("TELEGRAM_BOT_TOKEN not set")),
        WebhookFetch::ClientError(e) => Err(e),
        WebhookFetch::Unreachable(e) => Err(cat2("Telegram API unreachable: ", e.as_str())),
        WebhookFetch::Rejected { code, status } => {
            if code == 401 {
                Err(owned("Telegram API 401 — TELEGRAM_BOT_TOKEN invalid"))
            } else {
                Err(cat2("Telegram API HTTP ", status.as_str()))
            }
        },
        WebhookFetch::Parsed(Err(e)) => Err(cat2("Could not parse Telegram response: ", e.as_str())),
        WebhookFetch::Parsed(Ok(info)) => {
            if !info.ok {
                Err(owned("Telegram API response: ok=false"))
            } else {
                match info.result {
                    Some(r) => Ok(r),
                    None => Err(owned("Telegram API returned empty result")),
                }
            }
        },
    }
}

/// The registered URL, trimmed; `(not set)` when Telegram gave none.
pub open spec fn registered_url(r: WebhookResult) -> Seq<char> {
    match r.url {
        Some(u) => trim_seq(u@),
        None => "(not set)"@,
    }
}

/// When the last error happened: the formatted time, or `unix:SECONDS`.
pub open spec fn error_time_text(date: u64, formatted: Option<Seq<char>>) -> Seq<char> {
    match formatted {
        Some(t) => t,
        None => "unix:"@ + decimal(date as nat),
    }
}

/// The detail lines of the registration.
pub open spec fn api_detail_lines(r: WebhookResult, formatted: Option<Seq<char>>) -> Seq<Seq<char>> {
    let pending = match r.pending_update_count {
        Some(n) => n,
        None => 0,
    };
    let cert = match r.has_custom_certificate {
        Some(b) => b,
        None => false,
    };
    let max_conn = match r.max_connections {
        Some(n) => n,
        None => 0,
    };
    seq![
        "url:                    "@ + registered_url(r),
        "has_custom_certificate: "@ + crate::text::bool_text(cert),
        "pending_update_count:    "@ + decimal(pending as nat),
        "max_connections:         "@ + decimal(max_conn as nat),
    ] + match r.last_error_message {
        Some(m) => (match r.last_error_date {
            Some(d) => seq!["last_error_date:         "@ + error_time_text(d, formatted)],
            None => Seq::empty(),
        }) + seq!["last_error_message:      "@ + m@],
        None => seq!["last_error_message:      (none)"@],
    }
}

/// The lines of the Telegram API section.
pub open spec fn api_lines(
    c: Config,
    fetched: Result<WebhookResult, Seq<char>>,
    formatted: Option<Seq<char>>,
) -> Seq<LineView> {
    match fetched {
        Err(e) => seq![(DiagSeverity::Fail, e, None)],
        Ok(r) => {
            let url = registered_url(r);
            let expected = trim_seq(c.webhook_expected_url@);
            let detail = Some(join_seq(api_detail_lines(r, formatted), "\n"@));
            let pending = match r.pending_update_count {
                Some(n) => n,
                None => 0,
            };
            let main = if url == "(not set)"@ || url.len() == 0 {
                (DiagSeverity::Fail, "Webhook not registered. Expected URL: "@ + expected, detail)
            } else if url != expected {
                (
                    DiagSeverity::Warn,
                    "Webhook URL mismatch — registered: "@ + url + "  expected: "@ + expected,
                    detail,
                )
            } else {
                (
                    DiagSeverity::Pass,
                    "Telegram webhook URL matches MONITOR_WEBHOOK_EXPECTED_URL"@,
                    detail,
                )
            };
            seq![main] + (if pending > 10 {
                seq![
                    (
                        DiagSeverity::Warn,
                        decimal(pending as nat) + " pending updates — webhook may be failing"@,
                        None,
                    ),
                ]
            } else {
                Seq::empty()
            }) + (if r.last_error_message is Some {
                seq![
                    (
                        DiagSeverity::Warn,
                        "Telegram reports last_error_message (see detail above)"@,
                        None,
                    ),
                ]
            } else {
                Seq::empty()
            })
        },
    }
}

fn push_text(v: &mut Vec<String>, s: String)
    ensures
        views(final(v)@) == views(old(v)@).push(s@),
{
    v.push(s);
    assert(views(v@) =~= views(old(v)@).push(s@));
}

fn detail_text(r: &WebhookResult, formatted: &Option<String>) -> (d: String)
    ensures
        d@ == join_seq(api_detail_lines(*r, opt_text(*formatted)), "\n"@),
{
    let url = match &r.url {
        Some(u) => crate::text::trim(u.as_str()),
        None => owned("(not set)"),
    };
    let pending = match r.pending_update_count {
        Some(n) => n,
        None => 0,
    };
    let cert = match r.has_custom_certificate {
        Some(b) => b,
        None => false,
    };
    let max_conn = match r.max_connections {
        Some(n) => n,
        None => 0,
    };
    let mut lines: Vec<String> = Vec::new();
    push_text(&mut lines, cat2("url:                    ", url.as_str()));
    push_text(
        &mut lines,
        cat2("has_custom_certificate: ", if cert {
            "true"
        } else {
            "false"
        }),
    );
    push_text(&mut lines, cat2("pending_update_count:    ", u64_text(pending).as_str()));
    push_text(&mut lines, cat2("max_connections:         ", u64_text(max_conn).as_str()));
    proof {
        reveal_strlit("true");
        reveal_strlit("false");
        assert("true"@ =~= crate::text::bool_text(true));
        assert("false"@ =~= crate::text::bool_text(false));
    }
    let ghost head = views(lines@);
    assert(head =~= seq![
        "url:                    "@ + registered_url(*r),
        "has_custom_certificate: "@ + crate::text::bool_text(cert),
        "pending_update_count:    "@ + decimal(pending as nat),
        "max_connections:         "@ + decimal(max_conn as nat),
    ]);
    match &r.last_error_message {
        Some(m) => {
            match r.last_error_date {
                Some(d) => {
                    let when = match formatted {
                        Some(t) => owned(t.as_str()),
                        None => cat2("unix:", u64_text(d).as_str()),
                    };
                    push_text(&mut lines, cat2("last_error_date:         ", when.as_str()));
                },
                None => {},
            }
            push_text(&mut lines, cat2("last_error_message:      ", m.as_str()));
        },
        None => push_text(&mut lines, owned("last_error_message:      (none)")),
    }
    assert(views(lines@) =~= api_detail_lines(*r, opt_text(*formatted)));
    crate::text::join(&lines, "\n")
}

/// The Telegram API section, given the registration fetched and the
/// formatted time of its last error.
pub fn telegram_api_section(
    config: &Config,
    fetched: &Result<WebhookResult, String>,
    formatted: &Option<String>,
) -> (r: DiagSection)
    ensures
        r@ == ("Telegram API (getWebhookInfo)"@, api_lines(
            *config,
            fetched_text(*fetched),
            opt_text(*formatted),
        )),
{
    let mut lines: Vec<DiagLine> = Vec::new();
    match fetched {
        Err(e) => {
            lines.push(line(DiagSeverity::Fail, owned(e.as_str())));
        },
        Ok(res) => {
            let url = match &res.url {
                Some(u) => crate::text::trim(u.as_str()),
                None => owned("(not set)"),
            };
            let expected = crate::text::trim(config.webhook_expected_url.as_str());
            let pending = match res.pending_update_count {
                Some(n) => n,
                None => 0,
            };
            let detail = detail_text(res, formatted);
            if crate::text::str_eq(url.as_str(), "(not set)") || url.unicode_len() == 0 {
                lines.push(
                    DiagLine {
                        severity: DiagSeverity::Fail,
                        message: cat2("Webhook not registered. Expected URL: ", expected.as_str()),
                        detail: Some(detail),
                    },
                );
            } else if !crate::text::str_eq(url.as_str(), expected.as_str()) {
                let mut m = cat2("Webhook URL mismatch — registered: ", url.as_str());
                m.append("  expected: ");
                m.append(expected.as_str());
                lines.push(DiagLine { severity: DiagSeverity::Warn, message: m, detail: Some(detail) });
            } else {
                lines.push(
                    DiagLine {
                        severity: DiagSeverity::Pass,
                        message: owned("Telegram webhook URL matches MONITOR_WEBHOOK_EXPECTED_URL"),
                        detail: Some(detail),
                    },
                );
            }
            if pending > 10 {
                lines.push(
                    line(
                        DiagSeverity::Warn,
                        cat2(u64_text(pending).as_str(), " pending updates — webhook may be failing"),
                    ),
                );
            }
            if res.last_error_message.is_some() {
                lines.push(
                    line(
                        DiagSeverity::Warn,
                        owned("Telegram reports last_error_message (see detail above)"),
                    ),
                );
            }
        },
    }
    let r = DiagSection { title: owned("Telegram API (getWebhookInfo)"), lines };
    assert(r@.1 =~= api_lines(*config, fetched_text(*fetched), opt_text(*formatted)));
    r
}

/// The formatted time of the registration's last error, when one is reported.
pub open spec fn error_time_of(fetched: Result<WebhookResult, String>) -> Option<Seq<char>> {
    match fetched {
        Ok(r) => match (r.last_error_message, r.last_error_date) {
            (Some(_), Some(d)) => crate::clock::utc_timestamp_text((d as i64) as int),
            _ => None,
        },
        Err(_) => None,
    }
}

/// The Telegram API section for the registration fetched.
pub fn check_telegram_api(config: &Config, fetched: &Result<WebhookResult, String>) -> (r: DiagSection)
    ensures
        r@ == ("Telegram API (getWebhookInfo)"@, api_lines(
            *config,
            fetched_text(*fetched),
            error_time_of(*fetched),
        )),
{
    let formatted = match fetched {
        Ok(res) => match (&res.last_error_message, res.last_error_date) {
            (Some(_), Some(d)) => crate::clock::timestamp_text(d as i64),
            _ => None,
        },
        Err(_) => None,
    };
    telegram_api_section(config, fetched, &formatted)
}

/// Startup check of the registration: a URL is registered and it is the expected one.
pub open spec fn startup_verdict(fetched: Result<WebhookResult, Seq<char>>, expected: Seq<char>) -> Result<
    (),
    Seq<char>,
> {
    match fetched {
        Err(e) => Err(e),
        Ok(r) => {
            let registered = match r.url {
                Some(u) => trim_seq(u@),
                None => Seq::empty(),
            };
            let want = trim_seq(expected);
            if registered.len() == 0 {
                Err(
                    "Telegram webhook URL is empty — register with setWebhook (see DEPLOY_CHECKLIST.md)"@,
                )
            } else if registered != want {
                Err("webhook mismatch: registered="@ + registered + " expected="@ + want)
            } else {
                Ok(())
            }
        },
    }
}

/// Confirms that Telegram's registration matches the expected webhook URL.
pub fn webhook_startup_verdict(fetched: &Result<WebhookResult, String>, expected: &str) -> (r: Result<
    (),
    String,
>)
    ensures
        crate::checks::err_text(r) == startup_verdict(fetched_text(*fetched), expected@),
{
    match fetched {
        Err(e) => Err(owned(e.as_str())),
        Ok(res) => {
            let registered = match &res.url {
                Some(u) => crate::text::trim(u.as_str()),
                None => String::new(),
            };
            let want = crate::text::trim(expected);
            if registered.unicode_len() == 0 {
                Err(
                    owned(
                        "Telegram webhook URL is empty — register with setWebhook (see DEPLOY_CHECKLIST.md)",
                    ),
                )
            } else if !crate::text::str_eq(registered.as_str(), want.as_str()) {
                let mut m = cat2("webhook mismatch: registered=", registered.as_str());
                m.append(" expected=");
                m.append(want.as_str());
                Err(m)
            } else {
                Ok(())
            }
        },
    }
}

/// Whether the daemon checks the webhook registration at startup.
#[derive(Debug, Clone, Copy, PartialEq, Eq, Structural)]
pub enum StartupCheck {
    /// `MONITOR_WEBHOOK_STARTUP_VERIFY` is off.
    NotRequested,
    /// Requested, but no bot token is set: skipped with a warning.
    NoToken,
    /// Ask Telegram and compare.
    Verify,
}

/// The startup check the configuration asks for.
pub fn startup_check(config: &Config) -> (r: StartupCheck)
    ensures
        r == (if !config.webhook_startup_verify {
            StartupCheck::NotRequested
        } else if config.telegram_bot_token is None {
            StartupCheck::NoToken
        } else {
            StartupCheck::Verify
        }),
{
    if !config.webhook_startup_verify {
        StartupCheck::NotRequested
    } else if config.telegram_bot_token.is_none() {
        StartupCheck::NoToken
    } else {
        StartupCheck::Verify
    }
}

/// What the daemon does after the startup check of the registration.
pub enum StartupAction {
    /// The registration matches: carry on.
    Proceed,
    /// It does not match (the reason): warn and carry on.
    WarnAndProceed(String),
    /// It does not match and strict mode is on: stop with the reason.
    Abort(String),
}

/// The daemon's step after the startup check: on a failed check it stops
/// in strict mode and only warns otherwise.
pub fn startup_outcome(strict: bool, verdict: &Result<(), String>) -> (r: StartupAction)
    ensures
        match verdict {
            Ok(()) => r is Proceed,
            Err(e) => if strict {
                r matches StartupAction::Abort(x) && x@ == e@
            } else {
                r matches StartupAction::WarnAndProceed(x) && x@ == e@
            },
        },
{
    match verdict {
        Ok(()) => StartupAction::Proceed,
        Err(e) => if strict {
            StartupAction::Abort(owned(e.as_str()))
        } else {
            StartupAction::WarnAndProceed(owned(e.as_str()))
        },
    }
}


// ---------------------------------------------------------------------
// Reverse proxy
// ---------------------------------------------------------------------

/// What `grep -rl monitor/webhook ...` gave.
pub enum GrepOutcome {
    /// It exited with success; its standard output (the matching files).
    Found(String),
    /// It exited with failure.
    NotFound,
    /// It could not be run (the error's text).
    Failed(String),
}

/// What was found of the nginx webhook secret include.
pub enum SecretFile {
    Missing,
    /// It could not be read (the error's text).
    Unreadable(String),
    Contents(String),
}

/// What was found of the Traefik scan path.
pub enum PathScan {
    /// The path does not exist.
    Missing,
    /// The path exists and was searched.
    Grep(GrepOutcome),
}

/// The probes of the configured reverse proxy.
pub enum ProxyProbe {
    Nginx { grep: GrepOutcome, secret: SecretFile },
    /// The scan path is only consulted when one is configured.
    Traefik { scan: PathScan },
    Skipped,
}

/// The probe was made for the configured kind of proxy.
pub open spec fn probe_fits(kind: ReverseProxyKind, p: ProxyProbe) -> bool {
    match kind {
        ReverseProxyKind::Nginx => p is Nginx,
        ReverseProxyKind::Traefik => p is Traefik,
        ReverseProxyKind::Disabled => true,
    }
}

/// The lines of the nginx section.
pub open spec fn nginx_lines(grep: GrepOutcome, secret: SecretFile) -> Seq<LineView> {
    let g = match grep {
        GrepOutcome::Found(out) => {
            let files = non_empty_lines(out@);
            if files.len() == 0 {
                (DiagSeverity::Fail, "No nginx site contains 'monitor/webhook'"@, None)
            } else {
                (
                    DiagSeverity::Pass,
                    "/monitor/webhook block found in: "@ + join_seq(files, ", "@),
                    None,
                )
            }
        },
        GrepOutcome::NotFound => (
            DiagSeverity::Fail,
            "No nginx site contains 'monitor/webhook' (grep exit non-zero)"@,
            None,
        ),
        GrepOutcome::Failed(e) => (
            DiagSeverity::Warn,
            "Could not grep nginx config ("@ + e@ + "): skipped (permissions?)"@,
            None,
        ),
    };
    let f = match secret {
        SecretFile::Missing => (
            DiagSeverity::Fail,
            "/etc/nginx/telegram-webhook-secret.conf missing"@,
            None,
        ),
        SecretFile::Contents(c) => {
            let t = trim_seq(c@);
            if t.len() == 0 || has_substring(t, "run-monitor-deploy-to-update"@) {
                (
                    DiagSeverity::Warn,
                    "telegram-webhook-secret.conf looks like a placeholder"@,
                    None,
                )
            } else {
                (
                    DiagSeverity::Pass,
                    "/etc/nginx/telegram-webhook-secret.conf has a value"@,
                    None,
                )
            }
        },
        SecretFile::Unreadable(e) => (
            DiagSeverity::Warn,
            "telegram-webhook-secret.conf unreadable ("@ + e@ + "): skipped"@,
            None,
        ),
    };
    seq![g, f]
}

/// The nginx section: the site holding the webhook route and the secret include.
pub fn check_nginx_proxy(grep: &GrepOutcome, secret: &SecretFile) -> (r: DiagSection)
    ensures
        r@ == ("Reverse proxy (nginx)"@, nginx_lines(*grep, *secret)),
{
    let g = match grep {
        GrepOutcome::Found(out) => {
            let files = crate::text::lines_non_empty(out.as_str());
            if files.len() == 0 {
                line(DiagSeverity::Fail, owned("No nginx site contains 'monitor/webhook'"))
            } else {
                let list = crate::text::join(&files, ", ");
                line(DiagSeverity::Pass, cat2("/monitor/webhook block found in: ", list.as_str()))
            }
        },
        GrepOutcome::NotFound => line(
            DiagSeverity::Fail,
            owned("No nginx site contains 'monitor/webhook' (grep exit non-zero)"),
        ),
        GrepOutcome::Failed(e) => line(
            DiagSeverity::Warn,
            cat3("Could not grep nginx config (", e.as_str(), "): skipped (permissions?)"),
        ),
    };
    let f = match secret {
        SecretFile::Missing => line(
            DiagSeverity::Fail,
            owned("/etc/nginx/telegram-webhook-secret.conf missing"),
        ),
        SecretFile::Contents(c) => {
            let t = crate::text::trim(c.as_str());
            if t.unicode_len() == 0 || crate::text::contains(
                t.as_str(),
                "run-monitor-deploy-to-update",
            ) {
                line(
                    DiagSeverity::Warn,
                    owned("telegram-webhook-secret.conf looks like a placeholder"),
                )
            } else {
                line(
                    DiagSeverity::Pass,
                    owned("/etc/nginx/telegram-webhook-secret.conf has a value"),
                )
            }
        },
        SecretFile::Unreadable(e) => line(
            DiagSeverity::Warn,
            cat3("telegram-webhook-secret.conf unreadable (", e.as_str(), "): skipped"),
        ),
    };
    let lines = vec![g, f];
    let r = DiagSection { title: owned("Reverse proxy (nginx)"), lines };
    assert(r@.1 =~= nginx_lines(*grep, *secret));
    r
}

/// The lines of the Traefik section.
pub open spec fn traefik_lines(c: Config, scan: PathScan) -> Seq<LineView> {
    match c.traefik_config_scan_path {
        None => seq![
            (
                DiagSeverity::Warn,
                "MONITOR_TRAEFIK_CONFIG_SCAN_PATH not set — set it to a file or directory containing your router rule for /monitor/webhook"@,
                None,
            ),
        ],
        Some(path) => match scan {
            PathScan::Missing => seq![
                (
                    DiagSeverity::Fail,
                    "MONITOR_TRAEFIK_CONFIG_SCAN_PATH does not exist: "@ + path@,
                    None,
                ),
            ],
            PathScan::Grep(g) => {
                let found = match g {
                    GrepOutcome::Found(out) => {
                        let files = non_empty_lines(out@);
                        if files.len() == 0 {
                            (
                                DiagSeverity::Warn,
                                "No file under MONITOR_TRAEFIK_CONFIG_SCAN_PATH contains 'monitor/webhook'"@,
                                None,
                            )
                        } else {
                            (
                                DiagSeverity::Pass,
                                "monitor/webhook referenced in: "@ + join_seq(files, ", "@),
                                None,
                            )
                        }
                    },
                    GrepOutcome::NotFound => (
                        DiagSeverity::Warn,
                        "grep found no monitor/webhook in Traefik scan path"@,
                        None,
                    ),
                    GrepOutcome::Failed(e) => (
                        DiagSeverity::Warn,
                        "Could not grep Traefik config ("@ + e@ + "): skipped"@,
                        None,
                    ),
                };
                seq![
                    found,
                    (
                        DiagSeverity::Pass,
                        "Nginx secret include not used for Traefik — forward X-Telegram-Bot-Api-Secret-Token in your middleware/router"@,
                        None,
                    ),
                ]
            },
        },
    }
}

/// The Traefik section: the scan path holding the webhook route.
pub fn check_traefik_proxy(config: &Config, scan: &PathScan) -> (r: DiagSection)
    ensures
        r@ == ("Reverse proxy (Traefik)"@, traefik_lines(*config, *scan)),
{
    let mut lines: Vec<DiagLine> = Vec::new();
    match &config.traefik_config_scan_path {
        None => {
            lines.push(
                line(
                    DiagSeverity::Warn,
                    owned(
                        "MONITOR_TRAEFIK_CONFIG_SCAN_PATH not set — set it to a file or directory containing your router rule for /monitor/webhook",
                    ),
                ),
            );
        },
        Some(path) => match scan {
            PathScan::Missing => {
                lines.push(
                    line(
                        DiagSeverity::Fail,
                        cat2("MONITOR_TRAEFIK_CONFIG_SCAN_PATH does not exist: ", path.as_str()),
                    ),
                );
            },
            PathScan::Grep(g) => {
                let found = match g {
                    GrepOutcome::Found(out) => {
                        let files = crate::text::lines_non_empty(out.as_str());
                        if files.len() == 0 {
                            line(
                                DiagSeverity::Warn,
                                owned(
                                    "No file under MONITOR_TRAEFIK_CONFIG_SCAN_PATH contains 'monitor/webhook'",
                                ),
                            )
                        } else {
                            let list = crate::text::join(&files, ", ");
                            line(
                                DiagSeverity::Pass,
                                cat2("monitor/webhook referenced in: ", list.as_str()),
                            )
                        }
                    },
                    GrepOutcome::NotFound => line(
                        DiagSeverity::Warn,
                        owned("grep found no monitor/webhook in Traefik scan path"),
                    ),
                    GrepOutcome::Failed(e) => line(
                        DiagSeverity::Warn,
                        cat3("Could not grep Traefik config (", e.as_str(), "): skipped"),
                    ),
                };
                lines.push(found);
                lines.push(
                    line(
                        DiagSeverity::Pass,
                        owned(
                            "Nginx secret include not used for Traefik — forward X-Telegram-Bot-Api-Secret-Token in your middleware/router",
                        ),
                    ),
                );
            },
        },
    }
    let r = DiagSection { title: owned("Reverse proxy (Traefik)"), lines };
    assert(r@.1 =~= traefik_lines(*config, *scan));
    r
}

/// The reverse proxy section for the configured kind of proxy.
pub open spec fn proxy_section(c: Config, p: ProxyProbe) -> (Seq<char>, Seq<LineView>) {
    match c.reverse_proxy {
        ReverseProxyKind::Nginx => match p {
            ProxyProbe::Nginx { grep, secret } => ("Reverse proxy (nginx)"@, nginx_lines(grep, secret)),
            _ => ("Reverse proxy (nginx)"@, Seq::empty()),
        },
        ReverseProxyKind::Traefik => match p {
            ProxyProbe::Traefik { scan } => ("Reverse proxy (Traefik)"@, traefik_lines(c, scan)),
            _ => ("Reverse proxy (Traefik)"@, Seq::empty()),
        },
        ReverseProxyKind::Disabled => (
            "Reverse proxy"@,
            seq![
                (
                    DiagSeverity::Pass,
                    "MONITOR_REVERSE_PROXY=none — skipped local routing file scan"@,
                    None,
                ),
            ],
        ),
    }
}

/// The reverse proxy section.
pub fn check_reverse_proxy(config: &Config, probe: &ProxyProbe) -> (r: DiagSection)
    requires
        probe_fits(config.reverse_proxy, *probe),
    ensures
        r@ == proxy_section(*config, *probe),
{
    match config.reverse_proxy {
        ReverseProxyKind::Nginx => match probe {
            ProxyProbe::Nginx { grep, secret } => check_nginx_proxy(grep, secret),
            _ => DiagSection { title: owned("Reverse proxy (nginx)"), lines: Vec::new() },
        },
        ReverseProxyKind::Traefik => match probe {
            ProxyProbe::Traefik { scan } => check_traefik_proxy(config, scan),
            _ => DiagSection { title: owned("Reverse proxy (Traefik)"), lines: Vec::new() },
        },
        ReverseProxyKind::Disabled => {
            let lines = vec![
                line(
                    DiagSeverity::Pass,
                    owned("MONITOR_REVERSE_PROXY=none — skipped local routing file scan"),
                ),
            ];
            let r = DiagSection { title: owned("Reverse proxy"), lines };
            assert(r@.1 =~= proxy_section(*config, *probe).1);
            r
        },
    }
}

// ---------------------------------------------------------------------
// The report as a Telegram message
// ---------------------------------------------------------------------

/// The icon of a severity.
pub open spec fn severity_icon(s: DiagSeverity) -> Seq<char> {
    match s {
        DiagSeverity::Pass => "✅"@,
        DiagSeverity::Warn => "⚠️"@,
        DiagSeverity::Fail => "❌"@,
    }
}

/// A line of the report: icon and message, then up to 600 characters of
/// its detail, escaped, in `<pre>`.
pub open spec fn line_text(l: DiagLine) -> Seq<char> {
    severity_icon(l.severity) + " "@ + l.message@ + "\n"@ + match l.detail {
        Some(d) => "<pre>"@ + html_escape_seq(first_chars(d@, 600)) + "</pre>\n"@,
        None => Seq::empty(),
    }
}

/// The lines of a section, in order.
pub open spec fn lines_text(ls: Seq<DiagLine>) -> Seq<char>
    decreases ls.len(),
{
    if ls.len() == 0 {
        Seq::empty()
    } else {
        lines_text(ls.drop_last()) + line_text(ls.last())
    }
}

/// The sections, each under its bold title.
pub open spec fn sections_text(ss: Seq<DiagSection>) -> Seq<char>
    decreases ss.len(),
{
    if ss.len() == 0 {
        Seq::empty()
    } else {
        sections_text(ss.drop_last()) + "\n<b>"@ + ss.last().title@ + "</b>\n"@ + lines_text(
            ss.last().lines@,
        )
    }
}

/// The whole report before truncation.
pub open spec fn report_text(r: DiagReport) -> Seq<char> {
    "<b>Monitor self-check</b> v"@ + MONITOR_VERSION@ + "\n"@ + sections_text(r.sections@) + "\n<i>"@
        + decimal(r.passed as nat) + " ok, "@ + decimal(r.warned as nat) + " warn, "@ + decimal(
        r.failed as nat,
    ) + " fail</i>"@
}

/// A text cut to at most `max` bytes: when longer, its first `max - 1`
/// characters followed by `…`.
pub open spec fn truncated(s: Seq<char>, max: usize) -> Seq<char> {
    if vstd::utf8::encode_utf8(s).len() as usize <= max {
        s
    } else {
        first_chars(s, (if max >= 1 {
            max - 1
        } else {
            0
        }) as nat).push('…')
    }
}

fn truncate_msg(s: &str, max: usize) -> (r: String)
    ensures
        r@ == truncated(s@, max),
{
    if s.len() <= max {
        return owned(s);
    }
    let keep = if max >= 1 {
        max - 1
    } else {
        0
    };
    let mut r = crate::text::take_chars(s, keep);
    crate::text::push_char(&mut r, '…');
    r
}

fn push_line_text(body: &mut String, l: &DiagLine)
    ensures
        final(body)@ == old(body)@ + line_text(*l),
{
    let icon = match l.severity {
        DiagSeverity::Pass => "✅",
        DiagSeverity::Warn => "⚠️",
        DiagSeverity::Fail => "❌",
    };
    body.append(icon);
    body.append(" ");
    body.append(l.message.as_str());
    body.append("\n");
    match &l.detail {
        Some(d) => {
            let snippet = crate::text::take_chars(d.as_str(), 600);
            body.append("<pre>");
            body.append(crate::text::html_escape(snippet.as_str()).as_str());
            body.append("</pre>\n");
        },
        None => {},
    }
}

/// Format report for Telegram HTML (truncated).
pub fn format_report_telegram(report: &DiagReport, max_len: usize) -> (r: String)
    ensures
        r@ == truncated(report_text(*report), max_len),
{
    let mut full = owned("<b>Monitor self-check</b> v");
    full.append(MONITOR_VERSION);
    full.append("\n");
    let ghost prefix = full@;
    let mut i: usize = 0;
    while i < report.sections.len()
        invariant
            i <= report.sections@.len(),
            full@ == prefix + sections_text(report.sections@.take(i as int)),
        decreases report.sections.len() - i,
    {
        let sec = &report.sections[i];
        full.append("\n<b>");
        full.append(sec.title.as_str());
        full.append("</b>\n");
        let ghost before_lines = full@;
        let mut j: usize = 0;
        while j < sec.lines.len()
            invariant
                j <= sec.lines@.len(),
                full@ == before_lines + lines_text(sec.lines@.take(j as int)),
            decreases sec.lines.len() - j,
        {
            push_line_text(&mut full, &sec.lines[j]);
            assert(sec.lines@.take(j + 1).drop_last() =~= sec.lines@.take(j as int));
            j += 1;
        }
        assert(sec.lines@.take(sec.lines@.len() as int) =~= sec.lines@);
        assert(report.sections@.take(i + 1).drop_last() =~= report.sections@.take(i as int));
        i += 1;
    }
    assert(report.sections@.take(report.sections@.len() as int) =~= report.sections@);
    full.append("\n<i>");
    full.append(u64_text(report.passed as u64).as_str());
    full.append(" ok, ");
    full.append(u64_text(report.warned as u64).as_str());
    full.append(" warn, ");
    full.append(u64_text(report.failed as u64).as_str());
    full.append(" fail</i>");
    truncate_msg(full.as_str(), max_len)
}


// ---------------------------------------------------------------------
// The report on the console
// ---------------------------------------------------------------------

/// The tag of a severity on the console.
pub open spec fn severity_tag(s: DiagSeverity) -> Seq<char> {
    match s {
        DiagSeverity::Pass => "[OK]  "@,
        DiagSeverity::Warn => "[WARN]"@,
        DiagSeverity::Fail => "[FAIL]"@,
    }
}

/// Detail lines, each indented on a line of its own.
pub open spec fn detail_console(ls: Seq<Seq<char>>) -> Seq<char>
    decreases ls.len(),
{
    if ls.len() == 0 {
        Seq::empty()
    } else {
        detail_console(ls.drop_last()) + "       "@ + ls.last() + "\n"@
    }
}

/// A report line on the console: tag and message, then each line of its detail.
pub open spec fn line_console(l: DiagLine) -> Seq<char> {
    severity_tag(l.severity) + " "@ + l.message@ + "\n"@ + match l.detail {
        Some(d) => detail_console(all_lines(d@)),
        None => Seq::empty(),
    }
}

/// The lines of a section on the console, in order.
pub open spec fn lines_console(ls: Seq<DiagLine>) -> Seq<char>
    decreases ls.len(),
{
    if ls.len() == 0 {
        Seq::empty()
    } else {
        lines_console(ls.drop_last()) + line_console(ls.last())
    }
}

/// The sections on the console, each under a `--- title ---` line.
pub open spec fn sections_console(ss: Seq<DiagSection>) -> Seq<char>
    decreases ss.len(),
{
    if ss.len() == 0 {
        Seq::empty()
    } else {
        sections_console(ss.drop_last()) + "\n--- "@ + ss.last().title@ + " ---\n"@ + lines_console(
            ss.last().lines@,
        )
    }
}

fn push_detail_console(out: &mut String, detail: &str)
    ensures
        final(out)@ == old(out)@ + detail_console(all_lines(detail@)),
{
    let ls = crate::text::lines_of(detail);
    let ghost start = out@;
    let mut k: usize = 0;
    while k < ls.len()
        invariant
            k <= ls@.len(),
            views(ls@) == all_lines(detail@),
            out@ == start + detail_console(views(ls@).take(k as int)),
        decreases ls.len() - k,
    {
        out.append("       ");
        out.append(ls[k].as_str());
        out.append("\n");
        assert(views(ls@).take(k + 1).drop_last() =~= views(ls@).take(k as int));
        assert(views(ls@).take(k + 1).last() == ls@[k as int]@);
        k += 1;
    }
    assert(views(ls@).take(ls@.len() as int) =~= views(ls@));
}

fn push_line_console(out: &mut String, l: &DiagLine)
    ensures
        final(out)@ == old(out)@ + line_console(*l),
{
    let tag = match l.severity {
        DiagSeverity::Pass => "[OK]  ",
        DiagSeverity::Warn => "[WARN]",
        DiagSeverity::Fail => "[FAIL]",
    };
    out.append(tag);
    out.append(" ");
    out.append(l.message.as_str());
    out.append("\n");
    match &l.detail {
        Some(d) => push_detail_console(out, d.as_str()),
        None => {},
    }
}

/// The report as the `diagnose` command prints it: each section under a
/// `--- title ---` line, each line tagged with its severity, detail lines
/// indented below it.
pub fn report_console_text(report: &DiagReport) -> (r: String)
    ensures
        r@ == sections_console(report.sections@),
{
    let mut out = String::new();
    let mut i: usize = 0;
    while i < report.sections.len()
        invariant
            i <= report.sections@.len(),
            out@ == sections_console(report.sections@.take(i as int)),
        decreases report.sections.len() - i,
    {
        let sec = &report.sections[i];
        out.append("\n--- ");
        out.append(sec.title.as_str());
        out.append(" ---\n");
        let ghost before_lines = out@;
        let mut j: usize = 0;
        while j < sec.lines.len()
            invariant
                j <= sec.lines@.len(),
                out@ == before_lines + lines_console(sec.lines@.take(j as int)),
            decreases sec.lines.len() - j,
        {
            push_line_console(&mut out, &sec.lines[j]);
            assert(sec.lines@.take(j + 1).drop_last() =~= sec.lines@.take(j as int));
            j += 1;
        }
        assert(sec.lines@.take(sec.lines@.len() as int) =~= sec.lines@);
        assert(report.sections@.take(i + 1).drop_last() =~= report.sections@.take(i as int));
        i += 1;
    }
    assert(report.sections@.take(report.sections@.len() as int) =~= report.sections@);
    out
}

/// The closing summary of the `diagnose` command.
pub open spec fn summary_console(passed: nat, failed: nat, warned: nat) -> Seq<char> {
    let total = passed + failed + warned;
    "\n=============================================\n"@ + (if failed == 0 && warned == 0 {
        "Summary: "@ + decimal(passed) + "/"@ + decimal(total) + " checks passed — all good!\n"@
    } else {
        "Summary: "@ + decimal(passed) + " passed, "@ + decimal(failed) + " failed, "@ + decimal(
            warned,
        ) + " warnings (total "@ + decimal(total) + ")\n"@
    }) + if failed > 0 {
        "\nFAILED checks indicate a broken link in the webhook chain.\nSee DEPLOY_CHECKLIST.md or run 'make monitor-webhook-set' to fix registration.\n"@
    } else {
        Seq::empty()
    }
}

/// The closing summary of the `diagnose` command for a report.
pub fn summary_console_text(report: &DiagReport) -> (r: String)
    requires
        report.passed + report.failed + report.warned <= usize::MAX,
    ensures
        r@ == summary_console(report.passed as nat, report.failed as nat, report.warned as nat),
{
    let total = report.passed + report.failed + report.warned;
    let mut out = owned("\n=============================================\n");
    if report.failed == 0 && report.warned == 0 {
        out.append("Summary: ");
        out.append(u64_text(report.passed as u64).as_str());
        out.append("/");
        out.append(u64_text(total as u64).as_str());
        out.append(" checks passed — all good!\n");
    } else {
        out.append("Summary: ");
        out.append(u64_text(report.passed as u64).as_str());
        out.append(" passed, ");
        out.append(u64_text(report.failed as u64).as_str());
        out.append(" failed, ");
        out.append(u64_text(report.warned as u64).as_str());
        out.append(" warnings (total ");
        out.append(u64_text(total as u64).as_str());
        out.append(")\n");
    }
    if report.failed > 0 {
        out.append(
            "\nFAILED checks indicate a broken link in the webhook chain.\nSee DEPLOY_CHECKLIST.md or run 'make monitor-webhook-set' to fix registration.\n",
        );
    }
    proof {
        reveal_strlit("");
    }
    out
}

proof fn lemma_utf8_at_least_chars(s: Seq<char>)
    ensures
        vstd::utf8::encode_utf8(s).len() >= s.len(),
    decreases s.len(),
{
    if s.len() > 0 {
        lemma_utf8_at_least_chars(s.drop_first());
    }
}

/// A truncated report never has more than `max` characters (a text's
/// bytes fit in `usize`, as every `str`'s do).
pub proof fn lemma_truncated_fits(s: Seq<char>, max: usize)
    requires
        max >= 1,
        vstd::utf8::encode_utf8(s).len() <= usize::MAX,
    ensures
        truncated(s, max).len() <= max,
{
    lemma_utf8_at_least_chars(s);
}

} // verus!
