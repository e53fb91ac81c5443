//! Password-gated IP list / ban / unban via UFW or CrowdSec (`cscli`):
//! the password check, the commands to run and the replies made of their output.
use vstd::prelude::*;

use subtle::ConstantTimeEq;

use crate::config::{Config, IpFirewallBackend};
use crate::text::{
    all_digits, first_chars, html_escape, html_escape_seq, owned, parse_unsigned, shell_escape,
    shell_quote_seq, split_seq, trim_seq, views,
};

verus! {

broadcast use vstd::utf8::encode_utf8_decode_utf8;

/// Output longer than this many bytes is cut.
pub const OUTPUT_CAP: usize = 3500;

/// `subtle::ConstantTimeEq::ct_eq` on two byte slices, read as a `bool`
/// (`From<Choice> for bool`): true exactly when both slices have the same
/// length and the same bytes, which is what subtle's slice impl returns.
#[verifier::external_body]
pub(crate) fn bytes_ct_eq(a: &[u8], b: &[u8]) -> (r: bool)
    ensures
        r == (a@ == b@),
{
    bool::from(a.ct_eq(b))
}

/// The password is accepted: a non-empty admin secret that `provided` equals.
pub open spec fn password_ok(secret: Option<String>, provided: Seq<char>) -> bool {
    match secret {
        Some(e) => e@.len() > 0 && e@ == provided,
        None => false,
    }
}

/// Compare the provided password with the admin secret, in constant time
/// once the lengths agree.
pub fn verify_password(config: &Config, provided: &str) -> (r: bool)
    ensures
        r == password_ok(config.ip_admin_secret, provided@),
{
    let expected = match &config.ip_admin_secret {
        Some(e) => e.as_str(),
        None => {
            return false;
        },
    };
    if expected.unicode_len() == 0 {
        return false;
    }
    if provided.len() != expected.len() {
        return false;
    }
    let same = bytes_ct_eq(expected.as_bytes(), provided.as_bytes());
    proof {
        if same {
            assert(vstd::utf8::decode_utf8(vstd::utf8::encode_utf8(expected@)) == expected@);
            assert(vstd::utf8::decode_utf8(vstd::utf8::encode_utf8(provided@)) == provided@);
        }
    }
    same
}

/// Four dot-separated parts, each a `u8` as `str::parse` reads it.
pub open spec fn ipv4_like(s: Seq<char>) -> bool {
    let parts = split_seq(s, '.');
    parts.len() == 4 && forall|i: int| 0 <= i < 4 ==> parse_unsigned(#[trigger] parts[i], 255) is Some
}

/// `s` looks like a dotted IPv4 address.
pub fn looks_like_ip(s: &str) -> (r: bool)
    ensures
        r == ipv4_like(s@),
{
    let parts = crate::text::split_on(s, '.');
    if parts.len() != 4 {
        return false;
    }
    let mut i: usize = 0;
    while i < 4
        invariant
            i <= 4,
            parts@.len() == 4,
            views(parts@) == split_seq(s@, '.'),
            forall|k: int| 0 <= k < i ==> parse_unsigned(#[trigger] split_seq(s@, '.')[k], 255) is Some,
        decreases 4 - i,
    {
        assert(views(parts@)[i as int] == parts@[i as int]@);
        if crate::text::parse_decimal(parts[i].as_str(), 255).is_none() {
            return false;
        }
        i += 1;
    }
    true
}

/// Only ASCII digits and dots.
pub open spec fn digits_and_dots(s: Seq<char>) -> bool {
    forall|i: int| 0 <= i < s.len() ==> ('0' <= #[trigger] s[i] && s[i] <= '9') || s[i] == '.'
}

/// An address as a shell word: as it is when only digits and dots, quoted otherwise.
pub open spec fn ip_word(s: Seq<char>) -> Seq<char> {
    if digits_and_dots(s) {
        s
    } else {
        shell_quote_seq(s)
    }
}

/// An address as a shell word.
pub fn shell_escape_ip(s: &str) -> (r: String)
    ensures
        r@ == ip_word(s@),
{
    let v = crate::text::chars_of(s);
    let mut i: usize = 0;
    while i < v.len()
        invariant
            v@ == s@,
            i <= v@.len(),
            forall|k: int| 0 <= k < i ==> ('0' <= #[trigger] v@[k] && v@[k] <= '9') || v@[k] == '.',
        decreases v.len() - i,
    {
        let c = v[i];
        if !(('0' <= c && c <= '9') || c == '.') {
            return shell_escape(s);
        }
        i += 1;
    }
    owned(s)
}

/// What to do for an IP admin command.
pub enum IpCommand {
    /// Answer at once with this text.
    Reply(String),
    /// Run `program` with `args` and answer with its output.
    Program { program: String, args: Vec<String> },
    /// Run `sh -c script` and answer with its output.
    Shell(String),
}

/// What an IP admin command is.
pub enum IpCommandView {
    Reply(Seq<char>),
    Program(Seq<char>, Seq<Seq<char>>),
    Shell(Seq<char>),
}

impl View for IpCommand {
    type V = IpCommandView;

    open spec fn view(&self) -> IpCommandView {
        match self {
            IpCommand::Reply(t) => IpCommandView::Reply(t@),
            IpCommand::Program { program, args } => IpCommandView::Program(program@, views(args@)),
            IpCommand::Shell(s) => IpCommandView::Shell(s@),
        }
    }
}

/// The list command of the configured backend.
pub open spec fn ip_list_plan(c: Config) -> IpCommandView {
    match c.ip_backend {
        None => IpCommandView::Reply("❌ IP admin not configured."@),
        Some(IpFirewallBackend::Ufw) => IpCommandView::Program("ufw"@, seq!["status"@, "numbered"@]),
        Some(IpFirewallBackend::Crowdsec) => IpCommandView::Program(
            "cscli"@,
            seq!["decisions"@, "list"@],
        ),
    }
}

/// The reply to an address that does not look like IPv4.
pub open spec fn invalid_ip_text(ip: Seq<char>) -> Seq<char> {
    "❌ Invalid IP: <code>"@ + ip + "</code>"@
}

/// The ban command of the configured backend.
pub open spec fn ip_ban_plan(c: Config, ip: Seq<char>) -> IpCommandView {
    if !ipv4_like(ip) {
        IpCommandView::Reply(invalid_ip_text(ip))
    } else {
        match c.ip_backend {
            None => IpCommandView::Reply("❌ IP admin not configured."@),
            Some(IpFirewallBackend::Ufw) => IpCommandView::Shell(
                "printf 'y\\n' | ufw deny from "@ + ip_word(ip) + " to any 2>&1"@,
            ),
            Some(IpFirewallBackend::Crowdsec) => IpCommandView::Shell(
                "cscli decisions add --ip "@ + shell_quote_seq(ip) + " -d "@ + shell_quote_seq(
                    c.crowdsec_ban_duration@,
                ) + " --reason "@ + shell_quote_seq(c.crowdsec_ban_reason@) + " 2>&1"@,
            ),
        }
    }
}

/// The unban command of the configured backend.
pub open spec fn ip_unban_plan(c: Config, ip: Seq<char>) -> IpCommandView {
    if !ipv4_like(ip) {
        IpCommandView::Reply(invalid_ip_text(ip))
    } else {
        match c.ip_backend {
            None => IpCommandView::Reply("❌ IP admin not configured."@),
            Some(IpFirewallBackend::Ufw) => IpCommandView::Shell(
                "printf 'y\\n' | ufw delete deny from "@ + ip_word(ip) + " to any 2>&1"@,
            ),
            Some(IpFirewallBackend::Crowdsec) => IpCommandView::Shell(
                "cscli decisions delete --ip "@ + shell_quote_seq(ip) + " 2>&1"@,
            ),
        }
    }
}

/// Ban and unban reach the firewall only for an address that reads as
/// IPv4 (four dot-separated `u8`s), and they agree on which addresses
/// those are: any other address, whatever the backend, is answered with
/// the invalid-IP text naming it; an IPv4 address with a configured
/// backend always runs a command.
pub proof fn lemma_firewall_only_for_ipv4(c: Config, ip: Seq<char>)
    ensures
        !ipv4_like(ip) ==> ip_ban_plan(c, ip) == IpCommandView::Reply(invalid_ip_text(ip))
            && ip_unban_plan(c, ip) == IpCommandView::Reply(invalid_ip_text(ip)),
        ip_ban_plan(c, ip) is Shell ==> ipv4_like(ip) && c.ip_backend is Some,
        ip_unban_plan(c, ip) is Shell ==> ipv4_like(ip) && c.ip_backend is Some,
        (ip_ban_plan(c, ip) is Shell) == (ip_unban_plan(c, ip) is Shell),
        ipv4_like(ip) && c.ip_backend is Some ==> ip_ban_plan(c, ip) is Shell && ip_unban_plan(
            c,
            ip,
        ) is Shell,
{
}

/// The command that lists the firewall's bans.
pub fn ip_list_command(config: &Config) -> (r: IpCommand)
    ensures
        r@ == ip_list_plan(*config),
{
    match config.ip_backend {
        None => IpCommand::Reply(owned("❌ IP admin not configured.")),
        Some(IpFirewallBackend::Ufw) => {
            let args = vec![owned("status"), owned("numbered")];
            assert(views(args@) =~= seq!["status"@, "numbered"@]);
            IpCommand::Program { program: owned("ufw"), args }
        },
        Some(IpFirewallBackend::Crowdsec) => {
            let args = vec![owned("decisions"), owned("list")];
            assert(views(args@) =~= seq!["decisions"@, "list"@]);
            IpCommand::Program { program: owned("cscli"), args }
        },
    }
}

fn invalid_ip_reply(ip: &str) -> (r: String)
    ensures
        r@ == invalid_ip_text(ip@),
{
    let mut r = owned("❌ Invalid IP: <code>");
    r.append(ip);
    r.append("</code>");
    r
}

/// The command that bans `ip`.
pub fn ip_ban_command(config: &Config, ip: &str) -> (r: IpCommand)
    ensures
        r@ == ip_ban_plan(*config, ip@),
{
    if !looks_like_ip(ip) {
        return IpCommand::Reply(invalid_ip_reply(ip));
    }
    match config.ip_backend {
        None => IpCommand::Reply(owned("❌ IP admin not configured.")),
        Some(IpFirewallBackend::Ufw) => {
            let mut s = owned("printf 'y\\n' | ufw deny from ");
            s.append(shell_escape_ip(ip).as_str());
            s.append(" to any 2>&1");
            IpCommand::Shell(s)
        },
        Some(IpFirewallBackend::Crowdsec) => {
            let mut s = owned("cscli decisions add --ip ");
            s.append(shell_escape(ip).as_str());
            s.append(" -d ");
            s.append(shell_escape(config.crowdsec_ban_duration.as_str()).as_str());
            s.append(" --reason ");
            s.append(shell_escape(config.crowdsec_ban_reason.as_str()).as_str());
            s.append(" 2>&1");
            IpCommand::Shell(s)
        },
    }
}

/// The command that lifts the ban of `ip`.
pub fn ip_unban_command(config: &Config, ip: &str) -> (r: IpCommand)
    ensures
        r@ == ip_unban_plan(*config, ip@),
{
    if !looks_like_ip(ip) {
        return IpCommand::Reply(invalid_ip_reply(ip));
    }
    match config.ip_backend {
        None => IpCommand::Reply(owned("❌ IP admin not configured.")),
        Some(IpFirewallBackend::Ufw) => {
            let mut s = owned("printf 'y\\n' | ufw delete deny from ");
            s.append(shell_escape_ip(ip).as_str());
            s.append(" to any 2>&1");
            IpCommand::Shell(s)
        },
        Some(IpFirewallBackend::Crowdsec) => {
            let mut s = owned("cscli decisions delete --ip ");
            s.append(shell_escape(ip).as_str());
            s.append(" 2>&1");
            IpCommand::Shell(s)
        },
    }
}

/// How running a command ended.
pub enum CommandOutcome {
    /// It ran; its captured report.
    Output(String),
    /// It could not be started (the error's text).
    SpawnError(String),
    /// The task running it failed (the error's text).
    JoinError(String),
    /// It did not finish in time.
    TimedOut,
}

/// The captured report of a finished command.
pub open spec fn capture_text(success: bool, status: Seq<char>, stdout: Seq<char>, stderr: Seq<char>) -> Seq<
    char,
> {
    "["@ + (if success {
        "ok"@
    } else {
        "fail"@
    }) + "] status="@ + status + "\nstdout:\n"@ + stdout + "\nstderr:\n"@ + stderr
}

/// The captured report of a finished command: success tag, exit status, stdout and stderr.
pub fn capture_report(success: bool, status: &str, stdout: &str, stderr: &str) -> (r: String)
    ensures
        r@ == capture_text(success, status@, stdout@, stderr@),
{
    let mut r = owned("[");
    if success {
        r.append("ok");
    } else {
        r.append("fail");
    }
    r.append("] status=");
    r.append(status);
    r.append("\nstdout:\n");
    r.append(stdout);
    r.append("\nstderr:\n");
    r.append(stderr);
    r
}

/// Output trimmed, cut to the cap (by bytes, keeping whole characters and
/// marking the cut with `…`), escaped and set in `<pre>`.
pub open spec fn wrapped_output(s: Seq<char>) -> Seq<char> {
    let t = trim_seq(s);
    let capped = if vstd::utf8::encode_utf8(t).len() as usize > OUTPUT_CAP {
        first_chars(t, (OUTPUT_CAP - 1) as nat).push('…')
    } else {
        t
    };
    "<pre>"@ + html_escape_seq(capped) + "</pre>"@
}

/// Command output set in `<pre>` for a Telegram reply.
pub fn wrap_output(s: &str) -> (r: String)
    ensures
        r@ == wrapped_output(s@),
{
    let t = crate::text::trim(s);
    let capped = if t.as_str().len() > OUTPUT_CAP {
        let mut c = crate::text::take_chars(t.as_str(), OUTPUT_CAP - 1);
        crate::text::push_char(&mut c, '…');
        c
    } else {
        t
    };
    let mut r = owned("<pre>");
    r.append(html_escape(capped.as_str()).as_str());
    r.append("</pre>");
    r
}

/// The reply for a finished, failed or timed-out command.
pub open spec fn outcome_text(o: CommandOutcome) -> Seq<char> {
    match o {
        CommandOutcome::Output(s) => wrapped_output(s@),
        CommandOutcome::SpawnError(e) => "❌ <pre>"@ + html_escape_seq(e@) + "</pre>"@,
        CommandOutcome::JoinError(e) => "❌ Task join error: "@ + e@,
        CommandOutcome::TimedOut => "❌ Command timed out"@,
    }
}

/// The reply for how a command ended.
pub fn command_reply(o: &CommandOutcome) -> (r: String)
    ensures
        r@ == outcome_text(*o),
{
    match o {
        CommandOutcome::Output(s) => wrap_output(s.as_str()),
        CommandOutcome::SpawnError(e) => {
            let mut r = owned("❌ <pre>");
            r.append(html_escape(e.as_str()).as_str());
            r.append("</pre>");
            r
        },
        CommandOutcome::JoinError(e) => {
            let mut r = owned("❌ Task join error: ");
            r.append(e.as_str());
            r
        },
        CommandOutcome::TimedOut => owned("❌ Command timed out"),
    }
}

} // verus!
