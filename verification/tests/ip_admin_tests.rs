use clos_monitor::config::{Config, Environment};
use clos_monitor::ip_admin::{
    capture_report, command_reply, ip_ban_command, ip_list_command, ip_unban_command,
    looks_like_ip, shell_escape_ip, verify_password, wrap_output, CommandOutcome, IpCommand,
};

fn config_of(pairs: &[(&str, &str)]) -> Config {
    Config::from_env(&Environment {
        vars: pairs
            .iter()
            .map(|(k, v)| (k.to_string(), v.to_string()))
            .collect(),
    })
}

fn describe(c: &IpCommand) -> String {
    match c {
        IpCommand::Reply(t) => format!("reply {}", t),
        IpCommand::Program { program, args } => format!("run {} {:?}", program, args),
        IpCommand::Shell(s) => format!("sh {}", s),
    }
}

#[test]
fn passwords() {
    let c = config_of(&[("MONITOR_IP_ADMIN_SECRET", "s3cret"), ("MONITOR_IP_BACKEND", "ufw")]);
    assert!(verify_password(&c, "s3cret"));
    assert!(!verify_password(&c, "s3cre"));
    assert!(!verify_password(&c, "s3creT"));
    assert!(!verify_password(&c, "s3cret "));
    assert!(!verify_password(&config_of(&[]), ""));
    assert!(!verify_password(&config_of(&[]), "anything"));
}

#[test]
fn password_with_multibyte_characters() {
    let c = config_of(&[("MONITOR_IP_ADMIN_SECRET", "péché")]);
    assert!(verify_password(&c, "péché"));
    assert!(!verify_password(&c, "peche"));
}

#[test]
fn ipv4_shapes() {
    assert!(looks_like_ip("192.168.1.1"));
    assert!(looks_like_ip("0.0.0.0"));
    assert!(looks_like_ip("+1.2.3.4"));
    assert!(!looks_like_ip("256.1.1.1"));
    assert!(!looks_like_ip("1.2.3"));
    assert!(!looks_like_ip("1.2.3.4.5"));
    assert!(!looks_like_ip("1..3.4"));
    assert!(!looks_like_ip("a.b.c.d"));
    assert!(!looks_like_ip(""));
}

#[test]
fn address_quoting() {
    assert_eq!(shell_escape_ip("10.0.0.1"), "10.0.0.1");
    assert_eq!(shell_escape_ip("+10.0.0.1"), "'+10.0.0.1'");
    assert_eq!(shell_escape_ip("a'b"), "'a'\"'\"'b'");
}

#[test]
fn list_commands() {
    assert_eq!(describe(&ip_list_command(&config_of(&[]))), "reply ❌ IP admin not configured.");
    assert_eq!(
        describe(&ip_list_command(&config_of(&[("MONITOR_IP_BACKEND", "ufw")]))),
        "run ufw [\"status\", \"numbered\"]"
    );
    assert_eq!(
        describe(&ip_list_command(&config_of(&[("MONITOR_IP_BACKEND", "crowdsec")]))),
        "run cscli [\"decisions\", \"list\"]"
    );
}

#[test]
fn ban_commands() {
    let ufw = config_of(&[("MONITOR_IP_BACKEND", "ufw")]);
    assert_eq!(
        describe(&ip_ban_command(&ufw, "1.2.3.4")),
        "sh printf 'y\\n' | ufw deny from 1.2.3.4 to any 2>&1"
    );
    assert_eq!(
        describe(&ip_unban_command(&ufw, "1.2.3.4")),
        "sh printf 'y\\n' | ufw delete deny from 1.2.3.4 to any 2>&1"
    );
    assert_eq!(
        describe(&ip_ban_command(&ufw, "1.2.3")),
        "reply ❌ Invalid IP: <code>1.2.3</code>"
    );
    let cs = config_of(&[
        ("MONITOR_IP_BACKEND", "crowdsec"),
        ("MONITOR_CROWDSEC_BAN_DURATION", "1h"),
        ("MONITOR_CROWDSEC_BAN_REASON", "it's bad"),
    ]);
    assert_eq!(
        describe(&ip_ban_command(&cs, "1.2.3.4")),
        "sh cscli decisions add --ip '1.2.3.4' -d '1h' --reason 'it'\"'\"'s bad' 2>&1"
    );
    assert_eq!(
        describe(&ip_unban_command(&cs, "1.2.3.4")),
        "sh cscli decisions delete --ip '1.2.3.4' 2>&1"
    );
    assert_eq!(
        describe(&ip_unban_command(&config_of(&[]), "1.2.3.4")),
        "reply ❌ IP admin not configured."
    );
}

#[test]
fn command_output_replies() {
    assert_eq!(wrap_output("  a < b & c > d \n"), "<pre>a &lt; b &amp; c &gt; d</pre>");
    let long = "x".repeat(3600);
    let w = wrap_output(&long);
    assert_eq!(w, format!("<pre>{}…</pre>", "x".repeat(3499)));
    let exact = "y".repeat(3500);
    assert_eq!(wrap_output(&exact), format!("<pre>{}</pre>", exact));
    assert_eq!(command_reply(&CommandOutcome::TimedOut), "❌ Command timed out");
    assert_eq!(
        command_reply(&CommandOutcome::JoinError("panicked".to_string())),
        "❌ Task join error: panicked"
    );
    assert_eq!(
        command_reply(&CommandOutcome::SpawnError("No such file <x>".to_string())),
        "❌ <pre>No such file &lt;x&gt;</pre>"
    );
    assert_eq!(
        command_reply(&CommandOutcome::Output("done".to_string())),
        "<pre>done</pre>"
    );
}

#[test]
fn captured_reports() {
    assert_eq!(
        capture_report(true, "exit status: 0", "out", "err"),
        "[ok] status=exit status: 0\nstdout:\nout\nstderr:\nerr"
    );
    assert_eq!(
        capture_report(false, "exit status: 1", "", "e"),
        "[fail] status=exit status: 1\nstdout:\n\nstderr:\ne"
    );
}
