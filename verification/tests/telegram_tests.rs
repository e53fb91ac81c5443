use clos_monitor::telegram::{
    bot_method_url, format_alert, format_alert_at, format_resolved, format_resolved_at,
    push_prefixed_lines,
};

fn strings(v: &[&str]) -> Vec<String> {
    v.iter().map(|s| s.to_string()).collect()
}

#[test]
fn alert_text_exact() {
    let failures = strings(&["Frontend unreachable", "Backend: HTTP 502"]);
    assert_eq!(
        format_alert_at("Production (www.example.com)", &failures, "2024-01-02 03:04:05 UTC"),
        "<b>ClosLamartine Monitor Alert</b>\nTarget: <code>Production (www.example.com)</code>\nTime: 2024-01-02 03:04:05 UTC\n\n<b>Failures:</b>\n• Frontend unreachable\n• Backend: HTTP 502\n"
    );
}

#[test]
fn alert_without_failures() {
    assert_eq!(
        format_alert_at("Server", &[], "T"),
        "<b>ClosLamartine Monitor Alert</b>\nTarget: <code>Server</code>\nTime: T\n\n<b>Failures:</b>\n"
    );
}

#[test]
fn resolved_text_exact() {
    assert_eq!(
        format_resolved_at("Server", "2024-01-02 03:04:05 UTC"),
        "<b>ClosLamartine Monitor Resolved</b>\nTarget: <code>Server</code>\nTime: 2024-01-02 03:04:05 UTC\n\n✅ Issue is resolved and checks are healthy again."
    );
}

#[test]
fn live_alert_has_clock_time() {
    let a = format_alert("Server", &strings(&["Low memory"]));
    assert!(a.starts_with("<b>ClosLamartine Monitor Alert</b>\nTarget: <code>Server</code>\nTime: "));
    assert!(a.ends_with(" UTC\n\n<b>Failures:</b>\n• Low memory\n"));
    let r = format_resolved("Server");
    assert!(r.starts_with("<b>ClosLamartine Monitor Resolved</b>\nTarget: <code>Server</code>\nTime: "));
    assert!(r.ends_with(" UTC\n\n✅ Issue is resolved and checks are healthy again."));
    // "YYYY-MM-DD HH:MM:SS UTC" between the prefix and the rest.
    let time_line = r.lines().nth(2).unwrap();
    assert_eq!(time_line.len(), "Time: 2024-01-02 03:04:05 UTC".len());
}

#[test]
fn prefixed_lines_appends() {
    let mut s = "head\n".to_string();
    push_prefixed_lines(&mut s, "- ", &strings(&["a", "b"]));
    assert_eq!(s, "head\n- a\n- b\n");
}

#[test]
fn bot_urls() {
    assert_eq!(
        bot_method_url("123:ABC", "sendMessage"),
        "https://api.telegram.org/bot123:ABC/sendMessage"
    );
    assert_eq!(
        bot_method_url("t", "getWebhookInfo"),
        "https://api.telegram.org/bott/getWebhookInfo"
    );
}
