//! Telegram messages: alert and resolved texts, Bot API addresses.
use vstd::prelude::*;

use crate::clock::utc_now_text;
use crate::text::views;

verus! {

/// Each item on a line of its own, after `prefix`.
pub open spec fn prefixed_lines(prefix: Seq<char>, items: Seq<Seq<char>>) -> Seq<char>
    decreases items.len(),
{
    if items.len() == 0 {
        Seq::empty()
    } else {
        prefixed_lines(prefix, items.drop_last()) + prefix + items.last() + seq!['\n']
    }
}

/// Appends each item on a line of its own, after `prefix`.
pub fn push_prefixed_lines(msg: &mut String, prefix: &str, items: &[String])
    ensures
        final(msg)@ == old(msg)@ + prefixed_lines(prefix@, views(items@)),
{
    let ghost start = msg@;
    let mut i: usize = 0;
    while i < items.len()
        invariant
            i <= items@.len(),
            msg@ == start + prefixed_lines(prefix@, views(items@).take(i as int)),
        decreases items.len() - i,
    {
        msg.append(prefix);
        msg.append(items[i].as_str());
        crate::text::push_char(msg, '\n');
        proof {
            let prev = views(items@).take(i as int);
            assert(views(items@).take(i + 1).drop_last() =~= prev);
            assert(views(items@).take(i + 1).last() == items@[i as int]@);
        }
        i += 1;
    }
    assert(views(items@).take(items@.len() as int) =~= views(items@));
}

/// A failure alert for `target` at time `now`.
pub open spec fn alert_text(target: Seq<char>, failures: Seq<Seq<char>>, now: Seq<char>) -> Seq<char> {
    "<b>ClosLamartine Monitor Alert</b>\n"@ + "Target: <code>"@ + target + "</code>\n"@ + "Time: "@
        + now + "\n\n"@ + "<b>Failures:</b>\n"@ + prefixed_lines("• "@, failures)
}

/// A resolved message for `target` at time `now`.
pub open spec fn resolved_text(target: Seq<char>, now: Seq<char>) -> Seq<char> {
    "<b>ClosLamartine Monitor Resolved</b>\n"@ + "Target: <code>"@ + target + "</code>\n"@
        + "Time: "@ + now + "\n\n"@ + "✅ Issue is resolved and checks are healthy again."@
}

/// A failure alert for `target` stamped with `now`.
pub fn format_alert_at(target: &str, failures: &[String], now: &str) -> (r: String)
    ensures
        r@ == alert_text(target@, views(failures@), now@),
{
    let mut msg = crate::text::owned("<b>ClosLamartine Monitor Alert</b>\n");
    msg.append("Target: <code>");
    msg.append(target);
    msg.append("</code>\n");
    msg.append("Time: ");
    msg.append(now);
    msg.append("\n\n");
    msg.append("<b>Failures:</b>\n");
    push_prefixed_lines(&mut msg, "• ", failures);
    msg
}

/// Format a failure alert message for Telegram, stamped with the current time.
pub fn format_alert(target: &str, failures: &[String]) -> (r: String)
    ensures
        exists|now: Seq<char>|
            crate::clock::utc_stamp(now) && r@ == alert_text(target@, views(failures@), now),
{
    let now = utc_now_text();
    let r = format_alert_at(target, failures, now.as_str());
    assert(r@ == alert_text(target@, views(failures@), now@));
    r
}

/// A resolved message for `target` stamped with `now`.
pub fn format_resolved_at(target: &str, now: &str) -> (r: String)
    ensures
        r@ == resolved_text(target@, now@),
{
    let mut msg = crate::text::owned("<b>ClosLamartine Monitor Resolved</b>\n");
    msg.append("Target: <code>");
    msg.append(target);
    msg.append("</code>\n");
    msg.append("Time: ");
    msg.append(now);
    msg.append("\n\n");
    msg.append("✅ Issue is resolved and checks are healthy again.");
    msg
}

/// Format a resolved alert message for Telegram, stamped with the current time.
pub fn format_resolved(target: &str) -> (r: String)
    ensures
        exists|now: Seq<char>|
            crate::clock::utc_stamp(now) && r@ == resolved_text(target@, now),
{
    let now = utc_now_text();
    let r = format_resolved_at(target, now.as_str());
    assert(r@ == resolved_text(target@, now@));
    r
}

/// The Bot API address of `method` for the bot `token`.
pub fn bot_method_url(token: &str, method: &str) -> (r: String)
    ensures
        r@ == "https://api.telegram.org/bot"@ + token@ + "/"@ + method@,
{
    let mut r = crate::text::owned("https://api.telegram.org/bot");
    r.append(token);
    r.append("/");
    r.append(method);
    r
}

} // verus!
