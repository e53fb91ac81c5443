//! Health checks for prod, staging and server vitals: the verdicts drawn
//! from what was probed, and the alerts sent when a verdict changes.
use vstd::prelude::*;

use crate::config::{opt_text, Config, MonitorScope};
use crate::docker::{ContainerInfo, ContainerStatus, HealthStatus};
use crate::telegram::{alert_text, format_alert, format_resolved, prefixed_lines, resolved_text};
use crate::text::{has_prefix, has_substring, owned, str_eq, views};

verus! {

/// Result of a full check run.
#[derive(Debug)]
pub struct CheckResult {
    pub server_ok: bool,
    pub prod_ok: bool,
    pub staging_ok: bool,
    pub prod_monitored: bool,
    pub staging_monitored: bool,
    pub server_failures: Vec<String>,
    pub prod_failures: Vec<String>,
    pub staging_failures: Vec<String>,
}

impl CheckResult {
    pub fn all_ok(&self) -> (r: bool)
        ensures
            r == (self.server_ok && self.prod_ok && self.staging_ok),
    {
        self.server_ok && self.prod_ok && self.staging_ok
    }

    pub fn has_failures(&self) -> (r: bool)
        ensures
            r == (self.server_failures@.len() > 0 || self.prod_failures@.len() > 0
                || self.staging_failures@.len() > 0),
    {
        self.server_failures.len() > 0 || self.prod_failures.len() > 0
            || self.staging_failures.len() > 0
    }
}

// ---------------------------------------------------------------------
// Containers
// ---------------------------------------------------------------------

/// The failure line for a container, if it is not fine.
pub open spec fn container_failure(c: ContainerInfo) -> Option<Seq<char>> {
    let name = c.name@;
    match c.status {
        ContainerStatus::Running => {
            if has_substring(name, "_db"@) && c.health != HealthStatus::Healthy {
                match c.health {
                    HealthStatus::Unhealthy => Some(name + ": DB unhealthy"@),
                    HealthStatus::Starting => Some(name + ": DB still starting"@),
                    _ => Some(name + ": DB health unknown"@),
                }
            } else {
                None
            }
        },
        ContainerStatus::Exited => Some(name + ": container exited"@),
        ContainerStatus::Restarting => Some(name + ": container restarting"@),
        ContainerStatus::Dead => Some(name + ": container dead"@),
        ContainerStatus::Paused => Some(name + ": container paused"@),
        ContainerStatus::Other(s) => Some(name + ": status="@ + s@),
    }
}

/// The failure lines of a container, none or one.
pub open spec fn container_failure_lines(c: ContainerInfo) -> Seq<Seq<char>> {
    match container_failure(c) {
        Some(line) => seq![line],
        None => Seq::empty(),
    }
}

/// The failure lines of the containers, in order.
pub open spec fn containers_failure_lines(cs: Seq<ContainerInfo>) -> Seq<Seq<char>>
    decreases cs.len(),
{
    if cs.len() == 0 {
        Seq::empty()
    } else {
        containers_failure_lines(cs.drop_last()) + container_failure_lines(cs.last())
    }
}

/// A container is fine exactly when it is running and, for a database
/// container (`_db` in its name), reported healthy; a container that is
/// not fine has one failure line, which starts with its name.
pub proof fn lemma_container_fine_iff_no_failure(c: ContainerInfo)
    ensures
        (container_failure_lines(c).len() == 0) <==> (c.status is Running && (!has_substring(
            c.name@,
            "_db"@,
        ) || c.health == HealthStatus::Healthy)),
        container_failure_lines(c).len() <= 1,
        container_failure_lines(c).len() == 1 ==> has_prefix(container_failure_lines(c)[0], c.name@),
{
    match container_failure(c) {
        Some(l) => {
            assert(l.take(c.name@.len() as int) =~= c.name@);
        },
        None => {},
    }
}

/// Every container is judged on its own: the failure lines of two lists
/// side by side are those of the first followed by those of the second, and
/// a list of one container has exactly that container's lines. So every
/// failing container of a list reports, whatever came before it, in list
/// order.
pub proof fn lemma_container_failures_concat(a: Seq<ContainerInfo>, b: Seq<ContainerInfo>)
    ensures
        containers_failure_lines(a + b) == containers_failure_lines(a)
            + containers_failure_lines(b),
        b.len() == 1 ==> containers_failure_lines(b) == container_failure_lines(b[0]),
    decreases b.len(),
{
    if b.len() == 0 {
        assert(a + b =~= a);
        assert(containers_failure_lines(a) + containers_failure_lines(b) =~= containers_failure_lines(a));
    } else {
        lemma_container_failures_concat(a, b.drop_last());
        assert((a + b).drop_last() =~= a + b.drop_last());
        assert((a + b).last() == b.last());
        assert(containers_failure_lines(a) + containers_failure_lines(b.drop_last())
            + container_failure_lines(b.last()) =~= containers_failure_lines(a) + (
        containers_failure_lines(b.drop_last()) + container_failure_lines(b.last())));
        if b.len() == 1 {
            assert(containers_failure_lines(b.drop_last()) =~= Seq::<Seq<char>>::empty());
            assert(containers_failure_lines(b) =~= container_failure_lines(b[0]));
        }
    }
}

fn concat2(a: &str, b: &str) -> (r: String)
    ensures
        r@ == a@ + b@,
{
    let mut r = owned(a);
    r.append(b);
    r
}

/// Appends the failure of a container, if it is not fine.
pub fn collect_container_failures(c: &ContainerInfo, failures: &mut Vec<String>)
    ensures
        views(final(failures)@) == views(old(failures)@) + container_failure_lines(*c),
{
    let name = c.name.as_str();
    let line: Option<String> = match &c.status {
        ContainerStatus::Running => {
            let is_db = crate::text::contains(name, "_db");
            let healthy = c.health == HealthStatus::Healthy;
            if is_db && !healthy {
                match c.health {
                    HealthStatus::Unhealthy => Some(concat2(name, ": DB unhealthy")),
                    HealthStatus::Starting => Some(concat2(name, ": DB still starting")),
                    _ => Some(concat2(name, ": DB health unknown")),
                }
            } else {
                None
            }
        },
        ContainerStatus::Exited => Some(concat2(name, ": container exited")),
        ContainerStatus::Restarting => Some(concat2(name, ": container restarting")),
        ContainerStatus::Dead => Some(concat2(name, ": container dead")),
        ContainerStatus::Paused => Some(concat2(name, ": container paused")),
        ContainerStatus::Other(s) => {
            let mut l = concat2(name, ": status=");
            l.append(s.as_str());
            Some(l)
        },
    };
    match line {
        Some(l) => {
            failures.push(l);
        },
        None => {},
    }
    assert(views(failures@) =~= views(old(failures)@) + container_failure_lines(*c));
}

// ---------------------------------------------------------------------
// HTTP health
// ---------------------------------------------------------------------

/// What a GET of the backend health URL gave.
pub enum BackendProbe {
    /// The request could not be sent (the error's text).
    Unreachable(String),
    /// A reply: its status code, how `StatusCode` displays it, and its
    /// body (or the text of the error met reading it).
    Reply { code: u16, status: String, body: Result<String, String> },
}

/// What `serde_json` reads as the string field `status` of a body that is
/// a JSON object: `None` when the body is no JSON object, or has no such
/// string field.
pub uninterp spec fn json_status_field(body: Seq<char>) -> Option<Seq<char>>;

/// Parses `body` with `serde_json::from_str` into a `serde_json::Value` and
/// takes `value.get("status")` when it is a JSON string. The contract claims
/// only that the result is a function of the body, named `json_status_field`.
#[verifier::external_body]
fn json_status(body: &str) -> (r: Option<String>)
    ensures
        opt_text(r) == json_status_field(body@),
{
    let v = match serde_json::from_str::<serde_json::Value>(body) {
        Ok(v) => v,
        Err(_) => return None,
    };
    match v.get("status") {
        Some(serde_json::Value::String(f)) => Some(f.clone()),
        _ => None,
    }
}

/// The verdict on a backend health probe whose body has the `status`
/// field `field`: healthy exactly on HTTP 200 with `{"status":"ok"}`.
pub open spec fn health_verdict_spec(p: BackendProbe, field: Option<Seq<char>>) -> Result<(), Seq<char>> {
    match p {
        BackendProbe::Unreachable(e) => Err("unreachable: "@ + e@),
        BackendProbe::Reply { code, status, body } => if code != 200 {
            Err("HTTP "@ + status@)
        } else {
            match body {
                Err(e) => Err("read error: "@ + e@),
                Ok(_) => if field == Some("ok"@) {
                    Ok(())
                } else {
                    Err("invalid health response"@)
                },
            }
        },
    }
}

/// The `status` field that the body of a probe holds, if any.
pub open spec fn probe_status_field(p: BackendProbe) -> Option<Seq<char>> {
    match p {
        BackendProbe::Reply { body: Ok(b), .. } => json_status_field(b@),
        _ => None,
    }
}

/// The verdict on a backend health probe.
pub open spec fn backend_verdict(p: BackendProbe) -> Result<(), Seq<char>> {
    health_verdict_spec(p, probe_status_field(p))
}

/// The text of an error result.
pub open spec fn err_text(r: Result<(), String>) -> Result<(), Seq<char>> {
    match r {
        Ok(()) => Ok(()),
        Err(e) => Err(e@),
    }
}

/// The verdict on a backend health probe, given the `status` field read
/// from its body.
pub fn health_verdict(p: &BackendProbe, field: Option<&str>) -> (r: Result<(), String>)
    ensures
        err_text(r) == health_verdict_spec(
            *p,
            match field {
                Some(f) => Some(f@),
                None => None,
            },
        ),
{
    match p {
        BackendProbe::Unreachable(e) => Err(concat2("unreachable: ", e.as_str())),
        BackendProbe::Reply { code, status, body } => {
            if *code != 200 {
                return Err(concat2("HTTP ", status.as_str()));
            }
            match body {
                Err(e) => Err(concat2("read error: ", e.as_str())),
                Ok(_) => {
                    let healthy = match field {
                        Some(f) => str_eq(f, "ok"),
                        None => false,
                    };
                    if healthy {
                        Ok(())
                    } else {
                        Err(owned("invalid health response"))
                    }
                },
            }
        },
    }
}

/// Backend health: HTTP 200 with a JSON body whose `status` is `"ok"`.
pub fn backend_health(p: &BackendProbe) -> (r: Result<(), String>)
    ensures
        err_text(r) == backend_verdict(*p),
{
    let field = match p {
        BackendProbe::Reply { body: Ok(b), .. } => json_status(b.as_str()),
        _ => None,
    };
    let f = match &field {
        Some(t) => Some(t.as_str()),
        None => None,
    };
    health_verdict(p, f)
}

/// What a GET of the frontend root gave.
pub enum FrontendProbe {
    /// The request could not be sent (the error's text).
    Unreachable(String),
    /// A reply with this status code.
    Reply(u16),
}

/// The frontend is up: its root answered HTTP 200.
pub open spec fn frontend_up(p: FrontendProbe) -> bool {
    p matches FrontendProbe::Reply(code) && code == 200
}

/// Frontend health: the root answers HTTP 200.
pub fn frontend_ok(p: &FrontendProbe) -> (r: bool)
    ensures
        r == frontend_up(*p),
{
    match p {
        FrontendProbe::Unreachable(_) => false,
        FrontendProbe::Reply(code) => *code == 200,
    }
}

// ---------------------------------------------------------------------
// Assembling a check result
// ---------------------------------------------------------------------

/// The failure lines of the backend and frontend checks.
pub open spec fn http_failure_lines(backend: Result<(), Seq<char>>, frontend_ok: bool) -> Seq<
    Seq<char>,
> {
    let b = match backend {
        Ok(()) => Seq::empty(),
        Err(e) => seq!["Backend: "@ + e],
    };
    if frontend_ok {
        b
    } else {
        b.push("Frontend unreachable"@)
    }
}

/// The failure lines of one environment: containers, then backend, then frontend.
pub open spec fn environment_failure_lines(
    containers: Result<Seq<ContainerInfo>, Seq<char>>,
    backend: Result<(), Seq<char>>,
    frontend_ok: bool,
) -> Seq<Seq<char>> {
    let c = match containers {
        Ok(cs) => containers_failure_lines(cs),
        Err(e) => seq!["Docker inspect failed: "@ + e],
    };
    c + http_failure_lines(backend, frontend_ok)
}

/// The containers inspected, or the error's text.
pub open spec fn inspected(r: Result<Vec<ContainerInfo>, String>) -> Result<Seq<ContainerInfo>, Seq<char>> {
    match r {
        Ok(cs) => Ok(cs@),
        Err(e) => Err(e@),
    }
}

fn push_http_failures(failures: &mut Vec<String>, backend: &Result<(), String>, frontend_ok: bool)
    ensures
        views(final(failures)@) == views(old(failures)@) + http_failure_lines(
            err_text(*backend),
            frontend_ok,
        ),
{
    match backend {
        Ok(()) => {},
        Err(e) => {
            failures.push(concat2("Backend: ", e.as_str()));
        },
    }
    if !frontend_ok {
        failures.push(owned("Frontend unreachable"));
    }
    assert(views(failures@) =~= views(old(failures)@) + http_failure_lines(
        err_text(*backend),
        frontend_ok,
    ));
}

/// The failures of one environment from its container inspection and HTTP checks.
pub fn environment_failures(
    containers: &Result<Vec<ContainerInfo>, String>,
    backend: &Result<(), String>,
    frontend_ok: bool,
) -> (r: Vec<String>)
    ensures
        views(r@) == environment_failure_lines(inspected(*containers), err_text(*backend), frontend_ok),
{
    let mut failures: Vec<String> = Vec::new();
    match containers {
        Ok(cs) => {
            let mut i: usize = 0;
            while i < cs.len()
                invariant
                    i <= cs@.len(),
                    views(failures@) == containers_failure_lines(cs@.take(i as int)),
                decreases cs.len() - i,
            {
                collect_container_failures(&cs[i], &mut failures);
                assert(cs@.take(i + 1).drop_last() =~= cs@.take(i as int));
                i += 1;
            }
            assert(cs@.take(cs@.len() as int) =~= cs@);
        },
        Err(e) => {
            failures.push(concat2("Docker inspect failed: ", e.as_str()));
            assert(views(failures@) =~= seq!["Docker inspect failed: "@ + e@]);
        },
    }
    push_http_failures(&mut failures, backend, frontend_ok);
    failures
}

/// The result of a dev-mode run: only the local backend and frontend are checked.
pub fn dev_check_result(server_failures: Vec<String>, backend: &Result<(), String>, frontend_ok: bool) -> (r:
    CheckResult)
    ensures
        r.server_failures@ == server_failures@,
        r.server_ok == (server_failures@.len() == 0),
        views(r.prod_failures@) == http_failure_lines(err_text(*backend), frontend_ok),
        r.prod_ok == (r.prod_failures@.len() == 0),
        r.staging_ok,
        r.prod_monitored,
        !r.staging_monitored,
        r.staging_failures@.len() == 0,
        result_consistent(r),
{
    let mut prod_failures: Vec<String> = Vec::new();
    push_http_failures(&mut prod_failures, backend, frontend_ok);
    let server_ok = server_failures.len() == 0;
    let prod_ok = prod_failures.len() == 0;
    CheckResult {
        server_ok,
        prod_ok,
        staging_ok: true,
        prod_monitored: true,
        staging_monitored: false,
        server_failures,
        prod_failures,
        staging_failures: Vec::new(),
    }
}

/// The result when Docker cannot be reached: every monitored environment fails.
pub fn docker_unavailable_result(scope: MonitorScope, server_failures: Vec<String>, error: &str) -> (r:
    CheckResult)
    ensures
        r.server_failures@ == server_failures@,
        r.server_ok == (server_failures@.len() == 0),
        !r.prod_ok,
        !r.staging_ok,
        r.prod_monitored == (scope != MonitorScope::Staging),
        r.staging_monitored == (scope != MonitorScope::Prod),
        views(r.prod_failures@) == seq!["Docker connection failed: "@ + error@],
        views(r.staging_failures@) == seq!["Docker connection failed: "@ + error@],
        result_consistent(r),
{
    let server_ok = server_failures.len() == 0;
    let prod_failures = vec![concat2("Docker connection failed: ", error)];
    let staging_failures = vec![concat2("Docker connection failed: ", error)];
    assert(views(prod_failures@) =~= seq!["Docker connection failed: "@ + error@]);
    assert(views(staging_failures@) =~= seq!["Docker connection failed: "@ + error@]);
    CheckResult {
        server_ok,
        prod_ok: false,
        staging_ok: false,
        prod_monitored: scope.covers_prod(),
        staging_monitored: scope.covers_staging(),
        server_failures,
        prod_failures,
        staging_failures,
    }
}

/// The result of a run over the environments in `scope`: an environment
/// outside the scope counts as fine and has no failures (its list is
/// dropped).
pub fn scoped_check_result(
    scope: MonitorScope,
    server_failures: Vec<String>,
    prod_failures: Vec<String>,
    staging_failures: Vec<String>,
) -> (r: CheckResult)
    ensures
        r.server_failures@ == server_failures@,
        scope != MonitorScope::Staging ==> r.prod_failures@ == prod_failures@,
        scope != MonitorScope::Prod ==> r.staging_failures@ == staging_failures@,
        scope == MonitorScope::Staging ==> r.prod_failures@.len() == 0,
        scope == MonitorScope::Prod ==> r.staging_failures@.len() == 0,
        r.server_ok == (server_failures@.len() == 0),
        r.prod_monitored == (scope != MonitorScope::Staging),
        r.staging_monitored == (scope != MonitorScope::Prod),
        r.prod_ok == (scope == MonitorScope::Staging || prod_failures@.len() == 0),
        r.staging_ok == (scope == MonitorScope::Prod || staging_failures@.len() == 0),
        result_consistent(r),
{
    let prod_monitored = scope.covers_prod();
    let staging_monitored = scope.covers_staging();
    let server_ok = server_failures.len() == 0;
    let prod_failures = if prod_monitored {
        prod_failures
    } else {
        Vec::new()
    };
    let staging_failures = if staging_monitored {
        staging_failures
    } else {
        Vec::new()
    };
    let prod_ok = prod_failures.len() == 0;
    let staging_ok = staging_failures.len() == 0;
    CheckResult {
        server_ok,
        prod_ok,
        staging_ok,
        prod_monitored,
        staging_monitored,
        server_failures,
        prod_failures,
        staging_failures,
    }
}

/// Each target is ok exactly when it has no failures.
pub open spec fn result_consistent(r: CheckResult) -> bool {
    &&& r.server_ok == (r.server_failures@.len() == 0)
    &&& r.prod_ok == (r.prod_failures@.len() == 0)
    &&& r.staging_ok == (r.staging_failures@.len() == 0)
}

/// Of a result whose targets are ok exactly when they have no failures
/// (every result that a check run assembles), "has failures" and "all ok"
/// never agree.
pub proof fn lemma_failures_iff_not_ok(r: CheckResult)
    requires
        result_consistent(r),
    ensures
        (r.server_failures@.len() > 0 || r.prod_failures@.len() > 0 || r.staging_failures@.len()
            > 0) == !(r.server_ok && r.prod_ok && r.staging_ok),
{
}

// ---------------------------------------------------------------------
// Status messages
// ---------------------------------------------------------------------

/// The part of a full status for one environment.
pub open spec fn environment_status(monitored: bool, ok: bool, failures: Seq<Seq<char>>) -> Seq<char> {
    if !monitored {
        "ℹ️ Not monitored\n"@
    } else if ok {
        "✅ OK\n"@
    } else {
        "❌\n"@ + prefixed_lines("  • "@, failures)
    }
}

/// The full status message at time `now`.
pub open spec fn status_text(r: CheckResult, now: Seq<char>) -> Seq<char> {
    "<b>ClosLamartine Monitor — Status</b>\nTime: "@ + now + "\n\n"@ + "<b>Server:</b> "@
        + environment_status(true, r.server_ok, views(r.server_failures@)) + "<b>Production:</b> "@
        + environment_status(r.prod_monitored, r.prod_ok, views(r.prod_failures@))
        + "<b>Staging:</b> "@ + environment_status(
        r.staging_monitored,
        r.staging_ok,
        views(r.staging_failures@),
    )
}

/// The status message for one environment at time `now`.
pub open spec fn single_status_text(
    title: Seq<char>,
    monitored: bool,
    ok: bool,
    failures: Seq<Seq<char>>,
    now: Seq<char>,
) -> Seq<char> {
    "<b>"@ + title + "</b>\nTime: "@ + now + "\n\n"@ + if !monitored {
        "ℹ️ Not monitored by this instance"@
    } else if ok {
        "✅ OK"@
    } else {
        prefixed_lines("• "@, failures)
    }
}

fn push_environment_status(msg: &mut String, monitored: bool, ok: bool, failures: &Vec<String>)
    ensures
        final(msg)@ == old(msg)@ + environment_status(monitored, ok, views(failures@)),
{
    if !monitored {
        msg.append("ℹ️ Not monitored\n");
    } else if ok {
        msg.append("✅ OK\n");
    } else {
        msg.append("❌\n");
        crate::telegram::push_prefixed_lines(msg, "  • ", failures.as_slice());
    }
}

fn single_status_at(title: &str, monitored: bool, ok: bool, failures: &Vec<String>, now: &str) -> (r:
    String)
    ensures
        r@ == single_status_text(title@, monitored, ok, views(failures@), now@),
{
    let mut msg = owned("<b>");
    msg.append(title);
    msg.append("</b>\nTime: ");
    msg.append(now);
    msg.append("\n\n");
    if !monitored {
        msg.append("ℹ️ Not monitored by this instance");
    } else if ok {
        msg.append("✅ OK");
    } else {
        crate::telegram::push_prefixed_lines(&mut msg, "• ", failures.as_slice());
    }
    msg
}

impl CheckResult {
    /// The full status message stamped with `now`.
    pub fn format_status_at(&self, now: &str) -> (r: String)
        ensures
            r@ == status_text(*self, now@),
    {
        let mut msg = owned("<b>ClosLamartine Monitor — Status</b>\nTime: ");
        msg.append(now);
        msg.append("\n\n");
        msg.append("<b>Server:</b> ");
        push_environment_status(&mut msg, true, self.server_ok, &self.server_failures);
        msg.append("<b>Production:</b> ");
        push_environment_status(&mut msg, self.prod_monitored, self.prod_ok, &self.prod_failures);
        msg.append("<b>Staging:</b> ");
        push_environment_status(
            &mut msg,
            self.staging_monitored,
            self.staging_ok,
            &self.staging_failures,
        );
        msg
    }

    /// Format as status message for Telegram, stamped with the current time.
    pub fn format_status(&self) -> (r: String)
        ensures
            exists|now: Seq<char>|
                crate::clock::utc_stamp(now) && r@ == status_text(*self, now),
    {
        let now = crate::clock::utc_now_text();
        let r = self.format_status_at(now.as_str());
        assert(r@ == status_text(*self, now@));
        r
    }

    /// The production status message stamped with `now`.
    pub fn format_status_prod_at(&self, now: &str) -> (r: String)
        ensures
            r@ == single_status_text(
                "Production status"@,
                self.prod_monitored,
                self.prod_ok,
                views(self.prod_failures@),
                now@,
            ),
    {
        single_status_at("Production status", self.prod_monitored, self.prod_ok, &self.prod_failures, now)
    }

    /// Format prod-only status, stamped with the current time.
    pub fn format_status_prod(&self) -> (r: String)
        ensures
            exists|now: Seq<char>|
                crate::clock::utc_stamp(now) && r@ == single_status_text(
                    "Production status"@,
                    self.prod_monitored,
                    self.prod_ok,
                    views(self.prod_failures@),
                    now,
                ),
    {
        let now = crate::clock::utc_now_text();
        self.format_status_prod_at(now.as_str())
    }

    /// The staging status message stamped with `now`.
    pub fn format_status_staging_at(&self, now: &str) -> (r: String)
        ensures
            r@ == single_status_text(
                "Staging status"@,
                self.staging_monitored,
                self.staging_ok,
                views(self.staging_failures@),
                now@,
            ),
    {
        single_status_at(
            "Staging status",
            self.staging_monitored,
            self.staging_ok,
            &self.staging_failures,
            now,
        )
    }

    /// Format staging-only status, stamped with the current time.
    pub fn format_status_staging(&self) -> (r: String)
        ensures
            exists|now: Seq<char>|
                crate::clock::utc_stamp(now) && r@ == single_status_text(
                    "Staging status"@,
                    self.staging_monitored,
                    self.staging_ok,
                    views(self.staging_failures@),
                    now,
                ),
    {
        let now = crate::clock::utc_now_text();
        self.format_status_staging_at(now.as_str())
    }
}


/// The failures of one target on the console, under `title`.
pub open spec fn failure_block(title: Seq<char>, failures: Seq<Seq<char>>) -> Seq<char> {
    title + prefixed_lines("  - "@, failures)
}

/// What the `check` command prints: an all-clear line, or the failures of
/// each failing target.
pub open spec fn check_console(r: CheckResult) -> Seq<char> {
    if r.server_ok && r.prod_ok && r.staging_ok {
        "OK: all checks passed\n"@
    } else {
        (if !r.server_ok {
            failure_block("SERVER FAILURES:\n"@, views(r.server_failures@))
        } else {
            Seq::empty()
        }) + (if !r.prod_ok {
            failure_block("PROD FAILURES:\n"@, views(r.prod_failures@))
        } else {
            Seq::empty()
        }) + if !r.staging_ok {
            failure_block("STAGING FAILURES:\n"@, views(r.staging_failures@))
        } else {
            Seq::empty()
        }
    }
}

/// What the `check` command prints for a result.
pub fn check_console_text(r: &CheckResult) -> (s: String)
    ensures
        s@ == check_console(*r),
{
    if r.all_ok() {
        return owned("OK: all checks passed\n");
    }
    let mut s = String::new();
    if !r.server_ok {
        s.append("SERVER FAILURES:\n");
        crate::telegram::push_prefixed_lines(&mut s, "  - ", r.server_failures.as_slice());
    }
    let ghost after_server = s@;
    if !r.prod_ok {
        s.append("PROD FAILURES:\n");
        crate::telegram::push_prefixed_lines(&mut s, "  - ", r.prod_failures.as_slice());
    }
    let ghost after_prod = s@;
    if !r.staging_ok {
        s.append("STAGING FAILURES:\n");
        crate::telegram::push_prefixed_lines(&mut s, "  - ", r.staging_failures.as_slice());
    }
    proof {
        reveal_strlit("");
    }
    assert(s@ =~= check_console(*r));
    s
}

// ---------------------------------------------------------------------
// Alerts on state changes
// ---------------------------------------------------------------------

/// Last known alert state, used to avoid repeated loop notifications.
#[derive(Debug, Clone)]
pub struct AlertState {
    initialized: bool,
    server_ok: bool,
    prod_ok: bool,
    staging_ok: bool,
}

/// What an alert state records.
pub struct AlertStateView {
    pub initialized: bool,
    pub server_ok: bool,
    pub prod_ok: bool,
    pub staging_ok: bool,
}

impl View for AlertState {
    type V = AlertStateView;

    closed spec fn view(&self) -> AlertStateView {
        AlertStateView {
            initialized: self.initialized,
            server_ok: self.server_ok,
            prod_ok: self.prod_ok,
            staging_ok: self.staging_ok,
        }
    }
}

impl Default for AlertState {
    /// Nothing recorded yet.
    fn default() -> (s: Self)
        ensures
            s@ == (AlertStateView {
                initialized: false,
                server_ok: false,
                prod_ok: false,
                staging_ok: false,
            }),
    {
        AlertState { initialized: false, server_ok: false, prod_ok: false, staging_ok: false }
    }
}

/// A notification to send.
pub enum AlertNotice {
    /// `target` has these failures.
    Failure { target: String, failures: Vec<String> },
    /// `target` is healthy again.
    Resolved { target: String },
}

/// What a notification says.
pub enum NoticeView {
    Failure(Seq<char>, Seq<Seq<char>>),
    Resolved(Seq<char>),
}

impl View for AlertNotice {
    type V = NoticeView;

    open spec fn view(&self) -> NoticeView {
        match self {
            AlertNotice::Failure { target, failures } => NoticeView::Failure(
                target@,
                views(failures@),
            ),
            AlertNotice::Resolved { target } => NoticeView::Resolved(target@),
        }
    }
}

/// What each notification says.
pub open spec fn notice_views(v: Seq<AlertNotice>) -> Seq<NoticeView> {
    v.map_values(|n: AlertNotice| n@)
}

/// Alerts can be sent: a bot token, allowed chats and the alert chat ID.
pub open spec fn alerts_configured(c: Config) -> bool {
    c.telegram_bot_token is Some && c.allowed_chat_ids@.len() > 0 && c.telegram_chat_id is Some
}

/// The label of an environment in alerts.
pub open spec fn target_text(c: Config, env: Seq<char>) -> Seq<char> {
    if env == "production"@ {
        "production ("@ + c.prod_domain@ + ")"@
    } else if env == "staging"@ {
        "staging ("@ + c.staging_domain@ + ")"@
    } else {
        env
    }
}

/// The notification for one target whose health went from `was_ok` to `now_ok`.
pub open spec fn transition_notice(
    target: Seq<char>,
    was_ok: bool,
    now_ok: bool,
    failures: Seq<Seq<char>>,
) -> Seq<NoticeView> {
    if was_ok && !now_ok {
        seq![NoticeView::Failure(target, failures)]
    } else if !was_ok && now_ok {
        seq![NoticeView::Resolved(target)]
    } else {
        Seq::empty()
    }
}

/// The notification for one target on the first run: its failures, if any.
pub open spec fn first_notice(target: Seq<char>, watched: bool, ok: bool, failures: Seq<Seq<char>>) -> Seq<
    NoticeView,
> {
    if watched && !ok {
        seq![NoticeView::Failure(target, failures)]
    } else {
        Seq::empty()
    }
}

/// The notifications owed for `r` given the recorded state `s`.
pub open spec fn alert_notices(c: Config, r: CheckResult, s: AlertStateView) -> Seq<NoticeView> {
    let prod = target_text(c, "production"@);
    let staging = target_text(c, "staging"@);
    if !alerts_configured(c) {
        Seq::empty()
    } else if !s.initialized {
        first_notice("server"@, true, r.server_ok, views(r.server_failures@)) + first_notice(
            prod,
            r.prod_monitored,
            r.prod_ok,
            views(r.prod_failures@),
        ) + first_notice(staging, r.staging_monitored, r.staging_ok, views(r.staging_failures@))
    } else {
        transition_notice("server"@, s.server_ok, r.server_ok, views(r.server_failures@)) + (if r.prod_monitored {
            transition_notice(prod, s.prod_ok, r.prod_ok, views(r.prod_failures@))
        } else {
            Seq::empty()
        }) + (if r.staging_monitored {
            transition_notice(staging, s.staging_ok, r.staging_ok, views(r.staging_failures@))
        } else {
            Seq::empty()
        })
    }
}

/// The state recorded after `r`: unchanged when alerts cannot be sent.
pub open spec fn alert_state_after(c: Config, r: CheckResult, s: AlertStateView) -> AlertStateView {
    if !alerts_configured(c) {
        s
    } else {
        AlertStateView {
            initialized: true,
            server_ok: r.server_ok,
            prod_ok: r.prod_ok,
            staging_ok: r.staging_ok,
        }
    }
}

/// The label of an environment in alerts: `production (DOMAIN)`, `staging (DOMAIN)`.
pub fn target_label(config: &Config, env: &str) -> (r: String)
    ensures
        r@ == target_text(*config, env@),
{
    if str_eq(env, "production") {
        let mut r = owned("production (");
        r.append(config.prod_domain.as_str());
        r.append(")");
        r
    } else if str_eq(env, "staging") {
        let mut r = owned("staging (");
        r.append(config.staging_domain.as_str());
        r.append(")");
        r
    } else {
        owned(env)
    }
}

fn clone_all(v: &Vec<String>) -> (r: Vec<String>)
    ensures
        views(r@) == views(v@),
{
    let mut r: Vec<String> = Vec::new();
    let mut i: usize = 0;
    while i < v.len()
        invariant
            i <= v@.len(),
            views(r@) == views(v@).take(i as int),
        decreases v.len() - i,
    {
        let ghost prev = r@;
        let x = owned(v[i].as_str());
        r.push(x);
        assert(r@ == prev.push(x));
        assert(views(r@) =~= views(prev).push(x@));
        assert(views(v@).take(i + 1) =~= views(v@).take(i as int).push(v@[i as int]@));
        i += 1;
    }
    assert(views(v@).take(v@.len() as int) =~= views(v@));
    r
}

fn push_first_notice(
    out: &mut Vec<AlertNotice>,
    target: &str,
    watched: bool,
    ok: bool,
    failures: &Vec<String>,
)
    ensures
        notice_views(final(out)@) == notice_views(old(out)@) + first_notice(
            target@,
            watched,
            ok,
            views(failures@),
        ),
{
    if watched && !ok {
        out.push(AlertNotice::Failure { target: owned(target), failures: clone_all(failures) });
    }
    assert(notice_views(out@) =~= notice_views(old(out)@) + first_notice(
        target@,
        watched,
        ok,
        views(failures@),
    ));
}

fn push_transition_notice(
    out: &mut Vec<AlertNotice>,
    target: &str,
    was_ok: bool,
    now_ok: bool,
    failures: &Vec<String>,
)
    ensures
        notice_views(final(out)@) == notice_views(old(out)@) + transition_notice(
            target@,
            was_ok,
            now_ok,
            views(failures@),
        ),
{
    if was_ok && !now_ok {
        out.push(AlertNotice::Failure { target: owned(target), failures: clone_all(failures) });
    } else if !was_ok && now_ok {
        out.push(AlertNotice::Resolved { target: owned(target) });
    }
    assert(notice_views(out@) =~= notice_views(old(out)@) + transition_notice(
        target@,
        was_ok,
        now_ok,
        views(failures@),
    ));
}

/// The failure and resolved notifications owed for `result`, and the state
/// updated to it. On the first run only current failures are reported;
/// afterwards a notification goes out only when an environment changes
/// between healthy and failing.
pub fn plan_alerts(config: &Config, result: &CheckResult, state: &mut AlertState) -> (r: Vec<
    AlertNotice,
>)
    ensures
        notice_views(r@) == alert_notices(*config, *result, old(state)@),
        final(state)@ == alert_state_after(*config, *result, old(state)@),
{
    let mut out: Vec<AlertNotice> = Vec::new();
    if !config.telegram_configured() || config.telegram_chat_id.is_none() {
        assert(notice_views(out@) =~= Seq::empty());
        return out;
    }
    let prod = target_label(config, "production");
    let staging = target_label(config, "staging");
    if !state.initialized {
        push_first_notice(&mut out, "server", true, result.server_ok, &result.server_failures);
        push_first_notice(
            &mut out,
            prod.as_str(),
            result.prod_monitored,
            result.prod_ok,
            &result.prod_failures,
        );
        push_first_notice(
            &mut out,
            staging.as_str(),
            result.staging_monitored,
            result.staging_ok,
            &result.staging_failures,
        );
    } else {
        push_transition_notice(
            &mut out,
            "server",
            state.server_ok,
            result.server_ok,
            &result.server_failures,
        );
        if result.prod_monitored {
            push_transition_notice(
                &mut out,
                prod.as_str(),
                state.prod_ok,
                result.prod_ok,
                &result.prod_failures,
            );
        }
        if result.staging_monitored {
            push_transition_notice(
                &mut out,
                staging.as_str(),
                state.staging_ok,
                result.staging_ok,
                &result.staging_failures,
            );
        }
    }
    state.initialized = true;
    state.server_ok = result.server_ok;
    state.prod_ok = result.prod_ok;
    state.staging_ok = result.staging_ok;
    assert(notice_views(out@) =~= alert_notices(*config, *result, old(state)@));
    out
}

/// What a notification's message says at time `now`.
pub open spec fn notice_text_at(n: NoticeView, now: Seq<char>) -> Seq<char> {
    match n {
        NoticeView::Failure(target, failures) => alert_text(target, failures, now),
        NoticeView::Resolved(target) => resolved_text(target, now),
    }
}

/// The Telegram message of a notification, stamped with the current time.
pub fn notice_text(n: &AlertNotice) -> (r: String)
    ensures
        exists|now: Seq<char>|
            crate::clock::utc_stamp(now) && r@ == notice_text_at(n@, now),
{
    match n {
        AlertNotice::Failure { target, failures } => {
            let r = format_alert(target.as_str(), failures.as_slice());
            let ghost now = choose|now: Seq<char>|
                crate::clock::utc_stamp(now) && r@ == alert_text(target@, views(failures@), now);
            assert(r@ == notice_text_at(n@, now));
            r
        },
        AlertNotice::Resolved { target } => {
            let r = format_resolved(target.as_str());
            let ghost now = choose|now: Seq<char>|
                crate::clock::utc_stamp(now) && r@ == resolved_text(target@, now);
            assert(r@ == notice_text_at(n@, now));
            r
        },
    }
}

/// Alerts are not repeated: once a result has been handled, handling the
/// same result again sends nothing.
pub proof fn lemma_alerts_not_repeated(c: Config, r: CheckResult, s: AlertStateView)
    ensures
        alert_notices(c, r, alert_state_after(c, r, s)) == Seq::<NoticeView>::empty(),
{
    assert(alert_notices(c, r, alert_state_after(c, r, s)) =~= Seq::<NoticeView>::empty());
}

/// After the first run, an environment gets a failure alert exactly when it
/// goes from healthy to failing, and a resolved message exactly when it goes
/// from failing to healthy; the server is always watched.
pub proof fn lemma_server_alert_on_change(c: Config, r: CheckResult, s: AlertStateView)
    requires
        alerts_configured(c),
        s.initialized,
    ensures
        alert_notices(c, r, s).contains(NoticeView::Failure("server"@, views(r.server_failures@)))
            <==> (s.server_ok && !r.server_ok),
        alert_notices(c, r, s).contains(NoticeView::Resolved("server"@)) <==> (!s.server_ok
            && r.server_ok),
{
    let n = alert_notices(c, r, s);
    let head = transition_notice("server"@, s.server_ok, r.server_ok, views(r.server_failures@));
    let rest = n.skip(head.len() as int);
    lemma_no_server_target(c, r, s);
    assert(n =~= head + rest);
    let fail = NoticeView::Failure("server"@, views(r.server_failures@));
    let back = NoticeView::Resolved("server"@);
    if n.contains(fail) {
        let i = choose|i: int| 0 <= i < n.len() && n[i] == fail;
        if i >= head.len() {
            assert(rest[i - head.len()] == fail);
            assert(rest.contains(fail));
        }
    }
    if n.contains(back) {
        let i = choose|i: int| 0 <= i < n.len() && n[i] == back;
        if i >= head.len() {
            assert(rest[i - head.len()] == back);
            assert(rest.contains(back));
        }
    }
    if s.server_ok && !r.server_ok {
        assert(n[0] == fail);
    }
    if !s.server_ok && r.server_ok {
        assert(n[0] == back);
    }
}

/// The target a notification names.
pub open spec fn notice_target(n: NoticeView) -> Seq<char> {
    match n {
        NoticeView::Failure(t, _) => t,
        NoticeView::Resolved(t) => t,
    }
}

/// How many notifications name `t`.
pub open spec fn target_count(ns: Seq<NoticeView>, t: Seq<char>) -> nat
    decreases ns.len(),
{
    if ns.len() == 0 {
        0
    } else {
        target_count(ns.drop_last(), t) + if notice_target(ns.last()) == t {
            1nat
        } else {
            0nat
        }
    }
}

proof fn lemma_target_count_append(a: Seq<NoticeView>, b: Seq<NoticeView>, t: Seq<char>)
    ensures
        target_count(a + b, t) == target_count(a, t) + target_count(b, t),
    decreases b.len(),
{
    if b.len() == 0 {
        assert(a + b =~= a);
    } else {
        lemma_target_count_append(a, b.drop_last(), t);
        assert((a + b).drop_last() =~= a + b.drop_last());
        assert((a + b).last() == b.last());
    }
}

proof fn lemma_target_count_zero(ns: Seq<NoticeView>, t: Seq<char>)
    requires
        target_count(ns, t) == 0,
    ensures
        forall|i: int| 0 <= i < ns.len() ==> notice_target(#[trigger] ns[i]) != t,
    decreases ns.len(),
{
    if ns.len() > 0 {
        lemma_target_count_zero(ns.drop_last(), t);
        assert forall|i: int| 0 <= i < ns.len() implies notice_target(#[trigger] ns[i]) != t by {
            if i < ns.len() - 1 {
                assert(ns[i] == ns.drop_last()[i]);
            }
        }
    }
}

/// The middle part holds every notification naming `t` when the others hold none.
proof fn lemma_only_in_middle(
    a: Seq<NoticeView>,
    b: Seq<NoticeView>,
    c: Seq<NoticeView>,
    x: NoticeView,
    t: Seq<char>,
)
    requires
        target_count(a, t) == 0,
        target_count(c, t) == 0,
        notice_target(x) == t,
    ensures
        (a + b + c).contains(x) <==> b.contains(x),
        target_count(a + b + c, t) == target_count(b, t),
{
    lemma_target_count_append(a, b, t);
    lemma_target_count_append(a + b, c, t);
    lemma_target_count_zero(a, t);
    lemma_target_count_zero(c, t);
    let n = a + b + c;
    if n.contains(x) {
        let i = choose|i: int| 0 <= i < n.len() && n[i] == x;
        if i < a.len() {
            assert(n[i] == a[i]);
        } else if i < a.len() + b.len() {
            assert(n[i] == b[i - a.len()]);
        } else {
            assert(n[i] == c[i - a.len() - b.len()]);
        }
    }
    if b.contains(x) {
        let j = choose|j: int| 0 <= j < b.len() && b[j] == x;
        assert(n[a.len() + j] == b[j]);
    }
}

proof fn lemma_transition_count(
    target: Seq<char>,
    was_ok: bool,
    now_ok: bool,
    failures: Seq<Seq<char>>,
    t: Seq<char>,
)
    ensures
        target_count(transition_notice(target, was_ok, now_ok, failures), t) == if target == t
            && was_ok != now_ok {
            1nat
        } else {
            0nat
        },
{
    let n = transition_notice(target, was_ok, now_ok, failures);
    assert(target_count(Seq::<NoticeView>::empty(), t) == 0);
    if was_ok != now_ok {
        assert(n.len() == 1);
        assert(n.drop_last() =~= Seq::<NoticeView>::empty());
        assert(notice_target(n.last()) == target);
    } else {
        assert(n =~= Seq::<NoticeView>::empty());
    }
}

/// The three alert targets differ: the server, production and staging.
proof fn lemma_targets_distinct(c: Config)
    ensures
        "server"@ != target_text(c, "production"@),
        "server"@ != target_text(c, "staging"@),
        target_text(c, "production"@) != target_text(c, "staging"@),
{
    reveal_strlit("server");
    reveal_strlit("production");
    reveal_strlit("staging");
    reveal_strlit("production (");
    reveal_strlit("staging (");
    let prod = target_text(c, "production"@);
    let staging = target_text(c, "staging"@);
    assert("staging"@.len() == 7 && "production"@.len() == 10);
    assert("staging"@ != "production"@);
    assert(("staging ("@ + c.staging_domain@)[0] == 's');
    assert(("staging ("@ + c.staging_domain@)[1] == 't');
    assert(("production ("@ + c.prod_domain@)[0] == 'p');
    assert(prod[0] == 'p');
    assert(staging[0] == 's');
    assert(staging[1] == 't');
    assert("server"@[0] == 's');
    assert("server"@[1] == 'e');
}

/// After the first run, a monitored environment gets exactly one
/// notification when its health changes and none when it stays the same:
/// a failure alert with its failures when it goes from healthy to failing,
/// a resolved message for its label when it goes from failing to healthy.
/// An environment outside the scope gets none.
pub proof fn lemma_environment_alert_on_change(c: Config, r: CheckResult, s: AlertStateView)
    requires
        alerts_configured(c),
        s.initialized,
    ensures
        ({
            let n = alert_notices(c, r, s);
            let staging = target_text(c, "staging"@);
            &&& target_count(n, staging) == if r.staging_monitored && s.staging_ok != r.staging_ok {
                1nat
            } else {
                0nat
            }
            &&& n.contains(NoticeView::Resolved(staging)) <==> (r.staging_monitored && !s.staging_ok
                && r.staging_ok)
            &&& n.contains(NoticeView::Failure(staging, views(r.staging_failures@))) <==> (
            r.staging_monitored && s.staging_ok && !r.staging_ok)
        }),
        ({
            let n = alert_notices(c, r, s);
            let prod = target_text(c, "production"@);
            &&& target_count(n, prod) == if r.prod_monitored && s.prod_ok != r.prod_ok {
                1nat
            } else {
                0nat
            }
            &&& n.contains(NoticeView::Resolved(prod)) <==> (r.prod_monitored && !s.prod_ok
                && r.prod_ok)
            &&& n.contains(NoticeView::Failure(prod, views(r.prod_failures@))) <==> (r.prod_monitored
                && s.prod_ok && !r.prod_ok)
        }),
{
    let prod = target_text(c, "production"@);
    let staging = target_text(c, "staging"@);
    lemma_targets_distinct(c);
    let a = transition_notice("server"@, s.server_ok, r.server_ok, views(r.server_failures@));
    let b = if r.prod_monitored {
        transition_notice(prod, s.prod_ok, r.prod_ok, views(r.prod_failures@))
    } else {
        Seq::empty()
    };
    let cc = if r.staging_monitored {
        transition_notice(staging, s.staging_ok, r.staging_ok, views(r.staging_failures@))
    } else {
        Seq::empty()
    };
    let n = alert_notices(c, r, s);
    assert(n == a + b + cc);
    lemma_transition_count("server"@, s.server_ok, r.server_ok, views(r.server_failures@), prod);
    lemma_transition_count("server"@, s.server_ok, r.server_ok, views(r.server_failures@), staging);
    lemma_transition_count(prod, s.prod_ok, r.prod_ok, views(r.prod_failures@), prod);
    lemma_transition_count(prod, s.prod_ok, r.prod_ok, views(r.prod_failures@), staging);
    lemma_transition_count(staging, s.staging_ok, r.staging_ok, views(r.staging_failures@), prod);
    lemma_transition_count(
        staging,
        s.staging_ok,
        r.staging_ok,
        views(r.staging_failures@),
        staging,
    );
    assert(target_count(Seq::<NoticeView>::empty(), prod) == 0);
    assert(target_count(Seq::<NoticeView>::empty(), staging) == 0);
    // staging: the server and production parts never name it
    lemma_target_count_append(a, b, staging);
    lemma_only_in_middle(a + b, cc, Seq::empty(), NoticeView::Resolved(staging), staging);
    lemma_only_in_middle(
        a + b,
        cc,
        Seq::empty(),
        NoticeView::Failure(staging, views(r.staging_failures@)),
        staging,
    );
    assert(a + b + cc + Seq::<NoticeView>::empty() =~= n);
    // production: only the middle part names it
    lemma_only_in_middle(a, b, cc, NoticeView::Resolved(prod), prod);
    lemma_only_in_middle(a, b, cc, NoticeView::Failure(prod, views(r.prod_failures@)), prod);
    if r.staging_monitored && !s.staging_ok && r.staging_ok {
        assert(cc[0] == NoticeView::Resolved(staging));
    }
    if r.staging_monitored && s.staging_ok && !r.staging_ok {
        assert(cc[0] == NoticeView::Failure(staging, views(r.staging_failures@)));
    }
    if r.prod_monitored && !s.prod_ok && r.prod_ok {
        assert(b[0] == NoticeView::Resolved(prod));
    }
    if r.prod_monitored && s.prod_ok && !r.prod_ok {
        assert(b[0] == NoticeView::Failure(prod, views(r.prod_failures@)));
    }
}

proof fn lemma_first_count(target: Seq<char>, watched: bool, ok: bool, failures: Seq<Seq<char>>, t: Seq<char>)
    ensures
        target_count(first_notice(target, watched, ok, failures), t) == if target == t && watched
            && !ok {
            1nat
        } else {
            0nat
        },
        !first_notice(target, watched, ok, failures).contains(NoticeView::Resolved(t)),
{
    let n = first_notice(target, watched, ok, failures);
    assert(target_count(Seq::<NoticeView>::empty(), t) == 0);
    if watched && !ok {
        assert(n.drop_last() =~= Seq::<NoticeView>::empty());
        assert(notice_target(n.last()) == target);
        if n.contains(NoticeView::Resolved(t)) {
            let i = choose|i: int| 0 <= i < n.len() && n[i] == NoticeView::Resolved(t);
            assert(n[i] == n[0]);
        }
    } else {
        assert(n =~= Seq::<NoticeView>::empty());
    }
}

/// On the first run only the current failures are reported: each failing
/// target that is watched (the server always, an environment when in scope)
/// gets exactly one failure alert with its failures, a healthy or unwatched
/// one gets none, and nothing is announced as resolved.
pub proof fn lemma_first_run_reports_failures(c: Config, r: CheckResult, s: AlertStateView)
    requires
        alerts_configured(c),
        !s.initialized,
    ensures
        ({
            let n = alert_notices(c, r, s);
            let prod = target_text(c, "production"@);
            let staging = target_text(c, "staging"@);
            &&& target_count(n, "server"@) == if !r.server_ok {
                1nat
            } else {
                0nat
            }
            &&& target_count(n, prod) == if r.prod_monitored && !r.prod_ok {
                1nat
            } else {
                0nat
            }
            &&& target_count(n, staging) == if r.staging_monitored && !r.staging_ok {
                1nat
            } else {
                0nat
            }
            &&& n.contains(NoticeView::Failure("server"@, views(r.server_failures@))) <==> !r.server_ok
            &&& n.contains(NoticeView::Failure(prod, views(r.prod_failures@))) <==> (r.prod_monitored
                && !r.prod_ok)
            &&& n.contains(NoticeView::Failure(staging, views(r.staging_failures@))) <==> (
            r.staging_monitored && !r.staging_ok)
            &&& forall|t: Seq<char>| !n.contains(NoticeView::Resolved(t))
        }),
{
    let prod = target_text(c, "production"@);
    let staging = target_text(c, "staging"@);
    lemma_targets_distinct(c);
    let a = first_notice("server"@, true, r.server_ok, views(r.server_failures@));
    let b = first_notice(prod, r.prod_monitored, r.prod_ok, views(r.prod_failures@));
    let cc = first_notice(staging, r.staging_monitored, r.staging_ok, views(r.staging_failures@));
    let n = alert_notices(c, r, s);
    assert(n == a + b + cc);
    let e = Seq::<NoticeView>::empty();
    assert(target_count(e, prod) == 0);
    assert(target_count(e, staging) == 0);
    assert(target_count(e, "server"@) == 0);
    lemma_first_count("server"@, true, r.server_ok, views(r.server_failures@), "server"@);
    lemma_first_count("server"@, true, r.server_ok, views(r.server_failures@), prod);
    lemma_first_count("server"@, true, r.server_ok, views(r.server_failures@), staging);
    lemma_first_count(prod, r.prod_monitored, r.prod_ok, views(r.prod_failures@), "server"@);
    lemma_first_count(prod, r.prod_monitored, r.prod_ok, views(r.prod_failures@), prod);
    lemma_first_count(prod, r.prod_monitored, r.prod_ok, views(r.prod_failures@), staging);
    lemma_first_count(staging, r.staging_monitored, r.staging_ok, views(r.staging_failures@), "server"@);
    lemma_first_count(staging, r.staging_monitored, r.staging_ok, views(r.staging_failures@), prod);
    lemma_first_count(staging, r.staging_monitored, r.staging_ok, views(r.staging_failures@), staging);
    // server: first part
    lemma_target_count_append(b, cc, "server"@);
    lemma_only_in_middle(e, a, b + cc, NoticeView::Failure("server"@, views(r.server_failures@)), "server"@);
    assert(e + a + (b + cc) =~= n);
    // production: middle part
    lemma_only_in_middle(a, b, cc, NoticeView::Failure(prod, views(r.prod_failures@)), prod);
    // staging: last part
    lemma_target_count_append(a, b, staging);
    lemma_only_in_middle(a + b, cc, e, NoticeView::Failure(staging, views(r.staging_failures@)), staging);
    assert(a + b + cc + e =~= n);
    if !r.server_ok {
        assert(a[0] == NoticeView::Failure("server"@, views(r.server_failures@)));
    }
    if r.prod_monitored && !r.prod_ok {
        assert(b[0] == NoticeView::Failure(prod, views(r.prod_failures@)));
    }
    if r.staging_monitored && !r.staging_ok {
        assert(cc[0] == NoticeView::Failure(staging, views(r.staging_failures@)));
    }
    assert forall|t: Seq<char>| !n.contains(NoticeView::Resolved(t)) by {
        lemma_first_count("server"@, true, r.server_ok, views(r.server_failures@), t);
        lemma_first_count(prod, r.prod_monitored, r.prod_ok, views(r.prod_failures@), t);
        lemma_first_count(staging, r.staging_monitored, r.staging_ok, views(r.staging_failures@), t);
        if n.contains(NoticeView::Resolved(t)) {
            let i = choose|i: int| 0 <= i < n.len() && n[i] == NoticeView::Resolved(t);
            if i < a.len() {
                assert(a[i] == n[i]);
            } else if i < a.len() + b.len() {
                assert(b[i - a.len()] == n[i]);
            } else {
                assert(cc[i - a.len() - b.len()] == n[i]);
            }
        }
    }
}

/// The environment notifications never name the server.
proof fn lemma_no_server_target(c: Config, r: CheckResult, s: AlertStateView)
    requires
        alerts_configured(c),
        s.initialized,
    ensures
        ({
            let n = alert_notices(c, r, s);
            let head = transition_notice("server"@, s.server_ok, r.server_ok, views(r.server_failures@));
            let rest = n.skip(head.len() as int);
            forall|x: NoticeView| rest.contains(x) ==> match x {
                NoticeView::Failure(t, _) => t != "server"@,
                NoticeView::Resolved(t) => t != "server"@,
            }
        }),
{
    reveal_strlit("server");
    reveal_strlit("production");
    reveal_strlit("staging");
    reveal_strlit("production (");
    reveal_strlit("staging (");
    let prod = target_text(c, "production"@);
    let staging = target_text(c, "staging"@);
    assert("staging"@.len() == 7 && "production"@.len() == 10);
    assert("staging"@ != "production"@);
    assert(staging == "staging ("@ + c.staging_domain@ + ")"@);
    assert(("staging ("@ + c.staging_domain@)[1] == 't');
    assert(prod[0] == 'p');
    assert(staging[1] == 't');
    assert("server"@[1] == 'e');
}

/// Every alert state records the latest result once alerts can be sent.
pub proof fn lemma_state_tracks_result(c: Config, r: CheckResult, s: AlertStateView)
    requires
        alerts_configured(c),
    ensures
        alert_state_after(c, r, s).initialized,
        alert_state_after(c, r, s).server_ok == r.server_ok,
        alert_state_after(c, r, s).prod_ok == r.prod_ok,
        alert_state_after(c, r, s).staging_ok == r.staging_ok,
{
}

} // verus!
