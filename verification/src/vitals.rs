//! Server vitals: memory, disk, systemd services, SSL certs. The verdicts
//! and texts are drawn from a snapshot of what was read on the machine.
use vstd::prelude::*;

use crate::clock::{naive_utc_timestamp, parse_utc_timestamp, utc_now_text};
use crate::config::Config;
use crate::telegram::prefixed_lines;
use crate::text::{
    decimal, has_prefix, owned, signed_decimal, strip_all_suffix, trim_seq, u64_text, views,
};

verus! {

/// A mounted file system.
pub struct DiskInfo {
    pub name: String,
    pub mount: String,
    pub read_only: bool,
    pub available: u64,
    pub total: u64,
}

/// What `systemctl is-active --quiet SERVICE` gave.
pub enum ServiceProbe {
    Active,
    Inactive,
    /// systemctl could not be run (the error's text).
    Error(String),
}

/// An entry of `/etc/letsencrypt/live`.
pub struct CertEntry {
    /// The entry's file name (`?` when it is not valid text).
    pub domain: String,
    pub is_dir: bool,
    /// `fullchain.pem` exists in it.
    pub has_fullchain: bool,
    /// What `openssl x509 -noout -enddate` printed, when it ran and succeeded.
    pub openssl_stdout: Option<String>,
}

/// What was found in `/etc/letsencrypt/live`.
pub enum CertDir {
    Missing,
    Unreadable,
    Entries(Vec<CertEntry>),
}

/// What the vitals are judged on.
pub struct VitalsSnapshot {
    pub memory_available: u64,
    pub disks: Vec<DiskInfo>,
    /// One probe per service of `required_services`, in that order.
    pub services: Vec<ServiceProbe>,
    pub certs: CertDir,
    /// Seconds since the UNIX epoch when the snapshot was taken.
    pub now_secs: i64,
}

/// The systemd services that must run.
pub open spec fn required_service_names(dev: bool) -> Seq<Seq<char>> {
    if dev {
        seq!["docker"@]
    } else {
        seq!["docker"@, "ssh"@, "nginx"@]
    }
}

/// Systemd services to check (Ubuntu: ssh not sshd; nginx for reverse
/// proxy); in dev only docker.
pub fn required_services(dev: bool) -> (r: Vec<String>)
    ensures
        views(r@) == required_service_names(dev),
{
    let r = if dev {
        vec![owned("docker")]
    } else {
        vec![owned("docker"), owned("ssh"), owned("nginx")]
    };
    assert(views(r@) =~= required_service_names(dev));
    r
}

/// `n` bytes in whole mebibytes.
pub open spec fn mib(n: u64) -> nat {
    (n / 1024 / 1024) as nat
}

/// The memory failure line, if less than `min` bytes are available.
pub open spec fn memory_lines(available: u64, min: u64) -> Seq<Seq<char>> {
    if available < min {
        seq![
            "Low memory: "@ + decimal(mib(available)) + " MB available (min "@ + decimal(mib(min))
                + " MB)"@,
        ]
    } else {
        Seq::empty()
    }
}

/// The root file system or one under `/var` or `/home`, Docker's storage excepted.
pub open spec fn monitored_mount(m: Seq<char>) -> bool {
    (m == "/"@ || has_prefix(m, "/var"@) || has_prefix(m, "/home"@)) && !has_prefix(
        m,
        "/var/lib/docker"@,
    )
}

/// The mount is one whose space and state are watched.
pub fn is_monitored_mount(mount: &str) -> (r: bool)
    ensures
        r == monitored_mount(mount@),
{
    (crate::text::str_eq(mount, "/") || crate::text::starts_with(mount, "/var")
        || crate::text::starts_with(mount, "/home")) && !crate::text::starts_with(
        mount,
        "/var/lib/docker",
    )
}

/// The failure lines of a disk.
pub open spec fn disk_lines(d: DiskInfo, min: u64) -> Seq<Seq<char>> {
    if !monitored_mount(d.mount@) {
        Seq::empty()
    } else {
        (if d.read_only {
            seq![
                "Disk read-only: "@ + d.name@ + " ("@ + d.mount@ + ") - possible crash/failure"@,
            ]
        } else {
            Seq::empty()
        }) + (if d.available < min {
            seq![
                "Low disk space: "@ + d.mount@ + " has "@ + decimal(mib(d.available))
                    + " MB free (min "@ + decimal(mib(min)) + " MB)"@,
            ]
        } else {
            Seq::empty()
        })
    }
}

/// The failure lines of the disks, in order.
pub open spec fn disks_lines(ds: Seq<DiskInfo>, min: u64) -> Seq<Seq<char>>
    decreases ds.len(),
{
    if ds.len() == 0 {
        Seq::empty()
    } else {
        disks_lines(ds.drop_last(), min) + disk_lines(ds.last(), min)
    }
}

/// The failure line of a service, if it is not active.
pub open spec fn service_lines(name: Seq<char>, p: ServiceProbe) -> Seq<Seq<char>> {
    match p {
        ServiceProbe::Active => Seq::empty(),
        ServiceProbe::Inactive => seq!["Service not running: "@ + name],
        ServiceProbe::Error(e) => seq!["Cannot check service "@ + name + ": "@ + e@],
    }
}

/// The failure lines of the services, in order.
pub open spec fn services_lines(names: Seq<Seq<char>>, ps: Seq<ServiceProbe>) -> Seq<Seq<char>>
    decreases ps.len(),
{
    if ps.len() == 0 || names.len() == 0 {
        Seq::empty()
    } else {
        services_lines(names.drop_last(), ps.drop_last()) + service_lines(names.last(), ps.last())
    }
}

/// The expiry timestamp of an openssl `notAfter` date: `GMT` dropped, then
/// read as a UTC time `Mon DD HH:MM:SS YYYY`, or else as
/// `Day Mon DD HH:MM:SS YYYY`.
pub open spec fn openssl_date(s: Seq<char>) -> Option<int> {
    let t = trim_seq(strip_all_suffix(s, " GMT"@));
    match naive_utc_timestamp(t, "%b %d %H:%M:%S %Y"@) {
        Some(x) => Some(x),
        None => naive_utc_timestamp(t, "%a %b %d %H:%M:%S %Y"@),
    }
}

/// Parse openssl date format ("Mar 12 15:00:00 2026 GMT" or
/// "Thu Mar 12 15:00:00 2026 GMT") as a UTC time.
pub fn parse_openssl_date(s: &str) -> (r: Option<i64>)
    ensures
        match r {
            Some(t) => openssl_date(s@) == Some(t as int),
            None => openssl_date(s@) is None,
        },
{
    proof {
        reveal_strlit(" GMT");
    }
    let stripped = crate::text::trim_end_matches(s, " GMT");
    let t = crate::text::trim(stripped.as_str());
    match parse_utc_timestamp(t.as_str(), "%b %d %H:%M:%S %Y") {
        Some(x) => Some(x),
        None => parse_utc_timestamp(t.as_str(), "%a %b %d %H:%M:%S %Y"),
    }
}

/// The expiry of the certificate an entry holds, if it is read.
pub open spec fn cert_expiry(e: CertEntry) -> Option<int> {
    if !e.is_dir || e.domain@ == "README"@ || !e.has_fullchain {
        None
    } else {
        match e.openssl_stdout {
            None => None,
            Some(out) => if has_prefix(out@, "notAfter="@) {
                openssl_date(trim_seq(out@.skip(9)))
            } else {
                None
            },
        }
    }
}

/// The expiry of the certificate an entry holds, if it is read.
pub fn entry_expiry(e: &CertEntry) -> (r: Option<i64>)
    ensures
        match r {
            Some(t) => cert_expiry(*e) == Some(t as int),
            None => cert_expiry(*e) is None,
        },
{
    if !e.is_dir || crate::text::str_eq(e.domain.as_str(), "README") || !e.has_fullchain {
        return None;
    }
    match &e.openssl_stdout {
        None => None,
        Some(out) => {
            proof {
                reveal_strlit("notAfter=");
            }
            if crate::text::starts_with(out.as_str(), "notAfter=") {
                let v = crate::text::chars_of(out.as_str());
                let rest = crate::text::string_from_range(&v, 9, v.len());
                assert(rest@ =~= out@.skip(9));
                let t = crate::text::trim(rest.as_str());
                parse_openssl_date(t.as_str())
            } else {
                None
            }
        },
    }
}

/// Whole days, rounded toward zero as integer division does.
pub open spec fn whole_days(secs: int) -> int {
    if secs >= 0 {
        secs / 86400
    } else {
        -((-secs) / 86400)
    }
}

/// Days from `now` until `expiry`, rounded toward zero.
pub fn days_left(expiry: i64, now: i64) -> (r: i128)
    ensures
        r == whole_days(expiry - now),
        -0x1_0000_0000_0000 < r < 0x1_0000_0000_0000,
{
    let diff: i128 = (expiry as i128) - (now as i128);
    if diff >= 0 {
        let q = (diff as u128) / 86400;
        q as i128
    } else {
        let q = ((-diff) as u128) / 86400;
        -(q as i128)
    }
}

/// The failure line of a certificate that expired or expires within `warn` days.
pub open spec fn cert_failure_lines(domain: Seq<char>, days: int, warn: u32) -> Seq<Seq<char>> {
    if days < 0 {
        seq![
            "SSL cert expired: "@ + domain + " ("@ + signed_decimal(-days)
                + " days ago) - renew with certbot"@,
        ]
    } else if days < warn {
        seq![
            "SSL cert expires soon: "@ + domain + " ("@ + signed_decimal(days)
                + " days left) - renew with certbot"@,
        ]
    } else {
        Seq::empty()
    }
}

/// The failure line of a certificate, given its expiry.
pub fn cert_failure(domain: &str, expiry: i64, now: i64, warn_days: u32) -> (r: Option<String>)
    ensures
        match r {
            Some(l) => seq![l@] == cert_failure_lines(domain@, whole_days(expiry - now), warn_days),
            None => cert_failure_lines(domain@, whole_days(expiry - now), warn_days).len() == 0,
        },
{
    let days = days_left(expiry, now);
    if days < 0 {
        let mut l = owned("SSL cert expired: ");
        l.append(domain);
        l.append(" (");
        l.append(crate::text::i128_text(-days).as_str());
        l.append(" days ago) - renew with certbot");
        Some(l)
    } else if days < warn_days as i128 {
        let mut l = owned("SSL cert expires soon: ");
        l.append(domain);
        l.append(" (");
        l.append(crate::text::i128_text(days).as_str());
        l.append(" days left) - renew with certbot");
        Some(l)
    } else {
        None
    }
}

/// The failure lines of the certificate entries, in order.
pub open spec fn certs_lines(es: Seq<CertEntry>, now: i64, warn: u32) -> Seq<Seq<char>>
    decreases es.len(),
{
    if es.len() == 0 {
        Seq::empty()
    } else {
        certs_lines(es.drop_last(), now, warn) + match cert_expiry(es.last()) {
            Some(x) => cert_failure_lines(es.last().domain@, whole_days(x - now), warn),
            None => Seq::empty(),
        }
    }
}

/// The failure lines of the certificates found.
pub open spec fn cert_dir_lines(d: CertDir, now: i64, warn: u32) -> Seq<Seq<char>> {
    match d {
        CertDir::Entries(es) => certs_lines(es@, now, warn),
        _ => Seq::empty(),
    }
}

/// All server failures: memory, disks, services, then certificates (not in dev).
pub open spec fn vitals_lines(c: Config, s: VitalsSnapshot) -> Seq<Seq<char>> {
    memory_lines(s.memory_available, c.min_available_memory_bytes) + disks_lines(
        s.disks@,
        c.min_available_disk_bytes,
    ) + services_lines(required_service_names(c.dev), s.services@) + if c.dev {
        Seq::empty()
    } else {
        cert_dir_lines(s.certs, s.now_secs, c.cert_warn_days)
    }
}

/// The snapshot `s` with no certificate directory.
pub open spec fn without_certs(s: VitalsSnapshot) -> VitalsSnapshot {
    VitalsSnapshot {
        memory_available: s.memory_available,
        disks: s.disks,
        services: s.services,
        certs: CertDir::Missing,
        now_secs: s.now_secs,
    }
}

/// Outside dev mode the certificates are checked: the server failures are
/// those found without the certificate directory, followed by the
/// certificate failures of the directory (as `certificate_failures`
/// reports them at the snapshot's time). In dev mode the certificates add
/// nothing.
pub proof fn lemma_certificates_checked_outside_dev(c: Config, s: VitalsSnapshot)
    ensures
        !c.dev ==> vitals_lines(c, s) == vitals_lines(c, without_certs(s)) + cert_dir_lines(
            s.certs,
            s.now_secs,
            c.cert_warn_days,
        ),
        c.dev ==> vitals_lines(c, s) == vitals_lines(c, without_certs(s)),
        cert_dir_lines(CertDir::Missing, s.now_secs, c.cert_warn_days).len() == 0,
{
    let b = without_certs(s);
    let base = memory_lines(s.memory_available, c.min_available_memory_bytes) + disks_lines(
        s.disks@,
        c.min_available_disk_bytes,
    ) + services_lines(required_service_names(c.dev), s.services@);
    if !c.dev {
        assert(vitals_lines(c, b) =~= base);
    } else {
        assert(vitals_lines(c, b) =~= base);
        assert(vitals_lines(c, s) =~= base);
    }
}

fn push_all(out: &mut Vec<String>, more: Vec<String>)
    ensures
        views(final(out)@) == views(old(out)@) + views(more@),
{
    let ghost start = views(out@);
    let mut i: usize = 0;
    while i < more.len()
        invariant
            i <= more@.len(),
            views(out@) == start + views(more@).take(i as int),
        decreases more.len() - i,
    {
        let ghost before = out@;
        let x = owned(more[i].as_str());
        out.push(x);
        assert(views(out@) =~= views(before).push(x@));
        assert(views(more@).take(i + 1) =~= views(more@).take(i as int).push(more@[i as int]@));
        i += 1;
    }
    assert(views(more@).take(more@.len() as int) =~= views(more@));
}

fn mib_text(n: u64) -> (r: String)
    ensures
        r@ == decimal(mib(n)),
{
    u64_text(n / 1024 / 1024)
}

/// Run all server vital checks on a snapshot.
pub fn run_vitals(config: &Config, snapshot: &VitalsSnapshot) -> (r: Vec<String>)
    requires
        snapshot.services@.len() == required_service_names(config.dev).len(),
    ensures
        views(r@) == vitals_lines(*config, *snapshot),
{
    let mut failures: Vec<String> = Vec::new();
    let min_mem = config.min_available_memory_bytes;
    if snapshot.memory_available < min_mem {
        let mut l = owned("Low memory: ");
        l.append(mib_text(snapshot.memory_available).as_str());
        l.append(" MB available (min ");
        l.append(mib_text(min_mem).as_str());
        l.append(" MB)");
        failures.push(l);
    }
    assert(views(failures@) =~= memory_lines(snapshot.memory_available, min_mem));
    let min_disk = config.min_available_disk_bytes;
    let ghost after_mem = views(failures@);
    let mut i: usize = 0;
    while i < snapshot.disks.len()
        invariant
            i <= snapshot.disks@.len(),
            views(failures@) == after_mem + disks_lines(snapshot.disks@.take(i as int), min_disk),
        decreases snapshot.disks.len() - i,
    {
        let d = &snapshot.disks[i];
        let ghost before = views(failures@);
        if is_monitored_mount(d.mount.as_str()) {
            if d.read_only {
                let mut l = owned("Disk read-only: ");
                l.append(d.name.as_str());
                l.append(" (");
                l.append(d.mount.as_str());
                l.append(") - possible crash/failure");
                failures.push(l);
            }
            if d.available < min_disk {
                let mut l = owned("Low disk space: ");
                l.append(d.mount.as_str());
                l.append(" has ");
                l.append(mib_text(d.available).as_str());
                l.append(" MB free (min ");
                l.append(mib_text(min_disk).as_str());
                l.append(" MB)");
                failures.push(l);
            }
        }
        assert(views(failures@) =~= before + disk_lines(*d, min_disk));
        assert(snapshot.disks@.take(i + 1).drop_last() =~= snapshot.disks@.take(i as int));
        i += 1;
    }
    assert(snapshot.disks@.take(snapshot.disks@.len() as int) =~= snapshot.disks@);
    let names = required_services(config.dev);
    let ghost after_disks = views(failures@);
    let mut k: usize = 0;
    let count = names.len();
    while k < count
        invariant
            k <= count,
            count == names@.len(),
            count == snapshot.services@.len(),
            views(names@) == required_service_names(config.dev),
            views(failures@) == after_disks + services_lines(
                views(names@).take(k as int),
                snapshot.services@.take(k as int),
            ),
        decreases count - k,
    {
        let name = names[k].as_str();
        let ghost before = views(failures@);
        match &snapshot.services[k] {
            ServiceProbe::Active => {},
            ServiceProbe::Inactive => {
                let mut l = owned("Service not running: ");
                l.append(name);
                failures.push(l);
            },
            ServiceProbe::Error(e) => {
                let mut l = owned("Cannot check service ");
                l.append(name);
                l.append(": ");
                l.append(e.as_str());
                failures.push(l);
            },
        }
        proof {
            assert(views(names@).take(k + 1).drop_last() =~= views(names@).take(k as int));
            assert(snapshot.services@.take(k + 1).drop_last() =~= snapshot.services@.take(k as int));
            assert(views(names@)[k as int] == names@[k as int]@);
            assert(views(failures@) =~= before + service_lines(
                views(names@)[k as int],
                snapshot.services@[k as int],
            ));
        }
        k += 1;
    }
    assert(views(names@).take(count as int) =~= views(names@));
    assert(snapshot.services@.take(count as int) =~= snapshot.services@);
    if !config.dev {
        let cert_lines = certificate_failures(&snapshot.certs, snapshot.now_secs, config.cert_warn_days);
        push_all(&mut failures, cert_lines);
    }
    assert(views(failures@) =~= vitals_lines(*config, *snapshot));
    failures
}

/// The failure lines of the certificates found.
pub fn certificate_failures(certs: &CertDir, now: i64, warn_days: u32) -> (r: Vec<String>)
    ensures
        views(r@) == cert_dir_lines(*certs, now, warn_days),
{
    let mut out: Vec<String> = Vec::new();
    match certs {
        CertDir::Entries(es) => {
            let mut i: usize = 0;
            while i < es.len()
                invariant
                    i <= es@.len(),
                    views(out@) == certs_lines(es@.take(i as int), now, warn_days),
                decreases es.len() - i,
            {
                let e = &es[i];
                let ghost before = views(out@);
                match entry_expiry(e) {
                    Some(x) => match cert_failure(e.domain.as_str(), x, now, warn_days) {
                        Some(l) => {
                            out.push(l);
                        },
                        None => {},
                    },
                    None => {},
                }
                proof {
                    assert(es@.take(i + 1).drop_last() =~= es@.take(i as int));
                    assert(views(out@) =~= before + match cert_expiry(*e) {
                        Some(x) => cert_failure_lines(e.domain@, whole_days(x - now), warn_days),
                        None => Seq::empty(),
                    });
                }
                i += 1;
            }
            assert(es@.take(es@.len() as int) =~= es@);
        },
        _ => {},
    }
    out
}


// ---------------------------------------------------------------------
// Texts for Telegram commands
// ---------------------------------------------------------------------

/// How a certificate stands: expired, expiring within `warn` days, or fine.
pub open spec fn cert_status_text(days: int, warn: u32) -> Seq<char> {
    if days < 0 {
        "❌ expired "@ + signed_decimal(-days) + "d ago"@
    } else if days < warn {
        "⚠️ "@ + signed_decimal(days) + "d left"@
    } else {
        "✅ "@ + signed_decimal(days) + "d left"@
    }
}

/// One line per certificate read: `DOMAIN: STATUS`.
pub open spec fn cert_status_lines(es: Seq<CertEntry>, now: i64, warn: u32) -> Seq<Seq<char>>
    decreases es.len(),
{
    if es.len() == 0 {
        Seq::empty()
    } else {
        cert_status_lines(es.drop_last(), now, warn) + match cert_expiry(es.last()) {
            Some(x) => seq![es.last().domain@ + ": "@ + cert_status_text(whole_days(x - now), warn)],
            None => Seq::empty(),
        }
    }
}

/// The certificates report.
pub open spec fn certs_text(d: CertDir, now: i64, warn: u32) -> Seq<char> {
    match d {
        CertDir::Missing => "<b>SSL certs</b>\n(no certs found)"@,
        CertDir::Unreadable => "<b>SSL certs</b>\n(cannot read)"@,
        CertDir::Entries(es) => {
            let ls = seq!["<b>SSL certs</b>"@] + cert_status_lines(es@, now, warn);
            crate::text::join_seq(
                if ls.len() == 1 {
                    ls.push("(no certs)"@)
                } else {
                    ls
                },
                "\n"@,
            )
        },
    }
}

fn cert_status(domain: &str, expiry: i64, now: i64, warn_days: u32) -> (r: String)
    ensures
        r@ == domain@ + ": "@ + cert_status_text(whole_days(expiry - now), warn_days),
{
    let days = days_left(expiry, now);
    let mut l = owned(domain);
    l.append(": ");
    if days < 0 {
        l.append("❌ expired ");
        l.append(crate::text::i128_text(-days).as_str());
        l.append("d ago");
    } else if days < warn_days as i128 {
        l.append("⚠️ ");
        l.append(crate::text::i128_text(days).as_str());
        l.append("d left");
    } else {
        l.append("✅ ");
        l.append(crate::text::i128_text(days).as_str());
        l.append("d left");
    }
    l
}

/// Format SSL cert expiry info (all certs in /etc/letsencrypt/live/).
pub fn format_certs(config: &Config, certs: &CertDir, now: i64) -> (r: String)
    ensures
        r@ == certs_text(*certs, now, config.cert_warn_days),
{
    let warn = config.cert_warn_days;
    match certs {
        CertDir::Missing => owned("<b>SSL certs</b>\n(no certs found)"),
        CertDir::Unreadable => owned("<b>SSL certs</b>\n(cannot read)"),
        CertDir::Entries(es) => {
            let mut lines: Vec<String> = vec![owned("<b>SSL certs</b>")];
            let ghost head = views(lines@);
            assert(head =~= seq!["<b>SSL certs</b>"@]);
            let mut i: usize = 0;
            while i < es.len()
                invariant
                    i <= es@.len(),
                    views(lines@) == head + cert_status_lines(es@.take(i as int), now, warn),
                decreases es.len() - i,
            {
                let e = &es[i];
                let ghost before = lines@;
                match entry_expiry(e) {
                    Some(x) => {
                        let l = cert_status(e.domain.as_str(), x, now, warn);
                        lines.push(l);
                        assert(views(lines@) =~= views(before).push(l@));
                    },
                    None => {},
                }
                proof {
                    assert(es@.take(i + 1).drop_last() =~= es@.take(i as int));
                    assert(views(lines@) =~= head + cert_status_lines(es@.take(i + 1), now, warn));
                }
                i += 1;
            }
            assert(es@.take(es@.len() as int) =~= es@);
            if lines.len() == 1 {
                let ghost before = lines@;
                let l = owned("(no certs)");
                lines.push(l);
                assert(views(lines@) =~= views(before).push(l@));
            }
            crate::text::join(&lines, "\n")
        },
    }
}

/// Uptime as `Dd Hh Mm`, `Hh Mm` or `Mm`.
pub open spec fn uptime_spec(secs: u64) -> Seq<char> {
    let d = secs / 86400;
    let h = (secs % 86400) / 3600;
    let m = (secs % 3600) / 60;
    if d > 0 {
        decimal(d as nat) + "d "@ + decimal(h as nat) + "h "@ + decimal(m as nat) + "m"@
    } else if h > 0 {
        decimal(h as nat) + "h "@ + decimal(m as nat) + "m"@
    } else {
        decimal(m as nat) + "m"@
    }
}

/// Uptime in days, hours and minutes.
pub fn uptime_text(uptime_secs: u64) -> (r: String)
    ensures
        r@ == uptime_spec(uptime_secs),
{
    let days = uptime_secs / 86400;
    let hours = (uptime_secs % 86400) / 3600;
    let mins = (uptime_secs % 3600) / 60;
    let mut r = String::new();
    if days > 0 {
        r.append(u64_text(days).as_str());
        r.append("d ");
        r.append(u64_text(hours).as_str());
        r.append("h ");
        r.append(u64_text(mins).as_str());
        r.append("m");
    } else if hours > 0 {
        r.append(u64_text(hours).as_str());
        r.append("h ");
        r.append(u64_text(mins).as_str());
        r.append("m");
    } else {
        r.append(u64_text(mins).as_str());
        r.append("m");
    }
    r
}

/// The server status message at time `now`.
pub open spec fn server_status_text(failures: Seq<Seq<char>>, now: Seq<char>) -> Seq<char> {
    "<b>Server status</b>\nTime: "@ + now + "\n\n"@ + if failures.len() == 0 {
        "✅ All OK"@
    } else {
        "❌ Failures:\n"@ + prefixed_lines("  • "@, failures)
    }
}

/// The server status message for a snapshot, stamped with `now`.
pub fn format_server_status_at(config: &Config, snapshot: &VitalsSnapshot, now: &str) -> (r: String)
    requires
        snapshot.services@.len() == required_service_names(config.dev).len(),
    ensures
        r@ == server_status_text(vitals_lines(*config, *snapshot), now@),
{
    let failures = run_vitals(config, snapshot);
    let mut msg = owned("<b>Server status</b>\nTime: ");
    msg.append(now);
    msg.append("\n\n");
    if failures.len() == 0 {
        msg.append("✅ All OK");
    } else {
        msg.append("❌ Failures:\n");
        crate::telegram::push_prefixed_lines(&mut msg, "  • ", failures.as_slice());
    }
    msg
}

/// Format server vitals status (for /status_server), stamped with the current time.
pub fn format_server_status(config: &Config, snapshot: &VitalsSnapshot) -> (r: String)
    requires
        snapshot.services@.len() == required_service_names(config.dev).len(),
    ensures
        exists|now: Seq<char>|
            crate::clock::utc_stamp(now) && r@ == server_status_text(
                vitals_lines(*config, *snapshot),
                now,
            ),
{
    let now = utc_now_text();
    let r = format_server_status_at(config, snapshot, now.as_str());
    assert(r@ == server_status_text(vitals_lines(*config, *snapshot), now@));
    r
}

} // verus!
