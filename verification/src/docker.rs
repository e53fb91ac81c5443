//! Container state as Docker reports it, in plain values.
use vstd::prelude::*;

use crate::text::{owned, str_eq, strip_all_prefix};

verus! {

/// Container status from Docker.
#[derive(Debug, Clone)]
pub enum ContainerStatus {
    Running,
    Exited,
    Restarting,
    Paused,
    Dead,
    Other(String),
}

/// Health status for containers with healthcheck (e.g. Postgres).
#[derive(Debug, Clone, Copy, PartialEq, Eq, Structural)]
pub enum HealthStatus {
    Healthy,
    Unhealthy,
    Starting,
    /// No healthcheck defined.
    NoHealthcheck,
}

/// Container info for a monitored container.
#[derive(Debug, Clone)]
pub struct ContainerInfo {
    pub name: String,
    pub status: ContainerStatus,
    pub health: HealthStatus,
}

/// `status` is what the lower-case Docker state name `name` stands for.
pub open spec fn status_named(status: ContainerStatus, name: Seq<char>) -> bool {
    match status {
        ContainerStatus::Running => name == "running"@,
        ContainerStatus::Exited => name == "exited"@,
        ContainerStatus::Restarting => name == "restarting"@,
        ContainerStatus::Paused => name == "paused"@,
        ContainerStatus::Dead => name == "dead"@,
        ContainerStatus::Other(s) => s@ == name && name != "running"@ && name != "exited"@ && name
            != "restarting"@ && name != "paused"@ && name != "dead"@,
    }
}

/// The health that the lower-case Docker health name `name` stands for.
pub open spec fn health_named(name: Seq<char>) -> HealthStatus {
    if name == "healthy"@ {
        HealthStatus::Healthy
    } else if name == "unhealthy"@ {
        HealthStatus::Unhealthy
    } else if name == "starting"@ {
        HealthStatus::Starting
    } else {
        HealthStatus::NoHealthcheck
    }
}

/// The status for a lower-case Docker state name.
pub fn status_from_name(name: &str) -> (r: ContainerStatus)
    ensures
        status_named(r, name@),
{
    if str_eq(name, "running") {
        ContainerStatus::Running
    } else if str_eq(name, "exited") {
        ContainerStatus::Exited
    } else if str_eq(name, "restarting") {
        ContainerStatus::Restarting
    } else if str_eq(name, "paused") {
        ContainerStatus::Paused
    } else if str_eq(name, "dead") {
        ContainerStatus::Dead
    } else {
        ContainerStatus::Other(owned(name))
    }
}

/// The health for a lower-case Docker health name.
pub fn health_from_name(name: &str) -> (r: HealthStatus)
    ensures
        r == health_named(name@),
{
    if str_eq(name, "healthy") {
        HealthStatus::Healthy
    } else if str_eq(name, "unhealthy") {
        HealthStatus::Unhealthy
    } else if str_eq(name, "starting") {
        HealthStatus::Starting
    } else {
        HealthStatus::NoHealthcheck
    }
}

impl ContainerInfo {
    /// A Docker container name without its leading slashes.
    pub fn from_docker_name(name: &str) -> (r: String)
        ensures
            r@ == strip_all_prefix(name@, "/"@),
    {
        proof {
            reveal_strlit("/");
        }
        crate::text::trim_start_matches(name, "/")
    }
}

/// The container `name` as inspection found it: its lower-case state name
/// (`unknown` when Docker gave none) and lower-case health name.
pub fn container_info_from_inspect(name: &str, status: Option<&str>, health: Option<&str>) -> (r:
    ContainerInfo)
    ensures
        r.name@ == strip_all_prefix(name@, "/"@),
        status_named(
            r.status,
            match status {
                Some(s) => s@,
                None => "unknown"@,
            },
        ),
        r.health == match health {
            Some(h) => health_named(h@),
            None => HealthStatus::NoHealthcheck,
        },
{
    let status = match status {
        Some(s) => status_from_name(s),
        None => status_from_name("unknown"),
    };
    let health = match health {
        Some(h) => health_from_name(h),
        None => HealthStatus::NoHealthcheck,
    };
    ContainerInfo { name: ContainerInfo::from_docker_name(name), status, health }
}

/// The entry for a container whose inspection failed.
pub fn inspect_failed_info(name: &str) -> (r: ContainerInfo)
    ensures
        r.name@ == strip_all_prefix(name@, "/"@),
        r.status matches ContainerStatus::Other(s) && s@ == "inspect_failed"@,
        r.health == HealthStatus::NoHealthcheck,
{
    ContainerInfo {
        name: ContainerInfo::from_docker_name(name),
        status: ContainerStatus::Other(owned("inspect_failed")),
        health: HealthStatus::NoHealthcheck,
    }
}

} // verus!
