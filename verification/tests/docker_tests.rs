use clos_monitor::docker::{
    container_info_from_inspect, health_from_name, inspect_failed_info, status_from_name,
    ContainerInfo, ContainerStatus, HealthStatus,
};

#[test]
fn status_names() {
    assert!(matches!(status_from_name("running"), ContainerStatus::Running));
    assert!(matches!(status_from_name("exited"), ContainerStatus::Exited));
    assert!(matches!(status_from_name("restarting"), ContainerStatus::Restarting));
    assert!(matches!(status_from_name("paused"), ContainerStatus::Paused));
    assert!(matches!(status_from_name("dead"), ContainerStatus::Dead));
    match status_from_name("created") {
        ContainerStatus::Other(s) => assert_eq!(s, "created"),
        _ => panic!("expected other"),
    }
    match status_from_name("Running") {
        ContainerStatus::Other(s) => assert_eq!(s, "Running"),
        _ => panic!("names are lower case"),
    }
}

#[test]
fn health_names() {
    assert_eq!(health_from_name("healthy"), HealthStatus::Healthy);
    assert_eq!(health_from_name("unhealthy"), HealthStatus::Unhealthy);
    assert_eq!(health_from_name("starting"), HealthStatus::Starting);
    assert_eq!(health_from_name("none"), HealthStatus::NoHealthcheck);
    assert_eq!(health_from_name(""), HealthStatus::NoHealthcheck);
}

#[test]
fn docker_names_lose_leading_slashes() {
    assert_eq!(ContainerInfo::from_docker_name("/app_db"), "app_db");
    assert_eq!(ContainerInfo::from_docker_name("//x"), "x");
    assert_eq!(ContainerInfo::from_docker_name("a/b"), "a/b");
    assert_eq!(ContainerInfo::from_docker_name("/"), "");
}

#[test]
fn inspect_results() {
    let c = container_info_from_inspect("/app_db", Some("running"), Some("healthy"));
    assert_eq!(c.name, "app_db");
    assert!(matches!(c.status, ContainerStatus::Running));
    assert_eq!(c.health, HealthStatus::Healthy);

    let c = container_info_from_inspect("web", None, None);
    match c.status {
        ContainerStatus::Other(s) => assert_eq!(s, "unknown"),
        _ => panic!("expected unknown"),
    }
    assert_eq!(c.health, HealthStatus::NoHealthcheck);
}

#[test]
fn failed_inspection() {
    let c = inspect_failed_info("/web");
    assert_eq!(c.name, "web");
    match c.status {
        ContainerStatus::Other(s) => assert_eq!(s, "inspect_failed"),
        _ => panic!("expected inspect_failed"),
    }
    assert_eq!(c.health, HealthStatus::NoHealthcheck);
}
