use dockyard::error::CommandError;
use dockyard::lifecycle::{
    after_create, after_start, create_request, create_start_outcome, kill_outcome, kill_request,
    list_containers_outcome, list_containers_request, list_images_outcome, list_images_request,
    remove_image_outcome, remove_image_request, stop_outcome, stop_request,
};
use dockyard::payload::{ContainerRecord, ImageRecord};

#[test]
fn list_requests_always_include_everything() {
    assert!(list_containers_request().all);
    assert!(list_images_request().all);
}

#[test]
fn stop_always_applies_ten_second_grace_period() {
    assert_eq!(stop_request(String::from("web")).grace_seconds, 10);
    assert_eq!(stop_request(String::from("")).grace_seconds, 10);
    let r = stop_request(String::from("db"));
    assert_eq!(r.name, String::from("db"));
}

#[test]
fn kill_never_applies_a_grace_period() {
    let r = kill_request(String::from("web"));
    assert_eq!(r.signal, String::from("SIGKILL"));
    assert_eq!(r.name, String::from("web"));
}

#[test]
fn remove_image_always_requests_forced_removal() {
    let r = remove_image_request(String::from("alpine:3.20"));
    assert!(r.force);
    assert_eq!(r.image, String::from("alpine:3.20"));
    assert!(remove_image_request(String::from("sha256:deadbeef")).force);
}

#[test]
fn create_request_carries_only_the_image_reference() {
    let r = create_request(String::from("nginx:latest"));
    assert_eq!(r.image, String::from("nginx:latest"));
}

#[test]
fn create_then_start_succeeds_only_when_both_phases_succeed() {
    let out = create_start_outcome(Ok(String::from("cid-1")), Ok(()));
    assert!(out.is_ok());
}

#[test]
fn start_failure_after_successful_create_names_the_start_phase() {
    let out = create_start_outcome(Ok(String::from("cid-1")), Err(String::from("port in use")));
    assert_eq!(
        out.unwrap_err(),
        CommandError::DockerError(String::from("Failed to start container:port in use"))
    );
}

#[test]
fn create_failure_names_the_create_phase() {
    let out = create_start_outcome(Err(String::from("no such image")), Ok(()));
    assert_eq!(
        out.unwrap_err(),
        CommandError::DockerError(String::from("Failed to create container:no such image"))
    );
}

#[test]
fn after_create_hands_on_the_assigned_identifier() {
    assert_eq!(after_create(Ok(String::from("cid-9"))).unwrap(), String::from("cid-9"));
    assert!(after_start(Ok(())).is_ok());
}

#[test]
fn stop_failure_names_target_and_cause() {
    let out = stop_outcome("web", Err(String::from("timeout")));
    assert_eq!(
        out.unwrap_err(),
        CommandError::DockerError(String::from("Failed to stop container:web :timeout"))
    );
    assert!(stop_outcome("web", Ok(())).is_ok());
}

#[test]
fn kill_failure_names_target_and_cause() {
    let out = kill_outcome("db", Err(String::from("no such container")));
    assert_eq!(
        out.unwrap_err(),
        CommandError::DockerError(String::from("Failed to kill container:db :no such container"))
    );
    assert!(kill_outcome("db", Ok(())).is_ok());
}

#[test]
fn remove_image_failure_wraps_the_cause() {
    let out = remove_image_outcome(Err(String::from("image in use")));
    assert_eq!(
        out.unwrap_err(),
        CommandError::DockerError(String::from("Failed to remove image:image in use"))
    );
    assert!(remove_image_outcome(Ok(())).is_ok());
}

#[test]
fn list_containers_failure_carries_the_cause_verbatim() {
    let out = list_containers_outcome(Err(String::from("connection refused")));
    assert_eq!(
        out.unwrap_err(),
        CommandError::DockerError(String::from("connection refused"))
    );
}

#[test]
fn list_containers_success_normalizes_every_record() {
    let recs = vec![
        ContainerRecord {
            names: Some(vec![String::from("/web")]),
            status: Some(String::from("Up")),
            state: Some(String::from("running")),
            ports: None,
        },
        ContainerRecord { names: None, status: None, state: None, ports: Some(vec![]) },
    ];
    let out = list_containers_outcome(Ok(recs)).unwrap();
    assert_eq!(out.len(), 2);
    assert_eq!(out[0].name, Some(String::from("web")));
    assert_eq!(out[1].name, None);
    assert_eq!(out[1].ports, Some(vec![]));
}

#[test]
fn list_images_failure_carries_the_cause_verbatim() {
    let out = list_images_outcome(Err(String::from("daemon not running")));
    assert_eq!(
        out.unwrap_err(),
        CommandError::DockerError(String::from("daemon not running"))
    );
}

#[test]
fn list_images_success_normalizes_every_record() {
    let recs = vec![
        ImageRecord { repo_tags: vec![String::from("a:1")], size: 10 },
        ImageRecord { repo_tags: vec![], size: 20 },
    ];
    let out = list_images_outcome(Ok(recs)).unwrap();
    assert_eq!(out.len(), 2);
    assert_eq!(out[0].repo_tag, String::from("a:1"));
    assert_eq!(out[1].repo_tag, String::new());
}

#[test]
fn error_kinds_and_rendering() {
    let d = CommandError::DockerError(String::from("boom"));
    assert!(d.is_docker());
    assert_eq!(d.message(), &String::from("boom"));
    assert_eq!(d.rendered(), String::from("Docker API error: boom"));
    let u = CommandError::UnexpectedError(String::from("lost"));
    assert!(!u.is_docker());
    assert_eq!(u.message(), &String::from("lost"));
    assert_eq!(u.rendered(), String::from("Unexpected error: lost"));
}
