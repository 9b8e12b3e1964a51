use illa::command::{deploy, list, remove, restart, stop, update};
use illa::config::{ContainerConfig, Label, Mount, PortBinding};
use illa::engine::{
    ContainerSummary, ErrorKind, Fault, Outcome, Request, Response, Step,
};

#[derive(Debug, Clone, PartialEq)]
struct Container {
    id: String,
    config: ContainerConfig,
    state: String,
}

#[derive(Debug, Clone, PartialEq)]
struct Host {
    reachable: bool,
    pull_events: usize,
    pull_fails: bool,
    refuse_start: bool,
    refuse_remove: bool,
    container: Option<Container>,
    directories: Vec<String>,
    pulled: Vec<String>,
    log: Vec<Request>,
    pending: usize,
}

fn host() -> Host {
    Host {
        reachable: true,
        pull_events: 3,
        pull_fails: false,
        refuse_start: false,
        refuse_remove: false,
        container: None,
        directories: Vec::new(),
        pulled: Vec::new(),
        log: Vec::new(),
        pending: 0,
    }
}

fn fault(status: u16, message: &str) -> Response {
    Response::Failed(Fault { status: Some(status), message: message.to_string() })
}

fn missing() -> Response {
    fault(404, "No such container: illa_builder")
}

fn pull_event(host: &mut Host) -> Response {
    if host.pending > 0 {
        host.pending -= 1;
        Response::PullEvent { status: "Downloading".to_string() }
    } else if host.pull_fails {
        Response::Failed(Fault { status: None, message: "pull access denied".to_string() })
    } else {
        Response::Done
    }
}

fn perform(host: &mut Host, request: &Request) -> Response {
    host.log.push(request.clone());
    if !host.reachable {
        return Response::Failed(Fault { status: None, message: "connection refused".to_string() });
    }
    match request {
        Request::Ping => Response::Done,
        Request::Version => Response::Version { version: "24.0.7".to_string() },
        Request::Pull { image } => {
            host.pulled.push(image.clone());
            host.pending = host.pull_events;
            pull_event(host)
        }
        Request::PullNext => pull_event(host),
        Request::Inspect { .. } => match &host.container {
            Some(container) => Response::Inspected(container.config.clone()),
            None => missing(),
        },
        Request::List { .. } => Response::Listed(
            host.container
                .iter()
                .map(|container| ContainerSummary {
                    id: container.id.clone(),
                    names: vec!["/illa_builder".to_string()],
                    image: container.config.image.clone(),
                    state: container.state.clone(),
                })
                .collect(),
        ),
        Request::Create { config, .. } => {
            if host.container.is_some() {
                return fault(409, "Conflict. The container name \"/illa_builder\" is already in use");
            }
            let id = "0123456789abcdef0123456789abcdef".to_string();
            host.container =
                Some(Container { id: id.clone(), config: config.clone(), state: "created".to_string() });
            Response::Created { id }
        }
        Request::Start { .. } => {
            if host.refuse_start {
                return fault(500, "port is already allocated");
            }
            match host.container.as_mut() {
                Some(container) => {
                    container.state = "running".to_string();
                    Response::Done
                }
                None => missing(),
            }
        }
        Request::Stop { .. } => match host.container.as_mut() {
            Some(container) => {
                container.state = "exited".to_string();
                Response::Done
            }
            None => missing(),
        },
        Request::Restart { .. } => match host.container.as_mut() {
            Some(container) => {
                container.state = "running".to_string();
                Response::Done
            }
            None => missing(),
        },
        Request::Remove { force, .. } => {
            if host.refuse_remove {
                return fault(500, "driver failed to remove root filesystem");
            }
            match &host.container {
                Some(container) if container.state == "running" && !*force => {
                    fault(409, "You cannot remove a running container")
                }
                Some(_) => {
                    host.container = None;
                    Response::Done
                }
                None => missing(),
            }
        }
        Request::PrepareData { path } => {
            if !host.directories.contains(path) {
                host.directories.push(path.clone());
            }
            Response::Done
        }
        Request::DeleteData { path } => {
            host.directories.retain(|directory| directory != path);
            Response::Done
        }
    }
}

fn run_deploy(host: &mut Host, cmd: &deploy::Cmd) -> Outcome {
    let options = cmd.options("/tmp/illa-builder");
    let mut step = cmd.run();
    loop {
        match step {
            Step { state: deploy::State::Finished(outcome), .. } => return outcome,
            Step { state, request: Some(request), .. } => {
                let response = perform(host, &request);
                step = deploy::deploy_self_host(&options, state, response);
            }
            other => panic!("a deploy that has not ended asks for nothing: {:?}", other),
        }
    }
}

fn run_update(host: &mut Host) -> Outcome {
    let mut step = update::Cmd { self_host: true, cloud: false }.run();
    loop {
        match step {
            Step { state: update::State::Finished(outcome), .. } => return outcome,
            Step { state, request: Some(request), .. } => {
                let response = perform(host, &request);
                step = update::update_local(state, response);
            }
            other => panic!("an update that has not ended asks for nothing: {:?}", other),
        }
    }
}

fn run_remove(host: &mut Host, force: bool, data: bool) -> Outcome {
    let mut step = remove::Cmd { self_host: true, cloud: false, force, data }.run();
    loop {
        match step {
            Step { state: remove::State::Finished(outcome), .. } => return outcome,
            Step { state, request: Some(request), .. } => {
                let response = perform(host, &request);
                step = remove::remove_local(force, data, state, response);
            }
            other => panic!("a removal that has not ended asks for nothing: {:?}", other),
        }
    }
}

fn run_stop(host: &mut Host) -> Outcome {
    let mut step = stop::Cmd { self_host: true, cloud: false }.run();
    loop {
        match step {
            Step { state: stop::State::Finished(outcome), .. } => return outcome,
            Step { state, request: Some(request), .. } => {
                let response = perform(host, &request);
                step = stop::stop_local(state, response);
            }
            other => panic!("a stop that has not ended asks for nothing: {:?}", other),
        }
    }
}

fn run_restart(host: &mut Host) -> Outcome {
    let mut step = restart::Cmd { self_host: true, cloud: false }.run();
    loop {
        match step {
            Step { state: restart::State::Finished(outcome), .. } => return outcome,
            Step { state, request: Some(request), .. } => {
                let response = perform(host, &request);
                step = restart::restart_local(state, response);
            }
            other => panic!("a restart that has not ended asks for nothing: {:?}", other),
        }
    }
}

fn run_list(host: &mut Host) -> (Vec<list::Row>, Outcome) {
    let mut step = list::Cmd { all: false, self_host: true, cloud: false }.run();
    loop {
        match step {
            Step { state: list::State::Finished { rows, outcome }, .. } => return (rows, outcome),
            Step { state, request: Some(request), .. } => {
                let response = perform(host, &request);
                step = list::list_local(state, response);
            }
            other => panic!("a listing that has not ended asks for nothing: {:?}", other),
        }
    }
}

fn deploy_cmd(port: u16, version: Option<&str>, mount: Option<&str>) -> deploy::Cmd {
    deploy::Cmd {
        self_host: true,
        cloud: false,
        builder_version: version.map(|v| v.to_string()),
        port,
        mount_path: mount.map(|m| m.to_string()),
    }
}

fn old_instance(state: &str) -> Container {
    Container {
        id: "feedfacefeedfacefeedface".to_string(),
        config: ContainerConfig {
            image: "illasoft/illa-builder:1.0.3".to_string(),
            env: vec![
                "ILLA_SERVER_MODE=release".to_string(),
                "ILLA_DEPLOY_MODE=self-host".to_string(),
                "POSTGRES_PASSWORD=hunter2".to_string(),
            ],
            labels: vec![Label { key: "license".to_string(), value: "Apache-2.0".to_string() }],
            ports: vec![PortBinding {
                container_port: "80/tcp".to_string(),
                host_ip: "0.0.0.0".to_string(),
                host_port: "9000".to_string(),
            }],
            mounts: vec![Mount {
                source: "/tmp/illa-data".to_string(),
                target: "/opt/illa/database".to_string(),
                read_only: false,
            }],
        },
        state: state.to_string(),
    }
}

fn asked_to_create_or_start(host: &Host) -> bool {
    host.log
        .iter()
        .any(|request| matches!(request, Request::Create { .. } | Request::Start { .. }))
}

#[test]
fn deploy_on_port_8080_with_the_default_version() {
    let mut host = host();
    let outcome = run_deploy(&mut host, &deploy_cmd(8080, None, None));
    assert_eq!(
        outcome,
        Outcome::Success("ILLA Builder started, please visit http://localhost:8080".to_string())
    );
    assert_eq!(outcome.exit_code(), 0);
    assert_eq!(host.pulled, vec!["illasoft/illa-builder:latest".to_string()]);
    let container = host.container.expect("the instance exists");
    assert_eq!(container.state, "running");
    assert_eq!(container.config.image, "illasoft/illa-builder:latest");
    assert_eq!(
        container.config.ports,
        vec![PortBinding {
            container_port: "80/tcp".to_string(),
            host_ip: "0.0.0.0".to_string(),
            host_port: "8080".to_string(),
        }]
    );
    assert_eq!(
        container.config.mounts,
        vec![Mount {
            source: "/tmp/illa-builder".to_string(),
            target: "/opt/illa/database".to_string(),
            read_only: false,
        }]
    );
    assert_eq!(host.directories, vec!["/tmp/illa-builder".to_string()]);
    let created: Vec<&Request> =
        host.log.iter().filter(|request| matches!(request, Request::Create { .. })).collect();
    assert_eq!(created.len(), 1);
    match created[0] {
        Request::Create { name, .. } => assert_eq!(name, "illa_builder"),
        _ => unreachable!(),
    }
    assert_eq!(host.log.last(), Some(&Request::Start { name: "illa_builder".to_string() }));
}

#[test]
fn deploy_asks_in_order() {
    let mut host = host();
    host.pull_events = 2;
    run_deploy(&mut host, &deploy_cmd(80, Some("1.2.3"), Some("/data/illa")));
    let kinds: Vec<&str> = host
        .log
        .iter()
        .map(|request| match request {
            Request::Ping => "ping",
            Request::Pull { .. } => "pull",
            Request::PullNext => "next",
            Request::PrepareData { .. } => "prepare",
            Request::Create { .. } => "create",
            Request::Start { .. } => "start",
            _ => "other",
        })
        .collect();
    assert_eq!(kinds, vec!["ping", "pull", "next", "next", "prepare", "create", "start"]);
    assert_eq!(host.pulled, vec!["illasoft/illa-builder:1.2.3".to_string()]);
    assert_eq!(host.directories, vec!["/data/illa".to_string()]);
}

#[test]
fn deploy_without_engine_creates_nothing() {
    let mut host = host();
    host.reachable = false;
    let outcome = run_deploy(&mut host, &deploy_cmd(8080, None, None));
    assert_eq!(
        outcome,
        Outcome::Failure(
            ErrorKind::EngineUnavailable,
            "No running docker found. Please check the status of docker.".to_string()
        )
    );
    assert_eq!(outcome.exit_code(), 1);
    assert_eq!(host.log, vec![Request::Ping]);
    assert!(!asked_to_create_or_start(&host));
    assert_eq!(host.container, None);
}

#[test]
fn deploy_with_failing_pull_creates_nothing() {
    let mut host = host();
    host.pull_fails = true;
    let outcome = run_deploy(&mut host, &deploy_cmd(8080, None, None));
    assert_eq!(
        outcome,
        Outcome::Failure(ErrorKind::PullFailed, "Download image error: pull access denied".to_string())
    );
    assert!(!asked_to_create_or_start(&host));
    assert_eq!(host.container, None);
    assert!(host.directories.is_empty());
}

#[test]
fn deploy_onto_a_taken_name_reports_the_collision() {
    let mut host = host();
    host.container = Some(old_instance("running"));
    let before = host.container.clone();
    let outcome = run_deploy(&mut host, &deploy_cmd(8080, None, None));
    assert_eq!(
        outcome,
        Outcome::Failure(
            ErrorKind::NameCollision,
            "Create ILLA Builder error: Conflict. The container name \"/illa_builder\" is already in use"
                .to_string()
        )
    );
    assert_eq!(host.container, before);
    assert!(!host.log.iter().any(|request| matches!(request, Request::Start { .. })));
}

#[test]
fn deploy_that_cannot_start_leaves_the_container_created() {
    let mut host = host();
    host.refuse_start = true;
    let outcome = run_deploy(&mut host, &deploy_cmd(8080, None, None));
    assert_eq!(
        outcome,
        Outcome::Failure(
            ErrorKind::StartFailed,
            "ILLA Builder was created but not started; remove it and deploy again. Start ILLA Builder error: port is already allocated"
                .to_string()
        )
    );
    assert_eq!(host.container.expect("left in place").state, "created");
    assert!(!host.log.iter().any(|request| matches!(request, Request::Remove { .. })));
}

#[test]
fn list_after_deploy_shows_the_running_instance() {
    let mut host = host();
    let outcome = run_deploy(&mut host, &deploy_cmd(8080, Some("1.4.0"), None));
    assert_eq!(outcome.exit_code(), 0);
    let (rows, outcome) = run_list(&mut host);
    assert_eq!(outcome, Outcome::Success(String::new()));
    assert_eq!(
        rows,
        vec![list::Row {
            id: "0123456789ab".to_string(),
            name: "/illa_builder".to_string(),
            image: "illasoft/illa-builder:1.4.0".to_string(),
            state: "running".to_string(),
        }]
    );
}

#[test]
fn list_twice_shows_the_same() {
    let mut host = host();
    host.container = Some(old_instance("exited"));
    let before = host.container.clone();
    let once = run_list(&mut host);
    let again = run_list(&mut host);
    assert_eq!(once, again);
    assert_eq!(once.0.len(), 1);
    assert_eq!(host.container, before);
}

#[test]
fn list_without_instance_is_empty_and_succeeds() {
    let mut host = host();
    let (rows, outcome) = run_list(&mut host);
    assert!(rows.is_empty());
    assert_eq!(outcome.exit_code(), 0);
    assert_eq!(host.log, vec![Request::Ping, Request::List { name: "illa_builder".to_string() }]);
}

#[test]
fn list_without_engine_fails_with_no_rows() {
    let mut host = host();
    host.reachable = false;
    host.container = Some(old_instance("running"));
    let (rows, outcome) = run_list(&mut host);
    assert!(rows.is_empty());
    assert_eq!(outcome.exit_code(), 1);
    assert_eq!(host.log, vec![Request::Ping]);
}

#[test]
fn update_keeps_mounts_and_ports_and_changes_the_tag() {
    let mut host = host();
    let old = old_instance("running");
    host.container = Some(old.clone());
    host.directories = vec!["/tmp/illa-data".to_string()];
    let outcome = run_update(&mut host);
    assert_eq!(
        outcome,
        Outcome::Success("ILLA Builder started, please visit http://localhost:9000".to_string())
    );
    let new = host.container.expect("the new instance exists");
    assert_eq!(new.state, "running");
    assert_eq!(new.config.mounts, old.config.mounts);
    assert_eq!(new.config.ports, old.config.ports);
    assert_eq!(new.config.env, old.config.env);
    assert_eq!(new.config.labels, old.config.labels);
    assert_eq!(new.config.image, "illasoft/illa-builder:latest");
    assert_eq!(host.directories, vec!["/tmp/illa-data".to_string()]);
    assert_eq!(host.pulled, vec!["illasoft/illa-builder:latest".to_string()]);
}

#[test]
fn update_pulls_before_it_removes() {
    let mut host = host();
    host.container = Some(old_instance("running"));
    host.pull_events = 1;
    run_update(&mut host);
    let name = || "illa_builder".to_string();
    assert_eq!(host.log.len(), 7);
    assert_eq!(host.log[0], Request::Ping);
    assert_eq!(host.log[1], Request::Inspect { name: name() });
    assert_eq!(host.log[2], Request::Pull { image: "illasoft/illa-builder:latest".to_string() });
    assert_eq!(host.log[3], Request::PullNext);
    assert_eq!(host.log[4], Request::Remove { name: name(), force: true });
    assert!(matches!(host.log[5], Request::Create { .. }));
    assert_eq!(host.log[6], Request::Start { name: name() });
}

#[test]
fn update_without_instance_changes_nothing() {
    let mut host = host();
    let outcome = run_update(&mut host);
    assert_eq!(
        outcome,
        Outcome::Failure(ErrorKind::NotFound, "No ILLA Builder found.".to_string())
    );
    assert_eq!(outcome.exit_code(), 1);
    assert_eq!(host.log, vec![Request::Ping, Request::Inspect { name: "illa_builder".to_string() }]);
    assert_eq!(host.container, None);
    assert!(host.pulled.is_empty());
}

#[test]
fn update_with_failing_pull_keeps_the_old_instance() {
    let mut host = host();
    let old = old_instance("running");
    host.container = Some(old.clone());
    host.pull_fails = true;
    let outcome = run_update(&mut host);
    assert_eq!(
        outcome,
        Outcome::Failure(ErrorKind::PullFailed, "Download image error: pull access denied".to_string())
    );
    assert_eq!(host.container, Some(old));
    assert!(!host.log.iter().any(|request| matches!(request, Request::Remove { .. })));
}

#[test]
fn update_that_cannot_remove_keeps_the_old_instance() {
    let mut host = host();
    let old = old_instance("running");
    host.container = Some(old.clone());
    host.refuse_remove = true;
    let outcome = run_update(&mut host);
    assert_eq!(
        outcome,
        Outcome::Failure(
            ErrorKind::RemoveFailed,
            "Try to remove ILLA Builder error: driver failed to remove root filesystem".to_string()
        )
    );
    assert_eq!(host.container, Some(old));
    assert!(!asked_to_create_or_start(&host));
}

#[test]
fn update_that_cannot_start_leaves_the_new_instance_created() {
    let mut host = host();
    host.container = Some(old_instance("running"));
    host.refuse_start = true;
    let outcome = run_update(&mut host);
    match &outcome {
        Outcome::Failure(ErrorKind::StartFailed, message) => {
            assert!(message.starts_with("The old ILLA Builder was removed and the new one created"));
            assert!(message.ends_with("Start ILLA Builder error: port is already allocated"));
        }
        other => panic!("expected a failed start, got {:?}", other),
    }
    let left = host.container.expect("the new instance exists");
    assert_eq!(left.state, "created");
    assert_eq!(left.config.image, "illasoft/illa-builder:latest");
}

#[test]
fn remove_by_force_with_data_deletes_the_directory_afterwards() {
    let mut host = host();
    host.container = Some(old_instance("exited"));
    host.directories = vec!["/tmp/illa-data".to_string(), "/tmp/other".to_string()];
    let outcome = run_remove(&mut host, true, true);
    assert_eq!(outcome, Outcome::Success("Successfully remove the ILLA Builder.".to_string()));
    assert_eq!(outcome.exit_code(), 0);
    assert_eq!(host.container, None);
    assert_eq!(host.directories, vec!["/tmp/other".to_string()]);
    let name = || "illa_builder".to_string();
    assert_eq!(
        host.log,
        vec![
            Request::Ping,
            Request::Inspect { name: name() },
            Request::Remove { name: name(), force: true },
            Request::DeleteData { path: "/tmp/illa-data".to_string() },
        ]
    );
}

#[test]
fn remove_that_fails_keeps_the_data() {
    let mut host = host();
    host.container = Some(old_instance("running"));
    host.directories = vec!["/tmp/illa-data".to_string()];
    let outcome = run_remove(&mut host, false, true);
    assert_eq!(
        outcome,
        Outcome::Failure(
            ErrorKind::RemoveFailed,
            "Try to remove ILLA Builder error: You cannot remove a running container".to_string()
        )
    );
    assert_eq!(host.directories, vec!["/tmp/illa-data".to_string()]);
    assert!(host.container.is_some());
    assert!(!host.log.iter().any(|request| matches!(request, Request::DeleteData { .. })));
}

#[test]
fn remove_without_data_leaves_the_directory() {
    let mut host = host();
    host.container = Some(old_instance("exited"));
    host.directories = vec!["/tmp/illa-data".to_string()];
    let outcome = run_remove(&mut host, false, false);
    assert_eq!(outcome.exit_code(), 0);
    assert_eq!(host.container, None);
    assert_eq!(host.directories, vec!["/tmp/illa-data".to_string()]);
    assert_eq!(
        host.log,
        vec![Request::Ping, Request::Remove { name: "illa_builder".to_string(), force: false }]
    );
}

#[test]
fn remove_with_data_without_instance_is_not_found() {
    let mut host = host();
    host.directories = vec!["/tmp/illa-data".to_string()];
    let outcome = run_remove(&mut host, true, true);
    assert_eq!(
        outcome,
        Outcome::Failure(ErrorKind::NotFound, "No ILLA Builder found.".to_string())
    );
    assert_eq!(host.directories, vec!["/tmp/illa-data".to_string()]);
}

#[test]
fn remove_without_instance_is_not_found() {
    let mut host = host();
    let outcome = run_remove(&mut host, false, false);
    assert_eq!(
        outcome,
        Outcome::Failure(
            ErrorKind::NotFound,
            "Try to remove ILLA Builder error: No such container: illa_builder".to_string()
        )
    );
}

#[test]
fn stop_asks_for_thirty_seconds() {
    let mut host = host();
    host.container = Some(old_instance("running"));
    let outcome = run_stop(&mut host);
    assert_eq!(outcome, Outcome::Success("Successfully stop the ILLA Builder.".to_string()));
    assert_eq!(
        host.log,
        vec![Request::Ping, Request::Stop { name: "illa_builder".to_string(), timeout: 30 }]
    );
    assert_eq!(host.container.expect("still there").state, "exited");
}

#[test]
fn stop_without_instance_is_not_found() {
    let mut host = host();
    let outcome = run_stop(&mut host);
    assert_eq!(
        outcome,
        Outcome::Failure(
            ErrorKind::NotFound,
            "Try to stop ILLA Builder error: No such container: illa_builder".to_string()
        )
    );
    assert_eq!(outcome.exit_code(), 1);
}

#[test]
fn restart_asks_for_thirty_seconds() {
    let mut host = host();
    host.container = Some(old_instance("exited"));
    let outcome = run_restart(&mut host);
    assert_eq!(outcome, Outcome::Success("Successfully restart the ILLA Builder.".to_string()));
    assert_eq!(
        host.log,
        vec![Request::Ping, Request::Restart { name: "illa_builder".to_string(), timeout: 30 }]
    );
    assert_eq!(host.container.expect("still there").state, "running");
}

#[test]
fn restart_without_engine_is_unavailable() {
    let mut host = host();
    host.reachable = false;
    host.container = Some(old_instance("exited"));
    let outcome = run_restart(&mut host);
    assert_eq!(
        outcome,
        Outcome::Failure(
            ErrorKind::EngineUnavailable,
            "No running docker found. Please check the status of docker.".to_string()
        )
    );
    assert_eq!(host.log, vec![Request::Ping]);
}
