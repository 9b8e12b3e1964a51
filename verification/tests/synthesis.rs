use illa::command::deploy::Cmd;
use illa::config::{
    build_for_deploy, build_for_update, ContainerConfig, DeployOptions, Label, Mount,
    PortBinding, APPLICATION_PORT, DATA_DIRECTORY, HOST_ADDRESS, INSTANCE_NAME,
};
use illa::image::{
    reference_to, repository, tag, ILLA_BUILDER_IMAGE, ILLA_BUILDER_VERSION,
};
use illa::text::{decimal_string, join, same};

fn options() -> DeployOptions {
    DeployOptions {
        version: "1.2.3".to_string(),
        port: 8080,
        mount: "/srv/illa".to_string(),
        secret: "67e55044-10b1-426f-9247-bb680e5fe0c8".to_string(),
    }
}

fn observed() -> ContainerConfig {
    ContainerConfig {
        image: "registry.example.com:5000/illasoft/illa-builder:1.0.0".to_string(),
        env: vec!["B=2".to_string(), "A=1".to_string(), "B=3".to_string()],
        labels: vec![
            Label { key: "maintainer".to_string(), value: "someone".to_string() },
            Label { key: "custom".to_string(), value: "x".to_string() },
        ],
        ports: vec![
            PortBinding {
                container_port: "5432/tcp".to_string(),
                host_ip: "127.0.0.1".to_string(),
                host_port: "5432".to_string(),
            },
            PortBinding {
                container_port: "80/tcp".to_string(),
                host_ip: "0.0.0.0".to_string(),
                host_port: "8888".to_string(),
            },
            PortBinding {
                container_port: "80/tcp".to_string(),
                host_ip: "0.0.0.0".to_string(),
                host_port: "9999".to_string(),
            },
        ],
        mounts: vec![
            Mount {
                source: "/tmp/illa-data".to_string(),
                target: "/opt/illa/database".to_string(),
                read_only: false,
            },
            Mount { source: "/etc/ssl".to_string(), target: "/ssl".to_string(), read_only: true },
        ],
    }
}

#[test]
fn constants_are_the_documented_ones() {
    assert_eq!(INSTANCE_NAME, "illa_builder");
    assert_eq!(ILLA_BUILDER_IMAGE, "illasoft/illa-builder");
    assert_eq!(ILLA_BUILDER_VERSION, "latest");
    assert_eq!(APPLICATION_PORT, "80/tcp");
    assert_eq!(HOST_ADDRESS, "0.0.0.0");
    assert_eq!(DATA_DIRECTORY, "/opt/illa/database");
}

#[test]
fn decimal_of_small_and_large_numbers() {
    assert_eq!(decimal_string(0), "0");
    assert_eq!(decimal_string(7), "7");
    assert_eq!(decimal_string(9), "9");
    assert_eq!(decimal_string(10), "10");
    assert_eq!(decimal_string(80), "80");
    assert_eq!(decimal_string(101), "101");
    assert_eq!(decimal_string(8080), "8080");
    assert_eq!(decimal_string(10000), "10000");
    assert_eq!(decimal_string(65535), "65535");
}

#[test]
fn decimal_agrees_with_the_standard_rendering() {
    let mut n: u32 = 0;
    while n <= 65535 {
        assert_eq!(decimal_string(n as u16), n.to_string());
        n += 1;
    }
}

#[test]
fn join_and_same() {
    assert_eq!(join("ab", "cd"), "abcd");
    assert_eq!(join("", ""), "");
    assert!(same("80/tcp", "80/tcp"));
    assert!(!same("80/tcp", "80/udp"));
    assert!(!same("80/tcp", "80/tc"));
    assert!(same("é", "é"));
}

#[test]
fn reference_splits_at_the_tag() {
    assert_eq!(repository("illasoft/illa-builder:1.2.3"), "illasoft/illa-builder");
    assert_eq!(tag("illasoft/illa-builder:1.2.3"), "1.2.3");
    assert_eq!(repository("illa:latest"), "illa");
    assert_eq!(tag("illa:latest"), "latest");
}

#[test]
fn reference_without_tag_has_the_default_one() {
    assert_eq!(repository("illasoft/illa-builder"), "illasoft/illa-builder");
    assert_eq!(tag("illasoft/illa-builder"), "latest");
    assert_eq!(repository(""), "");
    assert_eq!(tag(""), "latest");
}

#[test]
fn reference_with_a_registry_port_is_not_cut_at_the_port() {
    assert_eq!(repository("localhost:5000/illa"), "localhost:5000/illa");
    assert_eq!(tag("localhost:5000/illa"), "latest");
    assert_eq!(repository("localhost:5000/illa:2.0"), "localhost:5000/illa");
    assert_eq!(tag("localhost:5000/illa:2.0"), "2.0");
}

#[test]
fn reference_with_an_empty_tag() {
    assert_eq!(repository("illa:"), "illa");
    assert_eq!(tag("illa:"), "");
    assert_eq!(repository(":x"), "");
    assert_eq!(tag(":x"), "x");
}

#[test]
fn reference_counts_characters_not_bytes() {
    assert_eq!(repository("dépôt/ïlla:één"), "dépôt/ïlla");
    assert_eq!(tag("dépôt/ïlla:één"), "één");
}

#[test]
fn reference_round_trip() {
    let reference = reference_to("illasoft/illa-builder", "1.9.0");
    assert_eq!(reference, "illasoft/illa-builder:1.9.0");
    assert_eq!(repository(&reference), "illasoft/illa-builder");
    assert_eq!(tag(&reference), "1.9.0");
}

#[test]
fn deploy_configuration_in_full() {
    let config = build_for_deploy(&options());
    assert_eq!(
        config,
        ContainerConfig {
            image: "illasoft/illa-builder:1.2.3".to_string(),
            env: vec![
                "ILLA_SERVER_MODE=release".to_string(),
                "ILLA_DEPLOY_MODE=self-host".to_string(),
                "POSTGRES_PASSWORD=67e55044-10b1-426f-9247-bb680e5fe0c8".to_string(),
            ],
            labels: vec![
                Label {
                    key: "maintainer".to_string(),
                    value: "opensource@illasoft.com".to_string()
                },
                Label { key: "license".to_string(), value: "Apache-2.0".to_string() },
            ],
            ports: vec![PortBinding {
                container_port: "80/tcp".to_string(),
                host_ip: "0.0.0.0".to_string(),
                host_port: "8080".to_string(),
            }],
            mounts: vec![Mount {
                source: "/srv/illa".to_string(),
                target: "/opt/illa/database".to_string(),
                read_only: false,
            }],
        }
    );
}

#[test]
fn deploy_image_of_options() {
    assert_eq!(options().image(), "illasoft/illa-builder:1.2.3");
}

#[test]
fn update_configuration_changes_the_tag_alone() {
    let old = observed();
    let new = build_for_update(&old, "latest");
    assert_eq!(new.image, "registry.example.com:5000/illasoft/illa-builder:latest");
    assert_eq!(new.env, old.env);
    assert_eq!(new.labels, old.labels);
    assert_eq!(new.ports, old.ports);
    assert_eq!(new.mounts, old.mounts);
}

#[test]
fn update_configuration_of_an_untagged_image() {
    let mut old = observed();
    old.image = "illasoft/illa-builder".to_string();
    assert_eq!(build_for_update(&old, "2.0.0").image, "illasoft/illa-builder:2.0.0");
}

#[test]
fn published_port_is_that_of_the_first_binding() {
    let config = observed();
    assert_eq!(config.published_port("80/tcp"), Some("8888".to_string()));
    assert_eq!(config.published_port("5432/tcp"), Some("5432".to_string()));
    assert_eq!(config.published_port("443/tcp"), None);
    assert_eq!(config.published_port("80"), None);
}

#[test]
fn data_source_is_that_of_the_first_mount() {
    let mut config = observed();
    assert_eq!(config.data_source(), Some("/tmp/illa-data".to_string()));
    config.mounts.clear();
    assert_eq!(config.data_source(), None);
}

#[test]
fn clone_of_a_configuration_is_equal() {
    let config = observed();
    assert_eq!(config.clone(), config);
}

#[test]
fn resolve_takes_the_defaults() {
    let cmd = Cmd { self_host: true, cloud: false, builder_version: None, port: 80, mount_path: None };
    assert_eq!(
        cmd.resolve("/tmp/illa-builder", "s3cret".to_string()),
        DeployOptions {
            version: "latest".to_string(),
            port: 80,
            mount: "/tmp/illa-builder".to_string(),
            secret: "s3cret".to_string(),
        }
    );
}

#[test]
fn resolve_takes_what_was_given() {
    let cmd = Cmd {
        self_host: true,
        cloud: false,
        builder_version: Some("1.2.3".to_string()),
        port: 8080,
        mount_path: Some("/srv/illa".to_string()),
    };
    assert_eq!(
        cmd.resolve("/tmp/illa-builder", "s3cret".to_string()),
        DeployOptions {
            version: "1.2.3".to_string(),
            port: 8080,
            mount: "/srv/illa".to_string(),
            secret: "s3cret".to_string(),
        }
    );
}

fn is_secret(secret: &str) -> bool {
    let chars: Vec<char> = secret.chars().collect();
    chars.len() == 36
        && chars.iter().enumerate().all(|(i, c)| {
            if i == 8 || i == 13 || i == 18 || i == 23 {
                *c == '-'
            } else {
                matches!(c, '0'..='9' | 'a'..='f')
            }
        })
}

#[test]
fn options_draw_a_fresh_secret() {
    let cmd = Cmd { self_host: true, cloud: false, builder_version: None, port: 80, mount_path: None };
    let first = cmd.options("/tmp/illa-builder");
    let second = cmd.options("/tmp/illa-builder");
    assert!(is_secret(&first.secret), "{}", first.secret);
    assert!(is_secret(&second.secret), "{}", second.secret);
    assert_ne!(first.secret, second.secret);
    assert_eq!(first.version, "latest");
    assert_eq!(first.port, 80);
    assert_eq!(first.mount, "/tmp/illa-builder");
    assert_eq!(first, cmd.resolve("/tmp/illa-builder", first.secret.clone()));
}

#[test]
fn secret_ends_up_in_the_environment() {
    let cmd = Cmd { self_host: true, cloud: false, builder_version: None, port: 80, mount_path: None };
    let options = cmd.options("/tmp/illa-builder");
    let config = build_for_deploy(&options);
    assert_eq!(config.env[2], format!("POSTGRES_PASSWORD={}", options.secret));
}
