//! Configuration synthesis: the container specification that a deploy or an
//! update asks the engine to create.

use crate::image::{image_reference, reference_to, repository, retagged, ILLA_BUILDER_IMAGE};
use crate::text::{decimal, decimal_string, join, same};
use vstd::prelude::*;

verus! {

/// The one name under which the instance is known to the engine.
pub const INSTANCE_NAME: &'static str = "illa_builder";

/// Container-side port of the application, as the engine keys it.
pub const APPLICATION_PORT: &'static str = "80/tcp";

/// Host address that published ports bind to.
pub const HOST_ADDRESS: &'static str = "0.0.0.0";

/// Container-side directory that holds the persistent data.
pub const DATA_DIRECTORY: &'static str = "/opt/illa/database";

/// The views of the elements of `items`, in order.
pub open spec fn views<T: View>(items: Seq<T>) -> Seq<T::V> {
    items.map_values(|item: T| item@)
}

/// A bind mount of a host directory into the container.
#[derive(Debug, PartialEq, Eq)]
pub struct Mount {
    pub source: String,
    pub target: String,
    pub read_only: bool,
}

pub struct MountView {
    pub source: Seq<char>,
    pub target: Seq<char>,
    pub read_only: bool,
}

impl View for Mount {
    type V = MountView;

    open spec fn view(&self) -> MountView {
        MountView { source: self.source@, target: self.target@, read_only: self.read_only }
    }
}

impl Clone for Mount {
    fn clone(&self) -> (copy: Self)
        ensures
            copy@ == self@,
    {
        Mount {
            source: self.source.clone(),
            target: self.target.clone(),
            read_only: self.read_only,
        }
    }
}

/// A published port: where on the host a container-side port is reachable.
#[derive(Debug, PartialEq, Eq)]
pub struct PortBinding {
    /// Container-side port and protocol, such as `80/tcp`.
    pub container_port: String,
    pub host_ip: String,
    pub host_port: String,
}

pub struct PortBindingView {
    pub container_port: Seq<char>,
    pub host_ip: Seq<char>,
    pub host_port: Seq<char>,
}

impl View for PortBinding {
    type V = PortBindingView;

    open spec fn view(&self) -> PortBindingView {
        PortBindingView {
            container_port: self.container_port@,
            host_ip: self.host_ip@,
            host_port: self.host_port@,
        }
    }
}

impl Clone for PortBinding {
    fn clone(&self) -> (copy: Self)
        ensures
            copy@ == self@,
    {
        PortBinding {
            container_port: self.container_port.clone(),
            host_ip: self.host_ip.clone(),
            host_port: self.host_port.clone(),
        }
    }
}

/// One entry of the label map.
#[derive(Debug, PartialEq, Eq)]
pub struct Label {
    pub key: String,
    pub value: String,
}

pub struct LabelView {
    pub key: Seq<char>,
    pub value: Seq<char>,
}

impl View for Label {
    type V = LabelView;

    open spec fn view(&self) -> LabelView {
        LabelView { key: self.key@, value: self.value@ }
    }
}

impl Clone for Label {
    fn clone(&self) -> (copy: Self)
        ensures
            copy@ == self@,
    {
        Label { key: self.key.clone(), value: self.value.clone() }
    }
}

/// A container specification, desired or observed.
///
/// The environment keeps the order in which its entries were given. Labels and
/// port bindings are maps written as lists of entries.
#[derive(Debug, PartialEq, Eq)]
pub struct ContainerConfig {
    /// Image reference: repository, then `:` and the version tag.
    pub image: String,
    /// Environment entries, each `NAME=value`.
    pub env: Vec<String>,
    pub labels: Vec<Label>,
    pub ports: Vec<PortBinding>,
    pub mounts: Vec<Mount>,
}

pub struct ConfigView {
    pub image: Seq<char>,
    pub env: Seq<Seq<char>>,
    pub labels: Seq<LabelView>,
    pub ports: Seq<PortBindingView>,
    pub mounts: Seq<MountView>,
}

impl ConfigView {
    /// Whether the labels and the port bindings are maps: no label key and no
    /// container-side port occurs twice.
    pub open spec fn well_formed(self) -> bool {
        &&& forall|i: int, j: int|
            0 <= i < j < self.labels.len() ==> self.labels[i].key != self.labels[j].key
        &&& forall|i: int, j: int|
            0 <= i < j < self.ports.len() ==> self.ports[i].container_port
                != self.ports[j].container_port
    }
}

impl View for ContainerConfig {
    type V = ConfigView;

    open spec fn view(&self) -> ConfigView {
        ConfigView {
            image: self.image@,
            env: views(self.env@),
            labels: views(self.labels@),
            ports: views(self.ports@),
            mounts: views(self.mounts@),
        }
    }
}

impl Clone for ContainerConfig {
    fn clone(&self) -> (copy: Self)
        ensures
            copy@ == self@,
    {
        let copy = ContainerConfig {
            image: self.image.clone(),
            env: self.env.clone(),
            labels: self.labels.clone(),
            ports: self.ports.clone(),
            mounts: self.mounts.clone(),
        };
        proof {
            assert(copy@.env =~= self@.env);
            assert(copy@.labels =~= self@.labels);
            assert(copy@.ports =~= self@.ports);
            assert(copy@.mounts =~= self@.mounts);
        }
        copy
    }
}

/// What a deploy is asked to set up, every choice resolved.
#[derive(Debug, PartialEq, Eq)]
pub struct DeployOptions {
    /// Version tag of the image.
    pub version: String,
    /// Host port on which the application is published.
    pub port: u16,
    /// Host directory that holds the persistent data.
    pub mount: String,
    /// Secret of the instance's datastore.
    pub secret: String,
}

pub struct DeployOptionsView {
    pub version: Seq<char>,
    pub port: u16,
    pub mount: Seq<char>,
    pub secret: Seq<char>,
}

impl View for DeployOptions {
    type V = DeployOptionsView;

    open spec fn view(&self) -> DeployOptionsView {
        DeployOptionsView {
            version: self.version@,
            port: self.port,
            mount: self.mount@,
            secret: self.secret@,
        }
    }
}

impl DeployOptionsView {
    /// The image that these options ask for.
    pub open spec fn image(self) -> Seq<char> {
        image_reference(ILLA_BUILDER_IMAGE@, self.version)
    }
}

impl DeployOptions {
    /// The image that these options ask for.
    pub fn image(&self) -> (reference: String)
        ensures
            reference@ == self@.image(),
    {
        reference_to(ILLA_BUILDER_IMAGE, self.version.as_str())
    }
}

/// The environment of a fresh instance: release mode, self-hosted, and the
/// datastore secret.
pub open spec fn deploy_environment(secret: Seq<char>) -> Seq<Seq<char>> {
    seq![
        "ILLA_SERVER_MODE=release"@,
        "ILLA_DEPLOY_MODE=self-host"@,
        "POSTGRES_PASSWORD="@ + secret,
    ]
}

/// The labels that every instance carries.
pub open spec fn standard_labels() -> Seq<LabelView> {
    seq![
        LabelView { key: "maintainer"@, value: "opensource@illasoft.com"@ },
        LabelView { key: "license"@, value: "Apache-2.0"@ },
    ]
}

/// The configuration that a deploy with `options` asks the engine to create.
pub open spec fn deploy_config(options: DeployOptionsView) -> ConfigView {
    ConfigView {
        image: options.image(),
        env: deploy_environment(options.secret),
        labels: standard_labels(),
        ports: seq![
            PortBindingView {
                container_port: APPLICATION_PORT@,
                host_ip: HOST_ADDRESS@,
                host_port: decimal(options.port as nat),
            },
        ],
        mounts: seq![
            MountView { source: options.mount, target: DATA_DIRECTORY@, read_only: false },
        ],
    }
}

/// The configuration of a fresh instance names no label and no port twice.
pub proof fn lemma_deploy_config_well_formed(options: DeployOptionsView)
    ensures
        deploy_config(options).well_formed(),
{
    reveal_strlit("maintainer");
    reveal_strlit("license");
    assert("maintainer"@.len() != "license"@.len());
}

/// Synthesizes the configuration of a fresh instance: the managed image at
/// the chosen version, the standard environment and labels, the application
/// port published on the chosen host port, and the data directory mounted
/// read-write from the chosen host directory.
pub fn build_for_deploy(options: &DeployOptions) -> (config: ContainerConfig)
    ensures
        config@ == deploy_config(options@),
        config@.well_formed(),
{
    proof {
        lemma_deploy_config_well_formed(options@);
    }
    let env = vec![
        String::from_str("ILLA_SERVER_MODE=release"),
        String::from_str("ILLA_DEPLOY_MODE=self-host"),
        join("POSTGRES_PASSWORD=", options.secret.as_str()),
    ];
    let labels = vec![
        Label {
            key: String::from_str("maintainer"),
            value: String::from_str("opensource@illasoft.com"),
        },
        Label { key: String::from_str("license"), value: String::from_str("Apache-2.0") },
    ];
    let ports = vec![
        PortBinding {
            container_port: String::from_str(APPLICATION_PORT),
            host_ip: String::from_str(HOST_ADDRESS),
            host_port: decimal_string(options.port),
        },
    ];
    let mounts = vec![
        Mount {
            source: options.mount.clone(),
            target: String::from_str(DATA_DIRECTORY),
            read_only: false,
        },
    ];
    let config = ContainerConfig { image: options.image(), env, labels, ports, mounts };
    proof {
        let want = deploy_config(options@);
        assert(config@.env =~= want.env);
        assert(config@.labels =~= want.labels);
        assert(config@.ports =~= want.ports);
        assert(config@.mounts =~= want.mounts);
    }
    config
}

/// The configuration that replaces `observed` on an update to version `tag`:
/// the same but for the image's version.
pub open spec fn update_config(observed: ConfigView, tag: Seq<char>) -> ConfigView {
    ConfigView { image: retagged(observed.image, tag), ..observed }
}

/// The configuration that replaces a well-formed one is well-formed.
pub proof fn lemma_update_config_well_formed(observed: ConfigView, tag: Seq<char>)
    requires
        observed.well_formed(),
    ensures
        update_config(observed, tag).well_formed(),
{
    let config = update_config(observed, tag);
    assert(config.labels == observed.labels);
    assert(config.ports == observed.ports);
}

/// Synthesizes the configuration of the instance that replaces the observed
/// one: environment, labels, port bindings and mounts are taken over as they
/// are, and only the version of the image changes.
pub fn build_for_update(observed: &ContainerConfig, tag: &str) -> (config: ContainerConfig)
    ensures
        config@ == update_config(observed@, tag@),
        observed@.well_formed() ==> config@.well_formed(),
{
    let name = repository(observed.image.as_str());
    let config = ContainerConfig {
        image: reference_to(name.as_str(), tag),
        env: observed.env.clone(),
        labels: observed.labels.clone(),
        ports: observed.ports.clone(),
        mounts: observed.mounts.clone(),
    };
    proof {
        assert(config@.env =~= observed@.env);
        assert(config@.labels =~= observed@.labels);
        assert(config@.ports =~= observed@.ports);
        assert(config@.mounts =~= observed@.mounts);
        if observed@.well_formed() {
            lemma_update_config_well_formed(observed@, tag@);
        }
    }
    config
}

/// Whether `i` is the first binding of `ports` for the container-side port
/// `key`.
pub open spec fn is_first_binding(ports: Seq<PortBindingView>, key: Seq<char>, i: int) -> bool {
    &&& 0 <= i < ports.len()
    &&& ports[i].container_port == key
    &&& forall|j: int| 0 <= j < i ==> ports[j].container_port != key
}

/// The host port on which `ports` publish the container-side port `key`: that
/// of the first binding for it, if there is one.
pub open spec fn published_port(ports: Seq<PortBindingView>, key: Seq<char>) -> Option<
    Seq<char>,
> {
    if exists|i: int| is_first_binding(ports, key, i) {
        Some(ports[choose|i: int| is_first_binding(ports, key, i)].host_port)
    } else {
        None
    }
}

/// The host directory that holds the persistent data of an instance with
/// these mounts: the source of the first mount, if there is one.
pub open spec fn data_source(mounts: Seq<MountView>) -> Option<Seq<char>> {
    if mounts.len() > 0 {
        Some(mounts[0].source)
    } else {
        None
    }
}

impl ContainerConfig {
    /// The host port on which the container-side port `key` is published.
    pub fn published_port(&self, key: &str) -> (port: Option<String>)
        ensures
            match port {
                Some(p) => published_port(self@.ports, key@) == Some(p@),
                None => published_port(self@.ports, key@) is None,
            },
    {
        let mut i: usize = 0;
        while i < self.ports.len()
            invariant
                i <= self.ports.len(),
                forall|j: int| 0 <= j < i ==> self@.ports[j].container_port != key@,
            decreases self.ports.len() - i,
        {
            if same(self.ports[i].container_port.as_str(), key) {
                proof {
                    assert(is_first_binding(self@.ports, key@, i as int));
                    let chosen = choose|k: int| is_first_binding(self@.ports, key@, k);
                    assert(chosen == i);
                }
                return Some(self.ports[i].host_port.clone());
            }
            i += 1;
        }
        None
    }

    /// The host directory that holds the persistent data.
    pub fn data_source(&self) -> (source: Option<String>)
        ensures
            match source {
                Some(s) => data_source(self@.mounts) == Some(s@),
                None => data_source(self@.mounts) is None,
            },
    {
        if self.mounts.len() > 0 {
            Some(self.mounts[0].source.clone())
        } else {
            None
        }
    }
}

} // verus!
