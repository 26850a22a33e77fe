//! The creation request for a container: what is handed to the runtime.

use crate::naming::{
    container_name, container_port_key, host_ip, owner_env, port_env, project_container_name,
    spec_container_name, spec_container_port_key, spec_host_ip, spec_owner_env, spec_port_env,
    spec_project_container_name, spec_storage_bind, storage_bind,
};
use crate::tier::ResourceTier;
use vstd::prelude::*;
use vstd::string::*;

verus! {

/// The one port that a container publishes on the host.
#[derive(Debug, Clone)]
pub struct PortBinding {
    /// Port and protocol inside the container, as the runtime spells it.
    pub container_port: String,
    /// Host address to bind.
    pub host_ip: String,
    /// Host port to bind.
    pub host_port: u16,
}

/// A port binding as plain values.
pub struct PortBindingView {
    pub container_port: Seq<char>,
    pub host_ip: Seq<char>,
    pub host_port: u16,
}

impl View for PortBinding {
    type V = PortBindingView;

    open spec fn view(&self) -> PortBindingView {
        PortBindingView {
            container_port: self.container_port@,
            host_ip: self.host_ip@,
            host_port: self.host_port,
        }
    }
}

/// Everything the runtime is told when a container is created.
#[derive(Debug, Clone)]
pub struct ContainerSpec {
    /// Image reference.
    pub image: String,
    /// Container name, by which the container is found again. The runtime
    /// refuses a second container of the same name, so a service never has
    /// two.
    pub name: Option<String>,
    /// Command; empty for the image's own.
    pub cmd: Vec<String>,
    /// Environment entries, each `KEY=value`.
    pub env: Vec<String>,
    /// The published port.
    pub port_binding: PortBinding,
    /// Bind entries.
    pub binds: Vec<String>,
}

/// A creation request as plain values.
pub struct ContainerSpecView {
    pub image: Seq<char>,
    pub name: Option<Seq<char>>,
    pub cmd: Seq<Seq<char>>,
    pub env: Seq<Seq<char>>,
    pub port_binding: PortBindingView,
    pub binds: Seq<Seq<char>>,
}

impl View for ContainerSpec {
    type V = ContainerSpecView;

    open spec fn view(&self) -> ContainerSpecView {
        ContainerSpecView {
            image: self.image@,
            name: match self.name {
                Some(name) => Some(name@),
                None => None,
            },
            cmd: self.cmd.deep_view(),
            env: self.env.deep_view(),
            port_binding: self.port_binding@,
            binds: self.binds.deep_view(),
        }
    }
}

/// The binding of the workload's port to `host_port` on every host address.
pub open spec fn spec_published_port(host_port: u16) -> PortBindingView {
    PortBindingView {
        container_port: spec_container_port_key(),
        host_ip: spec_host_ip(),
        host_port,
    }
}

/// The environment of every workload: its owner and its listen port.
pub open spec fn spec_environment(owner_public_key: Seq<char>) -> Seq<Seq<char>> {
    seq![spec_owner_env(owner_public_key), spec_port_env()]
}

/// The creation request of workspace `service_id`, before any data directory
/// is bound.
pub open spec fn spec_workspace_spec(
    service_id: u64,
    owner_public_key: Seq<char>,
    host_port: u16,
) -> ContainerSpecView {
    ContainerSpecView {
        image: "tangle-mcp:0.1.0"@,
        name: Some(spec_container_name(service_id)),
        cmd: Seq::empty(),
        env: spec_environment(owner_public_key),
        port_binding: spec_published_port(host_port),
        binds: Seq::empty(),
    }
}

/// The creation request of project `service_id` of the given tier.
pub open spec fn spec_project_spec(
    service_id: Seq<char>,
    owner_public_key: Seq<char>,
    tier: ResourceTier,
    host_port: u16,
) -> ContainerSpecView {
    ContainerSpecView {
        image: "mcp-server:latest"@,
        name: Some(spec_project_container_name(service_id)),
        cmd: seq!["serve"@],
        env: spec_environment(owner_public_key),
        port_binding: spec_published_port(host_port),
        binds: seq![spec_storage_bind(tier.spec_storage_limit() as u64)],
    }
}

/// A vector that holds exactly `text`.
pub(crate) fn single(text: String) -> (texts: Vec<String>)
    ensures
        texts.deep_view() == seq![text@],
{
    let mut texts: Vec<String> = Vec::new();
    texts.push(text);
    assert(texts.deep_view() =~= seq![text@]);
    texts
}

/// The binding of the workload's port to `host_port`.
pub fn published_port(host_port: u16) -> (binding: PortBinding)
    ensures
        binding@ == spec_published_port(host_port),
{
    PortBinding { container_port: container_port_key(), host_ip: host_ip(), host_port }
}

/// The environment of a workload owned by `owner_public_key`.
pub fn environment(owner_public_key: &str) -> (env: Vec<String>)
    ensures
        env.deep_view() == spec_environment(owner_public_key@),
{
    let mut env: Vec<String> = Vec::new();
    env.push(owner_env(owner_public_key));
    env.push(port_env());
    assert(env.deep_view() =~= spec_environment(owner_public_key@));
    env
}

/// The creation request of workspace `service_id`, published on `host_port`.
pub fn workspace_spec(
    service_id: u64,
    owner_public_key: &str,
    host_port: u16,
) -> (spec: ContainerSpec)
    ensures
        spec@ == spec_workspace_spec(service_id, owner_public_key@, host_port),
{
    let cmd: Vec<String> = Vec::new();
    let binds: Vec<String> = Vec::new();
    assert(cmd.deep_view() =~= Seq::<Seq<char>>::empty());
    assert(binds.deep_view() =~= Seq::<Seq<char>>::empty());
    ContainerSpec {
        image: String::from_str("tangle-mcp:0.1.0"),
        name: Some(container_name(service_id)),
        cmd,
        env: environment(owner_public_key),
        port_binding: published_port(host_port),
        binds,
    }
}

/// The creation request of project `service_id` of the given tier,
/// published on `host_port`.
pub fn project_spec(
    service_id: &str,
    owner_public_key: &str,
    tier: ResourceTier,
    host_port: u16,
) -> (spec: ContainerSpec)
    ensures
        spec@ == spec_project_spec(service_id@, owner_public_key@, tier, host_port),
{
    ContainerSpec {
        image: String::from_str("mcp-server:latest"),
        name: Some(project_container_name(service_id)),
        cmd: single(String::from_str("serve")),
        env: environment(owner_public_key),
        port_binding: published_port(host_port),
        binds: single(storage_bind(tier.storage_limit())),
    }
}

} // verus!
