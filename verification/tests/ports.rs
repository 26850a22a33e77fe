use tangle_mcp_blueprint::port::{sample_port, PUBLISHED_PORT_END, PUBLISHED_PORT_MIN};
use tangle_mcp_blueprint::provision::ManagedContainer;
use tangle_mcp_blueprint::request::{CreateProjectParams, CreateWorkspaceParams, MyContext};
use tangle_mcp_blueprint::tier::ResourceTier;

#[test]
fn the_port_ranges_are_as_documented() {
    assert_eq!(PUBLISHED_PORT_MIN, 10000);
    assert_eq!(PUBLISHED_PORT_END, 20000);
}

#[test]
fn sampled_ports_lie_in_the_workspace_range() {
    for _ in 0..500 {
        let port = sample_port();
        assert!((10000..20000).contains(&port));
    }
}

#[test]
fn sampled_ports_vary() {
    let first = sample_port();
    let varied = (0..200).any(|_| sample_port() != first);
    assert!(varied);
}

#[test]
fn a_workspace_is_planned_on_a_sampled_port() {
    let ctx = MyContext::new(None);
    let params = CreateWorkspaceParams {
        owner_public_key: "5F3s".to_string(),
        tier: ResourceTier::Medium,
        workspace_name: "demo".to_string(),
    };
    let mut seen = Vec::new();
    for _ in 0..100 {
        let container = ManagedContainer::workspace(&ctx, 42, &params);
        assert!((10000..20000).contains(&container.port()));
        assert_eq!(container.container_spec().port_binding.host_port, container.port());
        seen.push(container.port());
    }
    seen.dedup();
    assert!(seen.len() > 1);
}

#[test]
fn a_project_is_planned_on_a_sampled_port() {
    let params = CreateProjectParams {
        owner_public_key: "test_key".to_string(),
        tier: ResourceTier::Small,
    };
    let mut seen = Vec::new();
    for _ in 0..100 {
        let container = ManagedContainer::project("abc", &params);
        assert!((10000..20000).contains(&container.port()));
        assert_eq!(container.container_spec().port_binding.host_port, container.port());
        seen.push(container.port());
    }
    seen.dedup();
    assert!(seen.len() > 1);
}
