use tangle_mcp_blueprint::container::{project_spec, workspace_spec};
use tangle_mcp_blueprint::destroy::{
    has_name, is_listed, removal_targets, ContainerSummary, Teardown, TeardownAction,
    TeardownEvent, TeardownPhase,
};
use tangle_mcp_blueprint::error::LifecycleError;
use tangle_mcp_blueprint::health::{
    HealthState, HealthVerdict, Inspection, RunState, HEALTH_TIMEOUT_MS, POLL_INTERVAL_MS,
};
use tangle_mcp_blueprint::provision::{
    ManagedContainer, ProvisionAction, ProvisionEvent, ProvisionPhase,
};
use tangle_mcp_blueprint::request::{
    CreateProjectParams, CreateWorkspaceParams, DestroyProjectParams, MyContext,
};
use tangle_mcp_blueprint::tier::ResourceTier;

/// A container runtime, a clock and a filesystem that live in memory.
struct FakeRuntime {
    next_id: u64,
    inventory: Vec<ContainerSummary>,
    /// What the inspections report, one after the other; the last one is
    /// repeated once they are used up.
    reports: Vec<Inspection>,
    inspections: usize,
    clock_ms: u64,
    dirs: Vec<String>,
    fail_mkdir: bool,
    fail_rmdir: bool,
    fail_create: bool,
    fail_start: bool,
    fail_inspect: bool,
    fail_stop: bool,
    fail_remove: bool,
    fail_list: bool,
    fail_purge: bool,
    /// The host port of each container that was created.
    bound_ports: Vec<u16>,
    /// Every action that was performed, in order.
    log: Vec<String>,
}

fn running(health: HealthState) -> Inspection {
    Inspection { run_state: Some(RunState::Running), health: Some(health) }
}

fn healthy() -> Inspection {
    running(HealthState::Healthy)
}

fn starting() -> Inspection {
    running(HealthState::Starting)
}

impl FakeRuntime {
    fn new(reports: Vec<Inspection>) -> FakeRuntime {
        FakeRuntime {
            next_id: 1,
            inventory: Vec::new(),
            reports,
            inspections: 0,
            clock_ms: 0,
            dirs: Vec::new(),
            fail_mkdir: false,
            fail_rmdir: false,
            fail_create: false,
            fail_start: false,
            fail_inspect: false,
            fail_stop: false,
            fail_remove: false,
            fail_list: false,
            fail_purge: false,
            bound_ports: Vec::new(),
            log: Vec::new(),
        }
    }

    fn add(&mut self, name: Option<&str>) -> String {
        let id = format!("c{}", self.next_id);
        self.next_id += 1;
        self.inventory.push(ContainerSummary {
            id: Some(id.clone()),
            names: name.map(|name| vec![format!("/{}", name)]),
        });
        id
    }

    fn holds(&self, id: &str) -> bool {
        self.inventory.iter().any(|c| c.id.as_deref() == Some(id))
    }

    fn count(&self, prefix: &str) -> usize {
        self.log.iter().filter(|entry| entry.starts_with(prefix)).count()
    }

    fn position(&self, prefix: &str) -> usize {
        self.log.iter().position(|entry| entry.starts_with(prefix)).unwrap()
    }
}

/// Performs the actions that the machine asks for until it asks to finish.
fn provision(rt: &mut FakeRuntime, mut container: ManagedContainer) -> (
    ManagedContainer,
    Result<String, LifecycleError>,
) {
    let mut action = container.pending();
    loop {
        let event = match action {
            ProvisionAction::PrepareDataDir => {
                let path = container.data_dir().unwrap().clone();
                rt.log.push(format!("mkdir {}", path));
                if rt.fail_mkdir {
                    ProvisionEvent::DataDirFailed
                } else {
                    let created = !rt.dirs.contains(&path);
                    if created {
                        rt.dirs.push(path.clone());
                    }
                    ProvisionEvent::DataDirReady { host_path: format!("/abs{}", path), created }
                }
            }
            ProvisionAction::RemoveDataDir => {
                let path = container.data_dir().unwrap().clone();
                rt.log.push(format!("rmdir {}", path));
                if rt.fail_rmdir {
                    ProvisionEvent::DataDirRemoved { ok: false }
                } else {
                    rt.dirs.retain(|dir| *dir != path);
                    ProvisionEvent::DataDirRemoved { ok: true }
                }
            }
            ProvisionAction::CreateContainer => {
                let name = container.container_spec().name.clone();
                rt.log.push(format!("create {:?}", name));
                if rt.fail_create {
                    ProvisionEvent::CreateFailed
                } else {
                    rt.bound_ports.push(container.container_spec().port_binding.host_port);
                    ProvisionEvent::Created { id: rt.add(name.as_deref()) }
                }
            }
            ProvisionAction::StartContainer => {
                rt.log.push(format!("start {}", container.container_id().unwrap()));
                if rt.fail_start {
                    ProvisionEvent::StartFailed
                } else {
                    rt.clock_ms = 0;
                    ProvisionEvent::Started
                }
            }
            ProvisionAction::InspectContainer => {
                rt.log.push(format!("inspect {}", container.container_id().unwrap()));
                let at = rt.inspections.min(rt.reports.len().saturating_sub(1));
                rt.inspections += 1;
                if rt.fail_inspect || rt.reports.is_empty() {
                    ProvisionEvent::InspectFailed
                } else {
                    ProvisionEvent::Inspected { report: rt.reports[at] }
                }
            }
            ProvisionAction::Sleep => {
                rt.log.push("sleep".to_string());
                rt.clock_ms += POLL_INTERVAL_MS;
                ProvisionEvent::Slept { elapsed_ms: rt.clock_ms }
            }
            ProvisionAction::StopContainer => {
                rt.log.push(format!("stop {}", container.container_id().unwrap()));
                ProvisionEvent::Stopped { ok: !rt.fail_stop }
            }
            ProvisionAction::RemoveContainer => {
                let id = container.container_id().unwrap().clone();
                rt.log.push(format!("remove {}", id));
                if rt.fail_remove {
                    ProvisionEvent::Removed { ok: false }
                } else {
                    rt.inventory.retain(|c| c.id.as_deref() != Some(id.as_str()));
                    ProvisionEvent::Removed { ok: true }
                }
            }
            ProvisionAction::Finish => break,
        };
        action = container.step(event);
    }
    let outcome = container.outcome().unwrap();
    (container, outcome)
}

/// Performs the actions that the teardown asks for until it asks to finish.
fn teardown(rt: &mut FakeRuntime, mut teardown: Teardown) -> (
    Teardown,
    Result<bool, LifecycleError>,
) {
    let mut action = teardown.pending();
    loop {
        let event = match action {
            TeardownAction::ListContainers => {
                rt.log.push("list".to_string());
                if rt.fail_list {
                    TeardownEvent::ListFailed
                } else {
                    TeardownEvent::Listed { containers: rt.inventory.clone() }
                }
            }
            TeardownAction::StopContainer => {
                rt.log.push(format!("stop {}", teardown.target_id().unwrap()));
                TeardownEvent::Stopped { ok: !rt.fail_stop }
            }
            TeardownAction::RemoveContainer => {
                let id = teardown.target_id().unwrap().clone();
                rt.log.push(format!("remove {}", id));
                if rt.fail_remove {
                    TeardownEvent::Removed { ok: false }
                } else {
                    rt.inventory.retain(|c| c.id.as_deref() != Some(id.as_str()));
                    TeardownEvent::Removed { ok: true }
                }
            }
            TeardownAction::PurgeDataDir => {
                let path = teardown.data_dir().unwrap().clone();
                if rt.dirs.contains(&path) {
                    rt.log.push(format!("purge {}", path));
                    if rt.fail_purge {
                        rt.log.push("purge-error".to_string());
                        TeardownEvent::Purged { ok: false }
                    } else {
                        rt.dirs.retain(|dir| *dir != path);
                        TeardownEvent::Purged { ok: true }
                    }
                } else {
                    TeardownEvent::Purged { ok: true }
                }
            }
            TeardownAction::Finish => break,
        };
        action = teardown.step(event);
    }
    let outcome = teardown.outcome().unwrap();
    (teardown, outcome)
}

fn demo_params() -> CreateWorkspaceParams {
    CreateWorkspaceParams {
        owner_public_key: "5F3s...".to_string(),
        tier: ResourceTier::Medium,
        workspace_name: "demo".to_string(),
    }
}

fn texts(items: &[&str]) -> Vec<String> {
    items.iter().map(|item| item.to_string()).collect()
}

#[test]
fn verdict_is_ready_only_for_running_and_healthy() {
    assert_eq!(healthy().verdict(), HealthVerdict::Ready);
    for health in [
        HealthState::Empty,
        HealthState::Absent,
        HealthState::Starting,
        HealthState::Unhealthy,
    ] {
        assert_eq!(running(health).verdict(), HealthVerdict::NotYet);
    }
    let no_health = Inspection { run_state: Some(RunState::Running), health: None };
    assert_eq!(no_health.verdict(), HealthVerdict::NotYet);
    for run_state in [
        RunState::Empty,
        RunState::Created,
        RunState::Paused,
        RunState::Restarting,
        RunState::Removing,
    ] {
        let report = Inspection { run_state: Some(run_state), health: Some(HealthState::Healthy) };
        assert_eq!(report.verdict(), HealthVerdict::NotYet);
    }
    let nothing = Inspection { run_state: None, health: Some(HealthState::Healthy) };
    assert_eq!(nothing.verdict(), HealthVerdict::NotYet);
}

#[test]
fn verdict_is_gone_for_exited_and_dead() {
    for run_state in [RunState::Exited, RunState::Dead] {
        for health in [None, Some(HealthState::Healthy), Some(HealthState::Unhealthy)] {
            let report = Inspection { run_state: Some(run_state), health };
            assert_eq!(report.verdict(), HealthVerdict::Gone);
        }
    }
}

#[test]
fn the_poll_interval_and_timeout_are_one_and_thirty_seconds() {
    assert_eq!(POLL_INTERVAL_MS, 1000);
    assert_eq!(HEALTH_TIMEOUT_MS, 30_000);
}

#[test]
fn workspace_spec_is_complete() {
    let spec = workspace_spec(42, "5F3s...", 12345);
    assert_eq!(spec.image, "tangle-mcp:0.1.0");
    assert_eq!(spec.name.as_deref(), Some("mcp-svc-42"));
    assert!(spec.cmd.is_empty());
    assert_eq!(spec.env, texts(&["OWNER_PUBLIC_KEY=5F3s...", "PORT=3000"]));
    assert_eq!(spec.port_binding.container_port, "3000/tcp");
    assert_eq!(spec.port_binding.host_ip, "0.0.0.0");
    assert_eq!(spec.port_binding.host_port, 12345);
    assert!(spec.binds.is_empty());
}

#[test]
fn project_spec_is_complete() {
    let spec = project_spec("abc", "test_key", ResourceTier::Small, 20000);
    assert_eq!(spec.image, "mcp-server:latest");
    assert_eq!(spec.name.as_deref(), Some("mcp-abc"));
    assert_eq!(spec.cmd, texts(&["serve"]));
    assert_eq!(spec.env, texts(&["OWNER_PUBLIC_KEY=test_key", "PORT=3000"]));
    assert_eq!(spec.port_binding.container_port, "3000/tcp");
    assert_eq!(spec.port_binding.host_ip, "0.0.0.0");
    assert_eq!(spec.port_binding.host_port, 20000);
    assert_eq!(spec.binds, texts(&["size=5368709120"]));
    assert_eq!(
        project_spec("abc", "k", ResourceTier::Large, 1).binds,
        texts(&["size=21474836480"])
    );
}

#[test]
fn a_workspace_without_data_root_starts_with_creation() {
    let ctx = MyContext::new(None);
    let container = ManagedContainer::workspace_on_port(&ctx, 42, &demo_params(), 15000);
    assert_eq!(container.phase(), ProvisionPhase::Creating);
    assert_eq!(container.pending(), ProvisionAction::CreateContainer);
    assert_eq!(container.service_id(), Some(42));
    assert_eq!(container.port(), 15000);
    assert_eq!(container.tier(), ResourceTier::Medium);
    assert_eq!(container.data_dir(), None);
    assert_eq!(container.bound_data_path(), None);
    assert_eq!(container.container_id(), None);
    assert_eq!(container.elapsed_ms(), 0);
    assert_eq!(container.outcome(), None);
    assert!(!container.is_finished());
}

#[test]
fn a_workspace_with_data_root_starts_with_its_directory() {
    let ctx = MyContext::new(Some("/data".to_string()));
    let container = ManagedContainer::workspace_on_port(&ctx, 42, &demo_params(), 15000);
    assert_eq!(container.phase(), ProvisionPhase::PreparingData);
    assert_eq!(container.pending(), ProvisionAction::PrepareDataDir);
    assert_eq!(container.data_dir().map(String::as_str), Some("/data/workspaces/42"));
}

#[test]
fn a_healthy_workspace_is_ready_with_its_url() {
    // Healthy after two polls that were not.
    let mut rt = FakeRuntime::new(vec![starting(), starting(), healthy()]);
    let ctx = MyContext::new(None);
    let container = ManagedContainer::workspace(&ctx, 42, &demo_params());
    let port = container.port();
    let (container, outcome) = provision(&mut rt, container);
    assert_eq!(rt.bound_ports.len(), 1);
    assert_eq!(outcome, Ok(format!("http://localhost:{}/sse", rt.bound_ports[0])));
    assert_eq!(rt.bound_ports[0], port);
    assert!((10000..20000).contains(&port));
    assert_eq!(container.phase(), ProvisionPhase::Ready);
    assert!(container.is_finished());
    assert_eq!(container.container_spec().port_binding.host_port, port);
    assert_eq!(container.get_sse_url("localhost"), format!("http://localhost:{}/sse", port));
    assert_eq!(
        rt.log,
        texts(&[
            "create Some(\"mcp-svc-42\")",
            "start c1",
            "inspect c1",
            "sleep",
            "inspect c1",
            "sleep",
            "inspect c1",
        ])
    );
    assert!(rt.holds("c1"));
}

#[test]
fn ready_on_the_third_poll_takes_two_waits() {
    let mut rt = FakeRuntime::new(vec![starting(), starting(), healthy()]);
    let ctx = MyContext::new(None);
    let container = ManagedContainer::workspace_on_port(&ctx, 7, &demo_params(), 10001);
    let (container, outcome) = provision(&mut rt, container);
    assert_eq!(outcome, Ok("http://localhost:10001/sse".to_string()));
    assert_eq!(rt.inspections, 3);
    assert_eq!(rt.count("sleep"), 2);
    assert_eq!(rt.clock_ms, 2000);
    assert_eq!(container.elapsed_ms(), 2000);
    assert_eq!(rt.count("stop"), 0);
    assert_eq!(rt.count("remove"), 0);
}

#[test]
fn ready_on_the_first_poll_takes_no_wait() {
    let mut rt = FakeRuntime::new(vec![healthy()]);
    let ctx = MyContext::new(None);
    let container = ManagedContainer::workspace_on_port(&ctx, 7, &demo_params(), 10001);
    let (_, outcome) = provision(&mut rt, container);
    assert_eq!(outcome, Ok("http://localhost:10001/sse".to_string()));
    assert_eq!(rt.inspections, 1);
    assert_eq!(rt.count("sleep"), 0);
}

#[test]
fn ready_on_the_last_poll_before_the_deadline() {
    let mut reports = vec![starting(); 29];
    reports.push(healthy());
    let mut rt = FakeRuntime::new(reports);
    let ctx = MyContext::new(None);
    let container = ManagedContainer::workspace_on_port(&ctx, 7, &demo_params(), 10001);
    let (_, outcome) = provision(&mut rt, container);
    assert_eq!(outcome, Ok("http://localhost:10001/sse".to_string()));
    assert_eq!(rt.inspections, 30);
    assert_eq!(rt.clock_ms, 29_000);
}

#[test]
fn a_container_that_is_never_healthy_times_out_and_is_removed() {
    let mut rt = FakeRuntime::new(vec![starting()]);
    let ctx = MyContext::new(None);
    let container = ManagedContainer::workspace_on_port(&ctx, 7, &demo_params(), 10001);
    let (container, outcome) = provision(&mut rt, container);
    assert_eq!(outcome, Err(LifecycleError::HealthCheckTimeout));
    assert_eq!(container.phase(), ProvisionPhase::Failed(LifecycleError::HealthCheckTimeout));
    // Thirty polls, one second apart, and not one more.
    assert_eq!(rt.inspections, 30);
    assert_eq!(rt.count("sleep"), 30);
    assert_eq!(rt.clock_ms, HEALTH_TIMEOUT_MS);
    // Stopped, then removed.
    assert_eq!(rt.log[rt.log.len() - 2], "stop c1");
    assert_eq!(rt.log[rt.log.len() - 1], "remove c1");
    assert!(!rt.holds("c1"));
    assert!(rt.inventory.is_empty());
}

#[test]
fn inspections_that_fail_count_as_not_healthy() {
    let mut rt = FakeRuntime::new(vec![healthy()]);
    rt.fail_inspect = true;
    let ctx = MyContext::new(None);
    let container = ManagedContainer::workspace_on_port(&ctx, 7, &demo_params(), 10001);
    let (_, outcome) = provision(&mut rt, container);
    assert_eq!(outcome, Err(LifecycleError::HealthCheckTimeout));
    assert_eq!(rt.inspections, 30);
    assert!(rt.inventory.is_empty());
}

#[test]
fn a_slow_clock_ends_the_wait_by_time_not_by_count() {
    let ctx = MyContext::new(None);
    let mut container = ManagedContainer::workspace_on_port(&ctx, 7, &demo_params(), 10001);
    container.step(ProvisionEvent::Created { id: "c1".to_string() });
    container.step(ProvisionEvent::Started);
    assert_eq!(container.step(ProvisionEvent::InspectFailed), ProvisionAction::Sleep);
    assert_eq!(
        container.step(ProvisionEvent::Slept { elapsed_ms: 29_999 }),
        ProvisionAction::InspectContainer
    );
    assert_eq!(container.elapsed_ms(), 29_999);
    assert_eq!(container.step(ProvisionEvent::InspectFailed), ProvisionAction::Sleep);
    assert_eq!(
        container.step(ProvisionEvent::Slept { elapsed_ms: 30_000 }),
        ProvisionAction::StopContainer
    );
    assert_eq!(container.phase(), ProvisionPhase::Stopping);
}

#[test]
fn a_container_that_exits_is_given_up_without_waiting() {
    let exited = Inspection { run_state: Some(RunState::Exited), health: None };
    let mut rt = FakeRuntime::new(vec![starting(), exited]);
    let ctx = MyContext::new(None);
    let container = ManagedContainer::workspace_on_port(&ctx, 7, &demo_params(), 10001);
    let (_, outcome) = provision(&mut rt, container);
    assert_eq!(outcome, Err(LifecycleError::HealthCheckTimeout));
    assert_eq!(rt.inspections, 2);
    assert_eq!(rt.count("sleep"), 1);
    assert!(rt.inventory.is_empty());
}

#[test]
fn a_dead_container_is_given_up_too() {
    let dead = Inspection { run_state: Some(RunState::Dead), health: Some(HealthState::Healthy) };
    let mut rt = FakeRuntime::new(vec![dead]);
    let ctx = MyContext::new(None);
    let container = ManagedContainer::workspace_on_port(&ctx, 7, &demo_params(), 10001);
    let (_, outcome) = provision(&mut rt, container);
    assert_eq!(outcome, Err(LifecycleError::HealthCheckTimeout));
    assert_eq!(rt.inspections, 1);
    assert_eq!(rt.count("sleep"), 0);
}

#[test]
fn cleanup_removes_even_if_the_stop_fails() {
    let mut rt = FakeRuntime::new(vec![starting()]);
    rt.fail_stop = true;
    let ctx = MyContext::new(None);
    let container = ManagedContainer::workspace_on_port(&ctx, 7, &demo_params(), 10001);
    let (_, outcome) = provision(&mut rt, container);
    assert_eq!(outcome, Err(LifecycleError::HealthCheckTimeout));
    assert_eq!(rt.count("stop"), 1);
    assert_eq!(rt.count("remove"), 1);
    assert!(rt.inventory.is_empty());
}

#[test]
fn cleanup_reports_a_removal_that_fails() {
    let mut rt = FakeRuntime::new(vec![starting()]);
    rt.fail_remove = true;
    let ctx = MyContext::new(None);
    let container = ManagedContainer::workspace_on_port(&ctx, 7, &demo_params(), 10001);
    let (_, outcome) = provision(&mut rt, container);
    assert_eq!(outcome, Err(LifecycleError::DestroyFailed));
    assert!(rt.holds("c1"));
}

#[test]
fn a_refused_creation_fails_the_provision() {
    let mut rt = FakeRuntime::new(vec![healthy()]);
    rt.fail_create = true;
    let ctx = MyContext::new(None);
    let container = ManagedContainer::workspace_on_port(&ctx, 7, &demo_params(), 10001);
    let (container, outcome) = provision(&mut rt, container);
    assert_eq!(outcome, Err(LifecycleError::ProvisionFailed));
    assert_eq!(container.container_id(), None);
    assert_eq!(rt.log, texts(&["create Some(\"mcp-svc-7\")"]));
}

#[test]
fn a_refused_start_fails_the_provision_without_cleanup() {
    let mut rt = FakeRuntime::new(vec![healthy()]);
    rt.fail_start = true;
    let ctx = MyContext::new(None);
    let container = ManagedContainer::workspace_on_port(&ctx, 7, &demo_params(), 10001);
    let (_, outcome) = provision(&mut rt, container);
    assert_eq!(outcome, Err(LifecycleError::ProvisionFailed));
    assert_eq!(rt.count("stop"), 0);
    assert_eq!(rt.count("remove"), 0);
    // The container exists, unstarted, for a later destroy.
    assert!(rt.holds("c1"));
}

#[test]
fn a_data_directory_that_cannot_be_made_fails_the_provision() {
    let mut rt = FakeRuntime::new(vec![healthy()]);
    rt.fail_mkdir = true;
    let ctx = MyContext::new(Some("/data".to_string()));
    let container = ManagedContainer::workspace_on_port(&ctx, 7, &demo_params(), 10001);
    let (_, outcome) = provision(&mut rt, container);
    assert_eq!(outcome, Err(LifecycleError::ProvisionFailed));
    assert_eq!(rt.count("create"), 0);
}

#[test]
fn the_data_directory_is_made_before_the_container_and_bound_into_it() {
    let mut rt = FakeRuntime::new(vec![healthy()]);
    let ctx = MyContext::new(Some("/data".to_string()));
    let container = ManagedContainer::workspace_on_port(&ctx, 42, &demo_params(), 10001);
    let (container, outcome) = provision(&mut rt, container);
    assert_eq!(outcome, Ok("http://localhost:10001/sse".to_string()));
    assert!(rt.position("mkdir /data/workspaces/42") < rt.position("create"));
    assert_eq!(rt.dirs, texts(&["/data/workspaces/42"]));
    assert_eq!(
        container.bound_data_path().map(String::as_str),
        Some("/abs/data/workspaces/42")
    );
    assert_eq!(
        container.container_spec().binds,
        texts(&["/abs/data/workspaces/42:/blueprint:rw"])
    );
}

#[test]
fn destroying_a_workspace_removes_its_container_and_its_directory() {
    let mut rt = FakeRuntime::new(vec![healthy()]);
    let ctx = MyContext::new(Some("/data".to_string()));
    let container = ManagedContainer::workspace_on_port(&ctx, 42, &demo_params(), 10001);
    let (_, outcome) = provision(&mut rt, container);
    assert!(outcome.is_ok());
    rt.add(Some("mcp-svc-43"));
    rt.dirs.push("/data/workspaces/43".to_string());
    rt.log.clear();

    let (done, outcome) = teardown(&mut rt, Teardown::workspace(&ctx, 42));
    assert_eq!(outcome, Ok(true));
    assert_eq!(done.phase(), TeardownPhase::Done);
    assert!(done.found());
    assert_eq!(done.removed(), 1);
    assert_eq!(
        rt.log,
        texts(&["list", "stop c1", "remove c1", "purge /data/workspaces/42"])
    );
    assert!(!rt.holds("c1"));
    assert!(rt.holds("c2"));
    assert_eq!(rt.dirs, texts(&["/data/workspaces/43"]));
}

#[test]
fn destroy_twice_succeeds_twice_and_removes_once() {
    let mut rt = FakeRuntime::new(vec![healthy()]);
    let ctx = MyContext::new(Some("/data".to_string()));
    let container = ManagedContainer::workspace_on_port(&ctx, 42, &demo_params(), 10001);
    let (_, outcome) = provision(&mut rt, container);
    assert!(outcome.is_ok());

    let (_, first) = teardown(&mut rt, Teardown::workspace(&ctx, 42));
    assert_eq!(first, Ok(true));
    assert_eq!(rt.count("remove"), 1);
    rt.log.clear();

    let (second_run, second) = teardown(&mut rt, Teardown::workspace(&ctx, 42));
    assert_eq!(second, Ok(true));
    assert!(!second_run.found());
    assert_eq!(second_run.removed(), 0);
    assert_eq!(rt.log, texts(&["list"]));
}

#[test]
fn destroying_what_never_existed_succeeds() {
    let mut rt = FakeRuntime::new(Vec::new());
    rt.add(Some("mcp-svc-1"));
    let ctx = MyContext::new(Some("/data".to_string()));
    let (done, outcome) = teardown(&mut rt, Teardown::workspace(&ctx, 999));
    assert_eq!(outcome, Ok(true));
    assert!(!done.found());
    assert_eq!(done.removed(), 0);
    assert_eq!(rt.count("stop"), 0);
    assert_eq!(rt.count("remove"), 0);
    assert_eq!(rt.count("purge-error"), 0);
    assert_eq!(rt.log, texts(&["list"]));
    assert_eq!(rt.inventory.len(), 1);
}

#[test]
fn destroying_without_a_data_root_skips_the_purge() {
    let mut rt = FakeRuntime::new(Vec::new());
    rt.add(Some("mcp-svc-5"));
    let ctx = MyContext::new(None);
    let plan = Teardown::workspace(&ctx, 5);
    assert_eq!(plan.container_name(), "mcp-svc-5");
    assert_eq!(plan.data_dir(), None);
    assert_eq!(plan.pending(), TeardownAction::ListContainers);
    assert_eq!(plan.outcome(), None);
    let (_, outcome) = teardown(&mut rt, plan);
    assert_eq!(outcome, Ok(true));
    assert_eq!(rt.log, texts(&["list", "stop c1", "remove c1"]));
}

#[test]
fn a_stop_that_fails_does_not_fail_the_destroy() {
    let mut rt = FakeRuntime::new(Vec::new());
    rt.add(Some("mcp-svc-5"));
    rt.fail_stop = true;
    let ctx = MyContext::new(None);
    let (_, outcome) = teardown(&mut rt, Teardown::workspace(&ctx, 5));
    assert_eq!(outcome, Ok(true));
    assert!(rt.inventory.is_empty());
}

#[test]
fn a_removal_that_fails_fails_the_destroy_after_the_purge() {
    let mut rt = FakeRuntime::new(Vec::new());
    rt.add(Some("mcp-svc-5"));
    rt.dirs.push("/data/workspaces/5".to_string());
    rt.fail_remove = true;
    let ctx = MyContext::new(Some("/data".to_string()));
    let (failed, outcome) = teardown(&mut rt, Teardown::workspace(&ctx, 5));
    assert_eq!(outcome, Err(LifecycleError::DestroyFailed));
    assert_eq!(failed.phase(), TeardownPhase::Failed(LifecycleError::DestroyFailed));
    assert_eq!(failed.removed(), 0);
    assert_eq!(
        rt.log,
        texts(&["list", "stop c1", "remove c1", "purge /data/workspaces/5"])
    );
    assert!(rt.dirs.is_empty());
}

#[test]
fn a_purge_that_fails_does_not_fail_the_destroy() {
    let mut rt = FakeRuntime::new(Vec::new());
    rt.dirs.push("/data/workspaces/5".to_string());
    rt.fail_purge = true;
    let ctx = MyContext::new(Some("/data".to_string()));
    let (_, outcome) = teardown(&mut rt, Teardown::workspace(&ctx, 5));
    assert_eq!(outcome, Ok(true));
    assert_eq!(rt.count("purge-error"), 1);
}

#[test]
fn a_listing_that_fails_fails_the_destroy() {
    let mut rt = FakeRuntime::new(Vec::new());
    rt.add(Some("mcp-svc-5"));
    rt.fail_list = true;
    let ctx = MyContext::new(Some("/data".to_string()));
    let (_, outcome) = teardown(&mut rt, Teardown::workspace(&ctx, 5));
    assert_eq!(outcome, Err(LifecycleError::RuntimeUnavailable));
    assert_eq!(rt.log, texts(&["list"]));
    assert_eq!(rt.inventory.len(), 1);
}

#[test]
fn every_container_of_the_name_is_removed_in_list_order() {
    let mut rt = FakeRuntime::new(Vec::new());
    rt.add(Some("mcp-svc-5"));
    rt.add(Some("mcp-svc-55"));
    rt.add(Some("mcp-svc-5"));
    let ctx = MyContext::new(None);
    let (done, outcome) = teardown(&mut rt, Teardown::workspace(&ctx, 5));
    assert_eq!(outcome, Ok(true));
    assert_eq!(done.removed(), 2);
    assert_eq!(
        rt.log,
        texts(&["list", "stop c1", "remove c1", "stop c3", "remove c3"])
    );
    assert!(rt.holds("c2"));
}

#[test]
fn removal_targets_are_the_named_containers_with_a_handle() {
    let list = vec![
        ContainerSummary { id: Some("a".to_string()), names: Some(texts(&["/other", "/mcp-svc-5"])) },
        ContainerSummary { id: None, names: Some(texts(&["/mcp-svc-5"])) },
        ContainerSummary { id: Some("b".to_string()), names: None },
        ContainerSummary { id: Some("c".to_string()), names: Some(texts(&["mcp-svc-5", "/mcp-svc-5"])) },
        ContainerSummary { id: Some("d".to_string()), names: Some(texts(&["/mcp-svc-50"])) },
        ContainerSummary { id: Some("e".to_string()), names: Some(Vec::new()) },
    ];
    assert_eq!(removal_targets(&list, "mcp-svc-5"), texts(&["a", "c"]));
    assert_eq!(removal_targets(&list, "mcp-svc-50"), texts(&["d"]));
    assert!(removal_targets(&list, "mcp-svc-6").is_empty());
    assert!(removal_targets(&Vec::new(), "mcp-svc-5").is_empty());
    assert!(is_listed(&list, "mcp-svc-5"));
    assert!(is_listed(&list, "other"));
    assert!(!is_listed(&list, "mcp-svc-6"));
    assert!(has_name(&list[0], "mcp-svc-5"));
    assert!(has_name(&list[1], "mcp-svc-5"));
    assert!(!has_name(&list[2], "mcp-svc-5"));
    assert!(!has_name(&list[5], "mcp-svc-5"));
}

#[test]
fn a_named_container_without_a_handle_is_found_but_not_removed() {
    let mut rt = FakeRuntime::new(Vec::new());
    rt.inventory.push(ContainerSummary { id: None, names: Some(texts(&["/mcp-svc-5"])) });
    let ctx = MyContext::new(None);
    let (done, outcome) = teardown(&mut rt, Teardown::workspace(&ctx, 5));
    assert_eq!(outcome, Ok(true));
    assert!(done.found());
    assert_eq!(done.removed(), 0);
    assert_eq!(rt.log, texts(&["list"]));
}

#[test]
fn events_that_answer_nothing_are_ignored() {
    let ctx = MyContext::new(None);
    let mut container = ManagedContainer::workspace_on_port(&ctx, 7, &demo_params(), 10001);
    assert_eq!(container.step(ProvisionEvent::Started), ProvisionAction::CreateContainer);
    assert_eq!(
        container.step(ProvisionEvent::Slept { elapsed_ms: 40_000 }),
        ProvisionAction::CreateContainer
    );
    assert_eq!(container.phase(), ProvisionPhase::Creating);
    container.step(ProvisionEvent::CreateFailed);
    assert_eq!(container.step(ProvisionEvent::Started), ProvisionAction::Finish);
    assert_eq!(container.outcome(), Some(Err(LifecycleError::ProvisionFailed)));

    let mut plan = Teardown::workspace(&ctx, 7);
    assert_eq!(plan.step(TeardownEvent::Removed { ok: true }), TeardownAction::ListContainers);
    assert_eq!(plan.step(TeardownEvent::Purged { ok: true }), TeardownAction::ListContainers);
    assert_eq!(plan.phase(), TeardownPhase::Listing);
    assert_eq!(plan.target_id(), None);
    assert!(!plan.is_finished());
}

#[test]
fn test_create_project() {
    let params = CreateProjectParams {
        owner_public_key: "test_key".to_string(),
        tier: ResourceTier::Small,
    };
    let container = ManagedContainer::project_on_port("1", &params, 20000);
    assert_eq!(container.service_id(), None);
    assert_eq!(container.port(), 20000);
    assert_eq!(container.tier(), ResourceTier::Small);
    assert_eq!(container.data_dir(), None);
    assert_eq!(container.pending(), ProvisionAction::CreateContainer);
    assert_eq!(container.container_spec().image, "mcp-server:latest");
    assert_eq!(container.container_spec().binds, texts(&["size=5368709120"]));

    let mut rt = FakeRuntime::new(vec![starting(), healthy()]);
    let (_, outcome) = provision(&mut rt, container);
    assert_eq!(outcome, Ok("http://localhost:20000/sse".to_string()));
    assert_eq!(rt.log[0], "create Some(\"mcp-1\")");
}

#[test]
fn test_destroy_project() {
    let ctx = MyContext::new(None);
    let mut rt = FakeRuntime::new(Vec::new());

    // Create a test container to destroy
    let service_id = format!("test-{}", "3f2b8c1e-7a44-4d0b-9a55-0c1d2e3f4a5b");
    let container_name = format!("mcp-{}", service_id);
    let image = "hello-world:latest";
    rt.log.push(format!("create {}", image));
    rt.add(Some(&container_name));

    // Now destroy it
    let params = DestroyProjectParams { service_id: service_id.clone() };
    let (_, result) = teardown(&mut rt, Teardown::project(&ctx, &params));

    assert!(result.is_ok());

    // Verify container is gone
    let container_exists = rt.inventory.iter().any(|c| {
        if let Some(names) = &c.names {
            names.iter().any(|n| n.contains(&container_name))
        } else {
            false
        }
    });

    assert!(!container_exists, "Container should have been removed");
}

#[test]
fn a_project_is_destroyed_by_its_name_and_its_directory_under_the_root() {
    let ctx = MyContext::new(Some("/data".to_string()));
    let params = DestroyProjectParams { service_id: "abc".to_string() };
    let plan = Teardown::project(&ctx, &params);
    assert_eq!(plan.container_name(), "mcp-abc");
    assert_eq!(plan.data_dir().map(String::as_str), Some("/data/workspaces/abc"));
}

#[test]
fn a_cancellation_cleans_up_a_container_that_exists() {
    let ctx = MyContext::new(None);
    let mut container = ManagedContainer::workspace_on_port(&ctx, 7, &demo_params(), 10001);
    container.step(ProvisionEvent::Created { id: "c1".to_string() });
    container.step(ProvisionEvent::Started);
    assert_eq!(container.step(ProvisionEvent::Inspected { report: starting() }), ProvisionAction::Sleep);
    assert!(!container.is_cancelled());
    assert!(container.accepts_cancellation());
    assert_eq!(container.step(ProvisionEvent::Cancelled), ProvisionAction::StopContainer);
    assert!(container.is_cancelled());
    assert!(!container.accepts_cancellation());
    assert_eq!(container.container_id().map(String::as_str), Some("c1"));
    assert_eq!(
        container.step(ProvisionEvent::Stopped { ok: false }),
        ProvisionAction::RemoveContainer
    );
    assert_eq!(container.step(ProvisionEvent::Removed { ok: true }), ProvisionAction::Finish);
    assert_eq!(container.outcome(), Some(Err(LifecycleError::ProvisionFailed)));
}

#[test]
fn a_cancellation_before_creation_fails_at_once() {
    let ctx = MyContext::new(Some("/data".to_string()));
    let mut container = ManagedContainer::workspace_on_port(&ctx, 7, &demo_params(), 10001);
    assert_eq!(container.step(ProvisionEvent::Cancelled), ProvisionAction::Finish);
    assert_eq!(container.outcome(), Some(Err(LifecycleError::ProvisionFailed)));
    assert_eq!(container.container_id(), None);
}

#[test]
fn a_cancellation_during_cleanup_changes_nothing() {
    let ctx = MyContext::new(None);
    let mut container = ManagedContainer::workspace_on_port(&ctx, 7, &demo_params(), 10001);
    container.step(ProvisionEvent::Created { id: "c1".to_string() });
    container.step(ProvisionEvent::Started);
    container.step(ProvisionEvent::InspectFailed);
    assert_eq!(
        container.step(ProvisionEvent::Slept { elapsed_ms: 31_000 }),
        ProvisionAction::StopContainer
    );
    assert_eq!(container.step(ProvisionEvent::Cancelled), ProvisionAction::StopContainer);
    assert!(!container.is_cancelled());
    container.step(ProvisionEvent::Stopped { ok: true });
    container.step(ProvisionEvent::Removed { ok: true });
    assert_eq!(container.outcome(), Some(Err(LifecycleError::HealthCheckTimeout)));
}

#[test]
fn a_project_that_was_provisioned_is_found_and_destroyed() {
    let ctx = MyContext::new(Some("/data".to_string()));
    let params = CreateProjectParams {
        owner_public_key: "test_key".to_string(),
        tier: ResourceTier::Large,
    };
    let mut rt = FakeRuntime::new(vec![healthy()]);
    let container = ManagedContainer::project_on_port("7", &params, 12000);
    assert_eq!(container.container_spec().name.as_deref(), Some("mcp-7"));
    let (_, outcome) = provision(&mut rt, container);
    assert_eq!(outcome, Ok("http://localhost:12000/sse".to_string()));
    rt.dirs.push("/data/workspaces/7".to_string());
    rt.dirs.push("/data/workspaces".to_string());
    rt.log.clear();

    let params = DestroyProjectParams { service_id: "7".to_string() };
    let (done, outcome) = teardown(&mut rt, Teardown::project(&ctx, &params));
    assert_eq!(outcome, Ok(true));
    assert!(done.found());
    assert_eq!(done.removed(), 1);
    assert_eq!(
        rt.log,
        texts(&["list", "stop c1", "remove c1", "purge /data/workspaces/7"])
    );
    assert!(rt.inventory.is_empty());
    assert_eq!(rt.dirs, texts(&["/data/workspaces"]));
}

#[test]
fn a_project_named_like_the_common_directory_purges_only_its_own() {
    let ctx = MyContext::new(Some("/data".to_string()));
    let mut rt = FakeRuntime::new(Vec::new());
    rt.dirs = texts(&["/data/workspaces", "/data/workspaces/42", "/data/workspaces/workspaces"]);
    let params = DestroyProjectParams { service_id: "workspaces".to_string() };
    let (_, outcome) = teardown(&mut rt, Teardown::project(&ctx, &params));
    assert_eq!(outcome, Ok(true));
    assert_eq!(rt.log, texts(&["list", "purge /data/workspaces/workspaces"]));
    assert_eq!(rt.dirs, texts(&["/data/workspaces", "/data/workspaces/42"]));
}

#[test]
fn a_refused_creation_deletes_the_directory_it_has_just_made() {
    let mut rt = FakeRuntime::new(vec![healthy()]);
    rt.fail_create = true;
    rt.dirs.push("/data/workspaces/8".to_string());
    let ctx = MyContext::new(Some("/data".to_string()));
    let container = ManagedContainer::workspace_on_port(&ctx, 7, &demo_params(), 10001);
    let (container, outcome) = provision(&mut rt, container);
    assert_eq!(outcome, Err(LifecycleError::ProvisionFailed));
    assert!(container.made_data_dir());
    assert_eq!(
        rt.log,
        texts(&[
            "mkdir /data/workspaces/7",
            "create Some(\"mcp-svc-7\")",
            "rmdir /data/workspaces/7",
        ])
    );
    assert_eq!(rt.dirs, texts(&["/data/workspaces/8"]));
}

#[test]
fn a_refused_creation_leaves_a_directory_that_was_there_before() {
    let mut rt = FakeRuntime::new(vec![healthy()]);
    rt.fail_create = true;
    rt.dirs.push("/data/workspaces/7".to_string());
    let ctx = MyContext::new(Some("/data".to_string()));
    let container = ManagedContainer::workspace_on_port(&ctx, 7, &demo_params(), 10001);
    let (container, outcome) = provision(&mut rt, container);
    assert_eq!(outcome, Err(LifecycleError::ProvisionFailed));
    assert!(!container.made_data_dir());
    assert_eq!(rt.count("rmdir"), 0);
    assert_eq!(rt.dirs, texts(&["/data/workspaces/7"]));
}

#[test]
fn a_directory_that_cannot_be_deleted_again_does_not_change_the_failure() {
    let mut rt = FakeRuntime::new(vec![healthy()]);
    rt.fail_create = true;
    rt.fail_rmdir = true;
    let ctx = MyContext::new(Some("/data".to_string()));
    let container = ManagedContainer::workspace_on_port(&ctx, 7, &demo_params(), 10001);
    let (_, outcome) = provision(&mut rt, container);
    assert_eq!(outcome, Err(LifecycleError::ProvisionFailed));
    assert_eq!(rt.count("rmdir"), 1);
    assert_eq!(rt.dirs, texts(&["/data/workspaces/7"]));
}

#[test]
fn a_refused_start_leaves_container_and_directory() {
    let mut rt = FakeRuntime::new(vec![healthy()]);
    rt.fail_start = true;
    let ctx = MyContext::new(Some("/data".to_string()));
    let container = ManagedContainer::workspace_on_port(&ctx, 7, &demo_params(), 10001);
    let (_, outcome) = provision(&mut rt, container);
    assert_eq!(outcome, Err(LifecycleError::ProvisionFailed));
    assert_eq!(rt.count("rmdir"), 0);
    assert_eq!(rt.count("remove"), 0);
    assert!(rt.holds("c1"));
    assert_eq!(rt.dirs, texts(&["/data/workspaces/7"]));
}

#[test]
fn a_cancellation_before_the_container_deletes_the_directory_made() {
    let ctx = MyContext::new(Some("/data".to_string()));
    let mut container = ManagedContainer::workspace_on_port(&ctx, 7, &demo_params(), 10001);
    assert_eq!(
        container.step(ProvisionEvent::DataDirReady {
            host_path: "/abs/data/workspaces/7".to_string(),
            created: true,
        }),
        ProvisionAction::CreateContainer
    );
    assert!(container.accepts_cancellation());
    assert_eq!(container.step(ProvisionEvent::Cancelled), ProvisionAction::RemoveDataDir);
    assert_eq!(container.phase(), ProvisionPhase::RemovingDataDir);
    assert!(!container.accepts_cancellation());
    assert_eq!(container.data_dir().map(String::as_str), Some("/data/workspaces/7"));
    assert_eq!(container.outcome(), None);
    assert_eq!(
        container.step(ProvisionEvent::DataDirRemoved { ok: true }),
        ProvisionAction::Finish
    );
    assert_eq!(container.outcome(), Some(Err(LifecycleError::ProvisionFailed)));
}

#[test]
fn a_cancellation_before_the_container_leaves_a_directory_that_was_there() {
    let ctx = MyContext::new(Some("/data".to_string()));
    let mut container = ManagedContainer::workspace_on_port(&ctx, 7, &demo_params(), 10001);
    container.step(ProvisionEvent::DataDirReady {
        host_path: "/abs/data/workspaces/7".to_string(),
        created: false,
    });
    assert_eq!(container.step(ProvisionEvent::Cancelled), ProvisionAction::Finish);
    assert_eq!(container.outcome(), Some(Err(LifecycleError::ProvisionFailed)));
}

#[test]
fn a_project_with_an_identifier_that_is_no_entry_purges_nothing() {
    let ctx = MyContext::new(Some("/data".to_string()));
    for id in ["", ".", "..", "a/b", "/etc", "../x", "x/"] {
        let params = DestroyProjectParams { service_id: id.to_string() };
        let plan = Teardown::project(&ctx, &params);
        assert_eq!(plan.data_dir(), None);
        assert_eq!(plan.container_name(), &format!("mcp-{}", id));
        let mut rt = FakeRuntime::new(Vec::new());
        rt.dirs = texts(&["/data/workspaces", "/data/workspaces/42", "/etc", "/data"]);
        let (_, outcome) = teardown(&mut rt, plan);
        assert_eq!(outcome, Ok(true));
        assert_eq!(rt.log, texts(&["list"]));
        assert_eq!(rt.dirs.len(), 4);
    }
}
