//! Provisioning one container: prepare its data directory, create it, start
//! it, wait until it is healthy, and clean up if it never is.
//!
//! A [`ManagedContainer`] is a state machine. Its state says which action is
//! pending; the driver performs that action and reports the outcome as a
//! [`ProvisionEvent`]; [`ManagedContainer::step`] moves on and names the next
//! action. The machine never waits, reads a clock or talks to the runtime.

use crate::container::{
    project_spec, single, spec_project_spec, spec_workspace_spec, workspace_spec, ContainerSpec,
    ContainerSpecView,
};
use crate::error::LifecycleError;
use crate::health::{polls_left, HealthVerdict, Inspection, HEALTH_TIMEOUT_MS, POLL_INTERVAL_MS};
use crate::naming::{
    get_sse_url, spec_sse_url, spec_workspace_bind, spec_workspace_data_dir, workspace_bind,
    workspace_data_dir,
};
use crate::port::{is_published_port, sample_port};
use crate::request::{CreateProjectParams, CreateWorkspaceParams, MyContext};
use crate::tier::ResourceTier;
use vstd::prelude::*;
use vstd::string::*;

verus! {

/// Where a provisioning stands. Each phase but the last two waits for the
/// outcome of one action.
#[derive(Clone, Copy, Debug, PartialEq, Eq, Structural)]
pub enum ProvisionPhase {
    /// The data directory is being created.
    PreparingData,
    /// The runtime is creating the container.
    Creating,
    /// The container exists and the runtime is starting it.
    Starting,
    /// Health check: the runtime is inspecting the container.
    Inspecting,
    /// Health check: one interval is being waited out.
    Sleeping,
    /// Timed out: the runtime is stopping the container.
    Stopping,
    /// Timed out: the runtime is removing the container.
    Removing,
    /// The container could not be had: the data directory that this
    /// provisioning made is being deleted again.
    RemovingDataDir,
    /// The container is running and healthy.
    Ready,
    /// The provisioning has failed.
    Failed(LifecycleError),
}

/// What the driver is asked to do next.
#[derive(Clone, Copy, Debug, PartialEq, Eq, Structural)]
pub enum ProvisionAction {
    /// Create the directory [`ManagedContainer::data_dir`] with its parents
    /// and resolve it to an absolute path.
    PrepareDataDir,
    /// Create a container from [`ManagedContainer::container_spec`].
    CreateContainer,
    /// Start the container [`ManagedContainer::container_id`].
    StartContainer,
    /// Inspect the container.
    InspectContainer,
    /// Wait for [`POLL_INTERVAL_MS`] milliseconds, then read the clock.
    Sleep,
    /// Stop the container.
    StopContainer,
    /// Remove the container by force.
    RemoveContainer,
    /// Delete the directory [`ManagedContainer::data_dir`], which this
    /// provisioning made, with all it holds.
    RemoveDataDir,
    /// Nothing is left to do: hand [`ManagedContainer::outcome`] to the caller.
    Finish,
}

/// The outcome of an action, as the driver reports it.
#[derive(Debug)]
pub enum ProvisionEvent {
    /// The data directory exists; `host_path` is its absolute path, and
    /// `created` tells whether it was made just now. A directory that was
    /// there before may hold a tenant's data.
    DataDirReady { host_path: String, created: bool },
    /// The data directory could not be created or resolved.
    DataDirFailed,
    /// The runtime created the container and named it `id`.
    Created { id: String },
    /// The runtime refused to create the container.
    CreateFailed,
    /// The runtime started the container; the clock starts here.
    Started,
    /// The runtime refused to start the container.
    StartFailed,
    /// The runtime answered an inspection.
    Inspected { report: Inspection },
    /// The inspection itself failed.
    InspectFailed,
    /// The wait is over; `elapsed_ms` milliseconds have passed since the
    /// container was started.
    Slept { elapsed_ms: u64 },
    /// The runtime was asked to stop the container; `ok` tells whether it did.
    Stopped { ok: bool },
    /// The runtime was asked to remove the container; `ok` tells whether it did.
    Removed { ok: bool },
    /// The data directory was to be deleted; `ok` tells whether it was.
    DataDirRemoved { ok: bool },
    /// The caller no longer wants the container. This may arrive in place of
    /// the outcome of any pending action.
    Cancelled,
}

/// An event as plain values.
#[verifier::ext_equal]
pub enum ProvisionEventView {
    DataDirReady { host_path: Seq<char>, created: bool },
    DataDirFailed,
    Created { id: Seq<char> },
    CreateFailed,
    Started,
    StartFailed,
    Inspected { report: Inspection },
    InspectFailed,
    Slept { elapsed_ms: u64 },
    Stopped { ok: bool },
    Removed { ok: bool },
    DataDirRemoved { ok: bool },
    Cancelled,
}

impl View for ProvisionEvent {
    type V = ProvisionEventView;

    open spec fn view(&self) -> ProvisionEventView {
        match self {
            ProvisionEvent::DataDirReady { host_path, created } => ProvisionEventView::DataDirReady {
                host_path: host_path@,
                created: *created,
            },
            ProvisionEvent::DataDirFailed => ProvisionEventView::DataDirFailed,
            ProvisionEvent::Created { id } => ProvisionEventView::Created { id: id@ },
            ProvisionEvent::CreateFailed => ProvisionEventView::CreateFailed,
            ProvisionEvent::Started => ProvisionEventView::Started,
            ProvisionEvent::StartFailed => ProvisionEventView::StartFailed,
            ProvisionEvent::Inspected { report } => ProvisionEventView::Inspected {
                report: *report,
            },
            ProvisionEvent::InspectFailed => ProvisionEventView::InspectFailed,
            ProvisionEvent::Slept { elapsed_ms } => ProvisionEventView::Slept {
                elapsed_ms: *elapsed_ms,
            },
            ProvisionEvent::Stopped { ok } => ProvisionEventView::Stopped { ok: *ok },
            ProvisionEvent::Removed { ok } => ProvisionEventView::Removed { ok: *ok },
            ProvisionEvent::DataDirRemoved { ok } => ProvisionEventView::DataDirRemoved {
                ok: *ok,
            },
            ProvisionEvent::Cancelled => ProvisionEventView::Cancelled,
        }
    }
}

/// A container that is being provisioned, with everything known about it.
#[derive(Debug)]
pub struct ManagedContainer {
    service_id: Option<u64>,
    port: u16,
    tier: ResourceTier,
    data_dir: Option<String>,
    bound_data_path: Option<String>,
    made_data_dir: bool,
    spec: ContainerSpec,
    container_id: Option<String>,
    phase: ProvisionPhase,
    elapsed_ms: u64,
    cancelled: bool,
}

/// A managed container as plain values.
#[verifier::ext_equal]
pub struct ManagedContainerView {
    /// The workspace's identifier. A project's identifier is a text; it is
    /// part of the container's name.
    pub service_id: Option<u64>,
    /// The host port on which the container is published.
    pub port: u16,
    /// The tier that was asked for.
    pub tier: ResourceTier,
    /// The directory to prepare before the container is created, if any.
    pub data_dir: Option<Seq<char>>,
    /// The absolute path of the prepared directory, once it is bound.
    pub bound_data_path: Option<Seq<char>>,
    /// Whether this provisioning made the data directory. Only such a
    /// directory is ever deleted again.
    pub made_data_dir: bool,
    /// The creation request.
    pub spec: ContainerSpecView,
    /// The runtime's handle, once the container exists.
    pub container_id: Option<Seq<char>>,
    pub phase: ProvisionPhase,
    /// The last clock reading, in milliseconds since the start.
    pub elapsed_ms: u64,
    /// Whether the caller has cancelled the provisioning.
    pub cancelled: bool,
}

/// The domain under which a provisioned service is reached.
pub open spec fn spec_local_domain() -> Seq<char> {
    "localhost"@
}

impl ManagedContainerView {
    /// The plan for workspace `service_id`, nothing done yet.
    pub open spec fn workspace(
        data_root: Option<Seq<char>>,
        service_id: u64,
        owner_public_key: Seq<char>,
        tier: ResourceTier,
        port: u16,
    ) -> ManagedContainerView {
        ManagedContainerView {
            service_id: Some(service_id),
            port,
            tier,
            data_dir: match data_root {
                Some(root) => Some(spec_workspace_data_dir(root, service_id)),
                None => None,
            },
            bound_data_path: None,
            made_data_dir: false,
            spec: spec_workspace_spec(service_id, owner_public_key, port),
            container_id: None,
            phase: if data_root is Some {
                ProvisionPhase::PreparingData
            } else {
                ProvisionPhase::Creating
            },
            elapsed_ms: 0,
            cancelled: false,
        }
    }

    /// The plan for project `service_id`, nothing done yet.
    pub open spec fn project(
        service_id: Seq<char>,
        owner_public_key: Seq<char>,
        tier: ResourceTier,
        port: u16,
    ) -> ManagedContainerView {
        ManagedContainerView {
            service_id: None,
            port,
            tier,
            data_dir: None,
            bound_data_path: None,
            made_data_dir: false,
            spec: spec_project_spec(service_id, owner_public_key, tier, port),
            container_id: None,
            phase: ProvisionPhase::Creating,
            elapsed_ms: 0,
            cancelled: false,
        }
    }

    /// What every managed container satisfies: a directory to prepare is known
    /// while one is being prepared, a directory is deleted only if this
    /// provisioning made it, the runtime's handle is known once the
    /// container exists and unknown before, the health check goes on only before the deadline,
    /// and the creation request publishes the recorded port.
    pub open spec fn wf(self) -> bool {
        &&& self.phase is PreparingData ==> self.data_dir is Some
        &&& self.made_data_dir ==> self.data_dir is Some
        &&& self.phase is RemovingDataDir ==> self.made_data_dir
        &&& self.before_container() ==> self.container_id is None
        &&& self.targets_container() ==> self.container_id is Some
        &&& self.health_checking() ==> self.elapsed_ms < HEALTH_TIMEOUT_MS
        &&& self.spec.port_binding.host_port == self.port
    }

    /// Whether the provisioning is at a point where no container exists.
    pub open spec fn before_container(self) -> bool {
        self.phase is PreparingData || self.phase is Creating || self.phase is RemovingDataDir
    }

    /// Whether the pending action or the success is about a container that
    /// exists in the runtime.
    pub open spec fn targets_container(self) -> bool {
        match self.phase {
            ProvisionPhase::Starting => true,
            ProvisionPhase::Inspecting => true,
            ProvisionPhase::Sleeping => true,
            ProvisionPhase::Stopping => true,
            ProvisionPhase::Removing => true,
            ProvisionPhase::Ready => true,
            _ => false,
        }
    }

    /// Whether the container is started and waited on.
    pub open spec fn health_checking(self) -> bool {
        self.phase is Inspecting || self.phase is Sleeping
    }

    /// Whether nothing is left to do.
    pub open spec fn finished(self) -> bool {
        self.phase is Ready || self.phase is Failed
    }

    /// Whether a cancellation would still change anything: the work goes on
    /// and cleanup has not begun.
    pub open spec fn accepts_cancellation(self) -> bool {
        !self.finished() && !(self.phase is Stopping) && !(self.phase is Removing) && !(
        self.phase is RemovingDataDir)
    }

    /// The action that the machine waits for.
    pub open spec fn pending(self) -> ProvisionAction {
        match self.phase {
            ProvisionPhase::PreparingData => ProvisionAction::PrepareDataDir,
            ProvisionPhase::Creating => ProvisionAction::CreateContainer,
            ProvisionPhase::Starting => ProvisionAction::StartContainer,
            ProvisionPhase::Inspecting => ProvisionAction::InspectContainer,
            ProvisionPhase::Sleeping => ProvisionAction::Sleep,
            ProvisionPhase::Stopping => ProvisionAction::StopContainer,
            ProvisionPhase::Removing => ProvisionAction::RemoveContainer,
            ProvisionPhase::RemovingDataDir => ProvisionAction::RemoveDataDir,
            ProvisionPhase::Ready => ProvisionAction::Finish,
            ProvisionPhase::Failed(_) => ProvisionAction::Finish,
        }
    }

    /// The same container in another phase.
    pub open spec fn at(self, phase: ProvisionPhase) -> ManagedContainerView {
        ManagedContainerView { phase, ..self }
    }

    /// The phase after a failure before the container exists: the data
    /// directory is deleted again if this provisioning made it; a directory
    /// that was there before is left alone and the failure is reported.
    pub open spec fn phase_without_container(self) -> ProvisionPhase {
        if self.made_data_dir {
            ProvisionPhase::RemovingDataDir
        } else {
            ProvisionPhase::Failed(LifecycleError::ProvisionFailed)
        }
    }

    /// The state after the caller has cancelled. A container that exists is
    /// stopped and removed first; without one, what a refused creation
    /// leads to is done.
    pub open spec fn abandoned(self) -> ManagedContainerView {
        ManagedContainerView {
            phase: if self.container_id is Some {
                ProvisionPhase::Stopping
            } else {
                self.phase_without_container()
            },
            cancelled: true,
            ..self
        }
    }

    /// What is reported once cleanup has asked for the removal: the failed
    /// removal if it failed; else the reason for the cleanup, which is the
    /// cancellation or the timeout.
    pub open spec fn cleanup_report(self, removed: bool) -> LifecycleError {
        if !removed {
            LifecycleError::DestroyFailed
        } else if self.cancelled {
            LifecycleError::ProvisionFailed
        } else {
            LifecycleError::HealthCheckTimeout
        }
    }

    /// The state after `event`. An event that does not answer the pending
    /// action changes nothing.
    pub open spec fn after(self, event: ProvisionEventView) -> ManagedContainerView {
        match self.phase {
            ProvisionPhase::PreparingData => match event {
                ProvisionEventView::DataDirReady { host_path, created } => ManagedContainerView {
                    bound_data_path: Some(host_path),
                    made_data_dir: created,
                    spec: ContainerSpecView {
                        binds: seq![spec_workspace_bind(host_path)],
                        ..self.spec
                    },
                    phase: ProvisionPhase::Creating,
                    ..self
                },
                ProvisionEventView::DataDirFailed => self.at(
                    ProvisionPhase::Failed(LifecycleError::ProvisionFailed),
                ),
                ProvisionEventView::Cancelled => self.abandoned(),
                _ => self,
            },
            ProvisionPhase::Creating => match event {
                ProvisionEventView::Created { id } => ManagedContainerView {
                    container_id: Some(id),
                    phase: ProvisionPhase::Starting,
                    ..self
                },
                ProvisionEventView::CreateFailed => self.at(self.phase_without_container()),
                ProvisionEventView::Cancelled => self.abandoned(),
                _ => self,
            },
            ProvisionPhase::Starting => match event {
                ProvisionEventView::Started => ManagedContainerView {
                    phase: ProvisionPhase::Inspecting,
                    elapsed_ms: 0,
                    ..self
                },
                ProvisionEventView::StartFailed => self.at(
                    ProvisionPhase::Failed(LifecycleError::ProvisionFailed),
                ),
                ProvisionEventView::Cancelled => self.abandoned(),
                _ => self,
            },
            ProvisionPhase::Inspecting => match event {
                ProvisionEventView::Inspected { report } => match report.spec_verdict() {
                    HealthVerdict::Ready => self.at(ProvisionPhase::Ready),
                    HealthVerdict::Gone => self.at(ProvisionPhase::Stopping),
                    HealthVerdict::NotYet => self.at(ProvisionPhase::Sleeping),
                },
                ProvisionEventView::InspectFailed => self.at(ProvisionPhase::Sleeping),
                ProvisionEventView::Cancelled => self.abandoned(),
                _ => self,
            },
            ProvisionPhase::Sleeping => match event {
                ProvisionEventView::Slept { elapsed_ms } => ManagedContainerView {
                    phase: if elapsed_ms < HEALTH_TIMEOUT_MS {
                        ProvisionPhase::Inspecting
                    } else {
                        ProvisionPhase::Stopping
                    },
                    elapsed_ms,
                    ..self
                },
                ProvisionEventView::Cancelled => self.abandoned(),
                _ => self,
            },
            ProvisionPhase::Stopping => match event {
                ProvisionEventView::Stopped { ok } => self.at(ProvisionPhase::Removing),
                _ => self,
            },
            ProvisionPhase::Removing => match event {
                ProvisionEventView::Removed { ok } => self.at(
                    ProvisionPhase::Failed(self.cleanup_report(ok)),
                ),
                _ => self,
            },
            ProvisionPhase::RemovingDataDir => match event {
                ProvisionEventView::DataDirRemoved { ok } => self.at(
                    ProvisionPhase::Failed(LifecycleError::ProvisionFailed),
                ),
                _ => self,
            },
            ProvisionPhase::Ready => self,
            ProvisionPhase::Failed(_) => self,
        }
    }

    /// The state after each of `events` in turn.
    pub open spec fn after_all(self, events: Seq<ProvisionEventView>) -> ManagedContainerView
        decreases events.len(),
    {
        if events.len() == 0 {
            self
        } else {
            self.after(events.first()).after_all(events.drop_first())
        }
    }

    /// What the caller is told: nothing while the work goes on, the address
    /// of the service once it is ready, the failure otherwise.
    pub open spec fn outcome(self) -> Option<Result<Seq<char>, LifecycleError>> {
        match self.phase {
            ProvisionPhase::Ready => Some(Ok(spec_sse_url(spec_local_domain(), self.port))),
            ProvisionPhase::Failed(error) => Some(Err(error)),
            _ => None,
        }
    }
}

impl View for ManagedContainer {
    type V = ManagedContainerView;

    closed spec fn view(&self) -> ManagedContainerView {
        ManagedContainerView {
            service_id: self.service_id,
            port: self.port,
            tier: self.tier,
            data_dir: match self.data_dir {
                Some(path) => Some(path@),
                None => None,
            },
            bound_data_path: match self.bound_data_path {
                Some(path) => Some(path@),
                None => None,
            },
            made_data_dir: self.made_data_dir,
            spec: self.spec@,
            container_id: match self.container_id {
                Some(id) => Some(id@),
                None => None,
            },
            phase: self.phase,
            elapsed_ms: self.elapsed_ms,
            cancelled: self.cancelled,
        }
    }
}

impl ManagedContainer {
    #[verifier::type_invariant]
    spec fn well_formed(&self) -> bool {
        self@.wf()
    }

    /// Plans workspace `service_id`, published on `port`. If the deployment
    /// has a data root, the workspace's directory under it is prepared first
    /// and bound into the container.
    pub fn workspace_on_port(
        ctx: &MyContext,
        service_id: u64,
        params: &CreateWorkspaceParams,
        port: u16,
    ) -> (container: ManagedContainer)
        ensures
            container@ == ManagedContainerView::workspace(
                ctx.spec_data_dir(),
                service_id,
                params.owner_public_key@,
                params.tier,
                port,
            ),
            container@.wf(),
    {
        let spec = workspace_spec(service_id, params.owner_public_key.as_str(), port);
        match &ctx.data_dir {
            Some(root) => ManagedContainer {
                service_id: Some(service_id),
                port,
                tier: params.tier,
                data_dir: Some(workspace_data_dir(root.as_str(), service_id)),
                bound_data_path: None,
                made_data_dir: false,
                spec,
                container_id: None,
                phase: ProvisionPhase::PreparingData,
                elapsed_ms: 0,
                cancelled: false,
            },
            None => ManagedContainer {
                service_id: Some(service_id),
                port,
                tier: params.tier,
                data_dir: None,
                bound_data_path: None,
                made_data_dir: false,
                spec,
                container_id: None,
                phase: ProvisionPhase::Creating,
                elapsed_ms: 0,
                cancelled: false,
            },
        }
    }

    /// Plans workspace `service_id` on a host port drawn at random. Whatever
    /// port is drawn, the plan is that of
    /// [`ManagedContainer::workspace_on_port`] for it.
    ///
    /// # Panics
    ///
    /// Panics in the rare case that the operating system's source of
    /// randomness fails; see [`sample_port`].
    pub fn workspace(
        ctx: &MyContext,
        service_id: u64,
        params: &CreateWorkspaceParams,
    ) -> (container: ManagedContainer)
        ensures
            is_published_port(container@.port),
            container@ == ManagedContainerView::workspace(
                ctx.spec_data_dir(),
                service_id,
                params.owner_public_key@,
                params.tier,
                container@.port,
            ),
            container@.wf(),
    {
        let port = sample_port();
        ManagedContainer::workspace_on_port(ctx, service_id, params, port)
    }

    /// Plans project `service_id`, published on `port`. A project has no data
    /// directory bound into its container.
    pub fn project_on_port(
        service_id: &str,
        params: &CreateProjectParams,
        port: u16,
    ) -> (container: ManagedContainer)
        ensures
            container@ == ManagedContainerView::project(
                service_id@,
                params.owner_public_key@,
                params.tier,
                port,
            ),
            container@.wf(),
    {
        ManagedContainer {
            service_id: None,
            port,
            tier: params.tier,
            data_dir: None,
            bound_data_path: None,
            made_data_dir: false,
            spec: project_spec(service_id, params.owner_public_key.as_str(), params.tier, port),
            container_id: None,
            phase: ProvisionPhase::Creating,
            elapsed_ms: 0,
            cancelled: false,
        }
    }

    /// Plans project `service_id` on a host port drawn at random. Whatever
    /// port is drawn, the plan is that of
    /// [`ManagedContainer::project_on_port`] for it.
    ///
    /// # Panics
    ///
    /// Panics in the rare case that the operating system's source of
    /// randomness fails; see [`sample_port`].
    pub fn project(service_id: &str, params: &CreateProjectParams) -> (container: ManagedContainer)
        ensures
            is_published_port(container@.port),
            container@ == ManagedContainerView::project(
                service_id@,
                params.owner_public_key@,
                params.tier,
                container@.port,
            ),
            container@.wf(),
    {
        let port = sample_port();
        ManagedContainer::project_on_port(service_id, params, port)
    }

    /// The action that the machine waits for.
    pub fn pending(&self) -> (action: ProvisionAction)
        ensures
            action == self@.pending(),
    {
        match self.phase {
            ProvisionPhase::PreparingData => ProvisionAction::PrepareDataDir,
            ProvisionPhase::Creating => ProvisionAction::CreateContainer,
            ProvisionPhase::Starting => ProvisionAction::StartContainer,
            ProvisionPhase::Inspecting => ProvisionAction::InspectContainer,
            ProvisionPhase::Sleeping => ProvisionAction::Sleep,
            ProvisionPhase::Stopping => ProvisionAction::StopContainer,
            ProvisionPhase::Removing => ProvisionAction::RemoveContainer,
            ProvisionPhase::RemovingDataDir => ProvisionAction::RemoveDataDir,
            ProvisionPhase::Ready => ProvisionAction::Finish,
            ProvisionPhase::Failed(_) => ProvisionAction::Finish,
        }
    }

    /// Gives the container up because the caller cancelled.
    fn abandon(&mut self)
        ensures
            final(self)@ == old(self)@.abandoned(),
    {
        proof {
            use_type_invariant(&*self);
        }
        if self.container_id.is_some() {
            self.phase = ProvisionPhase::Stopping;
        } else if self.made_data_dir {
            self.phase = ProvisionPhase::RemovingDataDir;
        } else {
            self.phase = ProvisionPhase::Failed(LifecycleError::ProvisionFailed);
        }
        self.cancelled = true;
    }

    /// Takes in the outcome of the pending action and names the next one.
    pub fn step(&mut self, event: ProvisionEvent) -> (action: ProvisionAction)
        ensures
            final(self)@ == old(self)@.after(event@),
            final(self)@.wf(),
            action == final(self)@.pending(),
    {
        proof {
            use_type_invariant(&*self);
        }
        match self.phase {
            ProvisionPhase::PreparingData => match event {
                ProvisionEvent::DataDirReady { host_path, created } => {
                    self.spec.binds = single(workspace_bind(host_path.as_str()));
                    self.bound_data_path = Some(host_path);
                    self.made_data_dir = created;
                    self.phase = ProvisionPhase::Creating;
                },
                ProvisionEvent::DataDirFailed => {
                    self.phase = ProvisionPhase::Failed(LifecycleError::ProvisionFailed);
                },
                ProvisionEvent::Cancelled => {
                    self.abandon();
                },
                _ => {},
            },
            ProvisionPhase::Creating => match event {
                ProvisionEvent::Created { id } => {
                    // The handle and the phase change together. The phase in
                    // between is one that says nothing of the handle.
                    self.phase = ProvisionPhase::Failed(LifecycleError::ProvisionFailed);
                    self.container_id = Some(id);
                    self.phase = ProvisionPhase::Starting;
                },
                ProvisionEvent::CreateFailed => {
                    if self.made_data_dir {
                        self.phase = ProvisionPhase::RemovingDataDir;
                    } else {
                        self.phase = ProvisionPhase::Failed(LifecycleError::ProvisionFailed);
                    }
                },
                ProvisionEvent::Cancelled => {
                    self.abandon();
                },
                _ => {},
            },
            ProvisionPhase::Starting => match event {
                ProvisionEvent::Started => {
                    self.elapsed_ms = 0;
                    self.phase = ProvisionPhase::Inspecting;
                },
                ProvisionEvent::StartFailed => {
                    self.phase = ProvisionPhase::Failed(LifecycleError::ProvisionFailed);
                },
                ProvisionEvent::Cancelled => {
                    self.abandon();
                },
                _ => {},
            },
            ProvisionPhase::Inspecting => match event {
                ProvisionEvent::Inspected { report } => match report.verdict() {
                    HealthVerdict::Ready => {
                        self.phase = ProvisionPhase::Ready;
                    },
                    HealthVerdict::Gone => {
                        self.phase = ProvisionPhase::Stopping;
                    },
                    HealthVerdict::NotYet => {
                        self.phase = ProvisionPhase::Sleeping;
                    },
                },
                ProvisionEvent::InspectFailed => {
                    self.phase = ProvisionPhase::Sleeping;
                },
                ProvisionEvent::Cancelled => {
                    self.abandon();
                },
                _ => {},
            },
            ProvisionPhase::Sleeping => match event {
                ProvisionEvent::Slept { elapsed_ms } => {
                    if elapsed_ms < HEALTH_TIMEOUT_MS {
                        self.elapsed_ms = elapsed_ms;
                        self.phase = ProvisionPhase::Inspecting;
                    } else {
                        self.phase = ProvisionPhase::Stopping;
                        self.elapsed_ms = elapsed_ms;
                    }
                },
                ProvisionEvent::Cancelled => {
                    self.abandon();
                },
                _ => {},
            },
            ProvisionPhase::Stopping => match event {
                ProvisionEvent::Stopped { ok } => {
                    self.phase = ProvisionPhase::Removing;
                },
                _ => {},
            },
            ProvisionPhase::Removing => match event {
                ProvisionEvent::Removed { ok } => {
                    if !ok {
                        self.phase = ProvisionPhase::Failed(LifecycleError::DestroyFailed);
                    } else if self.cancelled {
                        self.phase = ProvisionPhase::Failed(LifecycleError::ProvisionFailed);
                    } else {
                        self.phase = ProvisionPhase::Failed(LifecycleError::HealthCheckTimeout);
                    }
                },
                _ => {},
            },
            ProvisionPhase::RemovingDataDir => match event {
                ProvisionEvent::DataDirRemoved { ok } => {
                    self.phase = ProvisionPhase::Failed(LifecycleError::ProvisionFailed);
                },
                _ => {},
            },
            ProvisionPhase::Ready => {},
            ProvisionPhase::Failed(_) => {},
        }
        self.pending()
    }

    pub fn phase(&self) -> (phase: ProvisionPhase)
        ensures
            phase == self@.phase,
    {
        self.phase
    }

    /// Whether nothing is left to do.
    pub fn is_finished(&self) -> (finished: bool)
        ensures
            finished == self@.finished(),
    {
        match self.phase {
            ProvisionPhase::Ready => true,
            ProvisionPhase::Failed(_) => true,
            _ => false,
        }
    }

    /// The workspace's identifier; `None` for a project, whose identifier is
    /// a text.
    pub fn service_id(&self) -> (service_id: Option<u64>)
        ensures
            service_id == self@.service_id,
    {
        self.service_id
    }

    /// The host port on which the container is published.
    pub fn port(&self) -> (port: u16)
        ensures
            port == self@.port,
            port == self@.spec.port_binding.host_port,
    {
        proof {
            use_type_invariant(self);
        }
        self.port
    }

    /// The tier that was asked for.
    pub fn tier(&self) -> (tier: ResourceTier)
        ensures
            tier == self@.tier,
    {
        self.tier
    }

    /// The last clock reading, in milliseconds since the container started.
    pub fn elapsed_ms(&self) -> (elapsed_ms: u64)
        ensures
            elapsed_ms == self@.elapsed_ms,
            self@.health_checking() ==> elapsed_ms < HEALTH_TIMEOUT_MS,
    {
        proof {
            use_type_invariant(self);
        }
        self.elapsed_ms
    }

    /// Whether a cancellation would still change anything. Where it would
    /// not, the driver goes on with the pending action.
    pub fn accepts_cancellation(&self) -> (accepts: bool)
        ensures
            accepts == self@.accepts_cancellation(),
            !accepts ==> self@.after(ProvisionEventView::Cancelled) == self@,
            accepts ==> self@.after(ProvisionEventView::Cancelled).cancelled
                && !self@.after(ProvisionEventView::Cancelled).accepts_cancellation(),
    {
        proof {
            use_type_invariant(self);
        }
        match self.phase {
            ProvisionPhase::Stopping => false,
            ProvisionPhase::Removing => false,
            ProvisionPhase::RemovingDataDir => false,
            ProvisionPhase::Ready => false,
            ProvisionPhase::Failed(_) => false,
            _ => true,
        }
    }

    /// Whether the caller has cancelled the provisioning.
    pub fn is_cancelled(&self) -> (cancelled: bool)
        ensures
            cancelled == self@.cancelled,
    {
        self.cancelled
    }

    /// Whether this provisioning made the data directory.
    pub fn made_data_dir(&self) -> (made: bool)
        ensures
            made == self@.made_data_dir,
    {
        self.made_data_dir
    }

    /// The directory to prepare before the container is created. It is known
    /// whenever the pending action is to prepare it or to delete it again.
    pub fn data_dir(&self) -> (path: Option<&String>)
        ensures
            match path {
                Some(path) => self@.data_dir == Some(path@),
                None => self@.data_dir is None,
            },
            self@.pending() == ProvisionAction::PrepareDataDir ==> path is Some,
            self@.pending() == ProvisionAction::RemoveDataDir ==> path is Some,
    {
        proof {
            use_type_invariant(self);
        }
        self.data_dir.as_ref()
    }

    /// The absolute path of the data directory, once it is bound into the
    /// container.
    pub fn bound_data_path(&self) -> (path: Option<&String>)
        ensures
            match path {
                Some(path) => self@.bound_data_path == Some(path@),
                None => self@.bound_data_path is None,
            },
    {
        self.bound_data_path.as_ref()
    }

    /// The creation request.
    pub fn container_spec(&self) -> (spec: &ContainerSpec)
        ensures
            spec@ == self@.spec,
    {
        &self.spec
    }

    /// The runtime's handle of the container. It is known whenever the
    /// pending action is about the container.
    pub fn container_id(&self) -> (id: Option<&String>)
        ensures
            match id {
                Some(id) => self@.container_id == Some(id@),
                None => self@.container_id is None,
            },
            self@.targets_container() ==> id is Some,
    {
        proof {
            use_type_invariant(self);
        }
        self.container_id.as_ref()
    }

    /// Address of the service on `domain`, at the published port.
    pub fn get_sse_url(&self, domain: &str) -> (url: String)
        ensures
            url@ == spec_sse_url(domain@, self@.port),
    {
        get_sse_url(domain, self.port)
    }

    /// What the caller is told: `None` while work is left, the address of the
    /// service once it is ready, the failure otherwise.
    pub fn outcome(&self) -> (outcome: Option<Result<String, LifecycleError>>)
        ensures
            match outcome {
                None => self@.outcome() is None,
                Some(Ok(url)) => self@.outcome() == Some(
                    Ok::<Seq<char>, LifecycleError>(url@),
                ),
                Some(Err(error)) => self@.outcome() == Some(
                    Err::<Seq<char>, LifecycleError>(error),
                ),
            },
    {
        match self.phase {
            ProvisionPhase::Ready => Some(Ok(get_sse_url("localhost", self.port))),
            ProvisionPhase::Failed(error) => Some(Err(error)),
            _ => None,
        }
    }
}

impl ManagedContainerView {
    /// Whether `event` can follow the pending action: it reports the outcome
    /// of that action or, before cleanup has begun, a cancellation; and a
    /// clock reading lies at least one interval after the one before it.
    pub open spec fn answered_by(self, event: ProvisionEventView) -> bool {
        match self.phase {
            ProvisionPhase::PreparingData => event is DataDirReady || event is DataDirFailed
                || event is Cancelled,
            ProvisionPhase::Creating => event is Created || event is CreateFailed
                || event is Cancelled,
            ProvisionPhase::Starting => event is Started || event is StartFailed
                || event is Cancelled,
            ProvisionPhase::Inspecting => event is Inspected || event is InspectFailed
                || event is Cancelled,
            ProvisionPhase::Sleeping => event is Cancelled || (event matches ProvisionEventView::Slept {
                elapsed_ms,
            } && elapsed_ms >= self.elapsed_ms + POLL_INTERVAL_MS),
            ProvisionPhase::Stopping => event is Stopped,
            ProvisionPhase::Removing => event is Removed,
            ProvisionPhase::RemovingDataDir => event is DataDirRemoved,
            ProvisionPhase::Ready => false,
            ProvisionPhase::Failed(_) => false,
        }
    }

    /// An upper bound on the number of events that can still follow.
    pub open spec fn steps_left(self) -> nat {
        match self.phase {
            ProvisionPhase::PreparingData => 2 * polls_left(0) + 5,
            ProvisionPhase::Creating => 2 * polls_left(0) + 4,
            ProvisionPhase::Starting => 2 * polls_left(0) + 3,
            ProvisionPhase::Inspecting => 2 * polls_left(self.elapsed_ms) + 2,
            ProvisionPhase::Sleeping => 2 * polls_left(self.elapsed_ms) + 1,
            ProvisionPhase::Stopping => 2,
            ProvisionPhase::Removing => 1,
            ProvisionPhase::RemovingDataDir => 1,
            ProvisionPhase::Ready => 0,
            ProvisionPhase::Failed(_) => 0,
        }
    }
}

/// The event that an inspection gives: its report, or the failure where it
/// gave none.
pub open spec fn inspection_event(answer: Option<Inspection>) -> ProvisionEventView {
    match answer {
        Some(report) => ProvisionEventView::Inspected { report },
        None => ProvisionEventView::InspectFailed,
    }
}

/// Whether the inspection found the container running and healthy.
pub open spec fn found_ready(answer: Option<Inspection>) -> bool {
    answer matches Some(report) && report.spec_verdict() == HealthVerdict::Ready
}

/// Whether the inspection leaves the container waited on: it failed, or it
/// found the container neither ready nor gone.
pub open spec fn keeps_waiting(answer: Option<Inspection>) -> bool {
    match answer {
        Some(report) => report.spec_verdict() == HealthVerdict::NotYet,
        None => true,
    }
}

/// One round of the health check for each inspection: the inspection, whether
/// it answers or fails, then the wait that ends at the clock reading of the
/// same index.
pub open spec fn waiting_rounds(
    answers: Seq<Option<Inspection>>,
    readings: Seq<u64>,
) -> Seq<ProvisionEventView>
    recommends
        answers.len() == readings.len(),
    decreases answers.len(),
{
    if answers.len() == 0 || readings.len() == 0 {
        Seq::empty()
    } else {
        seq![
            inspection_event(answers.first()),
            ProvisionEventView::Slept { elapsed_ms: readings.first() },
        ] + waiting_rounds(answers.drop_first(), readings.drop_first())
    }
}

/// The state after the first round of some rounds.
pub open spec fn after_first_round(
    container: ManagedContainerView,
    answers: Seq<Option<Inspection>>,
    readings: Seq<u64>,
) -> ManagedContainerView {
    container.after(inspection_event(answers.first())).after(
        ProvisionEventView::Slept { elapsed_ms: readings.first() },
    )
}

/// Rounds are taken one by one: the state after all of them is the state
/// after the first and then after the others.
pub proof fn lemma_first_round_unfolds(
    container: ManagedContainerView,
    answers: Seq<Option<Inspection>>,
    readings: Seq<u64>,
)
    requires
        answers.len() > 0,
        readings.len() > 0,
    ensures
        container.after_all(waiting_rounds(answers, readings)) == after_first_round(
            container,
            answers,
            readings,
        ).after_all(waiting_rounds(answers.drop_first(), readings.drop_first())),
        answers.first() == answers[0],
        readings.first() == readings[0],
        forall|i: int|
            0 <= i < answers.len() - 1 ==> #[trigger] answers.drop_first()[i] == answers[i + 1],
        forall|i: int|
            0 <= i < readings.len() - 1 ==> #[trigger] readings.drop_first()[i] == readings[i
                + 1],
{
    let events = waiting_rounds(answers, readings);
    let rest = waiting_rounds(answers.drop_first(), readings.drop_first());
    assert(events.first() == inspection_event(answers.first()));
    assert(events.drop_first().first() == ProvisionEventView::Slept {
        elapsed_ms: readings.first(),
    });
    assert(events.drop_first().drop_first() =~= rest);
    assert(container.after_all(events) == container.after(events.first()).after_all(
        events.drop_first(),
    ));
}

/// No event breaks what every managed container satisfies.
pub proof fn lemma_step_preserves_wf(container: ManagedContainerView, event: ProvisionEventView)
    requires
        container.wf(),
    ensures
        container.after(event).wf(),
{
}

/// A fresh plan is well formed, and it is the plan's first action to prepare
/// the data directory exactly when the deployment has a data root.
pub proof fn lemma_plans_are_well_formed(
    data_root: Option<Seq<char>>,
    service_id: u64,
    owner_public_key: Seq<char>,
    tier: ResourceTier,
    port: u16,
    project_id: Seq<char>,
)
    ensures
        ManagedContainerView::workspace(data_root, service_id, owner_public_key, tier, port).wf(),
        ManagedContainerView::project(project_id, owner_public_key, tier, port).wf(),
        ManagedContainerView::workspace(
            data_root,
            service_id,
            owner_public_key,
            tier,
            port,
        ).pending() == if data_root is Some {
            ProvisionAction::PrepareDataDir
        } else {
            ProvisionAction::CreateContainer
        },
        ManagedContainerView::project(project_id, owner_public_key, tier, port).pending()
            == ProvisionAction::CreateContainer,
{
}

/// The container is ready as soon as an inspection finds it running and
/// healthy, however little time has passed: the very next action is to
/// finish, and the caller gets the address on the published port.
pub proof fn lemma_ready_as_soon_as_healthy(container: ManagedContainerView, report: Inspection)
    requires
        container.phase is Inspecting,
        report.spec_verdict() == HealthVerdict::Ready,
    ensures
        container.after(ProvisionEventView::Inspected { report }).phase == ProvisionPhase::Ready,
        container.after(ProvisionEventView::Inspected { report }).pending()
            == ProvisionAction::Finish,
        container.after(ProvisionEventView::Inspected { report }).outcome() == Some(
            Ok::<Seq<char>, LifecycleError>(spec_sse_url(spec_local_domain(), container.port)),
        ),
        container.after(ProvisionEventView::Inspected { report }).spec.port_binding
            == container.spec.port_binding,
{
}

/// After any number of rounds in which the container was not ready yet, be
/// it that the inspection said so or that it failed, and in which the clock
/// stayed before the deadline, the machine is inspecting again, with the last
/// reading as its clock.
pub proof fn lemma_waiting_rounds_keep_inspecting(
    container: ManagedContainerView,
    answers: Seq<Option<Inspection>>,
    readings: Seq<u64>,
)
    requires
        container.phase is Inspecting,
        answers.len() == readings.len(),
        forall|i: int| 0 <= i < answers.len() ==> keeps_waiting(#[trigger] answers[i]),
        forall|i: int| 0 <= i < readings.len() ==> #[trigger] readings[i] < HEALTH_TIMEOUT_MS,
    ensures
        container.after_all(waiting_rounds(answers, readings)) == (ManagedContainerView {
            elapsed_ms: if readings.len() == 0 {
                container.elapsed_ms
            } else {
                readings.last()
            },
            ..container
        }),
    decreases answers.len(),
{
    if answers.len() == 0 {
        assert(container.after_all(waiting_rounds(answers, readings)) == container);
    } else {
        lemma_first_round_unfolds(container, answers, readings);
        let next = after_first_round(container, answers, readings);
        assert(keeps_waiting(answers[0]));
        assert(next == ManagedContainerView { elapsed_ms: readings.first(), ..container });
        lemma_waiting_rounds_keep_inspecting(next, answers.drop_first(), readings.drop_first());
        if readings.drop_first().len() > 0 {
            assert(readings.drop_first().last() == readings.last());
        }
    }
}

/// A container that reports healthy on a later inspection is ready right
/// after that inspection: the rounds before it, in which inspections failed
/// or found it not ready yet, are followed by no further wait.
pub proof fn lemma_ready_after_waiting_rounds(
    container: ManagedContainerView,
    answers: Seq<Option<Inspection>>,
    readings: Seq<u64>,
    healthy: Inspection,
)
    requires
        container.phase is Inspecting,
        answers.len() == readings.len(),
        forall|i: int| 0 <= i < answers.len() ==> keeps_waiting(#[trigger] answers[i]),
        forall|i: int| 0 <= i < readings.len() ==> #[trigger] readings[i] < HEALTH_TIMEOUT_MS,
        healthy.spec_verdict() == HealthVerdict::Ready,
    ensures
        container.after_all(waiting_rounds(answers, readings)).after(
            ProvisionEventView::Inspected { report: healthy },
        ).phase == ProvisionPhase::Ready,
        container.after_all(waiting_rounds(answers, readings)).after(
            ProvisionEventView::Inspected { report: healthy },
        ).outcome() == Some(
            Ok::<Seq<char>, LifecycleError>(spec_sse_url(spec_local_domain(), container.port)),
        ),
{
    lemma_waiting_rounds_keep_inspecting(container, answers, readings);
}

/// Rounds of the health check end in cleanup once the deadline has passed:
/// if `done` rounds lie behind and the deadline still ahead, no inspection
/// finds the container ready, each wait lasts at least one interval and the
/// rounds reach to the deadline, then the container is being stopped after
/// them. Inspections may fail or answer as they like.
pub proof fn lemma_rounds_end_in_cleanup(
    container: ManagedContainerView,
    answers: Seq<Option<Inspection>>,
    readings: Seq<u64>,
    done: nat,
)
    requires
        container.phase is Stopping || (container.phase is Inspecting && done * POLL_INTERVAL_MS
            < HEALTH_TIMEOUT_MS && (done + answers.len()) * POLL_INTERVAL_MS
            >= HEALTH_TIMEOUT_MS),
        answers.len() == readings.len(),
        forall|i: int| 0 <= i < answers.len() ==> !found_ready(#[trigger] answers[i]),
        forall|i: int|
            0 <= i < readings.len() ==> #[trigger] readings[i] >= (done + i + 1)
                * POLL_INTERVAL_MS,
    ensures
        container.after_all(waiting_rounds(answers, readings)).phase is Stopping,
        container.after_all(waiting_rounds(answers, readings)).cancelled == container.cancelled,
    decreases answers.len(),
{
    if answers.len() == 0 {
        assert(container.after_all(waiting_rounds(answers, readings)) == container);
    } else {
        lemma_first_round_unfolds(container, answers, readings);
        let next = after_first_round(container, answers, readings);
        assert(!found_ready(answers[0]));
        assert(readings[0] >= (done + 1) * POLL_INTERVAL_MS);
        lemma_rounds_end_in_cleanup(next, answers.drop_first(), readings.drop_first(), done + 1);
    }
}

/// A container that never reports healthy is given up and removed: after
/// thirty rounds, each with a wait of at least one interval, it is being
/// stopped, whether its inspections failed or answered; the removal follows
/// whatever the stop gives, and the timeout is reported once the runtime has
/// removed the container.
pub proof fn lemma_never_healthy_times_out(
    container: ManagedContainerView,
    answers: Seq<Option<Inspection>>,
    readings: Seq<u64>,
    stop_ok: bool,
)
    requires
        container.phase is Inspecting,
        !container.cancelled,
        answers.len() == 30,
        readings.len() == 30,
        forall|i: int| 0 <= i < answers.len() ==> !found_ready(#[trigger] answers[i]),
        forall|i: int|
            0 <= i < readings.len() ==> #[trigger] readings[i] >= (i + 1) * POLL_INTERVAL_MS,
    ensures
        ({
            let given_up = container.after_all(waiting_rounds(answers, readings));
            &&& given_up.pending() == ProvisionAction::StopContainer
            &&& given_up.after(ProvisionEventView::Stopped { ok: stop_ok }).pending()
                == ProvisionAction::RemoveContainer
            &&& given_up.after(ProvisionEventView::Stopped { ok: stop_ok }).after(
                ProvisionEventView::Removed { ok: true },
            ).outcome() == Some(
                Err::<Seq<char>, LifecycleError>(LifecycleError::HealthCheckTimeout),
            )
        }),
{
    lemma_rounds_end_in_cleanup(container, answers, readings, 0);
}

/// Once the clock has reached the deadline the health check is over: the
/// container is not inspected again, it is stopped. Before the deadline it is
/// inspected again.
pub proof fn lemma_deadline_ends_health_check(container: ManagedContainerView, elapsed_ms: u64)
    requires
        container.phase is Sleeping,
    ensures
        elapsed_ms >= HEALTH_TIMEOUT_MS ==> container.after(
            ProvisionEventView::Slept { elapsed_ms },
        ).pending() == ProvisionAction::StopContainer,
        elapsed_ms < HEALTH_TIMEOUT_MS ==> container.after(
            ProvisionEventView::Slept { elapsed_ms },
        ).pending() == ProvisionAction::InspectContainer,
{
}

/// A container that has exited or died is given up at once, without a wait.
pub proof fn lemma_gone_container_is_given_up(container: ManagedContainerView, report: Inspection)
    requires
        container.phase is Inspecting,
        report.spec_verdict() == HealthVerdict::Gone,
    ensures
        container.after(ProvisionEventView::Inspected { report }).pending()
            == ProvisionAction::StopContainer,
{
}

/// A failed inspection counts as not healthy yet: the wait goes on.
pub proof fn lemma_failed_inspection_is_not_fatal(container: ManagedContainerView)
    requires
        container.phase is Inspecting,
    ensures
        container.after(ProvisionEventView::InspectFailed).pending() == ProvisionAction::Sleep,
{
}

/// Cleanup always attempts the removal: whether or not the stop succeeded,
/// the container is removed next, and only then is anything reported. After
/// a timeout, the timeout is reported if the removal succeeded, the failed
/// removal otherwise.
pub proof fn lemma_cleanup_removes_before_reporting(container: ManagedContainerView, ok: bool)
    ensures
        container.phase is Stopping ==> container.after(
            ProvisionEventView::Stopped { ok },
        ).pending() == ProvisionAction::RemoveContainer,
        container.phase is Removing && !container.cancelled ==> container.after(
            ProvisionEventView::Removed { ok },
        ).outcome() == Some(
            Err::<Seq<char>, LifecycleError>(
                if ok {
                    LifecycleError::HealthCheckTimeout
                } else {
                    LifecycleError::DestroyFailed
                },
            ),
        ),
{
}

/// A cancellation never leaves a container behind unattended: if the
/// container exists, it is stopped and removed before anything is reported.
/// If none exists yet, what a refused creation leads to is done: a data
/// directory that this provisioning made is deleted first, and the
/// provisioning fails.
pub proof fn lemma_cancellation_cleans_up(
    container: ManagedContainerView,
    stop_ok: bool,
    delete_ok: bool,
)
    requires
        container.wf(),
        container.accepts_cancellation(),
    ensures
        ({
            let cancelled = container.after(ProvisionEventView::Cancelled);
            &&& container.container_id is Some ==> cancelled.pending()
                == ProvisionAction::StopContainer && cancelled.after(
                ProvisionEventView::Stopped { ok: stop_ok },
            ).pending() == ProvisionAction::RemoveContainer && cancelled.after(
                ProvisionEventView::Stopped { ok: stop_ok },
            ).after(ProvisionEventView::Removed { ok: true }).outcome() == Some(
                Err::<Seq<char>, LifecycleError>(LifecycleError::ProvisionFailed),
            )
            &&& container.container_id is None && container.made_data_dir ==> cancelled.pending()
                == ProvisionAction::RemoveDataDir && cancelled.after(
                ProvisionEventView::DataDirRemoved { ok: delete_ok },
            ).outcome() == Some(Err::<Seq<char>, LifecycleError>(LifecycleError::ProvisionFailed))
            &&& container.container_id is None && !container.made_data_dir ==> cancelled.outcome()
                == Some(Err::<Seq<char>, LifecycleError>(LifecycleError::ProvisionFailed))
        }),
{
}

/// A timeout is reported only when the runtime has confirmed that the
/// container is removed.
pub proof fn lemma_timeout_means_removed(container: ManagedContainerView, event: ProvisionEventView)
    requires
        !container.finished(),
        container.after(event).phase == ProvisionPhase::Failed(LifecycleError::HealthCheckTimeout),
    ensures
        container.phase is Removing,
        !container.cancelled,
        event == (ProvisionEventView::Removed { ok: true }),
{
}

/// Failures before the container runs are not retried, and each ends the
/// provisioning with `ProvisionFailed`.
/// - A directory that cannot be prepared, and a refused start, end it at once:
///   after a refused start the container is left as it is, unstarted.
/// - A refused creation ends it at once where the data directory was there
///   before or there is none. Where this provisioning made the directory, the
///   driver is first asked to delete it again; whatever comes of that, the
///   failure is reported next.
pub proof fn lemma_early_failures(container: ManagedContainerView, delete_ok: bool)
    ensures
        container.phase is PreparingData ==> container.after(
            ProvisionEventView::DataDirFailed,
        ).outcome() == Some(Err::<Seq<char>, LifecycleError>(LifecycleError::ProvisionFailed)),
        container.phase is Starting ==> container.after(
            ProvisionEventView::StartFailed,
        ).outcome() == Some(Err::<Seq<char>, LifecycleError>(LifecycleError::ProvisionFailed)),
        container.phase is Creating && !container.made_data_dir ==> container.after(
            ProvisionEventView::CreateFailed,
        ).outcome() == Some(Err::<Seq<char>, LifecycleError>(LifecycleError::ProvisionFailed)),
        container.phase is Creating && container.made_data_dir ==> container.after(
            ProvisionEventView::CreateFailed,
        ).pending() == ProvisionAction::RemoveDataDir && container.after(
            ProvisionEventView::CreateFailed,
        ).outcome() is None && container.after(ProvisionEventView::CreateFailed).after(
            ProvisionEventView::DataDirRemoved { ok: delete_ok },
        ).outcome() == Some(Err::<Seq<char>, LifecycleError>(LifecycleError::ProvisionFailed)),
{
}

/// Only a directory that this provisioning made is ever deleted, and only
/// while no container exists. The driver is asked to delete the data
/// directory only after a refused creation or a cancellation, and only where
/// the directory was reported as made just now; a directory that was there
/// before is never touched.
pub proof fn lemma_only_a_directory_made_here_is_deleted(
    container: ManagedContainerView,
    event: ProvisionEventView,
)
    requires
        container.wf(),
    ensures
        container.after(event).pending() == ProvisionAction::RemoveDataDir && container.pending()
            != ProvisionAction::RemoveDataDir ==> container.made_data_dir
            && container.container_id is None && container.data_dir is Some && (event
            is CreateFailed || event is Cancelled),
        container.after(event).made_data_dir && !container.made_data_dir
            ==> container.phase is PreparingData && event is DataDirReady && event->created,
        container.made_data_dir ==> container.after(event).made_data_dir || (
        container.phase is PreparingData && event is DataDirReady),
        container.after(event).data_dir == container.data_dir,
{
}

/// The container is created only after its data directory is there, and the
/// creation request then binds that directory.
pub proof fn lemma_data_dir_comes_before_creation(
    container: ManagedContainerView,
    event: ProvisionEventView,
)
    requires
        container.phase is PreparingData,
        container.after(event).pending() == ProvisionAction::CreateContainer,
    ensures
        event is DataDirReady,
        container.after(event).spec.binds == seq![spec_workspace_bind(event->host_path)],
        container.after(event).bound_data_path == Some(event->host_path),
        container.after(event).made_data_dir == event->created,
{
}

/// Every answer to the pending action brings the end nearer, as long as each
/// wait lasts at least one interval. So the provisioning ends, and it ends
/// after at most `steps_left` events.
pub proof fn lemma_every_answer_makes_progress(
    container: ManagedContainerView,
    event: ProvisionEventView,
)
    requires
        container.wf(),
        container.answered_by(event),
    ensures
        container.after(event).steps_left() < container.steps_left(),
{
}

/// The health check fits thirty inspections, and no provisioning takes more
/// than sixty-five events.
pub proof fn lemma_steps_left_is_bounded(container: ManagedContainerView)
    ensures
        polls_left(0) == 30,
        container.steps_left() <= 65,
{
}

/// Events that arrive when nothing is pending change nothing.
pub proof fn lemma_finished_stays_finished(
    container: ManagedContainerView,
    event: ProvisionEventView,
)
    requires
        container.finished(),
    ensures
        container.after(event) == container,
{
}

} // verus!
