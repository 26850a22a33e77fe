//! Destroying the container of a service and purging its data.
//!
//! A [`Teardown`] is a state machine like the one that provisions: its state
//! says which action is pending, the driver reports the outcome of that
//! action, and [`Teardown::step`] names the next one. Destroying what is not
//! there succeeds.

use crate::error::LifecycleError;
use crate::naming::{
    container_name, is_path_component, name_matches, project_container_name, project_data_dir,
    spec_container_name, spec_name_matches, spec_project_container_name, spec_project_data_dir,
    spec_workspace_data_dir, workspace_data_dir,
};
use crate::provision::ManagedContainerView;
use crate::purge::{lemma_purge_removes_the_whole_tree, PurgeView, Tree};
use crate::request::{DestroyProjectParams, MyContext};
use crate::tier::ResourceTier;
use vstd::prelude::*;
use vstd::string::*;

verus! {

/// One entry of the runtime's list of containers.
#[derive(Debug, Clone)]
pub struct ContainerSummary {
    /// The runtime's handle of the container.
    pub id: Option<String>,
    /// The names of the container, each possibly behind a slash prefix.
    pub names: Option<Vec<String>>,
}

/// A list entry as plain values.
#[verifier::ext_equal]
pub struct ContainerSummaryView {
    pub id: Option<Seq<char>>,
    pub names: Option<Seq<Seq<char>>>,
}

impl View for ContainerSummary {
    type V = ContainerSummaryView;

    open spec fn view(&self) -> ContainerSummaryView {
        ContainerSummaryView {
            id: match self.id {
                Some(id) => Some(id@),
                None => None,
            },
            names: match self.names {
                Some(names) => Some(names.deep_view()),
                None => None,
            },
        }
    }
}

impl DeepView for ContainerSummary {
    type V = ContainerSummaryView;

    open spec fn deep_view(&self) -> ContainerSummaryView {
        self.view()
    }
}

/// Whether one of the entry's names is `target`.
pub open spec fn spec_has_name(summary: ContainerSummaryView, target: Seq<char>) -> bool {
    summary.names matches Some(names) && exists|i: int|
        0 <= i < names.len() && spec_name_matches(#[trigger] names[i], target)
}

/// Whether the entry is to be removed: it bears the name and has a handle.
pub open spec fn is_removal_target(summary: ContainerSummaryView, target: Seq<char>) -> bool {
    spec_has_name(summary, target) && summary.id is Some
}

/// Whether the list holds an entry named `target`.
pub open spec fn spec_is_listed(containers: Seq<ContainerSummaryView>, target: Seq<char>) -> bool {
    exists|i: int| 0 <= i < containers.len() && spec_has_name(#[trigger] containers[i], target)
}

/// The handles of the entries to be removed, in the order of the list.
pub open spec fn spec_removal_targets(
    containers: Seq<ContainerSummaryView>,
    target: Seq<char>,
) -> Seq<Seq<char>>
    decreases containers.len(),
{
    if containers.len() == 0 {
        Seq::empty()
    } else {
        let earlier = spec_removal_targets(containers.drop_last(), target);
        if is_removal_target(containers.last(), target) {
            earlier.push(containers.last().id->0)
        } else {
            earlier
        }
    }
}

/// Whether one of the entry's names is `target`, slash prefix aside.
pub fn has_name(summary: &ContainerSummary, target: &str) -> (found: bool)
    ensures
        found == spec_has_name(summary@, target@),
{
    match &summary.names {
        None => false,
        Some(names) => {
            let mut i: usize = 0;
            while i < names.len()
                invariant
                    i <= names.len(),
                    summary.names == Some(*names),
                    forall|j: int|
                        0 <= j < i ==> !spec_name_matches(
                            #[trigger] names.deep_view()[j],
                            target@,
                        ),
                decreases names.len() - i,
            {
                if name_matches(names[i].as_str(), target) {
                    proof {
                        let listed = summary@.names->0;
                        assert(summary@.names == Some(names.deep_view()));
                        assert(listed.len() == names.len());
                        assert(listed[i as int] == names[i as int]@);
                        assert(spec_name_matches(listed[i as int], target@));
                    }
                    return true;
                }
                i = i + 1;
            }
            false
        },
    }
}

/// Whether the list holds an entry named `target`.
pub fn is_listed(containers: &Vec<ContainerSummary>, target: &str) -> (found: bool)
    ensures
        found == spec_is_listed(containers.deep_view(), target@),
{
    let mut i: usize = 0;
    while i < containers.len()
        invariant
            i <= containers.len(),
            forall|j: int|
                0 <= j < i ==> !spec_has_name(#[trigger] containers.deep_view()[j], target@),
        decreases containers.len() - i,
    {
        if has_name(&containers[i], target) {
            assert(spec_has_name(containers.deep_view()[i as int], target@));
            return true;
        }
        i = i + 1;
    }
    false
}

/// The handles of the entries named `target`, in the order of the list. An
/// entry without a handle cannot be removed and is left out.
pub fn removal_targets(containers: &Vec<ContainerSummary>, target: &str) -> (targets: Vec<String>)
    ensures
        targets.deep_view() == spec_removal_targets(containers.deep_view(), target@),
{
    let mut targets: Vec<String> = Vec::new();
    let mut i: usize = 0;
    assert(containers.deep_view().take(0) =~= Seq::empty());
    assert(targets.deep_view() =~= Seq::<Seq<char>>::empty());
    while i < containers.len()
        invariant
            i <= containers.len(),
            targets.deep_view() == spec_removal_targets(
                containers.deep_view().take(i as int),
                target@,
            ),
        decreases containers.len() - i,
    {
        let ghost seen = containers.deep_view().take(i as int);
        let ghost upto = containers.deep_view().take(i + 1);
        let ghost before = targets.deep_view();
        assert(upto.drop_last() =~= seen);
        assert(upto.last() == containers[i as int]@);
        if has_name(&containers[i], target) {
            match &containers[i].id {
                Some(id) => {
                    targets.push(id.clone());
                    assert(targets.deep_view() =~= before.push(id@));
                },
                None => {},
            }
        }
        i = i + 1;
    }
    assert(containers.deep_view().take(containers.len() as int) =~= containers.deep_view());
    targets
}

/// Where a teardown stands.
#[derive(Clone, Copy, Debug, PartialEq, Eq, Structural)]
pub enum TeardownPhase {
    /// The runtime is listing its containers.
    Listing,
    /// The runtime is stopping the current target.
    Stopping,
    /// The runtime is removing the current target.
    Removing,
    /// The data directory is being deleted.
    Purging,
    /// Nothing is left of the service.
    Done,
    /// The teardown has failed.
    Failed(LifecycleError),
}

/// What the driver is asked to do next.
#[derive(Clone, Copy, Debug, PartialEq, Eq, Structural)]
pub enum TeardownAction {
    /// List all containers that the runtime knows.
    ListContainers,
    /// Stop the container [`Teardown::target_id`].
    StopContainer,
    /// Remove the container [`Teardown::target_id`] by force.
    RemoveContainer,
    /// Delete the directory [`Teardown::data_dir`] with all it holds, if it
    /// exists; [`crate::purge::Purge`] says in which order.
    PurgeDataDir,
    /// Nothing is left to do: hand [`Teardown::outcome`] to the caller.
    Finish,
}

/// The outcome of an action, as the driver reports it.
#[derive(Debug)]
pub enum TeardownEvent {
    /// The runtime's list of containers.
    Listed { containers: Vec<ContainerSummary> },
    /// The runtime could not be asked for its list.
    ListFailed,
    /// The runtime was asked to stop the target; `ok` tells whether it did.
    Stopped { ok: bool },
    /// The runtime was asked to remove the target; `ok` tells whether it did.
    Removed { ok: bool },
    /// The data directory was looked for and, if there, deleted; `ok` is
    /// false if the deletion failed.
    Purged { ok: bool },
}

/// An event as plain values.
#[verifier::ext_equal]
pub enum TeardownEventView {
    Listed { containers: Seq<ContainerSummaryView> },
    ListFailed,
    Stopped { ok: bool },
    Removed { ok: bool },
    Purged { ok: bool },
}

impl View for TeardownEvent {
    type V = TeardownEventView;

    open spec fn view(&self) -> TeardownEventView {
        match self {
            TeardownEvent::Listed { containers } => TeardownEventView::Listed {
                containers: containers.deep_view(),
            },
            TeardownEvent::ListFailed => TeardownEventView::ListFailed,
            TeardownEvent::Stopped { ok } => TeardownEventView::Stopped { ok: *ok },
            TeardownEvent::Removed { ok } => TeardownEventView::Removed { ok: *ok },
            TeardownEvent::Purged { ok } => TeardownEventView::Purged { ok: *ok },
        }
    }
}

/// The teardown of one service.
#[derive(Debug)]
pub struct Teardown {
    container_name: String,
    data_dir: Option<String>,
    targets: Vec<String>,
    removed: usize,
    found: bool,
    removal_failed: bool,
    phase: TeardownPhase,
}

/// A teardown as plain values.
#[verifier::ext_equal]
pub struct TeardownView {
    /// The name by which the service's container is found.
    pub container_name: Seq<char>,
    /// The directory to delete, if the deployment has a data root.
    pub data_dir: Option<Seq<char>>,
    /// The handles of the containers to remove, in the order of the list.
    pub targets: Seq<Seq<char>>,
    /// How many of them the runtime has removed.
    pub removed: nat,
    /// Whether the list held a container of that name.
    pub found: bool,
    /// Whether the runtime failed to remove a container.
    pub removal_failed: bool,
    pub phase: TeardownPhase,
}

impl TeardownView {
    /// The teardown of workspace `service_id`, nothing done yet.
    pub open spec fn workspace(data_root: Option<Seq<char>>, service_id: u64) -> TeardownView {
        TeardownView {
            container_name: spec_container_name(service_id),
            data_dir: match data_root {
                Some(root) => Some(spec_workspace_data_dir(root, service_id)),
                None => None,
            },
            targets: Seq::empty(),
            removed: 0,
            found: false,
            removal_failed: false,
            phase: TeardownPhase::Listing,
        }
    }

    /// The teardown of project `service_id`, nothing done yet. A directory
    /// is purged only for an identifier that names one entry of the
    /// directory of all services; for any other, none is.
    pub open spec fn project(data_root: Option<Seq<char>>, service_id: Seq<char>) -> TeardownView {
        TeardownView {
            container_name: spec_project_container_name(service_id),
            data_dir: match data_root {
                Some(root) => if is_path_component(service_id) {
                    Some(spec_project_data_dir(root, service_id))
                } else {
                    None
                },
                None => None,
            },
            targets: Seq::empty(),
            removed: 0,
            found: false,
            removal_failed: false,
            phase: TeardownPhase::Listing,
        }
    }

    /// What every teardown satisfies: no more containers are removed than
    /// were targeted, a target is at hand while one is stopped or removed,
    /// and a directory is known while one is purged.
    pub open spec fn wf(self) -> bool {
        &&& self.removed <= self.targets.len()
        &&& self.targets_container() ==> self.removed < self.targets.len()
        &&& self.phase is Purging ==> self.data_dir is Some
        &&& self.phase is Listing ==> !self.removal_failed && self.removed == 0
    }

    /// Whether the pending action is about a container.
    pub open spec fn targets_container(self) -> bool {
        self.phase is Stopping || self.phase is Removing
    }

    /// Whether nothing is left to do.
    pub open spec fn finished(self) -> bool {
        self.phase is Done || self.phase is Failed
    }

    /// The action that the machine waits for.
    pub open spec fn pending(self) -> TeardownAction {
        match self.phase {
            TeardownPhase::Listing => TeardownAction::ListContainers,
            TeardownPhase::Stopping => TeardownAction::StopContainer,
            TeardownPhase::Removing => TeardownAction::RemoveContainer,
            TeardownPhase::Purging => TeardownAction::PurgeDataDir,
            TeardownPhase::Done => TeardownAction::Finish,
            TeardownPhase::Failed(_) => TeardownAction::Finish,
        }
    }

    /// The handle of the container that is stopped or removed next.
    pub open spec fn target_id(self) -> Option<Seq<char>> {
        if self.targets_container() && self.removed < self.targets.len() {
            Some(self.targets[self.removed as int])
        } else {
            None
        }
    }

    /// The phase once the runtime is done with: purge the data directory if
    /// there is one to purge, else report.
    pub open spec fn phase_after_runtime(self) -> TeardownPhase {
        if self.data_dir is Some {
            TeardownPhase::Purging
        } else {
            self.last_phase()
        }
    }

    /// The phase that reports: a failed removal if there was one, else success.
    pub open spec fn last_phase(self) -> TeardownPhase {
        if self.removal_failed {
            TeardownPhase::Failed(LifecycleError::DestroyFailed)
        } else {
            TeardownPhase::Done
        }
    }

    /// The same teardown in another phase.
    pub open spec fn at(self, phase: TeardownPhase) -> TeardownView {
        TeardownView { phase, ..self }
    }

    /// The state after `event`. An event that does not answer the pending
    /// action changes nothing.
    pub open spec fn after(self, event: TeardownEventView) -> TeardownView {
        match self.phase {
            TeardownPhase::Listing => match event {
                TeardownEventView::Listed { containers } => {
                    let listed = TeardownView {
                        targets: spec_removal_targets(containers, self.container_name),
                        removed: 0,
                        found: spec_is_listed(containers, self.container_name),
                        ..self
                    };
                    if listed.targets.len() > 0 {
                        listed.at(TeardownPhase::Stopping)
                    } else {
                        listed.at(listed.phase_after_runtime())
                    }
                },
                TeardownEventView::ListFailed => self.at(
                    TeardownPhase::Failed(LifecycleError::RuntimeUnavailable),
                ),
                _ => self,
            },
            TeardownPhase::Stopping => match event {
                TeardownEventView::Stopped { ok } => self.at(TeardownPhase::Removing),
                _ => self,
            },
            TeardownPhase::Removing => match event {
                TeardownEventView::Removed { ok } => if ok {
                    let removed = TeardownView { removed: self.removed + 1, ..self };
                    if removed.removed < removed.targets.len() {
                        removed.at(TeardownPhase::Stopping)
                    } else {
                        removed.at(removed.phase_after_runtime())
                    }
                } else {
                    let failed = TeardownView { removal_failed: true, ..self };
                    failed.at(failed.phase_after_runtime())
                },
                _ => self,
            },
            TeardownPhase::Purging => match event {
                TeardownEventView::Purged { ok } => self.at(self.last_phase()),
                _ => self,
            },
            TeardownPhase::Done => self,
            TeardownPhase::Failed(_) => self,
        }
    }

    /// The state after each of `events` in turn.
    pub open spec fn after_all(self, events: Seq<TeardownEventView>) -> TeardownView
        decreases events.len(),
    {
        if events.len() == 0 {
            self
        } else {
            self.after(events.first()).after_all(events.drop_first())
        }
    }

    /// What the caller is told: nothing while the work goes on, `true` once
    /// nothing is left of the service, the failure otherwise.
    pub open spec fn outcome(self) -> Option<Result<bool, LifecycleError>> {
        match self.phase {
            TeardownPhase::Done => Some(Ok(true)),
            TeardownPhase::Failed(error) => Some(Err(error)),
            _ => None,
        }
    }
}

impl View for Teardown {
    type V = TeardownView;

    closed spec fn view(&self) -> TeardownView {
        TeardownView {
            container_name: self.container_name@,
            data_dir: match self.data_dir {
                Some(path) => Some(path@),
                None => None,
            },
            targets: self.targets.deep_view(),
            removed: self.removed as nat,
            found: self.found,
            removal_failed: self.removal_failed,
            phase: self.phase,
        }
    }
}

impl Teardown {
    #[verifier::type_invariant]
    spec fn well_formed(&self) -> bool {
        self@.wf()
    }

    /// Plans the teardown of workspace `service_id`.
    pub fn workspace(ctx: &MyContext, service_id: u64) -> (teardown: Teardown)
        ensures
            teardown@ == TeardownView::workspace(ctx.spec_data_dir(), service_id),
            teardown@.wf(),
    {
        let data_dir = match &ctx.data_dir {
            Some(root) => Some(workspace_data_dir(root.as_str(), service_id)),
            None => None,
        };
        let targets: Vec<String> = Vec::new();
        assert(targets.deep_view() =~= Seq::<Seq<char>>::empty());
        Teardown {
            container_name: container_name(service_id),
            data_dir,
            targets,
            removed: 0,
            found: false,
            removal_failed: false,
            phase: TeardownPhase::Listing,
        }
    }

    /// Plans the teardown of the project that `params` names.
    pub fn project(ctx: &MyContext, params: &DestroyProjectParams) -> (teardown: Teardown)
        ensures
            teardown@ == TeardownView::project(ctx.spec_data_dir(), params.service_id@),
            teardown@.wf(),
    {
        let data_dir = match &ctx.data_dir {
            Some(root) => project_data_dir(root.as_str(), params.service_id.as_str()),
            None => None,
        };
        let targets: Vec<String> = Vec::new();
        assert(targets.deep_view() =~= Seq::<Seq<char>>::empty());
        Teardown {
            container_name: project_container_name(params.service_id.as_str()),
            data_dir,
            targets,
            removed: 0,
            found: false,
            removal_failed: false,
            phase: TeardownPhase::Listing,
        }
    }

    /// The action that the machine waits for.
    pub fn pending(&self) -> (action: TeardownAction)
        ensures
            action == self@.pending(),
    {
        match self.phase {
            TeardownPhase::Listing => TeardownAction::ListContainers,
            TeardownPhase::Stopping => TeardownAction::StopContainer,
            TeardownPhase::Removing => TeardownAction::RemoveContainer,
            TeardownPhase::Purging => TeardownAction::PurgeDataDir,
            TeardownPhase::Done => TeardownAction::Finish,
            TeardownPhase::Failed(_) => TeardownAction::Finish,
        }
    }

    /// The phase once the runtime is done with.
    fn phase_after_runtime(&self) -> (phase: TeardownPhase)
        ensures
            phase == self@.phase_after_runtime(),
    {
        if self.data_dir.is_some() {
            TeardownPhase::Purging
        } else {
            self.last_phase()
        }
    }

    /// The phase that reports.
    fn last_phase(&self) -> (phase: TeardownPhase)
        ensures
            phase == self@.last_phase(),
    {
        if self.removal_failed {
            TeardownPhase::Failed(LifecycleError::DestroyFailed)
        } else {
            TeardownPhase::Done
        }
    }

    /// Takes in the outcome of the pending action and names the next one.
    pub fn step(&mut self, event: TeardownEvent) -> (action: TeardownAction)
        ensures
            final(self)@ == old(self)@.after(event@),
            final(self)@.wf(),
            action == final(self)@.pending(),
    {
        proof {
            use_type_invariant(&*self);
        }
        match self.phase {
            TeardownPhase::Listing => match event {
                TeardownEvent::Listed { containers } => {
                    let targets = removal_targets(&containers, self.container_name.as_str());
                    let found = is_listed(&containers, self.container_name.as_str());
                    let next = if targets.len() > 0 {
                        TeardownPhase::Stopping
                    } else {
                        self.phase_after_runtime()
                    };
                    self.found = found;
                    self.targets = targets;
                    self.phase = next;
                },
                TeardownEvent::ListFailed => {
                    self.phase = TeardownPhase::Failed(LifecycleError::RuntimeUnavailable);
                },
                _ => {},
            },
            TeardownPhase::Stopping => match event {
                TeardownEvent::Stopped { ok } => {
                    self.phase = TeardownPhase::Removing;
                },
                _ => {},
            },
            TeardownPhase::Removing => match event {
                TeardownEvent::Removed { ok } => {
                    if ok {
                        assert(self.targets.deep_view().len() == self.targets.len());
                        let removed: usize = self.removed + 1;
                        if removed < self.targets.len() {
                            self.removed = removed;
                            self.phase = TeardownPhase::Stopping;
                        } else {
                            let next = self.phase_after_runtime();
                            self.phase = next;
                            self.removed = removed;
                        }
                    } else {
                        self.removal_failed = true;
                        let next = self.phase_after_runtime();
                        self.phase = next;
                    }
                },
                _ => {},
            },
            TeardownPhase::Purging => match event {
                TeardownEvent::Purged { ok } => {
                    let next = self.last_phase();
                    self.phase = next;
                },
                _ => {},
            },
            TeardownPhase::Done => {},
            TeardownPhase::Failed(_) => {},
        }
        self.pending()
    }

    pub fn phase(&self) -> (phase: TeardownPhase)
        ensures
            phase == self@.phase,
    {
        self.phase
    }

    /// Whether nothing is left to do.
    pub fn is_finished(&self) -> (finished: bool)
        ensures
            finished == self@.finished(),
    {
        match self.phase {
            TeardownPhase::Done => true,
            TeardownPhase::Failed(_) => true,
            _ => false,
        }
    }

    /// The name by which the service's container is found.
    pub fn container_name(&self) -> (name: &String)
        ensures
            name@ == self@.container_name,
    {
        &self.container_name
    }

    /// The directory to delete. It is known whenever the pending action is to
    /// purge it.
    pub fn data_dir(&self) -> (path: Option<&String>)
        ensures
            match path {
                Some(path) => self@.data_dir == Some(path@),
                None => self@.data_dir is None,
            },
            self@.pending() == TeardownAction::PurgeDataDir ==> path is Some,
    {
        proof {
            use_type_invariant(self);
        }
        self.data_dir.as_ref()
    }

    /// The handle of the container that is stopped or removed next. It is
    /// known whenever the pending action is about a container.
    pub fn target_id(&self) -> (id: Option<&String>)
        ensures
            match id {
                Some(id) => self@.target_id() == Some(id@),
                None => self@.target_id() is None,
            },
            self@.targets_container() ==> id is Some,
    {
        proof {
            use_type_invariant(self);
        }
        match self.phase {
            TeardownPhase::Stopping => Some(&self.targets[self.removed]),
            TeardownPhase::Removing => Some(&self.targets[self.removed]),
            _ => None,
        }
    }

    /// Whether the runtime's list held a container of the service's name.
    pub fn found(&self) -> (found: bool)
        ensures
            found == self@.found,
    {
        self.found
    }

    /// How many containers the runtime has removed.
    pub fn removed(&self) -> (removed: usize)
        ensures
            removed == self@.removed,
            removed <= self@.targets.len(),
    {
        proof {
            use_type_invariant(self);
        }
        self.removed
    }

    /// What the caller is told: `None` while work is left, `Ok(true)` once
    /// nothing is left of the service, the failure otherwise.
    pub fn outcome(&self) -> (outcome: Option<Result<bool, LifecycleError>>)
        ensures
            outcome == self@.outcome(),
    {
        match self.phase {
            TeardownPhase::Done => Some(Ok(true)),
            TeardownPhase::Failed(error) => Some(Err(error)),
            _ => None,
        }
    }
}

impl TeardownView {
    /// Whether `event` reports the outcome of the pending action.
    pub open spec fn answered_by(self, event: TeardownEventView) -> bool {
        match self.phase {
            TeardownPhase::Listing => event is Listed || event is ListFailed,
            TeardownPhase::Stopping => event is Stopped,
            TeardownPhase::Removing => event is Removed,
            TeardownPhase::Purging => event is Purged,
            TeardownPhase::Done => false,
            TeardownPhase::Failed(_) => false,
        }
    }

    /// An upper bound on the number of events that can still follow, once the
    /// runtime's list is in.
    pub open spec fn steps_left(self) -> nat {
        match self.phase {
            TeardownPhase::Listing => 0,
            TeardownPhase::Stopping => (2 * (self.targets.len() - self.removed) + 1) as nat,
            TeardownPhase::Removing => (2 * (self.targets.len() - self.removed)) as nat,
            TeardownPhase::Purging => 1,
            TeardownPhase::Done => 0,
            TeardownPhase::Failed(_) => 0,
        }
    }
}

/// For each target one round: the stop, with the outcome of the same index,
/// then a removal that succeeds.
pub open spec fn removal_rounds(stops: Seq<bool>) -> Seq<TeardownEventView>
    decreases stops.len(),
{
    if stops.len() == 0 {
        Seq::empty()
    } else {
        seq![
            TeardownEventView::Stopped { ok: stops.first() },
            TeardownEventView::Removed { ok: true },
        ] + removal_rounds(stops.drop_first())
    }
}

/// No event breaks what every teardown satisfies.
pub proof fn lemma_teardown_step_preserves_wf(teardown: TeardownView, event: TeardownEventView)
    requires
        teardown.wf(),
    ensures
        teardown.after(event).wf(),
{
}

/// Each target is the handle of a listed container that bears the name.
pub proof fn lemma_targets_come_from_the_list(
    containers: Seq<ContainerSummaryView>,
    target: Seq<char>,
    k: int,
)
    requires
        0 <= k < spec_removal_targets(containers, target).len(),
    ensures
        exists|i: int|
            0 <= i < containers.len() && is_removal_target(#[trigger] containers[i], target)
                && containers[i].id == Some(spec_removal_targets(containers, target)[k]),
    decreases containers.len(),
{
    let earlier = spec_removal_targets(containers.drop_last(), target);
    if k < earlier.len() {
        lemma_targets_come_from_the_list(containers.drop_last(), target, k);
        let i = choose|i: int|
            0 <= i < containers.drop_last().len() && is_removal_target(
                #[trigger] containers.drop_last()[i],
                target,
            ) && containers.drop_last()[i].id == Some(earlier[k]);
        assert(containers[i] == containers.drop_last()[i]);
    } else {
        let i = containers.len() - 1;
        assert(is_removal_target(containers[i], target));
    }
}

/// Every listed container that bears the name and has a handle is a target.
pub proof fn lemma_every_named_container_is_a_target(
    containers: Seq<ContainerSummaryView>,
    target: Seq<char>,
    i: int,
)
    requires
        0 <= i < containers.len(),
        is_removal_target(containers[i], target),
    ensures
        spec_removal_targets(containers, target).contains(containers[i].id->0),
    decreases containers.len(),
{
    let earlier = spec_removal_targets(containers.drop_last(), target);
    let all = spec_removal_targets(containers, target);
    if i == containers.len() - 1 {
        assert(all.last() == containers[i].id->0);
    } else {
        lemma_every_named_container_is_a_target(containers.drop_last(), target, i);
        assert(containers.drop_last()[i] == containers[i]);
        let k = choose|k: int| 0 <= k < earlier.len() && earlier[k] == containers[i].id->0;
        assert(all[k] == earlier[k]);
    }
}

/// A list without a removable container of the name gives no target.
pub proof fn lemma_no_target_in_a_list_without_one(
    containers: Seq<ContainerSummaryView>,
    target: Seq<char>,
)
    requires
        forall|i: int|
            0 <= i < containers.len() ==> !is_removal_target(#[trigger] containers[i], target),
    ensures
        spec_removal_targets(containers, target) =~= Seq::<Seq<char>>::empty(),
    decreases containers.len(),
{
    if containers.len() > 0 {
        assert forall|i: int| 0 <= i < containers.drop_last().len() implies !is_removal_target(
            #[trigger] containers.drop_last()[i],
            target,
        ) by {
            assert(containers.drop_last()[i] == containers[i]);
        }
        lemma_no_target_in_a_list_without_one(containers.drop_last(), target);
        assert(!is_removal_target(containers[containers.len() - 1], target));
    }
}

/// Once the targets of a list are removed, the next list gives no target:
/// if `later` holds only containers of `earlier`, and none whose handle was a
/// target, nothing in it is to be removed.
pub proof fn lemma_removed_targets_are_gone(
    earlier: Seq<ContainerSummaryView>,
    later: Seq<ContainerSummaryView>,
    target: Seq<char>,
)
    requires
        forall|i: int|
            0 <= i < later.len() ==> exists|j: int|
                0 <= j < earlier.len() && #[trigger] earlier[j] == #[trigger] later[i],
        forall|i: int|
            0 <= i < later.len() && (#[trigger] later[i]).id is Some ==> !spec_removal_targets(
                earlier,
                target,
            ).contains(later[i].id->0),
    ensures
        spec_removal_targets(later, target) =~= Seq::<Seq<char>>::empty(),
{
    assert forall|i: int| 0 <= i < later.len() implies !is_removal_target(
        #[trigger] later[i],
        target,
    ) by {
        if is_removal_target(later[i], target) {
            let j = choose|j: int| 0 <= j < earlier.len() && #[trigger] earlier[j] == later[i];
            lemma_every_named_container_is_a_target(earlier, target, j);
        }
    }
    lemma_no_target_in_a_list_without_one(later, target);
}

/// Where the list gives no target, the runtime is asked to stop and remove
/// nothing: the teardown goes straight to the data directory, or is done.
/// Whatever becomes of the directory, the caller is told `true`.
pub proof fn lemma_nothing_to_remove_is_success(
    teardown: TeardownView,
    containers: Seq<ContainerSummaryView>,
    purge_ok: bool,
)
    requires
        teardown.wf(),
        teardown.phase is Listing,
        spec_removal_targets(containers, teardown.container_name).len() == 0,
    ensures
        ({
            let listed = teardown.after(TeardownEventView::Listed { containers });
            &&& listed.removed == 0
            &&& !listed.targets_container()
            &&& teardown.data_dir is Some ==> listed.pending() == TeardownAction::PurgeDataDir
                && listed.after(TeardownEventView::Purged { ok: purge_ok }).outcome() == Some(
                Ok::<bool, LifecycleError>(true),
            )
            &&& teardown.data_dir is None ==> listed.outcome() == Some(
                Ok::<bool, LifecycleError>(true),
            )
        }),
{
}

/// Destroying a service whose container is not listed succeeds without a
/// removal, and records that nothing was found.
pub proof fn lemma_absent_container_is_success(
    teardown: TeardownView,
    containers: Seq<ContainerSummaryView>,
    purge_ok: bool,
)
    requires
        teardown.wf(),
        teardown.phase is Listing,
        !spec_is_listed(containers, teardown.container_name),
    ensures
        ({
            let listed = teardown.after(TeardownEventView::Listed { containers });
            &&& !listed.found
            &&& listed.removed == 0
            &&& !listed.targets_container()
            &&& teardown.data_dir is Some ==> listed.after(
                TeardownEventView::Purged { ok: purge_ok },
            ).outcome() == Some(Ok::<bool, LifecycleError>(true))
            &&& teardown.data_dir is None ==> listed.outcome() == Some(
                Ok::<bool, LifecycleError>(true),
            )
        }),
{
    assert forall|i: int| 0 <= i < containers.len() implies !is_removal_target(
        #[trigger] containers[i],
        teardown.container_name,
    ) by {
        assert(!spec_has_name(containers[i], teardown.container_name));
    }
    lemma_no_target_in_a_list_without_one(containers, teardown.container_name);
}

/// Rounds are taken one by one: the state after all of them is the state
/// after the first stop and removal and then after the others.
pub proof fn lemma_first_removal_round_unfolds(teardown: TeardownView, stops: Seq<bool>)
    requires
        stops.len() > 0,
    ensures
        teardown.after_all(removal_rounds(stops)) == teardown.after(
            TeardownEventView::Stopped { ok: stops.first() },
        ).after(TeardownEventView::Removed { ok: true }).after_all(
            removal_rounds(stops.drop_first()),
        ),
{
    let events = removal_rounds(stops);
    assert(events.first() == TeardownEventView::Stopped { ok: stops.first() });
    assert(events.drop_first().first() == TeardownEventView::Removed { ok: true });
    assert(events.drop_first().drop_first() =~= removal_rounds(stops.drop_first()));
    assert(teardown.after_all(events) == teardown.after(events.first()).after_all(
        events.drop_first(),
    ));
}

/// After rounds for all targets that are left, in which every removal
/// succeeded, the runtime is done with: all targets are removed, whether or
/// not the stops succeeded.
pub proof fn lemma_removal_rounds_remove_all(teardown: TeardownView, stops: Seq<bool>)
    requires
        teardown.wf(),
        teardown.phase is Stopping,
        stops.len() == teardown.targets.len() - teardown.removed,
    ensures
        teardown.after_all(removal_rounds(stops)) == (TeardownView {
            removed: teardown.targets.len(),
            ..teardown
        }).at(teardown.phase_after_runtime()),
    decreases stops.len(),
{
    lemma_first_removal_round_unfolds(teardown, stops);
    let next = teardown.after(TeardownEventView::Stopped { ok: stops.first() }).after(
        TeardownEventView::Removed { ok: true },
    );
    if stops.len() == 1 {
        assert(removal_rounds(stops.drop_first()) =~= Seq::<TeardownEventView>::empty());
        assert(next.after_all(removal_rounds(stops.drop_first())) == next);
    } else {
        lemma_removal_rounds_remove_all(next, stops.drop_first());
    }
}

/// Destroy is idempotent. The first teardown of a service, in which the
/// runtime removes every target, tells the caller `true`. A second teardown,
/// whose list holds only what the first list held less the removed
/// containers, asks for no removal and tells the caller `true` again.
pub proof fn lemma_destroy_twice_succeeds_both_times(
    teardown: TeardownView,
    first_list: Seq<ContainerSummaryView>,
    stops: Seq<bool>,
    second_list: Seq<ContainerSummaryView>,
    first_purge_ok: bool,
    second_purge_ok: bool,
)
    requires
        teardown.wf(),
        teardown.phase is Listing,
        stops.len() == spec_removal_targets(first_list, teardown.container_name).len(),
        forall|i: int|
            0 <= i < second_list.len() ==> exists|j: int|
                0 <= j < first_list.len() && #[trigger] first_list[j] == #[trigger] second_list[i],
        forall|i: int|
            0 <= i < second_list.len() && (#[trigger] second_list[i]).id is Some
                ==> !spec_removal_targets(first_list, teardown.container_name).contains(
                second_list[i].id->0,
            ),
    ensures
        ({
            let first = teardown.after(TeardownEventView::Listed { containers: first_list })
                .after_all(removal_rounds(stops));
            let second = teardown.after(TeardownEventView::Listed { containers: second_list });
            &&& first.removed == spec_removal_targets(first_list, teardown.container_name).len()
            &&& second.removed == 0
            &&& !second.targets_container()
            &&& teardown.data_dir is None ==> first.outcome() == Some(
                Ok::<bool, LifecycleError>(true),
            ) && second.outcome() == Some(Ok::<bool, LifecycleError>(true))
            &&& teardown.data_dir is Some ==> first.after(
                TeardownEventView::Purged { ok: first_purge_ok },
            ).outcome() == Some(Ok::<bool, LifecycleError>(true)) && second.after(
                TeardownEventView::Purged { ok: second_purge_ok },
            ).outcome() == Some(Ok::<bool, LifecycleError>(true))
        }),
{
    let listed = teardown.after(TeardownEventView::Listed { containers: first_list });
    if stops.len() == 0 {
        assert(removal_rounds(stops) =~= Seq::<TeardownEventView>::empty());
        assert(listed.after_all(removal_rounds(stops)) == listed);
    } else {
        lemma_removal_rounds_remove_all(listed, stops);
    }
    lemma_removed_targets_are_gone(first_list, second_list, teardown.container_name);
}

/// A stop that fails is ignored: the removal is attempted all the same.
pub proof fn lemma_failed_stop_is_ignored(teardown: TeardownView, ok: bool)
    requires
        teardown.phase is Stopping,
    ensures
        teardown.after(TeardownEventView::Stopped { ok }) == teardown.at(TeardownPhase::Removing),
{
}

/// A removal that fails ends the work on the runtime and is reported in the
/// end, but the data directory is purged first where there is one.
pub proof fn lemma_failed_removal_is_reported_after_purge(teardown: TeardownView, purge_ok: bool)
    requires
        teardown.phase is Removing,
    ensures
        ({
            let failed = teardown.after(TeardownEventView::Removed { ok: false });
            &&& teardown.data_dir is Some ==> failed.pending() == TeardownAction::PurgeDataDir
                && failed.after(TeardownEventView::Purged { ok: purge_ok }).outcome() == Some(
                Err::<bool, LifecycleError>(LifecycleError::DestroyFailed),
            )
            &&& teardown.data_dir is None ==> failed.outcome() == Some(
                Err::<bool, LifecycleError>(LifecycleError::DestroyFailed),
            )
        }),
{
}

/// A data directory that cannot be deleted does not change what the caller
/// is told.
pub proof fn lemma_failed_purge_is_not_reported(teardown: TeardownView)
    requires
        teardown.phase is Purging,
    ensures
        teardown.after(TeardownEventView::Purged { ok: false }) == teardown.after(
            TeardownEventView::Purged { ok: true },
        ),
        teardown.after(TeardownEventView::Purged { ok: false }).finished(),
{
}

/// A runtime that cannot list its containers ends the teardown at once.
pub proof fn lemma_failed_listing_is_reported(teardown: TeardownView)
    requires
        teardown.phase is Listing,
    ensures
        teardown.after(TeardownEventView::ListFailed).outcome() == Some(
            Err::<bool, LifecycleError>(LifecycleError::RuntimeUnavailable),
        ),
{
}

/// Once the list is in, every answer to the pending action brings the end
/// nearer: the teardown ends after at most two events for each target and
/// one for the data directory.
pub proof fn lemma_every_teardown_answer_makes_progress(
    teardown: TeardownView,
    event: TeardownEventView,
)
    requires
        teardown.wf(),
        !(teardown.phase is Listing),
        teardown.answered_by(event),
    ensures
        teardown.after(event).steps_left() < teardown.steps_left(),
{
}

/// Events that arrive when nothing is pending change nothing.
pub proof fn lemma_finished_teardown_stays_finished(
    teardown: TeardownView,
    event: TeardownEventView,
)
    requires
        teardown.finished(),
    ensures
        teardown.after(event) == teardown,
{
}

/// The directory that a teardown purges is the one that was prepared when
/// the workspace was provisioned, and it is prepared before the container is
/// created.
pub proof fn lemma_teardown_purges_the_provisioned_directory(
    data_root: Seq<char>,
    service_id: u64,
    owner_public_key: Seq<char>,
    tier: ResourceTier,
    port: u16,
)
    ensures
        ({
            let container = ManagedContainerView::workspace(
                Some(data_root),
                service_id,
                owner_public_key,
                tier,
                port,
            );
            let teardown = TeardownView::workspace(Some(data_root), service_id);
            &&& container.data_dir == Some(spec_workspace_data_dir(data_root, service_id))
            &&& teardown.data_dir == container.data_dir
            &&& container.phase is PreparingData
            &&& teardown.container_name == container.spec.name->0
        }),
{
}

/// The teardown of a project looks for the name that the project's container
/// was created with, and purges the project's entry of the directory of all
/// services. Where the identifier does not name one entry, as the empty text,
/// a text with a slash, `.` and `..` do not, nothing is purged.
pub proof fn lemma_teardown_finds_the_provisioned_project(
    data_root: Option<Seq<char>>,
    service_id: Seq<char>,
    owner_public_key: Seq<char>,
    tier: ResourceTier,
    port: u16,
)
    ensures
        ({
            let container = ManagedContainerView::project(service_id, owner_public_key, tier, port);
            let teardown = TeardownView::project(data_root, service_id);
            &&& container.spec.name == Some(teardown.container_name)
            &&& data_root is Some && is_path_component(service_id) ==> teardown.data_dir == Some(
                data_root->0 + "/workspaces/"@ + service_id,
            )
            &&& data_root is None || !is_path_component(service_id) ==> teardown.data_dir is None
        }),
{
}

/// Destroying a workspace leaves nothing of its data. Whatever containers
/// are listed and whatever the stops give, if every removal succeeds the
/// teardown asks for the purge of the directory that was prepared when the
/// workspace was provisioned; whatever files and nested directories that
/// directory holds, a purge that the filesystem carries out removes every
/// path at or below it; and the caller is told `true`.
pub proof fn lemma_destroy_leaves_nothing_of_the_data(
    data_root: Seq<char>,
    service_id: u64,
    containers: Seq<ContainerSummaryView>,
    stops: Seq<bool>,
    data: Tree,
)
    requires
        data.is_dir,
        data.path == spec_workspace_data_dir(data_root, service_id),
        stops.len() == spec_removal_targets(containers, spec_container_name(service_id)).len(),
    ensures
        ({
            let purging = TeardownView::workspace(Some(data_root), service_id).after(
                TeardownEventView::Listed { containers },
            ).after_all(removal_rounds(stops));
            let purge = PurgeView::of(data.path);
            &&& purging.pending() == TeardownAction::PurgeDataDir
            &&& purging.data_dir == Some(data.path)
            &&& purge.after_all(data.purge_events()).outcome() == Some(true)
            &&& purge.removed_by(data.purge_events()) == data.paths()
            &&& data.paths().last() == data.path
            &&& purging.after(TeardownEventView::Purged { ok: true }).outcome() == Some(
                Ok::<bool, LifecycleError>(true),
            )
        }),
{
    let listed = TeardownView::workspace(Some(data_root), service_id).after(
        TeardownEventView::Listed { containers },
    );
    if stops.len() == 0 {
        assert(removal_rounds(stops) =~= Seq::<TeardownEventView>::empty());
        assert(listed.after_all(removal_rounds(stops)) == listed);
    } else {
        lemma_removal_rounds_remove_all(listed, stops);
    }
    lemma_purge_removes_the_whole_tree(data);
}

} // verus!
