//! The deployment orchestrator: one parameterized pipeline driven as a state
//! machine.  The orchestrator never performs outside work itself; it names
//! the next call to make (`next_action`), and the caller feeds the outcome
//! back (`step`).  Every decision — retry bounds, failure classification,
//! status transitions, what the persisted record holds — is fixed here by
//! `spec_step`, and the record's status only ever moves forward.

use vstd::prelude::*;
use crate::config::Artifacts;
use crate::config::ArtifactsV;
use crate::config::render;
use crate::config::spec_render;
use crate::errors::DeployError;
use crate::errors::EnvErrorKind;
use crate::model::AppMetadata;
use crate::model::AppMetadataV;
use crate::model::AppSpec;
use crate::model::DeployMode;
use crate::model::HealthState;
use crate::model::KubernetesMetadataV;
use crate::model::Status;
use crate::model::is_json_safe;
use crate::model::is_valid_app_spec;
use crate::model::json_safe;
use crate::model::status_can_step;
use crate::model::valid_app_spec;
use crate::model::wf_record;
use crate::model::lemma_suffix_json_safe;
use crate::text::split_ws;
use crate::text::parse_pod_phases;

verus! {

/// How many liveness polls the environment gate may spend after issuing the
/// runtime start command.
pub const LIVENESS_POLL_BOUND: u32 = 30;

/// Seconds the caller sleeps between two liveness polls.
pub const LIVENESS_POLL_INTERVAL_SECS: u64 = 2;

/// How many reachability probes the cluster gate may spend.
pub const CLUSTER_RETRY_BOUND: u32 = 3;

/// Seconds the caller sleeps between two reachability probes.
pub const CLUSTER_RETRY_BACKOFF_SECS: u64 = 5;

/// The explicit timeout handed to the cluster's rollout wait.
pub const ROLLOUT_TIMEOUT_SECS: u64 = 300;

/// Seconds the caller lets a fresh container settle before its health is
/// inspected.
pub const LOCAL_SETTLE_SECS: u64 = 5;

/// The cluster context the engine expects to drive.
pub fn expected_context() -> (r: String)
    ensures
        r@ == "docker-desktop"@,
{
    String::from_str("docker-desktop")
}

/// An outside call the orchestrator asks its caller to make.
#[derive(Clone, Copy, PartialEq, Eq, Structural, Debug)]
pub enum Action {
    /// Ask the runtime for its version; tells whether it is installed.
    QueryRuntimeVersion,
    /// Run the runtime's install routine.
    InstallRuntime,
    /// Ask the runtime whether it is live.
    QueryRuntimeLiveness,
    /// Issue the runtime's start command.
    StartRuntime,
    /// Read the current cluster context name.
    ReadClusterContext,
    /// List the available cluster context names.
    ListClusterContexts,
    /// Switch to the expected cluster context.
    SwitchClusterContext,
    /// Probe cluster reachability.
    QueryClusterReachability,
    /// Write every rendered artifact to its path.
    WriteArtifacts,
    /// Persist the record through the state store.
    SaveRecord,
    /// Stop a previously running container of the same name, if any.
    StopExistingContainer,
    /// Remove a previously existing container of the same name, if any.
    RemoveExistingContainer,
    /// Build the image, tagged by application name.
    BuildImage,
    /// Run the container detached with the configured port mapping.
    RunContainer,
    /// Tag the built image for cluster use.
    TagImage,
    /// Create the target namespace if it does not exist; its quota is the
    /// first object the apply stage applies.
    EnsureNamespace,
    /// Apply the cluster object at this index of the rendered object list.
    ApplyObject(usize),
    /// Inspect whether the container is running.
    InspectContainerRunning,
    /// Inspect the container's health state.
    InspectContainerHealth,
    /// Wait for the rollout with the explicit timeout.
    RolloutWait,
    /// Query the current pod phases.
    QueryPodPhases,
    /// Run the auxiliary, non-gating provisioning group.
    RunAuxTasks,
}

/// The outcome of an outside call, fed back into the machine.
#[derive(Debug)]
pub enum Event {
    /// A command or probe finished; `true` means success (or presence).
    Done(bool),
    /// The container run finished; on success the runtime reported this
    /// container identifier.
    Started { ok: bool, container_id: String },
    /// The current cluster context, if any is set.
    CurrentContext(Option<String>),
    /// The names of the available cluster contexts.
    AvailableContexts(Vec<String>),
    /// The container's health state.
    Health(HealthState),
    /// The whitespace-separated pod phase listing.
    PodPhases(String),
    /// Per-task success of the auxiliary group, in task order.
    AuxDone(Vec<bool>),
    /// The record was persisted.
    Saved,
}

/// Mathematical image of an `Event`.
pub enum EventV {
    Done(bool),
    Started { ok: bool, container_id: Seq<char> },
    CurrentContext(Option<Seq<char>>),
    AvailableContexts(Seq<Seq<char>>),
    Health(HealthState),
    PodPhases(Seq<char>),
    AuxDone(Seq<bool>),
    Saved,
}

impl View for Event {
    type V = EventV;

    open spec fn view(&self) -> EventV {
        match self {
            Event::Done(ok) => EventV::Done(*ok),
            Event::Started { ok, container_id } => EventV::Started {
                ok: *ok,
                container_id: container_id@,
            },
            Event::CurrentContext(c) => EventV::CurrentContext(
                match c {
                    Some(s) => Some(s@),
                    None => None,
                },
            ),
            Event::AvailableContexts(v) => EventV::AvailableContexts(v.deep_view()),
            Event::Health(h) => EventV::Health(*h),
            Event::PodPhases(s) => EventV::PodPhases(s@),
            Event::AuxDone(v) => EventV::AuxDone(v@),
            Event::Saved => EventV::Saved,
        }
    }
}

/// A non-fatal condition attached to the final report.
#[derive(Clone, Copy, PartialEq, Eq, Structural, Debug)]
pub enum Warning {
    /// The container runs but its health check does not pass; advisory.
    ContainerUnhealthy,
    /// The auxiliary task at this index of the group reported failure; the
    /// core deployment is unaffected and succeeds as degraded.
    AuxTaskFailed { index: usize },
}

/// The words a warning is reported with.
pub open spec fn warning_text(w: Warning) -> Seq<char> {
    match w {
        Warning::ContainerUnhealthy => "the container runs but its health check does not pass"@,
        Warning::AuxTaskFailed { .. } => "an auxiliary provisioning task failed; the deployment is degraded"@,
    }
}

impl Warning {
    /// Renders the warning for the user.
    pub fn message(&self) -> (r: String)
        ensures
            r@ == warning_text(*self),
    {
        match *self {
            Warning::ContainerUnhealthy => String::from_str(
                "the container runs but its health check does not pass",
            ),
            Warning::AuxTaskFailed { .. } => String::from_str(
                "an auxiliary provisioning task failed; the deployment is degraded",
            ),
        }
    }
}

/// Where the pipeline stands: which outcome it is waiting for.
#[derive(Clone, Copy, PartialEq, Eq, Structural, Debug)]
pub enum Phase {
    /// Environment gate: runtime version query.
    EnvVersion,
    /// Environment gate: install routine running.
    EnvInstall,
    /// Environment gate: version re-query after an install.
    EnvRecheck,
    /// Environment gate: first liveness query.
    EnvLivenessFirst,
    /// Environment gate: start command issued.
    EnvStart,
    /// Environment gate: bounded liveness polling.
    EnvPoll,
    /// Cluster gate: reading the current context.
    CtxRead,
    /// Cluster gate: listing contexts after a missing or wrong one.
    CtxList,
    /// Cluster gate: switching to the expected context.
    CtxSwitch,
    /// Cluster gate: bounded reachability probing.
    ClusterPing,
    /// Writing the rendered artifacts to disk.
    WriteArts,
    /// Stopping a leftover container of the same name.
    StopOld,
    /// Removing a leftover container of the same name.
    RemoveOld,
    /// Building the image.
    Build,
    /// Running the container.
    Run,
    /// Local convergence: is the container running.
    ConvergeInspect,
    /// Local convergence: container health.
    HealthInspect,
    /// Cluster execution: tagging the image.
    TagImage,
    /// Cluster execution: namespace and quota.
    EnsureNamespace,
    /// Cluster execution: applying the objects in order.
    Apply,
    /// Cluster convergence: rollout wait.
    RolloutWait,
    /// Cluster convergence: pod phase query.
    PodQuery,
    /// Auxiliary, non-gating provisioning group.
    Aux,
    /// Terminal: nothing further will be asked.
    Done,
}

/// The orchestrator: the record under construction plus the machine state.
#[derive(Debug)]
pub struct Orchestrator {
    pub app_spec: AppSpec,
    pub record: AppMetadata,
    pub artifacts: Option<Artifacts>,
    pub phase: Phase,
    pub polls: u32,
    pub tries: u32,
    pub apply_idx: usize,
    pub save_pending: bool,
    pub error: Option<DeployError>,
    pub warnings: Vec<Warning>,
}

/// Mathematical image of the orchestrator.
#[verifier::ext_equal]
pub struct OrchestratorV {
    pub app_spec: crate::model::AppSpecV,
    pub record: AppMetadataV,
    pub artifacts: Option<ArtifactsV>,
    pub phase: Phase,
    pub polls: u32,
    pub tries: u32,
    pub apply_idx: usize,
    pub save_pending: bool,
    pub error: Option<DeployError>,
    pub warnings: Seq<Warning>,
}

impl View for Orchestrator {
    type V = OrchestratorV;

    open spec fn view(&self) -> OrchestratorV {
        OrchestratorV {
            app_spec: self.app_spec@,
            record: self.record@,
            artifacts: match self.artifacts {
                Some(ref a) => Some(a@),
                None => None,
            },
            phase: self.phase,
            polls: self.polls,
            tries: self.tries,
            apply_idx: self.apply_idx,
            save_pending: self.save_pending,
            error: self.error,
            warnings: self.warnings@,
        }
    }
}

/// The next outside call the machine asks for.  A pending record save always
/// goes first, so the store holds every status change before the pipeline
/// continues; `None` means the attempt is over.
pub open spec fn spec_action(st: OrchestratorV) -> Option<Action> {
    if st.save_pending {
        Some(Action::SaveRecord)
    } else {
        match st.phase {
            Phase::EnvVersion => Some(Action::QueryRuntimeVersion),
            Phase::EnvInstall => Some(Action::InstallRuntime),
            Phase::EnvRecheck => Some(Action::QueryRuntimeVersion),
            Phase::EnvLivenessFirst => Some(Action::QueryRuntimeLiveness),
            Phase::EnvStart => Some(Action::StartRuntime),
            Phase::EnvPoll => Some(Action::QueryRuntimeLiveness),
            Phase::CtxRead => Some(Action::ReadClusterContext),
            Phase::CtxList => Some(Action::ListClusterContexts),
            Phase::CtxSwitch => Some(Action::SwitchClusterContext),
            Phase::ClusterPing => Some(Action::QueryClusterReachability),
            Phase::WriteArts => Some(Action::WriteArtifacts),
            Phase::StopOld => Some(Action::StopExistingContainer),
            Phase::RemoveOld => Some(Action::RemoveExistingContainer),
            Phase::Build => Some(Action::BuildImage),
            Phase::Run => Some(Action::RunContainer),
            Phase::ConvergeInspect => Some(Action::InspectContainerRunning),
            Phase::HealthInspect => Some(Action::InspectContainerHealth),
            Phase::TagImage => Some(Action::TagImage),
            Phase::EnsureNamespace => Some(Action::EnsureNamespace),
            Phase::Apply => Some(Action::ApplyObject(st.apply_idx)),
            Phase::RolloutWait => Some(Action::RolloutWait),
            Phase::PodQuery => Some(Action::QueryPodPhases),
            Phase::Aux => Some(Action::RunAuxTasks),
            Phase::Done => None,
        }
    }
}

/// Whether an event has the shape the awaited action produces.
pub open spec fn expected_event(st: OrchestratorV, ev: EventV) -> bool {
    match spec_action(st) {
        None => false,
        Some(a) => match a {
            Action::SaveRecord => ev is Saved,
            Action::RunContainer => ev is Started,
            Action::ReadClusterContext => ev is CurrentContext,
            Action::ListClusterContexts => ev is AvailableContexts,
            Action::InspectContainerHealth => ev is Health,
            Action::QueryPodPhases => ev is PodPhases,
            Action::RunAuxTasks => ev is AuxDone,
            _ => ev is Done,
        },
    }
}

/// The state with a new status and a save owed to the store.
pub open spec fn with_status(st: OrchestratorV, s: Status) -> OrchestratorV {
    OrchestratorV {
        record: AppMetadataV { status: s, ..st.record },
        save_pending: true,
        ..st
    }
}

/// The state moved to another phase.
pub open spec fn with_phase(st: OrchestratorV, p: Phase) -> OrchestratorV {
    OrchestratorV { phase: p, ..st }
}

/// The state ended with a terminal error.
pub open spec fn fail_with(st: OrchestratorV, e: DeployError) -> OrchestratorV {
    OrchestratorV { phase: Phase::Done, error: Some(e), ..st }
}

/// Where the pipeline goes once the environment gate has passed: the
/// artifacts are rendered (pure), the status advances to `Initializing`,
/// and the next outside work is writing the artifacts out.
pub open spec fn gate_passed(st: OrchestratorV) -> OrchestratorV {
    with_status(
        with_phase(
            OrchestratorV { artifacts: Some(spec_render(st.app_spec)), ..st },
            Phase::WriteArts,
        ),
        Status::Initializing,
    )
}

/// After runtime liveness is confirmed: production continues into the
/// cluster gate, development has passed the whole gate.
pub open spec fn runtime_live(st: OrchestratorV) -> OrchestratorV {
    if st.app_spec.mode == DeployMode::Prod {
        with_phase(st, Phase::CtxRead)
    } else {
        gate_passed(st)
    }
}

/// One step of the environment and cluster gate.
pub open spec fn spec_step_env(st: OrchestratorV, ev: EventV) -> OrchestratorV {
    match st.phase {
        Phase::EnvVersion => match ev {
            EventV::Done(found) => if found {
                with_phase(st, Phase::EnvLivenessFirst)
            } else {
                with_phase(st, Phase::EnvInstall)
            },
            _ => st,
        },
        Phase::EnvInstall => match ev {
            EventV::Done(ok) => if ok {
                with_phase(st, Phase::EnvRecheck)
            } else {
                fail_with(st, DeployError::EnvironmentUnavailable(EnvErrorKind::RuntimeMissing))
            },
            _ => st,
        },
        Phase::EnvRecheck => match ev {
            EventV::Done(found) => if found {
                with_phase(st, Phase::EnvLivenessFirst)
            } else {
                fail_with(st, DeployError::EnvironmentUnavailable(EnvErrorKind::RuntimeMissing))
            },
            _ => st,
        },
        Phase::EnvLivenessFirst => match ev {
            EventV::Done(live) => if live {
                runtime_live(st)
            } else {
                with_phase(st, Phase::EnvStart)
            },
            _ => st,
        },
        Phase::EnvStart => match ev {
            // The start command's own exit is not load-bearing; the bounded
            // liveness polling that follows decides.
            EventV::Done(_) => with_phase(st, Phase::EnvPoll),
            _ => st,
        },
        Phase::EnvPoll => match ev {
            EventV::Done(live) => {
                let st2 = OrchestratorV { polls: (st.polls + 1) as u32, ..st };
                if live {
                    runtime_live(st2)
                } else if st.polls + 1 >= LIVENESS_POLL_BOUND {
                    fail_with(
                        st2,
                        DeployError::EnvironmentUnavailable(EnvErrorKind::RuntimeStartTimeout),
                    )
                } else {
                    st2
                }
            },
            _ => st,
        },
        Phase::CtxRead => match ev {
            EventV::CurrentContext(c) => if c matches Some(name) && name == "docker-desktop"@ {
                with_phase(st, Phase::ClusterPing)
            } else {
                with_phase(st, Phase::CtxList)
            },
            _ => st,
        },
        Phase::CtxList => match ev {
            EventV::AvailableContexts(v) => if v.contains("docker-desktop"@) {
                with_phase(st, Phase::CtxSwitch)
            } else {
                fail_with(
                    st,
                    DeployError::EnvironmentUnavailable(EnvErrorKind::ClusterNotConfigured),
                )
            },
            _ => st,
        },
        Phase::CtxSwitch => match ev {
            EventV::Done(ok) => if ok {
                with_phase(st, Phase::ClusterPing)
            } else {
                fail_with(
                    st,
                    DeployError::EnvironmentUnavailable(EnvErrorKind::ClusterNotConfigured),
                )
            },
            _ => st,
        },
        Phase::ClusterPing => match ev {
            EventV::Done(ok) => {
                let st2 = OrchestratorV { tries: (st.tries + 1) as u32, ..st };
                if ok {
                    gate_passed(st2)
                } else if st.tries + 1 >= CLUSTER_RETRY_BOUND {
                    fail_with(
                        st2,
                        DeployError::EnvironmentUnavailable(EnvErrorKind::ClusterUnreachable),
                    )
                } else {
                    st2
                }
            },
            _ => st,
        },
        _ => st,
    }
}

/// One step of artifact writing, pre-cleaning and build/run execution.
pub open spec fn spec_step_exec(st: OrchestratorV, ev: EventV) -> OrchestratorV {
    match st.phase {
        Phase::WriteArts => match ev {
            EventV::Done(ok) => if ok {
                with_phase(st, Phase::StopOld)
            } else {
                fail_with(st, DeployError::ConfigGenerationError)
            },
            _ => st,
        },
        // The pre-clean steps are delete-if-exists: their outcome is
        // ignored, because the container they remove may not exist.
        Phase::StopOld => match ev {
            EventV::Done(_) => with_phase(st, Phase::RemoveOld),
            _ => st,
        },
        Phase::RemoveOld => match ev {
            EventV::Done(_) => with_phase(st, Phase::Build),
            _ => st,
        },
        Phase::Build => match ev {
            EventV::Done(ok) => if ok {
                with_status(with_phase(st, Phase::Run), Status::Built)
            } else {
                fail_with(with_status(st, Status::BuildFailed), DeployError::BuildFailure)
            },
            _ => st,
        },
        Phase::Run => match ev {
            EventV::Started { ok, container_id } => if ok {
                let st2 = OrchestratorV {
                    record: AppMetadataV {
                        container_id: if json_safe(container_id) {
                            Some(container_id)
                        } else {
                            None
                        },
                        ..st.record
                    },
                    ..st
                };
                with_status(with_phase(st2, Phase::ConvergeInspect), Status::Running)
            } else {
                fail_with(with_status(st, Status::StartupFailed), DeployError::StartupFailure)
            },
            _ => st,
        },
        _ => st,
    }
}

/// One step of local convergence: a container that is not running fails
/// verification; a running one is verified when healthy, and otherwise
/// carries an advisory warning.
pub open spec fn spec_step_converge(st: OrchestratorV, ev: EventV) -> OrchestratorV {
    match st.phase {
        Phase::ConvergeInspect => match ev {
            EventV::Done(running) => if running {
                with_phase(st, Phase::HealthInspect)
            } else {
                fail_with(
                    with_status(st, Status::VerificationFailed),
                    DeployError::ContainerNotRunning,
                )
            },
            _ => st,
        },
        Phase::HealthInspect => match ev {
            EventV::Health(h) => {
                let next = if st.app_spec.mode == DeployMode::Prod {
                    Phase::TagImage
                } else {
                    Phase::Aux
                };
                if h == HealthState::Healthy {
                    with_status(with_phase(st, next), Status::Verified)
                } else {
                    with_phase(
                        OrchestratorV { warnings: st.warnings.push(Warning::ContainerUnhealthy), ..st },
                        next,
                    )
                }
            },
            _ => st,
        },
        _ => st,
    }
}

/// The pod phases that can stand in the persisted document verbatim, in
/// listing order.
pub open spec fn storable_phases(tokens: Seq<Seq<char>>) -> Seq<Seq<char>>
    decreases tokens.len(),
{
    if tokens.len() == 0 {
        Seq::empty()
    } else {
        storable_phases(tokens.drop_last()) + (if json_safe(tokens.last()) {
            seq![tokens.last()]
        } else {
            Seq::empty()
        })
    }
}

/// One step of cluster execution and convergence.
pub open spec fn spec_step_cluster(st: OrchestratorV, ev: EventV) -> OrchestratorV {
    match st.phase {
        Phase::TagImage => match ev {
            EventV::Done(ok) => if ok {
                with_phase(st, Phase::EnsureNamespace)
            } else {
                fail_with(st, DeployError::ManifestApplyError { first_unapplied: 0 })
            },
            _ => st,
        },
        Phase::EnsureNamespace => match ev {
            EventV::Done(ok) => if ok {
                with_status(
                    with_phase(OrchestratorV { apply_idx: 0, ..st }, Phase::Apply),
                    Status::Deploying,
                )
            } else {
                fail_with(st, DeployError::ManifestApplyError { first_unapplied: 0 })
            },
            _ => st,
        },
        Phase::Apply => match ev {
            EventV::Done(ok) => if ok {
                if st.artifacts matches Some(a) && st.apply_idx + 1 < a.k8s_objects.len() {
                    OrchestratorV { apply_idx: (st.apply_idx + 1) as usize, ..st }
                } else {
                    with_phase(st, Phase::RolloutWait)
                }
            } else {
                fail_with(st, DeployError::ManifestApplyError { first_unapplied: st.apply_idx })
            },
            _ => st,
        },
        Phase::RolloutWait => match ev {
            EventV::Done(ok) => if ok {
                with_phase(st, Phase::PodQuery)
            } else {
                fail_with(with_status(st, Status::RolloutFailed), DeployError::RolloutTimeout)
            },
            _ => st,
        },
        Phase::PodQuery => match ev {
            EventV::PodPhases(text) => {
                let st2 = OrchestratorV {
                    record: AppMetadataV {
                        kubernetes_metadata: KubernetesMetadataV {
                            pod_status: storable_phases(
                                if vstd::utf8::is_ascii_chars(text) {
                                    split_ws(text)
                                } else {
                                    Seq::empty()
                                },
                            ),
                            ingress_host: match st.artifacts {
                                Some(a) => a.ingress_host,
                                None => None,
                            },
                            ..st.record.kubernetes_metadata
                        },
                        ..st.record
                    },
                    ..st
                };
                with_status(with_phase(st2, Phase::Aux), Status::RolledOut)
            },
            _ => st,
        },
        _ => st,
    }
}

/// The warnings carried after the auxiliary group joins: one per failed
/// task, in task order, after any earlier warnings.
pub open spec fn aux_warnings(prior: Seq<Warning>, results: Seq<bool>) -> Seq<Warning>
    decreases results.len(),
{
    if results.len() == 0 {
        prior
    } else {
        aux_warnings(prior, results.drop_last()) + (if !results.last() {
            seq![Warning::AuxTaskFailed { index: (results.len() - 1) as usize }]
        } else {
            Seq::empty()
        })
    }
}

/// One step of the machine: consumes the outcome of the awaited action.
/// A pending save is consumed first; otherwise the step is dispatched by
/// phase.  An event of the wrong shape changes nothing.
pub open spec fn spec_step(st: OrchestratorV, ev: EventV) -> OrchestratorV {
    if st.save_pending {
        match ev {
            EventV::Saved => OrchestratorV { save_pending: false, ..st },
            _ => st,
        }
    } else {
        match st.phase {
            Phase::EnvVersion | Phase::EnvInstall | Phase::EnvRecheck | Phase::EnvLivenessFirst
                | Phase::EnvStart | Phase::EnvPoll | Phase::CtxRead | Phase::CtxList
                | Phase::CtxSwitch | Phase::ClusterPing => spec_step_env(st, ev),
            Phase::WriteArts | Phase::StopOld | Phase::RemoveOld | Phase::Build | Phase::Run
                => spec_step_exec(st, ev),
            Phase::ConvergeInspect | Phase::HealthInspect => spec_step_converge(st, ev),
            Phase::TagImage | Phase::EnsureNamespace | Phase::Apply | Phase::RolloutWait
                | Phase::PodQuery => spec_step_cluster(st, ev),
            Phase::Aux => match ev {
                EventV::AuxDone(results) => with_phase(
                    OrchestratorV { warnings: aux_warnings(st.warnings, results), ..st },
                    Phase::Done,
                ),
                _ => st,
            },
            Phase::Done => st,
        }
    }
}

/// The phases that only a production (cluster) attempt reaches.
pub open spec fn cluster_phase(p: Phase) -> bool {
    match p {
        Phase::CtxRead | Phase::CtxList | Phase::CtxSwitch | Phase::ClusterPing | Phase::TagImage
            | Phase::EnsureNamespace | Phase::Apply | Phase::RolloutWait | Phase::PodQuery => true,
        _ => false,
    }
}

/// The phases that hold rendered artifacts.
pub open spec fn arts_phase(p: Phase) -> bool {
    match p {
        Phase::WriteArts | Phase::StopOld | Phase::RemoveOld | Phase::Build | Phase::Run
            | Phase::ConvergeInspect | Phase::HealthInspect | Phase::TagImage
            | Phase::EnsureNamespace | Phase::Apply | Phase::RolloutWait | Phase::PodQuery
            | Phase::Aux => true,
        _ => false,
    }
}

/// The status the record holds while the pipeline stands in each phase: no
/// phase runs before the stage that produces its status.
pub open spec fn phase_status_ok(st: OrchestratorV) -> bool {
    match st.phase {
        Phase::EnvVersion | Phase::EnvInstall | Phase::EnvRecheck | Phase::EnvLivenessFirst
            | Phase::EnvStart | Phase::EnvPoll | Phase::CtxRead | Phase::CtxList
            | Phase::CtxSwitch | Phase::ClusterPing => st.record.status == Status::Pending,
        Phase::WriteArts | Phase::StopOld | Phase::RemoveOld | Phase::Build => st.record.status
            == Status::Initializing,
        Phase::Run => st.record.status == Status::Built,
        Phase::ConvergeInspect | Phase::HealthInspect => st.record.status == Status::Running,
        Phase::TagImage | Phase::EnsureNamespace => st.record.status == Status::Running
            || st.record.status == Status::Verified,
        Phase::Apply | Phase::RolloutWait | Phase::PodQuery => st.record.status
            == Status::Deploying,
        Phase::Aux => if st.app_spec.mode == DeployMode::Prod {
            st.record.status == Status::RolledOut
        } else {
            st.record.status == Status::Running || st.record.status == Status::Verified
        },
        Phase::Done => true,
    }
}

/// The machine's invariant: the spec is deployable, the record can always
/// be persisted, the retry counters respect their bounds, and phase,
/// status, mode and artifacts agree.
pub open spec fn inv(st: OrchestratorV) -> bool {
    &&& valid_app_spec(st.app_spec)
    &&& wf_record(st.record)
    &&& st.polls <= LIVENESS_POLL_BOUND
    &&& st.tries <= CLUSTER_RETRY_BOUND
    &&& (st.phase == Phase::EnvPoll ==> st.polls < LIVENESS_POLL_BOUND)
    &&& (st.phase == Phase::ClusterPing ==> st.tries < CLUSTER_RETRY_BOUND)
    &&& (match st.phase {
        Phase::EnvVersion | Phase::EnvInstall | Phase::EnvRecheck | Phase::EnvLivenessFirst
            | Phase::EnvStart => st.polls == 0,
        _ => true,
    })
    &&& (match st.phase {
        Phase::EnvVersion | Phase::EnvInstall | Phase::EnvRecheck | Phase::EnvLivenessFirst
            | Phase::EnvStart | Phase::EnvPoll | Phase::CtxRead | Phase::CtxList
            | Phase::CtxSwitch => st.tries == 0,
        _ => true,
    })
    &&& phase_status_ok(st)
    &&& (cluster_phase(st.phase) ==> st.app_spec.mode == DeployMode::Prod)
    &&& (arts_phase(st.phase) ==> st.artifacts == Some(spec_render(st.app_spec)))
    &&& (st.phase == Phase::Apply ==> st.apply_idx < spec_render(st.app_spec).k8s_objects.len())
}

/// Every phase kept by the storable filter is JSON safe.
pub proof fn lemma_storable_phases_safe(tokens: Seq<Seq<char>>)
    ensures
        forall|i: int| 0 <= i < storable_phases(tokens).len() ==> json_safe(
            #[trigger] storable_phases(tokens)[i],
        ),
    decreases tokens.len(),
{
    if tokens.len() > 0 {
        lemma_storable_phases_safe(tokens.drop_last());
        let prefix = storable_phases(tokens.drop_last());
        assert forall|i: int| 0 <= i < storable_phases(tokens).len() implies json_safe(
            #[trigger] storable_phases(tokens)[i],
        ) by {
            if i < prefix.len() {
                assert(storable_phases(tokens)[i] == prefix[i]);
            } else {
                assert(json_safe(tokens.last()));
                assert(storable_phases(tokens)[i] == tokens.last());
            }
        }
    }
}

/// One step preserves the invariant.
pub proof fn lemma_step_preserves_inv(st: OrchestratorV, ev: EventV)
    requires
        inv(st),
    ensures
        inv(spec_step(st, ev)),
{
    let post = spec_step(st, ev);
    if !st.save_pending && st.phase == Phase::PodQuery {
        match ev {
            EventV::PodPhases(text) => {
                let tokens = if vstd::utf8::is_ascii_chars(text) {
                    split_ws(text)
                } else {
                    Seq::<Seq<char>>::empty()
                };
                lemma_storable_phases_safe(tokens);
                reveal_strlit(".local");
                assert(json_safe(".local"@));
                lemma_suffix_json_safe(st.app_spec.name, ".local"@);
            },
            _ => {},
        }
    }
}

/// One step only ever moves the record's status along the status machine's
/// forward edges.
pub proof fn lemma_step_status(st: OrchestratorV, ev: EventV)
    requires
        inv(st),
    ensures
        status_can_step(st.record.status, spec_step(st, ev).record.status),
{
}

/// One step never touches the record's identity: name, type, port,
/// creation time and target stay what the attempt started with.
pub proof fn lemma_step_preserves_identity(st: OrchestratorV, ev: EventV)
    ensures
        spec_step(st, ev).record.app_name == st.record.app_name,
        spec_step(st, ev).record.app_type == st.record.app_type,
        spec_step(st, ev).record.port == st.record.port,
        spec_step(st, ev).record.created_at == st.record.created_at,
        spec_step(st, ev).record.kubernetes_enabled == st.record.kubernetes_enabled,
        spec_step(st, ev).app_spec == st.app_spec,
{
}

/// One step never rewinds a retry counter.
pub proof fn lemma_step_counters(st: OrchestratorV, ev: EventV)
    requires
        inv(st),
    ensures
        spec_step(st, ev).polls >= st.polls,
        spec_step(st, ev).tries >= st.tries,
{
}

/// The machine after a whole run of outcomes, fed in order.
pub open spec fn run_steps(st: OrchestratorV, evs: Seq<EventV>) -> OrchestratorV
    decreases evs.len(),
{
    if evs.len() == 0 {
        st
    } else {
        run_steps(spec_step(st, evs[0]), evs.subrange(1, evs.len() as int))
    }
}

/// A whole run preserves the invariant.
pub proof fn lemma_run_preserves_inv(st: OrchestratorV, evs: Seq<EventV>)
    requires
        inv(st),
    ensures
        inv(run_steps(st, evs)),
    decreases evs.len(),
{
    if evs.len() > 0 {
        lemma_step_preserves_inv(st, evs[0]);
        lemma_run_preserves_inv(spec_step(st, evs[0]), evs.subrange(1, evs.len() as int));
    }
}

/// Status monotonicity over whole runs: however the outside world answers,
/// the record's status never moves backward, and once the attempt has
/// failed its status stands.  Only a brand-new record of a fresh attempt
/// starts from `Pending` again.
pub proof fn lemma_run_status_monotonic(st: OrchestratorV, evs: Seq<EventV>)
    requires
        inv(st),
    ensures
        crate::model::status_rank(run_steps(st, evs).record.status) >= crate::model::status_rank(
            st.record.status,
        ),
        crate::model::is_failure_status(st.record.status) ==> run_steps(st, evs).record.status
            == st.record.status,
    decreases evs.len(),
{
    if evs.len() > 0 {
        lemma_step_status(st, evs[0]);
        crate::model::lemma_status_step_monotonic(st.record.status, spec_step(st, evs[0]).record.status);
        lemma_step_preserves_inv(st, evs[0]);
        lemma_run_status_monotonic(spec_step(st, evs[0]), evs.subrange(1, evs.len() as int));
    }
}

/// How many liveness polls a run spends: the steps that consume the
/// outcome of a `QueryRuntimeLiveness` issued by the bounded polling loop.
pub open spec fn liveness_polls_spent(st: OrchestratorV, evs: Seq<EventV>) -> int
    decreases evs.len(),
{
    if evs.len() == 0 {
        0
    } else {
        (if !st.save_pending && st.phase == Phase::EnvPoll && expected_event(st, evs[0]) {
            1int
        } else {
            0int
        }) + liveness_polls_spent(spec_step(st, evs[0]), evs.subrange(1, evs.len() as int))
    }
}

/// How many cluster reachability probes a run spends.
pub open spec fn cluster_pings_spent(st: OrchestratorV, evs: Seq<EventV>) -> int
    decreases evs.len(),
{
    if evs.len() == 0 {
        0
    } else {
        (if !st.save_pending && st.phase == Phase::ClusterPing && expected_event(st, evs[0]) {
            1int
        } else {
            0int
        }) + cluster_pings_spent(spec_step(st, evs[0]), evs.subrange(1, evs.len() as int))
    }
}

/// Bounded recovery: however long the run and however the outside world
/// answers, the machine never spends more than its configured bound of
/// liveness polls, nor more than its bound of cluster reachability probes.
pub proof fn lemma_bounded_recovery(st: OrchestratorV, evs: Seq<EventV>)
    requires
        inv(st),
    ensures
        liveness_polls_spent(st, evs) <= LIVENESS_POLL_BOUND - st.polls,
        cluster_pings_spent(st, evs) <= CLUSTER_RETRY_BOUND - st.tries,
    decreases evs.len(),
{
    if evs.len() > 0 {
        let post = spec_step(st, evs[0]);
        lemma_step_preserves_inv(st, evs[0]);
        lemma_step_counters(st, evs[0]);
        lemma_bounded_recovery(post, evs.subrange(1, evs.len() as int));
        if !st.save_pending && st.phase == Phase::EnvPoll && expected_event(st, evs[0]) {
            assert(post.polls == st.polls + 1);
        }
        if !st.save_pending && st.phase == Phase::ClusterPing && expected_event(st, evs[0]) {
            assert(post.tries == st.tries + 1);
        }
    }
}

/// The machine a fresh attempt starts from: the new record, no artifacts,
/// the environment gate ahead, and the initial record save owed.
pub open spec fn spec_init(s: crate::model::AppSpecV, created_at: Seq<char>) -> OrchestratorV {
    OrchestratorV {
        app_spec: s,
        record: crate::model::spec_new_record(s, created_at),
        artifacts: None,
        phase: Phase::EnvVersion,
        polls: 0,
        tries: 0,
        apply_idx: 0,
        save_pending: true,
        error: None,
        warnings: Seq::empty(),
    }
}

/// A fresh machine satisfies the invariant.
pub proof fn lemma_init_inv(s: crate::model::AppSpecV, created_at: Seq<char>)
    requires
        valid_app_spec(s),
        json_safe(created_at),
    ensures
        inv(spec_init(s, created_at)),
{
    reveal_strlit("production");
    reveal_strlit("development");
    reveal_strlit("-deployment");
    reveal_strlit("-service");
    lemma_suffix_json_safe(s.name, "-deployment"@);
    lemma_suffix_json_safe(s.name, "-service"@);
}

impl Orchestrator {
    /// Starts a new deployment attempt for a spec.  It succeeds exactly
    /// when the spec is deployable and the timestamp can stand in the
    /// persisted document; nothing is started for any other input.
    pub fn new(app_spec: AppSpec, created_at: String) -> (r: Result<Orchestrator, DeployError>)
        ensures
            valid_app_spec(app_spec@) && json_safe(created_at@) ==> (r matches Ok(o) && o@
                == spec_init(app_spec@, created_at@) && inv(o@)),
            !(valid_app_spec(app_spec@) && json_safe(created_at@)) ==> r == Result::<
                Orchestrator,
                DeployError,
            >::Err(DeployError::ConfigGenerationError),
    {
        let ghost s0 = app_spec@;
        let ghost c0 = created_at@;
        if !is_valid_app_spec(&app_spec) || !is_json_safe(created_at.as_str()) {
            return Err(DeployError::ConfigGenerationError);
        }
        let record = AppMetadata::new_record(&app_spec, created_at);
        let o = Orchestrator {
            app_spec,
            record,
            artifacts: None,
            phase: Phase::EnvVersion,
            polls: 0,
            tries: 0,
            apply_idx: 0,
            save_pending: true,
            error: None,
            warnings: Vec::new(),
        };
        proof {
            assert(o@ =~~= spec_init(s0, c0));
            lemma_init_inv(s0, c0);
        }
        Ok(o)
    }

    /// The next outside call to make, or `None` once the attempt is over.
    pub fn next_action(&self) -> (a: Option<Action>)
        ensures
            a == spec_action(self@),
    {
        if self.save_pending {
            Some(Action::SaveRecord)
        } else {
            match self.phase {
                Phase::EnvVersion => Some(Action::QueryRuntimeVersion),
                Phase::EnvInstall => Some(Action::InstallRuntime),
                Phase::EnvRecheck => Some(Action::QueryRuntimeVersion),
                Phase::EnvLivenessFirst => Some(Action::QueryRuntimeLiveness),
                Phase::EnvStart => Some(Action::StartRuntime),
                Phase::EnvPoll => Some(Action::QueryRuntimeLiveness),
                Phase::CtxRead => Some(Action::ReadClusterContext),
                Phase::CtxList => Some(Action::ListClusterContexts),
                Phase::CtxSwitch => Some(Action::SwitchClusterContext),
                Phase::ClusterPing => Some(Action::QueryClusterReachability),
                Phase::WriteArts => Some(Action::WriteArtifacts),
                Phase::StopOld => Some(Action::StopExistingContainer),
                Phase::RemoveOld => Some(Action::RemoveExistingContainer),
                Phase::Build => Some(Action::BuildImage),
                Phase::Run => Some(Action::RunContainer),
                Phase::ConvergeInspect => Some(Action::InspectContainerRunning),
                Phase::HealthInspect => Some(Action::InspectContainerHealth),
                Phase::TagImage => Some(Action::TagImage),
                Phase::EnsureNamespace => Some(Action::EnsureNamespace),
                Phase::Apply => Some(Action::ApplyObject(self.apply_idx)),
                Phase::RolloutWait => Some(Action::RolloutWait),
                Phase::PodQuery => Some(Action::QueryPodPhases),
                Phase::Aux => Some(Action::RunAuxTasks),
                Phase::Done => None,
            }
        }
    }

    /// Whether the attempt is over.
    pub fn finished(&self) -> (r: bool)
        ensures
            r == (self@.phase == Phase::Done),
    {
        matches!(self.phase, Phase::Done)
    }

    /// The terminal error of the attempt, if it failed.
    pub fn outcome(&self) -> (r: Option<DeployError>)
        ensures
            r == self@.error,
    {
        self.error
    }

    /// An external interrupt: the machine stops asking for outside calls.
    /// The record and its status stand as they are; reversal is the cleanup
    /// coordinator's explicit job.
    pub fn interrupt(self) -> (r: Orchestrator)
        requires
            inv(self@),
        ensures
            r@ == (OrchestratorV { phase: Phase::Done, save_pending: false, ..self@ }),
            inv(r@),
    {
        let mut o = self;
        o.phase = Phase::Done;
        o.save_pending = false;
        proof {
            assert(o@ =~~= (OrchestratorV { phase: Phase::Done, save_pending: false, ..self@ }));
        }
        o
    }

    /// Renders the artifacts, advances the status to `Initializing`, and
    /// heads for the artifact write.
    fn advance_gate_passed(self) -> (r: Orchestrator)
        requires
            valid_app_spec(self@.app_spec),
        ensures
            r@ == gate_passed(self@),
    {
        let ghost pre = self@;
        let arts = match render(&self.app_spec) {
            Ok(a) => a,
            Err(_) => unreached(),
        };
        let mut o = self;
        o.artifacts = Some(arts);
        o.phase = Phase::WriteArts;
        o.record.status = Status::Initializing;
        o.save_pending = true;
        proof {
            assert(o@ =~~= gate_passed(pre));
        }
        o
    }

    /// After the runtime is confirmed live: production continues into the
    /// cluster gate, development has passed the whole gate.
    fn advance_runtime_live(self) -> (r: Orchestrator)
        requires
            valid_app_spec(self@.app_spec),
        ensures
            r@ == runtime_live(self@),
    {
        if matches!(self.app_spec.mode, DeployMode::Prod) {
            let mut o = self;
            o.phase = Phase::CtxRead;
            o
        } else {
            self.advance_gate_passed()
        }
    }

    /// Ends the attempt with a terminal error.
    fn fail(self, e: DeployError) -> (r: Orchestrator)
        ensures
            r@ == fail_with(self@, e),
    {
        let mut o = self;
        o.phase = Phase::Done;
        o.error = Some(e);
        o
    }

    /// One environment or cluster gate step.
    fn step_env(self, ev: Event) -> (r: Orchestrator)
        requires
            inv(self@),
            !self@.save_pending,
        ensures
            r@ == spec_step_env(self@, ev@),
    {
        let ghost pre = self@;
        match self.phase {
            Phase::EnvVersion => match ev {
                Event::Done(found) => {
                    let mut o = self;
                    o.phase = if found {
                        Phase::EnvLivenessFirst
                    } else {
                        Phase::EnvInstall
                    };
                    o
                },
                _ => self,
            },
            Phase::EnvInstall => match ev {
                Event::Done(ok) => if ok {
                    let mut o = self;
                    o.phase = Phase::EnvRecheck;
                    o
                } else {
                    self.fail(DeployError::EnvironmentUnavailable(EnvErrorKind::RuntimeMissing))
                },
                _ => self,
            },
            Phase::EnvRecheck => match ev {
                Event::Done(found) => if found {
                    let mut o = self;
                    o.phase = Phase::EnvLivenessFirst;
                    o
                } else {
                    self.fail(DeployError::EnvironmentUnavailable(EnvErrorKind::RuntimeMissing))
                },
                _ => self,
            },
            Phase::EnvLivenessFirst => match ev {
                Event::Done(live) => if live {
                    self.advance_runtime_live()
                } else {
                    let mut o = self;
                    o.phase = Phase::EnvStart;
                    o
                },
                _ => self,
            },
            Phase::EnvStart => match ev {
                Event::Done(_) => {
                    let mut o = self;
                    o.phase = Phase::EnvPoll;
                    o
                },
                _ => self,
            },
            Phase::EnvPoll => match ev {
                Event::Done(live) => {
                    let mut o = self;
                    o.polls = o.polls + 1;
                    if live {
                        o.advance_runtime_live()
                    } else if o.polls >= LIVENESS_POLL_BOUND {
                        o.fail(
                            DeployError::EnvironmentUnavailable(EnvErrorKind::RuntimeStartTimeout),
                        )
                    } else {
                        o
                    }
                },
                _ => self,
            },
            Phase::CtxRead => match ev {
                Event::CurrentContext(c) => {
                    let matched = match &c {
                        Some(name) => {
                            let exp = expected_context();
                            name.eq(&exp)
                        },
                        None => false,
                    };
                    let mut o = self;
                    o.phase = if matched {
                        Phase::ClusterPing
                    } else {
                        Phase::CtxList
                    };
                    o
                },
                _ => self,
            },
            Phase::CtxList => match ev {
                Event::AvailableContexts(v) => if contains_expected(&v) {
                    let mut o = self;
                    o.phase = Phase::CtxSwitch;
                    o
                } else {
                    self.fail(
                        DeployError::EnvironmentUnavailable(EnvErrorKind::ClusterNotConfigured),
                    )
                },
                _ => self,
            },
            Phase::CtxSwitch => match ev {
                Event::Done(ok) => if ok {
                    let mut o = self;
                    o.phase = Phase::ClusterPing;
                    o
                } else {
                    self.fail(
                        DeployError::EnvironmentUnavailable(EnvErrorKind::ClusterNotConfigured),
                    )
                },
                _ => self,
            },
            Phase::ClusterPing => match ev {
                Event::Done(ok) => {
                    let mut o = self;
                    o.tries = o.tries + 1;
                    if ok {
                        o.advance_gate_passed()
                    } else if o.tries >= CLUSTER_RETRY_BOUND {
                        o.fail(
                            DeployError::EnvironmentUnavailable(EnvErrorKind::ClusterUnreachable),
                        )
                    } else {
                        o
                    }
                },
                _ => self,
            },
            _ => self,
        }
    }

    /// One artifact-write, pre-clean or build/run step.
    fn step_exec(self, ev: Event) -> (r: Orchestrator)
        requires
            inv(self@),
            !self@.save_pending,
        ensures
            r@ == spec_step_exec(self@, ev@),
    {
        let ghost pre = self@;
        match self.phase {
            Phase::WriteArts => match ev {
                Event::Done(ok) => if ok {
                    let mut o = self;
                    o.phase = Phase::StopOld;
                    o
                } else {
                    self.fail(DeployError::ConfigGenerationError)
                },
                _ => self,
            },
            Phase::StopOld => match ev {
                Event::Done(_) => {
                    let mut o = self;
                    o.phase = Phase::RemoveOld;
                    o
                },
                _ => self,
            },
            Phase::RemoveOld => match ev {
                Event::Done(_) => {
                    let mut o = self;
                    o.phase = Phase::Build;
                    o
                },
                _ => self,
            },
            Phase::Build => match ev {
                Event::Done(ok) => if ok {
                    let mut o = self;
                    o.phase = Phase::Run;
                    o.record.status = Status::Built;
                    o.save_pending = true;
                    proof {
                        assert(o@ =~~= with_status(with_phase(pre, Phase::Run), Status::Built));
                    }
                    o
                } else {
                    let mut o = self;
                    o.record.status = Status::BuildFailed;
                    o.save_pending = true;
                    let o2 = o.fail(DeployError::BuildFailure);
                    proof {
                        assert(o2@ =~~= fail_with(
                            with_status(pre, Status::BuildFailed),
                            DeployError::BuildFailure,
                        ));
                    }
                    o2
                },
                _ => self,
            },
            Phase::Run => match ev {
                Event::Started { ok, container_id } => if ok {
                    let mut o = self;
                    o.record.container_id = if is_json_safe(container_id.as_str()) {
                        Some(container_id)
                    } else {
                        None
                    };
                    o.phase = Phase::ConvergeInspect;
                    o.record.status = Status::Running;
                    o.save_pending = true;
                    proof {
                        assert(o@ =~~= spec_step_exec(pre, ev@));
                    }
                    o
                } else {
                    let mut o = self;
                    o.record.status = Status::StartupFailed;
                    o.save_pending = true;
                    let o2 = o.fail(DeployError::StartupFailure);
                    proof {
                        assert(o2@ =~~= fail_with(
                            with_status(pre, Status::StartupFailed),
                            DeployError::StartupFailure,
                        ));
                    }
                    o2
                },
                _ => self,
            },
            _ => self,
        }
    }

    /// One local convergence step.
    fn step_converge(self, ev: Event) -> (r: Orchestrator)
        requires
            inv(self@),
            !self@.save_pending,
        ensures
            r@ == spec_step_converge(self@, ev@),
    {
        let ghost pre = self@;
        match self.phase {
            Phase::ConvergeInspect => match ev {
                Event::Done(running) => if running {
                    let mut o = self;
                    o.phase = Phase::HealthInspect;
                    o
                } else {
                    let mut o = self;
                    o.record.status = Status::VerificationFailed;
                    o.save_pending = true;
                    let o2 = o.fail(DeployError::ContainerNotRunning);
                    proof {
                        assert(o2@ =~~= fail_with(
                            with_status(pre, Status::VerificationFailed),
                            DeployError::ContainerNotRunning,
                        ));
                    }
                    o2
                },
                _ => self,
            },
            Phase::HealthInspect => match ev {
                Event::Health(h) => {
                    let next = if matches!(self.app_spec.mode, DeployMode::Prod) {
                        Phase::TagImage
                    } else {
                        Phase::Aux
                    };
                    if matches!(h, HealthState::Healthy) {
                        let mut o = self;
                        o.phase = next;
                        o.record.status = Status::Verified;
                        o.save_pending = true;
                        proof {
                            assert(o@ =~~= with_status(with_phase(pre, next), Status::Verified));
                        }
                        o
                    } else {
                        let mut o = self;
                        o.warnings.push(Warning::ContainerUnhealthy);
                        o.phase = next;
                        proof {
                            assert(o@ =~~= spec_step_converge(pre, ev@));
                        }
                        o
                    }
                },
                _ => self,
            },
            _ => self,
        }
    }

    /// One cluster execution or convergence step.
    fn step_cluster(self, ev: Event) -> (r: Orchestrator)
        requires
            inv(self@),
            !self@.save_pending,
        ensures
            r@ == spec_step_cluster(self@, ev@),
    {
        let ghost pre = self@;
        match self.phase {
            Phase::TagImage => match ev {
                Event::Done(ok) => if ok {
                    let mut o = self;
                    o.phase = Phase::EnsureNamespace;
                    o
                } else {
                    self.fail(DeployError::ManifestApplyError { first_unapplied: 0 })
                },
                _ => self,
            },
            Phase::EnsureNamespace => match ev {
                Event::Done(ok) => if ok {
                    let mut o = self;
                    o.apply_idx = 0;
                    o.phase = Phase::Apply;
                    o.record.status = Status::Deploying;
                    o.save_pending = true;
                    proof {
                        assert(o@ =~~= spec_step_cluster(pre, ev@));
                    }
                    o
                } else {
                    self.fail(DeployError::ManifestApplyError { first_unapplied: 0 })
                },
                _ => self,
            },
            Phase::Apply => match ev {
                Event::Done(ok) => if ok {
                    let more = match &self.artifacts {
                        Some(a) => self.apply_idx + 1 < a.k8s_objects.len(),
                        None => false,
                    };
                    if more {
                        let mut o = self;
                        o.apply_idx = o.apply_idx + 1;
                        o
                    } else {
                        let mut o = self;
                        o.phase = Phase::RolloutWait;
                        o
                    }
                } else {
                    let idx = self.apply_idx;
                    self.fail(DeployError::ManifestApplyError { first_unapplied: idx })
                },
                _ => self,
            },
            Phase::RolloutWait => match ev {
                Event::Done(ok) => if ok {
                    let mut o = self;
                    o.phase = Phase::PodQuery;
                    o
                } else {
                    let mut o = self;
                    o.record.status = Status::RolloutFailed;
                    o.save_pending = true;
                    let o2 = o.fail(DeployError::RolloutTimeout);
                    proof {
                        assert(o2@ =~~= fail_with(
                            with_status(pre, Status::RolloutFailed),
                            DeployError::RolloutTimeout,
                        ));
                    }
                    o2
                },
                _ => self,
            },
            Phase::PodQuery => match ev {
                Event::PodPhases(text) => {
                    let phases = parse_pod_phases(text.as_str());
                    let stored = keep_storable(phases);
                    let mut o = self;
                    o.record.kubernetes_metadata.pod_status = stored;
                    o.record.kubernetes_metadata.ingress_host = match &o.artifacts {
                        Some(a) => match &a.ingress_host {
                            Some(h) => Some(h.clone()),
                            None => None,
                        },
                        None => None,
                    };
                    o.phase = Phase::Aux;
                    o.record.status = Status::RolledOut;
                    o.save_pending = true;
                    proof {
                        assert(o@ =~~= spec_step_cluster(pre, ev@));
                    }
                    o
                },
                _ => self,
            },
            _ => self,
        }
    }

    /// Consumes the outcome of the awaited action and advances the machine.
    /// The new state is exactly `spec_step` of the old one; the invariant
    /// holds again, and the record's status moved along a forward edge of
    /// the status machine or stood still.
    pub fn step(self, ev: Event) -> (r: Orchestrator)
        requires
            inv(self@),
        ensures
            r@ == spec_step(self@, ev@),
            inv(r@),
            status_can_step(self@.record.status, r@.record.status),
    {
        let ghost pre = self@;
        let ghost evv = ev@;
        let r = if self.save_pending {
            match ev {
                Event::Saved => {
                    let mut o = self;
                    o.save_pending = false;
                    o
                },
                _ => self,
            }
        } else {
            match self.phase {
                Phase::EnvVersion | Phase::EnvInstall | Phase::EnvRecheck
                    | Phase::EnvLivenessFirst | Phase::EnvStart | Phase::EnvPoll | Phase::CtxRead
                    | Phase::CtxList | Phase::CtxSwitch | Phase::ClusterPing => self.step_env(ev),
                Phase::WriteArts | Phase::StopOld | Phase::RemoveOld | Phase::Build | Phase::Run
                    => self.step_exec(ev),
                Phase::ConvergeInspect | Phase::HealthInspect => self.step_converge(ev),
                Phase::TagImage | Phase::EnsureNamespace | Phase::Apply | Phase::RolloutWait
                    | Phase::PodQuery => self.step_cluster(ev),
                Phase::Aux => match ev {
                    Event::AuxDone(results) => {
                        let mut o = self;
                        o.warnings = extend_aux_warnings(o.warnings, &results);
                        o.phase = Phase::Done;
                        proof {
                            assert(o@ =~~= spec_step(pre, evv));
                        }
                        o
                    },
                    _ => self,
                },
                Phase::Done => self,
            }
        };
        proof {
            lemma_step_preserves_inv(pre, evv);
            lemma_step_status(pre, evv);
        }
        r
    }
}

/// Whether the expected cluster context is among the listed ones.
fn contains_expected(v: &Vec<String>) -> (r: bool)
    ensures
        r == v.deep_view().contains("docker-desktop"@),
{
    let exp = expected_context();
    let n = v.len();
    let mut i: usize = 0;
    while i < n
        invariant
            exp@ == "docker-desktop"@,
            n == v@.len(),
            0 <= i <= n,
            forall|j: int| 0 <= j < i ==> v.deep_view()[j] != "docker-desktop"@,
        decreases n - i,
    {
        if v[i].eq(&exp) {
            proof {
                assert(v.deep_view()[i as int] == "docker-desktop"@);
            }
            return true;
        }
        i = i + 1;
    }
    proof {
        if v.deep_view().contains("docker-desktop"@) {
            let j = choose|j: int| 0 <= j < v.deep_view().len() && v.deep_view()[j]
                == "docker-desktop"@;
            assert(false);
        }
    }
    false
}

/// Keeps the phases that can stand in the persisted document verbatim.
fn keep_storable(v: Vec<String>) -> (r: Vec<String>)
    ensures
        r.deep_view() == storable_phases(v.deep_view()),
{
    let ghost dv = v.deep_view();
    let n = v.len();
    let mut r: Vec<String> = Vec::new();
    let mut i: usize = 0;
    proof {
        assert(dv.take(0) =~= Seq::<Seq<char>>::empty());
        assert(r.deep_view() =~= storable_phases(dv.take(0)));
    }
    while i < n
        invariant
            dv == v.deep_view(),
            n == v@.len(),
            dv.len() == n,
            0 <= i <= n,
            r.deep_view() == storable_phases(dv.take(i as int)),
        decreases n - i,
    {
        let ghost prev = r.deep_view();
        if is_json_safe(v[i].as_str()) {
            let s = v[i].clone();
            r.push(s);
        }
        proof {
            assert(dv.take(i + 1).drop_last() =~= dv.take(i as int));
            assert(dv.take(i + 1).last() == dv[i as int]);
            if json_safe(dv[i as int]) {
                assert(r.deep_view() =~= prev + seq![dv[i as int]]);
            } else {
                assert(r.deep_view() =~= prev);
                assert(storable_phases(dv.take(i + 1)) =~= prev);
            }
        }
        i = i + 1;
    }
    proof {
        assert(dv.take(n as int) =~= dv);
    }
    r
}

/// Extends the warning list with one entry per failed auxiliary task, in
/// task order.
fn extend_aux_warnings(warnings: Vec<Warning>, results: &Vec<bool>) -> (r: Vec<Warning>)
    ensures
        r@ == aux_warnings(warnings@, results@),
{
    let ghost prior = warnings@;
    let ghost rv = results@;
    let n = results.len();
    let mut r = warnings;
    let mut i: usize = 0;
    proof {
        assert(rv.take(0) =~= Seq::<bool>::empty());
        assert(r@ =~= aux_warnings(prior, rv.take(0)));
    }
    while i < n
        invariant
            rv == results@,
            n == results@.len(),
            0 <= i <= n,
            r@ == aux_warnings(prior, rv.take(i as int)),
        decreases n - i,
    {
        let ghost prev = r@;
        if !results[i] {
            r.push(Warning::AuxTaskFailed { index: i });
        }
        proof {
            assert(rv.take(i + 1).drop_last() =~= rv.take(i as int));
            assert(rv.take(i + 1).last() == rv[i as int]);
            assert(rv.take(i + 1).len() == i + 1);
            if !rv[i as int] {
                assert(r@ =~= prev + seq![Warning::AuxTaskFailed { index: i }]);
            } else {
                assert(aux_warnings(prior, rv.take(i + 1)) =~= prev);
            }
        }
        i = i + 1;
    }
    proof {
        assert(rv.take(n as int) =~= rv);
    }
    r
}

} // verus!
