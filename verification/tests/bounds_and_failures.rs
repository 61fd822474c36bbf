use rustify::errors::DeployError;
use rustify::errors::EnvErrorKind;
use rustify::model::AppSpec;
use rustify::model::DeployMode;
use rustify::model::HealthState;
use rustify::model::Status;
use rustify::orchestrator::Action;
use rustify::orchestrator::Event;
use rustify::orchestrator::Orchestrator;
use rustify::orchestrator::Warning;
use rustify::orchestrator::CLUSTER_RETRY_BOUND;
use rustify::orchestrator::LIVENESS_POLL_BOUND;

fn spec(mode: DeployMode) -> AppSpec {
    AppSpec {
        name: "demo".to_string(),
        app_type: "node".to_string(),
        port: 8000,
        replicas: 1,
        auto_scale: false,
        mode,
    }
}

fn start(mode: DeployMode) -> Orchestrator {
    Orchestrator::new(spec(mode), "2024-03-20T00:00:00Z".to_string()).unwrap()
}

fn pump_saves(mut o: Orchestrator) -> Orchestrator {
    while o.next_action() == Some(Action::SaveRecord) {
        o = o.step(Event::Saved);
    }
    o
}

fn answer(o: Orchestrator, expect: Action, ev: Event) -> Orchestrator {
    let o = pump_saves(o);
    assert_eq!(o.next_action(), Some(expect));
    o.step(ev)
}

#[test]
fn liveness_polling_stops_at_its_bound() {
    let o = start(DeployMode::Dev);
    let o = answer(o, Action::QueryRuntimeVersion, Event::Done(true));
    let o = answer(o, Action::QueryRuntimeLiveness, Event::Done(false));
    let mut o = answer(o, Action::StartRuntime, Event::Done(true));
    let mut polls: u32 = 0;
    while !o.finished() {
        assert_eq!(o.next_action(), Some(Action::QueryRuntimeLiveness));
        o = o.step(Event::Done(false));
        polls += 1;
        assert!(polls <= LIVENESS_POLL_BOUND);
    }
    assert_eq!(polls, LIVENESS_POLL_BOUND);
    assert_eq!(
        o.outcome(),
        Some(DeployError::EnvironmentUnavailable(EnvErrorKind::RuntimeStartTimeout))
    );
    assert_eq!(o.record.status, Status::Pending);
}

#[test]
fn cluster_probing_stops_at_its_bound() {
    let o = start(DeployMode::Prod);
    let o = answer(o, Action::QueryRuntimeVersion, Event::Done(true));
    let o = answer(o, Action::QueryRuntimeLiveness, Event::Done(true));
    let mut o = answer(
        o,
        Action::ReadClusterContext,
        Event::CurrentContext(Some("docker-desktop".to_string())),
    );
    let mut probes: u32 = 0;
    while !o.finished() {
        assert_eq!(o.next_action(), Some(Action::QueryClusterReachability));
        o = o.step(Event::Done(false));
        probes += 1;
        assert!(probes <= CLUSTER_RETRY_BOUND);
    }
    assert_eq!(probes, CLUSTER_RETRY_BOUND);
    assert_eq!(
        o.outcome(),
        Some(DeployError::EnvironmentUnavailable(EnvErrorKind::ClusterUnreachable))
    );
}

#[test]
fn context_is_switched_when_available() {
    let o = start(DeployMode::Prod);
    let o = answer(o, Action::QueryRuntimeVersion, Event::Done(true));
    let o = answer(o, Action::QueryRuntimeLiveness, Event::Done(true));
    let o = answer(o, Action::ReadClusterContext, Event::CurrentContext(None));
    let o = answer(
        o,
        Action::ListClusterContexts,
        Event::AvailableContexts(vec!["minikube".to_string(), "docker-desktop".to_string()]),
    );
    let o = answer(o, Action::SwitchClusterContext, Event::Done(true));
    assert_eq!(pump_saves(o).next_action(), Some(Action::QueryClusterReachability));
}

#[test]
fn missing_context_is_cluster_not_configured() {
    let o = start(DeployMode::Prod);
    let o = answer(o, Action::QueryRuntimeVersion, Event::Done(true));
    let o = answer(o, Action::QueryRuntimeLiveness, Event::Done(true));
    let o = answer(
        o,
        Action::ReadClusterContext,
        Event::CurrentContext(Some("minikube".to_string())),
    );
    let o = answer(
        o,
        Action::ListClusterContexts,
        Event::AvailableContexts(vec!["minikube".to_string()]),
    );
    assert!(o.finished());
    assert_eq!(
        o.outcome(),
        Some(DeployError::EnvironmentUnavailable(EnvErrorKind::ClusterNotConfigured))
    );
}

fn to_running(mode: DeployMode) -> Orchestrator {
    let o = start(mode);
    let o = answer(o, Action::QueryRuntimeVersion, Event::Done(true));
    let o = answer(o, Action::QueryRuntimeLiveness, Event::Done(true));
    let o = if matches!(mode, DeployMode::Prod) {
        let o = answer(
            o,
            Action::ReadClusterContext,
            Event::CurrentContext(Some("docker-desktop".to_string())),
        );
        answer(o, Action::QueryClusterReachability, Event::Done(true))
    } else {
        o
    };
    let o = answer(o, Action::WriteArtifacts, Event::Done(true));
    let o = answer(o, Action::StopExistingContainer, Event::Done(true));
    let o = answer(o, Action::RemoveExistingContainer, Event::Done(true));
    let o = answer(o, Action::BuildImage, Event::Done(true));
    answer(
        o,
        Action::RunContainer,
        Event::Started { ok: true, container_id: "abc123".to_string() },
    )
}

#[test]
fn failed_artifact_write_is_a_config_error() {
    let o = start(DeployMode::Dev);
    let o = answer(o, Action::QueryRuntimeVersion, Event::Done(true));
    let o = answer(o, Action::QueryRuntimeLiveness, Event::Done(true));
    let o = answer(o, Action::WriteArtifacts, Event::Done(false));
    assert!(o.finished());
    assert_eq!(o.outcome(), Some(DeployError::ConfigGenerationError));
    assert_eq!(o.record.status, Status::Initializing);
}

#[test]
fn startup_failure_is_terminal() {
    let o = start(DeployMode::Dev);
    let o = answer(o, Action::QueryRuntimeVersion, Event::Done(true));
    let o = answer(o, Action::QueryRuntimeLiveness, Event::Done(true));
    let o = answer(o, Action::WriteArtifacts, Event::Done(true));
    let o = answer(o, Action::StopExistingContainer, Event::Done(true));
    let o = answer(o, Action::RemoveExistingContainer, Event::Done(true));
    let o = answer(o, Action::BuildImage, Event::Done(true));
    let o = answer(
        o,
        Action::RunContainer,
        Event::Started { ok: false, container_id: String::new() },
    );
    let o = pump_saves(o);
    assert!(o.finished());
    assert_eq!(o.outcome(), Some(DeployError::StartupFailure));
    assert_eq!(o.record.status, Status::StartupFailed);
}

#[test]
fn stopped_container_fails_verification() {
    let o = to_running(DeployMode::Dev);
    let o = answer(o, Action::InspectContainerRunning, Event::Done(false));
    let o = pump_saves(o);
    assert!(o.finished());
    assert_eq!(o.outcome(), Some(DeployError::ContainerNotRunning));
    assert_eq!(o.record.status, Status::VerificationFailed);
}

#[test]
fn unhealthy_container_is_a_warning_not_a_failure() {
    let o = to_running(DeployMode::Dev);
    let o = answer(o, Action::InspectContainerRunning, Event::Done(true));
    let o = answer(o, Action::InspectContainerHealth, Event::Health(HealthState::Unhealthy));
    assert_eq!(o.record.status, Status::Running);
    assert!(o.warnings.contains(&Warning::ContainerUnhealthy));
    let o = answer(o, Action::RunAuxTasks, Event::AuxDone(vec![true, true, true]));
    let o = pump_saves(o);
    assert!(o.finished());
    assert_eq!(o.outcome(), None);
}

#[test]
fn apply_failure_reports_first_unapplied_object() {
    let o = to_running(DeployMode::Prod);
    let o = answer(o, Action::InspectContainerRunning, Event::Done(true));
    let o = answer(o, Action::InspectContainerHealth, Event::Health(HealthState::Healthy));
    let o = answer(o, Action::TagImage, Event::Done(true));
    let o = answer(o, Action::EnsureNamespace, Event::Done(true));
    let o = answer(o, Action::ApplyObject(0), Event::Done(true));
    let o = answer(o, Action::ApplyObject(1), Event::Done(true));
    let o = answer(o, Action::ApplyObject(2), Event::Done(false));
    assert!(o.finished());
    assert_eq!(o.outcome(), Some(DeployError::ManifestApplyError { first_unapplied: 2 }));
    assert_eq!(o.record.status, Status::Deploying);
}

#[test]
fn aux_failures_degrade_without_reverting_success() {
    let o = to_running(DeployMode::Dev);
    let o = answer(o, Action::InspectContainerRunning, Event::Done(true));
    let o = answer(o, Action::InspectContainerHealth, Event::Health(HealthState::Healthy));
    assert_eq!(o.record.status, Status::Verified);
    let o = answer(o, Action::RunAuxTasks, Event::AuxDone(vec![true, false, true]));
    let o = pump_saves(o);
    assert!(o.finished());
    assert_eq!(o.outcome(), None);
    assert_eq!(o.record.status, Status::Verified);
    assert!(o.warnings.contains(&Warning::AuxTaskFailed { index: 1 }));
}

#[test]
fn unverified_but_running_container_still_rolls_out() {
    let o = to_running(DeployMode::Prod);
    let o = answer(o, Action::InspectContainerRunning, Event::Done(true));
    let o = answer(o, Action::InspectContainerHealth, Event::Health(HealthState::Unknown));
    assert_eq!(o.record.status, Status::Running);
    assert!(o.warnings.contains(&Warning::ContainerUnhealthy));
    let o = answer(o, Action::TagImage, Event::Done(true));
    let o = answer(o, Action::EnsureNamespace, Event::Done(true));
    assert_eq!(o.record.status, Status::Deploying);
}

#[test]
fn runtime_found_after_install_continues() {
    let o = start(DeployMode::Dev);
    let o = answer(o, Action::QueryRuntimeVersion, Event::Done(false));
    let o = answer(o, Action::InstallRuntime, Event::Done(true));
    let o = answer(o, Action::QueryRuntimeVersion, Event::Done(true));
    assert_eq!(pump_saves(o).next_action(), Some(Action::QueryRuntimeLiveness));
}

#[test]
fn success_is_never_rewound() {
    let mut o = to_running(DeployMode::Dev);
    o = answer(o, Action::InspectContainerRunning, Event::Done(true));
    o = answer(o, Action::InspectContainerHealth, Event::Health(HealthState::Unknown));
    o = answer(o, Action::RunAuxTasks, Event::AuxDone(vec![true]));
    o = pump_saves(o);
    assert!(o.finished());
    assert_eq!(o.record.status, Status::Running);
    for _ in 0..5 {
        o = o.step(Event::Done(false));
        assert_eq!(o.record.status, Status::Running);
        assert_eq!(o.next_action(), None);
    }
}

#[test]
fn interrupt_stops_the_machine_in_place() {
    let o = to_running(DeployMode::Dev);
    let o = pump_saves(o);
    let before = o.record.status;
    let o = o.interrupt();
    assert!(o.finished());
    assert_eq!(o.next_action(), None);
    assert_eq!(o.record.status, before);
    assert_eq!(o.outcome(), None);
}

#[test]
fn unstorable_container_id_is_not_recorded() {
    let o = start(DeployMode::Dev);
    let o = answer(o, Action::QueryRuntimeVersion, Event::Done(true));
    let o = answer(o, Action::QueryRuntimeLiveness, Event::Done(true));
    let o = answer(o, Action::WriteArtifacts, Event::Done(true));
    let o = answer(o, Action::StopExistingContainer, Event::Done(true));
    let o = answer(o, Action::RemoveExistingContainer, Event::Done(true));
    let o = answer(o, Action::BuildImage, Event::Done(true));
    let o = answer(
        o,
        Action::RunContainer,
        Event::Started { ok: true, container_id: "bad\"id".to_string() },
    );
    assert_eq!(o.record.status, Status::Running);
    assert!(o.record.container_id.is_none());
}
