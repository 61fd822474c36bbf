use rustify::errors::DeployError;
use rustify::errors::EnvErrorKind;
use rustify::model::AppSpec;
use rustify::model::DeployMode;
use rustify::model::HealthState;
use rustify::model::Status;
use rustify::orchestrator::Action;
use rustify::orchestrator::Event;
use rustify::orchestrator::Orchestrator;

fn spec(mode: DeployMode, replicas: u32, auto_scale: bool) -> AppSpec {
    AppSpec {
        name: "demo".to_string(),
        app_type: "node".to_string(),
        port: 8000,
        replicas,
        auto_scale,
        mode,
    }
}

fn start(mode: DeployMode, replicas: u32, auto_scale: bool) -> Orchestrator {
    Orchestrator::new(spec(mode, replicas, auto_scale), "2024-03-20T00:00:00Z".to_string())
        .unwrap()
}

/// Feeds `Saved` while the machine asks for a record save.
fn pump_saves(mut o: Orchestrator) -> Orchestrator {
    while o.next_action() == Some(Action::SaveRecord) {
        o = o.step(Event::Saved);
    }
    o
}

/// Answers the awaited action with the given event, first consuming any
/// pending save, and asserts the awaited action is the expected one.
fn answer(o: Orchestrator, expect: Action, ev: Event) -> Orchestrator {
    let o = pump_saves(o);
    assert_eq!(o.next_action(), Some(expect));
    o.step(ev)
}

/// Drives a live local runtime through the environment gate.
fn through_dev_gate(o: Orchestrator) -> Orchestrator {
    let o = answer(o, Action::QueryRuntimeVersion, Event::Done(true));
    answer(o, Action::QueryRuntimeLiveness, Event::Done(true))
}

/// Drives a reachable cluster through the environment and cluster gates.
fn through_prod_gate(o: Orchestrator) -> Orchestrator {
    let o = answer(o, Action::QueryRuntimeVersion, Event::Done(true));
    let o = answer(o, Action::QueryRuntimeLiveness, Event::Done(true));
    let o = answer(
        o,
        Action::ReadClusterContext,
        Event::CurrentContext(Some("docker-desktop".to_string())),
    );
    answer(o, Action::QueryClusterReachability, Event::Done(true))
}

/// Drives write, pre-clean, build and run to a running container.
fn through_run(o: Orchestrator, container_id: &str) -> Orchestrator {
    let o = answer(o, Action::WriteArtifacts, Event::Done(true));
    let o = answer(o, Action::StopExistingContainer, Event::Done(true));
    let o = answer(o, Action::RemoveExistingContainer, Event::Done(true));
    let o = answer(o, Action::BuildImage, Event::Done(true));
    answer(
        o,
        Action::RunContainer,
        Event::Started { ok: true, container_id: container_id.to_string() },
    )
}

#[test]
fn scenario_local_dev_deploy_succeeds() {
    let o = start(DeployMode::Dev, 1, false);
    let o = through_dev_gate(o);
    let o = through_run(o, "abc123");
    let o = answer(o, Action::InspectContainerRunning, Event::Done(true));
    let o = answer(o, Action::InspectContainerHealth, Event::Health(HealthState::Unknown));
    let o = answer(o, Action::RunAuxTasks, Event::AuxDone(vec![true, true, true]));
    let o = pump_saves(o);
    assert!(o.finished());
    assert_eq!(o.outcome(), None);
    assert_eq!(o.record.status, Status::Running);
    assert_eq!(o.record.container_id.as_deref(), Some("abc123"));
    assert!(o.artifacts.as_ref().unwrap().k8s_objects.is_empty());
}

#[test]
fn scenario_cluster_prod_deploy_rolls_out() {
    let o = start(DeployMode::Prod, 3, true);
    let o = through_prod_gate(o);
    let o = through_run(o, "abc123");
    let o = answer(o, Action::InspectContainerRunning, Event::Done(true));
    let o = answer(o, Action::InspectContainerHealth, Event::Health(HealthState::Healthy));
    assert_eq!(o.record.status, Status::Verified);
    let o = answer(o, Action::TagImage, Event::Done(true));
    let o = answer(o, Action::EnsureNamespace, Event::Done(true));
    assert_eq!(o.record.status, Status::Deploying);
    let n_objects = o.artifacts.as_ref().unwrap().k8s_objects.len();
    assert_eq!(n_objects, 6);
    let mut o = o;
    for i in 0..n_objects {
        o = answer(o, Action::ApplyObject(i), Event::Done(true));
    }
    let o = answer(o, Action::RolloutWait, Event::Done(true));
    let o = answer(
        o,
        Action::QueryPodPhases,
        Event::PodPhases("Running Running Running".to_string()),
    );
    let o = answer(o, Action::RunAuxTasks, Event::AuxDone(vec![true, true, true]));
    let o = pump_saves(o);
    assert!(o.finished());
    assert_eq!(o.outcome(), None);
    assert_eq!(o.record.status, Status::RolledOut);
    assert_eq!(o.record.kubernetes_metadata.pod_status.len(), 3);
    assert_eq!(
        o.record.kubernetes_metadata.pod_status,
        vec!["Running", "Running", "Running"]
    );
    assert_eq!(o.record.kubernetes_metadata.ingress_host.as_deref(), Some("demo.local"));
}

#[test]
fn scenario_absent_runtime_and_failed_install() {
    let o = start(DeployMode::Dev, 1, false);
    let o = answer(o, Action::QueryRuntimeVersion, Event::Done(false));
    let o = answer(o, Action::InstallRuntime, Event::Done(false));
    assert!(o.finished());
    assert_eq!(
        o.outcome(),
        Some(DeployError::EnvironmentUnavailable(EnvErrorKind::RuntimeMissing))
    );
    assert_eq!(o.record.status, Status::Pending);
    assert!(o.artifacts.is_none());
}

#[test]
fn scenario_build_failure_is_persisted_immediately() {
    let o = start(DeployMode::Dev, 1, false);
    let o = through_dev_gate(o);
    let o = answer(o, Action::WriteArtifacts, Event::Done(true));
    let o = answer(o, Action::StopExistingContainer, Event::Done(true));
    let o = answer(o, Action::RemoveExistingContainer, Event::Done(true));
    let o = answer(o, Action::BuildImage, Event::Done(false));
    assert_eq!(o.record.status, Status::BuildFailed);
    assert_eq!(o.next_action(), Some(Action::SaveRecord));
    let o = o.step(Event::Saved);
    assert!(o.finished());
    assert_eq!(o.next_action(), None);
    assert_eq!(o.outcome(), Some(DeployError::BuildFailure));
}

#[test]
fn scenario_rollout_timeout_and_cleanup() {
    let o = start(DeployMode::Prod, 3, false);
    let o = through_prod_gate(o);
    let o = through_run(o, "abc123");
    let o = answer(o, Action::InspectContainerRunning, Event::Done(true));
    let o = answer(o, Action::InspectContainerHealth, Event::Health(HealthState::Healthy));
    let o = answer(o, Action::TagImage, Event::Done(true));
    let o = answer(o, Action::EnsureNamespace, Event::Done(true));
    let n_objects = o.artifacts.as_ref().unwrap().k8s_objects.len();
    let mut o = o;
    for i in 0..n_objects {
        o = answer(o, Action::ApplyObject(i), Event::Done(true));
    }
    let o = answer(o, Action::RolloutWait, Event::Done(false));
    let o = pump_saves(o);
    assert!(o.finished());
    assert_eq!(o.outcome(), Some(DeployError::RolloutTimeout));
    assert_eq!(o.record.status, Status::RolloutFailed);

    let plan = rustify::cleanup::cleanup_plan(&o.record);
    let object_deletions: Vec<&rustify::cleanup::CleanupStep> = plan
        .iter()
        .filter(|s| s.kind == rustify::cleanup::CleanupKind::DeleteClusterObject)
        .collect();
    assert_eq!(object_deletions.len(), 6);
    assert!(object_deletions.iter().any(|s| s.target == "k8s-deployment.yaml"));
}
