use rustify::cleanup::CleanupKind;
use rustify::cleanup::apply_cleanup;
use rustify::cleanup::cleanup_plan;
use rustify::errors::DeployError;
use rustify::errors::EnvErrorKind;
use rustify::infrastructure::AuxTask;
use rustify::infrastructure::InfrastructureConfig;
use rustify::infrastructure::aux_tasks;
use rustify::infrastructure::join_aux;
use rustify::model::AppMetadata;
use rustify::model::AppSpec;
use rustify::model::DeployMode;

fn record(mode: DeployMode) -> AppMetadata {
    let spec = AppSpec {
        name: "demo".to_string(),
        app_type: "node".to_string(),
        port: 8000,
        replicas: 1,
        auto_scale: false,
        mode,
    };
    let mut rec = AppMetadata::new_record(&spec, "2024-03-20T00:00:00Z".to_string());
    rec.container_id = Some("abc123".to_string());
    rec.kubernetes_metadata.pod_status = vec!["Running".to_string()];
    rec.kubernetes_metadata.ingress_host = Some("demo.local".to_string());
    rec
}

#[test]
fn cleanup_is_idempotent() {
    let rec = record(DeployMode::Prod);
    let once = apply_cleanup(rec.clone());
    let twice = apply_cleanup(once.clone());
    assert_eq!(once, twice);
    assert!(once.container_id.is_none());
    assert!(once.kubernetes_metadata.pod_status.is_empty());
    assert!(once.kubernetes_metadata.ingress_host.is_none());
    assert_eq!(once.status, rec.status);
}

#[test]
fn second_cleanup_plans_only_if_exists_deletions() {
    let rec = record(DeployMode::Prod);
    let cleaned = apply_cleanup(rec);
    let again = cleanup_plan(&cleaned);
    assert!(!again.is_empty());
    for step in &again {
        assert!(
            step.kind == CleanupKind::DeleteClusterObject || step.kind == CleanupKind::DeleteFile
        );
    }
}

#[test]
fn cleanup_plan_order_and_contents() {
    let rec = record(DeployMode::Prod);
    let plan = cleanup_plan(&rec);
    assert_eq!(plan[0].kind, CleanupKind::StopContainer);
    assert_eq!(plan[1].kind, CleanupKind::RemoveContainer);
    assert_eq!(plan[2].kind, CleanupKind::DeleteClusterObject);
    assert!(plan.iter().any(|s| s.kind == CleanupKind::DeleteFile && s.target == "Dockerfile"));
    assert!(plan.iter().any(|s| s.target == "haproxy.cfg"));
}

#[test]
fn local_cleanup_plans_no_cluster_deletions() {
    let rec = record(DeployMode::Dev);
    let plan = cleanup_plan(&rec);
    assert!(plan.iter().all(|s| s.kind != CleanupKind::DeleteClusterObject));
    assert_eq!(plan[0].kind, CleanupKind::StopContainer);
}

#[test]
fn aux_task_group_by_configuration() {
    let none = InfrastructureConfig {
        kafka_enabled: false,
        database_separation: false,
        global_lb_enabled: false,
        multi_region: false,
        chaos_engineering: false,
        circuit_breakers: false,
    };
    assert_eq!(
        aux_tasks(&none),
        vec![AuxTask::Monitoring, AuxTask::Caching, AuxTask::LoadBalancing]
    );
    let all = InfrastructureConfig {
        kafka_enabled: true,
        database_separation: true,
        global_lb_enabled: true,
        multi_region: true,
        chaos_engineering: true,
        circuit_breakers: true,
    };
    let tasks = aux_tasks(&all);
    assert_eq!(tasks.len(), 9);
    assert_eq!(tasks[3], AuxTask::EventStreaming);
    assert_eq!(tasks[8], AuxTask::CircuitBreakers);
}

#[test]
fn join_reports_first_failure() {
    assert_eq!(join_aux(&vec![true, true, true]), None);
    assert_eq!(join_aux(&vec![true, false, false]), Some(1));
    assert_eq!(join_aux(&vec![false]), Some(0));
    assert_eq!(join_aux(&vec![]), None);
}

#[test]
fn error_messages_name_the_failure() {
    let e = DeployError::EnvironmentUnavailable(EnvErrorKind::ClusterUnreachable);
    let m = e.message();
    assert!(m.contains("unreachable"));
    assert!(m.contains("daemon"));
    assert!(m.contains("firewall"));
    assert_eq!(DeployError::BuildFailure.message(), "image build failed");
    assert_eq!(
        DeployError::RolloutTimeout.message(),
        "rollout did not complete within its timeout"
    );
}

#[test]
fn invalid_record_inputs_are_rejected() {
    let spec = AppSpec {
        name: "demo".to_string(),
        app_type: "node".to_string(),
        port: 8000,
        replicas: 1,
        auto_scale: false,
        mode: DeployMode::Dev,
    };
    let bad_time = rustify::orchestrator::Orchestrator::new(spec, "line\nbreak".to_string());
    assert!(matches!(bad_time, Err(DeployError::ConfigGenerationError)));
}
