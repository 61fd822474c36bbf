use rustify::model::AppMetadata;
use rustify::model::AppSpec;
use rustify::model::DeployMode;
use rustify::model::PerformanceMetrics;
use rustify::model::ScalingConfig;
use rustify::model::Status;
use rustify::model::default_max_instances;
use rustify::model::default_min_instances;
use rustify::model::default_namespace;
use rustify::model::is_json_safe;
use rustify::model::is_supported_type;
use rustify::model::is_valid_name;
use rustify::state_store::record_to_json;
use rustify::state_store::status_string;
use rustify::text::parse_pod_phases;
use rustify::text::u16_to_string;
use rustify::text::u32_to_string;
use rustify::text::u64_to_string;

fn demo_spec() -> AppSpec {
    AppSpec {
        name: "demo".to_string(),
        app_type: "node".to_string(),
        port: 8000,
        replicas: 1,
        auto_scale: false,
        mode: DeployMode::Dev,
    }
}

#[test]
fn name_validity() {
    assert!(is_valid_name("demo"));
    assert!(is_valid_name("a"));
    assert!(is_valid_name("web-app-2"));
    assert!(!is_valid_name(""));
    assert!(!is_valid_name("-demo"));
    assert!(!is_valid_name("demo-"));
    assert!(!is_valid_name("Demo"));
    assert!(!is_valid_name("de_mo"));
    assert!(is_valid_name(&"a".repeat(63)));
    assert!(!is_valid_name(&"a".repeat(64)));
}

#[test]
fn json_safety() {
    assert!(is_json_safe("2024-03-20T00:00:00Z"));
    assert!(is_json_safe("plain text with spaces"));
    assert!(!is_json_safe("with \"quote\""));
    assert!(!is_json_safe("back\\slash"));
    assert!(!is_json_safe("new\nline"));
}

#[test]
fn supported_types() {
    for t in ["bun", "node", "nextjs", "react", "vue", "nuxt", "svelte", "angular", "astro",
        "remix", "mern"] {
        assert!(is_supported_type(t), "{t} should be supported");
    }
    assert!(!is_supported_type("cobol"));
    assert!(!is_supported_type(""));
}

#[test]
fn defaults() {
    assert_eq!(default_namespace(), "default");
    assert_eq!(default_min_instances(), 1);
    assert_eq!(default_max_instances(), 5);
    let s = ScalingConfig::default();
    assert_eq!(s.min_instances, 1);
    assert_eq!(s.max_instances, 5);
    assert_eq!(s.auto_scale_threshold, 0);
    let m = PerformanceMetrics::default();
    assert_eq!(m.requests_per_second, 0);
}

#[test]
fn fresh_record_fields() {
    let rec = AppMetadata::new_record(&demo_spec(), "2024-03-20T00:00:00Z".to_string());
    assert_eq!(rec.app_name, "demo");
    assert_eq!(rec.app_type, "node");
    assert_eq!(rec.port, 8000);
    assert_eq!(rec.status, Status::Pending);
    assert!(rec.container_id.is_none());
    assert!(!rec.kubernetes_enabled);
    assert_eq!(rec.kubernetes_metadata.namespace, "development");
    assert_eq!(rec.kubernetes_metadata.deployment_name, "demo-deployment");
    assert_eq!(rec.kubernetes_metadata.service_name, "demo-service");
    assert!(rec.kubernetes_metadata.pod_status.is_empty());
}

#[test]
fn prod_record_namespace() {
    let mut spec = demo_spec();
    spec.mode = DeployMode::Prod;
    spec.replicas = 3;
    let rec = AppMetadata::new_record(&spec, "2024-03-20T00:00:00Z".to_string());
    assert!(rec.kubernetes_enabled);
    assert_eq!(rec.kubernetes_metadata.namespace, "production");
    assert_eq!(rec.kubernetes_metadata.replicas, 3);
}

#[test]
fn only_resolved_records_may_be_replaced() {
    let mut rec = AppMetadata::new_record(&demo_spec(), "t".to_string());
    assert!(!rec.is_resolved());
    rec.status = Status::Initializing;
    assert!(!rec.is_resolved());
    rec.status = Status::BuildFailed;
    assert!(rec.is_resolved());
    rec.status = Status::Running;
    assert!(rec.is_resolved());
    rec.kubernetes_enabled = true;
    assert!(!rec.is_resolved());
    rec.status = Status::RolledOut;
    assert!(rec.is_resolved());
}

#[test]
fn decimal_rendering() {
    assert_eq!(u32_to_string(0), "0");
    assert_eq!(u32_to_string(7), "7");
    assert_eq!(u32_to_string(8000), "8000");
    assert_eq!(u32_to_string(u32::MAX), "4294967295");
    assert_eq!(u16_to_string(65535), "65535");
    assert_eq!(u64_to_string(u64::MAX), "18446744073709551615");
}

#[test]
fn pod_phase_parsing() {
    assert_eq!(
        parse_pod_phases("Running Running Running"),
        vec!["Running", "Running", "Running"]
    );
    assert_eq!(parse_pod_phases("  Running\nPending\t"), vec!["Running", "Pending"]);
    assert!(parse_pod_phases("").is_empty());
    assert!(parse_pod_phases("   \n\t ").is_empty());
    assert_eq!(parse_pod_phases("one"), vec!["one"]);
}

#[test]
fn status_words() {
    assert_eq!(status_string(Status::Pending), "Pending");
    assert_eq!(status_string(Status::BuildFailed), "BuildFailed");
    assert_eq!(status_string(Status::RolledOut), "RolledOut");
}

#[test]
fn persisted_document_golden() {
    let rec = AppMetadata::new_record(&demo_spec(), "2024-03-20T00:00:00Z".to_string());
    let json = record_to_json(&rec);
    let expected = "{\"appName\":\"demo\",\"appType\":\"node\",\"port\":\"8000\",\"createdAt\":\"2024-03-20T00:00:00Z\",\"containerId\":null,\"status\":\"Pending\",\"kubernetesEnabled\":false,\"kubernetesMetadata\":{\"namespace\":\"development\",\"deploymentName\":\"demo-deployment\",\"serviceName\":\"demo-service\",\"replicas\":1,\"podStatus\":[],\"ingressHost\":null},\"performanceMetrics\":{\"avgResponseTimeMs\":0,\"requestsPerSecond\":0,\"errorRate\":0,\"memoryUsageMb\":0,\"cpuUsagePercent\":0},\"scalingConfig\":{\"autoScaleThreshold\":0,\"minInstances\":1,\"maxInstances\":5,\"scaleUpCooldown\":0,\"scaleDownCooldown\":0}}";
    assert_eq!(json, expected);
}

#[test]
fn persisted_document_round_trip() {
    let rec = AppMetadata::new_record(&demo_spec(), "2024-03-20T00:00:00Z".to_string());
    let json = record_to_json(&rec);
    let back = rustify::state_store::record_from_json(&json).unwrap();
    assert_eq!(back, rec);
    assert_eq!(record_to_json(&back), json);

    let mut spec = demo_spec();
    spec.mode = DeployMode::Prod;
    spec.replicas = 3;
    let mut rich = AppMetadata::new_record(&spec, "2024-03-20T00:00:00Z".to_string());
    rich.container_id = Some("abc123".to_string());
    rich.status = Status::RolledOut;
    rich.kubernetes_metadata.pod_status =
        vec!["Running".to_string(), "Running".to_string(), "Running".to_string()];
    rich.kubernetes_metadata.ingress_host = Some("demo.local".to_string());
    let rich_json = record_to_json(&rich);
    assert_eq!(rustify::state_store::record_from_json(&rich_json), Some(rich));
}

#[test]
fn malformed_documents_are_rejected() {
    assert_eq!(rustify::state_store::record_from_json(""), None);
    assert_eq!(rustify::state_store::record_from_json("{}"), None);
    assert_eq!(rustify::state_store::record_from_json("{\"appName\":\"demo\""), None);
    let rec = AppMetadata::new_record(&demo_spec(), "t".to_string());
    let json = record_to_json(&rec);
    let truncated = &json[..json.len() - 1];
    assert_eq!(rustify::state_store::record_from_json(truncated), None);
    let padded = format!("{json} ");
    assert_eq!(rustify::state_store::record_from_json(&padded), None);
}

#[test]
fn persisted_document_with_pods() {
    let mut spec = demo_spec();
    spec.mode = DeployMode::Prod;
    let mut rec = AppMetadata::new_record(&spec, "t".to_string());
    rec.kubernetes_metadata.pod_status = vec!["Running".to_string(), "Pending".to_string()];
    rec.container_id = Some("abc123".to_string());
    let json = record_to_json(&rec);
    assert!(json.contains("\"podStatus\":[\"Running\",\"Pending\"]"));
    assert!(json.contains("\"containerId\":\"abc123\""));
    assert!(json.contains("\"namespace\":\"production\""));
}
