use rustify::config::ArtifactKind;
use rustify::config::create_framework_specific_config;
use rustify::config::generate_haproxy_config;
use rustify::config::generate_nginx_config;
use rustify::config::render;
use rustify::config::render_dockerfile;
use rustify::errors::DeployError;
use rustify::model::AppSpec;
use rustify::model::DeployMode;

fn demo_spec(mode: DeployMode, replicas: u32, auto_scale: bool) -> AppSpec {
    AppSpec {
        name: "demo".to_string(),
        app_type: "node".to_string(),
        port: 8000,
        replicas,
        auto_scale,
        mode,
    }
}

#[test]
fn render_is_deterministic() {
    let spec = demo_spec(DeployMode::Prod, 3, true);
    let a = render(&spec).unwrap();
    let b = render(&spec).unwrap();
    assert_eq!(a, b);
    let spec_dev = demo_spec(DeployMode::Dev, 1, false);
    let c = render(&spec_dev).unwrap();
    let d = render(&spec_dev).unwrap();
    assert_eq!(c, d);
}

#[test]
fn dev_render_has_no_cluster_objects() {
    let a = render(&demo_spec(DeployMode::Dev, 1, false)).unwrap();
    assert!(a.k8s_objects.is_empty());
    assert!(a.ingress_host.is_none());
    assert_eq!(a.dockerfile.path, "Dockerfile");
    assert_eq!(a.compose_file.path, "docker-compose.yml");
    assert_eq!(a.proxy_configs.len(), 2);
}

#[test]
fn prod_render_applies_in_dependency_order() {
    let a = render(&demo_spec(DeployMode::Prod, 3, true)).unwrap();
    let kinds: Vec<ArtifactKind> = a.k8s_objects.iter().map(|o| o.kind).collect();
    assert_eq!(
        kinds,
        vec![
            ArtifactKind::Quota,
            ArtifactKind::Deployment,
            ArtifactKind::Service,
            ArtifactKind::NetworkPolicy,
            ArtifactKind::Autoscaler,
            ArtifactKind::Ingress,
        ]
    );
    assert_eq!(a.ingress_host.as_deref(), Some("demo.local"));
}

#[test]
fn prod_render_without_autoscale_has_no_autoscaler() {
    let a = render(&demo_spec(DeployMode::Prod, 3, false)).unwrap();
    let kinds: Vec<ArtifactKind> = a.k8s_objects.iter().map(|o| o.kind).collect();
    assert_eq!(
        kinds,
        vec![
            ArtifactKind::Quota,
            ArtifactKind::Deployment,
            ArtifactKind::Service,
            ArtifactKind::NetworkPolicy,
            ArtifactKind::Ingress,
        ]
    );
}

#[test]
fn bun_dockerfile_exact_text() {
    let text = render_dockerfile("bun", 8000);
    assert_eq!(
        text,
        "FROM oven/bun:latest\nWORKDIR /app\nCOPY . .\nRUN bun install\nEXPOSE 8000\nCMD [\"bun\", \"start\"]\n"
    );
}

#[test]
fn node_dockerfile_injects_port() {
    let text = render_dockerfile("node", 3000);
    assert!(text.starts_with("FROM node:20-alpine AS builder\n"));
    assert!(text.contains("ENV PORT=3000\n"));
    assert!(text.contains("EXPOSE 3000\n"));
}

#[test]
fn compose_file_exact_text() {
    let a = render(&demo_spec(DeployMode::Dev, 1, false)).unwrap();
    assert_eq!(
        a.compose_file.content,
        "version: '3.8'\nservices:\n  demo:\n    build: .\n    ports:\n      - 8000:8000\n    restart: always\n    environment:\n      - NODE_ENV=dev\n"
    );
}

#[test]
fn deployment_injects_replicas_and_policy() {
    let a = render(&demo_spec(DeployMode::Prod, 3, true)).unwrap();
    let dep = &a.k8s_objects[1];
    assert_eq!(dep.path, "k8s-deployment.yaml");
    assert!(dep.content.contains("replicas: 3\n"));
    assert!(dep.content.contains("maxSurge: 25%"));
    assert!(dep.content.contains("maxUnavailable: 25%"));
    assert!(dep.content.contains("name: demo-deployment"));
    assert!(dep.content.contains("namespace: production"));
    assert!(dep.content.contains("cpu: \"2\""));
    assert!(dep.content.contains("memory: \"4Gi\""));
    assert!(dep.content.contains("failureThreshold: 30"));
}

#[test]
fn dev_resources_are_lower_than_prod() {
    let prod = render(&demo_spec(DeployMode::Prod, 1, false)).unwrap();
    let quota = &prod.k8s_objects[0];
    assert!(quota.content.contains("requests.cpu: \"4\""));
    assert!(quota.content.contains("limits.memory: 16Gi"));
}

#[test]
fn service_has_client_ip_affinity() {
    let a = render(&demo_spec(DeployMode::Prod, 3, false)).unwrap();
    let svc = &a.k8s_objects[2];
    assert!(svc.content.contains("sessionAffinity: ClientIP"));
    assert!(svc.content.contains("timeoutSeconds: 10800"));
    assert!(svc.content.contains("name: demo-service"));
}

#[test]
fn ingress_routes_derived_host() {
    let a = render(&demo_spec(DeployMode::Prod, 3, false)).unwrap();
    let ing = a.k8s_objects.last().unwrap();
    assert!(ing.content.contains("host: demo.local\n"));
    assert!(ing.content.contains("number: 8000\n"));
}

#[test]
fn nginx_config_worker_count_by_mode() {
    let prod = generate_nginx_config("prod");
    let dev = generate_nginx_config("dev");
    assert!(prod.contains("worker_processes auto;"));
    assert!(dev.contains("worker_processes 4;"));
    assert_eq!(prod, generate_nginx_config("prod"));
}

#[test]
fn haproxy_config_is_fixed() {
    let a = generate_haproxy_config("prod");
    let b = generate_haproxy_config("dev");
    assert_eq!(a, b);
    assert!(a.contains("backend apps"));
    assert!(a.contains("http-check expect status 200"));
}

#[test]
fn framework_config_dispatch() {
    let react = create_framework_specific_config("react");
    assert_eq!(react.len(), 2);
    assert_eq!(react[0].path, "next.config.js");
    assert_eq!(react[1].path, "tsconfig.json");
    let next = create_framework_specific_config("nextjs");
    assert_eq!(next.len(), 2);
    assert!(create_framework_specific_config("bun").is_empty());
    assert!(create_framework_specific_config("fortran").is_empty());
}

#[test]
fn invalid_spec_is_rejected() {
    let mut spec = demo_spec(DeployMode::Dev, 1, false);
    spec.name = "Bad_Name".to_string();
    assert_eq!(render(&spec), Err(DeployError::ConfigGenerationError));
    let mut spec2 = demo_spec(DeployMode::Dev, 1, false);
    spec2.app_type = "cobol".to_string();
    assert_eq!(render(&spec2), Err(DeployError::ConfigGenerationError));
}
