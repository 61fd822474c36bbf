//! ConfigBuilder: pure, deterministic rendering of every deployment artifact
//! from an `AppSpec` and its mode.  No file is written here; the caller
//! writes each artifact's `content` to its `path` right before the stage
//! that consumes it.

use vstd::prelude::*;
use crate::errors::DeployError;
use crate::model::AppSpec;
use crate::model::AppSpecV;
use crate::model::DeployMode;
use crate::model::json_safe;
use crate::model::str_eq;
use crate::model::is_valid_app_spec;
use crate::model::valid_app_spec;
use crate::text::dec_digits;
use crate::text::u16_to_string;
use crate::text::u32_to_string;

verus! {

/// What a generated file is for, which also fixes its apply order in
/// cluster mode.
#[derive(Clone, Copy, PartialEq, Eq, Structural, Debug)]
pub enum ArtifactKind {
    Dockerfile,
    ComposeFile,
    Quota,
    Deployment,
    Service,
    NetworkPolicy,
    Autoscaler,
    Ingress,
    NginxConf,
    HaproxyConf,
    FrameworkConfig,
}

/// A generated configuration file: where it goes and what it holds.
#[derive(Debug, Clone, PartialEq)]
pub struct Artifact {
    pub kind: ArtifactKind,
    pub path: String,
    pub content: String,
}

/// Mathematical image of an `Artifact`.
#[verifier::ext_equal]
pub struct ArtifactV {
    pub kind: ArtifactKind,
    pub path: Seq<char>,
    pub content: Seq<char>,
}

impl View for Artifact {
    type V = ArtifactV;

    open spec fn view(&self) -> ArtifactV {
        ArtifactV { kind: self.kind, path: self.path@, content: self.content@ }
    }
}

impl DeepView for Artifact {
    type V = ArtifactV;

    open spec fn deep_view(&self) -> ArtifactV {
        self@
    }
}

/// The full artifact set of one deployment attempt.
#[derive(Debug, Clone, PartialEq)]
pub struct Artifacts {
    pub dockerfile: Artifact,
    pub compose_file: Artifact,
    pub k8s_objects: Vec<Artifact>,
    pub proxy_configs: Vec<Artifact>,
    pub ingress_host: Option<String>,
}

/// Mathematical image of an `Artifacts` set.
#[verifier::ext_equal]
pub struct ArtifactsV {
    pub dockerfile: ArtifactV,
    pub compose_file: ArtifactV,
    pub k8s_objects: Seq<ArtifactV>,
    pub proxy_configs: Seq<ArtifactV>,
    pub ingress_host: Option<Seq<char>>,
}

impl View for Artifacts {
    type V = ArtifactsV;

    open spec fn view(&self) -> ArtifactsV {
        ArtifactsV {
            dockerfile: self.dockerfile@,
            compose_file: self.compose_file@,
            k8s_objects: self.k8s_objects.deep_view(),
            proxy_configs: self.proxy_configs.deep_view(),
            ingress_host: match self.ingress_host {
                Some(ref h) => Some(h@),
                None => None,
            },
        }
    }
}

/// The mode word injected into environment variables and templates.
pub open spec fn mode_text(m: DeployMode) -> Seq<char> {
    match m {
        DeployMode::Dev => "dev"@,
        DeployMode::Prod => "prod"@,
    }
}

/// Renders the mode word.
pub fn mode_string(m: DeployMode) -> (r: String)
    ensures
        r@ == mode_text(m),
{
    match m {
        DeployMode::Dev => String::from_str("dev"),
        DeployMode::Prod => String::from_str("prod"),
    }
}

/// The image build file: a bun image for bun applications, a two-stage
/// node image for everything else, with the port injected.
pub open spec fn dockerfile_text(app_type: Seq<char>, port: u16) -> Seq<char> {
    if app_type == "bun"@ {
        "FROM oven/bun:latest\nWORKDIR /app\nCOPY . .\nRUN bun install\nEXPOSE "@ + dec_digits(
            port as nat,
        ) + "\nCMD [\"bun\", \"start\"]\n"@
    } else {
        "FROM node:20-alpine AS builder\nWORKDIR /app\nCOPY package*.json ./\nRUN npm ci\nCOPY . .\nRUN npm run build\n\nFROM node:20-alpine AS runner\nWORKDIR /app\nCOPY --from=builder /app ./\nENV NODE_ENV=production\nENV PORT="@
            + dec_digits(port as nat) + "\nEXPOSE "@ + dec_digits(port as nat)
            + "\nCMD [\"npm\", \"start\"]\n"@
    }
}

/// Renders the image build file.
pub fn render_dockerfile(app_type: &str, port: u16) -> (r: String)
    ensures
        r@ == dockerfile_text(app_type@, port),
{
    if str_eq(app_type, "bun") {
        let mut s = String::from_str(
            "FROM oven/bun:latest\nWORKDIR /app\nCOPY . .\nRUN bun install\nEXPOSE ",
        );
        let p = u16_to_string(port);
        s.append(p.as_str());
        s.append("\nCMD [\"bun\", \"start\"]\n");
        s
    } else {
        let mut s = String::from_str(
            "FROM node:20-alpine AS builder\nWORKDIR /app\nCOPY package*.json ./\nRUN npm ci\nCOPY . .\nRUN npm run build\n\nFROM node:20-alpine AS runner\nWORKDIR /app\nCOPY --from=builder /app ./\nENV NODE_ENV=production\nENV PORT=",
        );
        let p = u16_to_string(port);
        s.append(p.as_str());
        s.append("\nEXPOSE ");
        let p2 = u16_to_string(port);
        s.append(p2.as_str());
        s.append("\nCMD [\"npm\", \"start\"]\n");
        s
    }
}

/// The compose file, with the service named after the application and the
/// port published one-to-one.
pub open spec fn compose_text(name: Seq<char>, port: u16, m: DeployMode) -> Seq<char> {
    "version: '3.8'\nservices:\n  "@ + name + ":\n    build: .\n    ports:\n      - "@
        + dec_digits(port as nat) + ":"@ + dec_digits(port as nat)
        + "\n    restart: always\n    environment:\n      - NODE_ENV="@ + mode_text(m) + "\n"@
}

/// Renders the compose file.
pub fn render_compose(name: &str, port: u16, m: DeployMode) -> (r: String)
    ensures
        r@ == compose_text(name@, port, m),
{
    let mut s = String::from_str("version: '3.8'\nservices:\n  ");
    s.append(name);
    s.append(":\n    build: .\n    ports:\n      - ");
    let p = u16_to_string(port);
    s.append(p.as_str());
    s.append(":");
    let p2 = u16_to_string(port);
    s.append(p2.as_str());
    s.append("\n    restart: always\n    environment:\n      - NODE_ENV=");
    let mw = mode_string(m);
    s.append(mw.as_str());
    s.append("\n");
    s
}

/// Container resource requests and limits: production gets the higher
/// ceilings.
pub open spec fn resources_text(m: DeployMode) -> Seq<char> {
    match m {
        DeployMode::Prod => "        resources:\n          requests:\n            cpu: \"1\"\n            memory: \"2Gi\"\n          limits:\n            cpu: \"2\"\n            memory: \"4Gi\"\n"@,
        DeployMode::Dev => "        resources:\n          requests:\n            cpu: \"500m\"\n            memory: \"512Mi\"\n          limits:\n            cpu: \"1\"\n            memory: \"1Gi\"\n"@,
    }
}

/// Renders the resource block.
fn resources_string(m: DeployMode) -> (r: String)
    ensures
        r@ == resources_text(m),
{
    match m {
        DeployMode::Prod => String::from_str(
            "        resources:\n          requests:\n            cpu: \"1\"\n            memory: \"2Gi\"\n          limits:\n            cpu: \"2\"\n            memory: \"4Gi\"\n",
        ),
        DeployMode::Dev => String::from_str(
            "        resources:\n          requests:\n            cpu: \"500m\"\n            memory: \"512Mi\"\n          limits:\n            cpu: \"1\"\n            memory: \"1Gi\"\n",
        ),
    }
}

/// The probe block: liveness, readiness and startup thresholds are fixed
/// constants independent of mode; only the port is injected.
pub open spec fn probes_text(port: u16) -> Seq<char> {
    "        livenessProbe:\n          httpGet:\n            path: /health\n            port: "@
        + dec_digits(port as nat)
        + "\n          initialDelaySeconds: 15\n          periodSeconds: 20\n          timeoutSeconds: 5\n          failureThreshold: 3\n        readinessProbe:\n          httpGet:\n            path: /health\n            port: "@
        + dec_digits(port as nat)
        + "\n          initialDelaySeconds: 5\n          periodSeconds: 10\n          timeoutSeconds: 3\n          successThreshold: 1\n          failureThreshold: 3\n        startupProbe:\n          httpGet:\n            path: /health\n            port: "@
        + dec_digits(port as nat) + "\n          failureThreshold: 30\n          periodSeconds: 10\n"@
}

/// Renders the probe block.
fn probes_string(port: u16) -> (r: String)
    ensures
        r@ == probes_text(port),
{
    let mut s = String::from_str(
        "        livenessProbe:\n          httpGet:\n            path: /health\n            port: ",
    );
    let p = u16_to_string(port);
    s.append(p.as_str());
    s.append(
        "\n          initialDelaySeconds: 15\n          periodSeconds: 20\n          timeoutSeconds: 5\n          failureThreshold: 3\n        readinessProbe:\n          httpGet:\n            path: /health\n            port: ",
    );
    let p2 = u16_to_string(port);
    s.append(p2.as_str());
    s.append(
        "\n          initialDelaySeconds: 5\n          periodSeconds: 10\n          timeoutSeconds: 3\n          successThreshold: 1\n          failureThreshold: 3\n        startupProbe:\n          httpGet:\n            path: /health\n            port: ",
    );
    let p3 = u16_to_string(port);
    s.append(p3.as_str());
    s.append("\n          failureThreshold: 30\n          periodSeconds: 10\n");
    s
}

/// The workload object: replica count from the spec, fixed 25%/25% rolling
/// update policy, environment and probes with the injected parameters.
pub open spec fn deployment_text(
    name: Seq<char>,
    namespace: Seq<char>,
    port: u16,
    replicas: u32,
    m: DeployMode,
) -> Seq<char> {
    "apiVersion: apps/v1\nkind: Deployment\nmetadata:\n  name: "@ + name
        + "-deployment\n  namespace: "@ + namespace + "\nspec:\n  replicas: "@ + dec_digits(
        replicas as nat,
    )
        + "\n  strategy:\n    type: RollingUpdate\n    rollingUpdate:\n      maxSurge: 25%\n      maxUnavailable: 25%\n  selector:\n    matchLabels:\n      app: "@
        + name + "\n  template:\n    metadata:\n      labels:\n        app: "@ + name
        + "\n    spec:\n      containers:\n      - name: "@ + name + "\n        image: "@ + name
        + ":latest\n        imagePullPolicy: Never\n        ports:\n        - containerPort: "@
        + dec_digits(port as nat) + "\n        env:\n        - name: PORT\n          value: \""@
        + dec_digits(port as nat) + "\"\n        - name: NODE_ENV\n          value: \""@
        + mode_text(m) + "\"\n"@ + resources_text(m) + probes_text(port)
}

/// Renders the workload object.
pub fn render_deployment(
    name: &str,
    namespace: &str,
    port: u16,
    replicas: u32,
    m: DeployMode,
) -> (r: String)
    ensures
        r@ == deployment_text(name@, namespace@, port, replicas, m),
{
    let mut s = String::from_str("apiVersion: apps/v1\nkind: Deployment\nmetadata:\n  name: ");
    s.append(name);
    s.append("-deployment\n  namespace: ");
    s.append(namespace);
    s.append("\nspec:\n  replicas: ");
    let rep = u32_to_string(replicas);
    s.append(rep.as_str());
    s.append(
        "\n  strategy:\n    type: RollingUpdate\n    rollingUpdate:\n      maxSurge: 25%\n      maxUnavailable: 25%\n  selector:\n    matchLabels:\n      app: ",
    );
    s.append(name);
    s.append("\n  template:\n    metadata:\n      labels:\n        app: ");
    s.append(name);
    s.append("\n    spec:\n      containers:\n      - name: ");
    s.append(name);
    s.append("\n        image: ");
    s.append(name);
    s.append(":latest\n        imagePullPolicy: Never\n        ports:\n        - containerPort: ");
    let p = u16_to_string(port);
    s.append(p.as_str());
    s.append("\n        env:\n        - name: PORT\n          value: \"");
    let p2 = u16_to_string(port);
    s.append(p2.as_str());
    s.append("\"\n        - name: NODE_ENV\n          value: \"");
    let mw = mode_string(m);
    s.append(mw.as_str());
    s.append("\"\n");
    let res = resources_string(m);
    s.append(res.as_str());
    let probes = probes_string(port);
    s.append(probes.as_str());
    s
}

/// The service object: client-IP session affinity with a fixed timeout.
pub open spec fn service_text(name: Seq<char>, namespace: Seq<char>, port: u16) -> Seq<char> {
    "apiVersion: v1\nkind: Service\nmetadata:\n  name: "@ + name + "-service\n  namespace: "@
        + namespace + "\nspec:\n  selector:\n    app: "@ + name + "\n  ports:\n  - port: "@
        + dec_digits(port as nat) + "\n    targetPort: "@ + dec_digits(port as nat)
        + "\n  sessionAffinity: ClientIP\n  sessionAffinityConfig:\n    clientIP:\n      timeoutSeconds: 10800\n  type: ClusterIP\n"@
}

/// Renders the service object.
pub fn render_service(name: &str, namespace: &str, port: u16) -> (r: String)
    ensures
        r@ == service_text(name@, namespace@, port),
{
    let mut s = String::from_str("apiVersion: v1\nkind: Service\nmetadata:\n  name: ");
    s.append(name);
    s.append("-service\n  namespace: ");
    s.append(namespace);
    s.append("\nspec:\n  selector:\n    app: ");
    s.append(name);
    s.append("\n  ports:\n  - port: ");
    let p = u16_to_string(port);
    s.append(p.as_str());
    s.append("\n    targetPort: ");
    let p2 = u16_to_string(port);
    s.append(p2.as_str());
    s.append(
        "\n  sessionAffinity: ClientIP\n  sessionAffinityConfig:\n    clientIP:\n      timeoutSeconds: 10800\n  type: ClusterIP\n",
    );
    s
}

/// The namespace resource quota, derived from the mode alone.
pub open spec fn quota_text(m: DeployMode) -> Seq<char> {
    match m {
        DeployMode::Prod => "apiVersion: v1\nkind: ResourceQuota\nmetadata:\n  name: compute-quota\nspec:\n  hard:\n    requests.cpu: \"4\"\n    requests.memory: 8Gi\n    limits.cpu: \"8\"\n    limits.memory: 16Gi\n"@,
        DeployMode::Dev => "apiVersion: v1\nkind: ResourceQuota\nmetadata:\n  name: compute-quota\nspec:\n  hard:\n    requests.cpu: \"1\"\n    requests.memory: 2Gi\n    limits.cpu: \"2\"\n    limits.memory: 4Gi\n"@,
    }
}

/// Renders the namespace resource quota.
pub fn render_quota(m: DeployMode) -> (r: String)
    ensures
        r@ == quota_text(m),
{
    match m {
        DeployMode::Prod => String::from_str(
            "apiVersion: v1\nkind: ResourceQuota\nmetadata:\n  name: compute-quota\nspec:\n  hard:\n    requests.cpu: \"4\"\n    requests.memory: 8Gi\n    limits.cpu: \"8\"\n    limits.memory: 16Gi\n",
        ),
        DeployMode::Dev => String::from_str(
            "apiVersion: v1\nkind: ResourceQuota\nmetadata:\n  name: compute-quota\nspec:\n  hard:\n    requests.cpu: \"1\"\n    requests.memory: 2Gi\n    limits.cpu: \"2\"\n    limits.memory: 4Gi\n",
        ),
    }
}

/// The network policy object.
pub open spec fn netpol_text(name: Seq<char>, namespace: Seq<char>) -> Seq<char> {
    "apiVersion: networking.k8s.io/v1\nkind: NetworkPolicy\nmetadata:\n  name: "@ + name
        + "-network-policy\n  namespace: "@ + namespace
        + "\nspec:\n  podSelector:\n    matchLabels:\n      app: "@ + name
        + "\n  policyTypes:\n  - Ingress\n  - Egress\n  ingress:\n  - from:\n    - namespaceSelector:\n        matchLabels:\n          name: "@
        + namespace
        + "\n    ports:\n    - protocol: TCP\n      port: 80\n  egress:\n  - to:\n    - namespaceSelector:\n        matchLabels:\n          name: kube-system\n    ports:\n    - protocol: TCP\n"@
}

/// Renders the network policy object.
pub fn render_netpol(name: &str, namespace: &str) -> (r: String)
    ensures
        r@ == netpol_text(name@, namespace@),
{
    let mut s = String::from_str(
        "apiVersion: networking.k8s.io/v1\nkind: NetworkPolicy\nmetadata:\n  name: ",
    );
    s.append(name);
    s.append("-network-policy\n  namespace: ");
    s.append(namespace);
    s.append("\nspec:\n  podSelector:\n    matchLabels:\n      app: ");
    s.append(name);
    s.append(
        "\n  policyTypes:\n  - Ingress\n  - Egress\n  ingress:\n  - from:\n    - namespaceSelector:\n        matchLabels:\n          name: ",
    );
    s.append(namespace);
    s.append(
        "\n    ports:\n    - protocol: TCP\n      port: 80\n  egress:\n  - to:\n    - namespaceSelector:\n        matchLabels:\n          name: kube-system\n    ports:\n    - protocol: TCP\n",
    );
    s
}

/// The horizontal autoscaler object: the spec's replica count is the floor,
/// ten instances the ceiling, seventy percent CPU the target.
pub open spec fn hpa_text(name: Seq<char>, namespace: Seq<char>, min_replicas: u32) -> Seq<char> {
    "apiVersion: autoscaling/v2\nkind: HorizontalPodAutoscaler\nmetadata:\n  name: "@ + name
        + "-hpa\n  namespace: "@ + namespace
        + "\nspec:\n  scaleTargetRef:\n    apiVersion: apps/v1\n    kind: Deployment\n    name: "@
        + name + "-deployment\n  minReplicas: "@ + dec_digits(min_replicas as nat)
        + "\n  maxReplicas: 10\n  metrics:\n  - type: Resource\n    resource:\n      name: cpu\n      target:\n        type: Utilization\n        averageUtilization: 70\n"@
}

/// Renders the horizontal autoscaler object.
pub fn render_hpa(name: &str, namespace: &str, min_replicas: u32) -> (r: String)
    ensures
        r@ == hpa_text(name@, namespace@, min_replicas),
{
    let mut s = String::from_str(
        "apiVersion: autoscaling/v2\nkind: HorizontalPodAutoscaler\nmetadata:\n  name: ",
    );
    s.append(name);
    s.append("-hpa\n  namespace: ");
    s.append(namespace);
    s.append(
        "\nspec:\n  scaleTargetRef:\n    apiVersion: apps/v1\n    kind: Deployment\n    name: ",
    );
    s.append(name);
    s.append("-deployment\n  minReplicas: ");
    let mr = u32_to_string(min_replicas);
    s.append(mr.as_str());
    s.append(
        "\n  maxReplicas: 10\n  metrics:\n  - type: Resource\n    resource:\n      name: cpu\n      target:\n        type: Utilization\n        averageUtilization: 70\n",
    );
    s
}

/// The ingress object, routing the host derived from the application name.
pub open spec fn ingress_text(name: Seq<char>, namespace: Seq<char>, port: u16) -> Seq<char> {
    "apiVersion: networking.k8s.io/v1\nkind: Ingress\nmetadata:\n  name: "@ + name
        + "-ingress\n  namespace: "@ + namespace
        + "\n  annotations:\n    nginx.ingress.kubernetes.io/rewrite-target: /\nspec:\n  rules:\n  - host: "@
        + name
        + ".local\n    http:\n      paths:\n      - path: /\n        pathType: Prefix\n        backend:\n          service:\n            name: "@
        + name + "-service\n            port:\n              number: "@ + dec_digits(port as nat)
        + "\n"@
}

/// Renders the ingress object.
pub fn render_ingress(name: &str, namespace: &str, port: u16) -> (r: String)
    ensures
        r@ == ingress_text(name@, namespace@, port),
{
    let mut s = String::from_str(
        "apiVersion: networking.k8s.io/v1\nkind: Ingress\nmetadata:\n  name: ",
    );
    s.append(name);
    s.append("-ingress\n  namespace: ");
    s.append(namespace);
    s.append(
        "\n  annotations:\n    nginx.ingress.kubernetes.io/rewrite-target: /\nspec:\n  rules:\n  - host: ",
    );
    s.append(name);
    s.append(
        ".local\n    http:\n      paths:\n      - path: /\n        pathType: Prefix\n        backend:\n          service:\n            name: ",
    );
    s.append(name);
    s.append("-service\n            port:\n              number: ");
    let p = u16_to_string(port);
    s.append(p.as_str());
    s.append("\n");
    s
}

/// The web-server proxy configuration: production lets the server pick its
/// worker count, development pins it.
pub open spec fn nginx_conf_text(prod: bool) -> Seq<char> {
    "user nginx;\nworker_processes "@ + (if prod {
        "auto"@
    } else {
        "4"@
    })
        + ";\nworker_rlimit_nofile 1000000;\npcre_jit on;\n\nevents {\n    worker_connections 65535;\n    use epoll;\n    multi_accept on;\n}\n\nhttp {\n    sendfile on;\n    tcp_nopush on;\n    tcp_nodelay on;\n    keepalive_timeout 65;\n    keepalive_requests 1000;\n    server_tokens off;\n    gzip on;\n    gzip_comp_level 5;\n    gzip_min_length 256;\n    ssl_protocols TLSv1.2 TLSv1.3;\n    ssl_prefer_server_ciphers on;\n    ssl_session_cache shared:SSL:50m;\n    ssl_session_timeout 1d;\n    add_header X-Frame-Options \"SAMEORIGIN\" always;\n    add_header X-Content-Type-Options \"nosniff\" always;\n    add_header Strict-Transport-Security \"max-age=31536000; includeSubDomains\" always;\n}\n"@
}

/// Renders the web-server proxy configuration.  The mode word selects the
/// worker-count policy; any word other than `prod` renders the development
/// configuration.
pub fn generate_nginx_config(mode: &str) -> (r: String)
    ensures
        r@ == nginx_conf_text(mode@ == "prod"@),
{
    let mut s = String::from_str("user nginx;\nworker_processes ");
    if str_eq(mode, "prod") {
        s.append("auto");
    } else {
        s.append("4");
    }
    s.append(
        ";\nworker_rlimit_nofile 1000000;\npcre_jit on;\n\nevents {\n    worker_connections 65535;\n    use epoll;\n    multi_accept on;\n}\n\nhttp {\n    sendfile on;\n    tcp_nopush on;\n    tcp_nodelay on;\n    keepalive_timeout 65;\n    keepalive_requests 1000;\n    server_tokens off;\n    gzip on;\n    gzip_comp_level 5;\n    gzip_min_length 256;\n    ssl_protocols TLSv1.2 TLSv1.3;\n    ssl_prefer_server_ciphers on;\n    ssl_session_cache shared:SSL:50m;\n    ssl_session_timeout 1d;\n    add_header X-Frame-Options \"SAMEORIGIN\" always;\n    add_header X-Content-Type-Options \"nosniff\" always;\n    add_header Strict-Transport-Security \"max-age=31536000; includeSubDomains\" always;\n}\n",
    );
    s
}

/// The load-balancer proxy configuration; it does not vary with the mode.
pub open spec fn haproxy_conf_text() -> Seq<char> {
    "global\n    maxconn 100000\n    tune.ssl.default-dh-param 2048\n    stats timeout 2m\n\ndefaults\n    mode http\n    timeout connect 10s\n    timeout client 30s\n    timeout server 30s\n    option httplog\n    option dontlognull\n    option http-server-close\n    option redispatch\n    retries 3\n    maxconn 3000\n\nbackend apps\n    balance first\n    hash-type consistent\n    stick-table type string len 32 size 100k expire 30m\n    stick store-request req.cook(sessionid)\n    option httpchk HEAD /health HTTP/1.1\\r\\nHost:\\ localhost\n    http-check expect status 200\n    default-server inter 3s fall 3 rise 2 on-marked-down shutdown-sessions\n    server-template app- 20 127.0.0.1:3000-3020 check resolvers docker init-addr none\n"@
}

/// Renders the load-balancer proxy configuration.  The mode word is
/// accepted for symmetry with the web-server renderer but does not change
/// the output.
pub fn generate_haproxy_config(mode: &str) -> (r: String)
    ensures
        r@ == haproxy_conf_text(),
{
    let _ = mode;
    String::from_str(
        "global\n    maxconn 100000\n    tune.ssl.default-dh-param 2048\n    stats timeout 2m\n\ndefaults\n    mode http\n    timeout connect 10s\n    timeout client 30s\n    timeout server 30s\n    option httplog\n    option dontlognull\n    option http-server-close\n    option redispatch\n    retries 3\n    maxconn 3000\n\nbackend apps\n    balance first\n    hash-type consistent\n    stick-table type string len 32 size 100k expire 30m\n    stick store-request req.cook(sessionid)\n    option httpchk HEAD /health HTTP/1.1\\r\\nHost:\\ localhost\n    http-check expect status 200\n    default-server inter 3s fall 3 rise 2 on-marked-down shutdown-sessions\n    server-template app- 20 127.0.0.1:3000-3020 check resolvers docker init-addr none\n",
    )
}

/// The artifact holding the image build file.
pub open spec fn dockerfile_artifact(s: AppSpecV) -> ArtifactV {
    ArtifactV {
        kind: ArtifactKind::Dockerfile,
        path: "Dockerfile"@,
        content: dockerfile_text(s.app_type, s.port),
    }
}

/// The artifact holding the compose file.
pub open spec fn compose_artifact(s: AppSpecV) -> ArtifactV {
    ArtifactV {
        kind: ArtifactKind::ComposeFile,
        path: "docker-compose.yml"@,
        content: compose_text(s.name, s.port, s.mode),
    }
}

/// The cluster objects of a production render, in the order they must be
/// applied: quota, then the workload objects, then the network policy,
/// then (with auto-scaling) the autoscaler, then the ingress.
pub open spec fn cluster_objects(s: AppSpecV) -> Seq<ArtifactV> {
    seq![
        ArtifactV { kind: ArtifactKind::Quota, path: "quota.yaml"@, content: quota_text(s.mode) },
        ArtifactV {
            kind: ArtifactKind::Deployment,
            path: "k8s-deployment.yaml"@,
            content: deployment_text(s.name, "production"@, s.port, s.replicas, s.mode),
        },
        ArtifactV {
            kind: ArtifactKind::Service,
            path: "k8s-service.yaml"@,
            content: service_text(s.name, "production"@, s.port),
        },
        ArtifactV {
            kind: ArtifactKind::NetworkPolicy,
            path: "network-policy.yaml"@,
            content: netpol_text(s.name, "production"@),
        },
    ] + (if s.auto_scale {
        seq![
            ArtifactV {
                kind: ArtifactKind::Autoscaler,
                path: "hpa.yaml"@,
                content: hpa_text(s.name, "production"@, s.replicas),
            },
        ]
    } else {
        Seq::empty()
    }) + seq![
        ArtifactV {
            kind: ArtifactKind::Ingress,
            path: "k8s-ingress.yaml"@,
            content: ingress_text(s.name, "production"@, s.port),
        },
    ]
}

/// The proxy configurations that accompany every render.
pub open spec fn proxy_artifacts(s: AppSpecV) -> Seq<ArtifactV> {
    seq![
        ArtifactV {
            kind: ArtifactKind::NginxConf,
            path: "nginx.conf"@,
            content: nginx_conf_text(s.mode == DeployMode::Prod),
        },
        ArtifactV { kind: ArtifactKind::HaproxyConf, path: "haproxy.cfg"@, content: haproxy_conf_text() },
    ]
}

/// What a render of a valid spec produces.  Cluster objects exist only in
/// production mode, and so does the derived ingress host.
pub open spec fn spec_render(s: AppSpecV) -> ArtifactsV {
    ArtifactsV {
        dockerfile: dockerfile_artifact(s),
        compose_file: compose_artifact(s),
        k8s_objects: if s.mode == DeployMode::Prod {
            cluster_objects(s)
        } else {
            Seq::empty()
        },
        proxy_configs: proxy_artifacts(s),
        ingress_host: if s.mode == DeployMode::Prod {
            Some(s.name + ".local"@)
        } else {
            None
        },
    }
}

/// Builds an artifact from its parts.
fn mk_artifact(kind: ArtifactKind, path: &str, content: String) -> (r: Artifact)
    ensures
        r@ == (ArtifactV { kind, path: path@, content: content@ }),
{
    Artifact { kind, path: String::from_str(path), content }
}

/// Renders the full artifact set of one attempt.  Rendering is pure and
/// deterministic: the result is a function of the spec alone, so two
/// renders of the same spec are byte-identical.  It succeeds exactly on
/// valid specs; nothing is produced for an invalid one.
pub fn render(app_spec: &AppSpec) -> (r: Result<Artifacts, DeployError>)
    ensures
        valid_app_spec(app_spec@) ==> (r matches Ok(a) && a@ == spec_render(app_spec@)),
        !valid_app_spec(app_spec@) ==> r == Result::<Artifacts, DeployError>::Err(
            DeployError::ConfigGenerationError,
        ),
{
    if !is_valid_app_spec(app_spec) {
        return Err(DeployError::ConfigGenerationError);
    }
    let name = app_spec.name.as_str();
    let dockerfile = mk_artifact(
        ArtifactKind::Dockerfile,
        "Dockerfile",
        render_dockerfile(app_spec.app_type.as_str(), app_spec.port),
    );
    let compose_file = mk_artifact(
        ArtifactKind::ComposeFile,
        "docker-compose.yml",
        render_compose(name, app_spec.port, app_spec.mode),
    );
    let mut k8s_objects: Vec<Artifact> = Vec::new();
    let mut ingress_host: Option<String> = None;
    if matches!(app_spec.mode, DeployMode::Prod) {
        let namespace = "production";
        proof {
            reveal_strlit("production");
        }
        k8s_objects.push(mk_artifact(ArtifactKind::Quota, "quota.yaml", render_quota(app_spec.mode)));
        k8s_objects.push(
            mk_artifact(
                ArtifactKind::Deployment,
                "k8s-deployment.yaml",
                render_deployment(name, namespace, app_spec.port, app_spec.replicas, app_spec.mode),
            ),
        );
        k8s_objects.push(
            mk_artifact(
                ArtifactKind::Service,
                "k8s-service.yaml",
                render_service(name, namespace, app_spec.port),
            ),
        );
        k8s_objects.push(
            mk_artifact(
                ArtifactKind::NetworkPolicy,
                "network-policy.yaml",
                render_netpol(name, namespace),
            ),
        );
        if app_spec.auto_scale {
            k8s_objects.push(
                mk_artifact(
                    ArtifactKind::Autoscaler,
                    "hpa.yaml",
                    render_hpa(name, namespace, app_spec.replicas),
                ),
            );
        }
        k8s_objects.push(
            mk_artifact(
                ArtifactKind::Ingress,
                "k8s-ingress.yaml",
                render_ingress(name, namespace, app_spec.port),
            ),
        );
        let mut host = String::from_str(name);
        host.append(".local");
        ingress_host = Some(host);
        proof {
            assert(k8s_objects.deep_view() =~~= cluster_objects(app_spec@));
        }
    }
    let mut proxy_configs: Vec<Artifact> = Vec::new();
    proxy_configs.push(
        mk_artifact(
            ArtifactKind::NginxConf,
            "nginx.conf",
            generate_nginx_config(mode_string(app_spec.mode).as_str()),
        ),
    );
    proxy_configs.push(
        mk_artifact(ArtifactKind::HaproxyConf, "haproxy.cfg", generate_haproxy_config("prod")),
    );
    let r = Artifacts { dockerfile, compose_file, k8s_objects, proxy_configs, ingress_host };
    proof {
        reveal_strlit("dev");
        reveal_strlit("prod");
        assert((mode_text(app_spec@.mode) == "prod"@) == (app_spec@.mode == DeployMode::Prod));
        assert(r@.proxy_configs =~~= proxy_artifacts(app_spec@));
        assert(r@ =~~= spec_render(app_spec@));
    }
    Ok(r)
}

/// Two renders of equal inputs are identical — the artifact set, and so
/// every generated byte, is a function of the spec alone.
pub proof fn lemma_render_deterministic(a: AppSpecV, b: AppSpecV)
    requires
        a == b,
    ensures
        spec_render(a) == spec_render(b),
{
}

/// The front-end framework types that get a framework configuration.
pub open spec fn framework_type(t: Seq<char>) -> bool {
    ||| t == "nextjs"@
    ||| t == "react"@
    ||| t == "vue"@
    ||| t == "svelte"@
    ||| t == "angular"@
    ||| t == "astro"@
    ||| t == "remix"@
    ||| t == "mern"@
}

/// The build configuration injected for framework projects.
pub open spec fn framework_build_config_text() -> Seq<char> {
    "module.exports = {\n  reactStrictMode: true,\n  compiler: {\n    removeConsole: process.env.NODE_ENV === 'production',\n  },\n  typescript: {\n    ignoreBuildErrors: false,\n    tsconfigPath: './tsconfig.json'\n  },\n  webpack: (config) => {\n    config.experiments = { topLevelAwait: true };\n    config.cache = { type: 'filesystem' };\n    return config;\n  },\n}\n"@
}

/// The compiler configuration injected for framework projects.
pub open spec fn framework_tsconfig_text() -> Seq<char> {
    "{\n  \"compilerOptions\": {\n    \"target\": \"esnext\",\n    \"module\": \"esnext\",\n    \"moduleResolution\": \"node\",\n    \"strict\": true,\n    \"esModuleInterop\": true,\n    \"skipLibCheck\": true,\n    \"resolveJsonModule\": true,\n    \"isolatedModules\": true,\n    \"jsx\": \"preserve\"\n  }\n}\n"@
}

/// The framework configuration artifacts of an application type: framework
/// projects get the build and compiler configurations, anything else gets
/// none.
pub open spec fn framework_config_artifacts(t: Seq<char>) -> Seq<ArtifactV> {
    if framework_type(t) {
        seq![
            ArtifactV {
                kind: ArtifactKind::FrameworkConfig,
                path: "next.config.js"@,
                content: framework_build_config_text(),
            },
            ArtifactV {
                kind: ArtifactKind::FrameworkConfig,
                path: "tsconfig.json"@,
                content: framework_tsconfig_text(),
            },
        ]
    } else {
        Seq::empty()
    }
}

/// Renders the framework-specific configuration files of an application
/// type; types without one yield an empty set.
pub fn create_framework_specific_config(app_type: &str) -> (r: Vec<Artifact>)
    ensures
        r.deep_view() == framework_config_artifacts(app_type@),
{
    let mut r: Vec<Artifact> = Vec::new();
    if str_eq(app_type, "nextjs") || str_eq(app_type, "react") || str_eq(app_type, "vue") || str_eq(
        app_type,
        "svelte",
    ) || str_eq(app_type, "angular") || str_eq(app_type, "astro") || str_eq(app_type, "remix")
        || str_eq(app_type, "mern") {
        r.push(
            mk_artifact(
                ArtifactKind::FrameworkConfig,
                "next.config.js",
                String::from_str(
                    "module.exports = {\n  reactStrictMode: true,\n  compiler: {\n    removeConsole: process.env.NODE_ENV === 'production',\n  },\n  typescript: {\n    ignoreBuildErrors: false,\n    tsconfigPath: './tsconfig.json'\n  },\n  webpack: (config) => {\n    config.experiments = { topLevelAwait: true };\n    config.cache = { type: 'filesystem' };\n    return config;\n  },\n}\n",
                ),
            ),
        );
        r.push(
            mk_artifact(
                ArtifactKind::FrameworkConfig,
                "tsconfig.json",
                String::from_str(
                    "{\n  \"compilerOptions\": {\n    \"target\": \"esnext\",\n    \"module\": \"esnext\",\n    \"moduleResolution\": \"node\",\n    \"strict\": true,\n    \"esModuleInterop\": true,\n    \"skipLibCheck\": true,\n    \"resolveJsonModule\": true,\n    \"isolatedModules\": true,\n    \"jsx\": \"preserve\"\n  }\n}\n",
                ),
            ),
        );
    }
    proof {
        assert(r.deep_view() =~~= framework_config_artifacts(app_type@));
    }
    r
}

} // verus!
