//! Data model of a deployment attempt: the user-supplied spec, the persisted
//! record, and the status state machine with its monotonicity law.

use vstd::prelude::*;

verus! {

/// Target mode of one deployment attempt: development deploys to the local
/// container runtime only, production also rolls out to the cluster.
#[derive(Clone, Copy, PartialEq, Eq, Structural, Debug)]
pub enum DeployMode {
    Dev,
    Prod,
}

/// Health report of a running container.  Health is advisory: a running but
/// unhealthy (or unprobed) container is a warning, not a failure.
#[derive(Clone, Copy, PartialEq, Eq, Structural, Debug)]
pub enum HealthState {
    Healthy,
    Unhealthy,
    Unknown,
}

/// Status of the persisted record.  Within one attempt the status only moves
/// forward along the pipeline; see `status_can_step`.
#[derive(Clone, Copy, PartialEq, Eq, Structural, Debug)]
pub enum Status {
    Pending,
    Initializing,
    BuildFailed,
    Built,
    StartupFailed,
    Running,
    VerificationFailed,
    Verified,
    Deploying,
    RolloutFailed,
    RolledOut,
}

/// Pipeline depth of a status: later stages have strictly larger rank, and a
/// failure has the rank of the stage that produced it.
pub open spec fn status_rank(s: Status) -> int {
    match s {
        Status::Pending => 0,
        Status::Initializing => 1,
        Status::BuildFailed => 2,
        Status::Built => 2,
        Status::StartupFailed => 3,
        Status::Running => 3,
        Status::VerificationFailed => 4,
        Status::Verified => 4,
        Status::Deploying => 5,
        Status::RolloutFailed => 6,
        Status::RolledOut => 6,
    }
}

/// A status from which no pipeline stage continues, because the attempt
/// failed there.
pub open spec fn is_failure_status(s: Status) -> bool {
    match s {
        Status::BuildFailed => true,
        Status::StartupFailed => true,
        Status::VerificationFailed => true,
        Status::RolloutFailed => true,
        _ => false,
    }
}

/// A status that reports the attempt as succeeded: locally a running
/// (and possibly verified) container, in cluster mode a completed rollout.
pub open spec fn is_success_status(s: Status, mode: DeployMode) -> bool {
    match mode {
        DeployMode::Dev => s == Status::Running || s == Status::Verified,
        DeployMode::Prod => s == Status::RolledOut,
    }
}

/// The single-step transition relation of the status machine.  A step either
/// stays put or follows one pipeline edge; no edge leaves a failure status,
/// and no edge skips a stage.
pub open spec fn status_can_step(pre: Status, post: Status) -> bool {
    ||| post == pre
    ||| match pre {
        Status::Pending => post == Status::Initializing,
        Status::Initializing => post == Status::BuildFailed || post == Status::Built,
        Status::Built => post == Status::StartupFailed || post == Status::Running,
        Status::Running => post == Status::VerificationFailed || post == Status::Verified
            || post == Status::Deploying,
        Status::Verified => post == Status::Deploying,
        Status::Deploying => post == Status::RolloutFailed || post == Status::RolledOut,
        _ => false,
    }
}

/// One step of the status machine never moves backward.
pub proof fn lemma_status_step_monotonic(pre: Status, post: Status)
    requires
        status_can_step(pre, post),
    ensures
        status_rank(post) >= status_rank(pre),
{
}

/// Along any chain of status steps the rank never decreases, and a record
/// that has reached a failure status keeps it: the only way back to
/// `Pending` is a brand-new record of a fresh attempt.
pub proof fn lemma_status_trace_monotonic(trace: Seq<Status>)
    requires
        forall|i: int| 0 <= i < trace.len() - 1 ==> #[trigger] status_can_step(
            trace[i],
            trace[i + 1],
        ),
    ensures
        forall|i: int, j: int| 0 <= i <= j < trace.len() ==> status_rank(#[trigger] trace[j])
            >= status_rank(#[trigger] trace[i]),
        forall|i: int, j: int| 0 <= i <= j < trace.len() && is_failure_status(#[trigger] trace[i])
            ==> #[trigger] trace[j] == trace[i],
    decreases trace.len(),
{
    if trace.len() > 1 {
        let rest = trace.subrange(1, trace.len() as int);
        assert forall|i: int| 0 <= i < rest.len() - 1 implies #[trigger] status_can_step(
            rest[i],
            rest[i + 1],
        ) by {
            assert(rest[i] == trace[i + 1]);
            assert(rest[i + 1] == trace[i + 2]);
        }
        lemma_status_trace_monotonic(rest);
        assert forall|i: int, j: int| 0 <= i <= j < trace.len() implies status_rank(
            #[trigger] trace[j],
        ) >= status_rank(#[trigger] trace[i]) by {
            if i == 0 && j > 0 {
                assert(trace[j] == rest[j - 1]);
                assert(status_rank(rest[j - 1]) >= status_rank(rest[0]));
                lemma_status_step_monotonic(trace[0], trace[1]);
            } else if i > 0 {
                assert(trace[i] == rest[i - 1]);
                assert(trace[j] == rest[j - 1]);
            }
        }
        assert forall|i: int, j: int| 0 <= i <= j < trace.len() && is_failure_status(
            #[trigger] trace[i],
        ) implies #[trigger] trace[j] == trace[i] by {
            if i == 0 && j > 0 {
                let i0: int = 0;
                assert(status_can_step(trace[i0], trace[i0 + 1]));
                assert(trace[1] == trace[0]);
                assert(rest[0] == trace[0]);
                assert(trace[j] == rest[j - 1]);
            } else if i > 0 {
                assert(trace[i] == rest[i - 1]);
                assert(trace[j] == rest[j - 1]);
            }
        }
    }
}

/// The mode a persisted record was produced under.
pub open spec fn record_mode(r: AppMetadataV) -> DeployMode {
    if r.kubernetes_enabled {
        DeployMode::Prod
    } else {
        DeployMode::Dev
    }
}

/// Whether a record's attempt is resolved: it ended in a terminal failure
/// or a terminal success, so a new attempt may overwrite it.  Exactly one
/// record exists per working directory, and a fresh deploy must not
/// clobber one that is still in flight.
pub open spec fn attempt_resolved(r: AppMetadataV) -> bool {
    is_failure_status(r.status) || is_success_status(r.status, record_mode(r))
}

impl AppMetadata {
    /// Decides `attempt_resolved`: whether a new deploy may replace this
    /// record.
    pub fn is_resolved(&self) -> (r: bool)
        ensures
            r == attempt_resolved(self@),
    {
        match self.status {
            Status::BuildFailed | Status::StartupFailed | Status::VerificationFailed
                | Status::RolloutFailed => true,
            Status::Running | Status::Verified => !self.kubernetes_enabled,
            Status::RolledOut => self.kubernetes_enabled,
            _ => false,
        }
    }
}

/// A character allowed in an application name: names double as image tags,
/// container names and cluster object names, so they are restricted to
/// lowercase DNS-label characters.
pub open spec fn name_char(c: char) -> bool {
    ('a' <= c && c <= 'z') || ('0' <= c && c <= '9') || c == '-'
}

/// A lowercase letter or digit.
pub open spec fn alnum_char(c: char) -> bool {
    ('a' <= c && c <= 'z') || ('0' <= c && c <= '9')
}

/// A valid application name: a nonempty DNS label of at most 63 characters
/// that starts and ends with a letter or digit.
pub open spec fn valid_name(s: Seq<char>) -> bool {
    &&& 1 <= s.len() <= 63
    &&& forall|i: int| 0 <= i < s.len() ==> name_char(#[trigger] s[i])
    &&& alnum_char(s[0])
    &&& alnum_char(s[s.len() - 1])
}

/// A character that can stand inside a JSON string literal without escaping:
/// printable ASCII other than the quote and the backslash.
pub open spec fn json_safe_char(c: char) -> bool {
    ' ' <= c && c <= '~' && c != '"' && c != '\\'
}

/// A string that the state store can embed in its JSON document verbatim.
pub open spec fn json_safe(s: Seq<char>) -> bool {
    forall|i: int| 0 <= i < s.len() ==> json_safe_char(#[trigger] s[i])
}

/// Decides `a@ == b@` for two string slices.
pub fn str_eq(a: &str, b: &str) -> (r: bool)
    ensures
        r == (a@ == b@),
{
    let sa = String::from_str(a);
    let sb = String::from_str(b);
    sa == sb
}

/// Decides `valid_name(s@)`.
pub fn is_valid_name(s: &str) -> (r: bool)
    ensures
        r == valid_name(s@),
{
    let n = s.unicode_len();
    if n < 1 || n > 63 {
        return false;
    }
    let mut i: usize = 0;
    while i < n
        invariant
            n == s@.len(),
            0 <= i <= n,
            forall|j: int| 0 <= j < i ==> name_char(#[trigger] s@[j]),
        decreases n - i,
    {
        let c = s.get_char(i);
        if !(('a' <= c && c <= 'z') || ('0' <= c && c <= '9') || c == '-') {
            return false;
        }
        i = i + 1;
    }
    let first = s.get_char(0);
    let last = s.get_char(n - 1);
    (('a' <= first && first <= 'z') || ('0' <= first && first <= '9')) && (('a' <= last && last
        <= 'z') || ('0' <= last && last <= '9'))
}

/// Decides `json_safe(s@)`.
pub fn is_json_safe(s: &str) -> (r: bool)
    ensures
        r == json_safe(s@),
{
    let n = s.unicode_len();
    let mut i: usize = 0;
    while i < n
        invariant
            n == s@.len(),
            0 <= i <= n,
            forall|j: int| 0 <= j < i ==> json_safe_char(#[trigger] s@[j]),
        decreases n - i,
    {
        let c = s.get_char(i);
        if !(' ' <= c && c <= '~' && c != '"' && c != '\\') {
            return false;
        }
        i = i + 1;
    }
    true
}

/// The application types the engine knows how to containerize.
pub open spec fn supported_type(s: Seq<char>) -> bool {
    ||| s == "bun"@
    ||| s == "node"@
    ||| s == "nextjs"@
    ||| s == "react"@
    ||| s == "vue"@
    ||| s == "nuxt"@
    ||| s == "svelte"@
    ||| s == "angular"@
    ||| s == "astro"@
    ||| s == "remix"@
    ||| s == "mern"@
}

/// Decides `supported_type(s@)`.
pub fn is_supported_type(s: &str) -> (r: bool)
    ensures
        r == supported_type(s@),
{
    str_eq(s, "bun") || str_eq(s, "node") || str_eq(s, "nextjs") || str_eq(s, "react") || str_eq(
        s,
        "vue",
    ) || str_eq(s, "nuxt") || str_eq(s, "svelte") || str_eq(s, "angular") || str_eq(s, "astro")
        || str_eq(s, "remix") || str_eq(s, "mern")
}

/// User-declared intent for one deployment attempt.
#[derive(Debug, Clone, PartialEq)]
pub struct AppSpec {
    pub name: String,
    pub app_type: String,
    pub port: u16,
    pub replicas: u32,
    pub auto_scale: bool,
    pub mode: DeployMode,
}

/// Mathematical image of an `AppSpec`.
#[verifier::ext_equal]
pub struct AppSpecV {
    pub name: Seq<char>,
    pub app_type: Seq<char>,
    pub port: u16,
    pub replicas: u32,
    pub auto_scale: bool,
    pub mode: DeployMode,
}

impl View for AppSpec {
    type V = AppSpecV;

    open spec fn view(&self) -> AppSpecV {
        AppSpecV {
            name: self.name@,
            app_type: self.app_type@,
            port: self.port,
            replicas: self.replicas,
            auto_scale: self.auto_scale,
            mode: self.mode,
        }
    }
}

/// A spec the pipeline accepts: deployable name and known application type.
pub open spec fn valid_app_spec(s: AppSpecV) -> bool {
    valid_name(s.name) && supported_type(s.app_type)
}

/// Decides `valid_app_spec`.
pub fn is_valid_app_spec(s: &AppSpec) -> (r: bool)
    ensures
        r == valid_app_spec(s@),
{
    is_valid_name(s.name.as_str()) && is_supported_type(s.app_type.as_str())
}

/// Cluster-side metadata of the persisted record.
#[derive(Debug, Clone, PartialEq)]
pub struct KubernetesMetadata {
    pub namespace: String,
    pub deployment_name: String,
    pub service_name: String,
    pub replicas: u32,
    pub pod_status: Vec<String>,
    pub ingress_host: Option<String>,
}

/// Mathematical image of `KubernetesMetadata`.
#[verifier::ext_equal]
pub struct KubernetesMetadataV {
    pub namespace: Seq<char>,
    pub deployment_name: Seq<char>,
    pub service_name: Seq<char>,
    pub replicas: u32,
    pub pod_status: Seq<Seq<char>>,
    pub ingress_host: Option<Seq<char>>,
}

impl View for KubernetesMetadata {
    type V = KubernetesMetadataV;

    open spec fn view(&self) -> KubernetesMetadataV {
        KubernetesMetadataV {
            namespace: self.namespace@,
            deployment_name: self.deployment_name@,
            service_name: self.service_name@,
            replicas: self.replicas,
            pod_status: self.pod_status.deep_view(),
            ingress_host: match self.ingress_host {
                Some(ref h) => Some(h@),
                None => None,
            },
        }
    }
}

/// Advisory performance metrics, in whole units.
#[derive(Debug, Clone, Copy, PartialEq, Eq, Structural)]
pub struct PerformanceMetrics {
    pub avg_response_time_ms: u64,
    pub requests_per_second: u64,
    pub error_rate: u64,
    pub memory_usage_mb: u64,
    pub cpu_usage_percent: u64,
}

/// The all-zero metrics a fresh record starts with.
pub open spec fn initial_metrics() -> PerformanceMetrics {
    PerformanceMetrics {
        avg_response_time_ms: 0,
        requests_per_second: 0,
        error_rate: 0,
        memory_usage_mb: 0,
        cpu_usage_percent: 0,
    }
}

impl Default for PerformanceMetrics {
    fn default() -> (r: Self)
        ensures
            r == initial_metrics(),
    {
        PerformanceMetrics {
            avg_response_time_ms: 0,
            requests_per_second: 0,
            error_rate: 0,
            memory_usage_mb: 0,
            cpu_usage_percent: 0,
        }
    }
}

/// Auto-scaling configuration, threshold in whole percent.
#[derive(Debug, Clone, Copy, PartialEq, Eq, Structural)]
pub struct ScalingConfig {
    pub auto_scale_threshold: u32,
    pub min_instances: u32,
    pub max_instances: u32,
    pub scale_up_cooldown: u64,
    pub scale_down_cooldown: u64,
}

/// The namespace a record falls back to when none was chosen.
pub fn default_namespace() -> (r: String)
    ensures
        r@ == "default"@,
{
    String::from_str("default")
}

/// The smallest instance count auto-scaling may shrink to.
pub fn default_min_instances() -> (r: u32)
    ensures
        r == 1,
{
    1
}

/// The largest instance count auto-scaling may grow to.
pub fn default_max_instances() -> (r: u32)
    ensures
        r == 5,
{
    5
}

/// The scaling configuration a fresh record starts with.
pub open spec fn initial_scaling() -> ScalingConfig {
    ScalingConfig {
        auto_scale_threshold: 0,
        min_instances: 1,
        max_instances: 5,
        scale_up_cooldown: 0,
        scale_down_cooldown: 0,
    }
}

impl Default for ScalingConfig {
    fn default() -> (r: Self)
        ensures
            r == initial_scaling(),
    {
        ScalingConfig {
            auto_scale_threshold: 0,
            min_instances: default_min_instances(),
            max_instances: default_max_instances(),
            scale_up_cooldown: 0,
            scale_down_cooldown: 0,
        }
    }
}

/// The persisted record of a deployment attempt: the durable source of truth
/// the state store writes after every status change.
#[derive(Debug, Clone, PartialEq)]
pub struct AppMetadata {
    pub app_name: String,
    pub app_type: String,
    pub port: u16,
    pub created_at: String,
    pub container_id: Option<String>,
    pub status: Status,
    pub kubernetes_enabled: bool,
    pub kubernetes_metadata: KubernetesMetadata,
    pub performance_metrics: PerformanceMetrics,
    pub scaling_config: ScalingConfig,
}

/// Mathematical image of an `AppMetadata` record.
#[verifier::ext_equal]
pub struct AppMetadataV {
    pub app_name: Seq<char>,
    pub app_type: Seq<char>,
    pub port: u16,
    pub created_at: Seq<char>,
    pub container_id: Option<Seq<char>>,
    pub status: Status,
    pub kubernetes_enabled: bool,
    pub kubernetes_metadata: KubernetesMetadataV,
    pub performance_metrics: PerformanceMetrics,
    pub scaling_config: ScalingConfig,
}

impl View for AppMetadata {
    type V = AppMetadataV;

    open spec fn view(&self) -> AppMetadataV {
        AppMetadataV {
            app_name: self.app_name@,
            app_type: self.app_type@,
            port: self.port,
            created_at: self.created_at@,
            container_id: match self.container_id {
                Some(ref c) => Some(c@),
                None => None,
            },
            status: self.status,
            kubernetes_enabled: self.kubernetes_enabled,
            kubernetes_metadata: self.kubernetes_metadata@,
            performance_metrics: self.performance_metrics,
            scaling_config: self.scaling_config,
        }
    }
}

/// Well-formedness of a record: every string it holds can be embedded in the
/// state store's JSON document verbatim, and its identity fields are valid.
pub open spec fn wf_record(r: AppMetadataV) -> bool {
    &&& valid_name(r.app_name)
    &&& supported_type(r.app_type)
    &&& json_safe(r.created_at)
    &&& (r.container_id matches Some(c) ==> json_safe(c))
    &&& json_safe(r.kubernetes_metadata.namespace)
    &&& json_safe(r.kubernetes_metadata.deployment_name)
    &&& json_safe(r.kubernetes_metadata.service_name)
    &&& forall|i: int| 0 <= i < r.kubernetes_metadata.pod_status.len() ==> json_safe(
        #[trigger] r.kubernetes_metadata.pod_status[i],
    )
    &&& (r.kubernetes_metadata.ingress_host matches Some(h) ==> json_safe(h))
}

/// Concatenates a name with a fixed suffix.
fn name_with_suffix(name: &str, suffix: &str) -> (r: String)
    ensures
        r@ == name@ + suffix@,
{
    let mut s = String::from_str(name);
    s.append(suffix);
    s
}

/// The namespace a deployment attempt targets in each mode.
pub fn namespace_for_mode(mode: DeployMode) -> (r: String)
    ensures
        mode == DeployMode::Prod ==> r@ == "production"@,
        mode == DeployMode::Dev ==> r@ == "development"@,
{
    match mode {
        DeployMode::Prod => String::from_str("production"),
        DeployMode::Dev => String::from_str("development"),
    }
}

/// The fresh record a new deployment attempt starts from: status `Pending`,
/// no container, the cluster names derived from the spec, empty pod list,
/// default metrics and scaling.
pub open spec fn spec_new_record(s: AppSpecV, created_at: Seq<char>) -> AppMetadataV {
    AppMetadataV {
        app_name: s.name,
        app_type: s.app_type,
        port: s.port,
        created_at,
        container_id: None,
        status: Status::Pending,
        kubernetes_enabled: s.mode == DeployMode::Prod,
        kubernetes_metadata: KubernetesMetadataV {
            namespace: if s.mode == DeployMode::Prod {
                "production"@
            } else {
                "development"@
            },
            deployment_name: s.name + "-deployment"@,
            service_name: s.name + "-service"@,
            replicas: s.replicas,
            pod_status: Seq::empty(),
            ingress_host: None,
        },
        performance_metrics: initial_metrics(),
        scaling_config: initial_scaling(),
    }
}

impl AppMetadata {
    /// Creates the fresh record of a new deployment attempt.
    pub fn new_record(app_spec: &AppSpec, created_at: String) -> (r: AppMetadata)
        requires
            valid_app_spec(app_spec@),
            json_safe(created_at@),
        ensures
            wf_record(r@),
            r@ == spec_new_record(app_spec@, created_at@),
    {
        proof {
            reveal_strlit("-deployment");
            reveal_strlit("-service");
            reveal_strlit("production");
            reveal_strlit("development");
            lemma_suffix_json_safe(app_spec@.name, "-deployment"@);
            lemma_suffix_json_safe(app_spec@.name, "-service"@);
        }
        let r = AppMetadata {
            app_name: app_spec.name.clone(),
            app_type: app_spec.app_type.clone(),
            port: app_spec.port,
            created_at,
            container_id: None,
            status: Status::Pending,
            kubernetes_enabled: matches!(app_spec.mode, DeployMode::Prod),
            kubernetes_metadata: KubernetesMetadata {
                namespace: namespace_for_mode(app_spec.mode),
                deployment_name: name_with_suffix(app_spec.name.as_str(), "-deployment"),
                service_name: name_with_suffix(app_spec.name.as_str(), "-service"),
                replicas: app_spec.replicas,
                pod_status: Vec::new(),
                ingress_host: None,
            },
            performance_metrics: PerformanceMetrics::default(),
            scaling_config: ScalingConfig::default(),
        };
        proof {
            assert(r@ =~~= spec_new_record(app_spec@, created_at@));
        }
        r
    }
}

/// A valid name followed by a JSON-safe suffix is JSON safe.
pub proof fn lemma_suffix_json_safe(name: Seq<char>, suffix: Seq<char>)
    requires
        valid_name(name),
        json_safe(suffix),
    ensures
        json_safe(name + suffix),
{
    assert forall|i: int| 0 <= i < (name + suffix).len() implies json_safe_char(
        #[trigger] (name + suffix)[i],
    ) by {
        if i < name.len() {
            assert(name_char(name[i]));
            assert((name + suffix)[i] == name[i]);
        } else {
            assert((name + suffix)[i] == suffix[i - name.len()]);
        }
    }
}

} // verus!
