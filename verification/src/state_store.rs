//! StateStore: the single JSON document that persists the record.  The
//! document's exact text is a function of the record, defined here; the
//! caller writes it to the working directory after every status change, so
//! a crash mid-pipeline leaves a recoverable, inspectable record.

use vstd::prelude::*;
use crate::model::AppMetadata;
use crate::model::AppMetadataV;
use crate::model::KubernetesMetadata;
use crate::model::KubernetesMetadataV;
use crate::model::PerformanceMetrics;
use crate::model::ScalingConfig;
use crate::model::Status;
use crate::model::json_safe;
use crate::model::json_safe_char;
use crate::model::is_valid_name;
use crate::model::is_supported_type;
use crate::model::str_eq;
use crate::model::valid_name;
use crate::model::supported_type;
use crate::model::wf_record;
use crate::text::dec_char;
use crate::text::dec_digits;
use crate::text::lemma_dec_digits_injective;
use crate::text::lemma_dec_digits_prefix_le;
use crate::text::lemma_dec_digits_shape;
use crate::text::u16_to_string;
use crate::text::u32_to_string;
use crate::text::u64_to_string;

verus! {

/// The status word stored in the document and shown to the user.
pub open spec fn status_text(s: Status) -> Seq<char> {
    match s {
        Status::Pending => "Pending"@,
        Status::Initializing => "Initializing"@,
        Status::BuildFailed => "BuildFailed"@,
        Status::Built => "Built"@,
        Status::StartupFailed => "StartupFailed"@,
        Status::Running => "Running"@,
        Status::VerificationFailed => "VerificationFailed"@,
        Status::Verified => "Verified"@,
        Status::Deploying => "Deploying"@,
        Status::RolloutFailed => "RolloutFailed"@,
        Status::RolledOut => "RolledOut"@,
    }
}

/// Renders the status word.
pub fn status_string(s: Status) -> (r: String)
    ensures
        r@ == status_text(s),
{
    match s {
        Status::Pending => String::from_str("Pending"),
        Status::Initializing => String::from_str("Initializing"),
        Status::BuildFailed => String::from_str("BuildFailed"),
        Status::Built => String::from_str("Built"),
        Status::StartupFailed => String::from_str("StartupFailed"),
        Status::Running => String::from_str("Running"),
        Status::VerificationFailed => String::from_str("VerificationFailed"),
        Status::Verified => String::from_str("Verified"),
        Status::Deploying => String::from_str("Deploying"),
        Status::RolloutFailed => String::from_str("RolloutFailed"),
        Status::RolledOut => String::from_str("RolledOut"),
    }
}

/// A string in JSON quotes.  The record's well-formedness guarantees its
/// strings need no escaping.
pub open spec fn quoted(s: Seq<char>) -> Seq<char> {
    "\""@ + s + "\""@
}

/// An optional string: `null`, or the string in quotes.
pub open spec fn opt_quoted(o: Option<Seq<char>>) -> Seq<char> {
    match o {
        None => "null"@,
        Some(s) => quoted(s),
    }
}

/// A boolean literal.
pub open spec fn bool_text(b: bool) -> Seq<char> {
    if b {
        "true"@
    } else {
        "false"@
    }
}

/// The comma-separated quoted items of the pod list.
pub open spec fn pods_items(pods: Seq<Seq<char>>) -> Seq<char>
    decreases pods.len(),
{
    if pods.len() == 0 {
        Seq::empty()
    } else if pods.len() == 1 {
        quoted(pods[0])
    } else {
        pods_items(pods.drop_last()) + ","@ + quoted(pods.last())
    }
}

/// The pod list as a JSON array.
pub open spec fn pods_json(pods: Seq<Seq<char>>) -> Seq<char> {
    "["@ + pods_items(pods) + "]"@
}

/// The cluster metadata object.
pub open spec fn k8s_json(k: KubernetesMetadataV) -> Seq<char> {
    "{\"namespace\":"@ + quoted(k.namespace) + ",\"deploymentName\":"@ + quoted(k.deployment_name)
        + ",\"serviceName\":"@ + quoted(k.service_name) + ",\"replicas\":"@ + dec_digits(
        k.replicas as nat,
    ) + ",\"podStatus\":"@ + pods_json(k.pod_status) + ",\"ingressHost\":"@ + opt_quoted(
        k.ingress_host,
    ) + "}"@
}

/// The advisory metrics object.
pub open spec fn metrics_json(m: PerformanceMetrics) -> Seq<char> {
    "{\"avgResponseTimeMs\":"@ + dec_digits(m.avg_response_time_ms as nat)
        + ",\"requestsPerSecond\":"@ + dec_digits(m.requests_per_second as nat) + ",\"errorRate\":"@
        + dec_digits(m.error_rate as nat) + ",\"memoryUsageMb\":"@ + dec_digits(
        m.memory_usage_mb as nat,
    ) + ",\"cpuUsagePercent\":"@ + dec_digits(m.cpu_usage_percent as nat) + "}"@
}

/// The scaling configuration object.
pub open spec fn scaling_json(c: ScalingConfig) -> Seq<char> {
    "{\"autoScaleThreshold\":"@ + dec_digits(c.auto_scale_threshold as nat) + ",\"minInstances\":"@
        + dec_digits(c.min_instances as nat) + ",\"maxInstances\":"@ + dec_digits(
        c.max_instances as nat,
    ) + ",\"scaleUpCooldown\":"@ + dec_digits(c.scale_up_cooldown as nat)
        + ",\"scaleDownCooldown\":"@ + dec_digits(c.scale_down_cooldown as nat) + "}"@
}

/// The whole persisted document of a record: one JSON object whose fields
/// mirror the record.
pub open spec fn record_json(r: AppMetadataV) -> Seq<char> {
    "{\"appName\":"@ + quoted(r.app_name) + ",\"appType\":"@ + quoted(r.app_type) + ",\"port\":"@
        + quoted(dec_digits(r.port as nat)) + ",\"createdAt\":"@ + quoted(r.created_at)
        + ",\"containerId\":"@ + opt_quoted(r.container_id) + ",\"status\":"@ + quoted(
        status_text(r.status),
    ) + ",\"kubernetesEnabled\":"@ + bool_text(r.kubernetes_enabled) + ",\"kubernetesMetadata\":"@
        + k8s_json(r.kubernetes_metadata) + ",\"performanceMetrics\":"@ + metrics_json(
        r.performance_metrics,
    ) + ",\"scalingConfig\":"@ + scaling_json(r.scaling_config) + "}"@
}

/// Appends a quoted string.
fn append_quoted(s: &mut String, v: &str)
    ensures
        final(s)@ == old(s)@ + quoted(v@),
{
    s.append("\"");
    s.append(v);
    s.append("\"");
    proof {
        assert(s@ =~= old(s)@ + quoted(v@));
    }
}

/// Appends an optional string.
fn append_opt_quoted(s: &mut String, v: &Option<String>)
    ensures
        final(s)@ == old(s)@ + opt_quoted(
            match *v {
                Some(ref h) => Some(h@),
                None => None,
            },
        ),
{
    match v {
        Some(h) => append_quoted(s, h.as_str()),
        None => s.append("null"),
    }
}

/// Renders the pod list.
fn pods_to_json(pods: &Vec<String>) -> (r: String)
    ensures
        r@ == pods_json(pods.deep_view()),
{
    let ghost dv = pods.deep_view();
    let mut s = String::from_str("[");
    let n = pods.len();
    let mut i: usize = 0;
    proof {
        assert(dv.take(0) =~= Seq::<Seq<char>>::empty());
        assert(s@ =~= "["@ + pods_items(dv.take(0)));
    }
    while i < n
        invariant
            dv == pods.deep_view(),
            n == pods@.len(),
            dv.len() == n,
            0 <= i <= n,
            s@ == "["@ + pods_items(dv.take(i as int)),
        decreases n - i,
    {
        let ghost prev = s@;
        if i > 0 {
            s.append(",");
        }
        append_quoted(&mut s, pods[i].as_str());
        proof {
            assert(dv.take(i + 1).drop_last() =~= dv.take(i as int));
            assert(dv.take(i + 1).last() == dv[i as int]);
            if i == 0 {
                assert(pods_items(dv.take(1)) == quoted(dv[0]));
                assert(s@ =~= "["@ + pods_items(dv.take(1)));
            } else {
                assert(pods_items(dv.take(i + 1)) == pods_items(dv.take(i as int)) + ","@ + quoted(
                    dv[i as int],
                ));
                assert(s@ =~= "["@ + pods_items(dv.take(i + 1)));
            }
        }
        i = i + 1;
    }
    s.append("]");
    proof {
        assert(dv.take(n as int) =~= dv);
        assert(s@ =~= pods_json(dv));
    }
    s
}

/// Renders the cluster metadata object.
fn k8s_to_json(k: &KubernetesMetadata) -> (r: String)
    ensures
        r@ == k8s_json(k@),
{
    let mut s = String::from_str("{\"namespace\":");
    append_quoted(&mut s, k.namespace.as_str());
    s.append(",\"deploymentName\":");
    append_quoted(&mut s, k.deployment_name.as_str());
    s.append(",\"serviceName\":");
    append_quoted(&mut s, k.service_name.as_str());
    s.append(",\"replicas\":");
    let rep = u32_to_string(k.replicas);
    s.append(rep.as_str());
    s.append(",\"podStatus\":");
    let pods = pods_to_json(&k.pod_status);
    s.append(pods.as_str());
    s.append(",\"ingressHost\":");
    append_opt_quoted(&mut s, &k.ingress_host);
    s.append("}");
    proof {
        assert(s@ =~= k8s_json(k@));
    }
    s
}

/// Renders the advisory metrics object.
fn metrics_to_json(m: &PerformanceMetrics) -> (r: String)
    ensures
        r@ == metrics_json(*m),
{
    let mut s = String::from_str("{\"avgResponseTimeMs\":");
    let a = u64_to_string(m.avg_response_time_ms);
    s.append(a.as_str());
    s.append(",\"requestsPerSecond\":");
    let b = u64_to_string(m.requests_per_second);
    s.append(b.as_str());
    s.append(",\"errorRate\":");
    let c = u64_to_string(m.error_rate);
    s.append(c.as_str());
    s.append(",\"memoryUsageMb\":");
    let d = u64_to_string(m.memory_usage_mb);
    s.append(d.as_str());
    s.append(",\"cpuUsagePercent\":");
    let e = u64_to_string(m.cpu_usage_percent);
    s.append(e.as_str());
    s.append("}");
    proof {
        assert(s@ =~= metrics_json(*m));
    }
    s
}

/// Renders the scaling configuration object.
fn scaling_to_json(c: &ScalingConfig) -> (r: String)
    ensures
        r@ == scaling_json(*c),
{
    let mut s = String::from_str("{\"autoScaleThreshold\":");
    let a = u32_to_string(c.auto_scale_threshold);
    s.append(a.as_str());
    s.append(",\"minInstances\":");
    let b = u32_to_string(c.min_instances);
    s.append(b.as_str());
    s.append(",\"maxInstances\":");
    let d = u32_to_string(c.max_instances);
    s.append(d.as_str());
    s.append(",\"scaleUpCooldown\":");
    let e = u64_to_string(c.scale_up_cooldown);
    s.append(e.as_str());
    s.append(",\"scaleDownCooldown\":");
    let f = u64_to_string(c.scale_down_cooldown);
    s.append(f.as_str());
    s.append("}");
    proof {
        assert(s@ =~= scaling_json(*c));
    }
    s
}

/// Renders the persisted document of a record: deterministic, and exactly
/// `record_json` of the record's mathematical image.
pub fn record_to_json(r: &AppMetadata) -> (out: String)
    ensures
        out@ == record_json(r@),
{
    let mut s = String::from_str("{\"appName\":");
    append_quoted(&mut s, r.app_name.as_str());
    s.append(",\"appType\":");
    append_quoted(&mut s, r.app_type.as_str());
    s.append(",\"port\":");
    let port = u16_to_string(r.port);
    append_quoted(&mut s, port.as_str());
    s.append(",\"createdAt\":");
    append_quoted(&mut s, r.created_at.as_str());
    s.append(",\"containerId\":");
    append_opt_quoted(&mut s, &r.container_id);
    s.append(",\"status\":");
    let st = status_string(r.status);
    append_quoted(&mut s, st.as_str());
    s.append(",\"kubernetesEnabled\":");
    if r.kubernetes_enabled {
        s.append("true");
    } else {
        s.append("false");
    }
    s.append(",\"kubernetesMetadata\":");
    let k = k8s_to_json(&r.kubernetes_metadata);
    s.append(k.as_str());
    s.append(",\"performanceMetrics\":");
    let m = metrics_to_json(&r.performance_metrics);
    s.append(m.as_str());
    s.append(",\"scalingConfig\":");
    let c = scaling_to_json(&r.scaling_config);
    s.append(c.as_str());
    s.append("}");
    proof {
        assert(s@ =~= record_json(r@));
    }
    s
}

/// Consumes the exact text of `lit` at `pos`.  It fails only when that
/// text is not there.
fn eat_lit(s: &str, pos: usize, lit: &str) -> (r: Option<usize>)
    requires
        s.is_ascii(),
        pos <= s@.len(),
    ensures
        r matches Some(p) ==> pos <= p <= s@.len() && p == pos + lit@.len() && s@.subrange(
            pos as int,
            p as int,
        ) == lit@,
        r is None ==> !(pos + lit@.len() <= s@.len() && s@.subrange(
            pos as int,
            pos + lit@.len(),
        ) == lit@),
{
    let n = s.unicode_len();
    let m = lit.unicode_len();
    if m > n - pos {
        return None;
    }
    let mut i: usize = 0;
    while i < m
        invariant
            n == s@.len(),
            m == lit@.len(),
            pos + m <= n,
            0 <= i <= m,
            forall|j: int| 0 <= j < i ==> s@[pos + j] == lit@[j],
        decreases m - i,
    {
        if s.get_char(pos + i) != lit.get_char(i) {
            proof {
                if s@.subrange(pos as int, pos + m) == lit@ {
                    assert(s@.subrange(pos as int, pos + m)[i as int] == lit@[i as int]);
                    assert(false);
                }
            }
            return None;
        }
        i = i + 1;
    }
    proof {
        assert(s@.subrange(pos as int, (pos + m) as int) =~= lit@);
    }
    Some(pos + m)
}

/// Consumes a quoted string of JSON-safe characters at `pos`.  When the
/// caller knows which quoted string stands there (the ghost `exp`), the
/// parse is guaranteed to return exactly it.
fn parse_quoted(s: &str, pos: usize, exp: Ghost<Option<Seq<char>>>) -> (r: Option<(String, usize)>)
    requires
        s.is_ascii(),
        pos <= s@.len(),
        exp@ matches Some(w) ==> json_safe(w) && pos + w.len() + 2 <= s@.len() && s@.subrange(
            pos as int,
            pos + w.len() + 2,
        ) == quoted(w),
    ensures
        r matches Some(v) ==> pos <= v.1 <= s@.len() && json_safe(v.0@) && s@.subrange(
            pos as int,
            v.1 as int,
        ) == quoted(v.0@),
        exp@ matches Some(w) ==> (r matches Some(v) && v.0@ == w && v.1 == pos + w.len() + 2),
{
    proof {
        match exp@ {
            Some(w) => {
                reveal_strlit("\"");
                assert(s@[pos as int] == quoted(w)[0]);
                assert forall|t: int| 0 <= t < w.len() implies s@[pos + 1 + t] == #[trigger] w[t] by {
                    assert(s@.subrange(pos as int, pos + w.len() + 2)[1 + t] == quoted(w)[1 + t]);
                }
                assert(s@[pos + 1 + w.len()] == quoted(w)[1 + w.len() as int]);
            },
            None => {},
        }
    }
    let n = s.unicode_len();
    if pos >= n || s.get_char(pos) != '"' {
        proof {
            match exp@ {
                Some(w) => {
                    assert(false);
                },
                None => {},
            }
        }
        return None;
    }
    let mut j = pos + 1;
    while j < n
        invariant
            s.is_ascii(),
            n == s@.len(),
            pos < n,
            s@[pos as int] == '"',
            pos + 1 <= j <= n,
            forall|k: int| pos + 1 <= k < j ==> json_safe_char(#[trigger] s@[k]) && s@[k] != '"',
            exp@ matches Some(w) ==> json_safe(w) && pos + w.len() + 2 <= n && (forall|t: int|
                0 <= t < w.len() ==> s@[pos + 1 + t] == #[trigger] w[t]) && s@[pos + 1 + w.len()]
                == '"',
        decreases n - j,
    {
        let c = s.get_char(j);
        if c == '"' {
            let content = s.substring_ascii(pos + 1, j);
            let v = content.to_owned();
            proof {
                reveal_strlit("\"");
                assert(s@[pos as int] == '"');
                assert(s@[j as int] == '"');
                assert(v@ =~= s@.subrange(pos + 1, j as int));
                assert("\""@.len() == 1);
                assert(s@.subrange(pos as int, (j + 1) as int) =~= quoted(v@));
                match exp@ {
                    Some(w) => {
                        if j < pos + 1 + w.len() {
                            assert(s@[j as int] == w[j - pos - 1]);
                            assert(json_safe_char(w[j - pos - 1]));
                            assert(false);
                        }
                        if j > pos + 1 + w.len() {
                            assert(s@[pos + 1 + w.len()] != '"');
                            assert(false);
                        }
                        assert(v@ =~= w);
                    },
                    None => {},
                }
            }
            return Some((v, j + 1));
        }
        if !(' ' <= c && c <= '~' && c != '\\') {
            proof {
                match exp@ {
                    Some(w) => {
                        if j < pos + 1 + w.len() {
                            assert(s@[j as int] == w[j - pos - 1]);
                            assert(json_safe_char(w[j - pos - 1]));
                            assert(false);
                        }
                        if j == pos + 1 + w.len() {
                            assert(s@[j as int] == '"');
                            assert(false);
                        }
                        assert(s@[pos + 1 + w.len()] != '"');
                        assert(false);
                    },
                    None => {},
                }
            }
            return None;
        }
        j = j + 1;
    }
    proof {
        match exp@ {
            Some(w) => {
                assert(s@[pos + 1 + w.len()] != '"');
                assert(false);
            },
            None => {},
        }
    }
    None
}

/// Consumes `null` or a quoted string at `pos`; guaranteed to succeed on
/// the expected optional string, when the caller supplies it.
fn parse_opt_quoted(s: &str, pos: usize, exp: Ghost<Option<Option<Seq<char>>>>) -> (r: Option<
    (Option<String>, usize),
>)
    requires
        s.is_ascii(),
        pos <= s@.len(),
        exp@ matches Some(o) ==> (match o {
            None => pos + 4 <= s@.len() && s@.subrange(pos as int, pos + 4) == "null"@,
            Some(h) => json_safe(h) && pos + h.len() + 2 <= s@.len() && s@.subrange(
                pos as int,
                pos + h.len() + 2,
            ) == quoted(h),
        }),
    ensures
        r matches Some(v) ==> pos <= v.1 <= s@.len() && (v.0 matches Some(h) ==> json_safe(h@))
            && s@.subrange(pos as int, v.1 as int) == opt_quoted(
            match v.0 {
                Some(ref h) => Some(h@),
                None => None,
            },
        ),
        exp@ matches Some(o) ==> (r matches Some(v) && v.1 == pos + opt_quoted(o).len() && (
        match o {
            None => v.0 is None,
            Some(h) => v.0 matches Some(hs) && hs@ == h,
        })),
{
    proof {
        reveal_strlit("null");
        reveal_strlit("\"");
    }
    if pos < s.unicode_len() && s.get_char(pos) == 'n' {
        proof {
            match exp@ {
                Some(o) => {
                    match o {
                        Some(h) => {
                            assert(s@[pos as int] == quoted(h)[0]);
                            assert(false);
                        },
                        None => {},
                    }
                },
                None => {},
            }
        }
        match eat_lit(s, pos, "null") {
            Some(p) => Some((None, p)),
            None => None,
        }
    } else {
        proof {
            match exp@ {
                Some(o) => {
                    if o is None {
                        assert(s@[pos as int] == "null"@[0]);
                        assert(false);
                    }
                },
                None => {},
            }
        }
        let ghost qexp: Option<Seq<char>> = match exp@ {
            Some(Some(h)) => Some(h),
            _ => None,
        };
        match parse_quoted(s, pos, Ghost(qexp)) {
            Some((v, p)) => Some((Some(v), p)),
            None => None,
        }
    }
}

/// Consumes `true` or `false` at `pos`; guaranteed to succeed on the
/// expected boolean, when the caller supplies it.
fn parse_bool(s: &str, pos: usize, exp: Ghost<Option<bool>>) -> (r: Option<(bool, usize)>)
    requires
        s.is_ascii(),
        pos <= s@.len(),
        exp@ matches Some(b) ==> pos + bool_text(b).len() <= s@.len() && s@.subrange(
            pos as int,
            pos + bool_text(b).len(),
        ) == bool_text(b),
    ensures
        r matches Some(v) ==> pos <= v.1 <= s@.len() && s@.subrange(pos as int, v.1 as int)
            == bool_text(v.0),
        exp@ matches Some(b) ==> (r matches Some(v) && v.0 == b && v.1 == pos + bool_text(
            b,
        ).len()),
{
    proof {
        reveal_strlit("true");
        reveal_strlit("false");
    }
    match eat_lit(s, pos, "true") {
        Some(p) => {
            proof {
                match exp@ {
                    Some(b) => {
                        if !b {
                            assert(s@[pos as int] == "false"@[0]);
                            assert(s@[pos as int] == "true"@[0]);
                            assert(false);
                        }
                    },
                    None => {},
                }
            }
            Some((true, p))
        },
        None => match eat_lit(s, pos, "false") {
            Some(p) => {
                proof {
                    match exp@ {
                        Some(b) => {
                            if b {
                                assert(false);
                            }
                        },
                        None => {},
                    }
                }
                Some((false, p))
            },
            None => {
                proof {
                    match exp@ {
                        Some(b) => {
                            assert(false);
                        },
                        None => {},
                    }
                }
                None
            },
        },
    }
}

/// Consumes a canonical decimal number of at most `max` at `pos`: no
/// leading zero, no overflow.
fn parse_u64_max(s: &str, pos: usize, max: u64, exp: Ghost<Option<u64>>) -> (r: Option<
    (u64, usize),
>)
    requires
        s.is_ascii(),
        pos <= s@.len(),
        exp@ matches Some(w) ==> w <= max && pos + dec_digits(w as nat).len() <= s@.len() && (
        forall|t: int|
            0 <= t < dec_digits(w as nat).len() ==> s@[pos + t] == #[trigger] dec_digits(
                w as nat,
            )[t]) && (pos + dec_digits(w as nat).len() == s@.len() || !dec_char(
            s@[pos + dec_digits(w as nat).len()],
        )),
    ensures
        r matches Some(v) ==> pos <= v.1 <= s@.len() && v.0 <= max && s@.subrange(
            pos as int,
            v.1 as int,
        ) == dec_digits(v.0 as nat),
        exp@ matches Some(w) ==> (r matches Some(v) && v.0 == w && v.1 == pos + dec_digits(
            w as nat,
        ).len()),
{
    let n = s.unicode_len();
    if pos >= n {
        proof {
            match exp@ {
                Some(w) => {
                    lemma_dec_digits_shape(w as nat);
                    assert(false);
                },
                None => {},
            }
        }
        return None;
    }
    let first: u64 = match s.get_char(pos) {
        '0' => 0,
        '1' => 1,
        '2' => 2,
        '3' => 3,
        '4' => 4,
        '5' => 5,
        '6' => 6,
        '7' => 7,
        '8' => 8,
        '9' => 9,
        _ => {
            proof {
                match exp@ {
                    Some(w) => {
                        lemma_dec_digits_shape(w as nat);
                        assert(s@[pos as int] == dec_digits(w as nat)[0]);
                        assert(false);
                    },
                    None => {},
                }
            }
            return None;
        },
    };
    if first == 0 {
        proof {
            assert(s@.subrange(pos as int, (pos + 1) as int) =~= dec_digits(0));
            match exp@ {
                Some(w) => {
                    lemma_dec_digits_shape(w as nat);
                    if w >= 1 {
                        assert(s@[pos as int] == dec_digits(w as nat)[0]);
                        assert(s@[pos as int] == '0');
                        assert(false);
                    }
                    assert(dec_digits(w as nat).len() == 1);
                },
                None => {},
            }
        }
        return Some((0, pos + 1));
    }
    let mut acc: u64 = first;
    let mut j = pos + 1;
    proof {
        assert(s@.subrange(pos as int, (pos + 1) as int) =~= dec_digits(first as nat));
    }
    while j < n
        invariant
            s.is_ascii(),
            n == s@.len(),
            pos < j <= n,
            1 <= acc,
            s@.subrange(pos as int, j as int) == dec_digits(acc as nat),
            exp@ matches Some(w) ==> w <= max && pos + dec_digits(w as nat).len() <= n && (
            forall|t: int|
                0 <= t < dec_digits(w as nat).len() ==> s@[pos + t] == #[trigger] dec_digits(
                    w as nat,
                )[t]) && (pos + dec_digits(w as nat).len() == n || !dec_char(
                s@[pos + dec_digits(w as nat).len()],
            )),
        decreases n - j,
    {
        let d: u64 = match s.get_char(j) {
            '0' => 0,
            '1' => 1,
            '2' => 2,
            '3' => 3,
            '4' => 4,
            '5' => 5,
            '6' => 6,
            '7' => 7,
            '8' => 8,
            '9' => 9,
            _ => {
                proof {
                    match exp@ {
                        Some(w) => {
                            lemma_parse_number_finish(s@, pos as int, j as int, acc, w);
                        },
                        None => {},
                    }
                }
                if acc > max {
                    proof {
                        match exp@ {
                            Some(w) => {
                                assert(false);
                            },
                            None => {},
                        }
                    }
                    return None;
                }
                return Some((acc, j));
            },
        };
        if acc > u64::MAX / 10 || (acc == u64::MAX / 10 && d > u64::MAX % 10) {
            proof {
                match exp@ {
                    Some(w) => {
                        assert(s@[j as int] == crate::text::digit_char(d as int));
                        lemma_parse_number_overflow(s@, pos as int, j as int, acc, d, w);
                        assert(false);
                    },
                    None => {},
                }
            }
            return None;
        }
        let ghost old_acc = acc;
        acc = acc * 10 + d;
        proof {
            assert(acc as nat / 10 == old_acc as nat && acc as nat % 10 == d as nat)
                by (nonlinear_arith)
                requires
                    acc == old_acc * 10 + d,
                    0 <= d < 10,
                    1 <= old_acc,
            ;
            assert(dec_digits(acc as nat) == dec_digits(old_acc as nat).push(
                crate::text::digit_char(d as int),
            ));
            assert(s@.subrange(pos as int, (j + 1) as int) =~= dec_digits(acc as nat));
        }
        j = j + 1;
    }
    proof {
        match exp@ {
            Some(w) => {
                lemma_parse_number_finish(s@, pos as int, j as int, acc, w);
            },
            None => {},
        }
    }
    if acc > max {
        proof {
            match exp@ {
                Some(w) => {
                    assert(false);
                },
                None => {},
            }
        }
        return None;
    }
    Some((acc, j))
}

/// When the digit run the parser consumed stops (end of input or a
/// non-digit) and the expected number's rendering sits at `pos` with the
/// same stop condition, the parser consumed exactly that rendering.
proof fn lemma_parse_number_finish(t: Seq<char>, pos: int, j: int, acc: u64, w: u64)
    requires
        0 <= pos < j <= t.len(),
        t.subrange(pos, j) == dec_digits(acc as nat),
        j == t.len() || !dec_char(t[j]),
        pos + dec_digits(w as nat).len() <= t.len(),
        forall|u: int| 0 <= u < dec_digits(w as nat).len() ==> t[pos + u] == #[trigger] dec_digits(
            w as nat,
        )[u],
        pos + dec_digits(w as nat).len() == t.len() || !dec_char(t[pos + dec_digits(
            w as nat,
        ).len()]),
    ensures
        acc == w,
        j == pos + dec_digits(w as nat).len(),
{
    let dw = dec_digits(w as nat);
    let da = dec_digits(acc as nat);
    lemma_dec_digits_shape(w as nat);
    lemma_dec_digits_shape(acc as nat);
    assert(da.len() == j - pos);
    if j < pos + dw.len() {
        assert(t[j] == dw[j - pos]);
        assert(dec_char(dw[j - pos]));
        assert(false);
    }
    if j > pos + dw.len() {
        assert(t[pos + dw.len()] == t.subrange(pos, j)[dw.len() as int]);
        assert(dec_char(da[dw.len() as int]));
        assert(false);
    }
    assert(da =~= dw);
    lemma_dec_digits_injective(acc as nat, w as nat);
}

/// Mid-run, the value consumed so far (and the value after one more
/// digit) stays at or below the expected number, so no overflow check can
/// fire while parsing a rendering of a `u64`.
proof fn lemma_parse_number_overflow(t: Seq<char>, pos: int, j: int, acc: u64, d: u64, w: u64)
    requires
        0 <= pos < j < t.len(),
        t.subrange(pos, j) == dec_digits(acc as nat),
        1 <= acc,
        0 <= d < 10,
        t[j] == crate::text::digit_char(d as int),
        pos + dec_digits(w as nat).len() <= t.len(),
        forall|u: int| 0 <= u < dec_digits(w as nat).len() ==> t[pos + u] == #[trigger] dec_digits(
            w as nat,
        )[u],
        pos + dec_digits(w as nat).len() == t.len() || !dec_char(t[pos + dec_digits(
            w as nat,
        ).len()]),
    ensures
        (acc as int) * 10 + (d as int) <= w,
{
    let dw = dec_digits(w as nat);
    let da = dec_digits(acc as nat);
    lemma_dec_digits_shape(w as nat);
    lemma_dec_digits_shape(acc as nat);
    assert(da.len() == j - pos);
    assert(dec_char(t[j]));
    if j == pos + dw.len() {
        assert(false);
    }
    if j > pos + dw.len() {
        assert(t[pos + dw.len()] == t.subrange(pos, j)[dw.len() as int]);
        assert(dec_char(da[dw.len() as int]));
        assert(false);
    }
    assert(j < pos + dw.len());
    let next: nat = (acc as nat) * 10 + (d as nat);
    assert(next / 10 == acc as nat && next % 10 == d as nat) by (nonlinear_arith)
        requires
            next == (acc as nat) * 10 + (d as nat),
            0 <= d < 10,
            1 <= acc,
    ;
    assert(dec_digits(next) == dec_digits(acc as nat).push(crate::text::digit_char(d as int)));
    assert(dec_digits(next) =~= dw.subrange(0, j - pos + 1));
    lemma_dec_digits_prefix_le(next, w as nat);
}

/// Consumes a canonical decimal `u32` at `pos`.
fn parse_u32(s: &str, pos: usize, exp: Ghost<Option<u32>>) -> (r: Option<(u32, usize)>)
    requires
        s.is_ascii(),
        pos <= s@.len(),
        exp@ matches Some(w) ==> pos + dec_digits(w as nat).len() <= s@.len() && (forall|t: int|
            0 <= t < dec_digits(w as nat).len() ==> s@[pos + t] == #[trigger] dec_digits(
                w as nat,
            )[t]) && (pos + dec_digits(w as nat).len() == s@.len() || !dec_char(
            s@[pos + dec_digits(w as nat).len()],
        )),
    ensures
        r matches Some(v) ==> pos <= v.1 <= s@.len() && s@.subrange(pos as int, v.1 as int)
            == dec_digits(v.0 as nat),
        exp@ matches Some(w) ==> (r matches Some(v) && v.0 == w && v.1 == pos + dec_digits(
            w as nat,
        ).len()),
{
    let ghost e64: Option<u64> = match exp@ {
        Some(w) => Some(w as u64),
        None => None,
    };
    match parse_u64_max(s, pos, 0xffff_ffff, Ghost(e64)) {
        Some((v, p)) => Some((v as u32, p)),
        None => None,
    }
}

/// Every status word can stand in the document verbatim.
proof fn lemma_status_text_safe(st: Status)
    ensures
        json_safe(status_text(st)),
{
    reveal_strlit("Pending");
    reveal_strlit("Initializing");
    reveal_strlit("BuildFailed");
    reveal_strlit("Built");
    reveal_strlit("StartupFailed");
    reveal_strlit("Running");
    reveal_strlit("VerificationFailed");
    reveal_strlit("Verified");
    reveal_strlit("Deploying");
    reveal_strlit("RolloutFailed");
    reveal_strlit("RolledOut");
}

/// Consumes a quoted status word at `pos`; guaranteed to succeed on the
/// expected status's word, when the caller supplies it.
fn parse_status(s: &str, pos: usize, exp: Ghost<Option<Status>>) -> (r: Option<(Status, usize)>)
    requires
        s.is_ascii(),
        pos <= s@.len(),
        exp@ matches Some(st) ==> pos + status_text(st).len() + 2 <= s@.len() && s@.subrange(
            pos as int,
            pos + status_text(st).len() + 2,
        ) == quoted(status_text(st)),
    ensures
        r matches Some(v) ==> pos <= v.1 <= s@.len() && s@.subrange(pos as int, v.1 as int)
            == quoted(status_text(v.0)),
        exp@ matches Some(st) ==> (r matches Some(v) && v.1 == pos + status_text(st).len() + 2),
{
    proof {
        match exp@ {
            Some(st) => {
                lemma_status_text_safe(st);
            },
            None => {},
        }
    }
    let ghost wexp: Option<Seq<char>> = match exp@ {
        Some(st) => Some(status_text(st)),
        None => None,
    };
    let (word, p) = match parse_quoted(s, pos, Ghost(wexp)) {
        Some(v) => v,
        None => {
            return None;
        },
    };
    let w = word.as_str();
    let st = if str_eq(w, "Pending") {
        Status::Pending
    } else if str_eq(w, "Initializing") {
        Status::Initializing
    } else if str_eq(w, "BuildFailed") {
        Status::BuildFailed
    } else if str_eq(w, "Built") {
        Status::Built
    } else if str_eq(w, "StartupFailed") {
        Status::StartupFailed
    } else if str_eq(w, "Running") {
        Status::Running
    } else if str_eq(w, "VerificationFailed") {
        Status::VerificationFailed
    } else if str_eq(w, "Verified") {
        Status::Verified
    } else if str_eq(w, "Deploying") {
        Status::Deploying
    } else if str_eq(w, "RolloutFailed") {
        Status::RolloutFailed
    } else if str_eq(w, "RolledOut") {
        Status::RolledOut
    } else {
        proof {
            match exp@ {
                Some(est) => {
                    assert(word@ == status_text(est));
                    match est {
                        Status::Pending => {
                            assert(false);
                        },
                        Status::Initializing => {
                            assert(false);
                        },
                        Status::BuildFailed => {
                            assert(false);
                        },
                        Status::Built => {
                            assert(false);
                        },
                        Status::StartupFailed => {
                            assert(false);
                        },
                        Status::Running => {
                            assert(false);
                        },
                        Status::VerificationFailed => {
                            assert(false);
                        },
                        Status::Verified => {
                            assert(false);
                        },
                        Status::Deploying => {
                            assert(false);
                        },
                        Status::RolloutFailed => {
                            assert(false);
                        },
                        Status::RolledOut => {
                            assert(false);
                        },
                    }
                },
                None => {},
            }
        }
        return None;
    };
    Some((st, p))
}

/// The items of the pod list from index `k` on, each preceded by its
/// separating comma.
spec fn pods_items_rest(ps: Seq<Seq<char>>, k: int) -> Seq<char>
    decreases ps.len() - k,
        when 0 <= k
{
    if k >= ps.len() {
        Seq::empty()
    } else {
        ","@ + quoted(ps[k]) + pods_items_rest(ps, k + 1)
    }
}

/// Removing the last item removes the trailing separator-item pair.
proof fn lemma_items_rest_snoc(ps: Seq<Seq<char>>, k: int)
    requires
        0 <= k < ps.len(),
    ensures
        pods_items_rest(ps, k) == pods_items_rest(ps.drop_last(), k) + ","@ + quoted(ps.last()),
    decreases ps.len() - k,
{
    if k == ps.len() - 1 {
        assert(pods_items_rest(ps.drop_last(), k) =~= Seq::<char>::empty());
        assert(pods_items_rest(ps, k) =~= pods_items_rest(ps.drop_last(), k) + ","@ + quoted(
            ps.last(),
        ));
    } else {
        lemma_items_rest_snoc(ps, k + 1);
        assert(ps[k] == ps.drop_last()[k]);
        assert(pods_items_rest(ps, k) == ","@ + quoted(ps[k]) + pods_items_rest(ps, k + 1));
        assert(pods_items_rest(ps.drop_last(), k) == ","@ + quoted(ps.drop_last()[k])
            + pods_items_rest(ps.drop_last(), k + 1));
        assert(pods_items_rest(ps, k) =~= pods_items_rest(ps.drop_last(), k) + ","@ + quoted(
            ps.last(),
        ));
    }
}

/// The item list seen head-first: the first item, then the rest with
/// their separators.
proof fn lemma_items_cons(ps: Seq<Seq<char>>)
    requires
        ps.len() >= 1,
    ensures
        pods_items(ps) == quoted(ps[0]) + pods_items_rest(ps, 1),
    decreases ps.len(),
{
    if ps.len() == 1 {
        assert(pods_items(ps) =~= quoted(ps[0]) + pods_items_rest(ps, 1));
    } else {
        lemma_items_cons(ps.drop_last());
        lemma_items_rest_snoc(ps, 1);
        assert(ps[0] == ps.drop_last()[0]);
        assert(pods_items(ps) =~= quoted(ps[0]) + pods_items_rest(ps, 1));
    }
}

/// Consumes a JSON array of quoted strings at `pos`; guaranteed to
/// succeed on the expected list, when the caller supplies it.
#[verifier::rlimit(60)]
fn parse_pods(s: &str, pos: usize, exp: Ghost<Option<Seq<Seq<char>>>>) -> (r: Option<
    (Vec<String>, usize),
>)
    requires
        s.is_ascii(),
        pos <= s@.len(),
        exp@ matches Some(ps) ==> (forall|i: int| 0 <= i < ps.len() ==> json_safe(
            #[trigger] ps[i],
        )) && pos + pods_json(ps).len() <= s@.len() && s@.subrange(
            pos as int,
            pos + pods_json(ps).len(),
        ) == pods_json(ps),
    ensures
        r matches Some(v) ==> pos <= v.1 <= s@.len() && (forall|i: int| 0 <= i
            < v.0.deep_view().len() ==> json_safe(#[trigger] v.0.deep_view()[i])) && s@.subrange(
            pos as int,
            v.1 as int,
        ) == pods_json(v.0.deep_view()),
        exp@ matches Some(ps) ==> (r matches Some(v) && v.1 == pos + pods_json(ps).len()),
{
    proof {
        reveal_strlit("[");
        reveal_strlit("]");
        reveal_strlit(",");
        reveal_strlit("\"");
    }
    let n = s.unicode_len();
    let mut p = match eat_lit(s, pos, "[") {
        Some(p) => p,
        None => {
            proof {
                match exp@ {
                    Some(ps) => {
                        assert(s@[pos as int] == pods_json(ps)[0]);
                        assert(s@.subrange(pos as int, pos + 1) =~= "["@);
                        assert(false);
                    },
                    None => {},
                }
            }
            return None;
        },
    };
    proof {
        match exp@ {
            Some(ps) => {
                assert forall|t: int| 0 <= t < pods_items(ps).len() + 1 implies s@.subrange(
                    (pos + 1) as int,
                    pos + pods_json(ps).len(),
                )[t] == (pods_items(ps) + "]"@)[t] by {
                    assert(s@[pos + 1 + t] == s@.subrange(pos as int, pos + pods_json(ps).len())[1
                        + t]);
                    assert(pods_json(ps)[1 + t] == (pods_items(ps) + "]"@)[t]);
                }
                assert(s@.subrange((pos + 1) as int, pos + pods_json(ps).len()) =~= pods_items(ps)
                    + "]"@);
            },
            None => {},
        }
    }
    let mut pods: Vec<String> = Vec::new();
    if p < n && s.get_char(p) == ']' {
        proof {
            assert(pods.deep_view() =~= Seq::<Seq<char>>::empty());
            assert(s@.subrange(pos as int, (p + 1) as int) =~= pods_json(pods.deep_view()));
            match exp@ {
                Some(ps) => {
                    if ps.len() >= 1 {
                        lemma_items_cons(ps);
                        assert(s@[p as int] == (pods_items(ps) + "]"@)[0]);
                        assert(s@[p as int] == quoted(ps[0])[0]);
                        assert(false);
                    }
                    assert(pods_items(ps) =~= Seq::<char>::empty());
                    assert(pods_json(ps).len() == 2);
                },
                None => {},
            }
        }
        return Some((pods, p + 1));
    }
    proof {
        match exp@ {
            Some(ps) => {
                if ps.len() == 0 {
                    assert(pods_items(ps) =~= Seq::<char>::empty());
                    assert(s@[(pos + 1) as int] == (pods_items(ps) + "]"@)[0]);
                    assert(false);
                }
                lemma_items_cons(ps);
                assert(s@.subrange((pos + 1) as int, pos + 1 + ps[0].len() + 2) =~= quoted(
                    ps[0],
                ));
            },
            None => {},
        }
    }
    let ghost head_exp: Option<Seq<char>> = match exp@ {
        Some(ps) => if ps.len() >= 1 {
            Some(ps[0])
        } else {
            None
        },
        None => None,
    };
    let (head, p1) = match parse_quoted(s, p, Ghost(head_exp)) {
        Some(v) => v,
        None => {
            return None;
        },
    };
    pods.push(head);
    p = p1;
    proof {
        assert(pods.deep_view() =~= seq![pods@[0]@]);
        assert(pods_items(pods.deep_view()) == quoted(pods.deep_view()[0]));
        assert(s@.subrange(pos as int, p as int) =~= "["@ + pods_items(pods.deep_view()));
        match exp@ {
            Some(ps) => {
                lemma_items_cons(ps);
                assert forall|t: int| 0 <= t < pods_items_rest(ps, 1).len() + 1 implies s@.subrange(
                    p as int,
                    pos + pods_json(ps).len(),
                )[t] == (pods_items_rest(ps, 1) + "]"@)[t] by {
                    assert(s@[p + t] == s@.subrange((pos + 1) as int, pos + pods_json(ps).len())[
                        ps[0].len() + 2 + t]);
                    assert((pods_items(ps) + "]"@)[ps[0].len() + 2 + t] == (pods_items_rest(ps, 1)
                        + "]"@)[t]);
                }
                assert(s@.subrange(p as int, pos + pods_json(ps).len()) =~= pods_items_rest(ps, 1)
                    + "]"@);
            },
            None => {},
        }
    }
    while p < n && s.get_char(p) == ','
        invariant
            s.is_ascii(),
            n == s@.len(),
            pos <= p <= n,
            pods.deep_view().len() >= 1,
            forall|i: int| 0 <= i < pods.deep_view().len() ==> json_safe(
                #[trigger] pods.deep_view()[i],
            ),
            s@.subrange(pos as int, p as int) == "["@ + pods_items(pods.deep_view()),
            exp@ matches Some(ps) ==> (forall|i: int| 0 <= i < ps.len() ==> json_safe(
                #[trigger] ps[i],
            )) && ps.len() >= 1 && 1 <= pods.deep_view().len() <= ps.len() && pos + pods_json(
                ps,
            ).len() <= n && p as int <= pos + pods_json(ps).len() && s@.subrange(
                p as int,
                pos + pods_json(ps).len(),
            ) == pods_items_rest(ps, pods.deep_view().len() as int) + "]"@,
        decreases n - p,
    {
        proof {
            reveal_strlit(",");
            reveal_strlit("]");
            reveal_strlit("\"");
            match exp@ {
                Some(ps) => {
                    let k = pods.deep_view().len() as int;
                    if k == ps.len() {
                        assert(pods_items_rest(ps, k) =~= Seq::<char>::empty());
                        assert(s@[p as int] == (pods_items_rest(ps, k) + "]"@)[0]);
                        assert(false);
                    }
                    assert(pods_items_rest(ps, k) == ","@ + quoted(ps[k]) + pods_items_rest(
                        ps,
                        k + 1,
                    ));
                    assert forall|t: int| 0 <= t < ps[k].len() + 2 implies s@.subrange(
                        (p + 1) as int,
                        p + 1 + ps[k].len() + 2,
                    )[t] == quoted(ps[k])[t] by {
                        assert(s@[p + 1 + t] == s@.subrange(
                            p as int,
                            pos + pods_json(ps).len(),
                        )[1 + t]);
                        assert((pods_items_rest(ps, k) + "]"@)[1 + t] == quoted(ps[k])[t]);
                    }
                    assert(s@.subrange((p + 1) as int, p + 1 + ps[k].len() + 2) =~= quoted(
                        ps[k],
                    ));
                },
                None => {},
            }
        }
        let ghost item_exp: Option<Seq<char>> = match exp@ {
            Some(ps) => if (pods.deep_view().len() as int) < ps.len() {
                Some(ps[pods.deep_view().len() as int])
            } else {
                None
            },
            None => None,
        };
        let ghost prev = pods.deep_view();
        let ghost p_old: int = p as int;
        let (item, p2) = match parse_quoted(s, p + 1, Ghost(item_exp)) {
            Some(v) => v,
            None => {
                return None;
            },
        };
        pods.push(item);
        proof {
            reveal_strlit(",");
            assert(pods.deep_view() =~= prev.push(pods.deep_view().last()));
            assert(pods.deep_view().drop_last() =~= prev);
            assert forall|i: int| 0 <= i < pods.deep_view().len() implies json_safe(
                #[trigger] pods.deep_view()[i],
            ) by {
                if i < prev.len() {
                    assert(pods.deep_view()[i] == prev[i]);
                }
            }
            assert(pods_items(pods.deep_view()) == pods_items(prev) + ","@ + quoted(
                pods.deep_view().last(),
            ));
            assert(s@.subrange(p_old, p_old + 1) =~= ","@);
            assert(s@.subrange(pos as int, p2 as int) =~= s@.subrange(pos as int, p_old)
                + s@.subrange(p_old, p_old + 1) + s@.subrange(p_old + 1, p2 as int));
            assert(s@.subrange(pos as int, p2 as int) =~= "["@ + pods_items(pods.deep_view()));
            match exp@ {
                Some(ps) => {
                    reveal_strlit("\"");
                    let k = prev.len() as int;
                    assert(pods_items_rest(ps, k) == ","@ + quoted(ps[k]) + pods_items_rest(
                        ps,
                        k + 1,
                    ));
                    assert forall|t: int| 0 <= t < pods_items_rest(ps, k + 1).len() + 1 implies #[trigger] (s@.subrange(
                        p2 as int,
                        pos + pods_json(ps).len(),
                    )[t]) == (pods_items_rest(ps, k + 1) + "]"@)[t] by {
                        assert(s@[p2 + t] == s@.subrange(
                            p_old,
                            pos + pods_json(ps).len(),
                        )[1 + ps[k].len() + 2 + t]);
                        assert((pods_items_rest(ps, k) + "]"@)[1 + ps[k].len() + 2 + t] == (
                        pods_items_rest(ps, k + 1) + "]"@)[t]);
                    }
                    assert(s@.subrange(p2 as int, pos + pods_json(ps).len())
                        =~= pods_items_rest(ps, k + 1) + "]"@);
                },
                None => {},
            }
        }
        p = p2;
    }
    proof {
        reveal_strlit(",");
        reveal_strlit("]");
        reveal_strlit("\"");
        match exp@ {
            Some(ps) => {
                let k = pods.deep_view().len() as int;
                if k < ps.len() {
                    assert(s@[p as int] == (pods_items_rest(ps, k) + "]"@)[0]);
                    assert((p as int) < pos + pods_json(ps).len());
                    assert(false);
                }
                assert(pods_items_rest(ps, k) =~= Seq::<char>::empty());
                assert(s@.subrange(p as int, (p + 1) as int) =~= "]"@);
                assert(pos + pods_json(ps).len() == p + 1);
            },
            None => {},
        }
    }
    let ghost p_end: int = p as int;
    match eat_lit(s, p, "]") {
        Some(p3) => {
            proof {
                assert(s@.subrange(pos as int, p3 as int) =~= s@.subrange(pos as int, p_end)
                    + s@.subrange(p_end, p3 as int));
                assert(s@.subrange(pos as int, p3 as int) =~= pods_json(pods.deep_view()));
            }
            Some((pods, p3))
        },
        None => None,
    }
}

/// Splitting a known span: when `t` holds `a + b` over `[lo, hi)`, `a`
/// sits at `[lo, lo + |a|)` and `b` right after.
proof fn lemma_span_split(t: Seq<char>, lo: int, hi: int, a: Seq<char>, b: Seq<char>)
    requires
        0 <= lo <= hi <= t.len(),
        t.subrange(lo, hi) == a + b,
    ensures
        t.subrange(lo, lo + a.len()) == a,
        t.subrange(lo + a.len(), hi) == b,
        hi == lo + a.len() + b.len(),
{
    assert(t.subrange(lo, hi).len() == (a + b).len());
    assert(t.subrange(lo, hi).len() == hi - lo);
    assert((a + b).len() == a.len() + b.len());
    assert(hi - lo == a.len() + b.len());
    assert forall|i: int| 0 <= i < a.len() implies t.subrange(lo, lo + a.len())[i] == a[i] by {
        assert(t.subrange(lo, hi)[i] == (a + b)[i]);
        assert(t.subrange(lo, hi)[i] == t[lo + i]);
        assert((a + b)[i] == a[i]);
        assert(t.subrange(lo, lo + a.len())[i] == t[lo + i]);
    }
    assert(t.subrange(lo, lo + a.len()) =~= a);
    assert forall|i: int| 0 <= i < b.len() implies t.subrange(lo + a.len(), hi)[i] == b[i] by {
        assert(t.subrange(lo, hi)[a.len() + i] == (a + b)[a.len() + i]);
        assert(t.subrange(lo, hi)[a.len() + i] == t[lo + a.len() + i]);
        assert((a + b)[a.len() + i] == b[i]);
        assert(t.subrange(lo + a.len(), hi)[i] == t[lo + a.len() + i]);
    }
    assert(t.subrange(lo + a.len(), hi) =~= b);
}

/// Consumes the cluster metadata object at `pos`; guaranteed to succeed
/// on the expected metadata's document, when the caller supplies it.
#[verifier::rlimit(100)]
fn parse_k8s(s: &str, pos: usize, exp: Ghost<Option<KubernetesMetadataV>>) -> (r: Option<
    (KubernetesMetadata, usize),
>)
    requires
        s.is_ascii(),
        pos <= s@.len(),
        exp@ matches Some(k) ==> json_safe(k.namespace) && json_safe(k.deployment_name)
            && json_safe(k.service_name) && (forall|i: int| 0 <= i < k.pod_status.len()
            ==> json_safe(#[trigger] k.pod_status[i])) && (k.ingress_host matches Some(h)
            ==> json_safe(h)) && pos + k8s_json(k).len() <= s@.len() && s@.subrange(
            pos as int,
            pos + k8s_json(k).len(),
        ) == k8s_json(k),
    ensures
        r matches Some(v) ==> pos <= v.1 <= s@.len() && json_safe(v.0@.namespace) && json_safe(
            v.0@.deployment_name,
        ) && json_safe(v.0@.service_name) && (forall|i: int| 0 <= i < v.0@.pod_status.len()
            ==> json_safe(#[trigger] v.0@.pod_status[i])) && (v.0@.ingress_host matches Some(h)
            ==> json_safe(h)) && s@.subrange(pos as int, v.1 as int) == k8s_json(v.0@),
        exp@ matches Some(k) ==> (r matches Some(v) && v.1 == pos + k8s_json(k).len()),
{
    proof {
        match exp@ {
            Some(k) => {
                reveal_strlit("{\"namespace\":");
                reveal_strlit(",\"deploymentName\":");
                reveal_strlit(",\"serviceName\":");
                reveal_strlit(",\"replicas\":");
                reveal_strlit(",\"podStatus\":");
                reveal_strlit(",\"ingressHost\":");
                reveal_strlit("}");
                reveal_strlit("\"");
                reveal_strlit("null");
                let b1 = pos + 13;
                let b2 = b1 + k.namespace.len() + 2;
                let b3 = b2 + 18;
                let b4 = b3 + k.deployment_name.len() + 2;
                let b5 = b4 + 15;
                let b6 = b5 + k.service_name.len() + 2;
                let b7 = b6 + 12;
                let b8 = b7 + dec_digits(k.replicas as nat).len();
                let b9 = b8 + 13;
                let b10 = b9 + pods_json(k.pod_status).len();
                let b11 = b10 + 15;
                let b12 = b11 + opt_quoted(k.ingress_host).len();
                let b13 = b12 + 1;
                assert(b13 == pos + k8s_json(k).len());
                lemma_span_split(
                    s@,
                    pos as int,
                    b13,
                    "{\"namespace\":"@ + quoted(k.namespace) + ",\"deploymentName\":"@ + quoted(
                        k.deployment_name,
                    ) + ",\"serviceName\":"@ + quoted(k.service_name) + ",\"replicas\":"@
                        + dec_digits(k.replicas as nat) + ",\"podStatus\":"@ + pods_json(
                        k.pod_status,
                    ) + ",\"ingressHost\":"@ + opt_quoted(k.ingress_host),
                    "}"@,
                );
                lemma_span_split(
                    s@,
                    pos as int,
                    b12,
                    "{\"namespace\":"@ + quoted(k.namespace) + ",\"deploymentName\":"@ + quoted(
                        k.deployment_name,
                    ) + ",\"serviceName\":"@ + quoted(k.service_name) + ",\"replicas\":"@
                        + dec_digits(k.replicas as nat) + ",\"podStatus\":"@ + pods_json(
                        k.pod_status,
                    ) + ",\"ingressHost\":"@,
                    opt_quoted(k.ingress_host),
                );
                lemma_span_split(
                    s@,
                    pos as int,
                    b11,
                    "{\"namespace\":"@ + quoted(k.namespace) + ",\"deploymentName\":"@ + quoted(
                        k.deployment_name,
                    ) + ",\"serviceName\":"@ + quoted(k.service_name) + ",\"replicas\":"@
                        + dec_digits(k.replicas as nat) + ",\"podStatus\":"@ + pods_json(
                        k.pod_status,
                    ),
                    ",\"ingressHost\":"@,
                );
                lemma_span_split(
                    s@,
                    pos as int,
                    b10,
                    "{\"namespace\":"@ + quoted(k.namespace) + ",\"deploymentName\":"@ + quoted(
                        k.deployment_name,
                    ) + ",\"serviceName\":"@ + quoted(k.service_name) + ",\"replicas\":"@
                        + dec_digits(k.replicas as nat) + ",\"podStatus\":"@,
                    pods_json(k.pod_status),
                );
                lemma_span_split(
                    s@,
                    pos as int,
                    b9,
                    "{\"namespace\":"@ + quoted(k.namespace) + ",\"deploymentName\":"@ + quoted(
                        k.deployment_name,
                    ) + ",\"serviceName\":"@ + quoted(k.service_name) + ",\"replicas\":"@
                        + dec_digits(k.replicas as nat),
                    ",\"podStatus\":"@,
                );
                lemma_span_split(
                    s@,
                    pos as int,
                    b8,
                    "{\"namespace\":"@ + quoted(k.namespace) + ",\"deploymentName\":"@ + quoted(
                        k.deployment_name,
                    ) + ",\"serviceName\":"@ + quoted(k.service_name) + ",\"replicas\":"@,
                    dec_digits(k.replicas as nat),
                );
                lemma_span_split(
                    s@,
                    pos as int,
                    b7,
                    "{\"namespace\":"@ + quoted(k.namespace) + ",\"deploymentName\":"@ + quoted(
                        k.deployment_name,
                    ) + ",\"serviceName\":"@ + quoted(k.service_name),
                    ",\"replicas\":"@,
                );
                lemma_span_split(
                    s@,
                    pos as int,
                    b6,
                    "{\"namespace\":"@ + quoted(k.namespace) + ",\"deploymentName\":"@ + quoted(
                        k.deployment_name,
                    ) + ",\"serviceName\":"@,
                    quoted(k.service_name),
                );
                lemma_span_split(
                    s@,
                    pos as int,
                    b5,
                    "{\"namespace\":"@ + quoted(k.namespace) + ",\"deploymentName\":"@ + quoted(
                        k.deployment_name,
                    ),
                    ",\"serviceName\":"@,
                );
                lemma_span_split(
                    s@,
                    pos as int,
                    b4,
                    "{\"namespace\":"@ + quoted(k.namespace) + ",\"deploymentName\":"@,
                    quoted(k.deployment_name),
                );
                lemma_span_split(
                    s@,
                    pos as int,
                    b3,
                    "{\"namespace\":"@ + quoted(k.namespace),
                    ",\"deploymentName\":"@,
                );
                lemma_span_split(s@, pos as int, b2, "{\"namespace\":"@, quoted(k.namespace));
                assert forall|t: int| 0 <= t < dec_digits(k.replicas as nat).len() implies s@[b7
                    + t] == #[trigger] dec_digits(k.replicas as nat)[t] by {
                    assert(s@.subrange(b7, b8)[t] == dec_digits(k.replicas as nat)[t]);
                }
                assert(s@[b8] == s@.subrange(b8, b9)[0]);
                assert(s@[b8] == ',');
                assert(!dec_char(s@[b8]));
            },
            None => {},
        }
    }
    let p0 = match eat_lit(s, pos, "{\"namespace\":") {
        Some(p) => p,
        None => {
            proof {
                match exp@ {
                    Some(k) => {
                        assert(false);
                    },
                    None => {},
                }
            }
            return None;
        },
    };
    let ghost e_ns: Option<Seq<char>> = match exp@ {
        Some(k) => Some(k.namespace),
        None => None,
    };
    let (namespace, p1) = match parse_quoted(s, p0, Ghost(e_ns)) {
        Some(v) => v,
        None => {
            return None;
        },
    };
    let p2 = match eat_lit(s, p1, ",\"deploymentName\":") {
        Some(p) => p,
        None => {
            proof {
                match exp@ {
                    Some(k) => {
                        assert(false);
                    },
                    None => {},
                }
            }
            return None;
        },
    };
    let ghost e_dn: Option<Seq<char>> = match exp@ {
        Some(k) => Some(k.deployment_name),
        None => None,
    };
    let (deployment_name, p3) = match parse_quoted(s, p2, Ghost(e_dn)) {
        Some(v) => v,
        None => {
            return None;
        },
    };
    let p4 = match eat_lit(s, p3, ",\"serviceName\":") {
        Some(p) => p,
        None => {
            proof {
                match exp@ {
                    Some(k) => {
                        assert(false);
                    },
                    None => {},
                }
            }
            return None;
        },
    };
    let ghost e_sn: Option<Seq<char>> = match exp@ {
        Some(k) => Some(k.service_name),
        None => None,
    };
    let (service_name, p5) = match parse_quoted(s, p4, Ghost(e_sn)) {
        Some(v) => v,
        None => {
            return None;
        },
    };
    let p6 = match eat_lit(s, p5, ",\"replicas\":") {
        Some(p) => p,
        None => {
            proof {
                match exp@ {
                    Some(k) => {
                        assert(false);
                    },
                    None => {},
                }
            }
            return None;
        },
    };
    let ghost e_rep: Option<u32> = match exp@ {
        Some(k) => Some(k.replicas),
        None => None,
    };
    let (replicas, p7) = match parse_u32(s, p6, Ghost(e_rep)) {
        Some(v) => v,
        None => {
            return None;
        },
    };
    let p8 = match eat_lit(s, p7, ",\"podStatus\":") {
        Some(p) => p,
        None => {
            proof {
                match exp@ {
                    Some(k) => {
                        assert(false);
                    },
                    None => {},
                }
            }
            return None;
        },
    };
    let ghost e_pods: Option<Seq<Seq<char>>> = match exp@ {
        Some(k) => Some(k.pod_status),
        None => None,
    };
    let (pod_status, p9) = match parse_pods(s, p8, Ghost(e_pods)) {
        Some(v) => v,
        None => {
            return None;
        },
    };
    let p10 = match eat_lit(s, p9, ",\"ingressHost\":") {
        Some(p) => p,
        None => {
            proof {
                match exp@ {
                    Some(k) => {
                        assert(false);
                    },
                    None => {},
                }
            }
            return None;
        },
    };
    let ghost e_ing: Option<Option<Seq<char>>> = match exp@ {
        Some(k) => Some(k.ingress_host),
        None => None,
    };
    let (ingress_host, p11) = match parse_opt_quoted(s, p10, Ghost(e_ing)) {
        Some(v) => v,
        None => {
            return None;
        },
    };
    let p12 = match eat_lit(s, p11, "}") {
        Some(p) => p,
        None => {
            proof {
                match exp@ {
                    Some(k) => {
                        assert(false);
                    },
                    None => {},
                }
            }
            return None;
        },
    };
    let k = KubernetesMetadata {
        namespace,
        deployment_name,
        service_name,
        replicas,
        pod_status,
        ingress_host,
    };
    proof {
        assert(s@.subrange(pos as int, p12 as int) =~= k8s_json(k@));
    }
    Some((k, p12))
}

/// Consumes the advisory metrics object at `pos`; guaranteed to succeed
/// on the expected object, when the caller supplies it.
#[verifier::rlimit(100)]
fn parse_metrics(s: &str, pos: usize, exp: Ghost<Option<PerformanceMetrics>>) -> (r: Option<
    (PerformanceMetrics, usize),
>)
    requires
        s.is_ascii(),
        pos <= s@.len(),
        exp@ matches Some(m) ==> pos + metrics_json(m).len() <= s@.len() && s@.subrange(
            pos as int,
            pos + metrics_json(m).len(),
        ) == metrics_json(m),
    ensures
        r matches Some(v) ==> pos <= v.1 <= s@.len() && s@.subrange(pos as int, v.1 as int)
            == metrics_json(v.0),
        exp@ matches Some(m) ==> (r matches Some(v) && v.1 == pos + metrics_json(m).len()),
{
    proof {
        match exp@ {
            Some(m) => {
                reveal_strlit("{\"avgResponseTimeMs\":");
                reveal_strlit(",\"requestsPerSecond\":");
                reveal_strlit(",\"errorRate\":");
                reveal_strlit(",\"memoryUsageMb\":");
                reveal_strlit(",\"cpuUsagePercent\":");
                reveal_strlit("}");
                let b1 = pos + "{\"avgResponseTimeMs\":"@.len();
                let b2 = b1 + dec_digits(m.avg_response_time_ms as nat).len();
                let b3 = b2 + ",\"requestsPerSecond\":"@.len();
                let b4 = b3 + dec_digits(m.requests_per_second as nat).len();
                let b5 = b4 + ",\"errorRate\":"@.len();
                let b6 = b5 + dec_digits(m.error_rate as nat).len();
                let b7 = b6 + ",\"memoryUsageMb\":"@.len();
                let b8 = b7 + dec_digits(m.memory_usage_mb as nat).len();
                let b9 = b8 + ",\"cpuUsagePercent\":"@.len();
                let b10 = b9 + dec_digits(m.cpu_usage_percent as nat).len();
                let b11 = b10 + "}"@.len();
                assert(b11 == pos + metrics_json(m).len());
                lemma_span_split(s@, pos as int, b11, "{\"avgResponseTimeMs\":"@ + dec_digits(m.avg_response_time_ms as nat) + ",\"requestsPerSecond\":"@ + dec_digits(m.requests_per_second as nat) + ",\"errorRate\":"@ + dec_digits(m.error_rate as nat) + ",\"memoryUsageMb\":"@ + dec_digits(m.memory_usage_mb as nat) + ",\"cpuUsagePercent\":"@ + dec_digits(m.cpu_usage_percent as nat), "}"@);
                lemma_span_split(s@, pos as int, b10, "{\"avgResponseTimeMs\":"@ + dec_digits(m.avg_response_time_ms as nat) + ",\"requestsPerSecond\":"@ + dec_digits(m.requests_per_second as nat) + ",\"errorRate\":"@ + dec_digits(m.error_rate as nat) + ",\"memoryUsageMb\":"@ + dec_digits(m.memory_usage_mb as nat) + ",\"cpuUsagePercent\":"@, dec_digits(m.cpu_usage_percent as nat));
                lemma_span_split(s@, pos as int, b9, "{\"avgResponseTimeMs\":"@ + dec_digits(m.avg_response_time_ms as nat) + ",\"requestsPerSecond\":"@ + dec_digits(m.requests_per_second as nat) + ",\"errorRate\":"@ + dec_digits(m.error_rate as nat) + ",\"memoryUsageMb\":"@ + dec_digits(m.memory_usage_mb as nat), ",\"cpuUsagePercent\":"@);
                lemma_span_split(s@, pos as int, b8, "{\"avgResponseTimeMs\":"@ + dec_digits(m.avg_response_time_ms as nat) + ",\"requestsPerSecond\":"@ + dec_digits(m.requests_per_second as nat) + ",\"errorRate\":"@ + dec_digits(m.error_rate as nat) + ",\"memoryUsageMb\":"@, dec_digits(m.memory_usage_mb as nat));
                lemma_span_split(s@, pos as int, b7, "{\"avgResponseTimeMs\":"@ + dec_digits(m.avg_response_time_ms as nat) + ",\"requestsPerSecond\":"@ + dec_digits(m.requests_per_second as nat) + ",\"errorRate\":"@ + dec_digits(m.error_rate as nat), ",\"memoryUsageMb\":"@);
                lemma_span_split(s@, pos as int, b6, "{\"avgResponseTimeMs\":"@ + dec_digits(m.avg_response_time_ms as nat) + ",\"requestsPerSecond\":"@ + dec_digits(m.requests_per_second as nat) + ",\"errorRate\":"@, dec_digits(m.error_rate as nat));
                lemma_span_split(s@, pos as int, b5, "{\"avgResponseTimeMs\":"@ + dec_digits(m.avg_response_time_ms as nat) + ",\"requestsPerSecond\":"@ + dec_digits(m.requests_per_second as nat), ",\"errorRate\":"@);
                lemma_span_split(s@, pos as int, b4, "{\"avgResponseTimeMs\":"@ + dec_digits(m.avg_response_time_ms as nat) + ",\"requestsPerSecond\":"@, dec_digits(m.requests_per_second as nat));
                lemma_span_split(s@, pos as int, b3, "{\"avgResponseTimeMs\":"@ + dec_digits(m.avg_response_time_ms as nat), ",\"requestsPerSecond\":"@);
                lemma_span_split(s@, pos as int, b2, "{\"avgResponseTimeMs\":"@, dec_digits(m.avg_response_time_ms as nat));
                assert forall|u: int| 0 <= u < dec_digits(m.avg_response_time_ms as nat).len() implies s@[b1 + u] == #[trigger] dec_digits(m.avg_response_time_ms as nat)[u] by {
                    assert(s@.subrange(b1, b2)[u] == dec_digits(m.avg_response_time_ms as nat)[u]);
                }
                assert(s@[b2] == s@.subrange(b2, b3)[0]);
                assert(!dec_char(s@[b2]));
                assert forall|u: int| 0 <= u < dec_digits(m.requests_per_second as nat).len() implies s@[b3 + u] == #[trigger] dec_digits(m.requests_per_second as nat)[u] by {
                    assert(s@.subrange(b3, b4)[u] == dec_digits(m.requests_per_second as nat)[u]);
                }
                assert(s@[b4] == s@.subrange(b4, b5)[0]);
                assert(!dec_char(s@[b4]));
                assert forall|u: int| 0 <= u < dec_digits(m.error_rate as nat).len() implies s@[b5 + u] == #[trigger] dec_digits(m.error_rate as nat)[u] by {
                    assert(s@.subrange(b5, b6)[u] == dec_digits(m.error_rate as nat)[u]);
                }
                assert(s@[b6] == s@.subrange(b6, b7)[0]);
                assert(!dec_char(s@[b6]));
                assert forall|u: int| 0 <= u < dec_digits(m.memory_usage_mb as nat).len() implies s@[b7 + u] == #[trigger] dec_digits(m.memory_usage_mb as nat)[u] by {
                    assert(s@.subrange(b7, b8)[u] == dec_digits(m.memory_usage_mb as nat)[u]);
                }
                assert(s@[b8] == s@.subrange(b8, b9)[0]);
                assert(!dec_char(s@[b8]));
                assert forall|u: int| 0 <= u < dec_digits(m.cpu_usage_percent as nat).len() implies s@[b9 + u] == #[trigger] dec_digits(m.cpu_usage_percent as nat)[u] by {
                    assert(s@.subrange(b9, b10)[u] == dec_digits(m.cpu_usage_percent as nat)[u]);
                }
                assert(s@[b10] == s@.subrange(b10, b11)[0]);
                assert(!dec_char(s@[b10]));
            },
            None => {},
        }
    }
    let p1 = match eat_lit(s, pos, "{\"avgResponseTimeMs\":") {
        Some(p) => p,
        None => {
            proof {
                match exp@ {
                    Some(m) => {
                        assert(false);
                    },
                    None => {},
                }
            }
            return None;
        },
    };
    let ghost e1: Option<u64> = match exp@ {
        Some(m) => Some(m.avg_response_time_ms),
        None => None,
    };
    let (avg_response_time_ms, p2) = match parse_u64_max(s, p1, u64::MAX, Ghost(e1)) {
        Some(v) => v,
        None => {
            return None;
        },
    };
    let p3 = match eat_lit(s, p2, ",\"requestsPerSecond\":") {
        Some(p) => p,
        None => {
            proof {
                match exp@ {
                    Some(m) => {
                        assert(false);
                    },
                    None => {},
                }
            }
            return None;
        },
    };
    let ghost e3: Option<u64> = match exp@ {
        Some(m) => Some(m.requests_per_second),
        None => None,
    };
    let (requests_per_second, p4) = match parse_u64_max(s, p3, u64::MAX, Ghost(e3)) {
        Some(v) => v,
        None => {
            return None;
        },
    };
    let p5 = match eat_lit(s, p4, ",\"errorRate\":") {
        Some(p) => p,
        None => {
            proof {
                match exp@ {
                    Some(m) => {
                        assert(false);
                    },
                    None => {},
                }
            }
            return None;
        },
    };
    let ghost e5: Option<u64> = match exp@ {
        Some(m) => Some(m.error_rate),
        None => None,
    };
    let (error_rate, p6) = match parse_u64_max(s, p5, u64::MAX, Ghost(e5)) {
        Some(v) => v,
        None => {
            return None;
        },
    };
    let p7 = match eat_lit(s, p6, ",\"memoryUsageMb\":") {
        Some(p) => p,
        None => {
            proof {
                match exp@ {
                    Some(m) => {
                        assert(false);
                    },
                    None => {},
                }
            }
            return None;
        },
    };
    let ghost e7: Option<u64> = match exp@ {
        Some(m) => Some(m.memory_usage_mb),
        None => None,
    };
    let (memory_usage_mb, p8) = match parse_u64_max(s, p7, u64::MAX, Ghost(e7)) {
        Some(v) => v,
        None => {
            return None;
        },
    };
    let p9 = match eat_lit(s, p8, ",\"cpuUsagePercent\":") {
        Some(p) => p,
        None => {
            proof {
                match exp@ {
                    Some(m) => {
                        assert(false);
                    },
                    None => {},
                }
            }
            return None;
        },
    };
    let ghost e9: Option<u64> = match exp@ {
        Some(m) => Some(m.cpu_usage_percent),
        None => None,
    };
    let (cpu_usage_percent, p10) = match parse_u64_max(s, p9, u64::MAX, Ghost(e9)) {
        Some(v) => v,
        None => {
            return None;
        },
    };
    let p11 = match eat_lit(s, p10, "}") {
        Some(p) => p,
        None => {
            proof {
                match exp@ {
                    Some(m) => {
                        assert(false);
                    },
                    None => {},
                }
            }
            return None;
        },
    };
    let m = PerformanceMetrics {
        avg_response_time_ms,
        requests_per_second,
        error_rate,
        memory_usage_mb,
        cpu_usage_percent,
    };
    proof {
        assert(s@.subrange(pos as int, p11 as int) =~= metrics_json(m));
    }
    Some((m, p11))
}

/// Consumes the scaling configuration object at `pos`; guaranteed to
/// succeed on the expected object, when the caller supplies it.
#[verifier::rlimit(100)]
fn parse_scaling(s: &str, pos: usize, exp: Ghost<Option<ScalingConfig>>) -> (r: Option<
    (ScalingConfig, usize),
>)
    requires
        s.is_ascii(),
        pos <= s@.len(),
        exp@ matches Some(m) ==> pos + scaling_json(m).len() <= s@.len() && s@.subrange(
            pos as int,
            pos + scaling_json(m).len(),
        ) == scaling_json(m),
    ensures
        r matches Some(v) ==> pos <= v.1 <= s@.len() && s@.subrange(pos as int, v.1 as int)
            == scaling_json(v.0),
        exp@ matches Some(m) ==> (r matches Some(v) && v.1 == pos + scaling_json(m).len()),
{
    proof {
        match exp@ {
            Some(m) => {
                reveal_strlit("{\"autoScaleThreshold\":");
                reveal_strlit(",\"minInstances\":");
                reveal_strlit(",\"maxInstances\":");
                reveal_strlit(",\"scaleUpCooldown\":");
                reveal_strlit(",\"scaleDownCooldown\":");
                reveal_strlit("}");
                let b1 = pos + "{\"autoScaleThreshold\":"@.len();
                let b2 = b1 + dec_digits(m.auto_scale_threshold as nat).len();
                let b3 = b2 + ",\"minInstances\":"@.len();
                let b4 = b3 + dec_digits(m.min_instances as nat).len();
                let b5 = b4 + ",\"maxInstances\":"@.len();
                let b6 = b5 + dec_digits(m.max_instances as nat).len();
                let b7 = b6 + ",\"scaleUpCooldown\":"@.len();
                let b8 = b7 + dec_digits(m.scale_up_cooldown as nat).len();
                let b9 = b8 + ",\"scaleDownCooldown\":"@.len();
                let b10 = b9 + dec_digits(m.scale_down_cooldown as nat).len();
                let b11 = b10 + "}"@.len();
                assert(b11 == pos + scaling_json(m).len());
                lemma_span_split(s@, pos as int, b11, "{\"autoScaleThreshold\":"@ + dec_digits(m.auto_scale_threshold as nat) + ",\"minInstances\":"@ + dec_digits(m.min_instances as nat) + ",\"maxInstances\":"@ + dec_digits(m.max_instances as nat) + ",\"scaleUpCooldown\":"@ + dec_digits(m.scale_up_cooldown as nat) + ",\"scaleDownCooldown\":"@ + dec_digits(m.scale_down_cooldown as nat), "}"@);
                lemma_span_split(s@, pos as int, b10, "{\"autoScaleThreshold\":"@ + dec_digits(m.auto_scale_threshold as nat) + ",\"minInstances\":"@ + dec_digits(m.min_instances as nat) + ",\"maxInstances\":"@ + dec_digits(m.max_instances as nat) + ",\"scaleUpCooldown\":"@ + dec_digits(m.scale_up_cooldown as nat) + ",\"scaleDownCooldown\":"@, dec_digits(m.scale_down_cooldown as nat));
                lemma_span_split(s@, pos as int, b9, "{\"autoScaleThreshold\":"@ + dec_digits(m.auto_scale_threshold as nat) + ",\"minInstances\":"@ + dec_digits(m.min_instances as nat) + ",\"maxInstances\":"@ + dec_digits(m.max_instances as nat) + ",\"scaleUpCooldown\":"@ + dec_digits(m.scale_up_cooldown as nat), ",\"scaleDownCooldown\":"@);
                lemma_span_split(s@, pos as int, b8, "{\"autoScaleThreshold\":"@ + dec_digits(m.auto_scale_threshold as nat) + ",\"minInstances\":"@ + dec_digits(m.min_instances as nat) + ",\"maxInstances\":"@ + dec_digits(m.max_instances as nat) + ",\"scaleUpCooldown\":"@, dec_digits(m.scale_up_cooldown as nat));
                lemma_span_split(s@, pos as int, b7, "{\"autoScaleThreshold\":"@ + dec_digits(m.auto_scale_threshold as nat) + ",\"minInstances\":"@ + dec_digits(m.min_instances as nat) + ",\"maxInstances\":"@ + dec_digits(m.max_instances as nat), ",\"scaleUpCooldown\":"@);
                lemma_span_split(s@, pos as int, b6, "{\"autoScaleThreshold\":"@ + dec_digits(m.auto_scale_threshold as nat) + ",\"minInstances\":"@ + dec_digits(m.min_instances as nat) + ",\"maxInstances\":"@, dec_digits(m.max_instances as nat));
                lemma_span_split(s@, pos as int, b5, "{\"autoScaleThreshold\":"@ + dec_digits(m.auto_scale_threshold as nat) + ",\"minInstances\":"@ + dec_digits(m.min_instances as nat), ",\"maxInstances\":"@);
                lemma_span_split(s@, pos as int, b4, "{\"autoScaleThreshold\":"@ + dec_digits(m.auto_scale_threshold as nat) + ",\"minInstances\":"@, dec_digits(m.min_instances as nat));
                lemma_span_split(s@, pos as int, b3, "{\"autoScaleThreshold\":"@ + dec_digits(m.auto_scale_threshold as nat), ",\"minInstances\":"@);
                lemma_span_split(s@, pos as int, b2, "{\"autoScaleThreshold\":"@, dec_digits(m.auto_scale_threshold as nat));
                assert forall|u: int| 0 <= u < dec_digits(m.auto_scale_threshold as nat).len() implies s@[b1 + u] == #[trigger] dec_digits(m.auto_scale_threshold as nat)[u] by {
                    assert(s@.subrange(b1, b2)[u] == dec_digits(m.auto_scale_threshold as nat)[u]);
                }
                assert(s@[b2] == s@.subrange(b2, b3)[0]);
                assert(!dec_char(s@[b2]));
                assert forall|u: int| 0 <= u < dec_digits(m.min_instances as nat).len() implies s@[b3 + u] == #[trigger] dec_digits(m.min_instances as nat)[u] by {
                    assert(s@.subrange(b3, b4)[u] == dec_digits(m.min_instances as nat)[u]);
                }
                assert(s@[b4] == s@.subrange(b4, b5)[0]);
                assert(!dec_char(s@[b4]));
                assert forall|u: int| 0 <= u < dec_digits(m.max_instances as nat).len() implies s@[b5 + u] == #[trigger] dec_digits(m.max_instances as nat)[u] by {
                    assert(s@.subrange(b5, b6)[u] == dec_digits(m.max_instances as nat)[u]);
                }
                assert(s@[b6] == s@.subrange(b6, b7)[0]);
                assert(!dec_char(s@[b6]));
                assert forall|u: int| 0 <= u < dec_digits(m.scale_up_cooldown as nat).len() implies s@[b7 + u] == #[trigger] dec_digits(m.scale_up_cooldown as nat)[u] by {
                    assert(s@.subrange(b7, b8)[u] == dec_digits(m.scale_up_cooldown as nat)[u]);
                }
                assert(s@[b8] == s@.subrange(b8, b9)[0]);
                assert(!dec_char(s@[b8]));
                assert forall|u: int| 0 <= u < dec_digits(m.scale_down_cooldown as nat).len() implies s@[b9 + u] == #[trigger] dec_digits(m.scale_down_cooldown as nat)[u] by {
                    assert(s@.subrange(b9, b10)[u] == dec_digits(m.scale_down_cooldown as nat)[u]);
                }
                assert(s@[b10] == s@.subrange(b10, b11)[0]);
                assert(!dec_char(s@[b10]));
            },
            None => {},
        }
    }
    let p1 = match eat_lit(s, pos, "{\"autoScaleThreshold\":") {
        Some(p) => p,
        None => {
            proof {
                match exp@ {
                    Some(m) => {
                        assert(false);
                    },
                    None => {},
                }
            }
            return None;
        },
    };
    let ghost e1: Option<u32> = match exp@ {
        Some(m) => Some(m.auto_scale_threshold),
        None => None,
    };
    let (auto_scale_threshold, p2) = match parse_u32(s, p1, Ghost(e1)) {
        Some(v) => v,
        None => {
            return None;
        },
    };
    let p3 = match eat_lit(s, p2, ",\"minInstances\":") {
        Some(p) => p,
        None => {
            proof {
                match exp@ {
                    Some(m) => {
                        assert(false);
                    },
                    None => {},
                }
            }
            return None;
        },
    };
    let ghost e3: Option<u32> = match exp@ {
        Some(m) => Some(m.min_instances),
        None => None,
    };
    let (min_instances, p4) = match parse_u32(s, p3, Ghost(e3)) {
        Some(v) => v,
        None => {
            return None;
        },
    };
    let p5 = match eat_lit(s, p4, ",\"maxInstances\":") {
        Some(p) => p,
        None => {
            proof {
                match exp@ {
                    Some(m) => {
                        assert(false);
                    },
                    None => {},
                }
            }
            return None;
        },
    };
    let ghost e5: Option<u32> = match exp@ {
        Some(m) => Some(m.max_instances),
        None => None,
    };
    let (max_instances, p6) = match parse_u32(s, p5, Ghost(e5)) {
        Some(v) => v,
        None => {
            return None;
        },
    };
    let p7 = match eat_lit(s, p6, ",\"scaleUpCooldown\":") {
        Some(p) => p,
        None => {
            proof {
                match exp@ {
                    Some(m) => {
                        assert(false);
                    },
                    None => {},
                }
            }
            return None;
        },
    };
    let ghost e7: Option<u64> = match exp@ {
        Some(m) => Some(m.scale_up_cooldown),
        None => None,
    };
    let (scale_up_cooldown, p8) = match parse_u64_max(s, p7, u64::MAX, Ghost(e7)) {
        Some(v) => v,
        None => {
            return None;
        },
    };
    let p9 = match eat_lit(s, p8, ",\"scaleDownCooldown\":") {
        Some(p) => p,
        None => {
            proof {
                match exp@ {
                    Some(m) => {
                        assert(false);
                    },
                    None => {},
                }
            }
            return None;
        },
    };
    let ghost e9: Option<u64> = match exp@ {
        Some(m) => Some(m.scale_down_cooldown),
        None => None,
    };
    let (scale_down_cooldown, p10) = match parse_u64_max(s, p9, u64::MAX, Ghost(e9)) {
        Some(v) => v,
        None => {
            return None;
        },
    };
    let p11 = match eat_lit(s, p10, "}") {
        Some(p) => p,
        None => {
            proof {
                match exp@ {
                    Some(m) => {
                        assert(false);
                    },
                    None => {},
                }
            }
            return None;
        },
    };
    let c = ScalingConfig {
        auto_scale_threshold,
        min_instances,
        max_instances,
        scale_up_cooldown,
        scale_down_cooldown,
    };
    proof {
        assert(s@.subrange(pos as int, p11 as int) =~= scaling_json(c));
    }
    Some((c, p11))
}


/// JSON-safe text is ASCII.
proof fn lemma_json_safe_ascii(t: Seq<char>)
    requires
        json_safe(t),
    ensures
        vstd::utf8::is_ascii_chars(t),
{
    assert forall|i: int| 0 <= i < t.len() implies '\0' <= #[trigger] t[i] <= '\u{7f}' by {
        assert(json_safe_char(t[i]));
    }
}

/// A quoted JSON-safe string is ASCII.
proof fn lemma_quoted_ascii(x: Seq<char>)
    requires
        json_safe(x),
    ensures
        vstd::utf8::is_ascii_chars(quoted(x)),
{
    broadcast use vstd::utf8::is_ascii_chars_concat;

    reveal_strlit("\"");
    assert(vstd::utf8::is_ascii_chars("\""@));
    lemma_json_safe_ascii(x);
}

/// A decimal rendering is ASCII.
proof fn lemma_dec_ascii(n: nat)
    ensures
        vstd::utf8::is_ascii_chars(dec_digits(n)),
{
    lemma_dec_digits_shape(n);
    assert forall|i: int| 0 <= i < dec_digits(n).len() implies '\0' <= #[trigger] dec_digits(n)[i]
        <= '\u{7f}' by {
        assert(dec_char(dec_digits(n)[i]));
    }
}

/// A decimal rendering is JSON safe.
proof fn lemma_dec_safe(n: nat)
    ensures
        json_safe(dec_digits(n)),
{
    lemma_dec_digits_shape(n);
    assert forall|i: int| 0 <= i < dec_digits(n).len() implies json_safe_char(
        #[trigger] dec_digits(n)[i],
    ) by {
        assert(dec_char(dec_digits(n)[i]));
    }
}

/// The rendered pod items are ASCII.
proof fn lemma_pods_items_ascii(ps: Seq<Seq<char>>)
    requires
        forall|i: int| 0 <= i < ps.len() ==> json_safe(#[trigger] ps[i]),
    ensures
        vstd::utf8::is_ascii_chars(pods_items(ps)),
    decreases ps.len(),
{
    broadcast use vstd::utf8::is_ascii_chars_concat;

    reveal_strlit(",");
    assert(vstd::utf8::is_ascii_chars(","@));
    if ps.len() == 0 {
    } else if ps.len() == 1 {
        lemma_quoted_ascii(ps[0]);
    } else {
        assert(forall|i: int| 0 <= i < ps.drop_last().len() ==> json_safe(
            #[trigger] ps.drop_last()[i],
        ));
        lemma_pods_items_ascii(ps.drop_last());
        lemma_quoted_ascii(ps.last());
    }
}

/// The rendered pod list is ASCII.
proof fn lemma_pods_ascii(ps: Seq<Seq<char>>)
    requires
        forall|i: int| 0 <= i < ps.len() ==> json_safe(#[trigger] ps[i]),
    ensures
        vstd::utf8::is_ascii_chars(pods_json(ps)),
{
    broadcast use vstd::utf8::is_ascii_chars_concat;

    reveal_strlit("[");
    reveal_strlit("]");
    assert(vstd::utf8::is_ascii_chars("["@));
    assert(vstd::utf8::is_ascii_chars("]"@));
    lemma_pods_items_ascii(ps);
}

/// A rendered optional string is ASCII.
proof fn lemma_opt_ascii(o: Option<Seq<char>>)
    requires
        o matches Some(h) ==> json_safe(h),
    ensures
        vstd::utf8::is_ascii_chars(opt_quoted(o)),
{
    reveal_strlit("null");
    match o {
        Some(h) => {
            lemma_quoted_ascii(h);
        },
        None => {
            assert(vstd::utf8::is_ascii_chars("null"@));
        },
    }
}

/// The rendered cluster metadata is ASCII.
proof fn lemma_k8s_ascii(k: KubernetesMetadataV)
    requires
        json_safe(k.namespace),
        json_safe(k.deployment_name),
        json_safe(k.service_name),
        forall|i: int| 0 <= i < k.pod_status.len() ==> json_safe(#[trigger] k.pod_status[i]),
        k.ingress_host matches Some(h) ==> json_safe(h),
    ensures
        vstd::utf8::is_ascii_chars(k8s_json(k)),
{
    broadcast use vstd::utf8::is_ascii_chars_concat;

    reveal_strlit("{\"namespace\":");
    reveal_strlit(",\"deploymentName\":");
    reveal_strlit(",\"serviceName\":");
    reveal_strlit(",\"replicas\":");
    reveal_strlit(",\"podStatus\":");
    reveal_strlit(",\"ingressHost\":");
    reveal_strlit("}");
    assert(vstd::utf8::is_ascii_chars("{\"namespace\":"@));
    assert(vstd::utf8::is_ascii_chars(",\"deploymentName\":"@));
    assert(vstd::utf8::is_ascii_chars(",\"serviceName\":"@));
    assert(vstd::utf8::is_ascii_chars(",\"replicas\":"@));
    assert(vstd::utf8::is_ascii_chars(",\"podStatus\":"@));
    assert(vstd::utf8::is_ascii_chars(",\"ingressHost\":"@));
    assert(vstd::utf8::is_ascii_chars("}"@));
    lemma_quoted_ascii(k.namespace);
    lemma_quoted_ascii(k.deployment_name);
    lemma_quoted_ascii(k.service_name);
    lemma_dec_ascii(k.replicas as nat);
    lemma_pods_ascii(k.pod_status);
    lemma_opt_ascii(k.ingress_host);
}

/// The rendered metrics are ASCII.
proof fn lemma_metrics_ascii(m: PerformanceMetrics)
    ensures
        vstd::utf8::is_ascii_chars(metrics_json(m)),
{
    broadcast use vstd::utf8::is_ascii_chars_concat;

    reveal_strlit("{\"avgResponseTimeMs\":");
    reveal_strlit(",\"requestsPerSecond\":");
    reveal_strlit(",\"errorRate\":");
    reveal_strlit(",\"memoryUsageMb\":");
    reveal_strlit(",\"cpuUsagePercent\":");
    reveal_strlit("}");
    assert(vstd::utf8::is_ascii_chars("{\"avgResponseTimeMs\":"@));
    assert(vstd::utf8::is_ascii_chars(",\"requestsPerSecond\":"@));
    assert(vstd::utf8::is_ascii_chars(",\"errorRate\":"@));
    assert(vstd::utf8::is_ascii_chars(",\"memoryUsageMb\":"@));
    assert(vstd::utf8::is_ascii_chars(",\"cpuUsagePercent\":"@));
    assert(vstd::utf8::is_ascii_chars("}"@));
    lemma_dec_ascii(m.avg_response_time_ms as nat);
    lemma_dec_ascii(m.requests_per_second as nat);
    lemma_dec_ascii(m.error_rate as nat);
    lemma_dec_ascii(m.memory_usage_mb as nat);
    lemma_dec_ascii(m.cpu_usage_percent as nat);
}

/// The rendered scaling configuration is ASCII.
proof fn lemma_scaling_ascii(c: ScalingConfig)
    ensures
        vstd::utf8::is_ascii_chars(scaling_json(c)),
{
    broadcast use vstd::utf8::is_ascii_chars_concat;

    reveal_strlit("{\"autoScaleThreshold\":");
    reveal_strlit(",\"minInstances\":");
    reveal_strlit(",\"maxInstances\":");
    reveal_strlit(",\"scaleUpCooldown\":");
    reveal_strlit(",\"scaleDownCooldown\":");
    reveal_strlit("}");
    assert(vstd::utf8::is_ascii_chars("{\"autoScaleThreshold\":"@));
    assert(vstd::utf8::is_ascii_chars(",\"minInstances\":"@));
    assert(vstd::utf8::is_ascii_chars(",\"maxInstances\":"@));
    assert(vstd::utf8::is_ascii_chars(",\"scaleUpCooldown\":"@));
    assert(vstd::utf8::is_ascii_chars(",\"scaleDownCooldown\":"@));
    assert(vstd::utf8::is_ascii_chars("}"@));
    lemma_dec_ascii(c.auto_scale_threshold as nat);
    lemma_dec_ascii(c.min_instances as nat);
    lemma_dec_ascii(c.max_instances as nat);
    lemma_dec_ascii(c.scale_up_cooldown as nat);
    lemma_dec_ascii(c.scale_down_cooldown as nat);
}

/// A valid name is JSON safe.
proof fn lemma_valid_name_safe(t: Seq<char>)
    requires
        valid_name(t),
    ensures
        json_safe(t),
{
    assert forall|i: int| 0 <= i < t.len() implies json_safe_char(#[trigger] t[i]) by {
        assert(crate::model::name_char(t[i]));
    }
}

/// A supported application type word is JSON safe.
proof fn lemma_supported_type_safe(t: Seq<char>)
    requires
        supported_type(t),
    ensures
        json_safe(t),
{
    reveal_strlit("bun");
    reveal_strlit("node");
    reveal_strlit("nextjs");
    reveal_strlit("react");
    reveal_strlit("vue");
    reveal_strlit("nuxt");
    reveal_strlit("svelte");
    reveal_strlit("angular");
    reveal_strlit("astro");
    reveal_strlit("remix");
    reveal_strlit("mern");
}

/// The persisted document of a well-formed record is ASCII.
proof fn lemma_record_json_ascii(m: AppMetadataV)
    requires
        wf_record(m),
    ensures
        vstd::utf8::is_ascii_chars(record_json(m)),
{
    broadcast use vstd::utf8::is_ascii_chars_concat;

    reveal_strlit("{\"appName\":");
    reveal_strlit(",\"appType\":");
    reveal_strlit(",\"port\":");
    reveal_strlit(",\"createdAt\":");
    reveal_strlit(",\"containerId\":");
    reveal_strlit(",\"status\":");
    reveal_strlit(",\"kubernetesEnabled\":");
    reveal_strlit(",\"kubernetesMetadata\":");
    reveal_strlit(",\"performanceMetrics\":");
    reveal_strlit(",\"scalingConfig\":");
    reveal_strlit("}");
    reveal_strlit("true");
    reveal_strlit("false");
    assert(vstd::utf8::is_ascii_chars("{\"appName\":"@));
    assert(vstd::utf8::is_ascii_chars(",\"appType\":"@));
    assert(vstd::utf8::is_ascii_chars(",\"port\":"@));
    assert(vstd::utf8::is_ascii_chars(",\"createdAt\":"@));
    assert(vstd::utf8::is_ascii_chars(",\"containerId\":"@));
    assert(vstd::utf8::is_ascii_chars(",\"status\":"@));
    assert(vstd::utf8::is_ascii_chars(",\"kubernetesEnabled\":"@));
    assert(vstd::utf8::is_ascii_chars(",\"kubernetesMetadata\":"@));
    assert(vstd::utf8::is_ascii_chars(",\"performanceMetrics\":"@));
    assert(vstd::utf8::is_ascii_chars(",\"scalingConfig\":"@));
    assert(vstd::utf8::is_ascii_chars("}"@));
    assert(vstd::utf8::is_ascii_chars(bool_text(m.kubernetes_enabled)));
    lemma_valid_name_safe(m.app_name);
    lemma_quoted_ascii(m.app_name);
    lemma_supported_type_safe(m.app_type);
    lemma_quoted_ascii(m.app_type);
    lemma_dec_safe(m.port as nat);
    lemma_quoted_ascii(dec_digits(m.port as nat));
    lemma_quoted_ascii(m.created_at);
    lemma_opt_ascii(m.container_id);
    lemma_status_text_safe(m.status);
    lemma_quoted_ascii(status_text(m.status));
    lemma_k8s_ascii(m.kubernetes_metadata);
    lemma_metrics_ascii(m.performance_metrics);
    lemma_scaling_ascii(m.scaling_config);
}


/// Assembling the tiles: when every piece of the document sits at its
/// parsed position, the whole text is the record's rendered document.
#[verifier::rlimit(100)]
#[verifier::spinoff_prover]
proof fn lemma_record_tiles(
    t: Seq<char>,
    rv: AppMetadataV,
    q9: int,
    q10: int,
    q11: int,
    q12: int,
    q13: int,
    q14: int,
    q15: int,
    q16: int,
    q17: int,
    q18: int,
    q19: int,
    q20: int,
)
    requires
        0 <= q9 <= q10 <= q11 <= q12 <= q13 <= q14 <= q15 <= q16 <= q17 <= q18 <= q19 <= q20,
        q20 == t.len(),
        t.subrange(0, q9) == "{\"appName\":"@ + quoted(rv.app_name) + ",\"appType\":"@ + quoted(
            rv.app_type,
        ) + ",\"port\":\""@ + dec_digits(rv.port as nat) + "\",\"createdAt\":"@ + quoted(
            rv.created_at,
        ) + ",\"containerId\":"@ + opt_quoted(rv.container_id),
        t.subrange(q9, q10) == ",\"status\":"@,
        t.subrange(q10, q11) == quoted(status_text(rv.status)),
        t.subrange(q11, q12) == ",\"kubernetesEnabled\":"@,
        t.subrange(q12, q13) == bool_text(rv.kubernetes_enabled),
        t.subrange(q13, q14) == ",\"kubernetesMetadata\":"@,
        t.subrange(q14, q15) == k8s_json(rv.kubernetes_metadata),
        t.subrange(q15, q16) == ",\"performanceMetrics\":"@,
        t.subrange(q16, q17) == metrics_json(rv.performance_metrics),
        t.subrange(q17, q18) == ",\"scalingConfig\":"@,
        t.subrange(q18, q19) == scaling_json(rv.scaling_config),
        t.subrange(q19, q20) == "}"@,
    ensures
        t == record_json(rv),
{
    reveal_strlit("\"");
    reveal_strlit(",\"port\":\"");
    reveal_strlit(",\"port\":");
    reveal_strlit("\",\"createdAt\":");
    reveal_strlit(",\"createdAt\":");
    let mut cov: Seq<char> = "{\"appName\":"@;
    cov = cov + quoted(rv.app_name);
    cov = cov + ",\"appType\":"@;
    cov = cov + quoted(rv.app_type);
    cov = cov + ",\"port\":"@;
    cov = cov + quoted(dec_digits(rv.port as nat));
    cov = cov + ",\"createdAt\":"@;
    cov = cov + quoted(rv.created_at);
    cov = cov + ",\"containerId\":"@;
    cov = cov + opt_quoted(rv.container_id);
    assert(",\"port\":\""@ =~= ",\"port\":"@ + "\""@);
    assert("\",\"createdAt\":"@ =~= "\""@ + ",\"createdAt\":"@);
    assert(cov =~= t.subrange(0, q9));
    cov = cov + ",\"status\":"@;
    cov = cov + quoted(status_text(rv.status));
    assert(cov =~= t.subrange(0, q11));
    cov = cov + ",\"kubernetesEnabled\":"@;
    cov = cov + bool_text(rv.kubernetes_enabled);
    assert(cov =~= t.subrange(0, q13));
    cov = cov + ",\"kubernetesMetadata\":"@;
    cov = cov + k8s_json(rv.kubernetes_metadata);
    assert(cov =~= t.subrange(0, q15));
    cov = cov + ",\"performanceMetrics\":"@;
    cov = cov + metrics_json(rv.performance_metrics);
    assert(cov =~= t.subrange(0, q17));
    cov = cov + ",\"scalingConfig\":"@;
    cov = cov + scaling_json(rv.scaling_config);
    cov = cov + "}"@;
    assert(cov =~= t.subrange(0, q20));
    assert(t =~= t.subrange(0, t.len() as int));
    assert(cov == record_json(rv));
}

/// Establishes where each piece of a well-formed record's document
/// sits, over the caller's boundary offsets.
#[verifier::rlimit(100)]
#[verifier::spinoff_prover]
proof fn lemma_record_layout(t: Seq<char>, m: AppMetadataV, b1: int, b2: int, b3: int, b4: int, b5: int, b6: int, b7: int, b8: int, b9: int, b10: int, b11: int, b12: int, b13: int, b14: int, b15: int, b16: int, b17: int, b18: int, b19: int, b20: int, b21: int)
    requires
        wf_record(m),
        t == record_json(m),
        b1 == "{\"appName\":"@.len(),
        b2 == b1 + quoted(m.app_name).len(),
        b3 == b2 + ",\"appType\":"@.len(),
        b4 == b3 + quoted(m.app_type).len(),
        b5 == b4 + ",\"port\":"@.len(),
        b6 == b5 + quoted(dec_digits(m.port as nat)).len(),
        b7 == b6 + ",\"createdAt\":"@.len(),
        b8 == b7 + quoted(m.created_at).len(),
        b9 == b8 + ",\"containerId\":"@.len(),
        b10 == b9 + opt_quoted(m.container_id).len(),
        b11 == b10 + ",\"status\":"@.len(),
        b12 == b11 + quoted(status_text(m.status)).len(),
        b13 == b12 + ",\"kubernetesEnabled\":"@.len(),
        b14 == b13 + bool_text(m.kubernetes_enabled).len(),
        b15 == b14 + ",\"kubernetesMetadata\":"@.len(),
        b16 == b15 + k8s_json(m.kubernetes_metadata).len(),
        b17 == b16 + ",\"performanceMetrics\":"@.len(),
        b18 == b17 + metrics_json(m.performance_metrics).len(),
        b19 == b18 + ",\"scalingConfig\":"@.len(),
        b20 == b19 + scaling_json(m.scaling_config).len(),
        b21 == b20 + "}"@.len(),
    ensures
        b21 == t.len(),
        t.subrange(0, b1) == "{\"appName\":"@,
        t.subrange(b1, b2) == quoted(m.app_name),
        t.subrange(b2, b3) == ",\"appType\":"@,
        t.subrange(b3, b4) == quoted(m.app_type),
        t.subrange(b4, b5) == ",\"port\":"@,
        t.subrange(b5, b6) == quoted(dec_digits(m.port as nat)),
        t.subrange(b6, b7) == ",\"createdAt\":"@,
        t.subrange(b7, b8) == quoted(m.created_at),
        t.subrange(b8, b9) == ",\"containerId\":"@,
        t.subrange(b9, b10) == opt_quoted(m.container_id),
        t.subrange(b10, b11) == ",\"status\":"@,
        t.subrange(b11, b12) == quoted(status_text(m.status)),
        t.subrange(b12, b13) == ",\"kubernetesEnabled\":"@,
        t.subrange(b13, b14) == bool_text(m.kubernetes_enabled),
        t.subrange(b14, b15) == ",\"kubernetesMetadata\":"@,
        t.subrange(b15, b16) == k8s_json(m.kubernetes_metadata),
        t.subrange(b16, b17) == ",\"performanceMetrics\":"@,
        t.subrange(b17, b18) == metrics_json(m.performance_metrics),
        t.subrange(b18, b19) == ",\"scalingConfig\":"@,
        t.subrange(b19, b20) == scaling_json(m.scaling_config),
        t.subrange(b20, b21) == "}"@,
        t.subrange(b4, b5 + 1) == ",\"port\":\""@,
        forall|u: int| 0 <= u < dec_digits(m.port as nat).len() ==> t[b5 + 1 + u]
            == #[trigger] dec_digits(m.port as nat)[u],
        t[b6 - 1] == '"',
        !dec_char(t[b6 - 1]),
        t.subrange(b6 - 1, b7) == "\",\"createdAt\":"@,
        json_safe(m.app_name),
        json_safe(m.app_type),
        json_safe(status_text(m.status)),
        "\""@.len() == 1,
        "null"@.len() == 4,
        ",\"port\":\""@.len() == ",\"port\":"@.len() + 1,
        "\",\"createdAt\":"@.len() == ",\"createdAt\":"@.len() + 1,
{
    reveal_strlit("null");
    reveal_strlit("{\"appName\":");
    reveal_strlit(",\"appType\":");
    reveal_strlit(",\"port\":");
    reveal_strlit(",\"createdAt\":");
    reveal_strlit(",\"containerId\":");
    reveal_strlit(",\"status\":");
    reveal_strlit(",\"kubernetesEnabled\":");
    reveal_strlit(",\"kubernetesMetadata\":");
    reveal_strlit(",\"performanceMetrics\":");
    reveal_strlit(",\"scalingConfig\":");
    reveal_strlit("}");
    reveal_strlit("\"");
    reveal_strlit(",\"port\":\"");
    reveal_strlit("\",\"createdAt\":");
    assert(b21 == record_json(m).len());
    assert(t.subrange(0, b21) =~= record_json(m));
    lemma_span_split(t, 0, b21, "{\"appName\":"@ + quoted(m.app_name) + ",\"appType\":"@ + quoted(m.app_type) + ",\"port\":"@ + quoted(dec_digits(m.port as nat)) + ",\"createdAt\":"@ + quoted(m.created_at) + ",\"containerId\":"@ + opt_quoted(m.container_id) + ",\"status\":"@ + quoted(status_text(m.status)) + ",\"kubernetesEnabled\":"@ + bool_text(m.kubernetes_enabled) + ",\"kubernetesMetadata\":"@ + k8s_json(m.kubernetes_metadata) + ",\"performanceMetrics\":"@ + metrics_json(m.performance_metrics) + ",\"scalingConfig\":"@ + scaling_json(m.scaling_config), "}"@);
    lemma_span_split(t, 0, b20, "{\"appName\":"@ + quoted(m.app_name) + ",\"appType\":"@ + quoted(m.app_type) + ",\"port\":"@ + quoted(dec_digits(m.port as nat)) + ",\"createdAt\":"@ + quoted(m.created_at) + ",\"containerId\":"@ + opt_quoted(m.container_id) + ",\"status\":"@ + quoted(status_text(m.status)) + ",\"kubernetesEnabled\":"@ + bool_text(m.kubernetes_enabled) + ",\"kubernetesMetadata\":"@ + k8s_json(m.kubernetes_metadata) + ",\"performanceMetrics\":"@ + metrics_json(m.performance_metrics) + ",\"scalingConfig\":"@, scaling_json(m.scaling_config));
    lemma_span_split(t, 0, b19, "{\"appName\":"@ + quoted(m.app_name) + ",\"appType\":"@ + quoted(m.app_type) + ",\"port\":"@ + quoted(dec_digits(m.port as nat)) + ",\"createdAt\":"@ + quoted(m.created_at) + ",\"containerId\":"@ + opt_quoted(m.container_id) + ",\"status\":"@ + quoted(status_text(m.status)) + ",\"kubernetesEnabled\":"@ + bool_text(m.kubernetes_enabled) + ",\"kubernetesMetadata\":"@ + k8s_json(m.kubernetes_metadata) + ",\"performanceMetrics\":"@ + metrics_json(m.performance_metrics), ",\"scalingConfig\":"@);
    lemma_span_split(t, 0, b18, "{\"appName\":"@ + quoted(m.app_name) + ",\"appType\":"@ + quoted(m.app_type) + ",\"port\":"@ + quoted(dec_digits(m.port as nat)) + ",\"createdAt\":"@ + quoted(m.created_at) + ",\"containerId\":"@ + opt_quoted(m.container_id) + ",\"status\":"@ + quoted(status_text(m.status)) + ",\"kubernetesEnabled\":"@ + bool_text(m.kubernetes_enabled) + ",\"kubernetesMetadata\":"@ + k8s_json(m.kubernetes_metadata) + ",\"performanceMetrics\":"@, metrics_json(m.performance_metrics));
    lemma_span_split(t, 0, b17, "{\"appName\":"@ + quoted(m.app_name) + ",\"appType\":"@ + quoted(m.app_type) + ",\"port\":"@ + quoted(dec_digits(m.port as nat)) + ",\"createdAt\":"@ + quoted(m.created_at) + ",\"containerId\":"@ + opt_quoted(m.container_id) + ",\"status\":"@ + quoted(status_text(m.status)) + ",\"kubernetesEnabled\":"@ + bool_text(m.kubernetes_enabled) + ",\"kubernetesMetadata\":"@ + k8s_json(m.kubernetes_metadata), ",\"performanceMetrics\":"@);
    lemma_span_split(t, 0, b16, "{\"appName\":"@ + quoted(m.app_name) + ",\"appType\":"@ + quoted(m.app_type) + ",\"port\":"@ + quoted(dec_digits(m.port as nat)) + ",\"createdAt\":"@ + quoted(m.created_at) + ",\"containerId\":"@ + opt_quoted(m.container_id) + ",\"status\":"@ + quoted(status_text(m.status)) + ",\"kubernetesEnabled\":"@ + bool_text(m.kubernetes_enabled) + ",\"kubernetesMetadata\":"@, k8s_json(m.kubernetes_metadata));
    lemma_span_split(t, 0, b15, "{\"appName\":"@ + quoted(m.app_name) + ",\"appType\":"@ + quoted(m.app_type) + ",\"port\":"@ + quoted(dec_digits(m.port as nat)) + ",\"createdAt\":"@ + quoted(m.created_at) + ",\"containerId\":"@ + opt_quoted(m.container_id) + ",\"status\":"@ + quoted(status_text(m.status)) + ",\"kubernetesEnabled\":"@ + bool_text(m.kubernetes_enabled), ",\"kubernetesMetadata\":"@);
    lemma_span_split(t, 0, b14, "{\"appName\":"@ + quoted(m.app_name) + ",\"appType\":"@ + quoted(m.app_type) + ",\"port\":"@ + quoted(dec_digits(m.port as nat)) + ",\"createdAt\":"@ + quoted(m.created_at) + ",\"containerId\":"@ + opt_quoted(m.container_id) + ",\"status\":"@ + quoted(status_text(m.status)) + ",\"kubernetesEnabled\":"@, bool_text(m.kubernetes_enabled));
    lemma_span_split(t, 0, b13, "{\"appName\":"@ + quoted(m.app_name) + ",\"appType\":"@ + quoted(m.app_type) + ",\"port\":"@ + quoted(dec_digits(m.port as nat)) + ",\"createdAt\":"@ + quoted(m.created_at) + ",\"containerId\":"@ + opt_quoted(m.container_id) + ",\"status\":"@ + quoted(status_text(m.status)), ",\"kubernetesEnabled\":"@);
    lemma_span_split(t, 0, b12, "{\"appName\":"@ + quoted(m.app_name) + ",\"appType\":"@ + quoted(m.app_type) + ",\"port\":"@ + quoted(dec_digits(m.port as nat)) + ",\"createdAt\":"@ + quoted(m.created_at) + ",\"containerId\":"@ + opt_quoted(m.container_id) + ",\"status\":"@, quoted(status_text(m.status)));
    lemma_span_split(t, 0, b11, "{\"appName\":"@ + quoted(m.app_name) + ",\"appType\":"@ + quoted(m.app_type) + ",\"port\":"@ + quoted(dec_digits(m.port as nat)) + ",\"createdAt\":"@ + quoted(m.created_at) + ",\"containerId\":"@ + opt_quoted(m.container_id), ",\"status\":"@);
    lemma_span_split(t, 0, b10, "{\"appName\":"@ + quoted(m.app_name) + ",\"appType\":"@ + quoted(m.app_type) + ",\"port\":"@ + quoted(dec_digits(m.port as nat)) + ",\"createdAt\":"@ + quoted(m.created_at) + ",\"containerId\":"@, opt_quoted(m.container_id));
    lemma_span_split(t, 0, b9, "{\"appName\":"@ + quoted(m.app_name) + ",\"appType\":"@ + quoted(m.app_type) + ",\"port\":"@ + quoted(dec_digits(m.port as nat)) + ",\"createdAt\":"@ + quoted(m.created_at), ",\"containerId\":"@);
    lemma_span_split(t, 0, b8, "{\"appName\":"@ + quoted(m.app_name) + ",\"appType\":"@ + quoted(m.app_type) + ",\"port\":"@ + quoted(dec_digits(m.port as nat)) + ",\"createdAt\":"@, quoted(m.created_at));
    lemma_span_split(t, 0, b7, "{\"appName\":"@ + quoted(m.app_name) + ",\"appType\":"@ + quoted(m.app_type) + ",\"port\":"@ + quoted(dec_digits(m.port as nat)), ",\"createdAt\":"@);
    lemma_span_split(t, 0, b6, "{\"appName\":"@ + quoted(m.app_name) + ",\"appType\":"@ + quoted(m.app_type) + ",\"port\":"@, quoted(dec_digits(m.port as nat)));
    lemma_span_split(t, 0, b5, "{\"appName\":"@ + quoted(m.app_name) + ",\"appType\":"@ + quoted(m.app_type), ",\"port\":"@);
    lemma_span_split(t, 0, b4, "{\"appName\":"@ + quoted(m.app_name) + ",\"appType\":"@, quoted(m.app_type));
    lemma_span_split(t, 0, b3, "{\"appName\":"@ + quoted(m.app_name), ",\"appType\":"@);
    lemma_span_split(t, 0, b2, "{\"appName\":"@, quoted(m.app_name));
    lemma_valid_name_safe(m.app_name);
    lemma_supported_type_safe(m.app_type);
    lemma_dec_safe(m.port as nat);
    lemma_status_text_safe(m.status);
    assert(t[b5] == t.subrange(b5, b6)[0]);
    assert(t.subrange(b4, b5 + 1) =~= ",\"port\":\""@);
    assert forall|u: int| 0 <= u < dec_digits(m.port as nat).len() implies t[b5 + 1
        + u] == #[trigger] dec_digits(m.port as nat)[u] by {
        assert(t.subrange(b5, b6)[1 + u] == quoted(dec_digits(m.port as nat))[1 + u]);
    }
    assert(t[b6 - 1] == t.subrange(b5, b6)[dec_digits(m.port as nat).len() as int + 1]);
    assert(t[b6 - 1] == '"');
    assert(!dec_char(t[b6 - 1]));
    assert(t[b6] == t.subrange(b6, b7)[0]);
    assert(t.subrange(b6 - 1, b7) =~= "\",\"createdAt\":"@);
        
}

/// The end of a known span is its start plus the span's length.
proof fn lemma_span_len(t: Seq<char>, lo: int, h: int, x: Seq<char>)
    requires
        0 <= lo <= h <= t.len(),
        t.subrange(lo, h) == x,
    ensures
        h == lo + x.len(),
{
    assert(t.subrange(lo, h).len() == x.len());
}

/// The status words are pairwise distinct.
proof fn lemma_status_text_injective(x: Status, y: Status)
    requires
        status_text(x) == status_text(y),
    ensures
        x == y,
{
    reveal_strlit("Pending");
    reveal_strlit("Initializing");
    reveal_strlit("BuildFailed");
    reveal_strlit("Built");
    reveal_strlit("StartupFailed");
    reveal_strlit("Running");
    reveal_strlit("VerificationFailed");
    reveal_strlit("Verified");
    reveal_strlit("Deploying");
    reveal_strlit("RolloutFailed");
    reveal_strlit("RolledOut");
    match (x, y) {
        (Status::Pending, Status::Pending) => {},
        (Status::Pending, Status::Initializing) => {
            assert("Pending"@.len() == 7);
            assert("Initializing"@.len() == 12);
            assert(false);
        },
        (Status::Pending, Status::BuildFailed) => {
            assert("Pending"@.len() == 7);
            assert("BuildFailed"@.len() == 11);
            assert(false);
        },
        (Status::Pending, Status::Built) => {
            assert("Pending"@.len() == 7);
            assert("Built"@.len() == 5);
            assert(false);
        },
        (Status::Pending, Status::StartupFailed) => {
            assert("Pending"@.len() == 7);
            assert("StartupFailed"@.len() == 13);
            assert(false);
        },
        (Status::Pending, Status::Running) => {
            assert("Pending"@.len() == 7);
            assert("Running"@.len() == 7);
            assert("Pending"@[0] == 'P');
            assert("Running"@[0] == 'R');
            assert(false);
        },
        (Status::Pending, Status::VerificationFailed) => {
            assert("Pending"@.len() == 7);
            assert("VerificationFailed"@.len() == 18);
            assert(false);
        },
        (Status::Pending, Status::Verified) => {
            assert("Pending"@.len() == 7);
            assert("Verified"@.len() == 8);
            assert(false);
        },
        (Status::Pending, Status::Deploying) => {
            assert("Pending"@.len() == 7);
            assert("Deploying"@.len() == 9);
            assert(false);
        },
        (Status::Pending, Status::RolloutFailed) => {
            assert("Pending"@.len() == 7);
            assert("RolloutFailed"@.len() == 13);
            assert(false);
        },
        (Status::Pending, Status::RolledOut) => {
            assert("Pending"@.len() == 7);
            assert("RolledOut"@.len() == 9);
            assert(false);
        },
        (Status::Initializing, Status::Pending) => {
            assert("Initializing"@.len() == 12);
            assert("Pending"@.len() == 7);
            assert(false);
        },
        (Status::Initializing, Status::Initializing) => {},
        (Status::Initializing, Status::BuildFailed) => {
            assert("Initializing"@.len() == 12);
            assert("BuildFailed"@.len() == 11);
            assert(false);
        },
        (Status::Initializing, Status::Built) => {
            assert("Initializing"@.len() == 12);
            assert("Built"@.len() == 5);
            assert(false);
        },
        (Status::Initializing, Status::StartupFailed) => {
            assert("Initializing"@.len() == 12);
            assert("StartupFailed"@.len() == 13);
            assert(false);
        },
        (Status::Initializing, Status::Running) => {
            assert("Initializing"@.len() == 12);
            assert("Running"@.len() == 7);
            assert(false);
        },
        (Status::Initializing, Status::VerificationFailed) => {
            assert("Initializing"@.len() == 12);
            assert("VerificationFailed"@.len() == 18);
            assert(false);
        },
        (Status::Initializing, Status::Verified) => {
            assert("Initializing"@.len() == 12);
            assert("Verified"@.len() == 8);
            assert(false);
        },
        (Status::Initializing, Status::Deploying) => {
            assert("Initializing"@.len() == 12);
            assert("Deploying"@.len() == 9);
            assert(false);
        },
        (Status::Initializing, Status::RolloutFailed) => {
            assert("Initializing"@.len() == 12);
            assert("RolloutFailed"@.len() == 13);
            assert(false);
        },
        (Status::Initializing, Status::RolledOut) => {
            assert("Initializing"@.len() == 12);
            assert("RolledOut"@.len() == 9);
            assert(false);
        },
        (Status::BuildFailed, Status::Pending) => {
            assert("BuildFailed"@.len() == 11);
            assert("Pending"@.len() == 7);
            assert(false);
        },
        (Status::BuildFailed, Status::Initializing) => {
            assert("BuildFailed"@.len() == 11);
            assert("Initializing"@.len() == 12);
            assert(false);
        },
        (Status::BuildFailed, Status::BuildFailed) => {},
        (Status::BuildFailed, Status::Built) => {
            assert("BuildFailed"@.len() == 11);
            assert("Built"@.len() == 5);
            assert(false);
        },
        (Status::BuildFailed, Status::StartupFailed) => {
            assert("BuildFailed"@.len() == 11);
            assert("StartupFailed"@.len() == 13);
            assert(false);
        },
        (Status::BuildFailed, Status::Running) => {
            assert("BuildFailed"@.len() == 11);
            assert("Running"@.len() == 7);
            assert(false);
        },
        (Status::BuildFailed, Status::VerificationFailed) => {
            assert("BuildFailed"@.len() == 11);
            assert("VerificationFailed"@.len() == 18);
            assert(false);
        },
        (Status::BuildFailed, Status::Verified) => {
            assert("BuildFailed"@.len() == 11);
            assert("Verified"@.len() == 8);
            assert(false);
        },
        (Status::BuildFailed, Status::Deploying) => {
            assert("BuildFailed"@.len() == 11);
            assert("Deploying"@.len() == 9);
            assert(false);
        },
        (Status::BuildFailed, Status::RolloutFailed) => {
            assert("BuildFailed"@.len() == 11);
            assert("RolloutFailed"@.len() == 13);
            assert(false);
        },
        (Status::BuildFailed, Status::RolledOut) => {
            assert("BuildFailed"@.len() == 11);
            assert("RolledOut"@.len() == 9);
            assert(false);
        },
        (Status::Built, Status::Pending) => {
            assert("Built"@.len() == 5);
            assert("Pending"@.len() == 7);
            assert(false);
        },
        (Status::Built, Status::Initializing) => {
            assert("Built"@.len() == 5);
            assert("Initializing"@.len() == 12);
            assert(false);
        },
        (Status::Built, Status::BuildFailed) => {
            assert("Built"@.len() == 5);
            assert("BuildFailed"@.len() == 11);
            assert(false);
        },
        (Status::Built, Status::Built) => {},
        (Status::Built, Status::StartupFailed) => {
            assert("Built"@.len() == 5);
            assert("StartupFailed"@.len() == 13);
            assert(false);
        },
        (Status::Built, Status::Running) => {
            assert("Built"@.len() == 5);
            assert("Running"@.len() == 7);
            assert(false);
        },
        (Status::Built, Status::VerificationFailed) => {
            assert("Built"@.len() == 5);
            assert("VerificationFailed"@.len() == 18);
            assert(false);
        },
        (Status::Built, Status::Verified) => {
            assert("Built"@.len() == 5);
            assert("Verified"@.len() == 8);
            assert(false);
        },
        (Status::Built, Status::Deploying) => {
            assert("Built"@.len() == 5);
            assert("Deploying"@.len() == 9);
            assert(false);
        },
        (Status::Built, Status::RolloutFailed) => {
            assert("Built"@.len() == 5);
            assert("RolloutFailed"@.len() == 13);
            assert(false);
        },
        (Status::Built, Status::RolledOut) => {
            assert("Built"@.len() == 5);
            assert("RolledOut"@.len() == 9);
            assert(false);
        },
        (Status::StartupFailed, Status::Pending) => {
            assert("StartupFailed"@.len() == 13);
            assert("Pending"@.len() == 7);
            assert(false);
        },
        (Status::StartupFailed, Status::Initializing) => {
            assert("StartupFailed"@.len() == 13);
            assert("Initializing"@.len() == 12);
            assert(false);
        },
        (Status::StartupFailed, Status::BuildFailed) => {
            assert("StartupFailed"@.len() == 13);
            assert("BuildFailed"@.len() == 11);
            assert(false);
        },
        (Status::StartupFailed, Status::Built) => {
            assert("StartupFailed"@.len() == 13);
            assert("Built"@.len() == 5);
            assert(false);
        },
        (Status::StartupFailed, Status::StartupFailed) => {},
        (Status::StartupFailed, Status::Running) => {
            assert("StartupFailed"@.len() == 13);
            assert("Running"@.len() == 7);
            assert(false);
        },
        (Status::StartupFailed, Status::VerificationFailed) => {
            assert("StartupFailed"@.len() == 13);
            assert("VerificationFailed"@.len() == 18);
            assert(false);
        },
        (Status::StartupFailed, Status::Verified) => {
            assert("StartupFailed"@.len() == 13);
            assert("Verified"@.len() == 8);
            assert(false);
        },
        (Status::StartupFailed, Status::Deploying) => {
            assert("StartupFailed"@.len() == 13);
            assert("Deploying"@.len() == 9);
            assert(false);
        },
        (Status::StartupFailed, Status::RolloutFailed) => {
            assert("StartupFailed"@.len() == 13);
            assert("RolloutFailed"@.len() == 13);
            assert("StartupFailed"@[0] == 'S');
            assert("RolloutFailed"@[0] == 'R');
            assert(false);
        },
        (Status::StartupFailed, Status::RolledOut) => {
            assert("StartupFailed"@.len() == 13);
            assert("RolledOut"@.len() == 9);
            assert(false);
        },
        (Status::Running, Status::Pending) => {
            assert("Running"@.len() == 7);
            assert("Pending"@.len() == 7);
            assert("Running"@[0] == 'R');
            assert("Pending"@[0] == 'P');
            assert(false);
        },
        (Status::Running, Status::Initializing) => {
            assert("Running"@.len() == 7);
            assert("Initializing"@.len() == 12);
            assert(false);
        },
        (Status::Running, Status::BuildFailed) => {
            assert("Running"@.len() == 7);
            assert("BuildFailed"@.len() == 11);
            assert(false);
        },
        (Status::Running, Status::Built) => {
            assert("Running"@.len() == 7);
            assert("Built"@.len() == 5);
            assert(false);
        },
        (Status::Running, Status::StartupFailed) => {
            assert("Running"@.len() == 7);
            assert("StartupFailed"@.len() == 13);
            assert(false);
        },
        (Status::Running, Status::Running) => {},
        (Status::Running, Status::VerificationFailed) => {
            assert("Running"@.len() == 7);
            assert("VerificationFailed"@.len() == 18);
            assert(false);
        },
        (Status::Running, Status::Verified) => {
            assert("Running"@.len() == 7);
            assert("Verified"@.len() == 8);
            assert(false);
        },
        (Status::Running, Status::Deploying) => {
            assert("Running"@.len() == 7);
            assert("Deploying"@.len() == 9);
            assert(false);
        },
        (Status::Running, Status::RolloutFailed) => {
            assert("Running"@.len() == 7);
            assert("RolloutFailed"@.len() == 13);
            assert(false);
        },
        (Status::Running, Status::RolledOut) => {
            assert("Running"@.len() == 7);
            assert("RolledOut"@.len() == 9);
            assert(false);
        },
        (Status::VerificationFailed, Status::Pending) => {
            assert("VerificationFailed"@.len() == 18);
            assert("Pending"@.len() == 7);
            assert(false);
        },
        (Status::VerificationFailed, Status::Initializing) => {
            assert("VerificationFailed"@.len() == 18);
            assert("Initializing"@.len() == 12);
            assert(false);
        },
        (Status::VerificationFailed, Status::BuildFailed) => {
            assert("VerificationFailed"@.len() == 18);
            assert("BuildFailed"@.len() == 11);
            assert(false);
        },
        (Status::VerificationFailed, Status::Built) => {
            assert("VerificationFailed"@.len() == 18);
            assert("Built"@.len() == 5);
            assert(false);
        },
        (Status::VerificationFailed, Status::StartupFailed) => {
            assert("VerificationFailed"@.len() == 18);
            assert("StartupFailed"@.len() == 13);
            assert(false);
        },
        (Status::VerificationFailed, Status::Running) => {
            assert("VerificationFailed"@.len() == 18);
            assert("Running"@.len() == 7);
            assert(false);
        },
        (Status::VerificationFailed, Status::VerificationFailed) => {},
        (Status::VerificationFailed, Status::Verified) => {
            assert("VerificationFailed"@.len() == 18);
            assert("Verified"@.len() == 8);
            assert(false);
        },
        (Status::VerificationFailed, Status::Deploying) => {
            assert("VerificationFailed"@.len() == 18);
            assert("Deploying"@.len() == 9);
            assert(false);
        },
        (Status::VerificationFailed, Status::RolloutFailed) => {
            assert("VerificationFailed"@.len() == 18);
            assert("RolloutFailed"@.len() == 13);
            assert(false);
        },
        (Status::VerificationFailed, Status::RolledOut) => {
            assert("VerificationFailed"@.len() == 18);
            assert("RolledOut"@.len() == 9);
            assert(false);
        },
        (Status::Verified, Status::Pending) => {
            assert("Verified"@.len() == 8);
            assert("Pending"@.len() == 7);
            assert(false);
        },
        (Status::Verified, Status::Initializing) => {
            assert("Verified"@.len() == 8);
            assert("Initializing"@.len() == 12);
            assert(false);
        },
        (Status::Verified, Status::BuildFailed) => {
            assert("Verified"@.len() == 8);
            assert("BuildFailed"@.len() == 11);
            assert(false);
        },
        (Status::Verified, Status::Built) => {
            assert("Verified"@.len() == 8);
            assert("Built"@.len() == 5);
            assert(false);
        },
        (Status::Verified, Status::StartupFailed) => {
            assert("Verified"@.len() == 8);
            assert("StartupFailed"@.len() == 13);
            assert(false);
        },
        (Status::Verified, Status::Running) => {
            assert("Verified"@.len() == 8);
            assert("Running"@.len() == 7);
            assert(false);
        },
        (Status::Verified, Status::VerificationFailed) => {
            assert("Verified"@.len() == 8);
            assert("VerificationFailed"@.len() == 18);
            assert(false);
        },
        (Status::Verified, Status::Verified) => {},
        (Status::Verified, Status::Deploying) => {
            assert("Verified"@.len() == 8);
            assert("Deploying"@.len() == 9);
            assert(false);
        },
        (Status::Verified, Status::RolloutFailed) => {
            assert("Verified"@.len() == 8);
            assert("RolloutFailed"@.len() == 13);
            assert(false);
        },
        (Status::Verified, Status::RolledOut) => {
            assert("Verified"@.len() == 8);
            assert("RolledOut"@.len() == 9);
            assert(false);
        },
        (Status::Deploying, Status::Pending) => {
            assert("Deploying"@.len() == 9);
            assert("Pending"@.len() == 7);
            assert(false);
        },
        (Status::Deploying, Status::Initializing) => {
            assert("Deploying"@.len() == 9);
            assert("Initializing"@.len() == 12);
            assert(false);
        },
        (Status::Deploying, Status::BuildFailed) => {
            assert("Deploying"@.len() == 9);
            assert("BuildFailed"@.len() == 11);
            assert(false);
        },
        (Status::Deploying, Status::Built) => {
            assert("Deploying"@.len() == 9);
            assert("Built"@.len() == 5);
            assert(false);
        },
        (Status::Deploying, Status::StartupFailed) => {
            assert("Deploying"@.len() == 9);
            assert("StartupFailed"@.len() == 13);
            assert(false);
        },
        (Status::Deploying, Status::Running) => {
            assert("Deploying"@.len() == 9);
            assert("Running"@.len() == 7);
            assert(false);
        },
        (Status::Deploying, Status::VerificationFailed) => {
            assert("Deploying"@.len() == 9);
            assert("VerificationFailed"@.len() == 18);
            assert(false);
        },
        (Status::Deploying, Status::Verified) => {
            assert("Deploying"@.len() == 9);
            assert("Verified"@.len() == 8);
            assert(false);
        },
        (Status::Deploying, Status::Deploying) => {},
        (Status::Deploying, Status::RolloutFailed) => {
            assert("Deploying"@.len() == 9);
            assert("RolloutFailed"@.len() == 13);
            assert(false);
        },
        (Status::Deploying, Status::RolledOut) => {
            assert("Deploying"@.len() == 9);
            assert("RolledOut"@.len() == 9);
            assert("Deploying"@[0] == 'D');
            assert("RolledOut"@[0] == 'R');
            assert(false);
        },
        (Status::RolloutFailed, Status::Pending) => {
            assert("RolloutFailed"@.len() == 13);
            assert("Pending"@.len() == 7);
            assert(false);
        },
        (Status::RolloutFailed, Status::Initializing) => {
            assert("RolloutFailed"@.len() == 13);
            assert("Initializing"@.len() == 12);
            assert(false);
        },
        (Status::RolloutFailed, Status::BuildFailed) => {
            assert("RolloutFailed"@.len() == 13);
            assert("BuildFailed"@.len() == 11);
            assert(false);
        },
        (Status::RolloutFailed, Status::Built) => {
            assert("RolloutFailed"@.len() == 13);
            assert("Built"@.len() == 5);
            assert(false);
        },
        (Status::RolloutFailed, Status::StartupFailed) => {
            assert("RolloutFailed"@.len() == 13);
            assert("StartupFailed"@.len() == 13);
            assert("RolloutFailed"@[0] == 'R');
            assert("StartupFailed"@[0] == 'S');
            assert(false);
        },
        (Status::RolloutFailed, Status::Running) => {
            assert("RolloutFailed"@.len() == 13);
            assert("Running"@.len() == 7);
            assert(false);
        },
        (Status::RolloutFailed, Status::VerificationFailed) => {
            assert("RolloutFailed"@.len() == 13);
            assert("VerificationFailed"@.len() == 18);
            assert(false);
        },
        (Status::RolloutFailed, Status::Verified) => {
            assert("RolloutFailed"@.len() == 13);
            assert("Verified"@.len() == 8);
            assert(false);
        },
        (Status::RolloutFailed, Status::Deploying) => {
            assert("RolloutFailed"@.len() == 13);
            assert("Deploying"@.len() == 9);
            assert(false);
        },
        (Status::RolloutFailed, Status::RolloutFailed) => {},
        (Status::RolloutFailed, Status::RolledOut) => {
            assert("RolloutFailed"@.len() == 13);
            assert("RolledOut"@.len() == 9);
            assert(false);
        },
        (Status::RolledOut, Status::Pending) => {
            assert("RolledOut"@.len() == 9);
            assert("Pending"@.len() == 7);
            assert(false);
        },
        (Status::RolledOut, Status::Initializing) => {
            assert("RolledOut"@.len() == 9);
            assert("Initializing"@.len() == 12);
            assert(false);
        },
        (Status::RolledOut, Status::BuildFailed) => {
            assert("RolledOut"@.len() == 9);
            assert("BuildFailed"@.len() == 11);
            assert(false);
        },
        (Status::RolledOut, Status::Built) => {
            assert("RolledOut"@.len() == 9);
            assert("Built"@.len() == 5);
            assert(false);
        },
        (Status::RolledOut, Status::StartupFailed) => {
            assert("RolledOut"@.len() == 9);
            assert("StartupFailed"@.len() == 13);
            assert(false);
        },
        (Status::RolledOut, Status::Running) => {
            assert("RolledOut"@.len() == 9);
            assert("Running"@.len() == 7);
            assert(false);
        },
        (Status::RolledOut, Status::VerificationFailed) => {
            assert("RolledOut"@.len() == 9);
            assert("VerificationFailed"@.len() == 18);
            assert(false);
        },
        (Status::RolledOut, Status::Verified) => {
            assert("RolledOut"@.len() == 9);
            assert("Verified"@.len() == 8);
            assert(false);
        },
        (Status::RolledOut, Status::Deploying) => {
            assert("RolledOut"@.len() == 9);
            assert("Deploying"@.len() == 9);
            assert("RolledOut"@[0] == 'R');
            assert("Deploying"@[0] == 'D');
            assert(false);
        },
        (Status::RolledOut, Status::RolloutFailed) => {
            assert("RolledOut"@.len() == 9);
            assert("RolloutFailed"@.len() == 13);
            assert(false);
        },
        (Status::RolledOut, Status::RolledOut) => {},
    }
}

/// Two quoted JSON-safe strings starting at the same place in the same
/// text are the same string ending at the same place.
proof fn lemma_quoted_at(t: Seq<char>, lo: int, ha: int, hb: int, u: Seq<char>, v: Seq<char>)
    requires
        0 <= lo <= ha <= t.len(),
        lo <= hb <= t.len(),
        json_safe(u),
        json_safe(v),
        t.subrange(lo, ha) == quoted(u),
        t.subrange(lo, hb) == quoted(v),
    ensures
        u == v,
        ha == hb,
{
    reveal_strlit("\"");
    lemma_span_len(t, lo, ha, quoted(u));
    lemma_span_len(t, lo, hb, quoted(v));
    if u.len() < v.len() {
        assert(t[lo + 1 + u.len()] == t.subrange(lo, ha)[1 + u.len() as int]);
        assert(t[lo + 1 + u.len()] == '"');
        assert(t[lo + 1 + u.len()] == t.subrange(lo, hb)[1 + u.len() as int]);
        assert(t[lo + 1 + u.len()] == v[u.len() as int]);
        assert(json_safe_char(v[u.len() as int]));
        assert(false);
    }
    if v.len() < u.len() {
        assert(t[lo + 1 + v.len()] == t.subrange(lo, hb)[1 + v.len() as int]);
        assert(t[lo + 1 + v.len()] == '"');
        assert(t[lo + 1 + v.len()] == t.subrange(lo, ha)[1 + v.len() as int]);
        assert(t[lo + 1 + v.len()] == u[v.len() as int]);
        assert(json_safe_char(u[v.len() as int]));
        assert(false);
    }
    assert forall|i: int| 0 <= i < u.len() implies u[i] == v[i] by {
        assert(t.subrange(lo, ha)[1 + i] == u[i]);
        assert(t.subrange(lo, hb)[1 + i] == v[i]);
    }
    assert(u =~= v);
}

/// Two decimal renderings starting at the same place and both followed by
/// a non-digit render the same number and end at the same place.
proof fn lemma_dec_at(t: Seq<char>, lo: int, ha: int, hb: int, a: nat, b: nat)
    requires
        0 <= lo <= ha <= t.len(),
        lo <= hb <= t.len(),
        t.subrange(lo, ha) == dec_digits(a),
        t.subrange(lo, hb) == dec_digits(b),
        ha == t.len() || !dec_char(t[ha]),
        hb == t.len() || !dec_char(t[hb]),
    ensures
        a == b,
        ha == hb,
{
    lemma_dec_digits_shape(a);
    lemma_dec_digits_shape(b);
    lemma_span_len(t, lo, ha, dec_digits(a));
    lemma_span_len(t, lo, hb, dec_digits(b));
    if ha < hb {
        assert(t[ha] == t.subrange(lo, hb)[ha - lo]);
        assert(dec_char(dec_digits(b)[ha - lo]));
        assert(false);
    }
    if hb < ha {
        assert(t[hb] == t.subrange(lo, ha)[hb - lo]);
        assert(dec_char(dec_digits(a)[hb - lo]));
        assert(false);
    }
    assert(dec_digits(a) =~= dec_digits(b));
    lemma_dec_digits_injective(a, b);
}

/// Two rendered optional strings starting at the same place are the same
/// option ending at the same place.
proof fn lemma_opt_at(
    t: Seq<char>,
    lo: int,
    ha: int,
    hb: int,
    o1: Option<Seq<char>>,
    o2: Option<Seq<char>>,
)
    requires
        0 <= lo <= ha <= t.len(),
        lo <= hb <= t.len(),
        o1 matches Some(h) ==> json_safe(h),
        o2 matches Some(h) ==> json_safe(h),
        t.subrange(lo, ha) == opt_quoted(o1),
        t.subrange(lo, hb) == opt_quoted(o2),
    ensures
        o1 == o2,
        ha == hb,
{
    reveal_strlit("null");
    reveal_strlit("\"");
    lemma_span_len(t, lo, ha, opt_quoted(o1));
    lemma_span_len(t, lo, hb, opt_quoted(o2));
    match (o1, o2) {
        (None, None) => {
            assert(ha == hb);
        },
        (None, Some(h)) => {
            assert(t[lo] == t.subrange(lo, ha)[0]);
            assert(t[lo] == 'n');
            assert(t[lo] == t.subrange(lo, hb)[0]);
            assert(t[lo] == '"');
            assert(false);
        },
        (Some(h), None) => {
            assert(t[lo] == t.subrange(lo, hb)[0]);
            assert(t[lo] == 'n');
            assert(t[lo] == t.subrange(lo, ha)[0]);
            assert(t[lo] == '"');
            assert(false);
        },
        (Some(h1), Some(h2)) => {
            lemma_quoted_at(t, lo, ha, hb, h1, h2);
        },
    }
}

/// Two rendered booleans starting at the same place are the same boolean
/// ending at the same place.
proof fn lemma_bool_at(t: Seq<char>, lo: int, ha: int, hb: int, x: bool, y: bool)
    requires
        0 <= lo <= ha <= t.len(),
        lo <= hb <= t.len(),
        t.subrange(lo, ha) == bool_text(x),
        t.subrange(lo, hb) == bool_text(y),
    ensures
        x == y,
        ha == hb,
{
    reveal_strlit("true");
    reveal_strlit("false");
    lemma_span_len(t, lo, ha, bool_text(x));
    lemma_span_len(t, lo, hb, bool_text(y));
    if x != y {
        assert(t[lo] == t.subrange(lo, ha)[0]);
        assert(t[lo] == t.subrange(lo, hb)[0]);
        assert(false);
    }
}

/// Two rendered pod-item tails starting at the same place hold the same
/// remaining items and end at the same place.
proof fn lemma_items_at(
    t: Seq<char>,
    p: int,
    ea: int,
    eb: int,
    pa: Seq<Seq<char>>,
    ka: int,
    pb: Seq<Seq<char>>,
    kb: int,
)
    requires
        0 <= p <= ea <= t.len(),
        p <= eb <= t.len(),
        0 <= ka <= pa.len(),
        0 <= kb <= pb.len(),
        forall|i: int| 0 <= i < pa.len() ==> json_safe(#[trigger] pa[i]),
        forall|i: int| 0 <= i < pb.len() ==> json_safe(#[trigger] pb[i]),
        t.subrange(p, ea) == pods_items_rest(pa, ka) + "]"@,
        t.subrange(p, eb) == pods_items_rest(pb, kb) + "]"@,
    ensures
        pa.subrange(ka, pa.len() as int) == pb.subrange(kb, pb.len() as int),
        ea == eb,
    decreases pa.len() - ka,
{
    reveal_strlit(",");
    reveal_strlit("]");
    reveal_strlit("\"");
    lemma_span_len(t, p, ea, pods_items_rest(pa, ka) + "]"@);
    lemma_span_len(t, p, eb, pods_items_rest(pb, kb) + "]"@);
    if ka == pa.len() && kb == pb.len() {
        assert(pods_items_rest(pa, ka) =~= Seq::<char>::empty());
        assert(pods_items_rest(pb, kb) =~= Seq::<char>::empty());
        assert(pa.subrange(ka, pa.len() as int) =~= pb.subrange(kb, pb.len() as int));
    } else if ka == pa.len() {
        assert(pods_items_rest(pa, ka) =~= Seq::<char>::empty());
        assert(t[p] == t.subrange(p, ea)[0]);
        assert(t[p] == ']');
        assert(t[p] == t.subrange(p, eb)[0]);
        assert(t[p] == ',');
        assert(false);
    } else if kb == pb.len() {
        assert(pods_items_rest(pb, kb) =~= Seq::<char>::empty());
        assert(t[p] == t.subrange(p, eb)[0]);
        assert(t[p] == ']');
        assert(t[p] == t.subrange(p, ea)[0]);
        assert(t[p] == ',');
        assert(false);
    } else {
        assert(pods_items_rest(pa, ka) == ","@ + quoted(pa[ka]) + pods_items_rest(pa, ka + 1));
        assert(pods_items_rest(pb, kb) == ","@ + quoted(pb[kb]) + pods_items_rest(pb, kb + 1));
        let qa = p + 1 + pa[ka].len() + 2;
        let qb = p + 1 + pb[kb].len() + 2;
        let ra = p + pods_items_rest(pa, ka).len();
        let rb = p + pods_items_rest(pb, kb).len();
        lemma_span_split(t, p, ea, pods_items_rest(pa, ka), "]"@);
        lemma_span_split(t, p, ra, ","@ + quoted(pa[ka]), pods_items_rest(pa, ka + 1));
        lemma_span_split(t, p, qa, ","@, quoted(pa[ka]));
        lemma_span_split(t, p, eb, pods_items_rest(pb, kb), "]"@);
        lemma_span_split(t, p, rb, ","@ + quoted(pb[kb]), pods_items_rest(pb, kb + 1));
        lemma_span_split(t, p, qb, ","@, quoted(pb[kb]));
        lemma_quoted_at(t, p + 1, qa, qb, pa[ka], pb[kb]);
        assert(t.subrange(qa, ea) =~= t.subrange(qa, ra) + t.subrange(ra, ea));
        assert(t.subrange(qa, ea) =~= pods_items_rest(pa, ka + 1) + "]"@);
        assert(t.subrange(qa, eb) =~= t.subrange(qa, rb) + t.subrange(rb, eb));
        assert(t.subrange(qa, eb) =~= pods_items_rest(pb, kb + 1) + "]"@);
        lemma_items_at(t, qa, ea, eb, pa, ka + 1, pb, kb + 1);
        assert(pa.subrange(ka + 1, pa.len() as int).len() == pb.subrange(
            kb + 1,
            pb.len() as int,
        ).len());
        assert forall|i: int| 0 <= i < pa.len() - ka implies pa.subrange(ka, pa.len() as int)[i]
            == pb.subrange(kb, pb.len() as int)[i] by {
            if i > 0 {
                assert(pa.subrange(ka + 1, pa.len() as int)[i - 1] == pb.subrange(
                    kb + 1,
                    pb.len() as int,
                )[i - 1]);
            }
        }
        assert(pa.subrange(ka, pa.len() as int) =~= pb.subrange(kb, pb.len() as int));
    }
}

/// Two rendered pod lists starting at the same place are the same list
/// ending at the same place.
proof fn lemma_pods_at(
    t: Seq<char>,
    lo: int,
    ha: int,
    hb: int,
    pa: Seq<Seq<char>>,
    pb: Seq<Seq<char>>,
)
    requires
        0 <= lo <= ha <= t.len(),
        lo <= hb <= t.len(),
        forall|i: int| 0 <= i < pa.len() ==> json_safe(#[trigger] pa[i]),
        forall|i: int| 0 <= i < pb.len() ==> json_safe(#[trigger] pb[i]),
        t.subrange(lo, ha) == pods_json(pa),
        t.subrange(lo, hb) == pods_json(pb),
    ensures
        pa == pb,
        ha == hb,
{
    reveal_strlit("[");
    reveal_strlit("]");
    reveal_strlit("\"");
    lemma_span_len(t, lo, ha, pods_json(pa));
    lemma_span_len(t, lo, hb, pods_json(pb));
    if pa.len() == 0 && pb.len() == 0 {
        assert(pods_items(pa) =~= Seq::<char>::empty());
        assert(pods_items(pb) =~= Seq::<char>::empty());
        assert(pa =~= pb);
        assert(t.subrange(lo, ha).len() == 2);
        assert(t.subrange(lo, hb).len() == 2);
    } else if pa.len() == 0 {
        lemma_items_cons(pb);
        assert(pods_items(pa) =~= Seq::<char>::empty());
        assert(t[lo + 1] == t.subrange(lo, ha)[1]);
        assert(t[lo + 1] == ']');
        assert(t[lo + 1] == t.subrange(lo, hb)[1]);
        assert(t[lo + 1] == '"');
        assert(false);
    } else if pb.len() == 0 {
        lemma_items_cons(pa);
        assert(pods_items(pb) =~= Seq::<char>::empty());
        assert(t[lo + 1] == t.subrange(lo, hb)[1]);
        assert(t[lo + 1] == ']');
        assert(t[lo + 1] == t.subrange(lo, ha)[1]);
        assert(t[lo + 1] == '"');
        assert(false);
    } else {
        lemma_items_cons(pa);
        lemma_items_cons(pb);
        let qa = lo + 1 + pa[0].len() + 2;
        let qb = lo + 1 + pb[0].len() + 2;
        let ra = lo + 1 + pods_items(pa).len();
        let rb = lo + 1 + pods_items(pb).len();
        lemma_span_split(t, lo, ha, "["@ + pods_items(pa), "]"@);
        lemma_span_split(t, lo, ra, "["@, pods_items(pa));
        lemma_span_split(t, lo + 1, ra, quoted(pa[0]), pods_items_rest(pa, 1));
        lemma_span_split(t, lo, hb, "["@ + pods_items(pb), "]"@);
        lemma_span_split(t, lo, rb, "["@, pods_items(pb));
        lemma_span_split(t, lo + 1, rb, quoted(pb[0]), pods_items_rest(pb, 1));
        lemma_quoted_at(t, lo + 1, qa, qb, pa[0], pb[0]);
        assert(t.subrange(qa, ha) =~= t.subrange(qa, ra) + t.subrange(ra, ha));
        assert(t.subrange(qa, ha) =~= pods_items_rest(pa, 1) + "]"@);
        assert(t.subrange(qa, hb) =~= t.subrange(qa, rb) + t.subrange(rb, hb));
        assert(t.subrange(qa, hb) =~= pods_items_rest(pb, 1) + "]"@);
        lemma_items_at(t, qa, ha, hb, pa, 1, pb, 1);
        assert(pa.subrange(1, pa.len() as int) == pb.subrange(1, pb.len() as int));
        assert(pa =~= pb) by {
            assert forall|i: int| 0 <= i < pa.len() implies pa[i] == pb[i] by {
                if i >= 1 {
                    assert(pa.subrange(1, pa.len() as int)[i - 1] == pb.subrange(
                        1,
                        pb.len() as int,
                    )[i - 1]);
                }
            }
        }
    }
}

/// Two rendered metrics objects starting at the same place are equal and
/// end at the same place.
#[verifier::rlimit(100)]
#[verifier::spinoff_prover]
proof fn lemma_metrics_at(t: Seq<char>, lo: int, ha: int, hb: int, m1: PerformanceMetrics, m2: PerformanceMetrics)
    requires
        0 <= lo <= ha <= t.len(),
        lo <= hb <= t.len(),
        t.subrange(lo, ha) == metrics_json(m1),
        t.subrange(lo, hb) == metrics_json(m2),
    ensures
        m1 == m2,
        ha == hb,
{
    reveal_strlit("{\"avgResponseTimeMs\":");
    reveal_strlit(",\"requestsPerSecond\":");
    reveal_strlit(",\"errorRate\":");
    reveal_strlit(",\"memoryUsageMb\":");
    reveal_strlit(",\"cpuUsagePercent\":");
    reveal_strlit("}");
    lemma_span_len(t, lo, ha, metrics_json(m1));
    lemma_span_len(t, lo, hb, metrics_json(m2));
    let c1 = lo + "{\"avgResponseTimeMs\":"@.len();
    let c2 = c1 + dec_digits(m1.avg_response_time_ms as nat).len();
    let c3 = c2 + ",\"requestsPerSecond\":"@.len();
    let c4 = c3 + dec_digits(m1.requests_per_second as nat).len();
    let c5 = c4 + ",\"errorRate\":"@.len();
    let c6 = c5 + dec_digits(m1.error_rate as nat).len();
    let c7 = c6 + ",\"memoryUsageMb\":"@.len();
    let c8 = c7 + dec_digits(m1.memory_usage_mb as nat).len();
    let c9 = c8 + ",\"cpuUsagePercent\":"@.len();
    let c10 = c9 + dec_digits(m1.cpu_usage_percent as nat).len();
    let c11 = c10 + "}"@.len();
    lemma_span_split(t, lo, c11, "{\"avgResponseTimeMs\":"@ + dec_digits(m1.avg_response_time_ms as nat) + ",\"requestsPerSecond\":"@ + dec_digits(m1.requests_per_second as nat) + ",\"errorRate\":"@ + dec_digits(m1.error_rate as nat) + ",\"memoryUsageMb\":"@ + dec_digits(m1.memory_usage_mb as nat) + ",\"cpuUsagePercent\":"@ + dec_digits(m1.cpu_usage_percent as nat), "}"@);
    lemma_span_split(t, lo, c10, "{\"avgResponseTimeMs\":"@ + dec_digits(m1.avg_response_time_ms as nat) + ",\"requestsPerSecond\":"@ + dec_digits(m1.requests_per_second as nat) + ",\"errorRate\":"@ + dec_digits(m1.error_rate as nat) + ",\"memoryUsageMb\":"@ + dec_digits(m1.memory_usage_mb as nat) + ",\"cpuUsagePercent\":"@, dec_digits(m1.cpu_usage_percent as nat));
    lemma_span_split(t, lo, c9, "{\"avgResponseTimeMs\":"@ + dec_digits(m1.avg_response_time_ms as nat) + ",\"requestsPerSecond\":"@ + dec_digits(m1.requests_per_second as nat) + ",\"errorRate\":"@ + dec_digits(m1.error_rate as nat) + ",\"memoryUsageMb\":"@ + dec_digits(m1.memory_usage_mb as nat), ",\"cpuUsagePercent\":"@);
    lemma_span_split(t, lo, c8, "{\"avgResponseTimeMs\":"@ + dec_digits(m1.avg_response_time_ms as nat) + ",\"requestsPerSecond\":"@ + dec_digits(m1.requests_per_second as nat) + ",\"errorRate\":"@ + dec_digits(m1.error_rate as nat) + ",\"memoryUsageMb\":"@, dec_digits(m1.memory_usage_mb as nat));
    lemma_span_split(t, lo, c7, "{\"avgResponseTimeMs\":"@ + dec_digits(m1.avg_response_time_ms as nat) + ",\"requestsPerSecond\":"@ + dec_digits(m1.requests_per_second as nat) + ",\"errorRate\":"@ + dec_digits(m1.error_rate as nat), ",\"memoryUsageMb\":"@);
    lemma_span_split(t, lo, c6, "{\"avgResponseTimeMs\":"@ + dec_digits(m1.avg_response_time_ms as nat) + ",\"requestsPerSecond\":"@ + dec_digits(m1.requests_per_second as nat) + ",\"errorRate\":"@, dec_digits(m1.error_rate as nat));
    lemma_span_split(t, lo, c5, "{\"avgResponseTimeMs\":"@ + dec_digits(m1.avg_response_time_ms as nat) + ",\"requestsPerSecond\":"@ + dec_digits(m1.requests_per_second as nat), ",\"errorRate\":"@);
    lemma_span_split(t, lo, c4, "{\"avgResponseTimeMs\":"@ + dec_digits(m1.avg_response_time_ms as nat) + ",\"requestsPerSecond\":"@, dec_digits(m1.requests_per_second as nat));
    lemma_span_split(t, lo, c3, "{\"avgResponseTimeMs\":"@ + dec_digits(m1.avg_response_time_ms as nat), ",\"requestsPerSecond\":"@);
    lemma_span_split(t, lo, c2, "{\"avgResponseTimeMs\":"@, dec_digits(m1.avg_response_time_ms as nat));
    let d1 = lo + "{\"avgResponseTimeMs\":"@.len();
    let d2 = d1 + dec_digits(m2.avg_response_time_ms as nat).len();
    let d3 = d2 + ",\"requestsPerSecond\":"@.len();
    let d4 = d3 + dec_digits(m2.requests_per_second as nat).len();
    let d5 = d4 + ",\"errorRate\":"@.len();
    let d6 = d5 + dec_digits(m2.error_rate as nat).len();
    let d7 = d6 + ",\"memoryUsageMb\":"@.len();
    let d8 = d7 + dec_digits(m2.memory_usage_mb as nat).len();
    let d9 = d8 + ",\"cpuUsagePercent\":"@.len();
    let d10 = d9 + dec_digits(m2.cpu_usage_percent as nat).len();
    let d11 = d10 + "}"@.len();
    lemma_span_split(t, lo, d11, "{\"avgResponseTimeMs\":"@ + dec_digits(m2.avg_response_time_ms as nat) + ",\"requestsPerSecond\":"@ + dec_digits(m2.requests_per_second as nat) + ",\"errorRate\":"@ + dec_digits(m2.error_rate as nat) + ",\"memoryUsageMb\":"@ + dec_digits(m2.memory_usage_mb as nat) + ",\"cpuUsagePercent\":"@ + dec_digits(m2.cpu_usage_percent as nat), "}"@);
    lemma_span_split(t, lo, d10, "{\"avgResponseTimeMs\":"@ + dec_digits(m2.avg_response_time_ms as nat) + ",\"requestsPerSecond\":"@ + dec_digits(m2.requests_per_second as nat) + ",\"errorRate\":"@ + dec_digits(m2.error_rate as nat) + ",\"memoryUsageMb\":"@ + dec_digits(m2.memory_usage_mb as nat) + ",\"cpuUsagePercent\":"@, dec_digits(m2.cpu_usage_percent as nat));
    lemma_span_split(t, lo, d9, "{\"avgResponseTimeMs\":"@ + dec_digits(m2.avg_response_time_ms as nat) + ",\"requestsPerSecond\":"@ + dec_digits(m2.requests_per_second as nat) + ",\"errorRate\":"@ + dec_digits(m2.error_rate as nat) + ",\"memoryUsageMb\":"@ + dec_digits(m2.memory_usage_mb as nat), ",\"cpuUsagePercent\":"@);
    lemma_span_split(t, lo, d8, "{\"avgResponseTimeMs\":"@ + dec_digits(m2.avg_response_time_ms as nat) + ",\"requestsPerSecond\":"@ + dec_digits(m2.requests_per_second as nat) + ",\"errorRate\":"@ + dec_digits(m2.error_rate as nat) + ",\"memoryUsageMb\":"@, dec_digits(m2.memory_usage_mb as nat));
    lemma_span_split(t, lo, d7, "{\"avgResponseTimeMs\":"@ + dec_digits(m2.avg_response_time_ms as nat) + ",\"requestsPerSecond\":"@ + dec_digits(m2.requests_per_second as nat) + ",\"errorRate\":"@ + dec_digits(m2.error_rate as nat), ",\"memoryUsageMb\":"@);
    lemma_span_split(t, lo, d6, "{\"avgResponseTimeMs\":"@ + dec_digits(m2.avg_response_time_ms as nat) + ",\"requestsPerSecond\":"@ + dec_digits(m2.requests_per_second as nat) + ",\"errorRate\":"@, dec_digits(m2.error_rate as nat));
    lemma_span_split(t, lo, d5, "{\"avgResponseTimeMs\":"@ + dec_digits(m2.avg_response_time_ms as nat) + ",\"requestsPerSecond\":"@ + dec_digits(m2.requests_per_second as nat), ",\"errorRate\":"@);
    lemma_span_split(t, lo, d4, "{\"avgResponseTimeMs\":"@ + dec_digits(m2.avg_response_time_ms as nat) + ",\"requestsPerSecond\":"@, dec_digits(m2.requests_per_second as nat));
    lemma_span_split(t, lo, d3, "{\"avgResponseTimeMs\":"@ + dec_digits(m2.avg_response_time_ms as nat), ",\"requestsPerSecond\":"@);
    lemma_span_split(t, lo, d2, "{\"avgResponseTimeMs\":"@, dec_digits(m2.avg_response_time_ms as nat));
    assert(t[c2] == t.subrange(c2, c3)[0]);
    assert(!dec_char(t[c2]));
    assert(t[d2] == t.subrange(d2, d3)[0]);
    assert(!dec_char(t[d2]));
    lemma_dec_at(t, c1, c2, d2, m1.avg_response_time_ms as nat, m2.avg_response_time_ms as nat);
    assert(t[c4] == t.subrange(c4, c5)[0]);
    assert(!dec_char(t[c4]));
    assert(t[d4] == t.subrange(d4, d5)[0]);
    assert(!dec_char(t[d4]));
    lemma_dec_at(t, c3, c4, d4, m1.requests_per_second as nat, m2.requests_per_second as nat);
    assert(t[c6] == t.subrange(c6, c7)[0]);
    assert(!dec_char(t[c6]));
    assert(t[d6] == t.subrange(d6, d7)[0]);
    assert(!dec_char(t[d6]));
    lemma_dec_at(t, c5, c6, d6, m1.error_rate as nat, m2.error_rate as nat);
    assert(t[c8] == t.subrange(c8, c9)[0]);
    assert(!dec_char(t[c8]));
    assert(t[d8] == t.subrange(d8, d9)[0]);
    assert(!dec_char(t[d8]));
    lemma_dec_at(t, c7, c8, d8, m1.memory_usage_mb as nat, m2.memory_usage_mb as nat);
    assert(t[c10] == t.subrange(c10, c11)[0]);
    assert(!dec_char(t[c10]));
    assert(t[d10] == t.subrange(d10, d11)[0]);
    assert(!dec_char(t[d10]));
    lemma_dec_at(t, c9, c10, d10, m1.cpu_usage_percent as nat, m2.cpu_usage_percent as nat);
    assert(m1 == m2);
}

/// Two rendered scaling objects starting at the same place are equal and
/// end at the same place.
#[verifier::rlimit(100)]
#[verifier::spinoff_prover]
proof fn lemma_scaling_at(t: Seq<char>, lo: int, ha: int, hb: int, m1: ScalingConfig, m2: ScalingConfig)
    requires
        0 <= lo <= ha <= t.len(),
        lo <= hb <= t.len(),
        t.subrange(lo, ha) == scaling_json(m1),
        t.subrange(lo, hb) == scaling_json(m2),
    ensures
        m1 == m2,
        ha == hb,
{
    reveal_strlit("{\"autoScaleThreshold\":");
    reveal_strlit(",\"minInstances\":");
    reveal_strlit(",\"maxInstances\":");
    reveal_strlit(",\"scaleUpCooldown\":");
    reveal_strlit(",\"scaleDownCooldown\":");
    reveal_strlit("}");
    lemma_span_len(t, lo, ha, scaling_json(m1));
    lemma_span_len(t, lo, hb, scaling_json(m2));
    let c1 = lo + "{\"autoScaleThreshold\":"@.len();
    let c2 = c1 + dec_digits(m1.auto_scale_threshold as nat).len();
    let c3 = c2 + ",\"minInstances\":"@.len();
    let c4 = c3 + dec_digits(m1.min_instances as nat).len();
    let c5 = c4 + ",\"maxInstances\":"@.len();
    let c6 = c5 + dec_digits(m1.max_instances as nat).len();
    let c7 = c6 + ",\"scaleUpCooldown\":"@.len();
    let c8 = c7 + dec_digits(m1.scale_up_cooldown as nat).len();
    let c9 = c8 + ",\"scaleDownCooldown\":"@.len();
    let c10 = c9 + dec_digits(m1.scale_down_cooldown as nat).len();
    let c11 = c10 + "}"@.len();
    lemma_span_split(t, lo, c11, "{\"autoScaleThreshold\":"@ + dec_digits(m1.auto_scale_threshold as nat) + ",\"minInstances\":"@ + dec_digits(m1.min_instances as nat) + ",\"maxInstances\":"@ + dec_digits(m1.max_instances as nat) + ",\"scaleUpCooldown\":"@ + dec_digits(m1.scale_up_cooldown as nat) + ",\"scaleDownCooldown\":"@ + dec_digits(m1.scale_down_cooldown as nat), "}"@);
    lemma_span_split(t, lo, c10, "{\"autoScaleThreshold\":"@ + dec_digits(m1.auto_scale_threshold as nat) + ",\"minInstances\":"@ + dec_digits(m1.min_instances as nat) + ",\"maxInstances\":"@ + dec_digits(m1.max_instances as nat) + ",\"scaleUpCooldown\":"@ + dec_digits(m1.scale_up_cooldown as nat) + ",\"scaleDownCooldown\":"@, dec_digits(m1.scale_down_cooldown as nat));
    lemma_span_split(t, lo, c9, "{\"autoScaleThreshold\":"@ + dec_digits(m1.auto_scale_threshold as nat) + ",\"minInstances\":"@ + dec_digits(m1.min_instances as nat) + ",\"maxInstances\":"@ + dec_digits(m1.max_instances as nat) + ",\"scaleUpCooldown\":"@ + dec_digits(m1.scale_up_cooldown as nat), ",\"scaleDownCooldown\":"@);
    lemma_span_split(t, lo, c8, "{\"autoScaleThreshold\":"@ + dec_digits(m1.auto_scale_threshold as nat) + ",\"minInstances\":"@ + dec_digits(m1.min_instances as nat) + ",\"maxInstances\":"@ + dec_digits(m1.max_instances as nat) + ",\"scaleUpCooldown\":"@, dec_digits(m1.scale_up_cooldown as nat));
    lemma_span_split(t, lo, c7, "{\"autoScaleThreshold\":"@ + dec_digits(m1.auto_scale_threshold as nat) + ",\"minInstances\":"@ + dec_digits(m1.min_instances as nat) + ",\"maxInstances\":"@ + dec_digits(m1.max_instances as nat), ",\"scaleUpCooldown\":"@);
    lemma_span_split(t, lo, c6, "{\"autoScaleThreshold\":"@ + dec_digits(m1.auto_scale_threshold as nat) + ",\"minInstances\":"@ + dec_digits(m1.min_instances as nat) + ",\"maxInstances\":"@, dec_digits(m1.max_instances as nat));
    lemma_span_split(t, lo, c5, "{\"autoScaleThreshold\":"@ + dec_digits(m1.auto_scale_threshold as nat) + ",\"minInstances\":"@ + dec_digits(m1.min_instances as nat), ",\"maxInstances\":"@);
    lemma_span_split(t, lo, c4, "{\"autoScaleThreshold\":"@ + dec_digits(m1.auto_scale_threshold as nat) + ",\"minInstances\":"@, dec_digits(m1.min_instances as nat));
    lemma_span_split(t, lo, c3, "{\"autoScaleThreshold\":"@ + dec_digits(m1.auto_scale_threshold as nat), ",\"minInstances\":"@);
    lemma_span_split(t, lo, c2, "{\"autoScaleThreshold\":"@, dec_digits(m1.auto_scale_threshold as nat));
    let d1 = lo + "{\"autoScaleThreshold\":"@.len();
    let d2 = d1 + dec_digits(m2.auto_scale_threshold as nat).len();
    let d3 = d2 + ",\"minInstances\":"@.len();
    let d4 = d3 + dec_digits(m2.min_instances as nat).len();
    let d5 = d4 + ",\"maxInstances\":"@.len();
    let d6 = d5 + dec_digits(m2.max_instances as nat).len();
    let d7 = d6 + ",\"scaleUpCooldown\":"@.len();
    let d8 = d7 + dec_digits(m2.scale_up_cooldown as nat).len();
    let d9 = d8 + ",\"scaleDownCooldown\":"@.len();
    let d10 = d9 + dec_digits(m2.scale_down_cooldown as nat).len();
    let d11 = d10 + "}"@.len();
    lemma_span_split(t, lo, d11, "{\"autoScaleThreshold\":"@ + dec_digits(m2.auto_scale_threshold as nat) + ",\"minInstances\":"@ + dec_digits(m2.min_instances as nat) + ",\"maxInstances\":"@ + dec_digits(m2.max_instances as nat) + ",\"scaleUpCooldown\":"@ + dec_digits(m2.scale_up_cooldown as nat) + ",\"scaleDownCooldown\":"@ + dec_digits(m2.scale_down_cooldown as nat), "}"@);
    lemma_span_split(t, lo, d10, "{\"autoScaleThreshold\":"@ + dec_digits(m2.auto_scale_threshold as nat) + ",\"minInstances\":"@ + dec_digits(m2.min_instances as nat) + ",\"maxInstances\":"@ + dec_digits(m2.max_instances as nat) + ",\"scaleUpCooldown\":"@ + dec_digits(m2.scale_up_cooldown as nat) + ",\"scaleDownCooldown\":"@, dec_digits(m2.scale_down_cooldown as nat));
    lemma_span_split(t, lo, d9, "{\"autoScaleThreshold\":"@ + dec_digits(m2.auto_scale_threshold as nat) + ",\"minInstances\":"@ + dec_digits(m2.min_instances as nat) + ",\"maxInstances\":"@ + dec_digits(m2.max_instances as nat) + ",\"scaleUpCooldown\":"@ + dec_digits(m2.scale_up_cooldown as nat), ",\"scaleDownCooldown\":"@);
    lemma_span_split(t, lo, d8, "{\"autoScaleThreshold\":"@ + dec_digits(m2.auto_scale_threshold as nat) + ",\"minInstances\":"@ + dec_digits(m2.min_instances as nat) + ",\"maxInstances\":"@ + dec_digits(m2.max_instances as nat) + ",\"scaleUpCooldown\":"@, dec_digits(m2.scale_up_cooldown as nat));
    lemma_span_split(t, lo, d7, "{\"autoScaleThreshold\":"@ + dec_digits(m2.auto_scale_threshold as nat) + ",\"minInstances\":"@ + dec_digits(m2.min_instances as nat) + ",\"maxInstances\":"@ + dec_digits(m2.max_instances as nat), ",\"scaleUpCooldown\":"@);
    lemma_span_split(t, lo, d6, "{\"autoScaleThreshold\":"@ + dec_digits(m2.auto_scale_threshold as nat) + ",\"minInstances\":"@ + dec_digits(m2.min_instances as nat) + ",\"maxInstances\":"@, dec_digits(m2.max_instances as nat));
    lemma_span_split(t, lo, d5, "{\"autoScaleThreshold\":"@ + dec_digits(m2.auto_scale_threshold as nat) + ",\"minInstances\":"@ + dec_digits(m2.min_instances as nat), ",\"maxInstances\":"@);
    lemma_span_split(t, lo, d4, "{\"autoScaleThreshold\":"@ + dec_digits(m2.auto_scale_threshold as nat) + ",\"minInstances\":"@, dec_digits(m2.min_instances as nat));
    lemma_span_split(t, lo, d3, "{\"autoScaleThreshold\":"@ + dec_digits(m2.auto_scale_threshold as nat), ",\"minInstances\":"@);
    lemma_span_split(t, lo, d2, "{\"autoScaleThreshold\":"@, dec_digits(m2.auto_scale_threshold as nat));
    assert(t[c2] == t.subrange(c2, c3)[0]);
    assert(!dec_char(t[c2]));
    assert(t[d2] == t.subrange(d2, d3)[0]);
    assert(!dec_char(t[d2]));
    lemma_dec_at(t, c1, c2, d2, m1.auto_scale_threshold as nat, m2.auto_scale_threshold as nat);
    assert(t[c4] == t.subrange(c4, c5)[0]);
    assert(!dec_char(t[c4]));
    assert(t[d4] == t.subrange(d4, d5)[0]);
    assert(!dec_char(t[d4]));
    lemma_dec_at(t, c3, c4, d4, m1.min_instances as nat, m2.min_instances as nat);
    assert(t[c6] == t.subrange(c6, c7)[0]);
    assert(!dec_char(t[c6]));
    assert(t[d6] == t.subrange(d6, d7)[0]);
    assert(!dec_char(t[d6]));
    lemma_dec_at(t, c5, c6, d6, m1.max_instances as nat, m2.max_instances as nat);
    assert(t[c8] == t.subrange(c8, c9)[0]);
    assert(!dec_char(t[c8]));
    assert(t[d8] == t.subrange(d8, d9)[0]);
    assert(!dec_char(t[d8]));
    lemma_dec_at(t, c7, c8, d8, m1.scale_up_cooldown as nat, m2.scale_up_cooldown as nat);
    assert(t[c10] == t.subrange(c10, c11)[0]);
    assert(!dec_char(t[c10]));
    assert(t[d10] == t.subrange(d10, d11)[0]);
    assert(!dec_char(t[d10]));
    lemma_dec_at(t, c9, c10, d10, m1.scale_down_cooldown as nat, m2.scale_down_cooldown as nat);
    assert(m1 == m2);
}

/// Two rendered k8s objects starting at the same place are equal and
/// end at the same place.
#[verifier::rlimit(100)]
#[verifier::spinoff_prover]
proof fn lemma_k8s_at(t: Seq<char>, lo: int, ha: int, hb: int, m1: KubernetesMetadataV, m2: KubernetesMetadataV)
    requires
        0 <= lo <= ha <= t.len(),
        lo <= hb <= t.len(),
        json_safe(m1.namespace) && json_safe(m1.deployment_name) && json_safe(
            m1.service_name,
        ) && (forall|i: int| 0 <= i < m1.pod_status.len() ==> json_safe(
            #[trigger] m1.pod_status[i],
        )) && (m1.ingress_host matches Some(h) ==> json_safe(h)),
        json_safe(m2.namespace) && json_safe(m2.deployment_name) && json_safe(
            m2.service_name,
        ) && (forall|i: int| 0 <= i < m2.pod_status.len() ==> json_safe(
            #[trigger] m2.pod_status[i],
        )) && (m2.ingress_host matches Some(h) ==> json_safe(h)),
        t.subrange(lo, ha) == k8s_json(m1),
        t.subrange(lo, hb) == k8s_json(m2),
    ensures
        m1 == m2,
        ha == hb,
{
    reveal_strlit("{\"namespace\":");
    reveal_strlit(",\"deploymentName\":");
    reveal_strlit(",\"serviceName\":");
    reveal_strlit(",\"replicas\":");
    reveal_strlit(",\"podStatus\":");
    reveal_strlit(",\"ingressHost\":");
    reveal_strlit("}");
    lemma_span_len(t, lo, ha, k8s_json(m1));
    lemma_span_len(t, lo, hb, k8s_json(m2));
    let c1 = lo + "{\"namespace\":"@.len();
    let c2 = c1 + quoted(m1.namespace).len();
    let c3 = c2 + ",\"deploymentName\":"@.len();
    let c4 = c3 + quoted(m1.deployment_name).len();
    let c5 = c4 + ",\"serviceName\":"@.len();
    let c6 = c5 + quoted(m1.service_name).len();
    let c7 = c6 + ",\"replicas\":"@.len();
    let c8 = c7 + dec_digits(m1.replicas as nat).len();
    let c9 = c8 + ",\"podStatus\":"@.len();
    let c10 = c9 + pods_json(m1.pod_status).len();
    let c11 = c10 + ",\"ingressHost\":"@.len();
    let c12 = c11 + opt_quoted(m1.ingress_host).len();
    let c13 = c12 + "}"@.len();
    lemma_span_split(t, lo, c13, "{\"namespace\":"@ + quoted(m1.namespace) + ",\"deploymentName\":"@ + quoted(m1.deployment_name) + ",\"serviceName\":"@ + quoted(m1.service_name) + ",\"replicas\":"@ + dec_digits(m1.replicas as nat) + ",\"podStatus\":"@ + pods_json(m1.pod_status) + ",\"ingressHost\":"@ + opt_quoted(m1.ingress_host), "}"@);
    lemma_span_split(t, lo, c12, "{\"namespace\":"@ + quoted(m1.namespace) + ",\"deploymentName\":"@ + quoted(m1.deployment_name) + ",\"serviceName\":"@ + quoted(m1.service_name) + ",\"replicas\":"@ + dec_digits(m1.replicas as nat) + ",\"podStatus\":"@ + pods_json(m1.pod_status) + ",\"ingressHost\":"@, opt_quoted(m1.ingress_host));
    lemma_span_split(t, lo, c11, "{\"namespace\":"@ + quoted(m1.namespace) + ",\"deploymentName\":"@ + quoted(m1.deployment_name) + ",\"serviceName\":"@ + quoted(m1.service_name) + ",\"replicas\":"@ + dec_digits(m1.replicas as nat) + ",\"podStatus\":"@ + pods_json(m1.pod_status), ",\"ingressHost\":"@);
    lemma_span_split(t, lo, c10, "{\"namespace\":"@ + quoted(m1.namespace) + ",\"deploymentName\":"@ + quoted(m1.deployment_name) + ",\"serviceName\":"@ + quoted(m1.service_name) + ",\"replicas\":"@ + dec_digits(m1.replicas as nat) + ",\"podStatus\":"@, pods_json(m1.pod_status));
    lemma_span_split(t, lo, c9, "{\"namespace\":"@ + quoted(m1.namespace) + ",\"deploymentName\":"@ + quoted(m1.deployment_name) + ",\"serviceName\":"@ + quoted(m1.service_name) + ",\"replicas\":"@ + dec_digits(m1.replicas as nat), ",\"podStatus\":"@);
    lemma_span_split(t, lo, c8, "{\"namespace\":"@ + quoted(m1.namespace) + ",\"deploymentName\":"@ + quoted(m1.deployment_name) + ",\"serviceName\":"@ + quoted(m1.service_name) + ",\"replicas\":"@, dec_digits(m1.replicas as nat));
    lemma_span_split(t, lo, c7, "{\"namespace\":"@ + quoted(m1.namespace) + ",\"deploymentName\":"@ + quoted(m1.deployment_name) + ",\"serviceName\":"@ + quoted(m1.service_name), ",\"replicas\":"@);
    lemma_span_split(t, lo, c6, "{\"namespace\":"@ + quoted(m1.namespace) + ",\"deploymentName\":"@ + quoted(m1.deployment_name) + ",\"serviceName\":"@, quoted(m1.service_name));
    lemma_span_split(t, lo, c5, "{\"namespace\":"@ + quoted(m1.namespace) + ",\"deploymentName\":"@ + quoted(m1.deployment_name), ",\"serviceName\":"@);
    lemma_span_split(t, lo, c4, "{\"namespace\":"@ + quoted(m1.namespace) + ",\"deploymentName\":"@, quoted(m1.deployment_name));
    lemma_span_split(t, lo, c3, "{\"namespace\":"@ + quoted(m1.namespace), ",\"deploymentName\":"@);
    lemma_span_split(t, lo, c2, "{\"namespace\":"@, quoted(m1.namespace));
    let d1 = lo + "{\"namespace\":"@.len();
    let d2 = d1 + quoted(m2.namespace).len();
    let d3 = d2 + ",\"deploymentName\":"@.len();
    let d4 = d3 + quoted(m2.deployment_name).len();
    let d5 = d4 + ",\"serviceName\":"@.len();
    let d6 = d5 + quoted(m2.service_name).len();
    let d7 = d6 + ",\"replicas\":"@.len();
    let d8 = d7 + dec_digits(m2.replicas as nat).len();
    let d9 = d8 + ",\"podStatus\":"@.len();
    let d10 = d9 + pods_json(m2.pod_status).len();
    let d11 = d10 + ",\"ingressHost\":"@.len();
    let d12 = d11 + opt_quoted(m2.ingress_host).len();
    let d13 = d12 + "}"@.len();
    lemma_span_split(t, lo, d13, "{\"namespace\":"@ + quoted(m2.namespace) + ",\"deploymentName\":"@ + quoted(m2.deployment_name) + ",\"serviceName\":"@ + quoted(m2.service_name) + ",\"replicas\":"@ + dec_digits(m2.replicas as nat) + ",\"podStatus\":"@ + pods_json(m2.pod_status) + ",\"ingressHost\":"@ + opt_quoted(m2.ingress_host), "}"@);
    lemma_span_split(t, lo, d12, "{\"namespace\":"@ + quoted(m2.namespace) + ",\"deploymentName\":"@ + quoted(m2.deployment_name) + ",\"serviceName\":"@ + quoted(m2.service_name) + ",\"replicas\":"@ + dec_digits(m2.replicas as nat) + ",\"podStatus\":"@ + pods_json(m2.pod_status) + ",\"ingressHost\":"@, opt_quoted(m2.ingress_host));
    lemma_span_split(t, lo, d11, "{\"namespace\":"@ + quoted(m2.namespace) + ",\"deploymentName\":"@ + quoted(m2.deployment_name) + ",\"serviceName\":"@ + quoted(m2.service_name) + ",\"replicas\":"@ + dec_digits(m2.replicas as nat) + ",\"podStatus\":"@ + pods_json(m2.pod_status), ",\"ingressHost\":"@);
    lemma_span_split(t, lo, d10, "{\"namespace\":"@ + quoted(m2.namespace) + ",\"deploymentName\":"@ + quoted(m2.deployment_name) + ",\"serviceName\":"@ + quoted(m2.service_name) + ",\"replicas\":"@ + dec_digits(m2.replicas as nat) + ",\"podStatus\":"@, pods_json(m2.pod_status));
    lemma_span_split(t, lo, d9, "{\"namespace\":"@ + quoted(m2.namespace) + ",\"deploymentName\":"@ + quoted(m2.deployment_name) + ",\"serviceName\":"@ + quoted(m2.service_name) + ",\"replicas\":"@ + dec_digits(m2.replicas as nat), ",\"podStatus\":"@);
    lemma_span_split(t, lo, d8, "{\"namespace\":"@ + quoted(m2.namespace) + ",\"deploymentName\":"@ + quoted(m2.deployment_name) + ",\"serviceName\":"@ + quoted(m2.service_name) + ",\"replicas\":"@, dec_digits(m2.replicas as nat));
    lemma_span_split(t, lo, d7, "{\"namespace\":"@ + quoted(m2.namespace) + ",\"deploymentName\":"@ + quoted(m2.deployment_name) + ",\"serviceName\":"@ + quoted(m2.service_name), ",\"replicas\":"@);
    lemma_span_split(t, lo, d6, "{\"namespace\":"@ + quoted(m2.namespace) + ",\"deploymentName\":"@ + quoted(m2.deployment_name) + ",\"serviceName\":"@, quoted(m2.service_name));
    lemma_span_split(t, lo, d5, "{\"namespace\":"@ + quoted(m2.namespace) + ",\"deploymentName\":"@ + quoted(m2.deployment_name), ",\"serviceName\":"@);
    lemma_span_split(t, lo, d4, "{\"namespace\":"@ + quoted(m2.namespace) + ",\"deploymentName\":"@, quoted(m2.deployment_name));
    lemma_span_split(t, lo, d3, "{\"namespace\":"@ + quoted(m2.namespace), ",\"deploymentName\":"@);
    lemma_span_split(t, lo, d2, "{\"namespace\":"@, quoted(m2.namespace));
    lemma_quoted_at(t, c1, c2, d2, m1.namespace, m2.namespace);
    lemma_quoted_at(t, c3, c4, d4, m1.deployment_name, m2.deployment_name);
    lemma_quoted_at(t, c5, c6, d6, m1.service_name, m2.service_name);
    assert(t[c8] == t.subrange(c8, c9)[0]);
    assert(!dec_char(t[c8]));
    assert(t[d8] == t.subrange(d8, d9)[0]);
    assert(!dec_char(t[d8]));
    lemma_dec_at(t, c7, c8, d8, m1.replicas as nat, m2.replicas as nat);
    lemma_pods_at(t, c9, c10, d10, m1.pod_status, m2.pod_status);
    lemma_opt_at(t, c11, c12, d12, m1.ingress_host, m2.ingress_host);
    assert(m1 =~= m2);
}

/// Assembling the head tiles: the first half of the document equals the
/// chain of its parsed pieces.
#[verifier::rlimit(100)]
#[verifier::spinoff_prover]
proof fn lemma_head_tiles(
    t: Seq<char>,
    name: Seq<char>,
    ty: Seq<char>,
    port64: u64,
    created: Seq<char>,
    cid: Option<Seq<char>>,
    q0: int,
    q1: int,
    q2: int,
    q3: int,
    q4: int,
    q5: int,
    q6: int,
    q7: int,
    q8: int,
    q9: int,
)
    requires
        0 <= q0 <= q1 <= q2 <= q3 <= q4 <= q5 <= q6 <= q7 <= q8 <= q9 <= t.len(),
        t.subrange(0, q0) == "{\"appName\":"@,
        t.subrange(q0, q1) == quoted(name),
        t.subrange(q1, q2) == ",\"appType\":"@,
        t.subrange(q2, q3) == quoted(ty),
        t.subrange(q3, q4) == ",\"port\":\""@,
        t.subrange(q4, q5) == dec_digits(port64 as nat),
        t.subrange(q5, q6) == "\",\"createdAt\":"@,
        t.subrange(q6, q7) == quoted(created),
        t.subrange(q7, q8) == ",\"containerId\":"@,
        t.subrange(q8, q9) == opt_quoted(cid),
    ensures
        t.subrange(0, q9) == "{\"appName\":"@ + quoted(name) + ",\"appType\":"@ + quoted(ty)
            + ",\"port\":\""@ + dec_digits(port64 as nat) + "\",\"createdAt\":"@ + quoted(created)
            + ",\"containerId\":"@ + opt_quoted(cid),
{
    let mut cov: Seq<char> = "{\"appName\":"@;
    cov = cov + quoted(name);
    assert(cov =~= t.subrange(0, q1));
    cov = cov + ",\"appType\":"@;
    cov = cov + quoted(ty);
    assert(cov =~= t.subrange(0, q3));
    cov = cov + ",\"port\":\""@;
    assert(cov =~= t.subrange(0, q4));
    cov = cov + dec_digits(port64 as nat);
    assert(cov =~= t.subrange(0, q5));
    cov = cov + "\",\"createdAt\":"@;
    assert(cov =~= t.subrange(0, q6));
    cov = cov + quoted(created);
    assert(cov =~= t.subrange(0, q7));
    cov = cov + ",\"containerId\":"@;
    assert(cov =~= t.subrange(0, q8));
    cov = cov + opt_quoted(cid);
    assert(cov =~= t.subrange(0, q9));
}

/// Consumes the first half of the document: name, type, port, creation
/// time and container identifier; guaranteed to succeed on the expected
/// record's document, when the caller supplies it.
#[verifier::rlimit(100)]
#[verifier::spinoff_prover]
fn parse_record_head(s: &str, exp: Ghost<Option<AppMetadataV>>) -> (r: Option<
    (String, String, u64, String, Option<String>, usize),
>)
    requires
        s.is_ascii(),
        exp@ matches Some(m) ==> wf_record(m) && s@ == record_json(m),
    ensures
        r matches Some(v) ==> v.5 <= s@.len() && valid_name(v.0@) && supported_type(v.1@) && v.2
            <= 65535 && json_safe(v.3@) && (v.4 matches Some(h) ==> json_safe(h@)) && s@.subrange(
            0,
            v.5 as int,
        ) == "{\"appName\":"@ + quoted(v.0@) + ",\"appType\":"@ + quoted(v.1@)
            + ",\"port\":\""@ + dec_digits(v.2 as nat) + "\",\"createdAt\":"@ + quoted(v.3@)
            + ",\"containerId\":"@ + opt_quoted(
            match v.4 {
                Some(ref h) => Some(h@),
                None => None,
            },
        ),
        exp@ matches Some(m) ==> (r matches Some(v) && v.0@ == m.app_name && v.1@ == m.app_type
            && v.2 == m.port && v.3@ == m.created_at && (match v.4 {
            Some(ref h) => Some(h@),
            None => None,
        }) == m.container_id && v.5 == "{\"appName\":"@.len() + quoted(m.app_name).len() + ",\"appType\":"@.len()
            + quoted(m.app_type).len() + ",\"port\":"@.len() + quoted(
            dec_digits(m.port as nat),
        ).len() + ",\"createdAt\":"@.len() + quoted(m.created_at).len()
            + ",\"containerId\":"@.len() + opt_quoted(m.container_id).len()),
{
    let ghost has_model: bool = exp@ is Some;
    let ghost m: AppMetadataV = match exp@ {
        Some(w) => w,
        None => arbitrary(),
    };
    let ghost b1: int = "{\"appName\":"@.len() as int;
    let ghost b2: int = b1 + quoted(m.app_name).len();
    let ghost b3: int = b2 + ",\"appType\":"@.len();
    let ghost b4: int = b3 + quoted(m.app_type).len();
    let ghost b5: int = b4 + ",\"port\":"@.len();
    let ghost b6: int = b5 + quoted(dec_digits(m.port as nat)).len();
    let ghost b7: int = b6 + ",\"createdAt\":"@.len();
    let ghost b8: int = b7 + quoted(m.created_at).len();
    let ghost b9: int = b8 + ",\"containerId\":"@.len();
    let ghost b10: int = b9 + opt_quoted(m.container_id).len();
    let ghost b11: int = b10 + ",\"status\":"@.len();
    let ghost b12: int = b11 + quoted(status_text(m.status)).len();
    let ghost b13: int = b12 + ",\"kubernetesEnabled\":"@.len();
    let ghost b14: int = b13 + bool_text(m.kubernetes_enabled).len();
    let ghost b15: int = b14 + ",\"kubernetesMetadata\":"@.len();
    let ghost b16: int = b15 + k8s_json(m.kubernetes_metadata).len();
    let ghost b17: int = b16 + ",\"performanceMetrics\":"@.len();
    let ghost b18: int = b17 + metrics_json(m.performance_metrics).len();
    let ghost b19: int = b18 + ",\"scalingConfig\":"@.len();
    let ghost b20: int = b19 + scaling_json(m.scaling_config).len();
    let ghost b21: int = b20 + "}"@.len();
    proof {
        if has_model {
            lemma_record_layout(s@, m, b1, b2, b3, b4, b5, b6, b7, b8, b9, b10, b11, b12, b13, b14, b15, b16, b17, b18, b19, b20, b21);
        }
    }
    let p0 = match eat_lit(s, 0, "{\"appName\":") {
        Some(p) => p,
        None => {
            proof {
                if has_model {
                    assert(false);
                }
            }
            return None;
        },
    };
    let ghost e_name: Option<Seq<char>> = if has_model {
        Some(m.app_name)
    } else {
        None
    };
    let (app_name, p1) = match parse_quoted(s, p0, Ghost(e_name)) {
        Some(v) => v,
        None => {
            return None;
        },
    };
    if !is_valid_name(app_name.as_str()) {
        proof {
            if has_model {
                assert(false);
            }
        }
        return None;
    }
    let p2 = match eat_lit(s, p1, ",\"appType\":") {
        Some(p) => p,
        None => {
            proof {
                if has_model {
                    assert(false);
                }
            }
            return None;
        },
    };
    let ghost e_type: Option<Seq<char>> = if has_model {
        Some(m.app_type)
    } else {
        None
    };
    let (app_type, p3) = match parse_quoted(s, p2, Ghost(e_type)) {
        Some(v) => v,
        None => {
            return None;
        },
    };
    if !is_supported_type(app_type.as_str()) {
        proof {
            if has_model {
                assert(false);
            }
        }
        return None;
    }
    let p4 = match eat_lit(s, p3, ",\"port\":\"") {
        Some(p) => p,
        None => {
            proof {
                if has_model {
                    assert(false);
                }
            }
            return None;
        },
    };
    let ghost e_port: Option<u64> = if has_model {
        Some(m.port as u64)
    } else {
        None
    };
    let (port64, p5) = match parse_u64_max(s, p4, 65535, Ghost(e_port)) {
        Some(v) => v,
        None => {
            return None;
        },
    };
    let p6 = match eat_lit(s, p5, "\",\"createdAt\":") {
        Some(p) => p,
        None => {
            proof {
                if has_model {
                    assert(false);
                }
            }
            return None;
        },
    };
    let ghost e_created: Option<Seq<char>> = if has_model {
        Some(m.created_at)
    } else {
        None
    };
    let (created_at, p7) = match parse_quoted(s, p6, Ghost(e_created)) {
        Some(v) => v,
        None => {
            return None;
        },
    };
    let p8 = match eat_lit(s, p7, ",\"containerId\":") {
        Some(p) => p,
        None => {
            proof {
                if has_model {
                    assert(false);
                }
            }
            return None;
        },
    };
    let ghost e_cid: Option<Option<Seq<char>>> = if has_model {
        Some(m.container_id)
    } else {
        None
    };
    let (container_id, p9) = match parse_opt_quoted(s, p8, Ghost(e_cid)) {
        Some(v) => v,
        None => {
            return None;
        },
    };
    let r = (app_name, app_type, port64, created_at, container_id, p9);
    proof {
        if has_model {
            assert(r.2 == m.port as u64);
        }
        lemma_head_tiles(
            s@,
            r.0@,
            r.1@,
            r.2,
            r.3@,
            match r.4 {
                Some(ref h) => Some(h@),
                None => None,
            },
            p0 as int,
            p1 as int,
            p2 as int,
            p3 as int,
            p4 as int,
            p5 as int,
            p6 as int,
            p7 as int,
            p8 as int,
            p9 as int,
        );
    }
    Some(r)
}

/// The persisted document determines the record: two well-formed records
/// with the same rendered document are the same record.  Together with
/// the parser's contract this gives the full round trip: loading a saved
/// record returns exactly the record that was saved.
#[verifier::rlimit(100)]
#[verifier::spinoff_prover]
pub proof fn lemma_record_json_injective(a: AppMetadataV, b: AppMetadataV)
    requires
        wf_record(a),
        wf_record(b),
        record_json(a) == record_json(b),
    ensures
        a == b,
{
    let t = record_json(a);
    assert(t.subrange(0, t.len() as int) =~= t);
    let c1 = "{\"appName\":"@.len() as int;
    let c2 = c1 + quoted(a.app_name).len();
    let c3 = c2 + ",\"appType\":"@.len();
    let c4 = c3 + quoted(a.app_type).len();
    let c5 = c4 + ",\"port\":"@.len();
    let c6 = c5 + quoted(dec_digits(a.port as nat)).len();
    let c7 = c6 + ",\"createdAt\":"@.len();
    let c8 = c7 + quoted(a.created_at).len();
    let c9 = c8 + ",\"containerId\":"@.len();
    let c10 = c9 + opt_quoted(a.container_id).len();
    let c11 = c10 + ",\"status\":"@.len();
    let c12 = c11 + quoted(status_text(a.status)).len();
    let c13 = c12 + ",\"kubernetesEnabled\":"@.len();
    let c14 = c13 + bool_text(a.kubernetes_enabled).len();
    let c15 = c14 + ",\"kubernetesMetadata\":"@.len();
    let c16 = c15 + k8s_json(a.kubernetes_metadata).len();
    let c17 = c16 + ",\"performanceMetrics\":"@.len();
    let c18 = c17 + metrics_json(a.performance_metrics).len();
    let c19 = c18 + ",\"scalingConfig\":"@.len();
    let c20 = c19 + scaling_json(a.scaling_config).len();
    let c21 = c20 + "}"@.len();
    let d1 = "{\"appName\":"@.len() as int;
    let d2 = d1 + quoted(b.app_name).len();
    let d3 = d2 + ",\"appType\":"@.len();
    let d4 = d3 + quoted(b.app_type).len();
    let d5 = d4 + ",\"port\":"@.len();
    let d6 = d5 + quoted(dec_digits(b.port as nat)).len();
    let d7 = d6 + ",\"createdAt\":"@.len();
    let d8 = d7 + quoted(b.created_at).len();
    let d9 = d8 + ",\"containerId\":"@.len();
    let d10 = d9 + opt_quoted(b.container_id).len();
    let d11 = d10 + ",\"status\":"@.len();
    let d12 = d11 + quoted(status_text(b.status)).len();
    let d13 = d12 + ",\"kubernetesEnabled\":"@.len();
    let d14 = d13 + bool_text(b.kubernetes_enabled).len();
    let d15 = d14 + ",\"kubernetesMetadata\":"@.len();
    let d16 = d15 + k8s_json(b.kubernetes_metadata).len();
    let d17 = d16 + ",\"performanceMetrics\":"@.len();
    let d18 = d17 + metrics_json(b.performance_metrics).len();
    let d19 = d18 + ",\"scalingConfig\":"@.len();
    let d20 = d19 + scaling_json(b.scaling_config).len();
    let d21 = d20 + "}"@.len();
    lemma_record_layout(t, a, c1, c2, c3, c4, c5, c6, c7, c8, c9, c10, c11, c12, c13, c14, c15, c16, c17, c18, c19, c20, c21);
    lemma_record_layout(t, b, d1, d2, d3, d4, d5, d6, d7, d8, d9, d10, d11, d12, d13, d14, d15, d16, d17, d18, d19, d20, d21);
    lemma_valid_name_safe(a.app_name);
    lemma_valid_name_safe(b.app_name);
    lemma_supported_type_safe(a.app_type);
    lemma_supported_type_safe(b.app_type);
    lemma_dec_safe(a.port as nat);
    lemma_dec_safe(b.port as nat);
    lemma_status_text_safe(a.status);
    lemma_status_text_safe(b.status);
    lemma_quoted_at(t, c1, c2, d2, a.app_name, b.app_name);
    lemma_quoted_at(t, c3, c4, d4, a.app_type, b.app_type);
    lemma_quoted_at(t, c5, c6, d6, dec_digits(a.port as nat), dec_digits(b.port as nat));
    lemma_dec_digits_injective(a.port as nat, b.port as nat);
    lemma_quoted_at(t, c7, c8, d8, a.created_at, b.created_at);
    lemma_opt_at(t, c9, c10, d10, a.container_id, b.container_id);
    lemma_quoted_at(t, c11, c12, d12, status_text(a.status), status_text(b.status));
    lemma_status_text_injective(a.status, b.status);
    lemma_bool_at(t, c13, c14, d14, a.kubernetes_enabled, b.kubernetes_enabled);
    lemma_k8s_at(t, c15, c16, d16, a.kubernetes_metadata, b.kubernetes_metadata);
    lemma_metrics_at(t, c17, c18, d18, a.performance_metrics, b.performance_metrics);
    lemma_scaling_at(t, c19, c20, d20, a.scaling_config, b.scaling_config);
    assert(a =~= b);
}

/// Parses a persisted document back into a record.  On success the record
/// is well formed and saving it again reproduces the document byte for
/// byte; and the parse succeeds on every document the renderer can write.
/// With `lemma_record_json_injective` this closes the round trip that
/// idempotent resume needs: loading a saved record returns exactly the
/// record that was saved.  Anything the renderer could not have written is
/// rejected.
#[verifier::rlimit(100)]
#[verifier::spinoff_prover]
pub fn record_from_json(s: &str) -> (r: Option<AppMetadata>)
    ensures
        r matches Some(rec) ==> wf_record(rec@) && s@ == record_json(rec@),
        (exists|m: AppMetadataV| wf_record(m) && s@ == record_json(m)) ==> r is Some,
{
    let ghost has_model: bool = exists|m: AppMetadataV| wf_record(m) && s@ == record_json(m);
    let ghost m: AppMetadataV = if has_model {
        choose|m: AppMetadataV| wf_record(m) && s@ == record_json(m)
    } else {
        arbitrary()
    };
    if !s.is_ascii() {
        proof {
            if has_model {
                lemma_record_json_ascii(m);
                assert(false);
            }
        }
        return None;
    }
    let n = s.unicode_len();
    let ghost b1: int = "{\"appName\":"@.len() as int;
    let ghost b2: int = b1 + quoted(m.app_name).len();
    let ghost b3: int = b2 + ",\"appType\":"@.len();
    let ghost b4: int = b3 + quoted(m.app_type).len();
    let ghost b5: int = b4 + ",\"port\":"@.len();
    let ghost b6: int = b5 + quoted(dec_digits(m.port as nat)).len();
    let ghost b7: int = b6 + ",\"createdAt\":"@.len();
    let ghost b8: int = b7 + quoted(m.created_at).len();
    let ghost b9: int = b8 + ",\"containerId\":"@.len();
    let ghost b10: int = b9 + opt_quoted(m.container_id).len();
    let ghost b11: int = b10 + ",\"status\":"@.len();
    let ghost b12: int = b11 + quoted(status_text(m.status)).len();
    let ghost b13: int = b12 + ",\"kubernetesEnabled\":"@.len();
    let ghost b14: int = b13 + bool_text(m.kubernetes_enabled).len();
    let ghost b15: int = b14 + ",\"kubernetesMetadata\":"@.len();
    let ghost b16: int = b15 + k8s_json(m.kubernetes_metadata).len();
    let ghost b17: int = b16 + ",\"performanceMetrics\":"@.len();
    let ghost b18: int = b17 + metrics_json(m.performance_metrics).len();
    let ghost b19: int = b18 + ",\"scalingConfig\":"@.len();
    let ghost b20: int = b19 + scaling_json(m.scaling_config).len();
    let ghost b21: int = b20 + "}"@.len();
    proof {
        if has_model {
            lemma_record_layout(s@, m, b1, b2, b3, b4, b5, b6, b7, b8, b9, b10, b11, b12, b13, b14, b15, b16, b17, b18, b19, b20, b21);
        }
    }
    let ghost head_exp: Option<AppMetadataV> = if has_model {
        Some(m)
    } else {
        None
    };
    let (app_name, app_type, port64, created_at, container_id, p9) = match parse_record_head(
        s,
        Ghost(head_exp),
    ) {
        Some(v) => v,
        None => {
            proof {
                if has_model {
                    assert(false);
                }
            }
            return None;
        },
    };
    let port: u16 = port64 as u16;
    let p10 = match eat_lit(s, p9, ",\"status\":") {
        Some(p) => p,
        None => {
            proof {
                if has_model {
                    assert(false);
                }
            }
            return None;
        },
    };
    let ghost e_status: Option<Status> = if has_model {
        Some(m.status)
    } else {
        None
    };
    let (status, p11) = match parse_status(s, p10, Ghost(e_status)) {
        Some(v) => v,
        None => {
            return None;
        },
    };
    let p12 = match eat_lit(s, p11, ",\"kubernetesEnabled\":") {
        Some(p) => p,
        None => {
            proof {
                if has_model {
                    assert(false);
                }
            }
            return None;
        },
    };
    let ghost e_kube: Option<bool> = if has_model {
        Some(m.kubernetes_enabled)
    } else {
        None
    };
    let (kubernetes_enabled, p13) = match parse_bool(s, p12, Ghost(e_kube)) {
        Some(v) => v,
        None => {
            return None;
        },
    };
    let p14 = match eat_lit(s, p13, ",\"kubernetesMetadata\":") {
        Some(p) => p,
        None => {
            proof {
                if has_model {
                    assert(false);
                }
            }
            return None;
        },
    };
    let ghost e_k8s: Option<KubernetesMetadataV> = if has_model {
        Some(m.kubernetes_metadata)
    } else {
        None
    };
    let (kubernetes_metadata, p15) = match parse_k8s(s, p14, Ghost(e_k8s)) {
        Some(v) => v,
        None => {
            return None;
        },
    };
    let p16 = match eat_lit(s, p15, ",\"performanceMetrics\":") {
        Some(p) => p,
        None => {
            proof {
                if has_model {
                    assert(false);
                }
            }
            return None;
        },
    };
    let ghost e_met: Option<PerformanceMetrics> = if has_model {
        Some(m.performance_metrics)
    } else {
        None
    };
    let (performance_metrics, p17) = match parse_metrics(s, p16, Ghost(e_met)) {
        Some(v) => v,
        None => {
            return None;
        },
    };
    let p18 = match eat_lit(s, p17, ",\"scalingConfig\":") {
        Some(p) => p,
        None => {
            proof {
                if has_model {
                    assert(false);
                }
            }
            return None;
        },
    };
    let ghost e_scal: Option<ScalingConfig> = if has_model {
        Some(m.scaling_config)
    } else {
        None
    };
    let (scaling_config, p19) = match parse_scaling(s, p18, Ghost(e_scal)) {
        Some(v) => v,
        None => {
            return None;
        },
    };
    let p20 = match eat_lit(s, p19, "}") {
        Some(p) => p,
        None => {
            proof {
                if has_model {
                    assert(false);
                }
            }
            return None;
        },
    };
    if p20 != n {
        proof {
            if has_model {
                assert(false);
            }
        }
        return None;
    }
    let rec = AppMetadata {
        app_name,
        app_type,
        port,
        created_at,
        container_id,
        status,
        kubernetes_enabled,
        kubernetes_metadata,
        performance_metrics,
        scaling_config,
    };
    proof {
        assert(rec@.port as nat == port64 as nat);
        lemma_record_tiles(
            s@,
            rec@,
            p9 as int,
            p10 as int,
            p11 as int,
            p12 as int,
            p13 as int,
            p14 as int,
            p15 as int,
            p16 as int,
            p17 as int,
            p18 as int,
            p19 as int,
            p20 as int,
        );
    }
    Some(rec)
}

} // verus!
