//! CleanupCoordinator: best-effort reversal of a partial or completed
//! deployment.  It plans the reversal steps — stop and remove the
//! container, delete the generated cluster objects, delete the generated
//! files — and states how the record looks afterwards.  Every step that can
//! run twice is delete-if-exists, so running the whole cleanup twice
//! produces no errors and leaves nothing behind.

use vstd::prelude::*;
use crate::model::AppMetadata;
use crate::model::AppMetadataV;
use crate::model::KubernetesMetadataV;
use crate::model::wf_record;

verus! {

/// What one cleanup step does.  Container steps address the container by
/// the application's name; deletion steps address a generated file by path
/// and are delete-if-exists: they cannot fail on an absent target.
#[derive(Clone, Copy, PartialEq, Eq, Structural, Debug)]
pub enum CleanupKind {
    /// Stop the container named after the application.
    StopContainer,
    /// Remove the container named after the application.
    RemoveContainer,
    /// Delete the cluster object defined by this generated file, if it
    /// exists.
    DeleteClusterObject,
    /// Delete this generated file, if it exists.
    DeleteFile,
}

/// One step of the reversal, with the file it addresses (empty for the
/// container steps, which go by the application name).
#[derive(Debug, Clone, PartialEq)]
pub struct CleanupStep {
    pub kind: CleanupKind,
    pub target: String,
}

/// Mathematical image of a `CleanupStep`.
#[verifier::ext_equal]
pub struct CleanupStepV {
    pub kind: CleanupKind,
    pub target: Seq<char>,
}

impl View for CleanupStep {
    type V = CleanupStepV;

    open spec fn view(&self) -> CleanupStepV {
        CleanupStepV { kind: self.kind, target: self.target@ }
    }
}

impl DeepView for CleanupStep {
    type V = CleanupStepV;

    open spec fn deep_view(&self) -> CleanupStepV {
        self@
    }
}

/// The container steps of a record: present exactly when a container was
/// recorded.
pub open spec fn container_steps(r: AppMetadataV) -> Seq<CleanupStepV> {
    if r.container_id is Some {
        seq![
            CleanupStepV { kind: CleanupKind::StopContainer, target: Seq::empty() },
            CleanupStepV { kind: CleanupKind::RemoveContainer, target: Seq::empty() },
        ]
    } else {
        Seq::empty()
    }
}

/// The cluster object deletions of a record: one delete-if-exists per
/// generated object file, present exactly when the attempt targeted the
/// cluster.
pub open spec fn cluster_steps(r: AppMetadataV) -> Seq<CleanupStepV> {
    if r.kubernetes_enabled {
        seq![
            CleanupStepV { kind: CleanupKind::DeleteClusterObject, target: "quota.yaml"@ },
            CleanupStepV { kind: CleanupKind::DeleteClusterObject, target: "k8s-deployment.yaml"@ },
            CleanupStepV { kind: CleanupKind::DeleteClusterObject, target: "k8s-service.yaml"@ },
            CleanupStepV { kind: CleanupKind::DeleteClusterObject, target: "network-policy.yaml"@ },
            CleanupStepV { kind: CleanupKind::DeleteClusterObject, target: "hpa.yaml"@ },
            CleanupStepV { kind: CleanupKind::DeleteClusterObject, target: "k8s-ingress.yaml"@ },
        ]
    } else {
        Seq::empty()
    }
}

/// The file deletions of every cleanup: one delete-if-exists per generated
/// artifact path.
pub open spec fn file_steps() -> Seq<CleanupStepV> {
    seq![
        CleanupStepV { kind: CleanupKind::DeleteFile, target: "Dockerfile"@ },
        CleanupStepV { kind: CleanupKind::DeleteFile, target: "docker-compose.yml"@ },
        CleanupStepV { kind: CleanupKind::DeleteFile, target: "quota.yaml"@ },
        CleanupStepV { kind: CleanupKind::DeleteFile, target: "k8s-deployment.yaml"@ },
        CleanupStepV { kind: CleanupKind::DeleteFile, target: "k8s-service.yaml"@ },
        CleanupStepV { kind: CleanupKind::DeleteFile, target: "network-policy.yaml"@ },
        CleanupStepV { kind: CleanupKind::DeleteFile, target: "hpa.yaml"@ },
        CleanupStepV { kind: CleanupKind::DeleteFile, target: "k8s-ingress.yaml"@ },
        CleanupStepV { kind: CleanupKind::DeleteFile, target: "nginx.conf"@ },
        CleanupStepV { kind: CleanupKind::DeleteFile, target: "haproxy.cfg"@ },
    ]
}

/// The whole reversal plan of a record, in order: container first, then the
/// cluster objects it created, then every generated file.
pub open spec fn spec_cleanup_plan(r: AppMetadataV) -> Seq<CleanupStepV> {
    container_steps(r) + cluster_steps(r) + file_steps()
}

/// The record after cleanup: the container is no longer recorded, the pod
/// list is empty and the ingress host gone.  The status stands — a reversal
/// does not rewind the attempt's history, it removes what the attempt
/// created.
pub open spec fn spec_cleanup(r: AppMetadataV) -> AppMetadataV {
    AppMetadataV {
        container_id: None,
        kubernetes_metadata: KubernetesMetadataV {
            pod_status: Seq::empty(),
            ingress_host: None,
            ..r.kubernetes_metadata
        },
        ..r
    }
}

/// Cleanup is idempotent on the record: cleaning an already-cleaned record
/// changes nothing.
pub proof fn lemma_cleanup_idempotent(r: AppMetadataV)
    ensures
        spec_cleanup(spec_cleanup(r)) == spec_cleanup(r),
{
}

/// The second run of a cleanup plans no container step: everything it still
/// plans is delete-if-exists, so it produces no errors and leaves no
/// generated files.
pub proof fn lemma_second_cleanup_harmless(r: AppMetadataV)
    ensures
        forall|i: int| 0 <= i < spec_cleanup_plan(spec_cleanup(r)).len()
            ==> (#[trigger] spec_cleanup_plan(spec_cleanup(r))[i]).kind
            != CleanupKind::StopContainer && spec_cleanup_plan(spec_cleanup(r))[i].kind
            != CleanupKind::RemoveContainer,
{
    assert(container_steps(spec_cleanup(r)) =~= Seq::<CleanupStepV>::empty());
}

/// Builds one step.
fn mk_step(kind: CleanupKind, target: &str) -> (r: CleanupStep)
    ensures
        r@ == (CleanupStepV { kind, target: target@ }),
{
    CleanupStep { kind, target: String::from_str(target) }
}

/// Plans the reversal of a record.
pub fn cleanup_plan(r: &AppMetadata) -> (plan: Vec<CleanupStep>)
    ensures
        plan.deep_view() == spec_cleanup_plan(r@),
{
    let mut plan: Vec<CleanupStep> = Vec::new();
    if r.container_id.is_some() {
        plan.push(mk_step(CleanupKind::StopContainer, ""));
        plan.push(mk_step(CleanupKind::RemoveContainer, ""));
    }
    if r.kubernetes_enabled {
        plan.push(mk_step(CleanupKind::DeleteClusterObject, "quota.yaml"));
        plan.push(mk_step(CleanupKind::DeleteClusterObject, "k8s-deployment.yaml"));
        plan.push(mk_step(CleanupKind::DeleteClusterObject, "k8s-service.yaml"));
        plan.push(mk_step(CleanupKind::DeleteClusterObject, "network-policy.yaml"));
        plan.push(mk_step(CleanupKind::DeleteClusterObject, "hpa.yaml"));
        plan.push(mk_step(CleanupKind::DeleteClusterObject, "k8s-ingress.yaml"));
    }
    plan.push(mk_step(CleanupKind::DeleteFile, "Dockerfile"));
    plan.push(mk_step(CleanupKind::DeleteFile, "docker-compose.yml"));
    plan.push(mk_step(CleanupKind::DeleteFile, "quota.yaml"));
    plan.push(mk_step(CleanupKind::DeleteFile, "k8s-deployment.yaml"));
    plan.push(mk_step(CleanupKind::DeleteFile, "k8s-service.yaml"));
    plan.push(mk_step(CleanupKind::DeleteFile, "network-policy.yaml"));
    plan.push(mk_step(CleanupKind::DeleteFile, "hpa.yaml"));
    plan.push(mk_step(CleanupKind::DeleteFile, "k8s-ingress.yaml"));
    plan.push(mk_step(CleanupKind::DeleteFile, "nginx.conf"));
    plan.push(mk_step(CleanupKind::DeleteFile, "haproxy.cfg"));
    proof {
        reveal_strlit("");
        assert(""@ =~= Seq::<char>::empty());
        assert(plan.deep_view() =~~= spec_cleanup_plan(r@));
    }
    plan
}

/// Applies the reversal to the record.  A well-formed record stays well
/// formed, and applying cleanup twice equals applying it once.
pub fn apply_cleanup(r: AppMetadata) -> (out: AppMetadata)
    ensures
        out@ == spec_cleanup(r@),
        wf_record(r@) ==> wf_record(out@),
{
    let mut out = r;
    out.container_id = None;
    out.kubernetes_metadata.pod_status = Vec::new();
    out.kubernetes_metadata.ingress_host = None;
    proof {
        assert(out@ =~~= spec_cleanup(r@));
    }
    out
}

} // verus!
