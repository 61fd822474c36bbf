//! Failure taxonomy of the pipeline.  Every terminal failure of an attempt
//! is one of these, so the front end can exit non-zero with the right
//! remediation text.

use vstd::prelude::*;

verus! {

/// Why the environment gate failed.
#[derive(Clone, Copy, PartialEq, Eq, Structural, Debug)]
pub enum EnvErrorKind {
    /// The container runtime is not installed and installing it failed.
    RuntimeMissing,
    /// The runtime did not come alive within the bounded liveness polls.
    RuntimeStartTimeout,
    /// No usable cluster context exists for the expected cluster.
    ClusterNotConfigured,
    /// The cluster stayed unreachable through the bounded connect retries.
    ClusterUnreachable,
}

/// A terminal failure of one deployment attempt.
#[derive(Clone, Copy, PartialEq, Eq, Structural, Debug)]
pub enum DeployError {
    /// Runtime or cluster absent or unreachable after bounded retries.
    EnvironmentUnavailable(EnvErrorKind),
    /// Rendering the artifacts failed, or writing them to disk did.
    ConfigGenerationError,
    /// The image build exited non-zero; not retried.
    BuildFailure,
    /// The container run exited non-zero; not retried.
    StartupFailure,
    /// Applying a cluster object failed; `first_unapplied` is the index of
    /// the first object (in apply order) that was not applied.
    ManifestApplyError { first_unapplied: usize },
    /// The rollout wait exceeded its timeout.
    RolloutTimeout,
    /// The container was no longer running when convergence was checked.
    ContainerNotRunning,
}

/// The user-facing description of an error.
pub open spec fn error_text(e: DeployError) -> Seq<char> {
    match e {
        DeployError::EnvironmentUnavailable(k) => match k {
            EnvErrorKind::RuntimeMissing => "environment unavailable: the container runtime is not installed and installing it failed"@,
            EnvErrorKind::RuntimeStartTimeout => "environment unavailable: the container runtime did not start within the bounded liveness polls"@,
            EnvErrorKind::ClusterNotConfigured => "environment unavailable: no cluster context for the expected cluster; enable the cluster in the runtime settings"@,
            EnvErrorKind::ClusterUnreachable => "environment unavailable: cluster unreachable after bounded retries; check that the runtime daemon is running, the cluster feature is enabled, and no firewall blocks the connection"@,
        },
        DeployError::ConfigGenerationError => "configuration generation failed"@,
        DeployError::BuildFailure => "image build failed"@,
        DeployError::StartupFailure => "container startup failed"@,
        DeployError::ManifestApplyError { .. } => "applying a cluster object failed; later objects were not applied"@,
        DeployError::RolloutTimeout => "rollout did not complete within its timeout"@,
        DeployError::ContainerNotRunning => "container is not running"@,
    }
}

impl DeployError {
    /// Renders the error for the user.
    pub fn message(&self) -> (r: String)
        ensures
            r@ == error_text(*self),
    {
        match *self {
            DeployError::EnvironmentUnavailable(k) => match k {
                EnvErrorKind::RuntimeMissing => String::from_str(
                    "environment unavailable: the container runtime is not installed and installing it failed",
                ),
                EnvErrorKind::RuntimeStartTimeout => String::from_str(
                    "environment unavailable: the container runtime did not start within the bounded liveness polls",
                ),
                EnvErrorKind::ClusterNotConfigured => String::from_str(
                    "environment unavailable: no cluster context for the expected cluster; enable the cluster in the runtime settings",
                ),
                EnvErrorKind::ClusterUnreachable => String::from_str(
                    "environment unavailable: cluster unreachable after bounded retries; check that the runtime daemon is running, the cluster feature is enabled, and no firewall blocks the connection",
                ),
            },
            DeployError::ConfigGenerationError => String::from_str(
                "configuration generation failed",
            ),
            DeployError::BuildFailure => String::from_str("image build failed"),
            DeployError::StartupFailure => String::from_str("container startup failed"),
            DeployError::ManifestApplyError { .. } => String::from_str(
                "applying a cluster object failed; later objects were not applied",
            ),
            DeployError::RolloutTimeout => String::from_str(
                "rollout did not complete within its timeout",
            ),
            DeployError::ContainerNotRunning => String::from_str("container is not running"),
        }
    }
}

} // verus!
