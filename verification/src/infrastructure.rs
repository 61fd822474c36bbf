//! The auxiliary, non-gating provisioning group: monitoring hooks, caching
//! layer setup, load-balancer configuration, and the optional
//! infrastructure features.  None of these gate readiness; the orchestrator
//! joins the group before declaring success, and a failure here degrades
//! the report without reverting the deployment.

use vstd::prelude::*;

verus! {

/// Which optional infrastructure features an installation enables.
#[derive(Clone, Copy, PartialEq, Eq, Structural, Debug)]
pub struct InfrastructureConfig {
    pub kafka_enabled: bool,
    pub database_separation: bool,
    pub global_lb_enabled: bool,
    pub multi_region: bool,
    pub chaos_engineering: bool,
    pub circuit_breakers: bool,
}

/// One task of the auxiliary group.
#[derive(Clone, Copy, PartialEq, Eq, Structural, Debug)]
pub enum AuxTask {
    /// Write the monitoring configuration.
    Monitoring,
    /// Set up the caching layer.
    Caching,
    /// Generate the load-balancer configuration.
    LoadBalancing,
    /// Set up event streaming.
    EventStreaming,
    /// Set up database read/write separation.
    DatabaseSeparation,
    /// Configure global load balancing.
    GlobalLoadBalancing,
    /// Configure the multi-region replication.
    MultiRegion,
    /// Install the chaos experiments.
    ChaosEngineering,
    /// Install the circuit breakers.
    CircuitBreakers,
}

/// The tasks every deployment dispatches, followed by those the
/// infrastructure configuration enables, in a fixed order.
pub open spec fn spec_aux_tasks(c: InfrastructureConfig) -> Seq<AuxTask> {
    seq![AuxTask::Monitoring, AuxTask::Caching, AuxTask::LoadBalancing] + (if c.kafka_enabled {
        seq![AuxTask::EventStreaming]
    } else {
        Seq::empty()
    }) + (if c.database_separation {
        seq![AuxTask::DatabaseSeparation]
    } else {
        Seq::empty()
    }) + (if c.global_lb_enabled {
        seq![AuxTask::GlobalLoadBalancing]
    } else {
        Seq::empty()
    }) + (if c.multi_region {
        seq![AuxTask::MultiRegion]
    } else {
        Seq::empty()
    }) + (if c.chaos_engineering {
        seq![AuxTask::ChaosEngineering]
    } else {
        Seq::empty()
    }) + (if c.circuit_breakers {
        seq![AuxTask::CircuitBreakers]
    } else {
        Seq::empty()
    })
}

/// Plans the auxiliary task group of a configuration.
#[verifier::rlimit(50)]
pub fn aux_tasks(c: &InfrastructureConfig) -> (r: Vec<AuxTask>)
    ensures
        r@ == spec_aux_tasks(*c),
{
    let mut r: Vec<AuxTask> = Vec::new();
    r.push(AuxTask::Monitoring);
    r.push(AuxTask::Caching);
    r.push(AuxTask::LoadBalancing);
    if c.kafka_enabled {
        r.push(AuxTask::EventStreaming);
    }
    if c.database_separation {
        r.push(AuxTask::DatabaseSeparation);
    }
    if c.global_lb_enabled {
        r.push(AuxTask::GlobalLoadBalancing);
    }
    if c.multi_region {
        r.push(AuxTask::MultiRegion);
    }
    if c.chaos_engineering {
        r.push(AuxTask::ChaosEngineering);
    }
    if c.circuit_breakers {
        r.push(AuxTask::CircuitBreakers);
    }
    proof {
        assert(r@ =~= spec_aux_tasks(*c));
    }
    r
}

/// Joins the auxiliary group: reports the first failure, if any.  The core
/// deployment's success is not reverted by a failure here; the caller
/// attaches it to the report as a degraded-success warning.
pub fn join_aux(results: &Vec<bool>) -> (r: Option<usize>)
    ensures
        r matches Some(i) ==> i < results@.len() && !results@[i as int] && (forall|j: int| 0 <= j
            < i ==> results@[j]),
        r is None ==> forall|j: int| 0 <= j < results@.len() ==> results@[j],
{
    let n = results.len();
    let mut i: usize = 0;
    while i < n
        invariant
            n == results@.len(),
            0 <= i <= n,
            forall|j: int| 0 <= j < i ==> results@[j],
        decreases n - i,
    {
        if !results[i] {
            return Some(i);
        }
        i = i + 1;
    }
    None
}

} // verus!
