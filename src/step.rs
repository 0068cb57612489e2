use vstd::prelude::*;
use crate::capability::Capabilities;
use crate::plan::ProdClusterConfig;

verus! {

/// The steps of the bootstrap pipeline. Their rank is their position in the
/// pipeline; each depends on every step of lower rank.
#[derive(Clone, Copy, Debug, PartialEq, Eq)]
pub enum StepId {
    CreateCluster,
    HelmRepos,
    CertManager,
    IngressController,
    Monitoring,
    Logging,
    ArgoCd,
    Namespaces,
    NetworkPolicies,
    ResourceQuotas,
    SampleApp,
}

pub const STEP_COUNT: usize = 11;

/// Why a step did not run.
#[derive(Clone, Copy, Debug, PartialEq, Eq)]
pub enum SkipReason {
    /// The plan's feature flag for the step is off.
    FeatureDisabled,
    /// The step installs through the package manager, which is unavailable.
    PackageManagerUnavailable,
}

pub open spec fn rank(s: StepId) -> nat {
    match s {
        StepId::CreateCluster => 0,
        StepId::HelmRepos => 1,
        StepId::CertManager => 2,
        StepId::IngressController => 3,
        StepId::Monitoring => 4,
        StepId::Logging => 5,
        StepId::ArgoCd => 6,
        StepId::Namespaces => 7,
        StepId::NetworkPolicies => 8,
        StepId::ResourceQuotas => 9,
        StepId::SampleApp => 10,
    }
}

pub open spec fn step_at_spec(r: nat) -> StepId
    recommends
        r < STEP_COUNT,
{
    if r == 0 {
        StepId::CreateCluster
    } else if r == 1 {
        StepId::HelmRepos
    } else if r == 2 {
        StepId::CertManager
    } else if r == 3 {
        StepId::IngressController
    } else if r == 4 {
        StepId::Monitoring
    } else if r == 5 {
        StepId::Logging
    } else if r == 6 {
        StepId::ArgoCd
    } else if r == 7 {
        StepId::Namespaces
    } else if r == 8 {
        StepId::NetworkPolicies
    } else if r == 9 {
        StepId::ResourceQuotas
    } else {
        StepId::SampleApp
    }
}

/// Ranks and steps are in one-to-one correspondence.
pub proof fn step_at_rank(s: StepId)
    ensures
        step_at_spec(rank(s)) == s,
        rank(s) < STEP_COUNT,
{
}

/// A step that needs the package manager: everything but cluster creation and
/// the application namespaces.
pub open spec fn needs_package_manager(s: StepId) -> bool {
    !(s == StepId::CreateCluster || s == StepId::Namespaces)
}

/// The feature flag that gates a step, where one does.
pub open spec fn feature_enabled(s: StepId, plan: ProdClusterConfig) -> bool {
    match s {
        StepId::Monitoring => plan.install_monitoring,
        StepId::Logging => plan.install_logging,
        StepId::ArgoCd => plan.install_argocd,
        _ => true,
    }
}

/// Why a step is skipped under a plan and a capability set, or `None` when it
/// runs. The missing package manager short-circuits the optional part of the
/// pipeline before any feature flag is consulted.
pub open spec fn skip_reason_spec(s: StepId, plan: ProdClusterConfig, caps: Capabilities) -> Option<
    SkipReason,
> {
    if needs_package_manager(s) && !caps.package_manager {
        Some(SkipReason::PackageManagerUnavailable)
    } else if !feature_enabled(s, plan) {
        Some(SkipReason::FeatureDisabled)
    } else {
        None
    }
}

pub open spec fn enabled(s: StepId, plan: ProdClusterConfig, caps: Capabilities) -> bool {
    skip_reason_spec(s, plan, caps) is None
}

/// The lowest rank at or after `from` whose step is enabled, or `STEP_COUNT`
/// where none is.
pub open spec fn next_enabled(plan: ProdClusterConfig, caps: Capabilities, from: nat) -> nat
    decreases STEP_COUNT - from,
{
    if from >= STEP_COUNT {
        STEP_COUNT as nat
    } else if enabled(step_at_spec(from), plan, caps) {
        from
    } else {
        next_enabled(plan, caps, from + 1)
    }
}

pub proof fn next_enabled_bounds(plan: ProdClusterConfig, caps: Capabilities, from: nat)
    requires
        from <= STEP_COUNT,
    ensures
        from <= next_enabled(plan, caps, from) <= STEP_COUNT,
        next_enabled(plan, caps, from) < STEP_COUNT ==> enabled(
            step_at_spec(next_enabled(plan, caps, from)),
            plan,
            caps,
        ),
        forall|r: nat|
            from <= r < next_enabled(plan, caps, from) ==> !enabled(
                #[trigger] step_at_spec(r),
                plan,
                caps,
            ),
    decreases STEP_COUNT - from,
{
    if from < STEP_COUNT && !enabled(step_at_spec(from), plan, caps) {
        next_enabled_bounds(plan, caps, from + 1);
    }
}

impl StepId {
    pub fn at(r: usize) -> (s: StepId)
        requires
            r < STEP_COUNT,
        ensures
            s == step_at_spec(r as nat),
            rank(s) == r,
    {
        match r {
            0 => StepId::CreateCluster,
            1 => StepId::HelmRepos,
            2 => StepId::CertManager,
            3 => StepId::IngressController,
            4 => StepId::Monitoring,
            5 => StepId::Logging,
            6 => StepId::ArgoCd,
            7 => StepId::Namespaces,
            8 => StepId::NetworkPolicies,
            9 => StepId::ResourceQuotas,
            _ => StepId::SampleApp,
        }
    }

    /// The step of rank `r`, where there is one.
    pub fn at_opt(r: usize) -> (s: Option<StepId>)
        ensures
            r < STEP_COUNT ==> s == Some(step_at_spec(r as nat)),
            r >= STEP_COUNT ==> s is None,
    {
        if r < STEP_COUNT {
            Some(StepId::at(r))
        } else {
            None
        }
    }

    /// The step's position in the pipeline.
    pub fn rank(self) -> (r: usize)
        ensures
            r == rank(self),
    {
        match self {
            StepId::CreateCluster => 0,
            StepId::HelmRepos => 1,
            StepId::CertManager => 2,
            StepId::IngressController => 3,
            StepId::Monitoring => 4,
            StepId::Logging => 5,
            StepId::ArgoCd => 6,
            StepId::Namespaces => 7,
            StepId::NetworkPolicies => 8,
            StepId::ResourceQuotas => 9,
            StepId::SampleApp => 10,
        }
    }

    /// Decides whether the step runs under `plan` and `caps`, and if not, why.
    pub fn skip_reason(self, plan: &ProdClusterConfig, caps: &Capabilities) -> (r: Option<
        SkipReason,
    >)
        ensures
            r == skip_reason_spec(self, *plan, *caps),
    {
        let needs_pm = match self {
            StepId::CreateCluster | StepId::Namespaces => false,
            _ => true,
        };
        if needs_pm && !caps.package_manager {
            return Some(SkipReason::PackageManagerUnavailable);
        }
        let flag = match self {
            StepId::Monitoring => plan.install_monitoring,
            StepId::Logging => plan.install_logging,
            StepId::ArgoCd => plan.install_argocd,
            _ => true,
        };
        if !flag {
            Some(SkipReason::FeatureDisabled)
        } else {
            None
        }
    }
}

} // verus!
