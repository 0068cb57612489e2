use vstd::prelude::*;
use crate::capability::Capabilities;
use crate::plan::ProdClusterConfig;
use crate::sequencer::{Failure, Sequencer, StepResult};
use crate::step::StepId;

verus! {

/// Which post-provision summary a run ends with.
#[derive(Clone, Copy, Debug, PartialEq, Eq)]
pub enum SummaryVariant {
    /// The package manager was unavailable: a bare cluster with namespaces.
    Basic,
    /// The optional components were installed.
    Full,
}

/// A service endpoint that the full summary points to.
#[derive(Clone, Copy, Debug, PartialEq, Eq)]
pub enum Endpoint {
    Prometheus,
    Grafana,
    Kibana,
    ArgoCd,
    SampleApp,
}

/// The post-provision summary: which variant, for which cluster, and which
/// endpoints to list.
pub struct Summary {
    pub variant: SummaryVariant,
    pub cluster: String,
    pub endpoints: Vec<Endpoint>,
}

/// What a run hands back: every recorded step result in rank order, the
/// failure that ended it if any, and the summary if it completed.
pub struct BootstrapReport {
    pub results: Vec<StepResult>,
    pub failure: Option<(StepId, Failure)>,
    pub summary: Option<Summary>,
}

pub open spec fn variant_spec(caps: Capabilities) -> SummaryVariant {
    if caps.package_manager {
        SummaryVariant::Full
    } else {
        SummaryVariant::Basic
    }
}

pub open spec fn when(b: bool, e: Endpoint) -> Seq<Endpoint> {
    if b {
        seq![e]
    } else {
        Seq::empty()
    }
}

/// The endpoints of the components that the plan installs; none in the basic
/// variant.
pub open spec fn endpoints_spec(plan: ProdClusterConfig, caps: Capabilities) -> Seq<Endpoint> {
    if !caps.package_manager {
        Seq::empty()
    } else {
        when(plan.install_monitoring, Endpoint::Prometheus) + when(
            plan.install_monitoring,
            Endpoint::Grafana,
        ) + when(plan.install_logging, Endpoint::Kibana) + when(
            plan.install_argocd,
            Endpoint::ArgoCd,
        ) + seq![Endpoint::SampleApp]
    }
}

fn push_when(v: &mut Vec<Endpoint>, b: bool, e: Endpoint)
    ensures
        final(v)@ == old(v)@ + when(b, e),
{
    if b {
        v.push(e);
    }
    assert(final(v)@ =~= old(v)@ + when(b, e));
}

/// The summary of a completed run of `plan` under `caps`.
pub fn summary_for(plan: &ProdClusterConfig, caps: &Capabilities) -> (r: Summary)
    ensures
        r.variant == variant_spec(*caps),
        r.cluster == plan.name,
        r.endpoints@ == endpoints_spec(*plan, *caps),
{
    let mut endpoints: Vec<Endpoint> = Vec::new();
    if !caps.package_manager {
        assert(endpoints@ =~= endpoints_spec(*plan, *caps));
        return Summary { variant: SummaryVariant::Basic, cluster: plan.name.clone(), endpoints };
    }
    push_when(&mut endpoints, plan.install_monitoring, Endpoint::Prometheus);
    push_when(&mut endpoints, plan.install_monitoring, Endpoint::Grafana);
    push_when(&mut endpoints, plan.install_logging, Endpoint::Kibana);
    push_when(&mut endpoints, plan.install_argocd, Endpoint::ArgoCd);
    endpoints.push(Endpoint::SampleApp);
    assert(endpoints@ =~= endpoints_spec(*plan, *caps));
    Summary { variant: SummaryVariant::Full, cluster: plan.name.clone(), endpoints }
}

/// The report of a run as it stands: the summary is there exactly when the
/// run completed without failure.
pub fn report_of(s: &Sequencer) -> (r: BootstrapReport)
    ensures
        r.results@ == s.results(),
        r.failure == (if s.failed() {
            Some((s.results().last().step, s.results().last().outcome->Failed_0))
        } else {
            None
        }),
        r.summary is Some <==> !s.in_progress() && !s.failed(),
        r.summary matches Some(m) ==> {
            &&& m.variant == variant_spec(s.caps())
            &&& m.cluster == s.plan().name
            &&& m.endpoints@ == endpoints_spec(s.plan(), s.caps())
        },
{
    let failure = s.failure();
    let summary = if s.is_finished() && failure.is_none() {
        let caps = s.capabilities();
        Some(summary_for(s.plan_ref(), &caps))
    } else {
        None
    };
    BootstrapReport { results: s.results_so_far(), failure, summary }
}

/// Without the package manager the summary is the basic variant, which lists
/// no endpoint; with it, the full variant.
pub proof fn basic_summary_without_package_manager(plan: ProdClusterConfig, caps: Capabilities)
    ensures
        !caps.package_manager ==> variant_spec(caps) == SummaryVariant::Basic && endpoints_spec(
            plan,
            caps,
        ).len() == 0,
        caps.package_manager ==> variant_spec(caps) == SummaryVariant::Full,
{
}

/// The full summary lists the endpoint of a component only where the plan
/// installs it; the sample application is always listed.
pub proof fn endpoints_follow_flags(plan: ProdClusterConfig, caps: Capabilities)
    requires
        caps.package_manager,
    ensures
        endpoints_spec(plan, caps).contains(Endpoint::Kibana) <==> plan.install_logging,
        endpoints_spec(plan, caps).contains(Endpoint::Prometheus) <==> plan.install_monitoring,
        endpoints_spec(plan, caps).contains(Endpoint::Grafana) <==> plan.install_monitoring,
        endpoints_spec(plan, caps).contains(Endpoint::ArgoCd) <==> plan.install_argocd,
        endpoints_spec(plan, caps).contains(Endpoint::SampleApp),
{
    let e = endpoints_spec(plan, caps);
    let a = when(plan.install_monitoring, Endpoint::Prometheus);
    let b = when(plan.install_monitoring, Endpoint::Grafana);
    let c = when(plan.install_logging, Endpoint::Kibana);
    let d = when(plan.install_argocd, Endpoint::ArgoCd);
    assert(e == a + b + c + d + seq![Endpoint::SampleApp]);
    let n = (a + b + c + d).len();
    assert(e[n as int] == Endpoint::SampleApp);
    if plan.install_logging {
        assert(e[(a + b).len() as int] == Endpoint::Kibana);
    }
    if plan.install_monitoring {
        assert(e[0] == Endpoint::Prometheus);
        assert(e[1] == Endpoint::Grafana);
    }
    if plan.install_argocd {
        assert(e[(a + b + c).len() as int] == Endpoint::ArgoCd);
    }
}

} // verus!
