use vstd::prelude::*;
use crate::capability::{Capabilities, Overlay};
use crate::manifests::DefaultManifest;
use crate::step::StepId;

verus! {

/// Where the package manager takes a chart from.
#[derive(Clone, Copy, Debug, PartialEq, Eq)]
pub enum Chart {
    /// A chart of an added repository, as `repo/chart`.
    Repository(&'static str),
    /// The local sample chart directory (`SAMPLE_CHART_DIR`).
    SampleDirectory,
}

/// Parameters of one package-manager install.
#[derive(Clone, Copy, Debug, PartialEq, Eq)]
pub struct HelmInstall {
    pub release: &'static str,
    pub chart: Chart,
    pub namespace: &'static str,
    pub version: Option<&'static str>,
    /// Built-in overrides, as a comma-separated `key=value` list.
    pub set: Option<&'static str>,
    /// The values overlay to pass, by the path `Overlay::path` gives.
    pub values: Option<Overlay>,
    pub create_namespace: bool,
}

/// One call into a collaborator: the cluster-lifecycle tool, the
/// resource-management tool or the package manager, or a settle delay.
#[derive(Clone, Copy, Debug, PartialEq, Eq)]
pub enum Call {
    /// Create the plan's cluster from the payload `cluster_topology` renders.
    CreateCluster,
    /// List the cluster's nodes.
    ShowNodes,
    AddRepo { name: &'static str, url: &'static str },
    UpdateRepos,
    CreateNamespace { name: &'static str },
    Install(HelmInstall),
    /// Apply the manifest overlay found at `Overlay::path`.
    ApplyFile { overlay: Overlay },
    /// Apply a built-in manifest.
    ApplyDefault { manifest: DefaultManifest },
    /// Wait until the pods that `selector` picks in `namespace` are ready; a
    /// wait that runs out of time is a failure.
    WaitReady { namespace: &'static str, selector: &'static str, timeout_secs: u64 },
    /// A fixed settle delay.
    Pause { seconds: u64 },
}

/// Bound of every readiness wait.
pub const READINESS_TIMEOUT_SECS: u64 = 300;

pub open spec fn helm(
    release: &'static str,
    chart: &'static str,
    namespace: &'static str,
    version: Option<&'static str>,
    set: Option<&'static str>,
    values: Option<Overlay>,
) -> Call {
    Call::Install(
        HelmInstall {
            release,
            chart: Chart::Repository(chart),
            namespace,
            version,
            set,
            values,
            create_namespace: false,
        },
    )
}

/// The overlay itself where it is present, nothing where it is not.
pub open spec fn values_if(o: Overlay, present: bool) -> Option<Overlay> {
    if present {
        Some(o)
    } else {
        None
    }
}

/// The call that carries overlay `o`'s payload: with the overlay where it is
/// present, with the step's built-in default where it is not.
pub open spec fn overlay_call(o: Overlay, present: bool) -> Call {
    match o {
        Overlay::CertManagerValues => helm(
            "cert-manager",
            "jetstack/cert-manager",
            "cert-manager",
            Some("v1.13.2"),
            Some("installCRDs=true"),
            values_if(o, present),
        ),
        Overlay::IngressNginxValues => helm(
            "ingress-nginx",
            "ingress-nginx/ingress-nginx",
            "ingress-nginx",
            None,
            if present {
                None
            } else {
                Some("controller.hostPort.enabled=true,controller.service.type=NodePort")
            },
            values_if(o, present),
        ),
        Overlay::KubePrometheusStackValues => helm(
            "kube-prometheus-stack",
            "prometheus-community/kube-prometheus-stack",
            "monitoring",
            Some("54.2.2"),
            None,
            values_if(o, present),
        ),
        Overlay::ElasticsearchValues => helm(
            "elasticsearch",
            "elastic/elasticsearch",
            "logging",
            Some("8.5.1"),
            if present {
                None
            } else {
                Some("replicas=1,minimumMasterNodes=1")
            },
            values_if(o, present),
        ),
        Overlay::FluentdValues => helm(
            "fluentd",
            "fluent/fluentd",
            "logging",
            None,
            None,
            values_if(o, present),
        ),
        Overlay::KibanaValues => helm(
            "kibana",
            "elastic/kibana",
            "logging",
            Some("8.5.1"),
            None,
            values_if(o, present),
        ),
        Overlay::ArgocdValues => helm(
            "argocd",
            "argo/argo-cd",
            "argocd",
            Some("5.51.6"),
            None,
            values_if(o, present),
        ),
        Overlay::CertIssuerManifest => if present {
            Call::ApplyFile { overlay: o }
        } else {
            Call::ApplyDefault { manifest: DefaultManifest::CertIssuer }
        },
        Overlay::NamespacesManifest => if present {
            Call::ApplyFile { overlay: o }
        } else {
            Call::ApplyDefault { manifest: DefaultManifest::Namespaces }
        },
        Overlay::NetworkPoliciesManifest => if present {
            Call::ApplyFile { overlay: o }
        } else {
            Call::ApplyDefault { manifest: DefaultManifest::NetworkPolicies }
        },
        Overlay::ResourceQuotasManifest => if present {
            Call::ApplyFile { overlay: o }
        } else {
            Call::ApplyDefault { manifest: DefaultManifest::ResourceQuotas }
        },
        Overlay::SampleChart => if present {
            Call::Install(
                HelmInstall {
                    release: "sample-nginx",
                    chart: Chart::SampleDirectory,
                    namespace: "production",
                    version: None,
                    set: None,
                    values: None,
                    create_namespace: true,
                },
            )
        } else {
            Call::ApplyDefault { manifest: DefaultManifest::SampleNginx }
        },
    }
}

/// Whether a call reads overlay `o`.
pub open spec fn uses_overlay(c: Call, o: Overlay) -> bool {
    match c {
        Call::Install(h) => h.values == Some(o) || (o == Overlay::SampleChart && h.chart
            == Chart::SampleDirectory),
        Call::ApplyFile { overlay } => overlay == o,
        _ => false,
    }
}

/// The call for overlay `o` under a capability set.
pub open spec fn resolved(o: Overlay, caps: Capabilities) -> Call {
    overlay_call(o, caps.has(o))
}

/// The calls each step makes, in order.
#[verifier::opaque]
pub open spec fn planned_calls(s: StepId, caps: Capabilities) -> Seq<Call> {
    match s {
        StepId::CreateCluster => seq![Call::CreateCluster, Call::Pause { seconds: 10 }, Call::ShowNodes],
        StepId::HelmRepos => seq![
            Call::AddRepo { name: "jetstack", url: "https://charts.jetstack.io" },
            Call::AddRepo { name: "ingress-nginx", url: "https://kubernetes.github.io/ingress-nginx" },
            Call::AddRepo {
                name: "prometheus-community",
                url: "https://prometheus-community.github.io/helm-charts",
            },
            Call::AddRepo { name: "elastic", url: "https://helm.elastic.co" },
            Call::AddRepo { name: "fluent", url: "https://fluent.github.io/helm-charts" },
            Call::AddRepo { name: "argo", url: "https://argoproj.github.io/argo-helm" },
            Call::UpdateRepos,
        ],
        StepId::CertManager => seq![
            Call::CreateNamespace { name: "cert-manager" },
            resolved(Overlay::CertManagerValues, caps),
            Call::Pause { seconds: 30 },
            Call::WaitReady {
                namespace: "cert-manager",
                selector: "app.kubernetes.io/instance=cert-manager",
                timeout_secs: READINESS_TIMEOUT_SECS,
            },
            resolved(Overlay::CertIssuerManifest, caps),
        ],
        StepId::IngressController => seq![
            Call::CreateNamespace { name: "ingress-nginx" },
            resolved(Overlay::IngressNginxValues, caps),
            Call::Pause { seconds: 20 },
            Call::WaitReady {
                namespace: "ingress-nginx",
                selector: "app.kubernetes.io/component=controller",
                timeout_secs: READINESS_TIMEOUT_SECS,
            },
        ],
        StepId::Monitoring => seq![
            Call::CreateNamespace { name: "monitoring" },
            resolved(Overlay::KubePrometheusStackValues, caps),
            Call::Pause { seconds: 30 },
        ],
        StepId::Logging => seq![
            Call::CreateNamespace { name: "logging" },
            resolved(Overlay::ElasticsearchValues, caps),
            Call::Pause { seconds: 30 },
            resolved(Overlay::FluentdValues, caps),
            resolved(Overlay::KibanaValues, caps),
        ],
        StepId::ArgoCd => seq![
            Call::CreateNamespace { name: "argocd" },
            resolved(Overlay::ArgocdValues, caps),
            Call::Pause { seconds: 30 },
            Call::WaitReady {
                namespace: "argocd",
                selector: "app.kubernetes.io/name=argocd-server",
                timeout_secs: READINESS_TIMEOUT_SECS,
            },
        ],
        StepId::Namespaces => seq![resolved(Overlay::NamespacesManifest, caps)],
        StepId::NetworkPolicies => seq![resolved(Overlay::NetworkPoliciesManifest, caps)],
        StepId::ResourceQuotas => seq![resolved(Overlay::ResourceQuotasManifest, caps)],
        StepId::SampleApp => seq![resolved(Overlay::SampleChart, caps), Call::Pause { seconds: 10 }],
    }
}

/// Every step makes at least one call.
pub proof fn planned_calls_nonempty(s: StepId, caps: Capabilities)
    ensures
        planned_calls(s, caps).len() > 0,
{
    reveal(planned_calls);
}

/// The step that reads overlay `o`, and the position of the call that does.
pub open spec fn overlay_owner(o: Overlay) -> (StepId, int) {
    match o {
        Overlay::CertManagerValues => (StepId::CertManager, 1),
        Overlay::IngressNginxValues => (StepId::IngressController, 1),
        Overlay::KubePrometheusStackValues => (StepId::Monitoring, 1),
        Overlay::ElasticsearchValues => (StepId::Logging, 1),
        Overlay::FluentdValues => (StepId::Logging, 3),
        Overlay::KibanaValues => (StepId::Logging, 4),
        Overlay::ArgocdValues => (StepId::ArgoCd, 1),
        Overlay::CertIssuerManifest => (StepId::CertManager, 4),
        Overlay::NamespacesManifest => (StepId::Namespaces, 0),
        Overlay::NetworkPoliciesManifest => (StepId::NetworkPolicies, 0),
        Overlay::ResourceQuotasManifest => (StepId::ResourceQuotas, 0),
        Overlay::SampleChart => (StepId::SampleApp, 0),
    }
}

fn install(
    release: &'static str,
    chart: &'static str,
    namespace: &'static str,
    version: Option<&'static str>,
    set: Option<&'static str>,
    values: Option<Overlay>,
) -> (r: Call)
    ensures
        r == helm(release, chart, namespace, version, set, values),
{
    Call::Install(
        HelmInstall {
            release,
            chart: Chart::Repository(chart),
            namespace,
            version,
            set,
            values,
            create_namespace: false,
        },
    )
}

fn values_when(o: Overlay, present: bool) -> (r: Option<Overlay>)
    ensures
        r == values_if(o, present),
{
    if present {
        Some(o)
    } else {
        None
    }
}

/// The sample workload applied from the built-in manifest, for when the
/// sample chart is absent.
pub fn deploy_basic_nginx() -> (r: Call)
    ensures
        r == (Call::ApplyDefault { manifest: DefaultManifest::SampleNginx }),
{
    Call::ApplyDefault { manifest: DefaultManifest::SampleNginx }
}

/// Chooses between the external payload and the built-in default for overlay
/// `o`.
pub fn overlay_call_for(o: Overlay, present: bool) -> (r: Call)
    ensures
        r == overlay_call(o, present),
{
    let values = values_when(o, present);
    match o {
        Overlay::CertManagerValues => install(
            "cert-manager",
            "jetstack/cert-manager",
            "cert-manager",
            Some("v1.13.2"),
            Some("installCRDs=true"),
            values,
        ),
        Overlay::IngressNginxValues => install(
            "ingress-nginx",
            "ingress-nginx/ingress-nginx",
            "ingress-nginx",
            None,
            if present {
                None
            } else {
                Some("controller.hostPort.enabled=true,controller.service.type=NodePort")
            },
            values,
        ),
        Overlay::KubePrometheusStackValues => install(
            "kube-prometheus-stack",
            "prometheus-community/kube-prometheus-stack",
            "monitoring",
            Some("54.2.2"),
            None,
            values,
        ),
        Overlay::ElasticsearchValues => install(
            "elasticsearch",
            "elastic/elasticsearch",
            "logging",
            Some("8.5.1"),
            if present {
                None
            } else {
                Some("replicas=1,minimumMasterNodes=1")
            },
            values,
        ),
        Overlay::FluentdValues => install("fluentd", "fluent/fluentd", "logging", None, None, values),
        Overlay::KibanaValues => install(
            "kibana",
            "elastic/kibana",
            "logging",
            Some("8.5.1"),
            None,
            values,
        ),
        Overlay::ArgocdValues => install(
            "argocd",
            "argo/argo-cd",
            "argocd",
            Some("5.51.6"),
            None,
            values,
        ),
        Overlay::CertIssuerManifest => if present {
            Call::ApplyFile { overlay: o }
        } else {
            Call::ApplyDefault { manifest: DefaultManifest::CertIssuer }
        },
        Overlay::NamespacesManifest => if present {
            Call::ApplyFile { overlay: o }
        } else {
            Call::ApplyDefault { manifest: DefaultManifest::Namespaces }
        },
        Overlay::NetworkPoliciesManifest => if present {
            Call::ApplyFile { overlay: o }
        } else {
            Call::ApplyDefault { manifest: DefaultManifest::NetworkPolicies }
        },
        Overlay::ResourceQuotasManifest => if present {
            Call::ApplyFile { overlay: o }
        } else {
            Call::ApplyDefault { manifest: DefaultManifest::ResourceQuotas }
        },
        Overlay::SampleChart => if present {
            Call::Install(
                HelmInstall {
                    release: "sample-nginx",
                    chart: Chart::SampleDirectory,
                    namespace: "production",
                    version: None,
                    set: None,
                    values: None,
                    create_namespace: true,
                },
            )
        } else {
            deploy_basic_nginx()
        },
    }
}

fn resolve(o: Overlay, caps: &Capabilities) -> (r: Call)
    ensures
        r == resolved(o, *caps),
{
    overlay_call_for(o, caps.overlay_present(o))
}

fn wait_ready(namespace: &'static str, selector: &'static str) -> (r: Call)
    ensures
        r == (Call::WaitReady { namespace, selector, timeout_secs: READINESS_TIMEOUT_SECS }),
{
    Call::WaitReady { namespace, selector, timeout_secs: READINESS_TIMEOUT_SECS }
}

/// The calls of step `s` under `caps`, in the order they are made.
pub fn calls_of(s: StepId, caps: &Capabilities) -> (r: Vec<Call>)
    ensures
        r@ == planned_calls(s, *caps),
{
    let r = match s {
        StepId::CreateCluster => vec![Call::CreateCluster, Call::Pause { seconds: 10 }, Call::ShowNodes],
        StepId::HelmRepos => vec![
            Call::AddRepo { name: "jetstack", url: "https://charts.jetstack.io" },
            Call::AddRepo { name: "ingress-nginx", url: "https://kubernetes.github.io/ingress-nginx" },
            Call::AddRepo {
                name: "prometheus-community",
                url: "https://prometheus-community.github.io/helm-charts",
            },
            Call::AddRepo { name: "elastic", url: "https://helm.elastic.co" },
            Call::AddRepo { name: "fluent", url: "https://fluent.github.io/helm-charts" },
            Call::AddRepo { name: "argo", url: "https://argoproj.github.io/argo-helm" },
            Call::UpdateRepos,
        ],
        StepId::CertManager => vec![
            Call::CreateNamespace { name: "cert-manager" },
            resolve(Overlay::CertManagerValues, caps),
            Call::Pause { seconds: 30 },
            wait_ready("cert-manager", "app.kubernetes.io/instance=cert-manager"),
            resolve(Overlay::CertIssuerManifest, caps),
        ],
        StepId::IngressController => vec![
            Call::CreateNamespace { name: "ingress-nginx" },
            resolve(Overlay::IngressNginxValues, caps),
            Call::Pause { seconds: 20 },
            wait_ready("ingress-nginx", "app.kubernetes.io/component=controller"),
        ],
        StepId::Monitoring => vec![
            Call::CreateNamespace { name: "monitoring" },
            resolve(Overlay::KubePrometheusStackValues, caps),
            Call::Pause { seconds: 30 },
        ],
        StepId::Logging => vec![
            Call::CreateNamespace { name: "logging" },
            resolve(Overlay::ElasticsearchValues, caps),
            Call::Pause { seconds: 30 },
            resolve(Overlay::FluentdValues, caps),
            resolve(Overlay::KibanaValues, caps),
        ],
        StepId::ArgoCd => vec![
            Call::CreateNamespace { name: "argocd" },
            resolve(Overlay::ArgocdValues, caps),
            Call::Pause { seconds: 30 },
            wait_ready("argocd", "app.kubernetes.io/name=argocd-server"),
        ],
        StepId::Namespaces => vec![resolve(Overlay::NamespacesManifest, caps)],
        StepId::NetworkPolicies => vec![resolve(Overlay::NetworkPoliciesManifest, caps)],
        StepId::ResourceQuotas => vec![resolve(Overlay::ResourceQuotasManifest, caps)],
        StepId::SampleApp => vec![resolve(Overlay::SampleChart, caps), Call::Pause { seconds: 10 }],
    };
    proof {
        reveal(planned_calls);
    }
    assert(r@ =~= planned_calls(s, *caps));
    r
}

/// The capability set `caps` with overlay `o` gone.
pub open spec fn without_overlay(caps: Capabilities, o: Overlay) -> Capabilities {
    match o {
        Overlay::CertManagerValues => Capabilities { cert_manager_values: false, ..caps },
        Overlay::IngressNginxValues => Capabilities { ingress_nginx_values: false, ..caps },
        Overlay::KubePrometheusStackValues => Capabilities {
            kube_prometheus_stack_values: false,
            ..caps
        },
        Overlay::ElasticsearchValues => Capabilities { elasticsearch_values: false, ..caps },
        Overlay::FluentdValues => Capabilities { fluentd_values: false, ..caps },
        Overlay::KibanaValues => Capabilities { kibana_values: false, ..caps },
        Overlay::ArgocdValues => Capabilities { argocd_values: false, ..caps },
        Overlay::CertIssuerManifest => Capabilities { cert_issuer_manifest: false, ..caps },
        Overlay::NamespacesManifest => Capabilities { namespaces_manifest: false, ..caps },
        Overlay::NetworkPoliciesManifest => Capabilities {
            network_policies_manifest: false,
            ..caps
        },
        Overlay::ResourceQuotasManifest => Capabilities { resource_quotas_manifest: false, ..caps },
        Overlay::SampleChart => Capabilities { sample_chart: false, ..caps },
    }
}

proof fn without_keeps_others(caps: Capabilities, o: Overlay, other: Overlay)
    ensures
        other != o ==> without_overlay(caps, o).has(other) == caps.has(other),
        other != o ==> resolved(other, without_overlay(caps, o)) == resolved(other, caps),
        !without_overlay(caps, o).has(o),
{
}

proof fn calls_read_only_their_overlay(o: Overlay, other: Overlay, present: bool)
    ensures
        other != o ==> !uses_overlay(overlay_call(other, present), o),
        !uses_overlay(overlay_call(o, false), o),
{
}

/// Fallback resolution. The step that reads overlay `o` makes, at a fixed
/// position, the call `resolved(o, caps)`; where `o` is present that call
/// passes the overlay itself. Take the overlay away and the same step makes the
/// same calls, but that one, which now uses the built-in default, and no call
/// of the step reads the overlay any more.
#[verifier::spinoff_prover]
pub proof fn fallback_resolution(caps: Capabilities, o: Overlay)
    ensures
        ({
            let (s, i) = overlay_owner(o);
            let with = planned_calls(s, caps);
            let bare = planned_calls(s, without_overlay(caps, o));
            &&& 0 <= i < with.len()
            &&& with[i] == resolved(o, caps)
            &&& caps.has(o) ==> uses_overlay(with[i], o)
            &&& !without_overlay(caps, o).has(o)
            &&& bare[i] == overlay_call(o, false)
            &&& bare.len() == with.len()
            &&& forall|j: int| 0 <= j < with.len() && j != i ==> bare[j] == with[j]
            &&& forall|j: int| 0 <= j < bare.len() ==> !uses_overlay(#[trigger] bare[j], o)
        }),
{
    reveal(planned_calls);
    let c = without_overlay(caps, o);
    without_keeps_others(caps, o, Overlay::CertManagerValues);
    without_keeps_others(caps, o, Overlay::CertIssuerManifest);
    without_keeps_others(caps, o, Overlay::ElasticsearchValues);
    without_keeps_others(caps, o, Overlay::FluentdValues);
    without_keeps_others(caps, o, Overlay::KibanaValues);
    calls_read_only_their_overlay(o, Overlay::CertManagerValues, c.has(Overlay::CertManagerValues));
    calls_read_only_their_overlay(o, Overlay::CertIssuerManifest, c.has(Overlay::CertIssuerManifest));
    calls_read_only_their_overlay(o, Overlay::ElasticsearchValues, c.has(Overlay::ElasticsearchValues));
    calls_read_only_their_overlay(o, Overlay::FluentdValues, c.has(Overlay::FluentdValues));
    calls_read_only_their_overlay(o, Overlay::KibanaValues, c.has(Overlay::KibanaValues));
}

} // verus!
