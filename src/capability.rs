use vstd::prelude::*;
use crate::paths::{
    get_manifest_file, get_values_file, manifest_file_path, values_file_path, SAMPLE_CHART_DIR,
    SAMPLE_CHART_FILE,
};

verus! {

/// An optional external payload that a step prefers over its built-in default.
#[derive(Clone, Copy, Debug, PartialEq, Eq)]
pub enum Overlay {
    CertManagerValues,
    IngressNginxValues,
    KubePrometheusStackValues,
    ElasticsearchValues,
    FluentdValues,
    KibanaValues,
    ArgocdValues,
    CertIssuerManifest,
    NamespacesManifest,
    NetworkPoliciesManifest,
    ResourceQuotasManifest,
    SampleChart,
}

/// Number of overlays.
pub const OVERLAY_COUNT: usize = 12;

/// Number of filesystem probes: one per overlay, and the sample chart directory.
pub const PROBE_COUNT: usize = 13;

pub open spec fn overlay_index(o: Overlay) -> nat {
    match o {
        Overlay::CertManagerValues => 0,
        Overlay::IngressNginxValues => 1,
        Overlay::KubePrometheusStackValues => 2,
        Overlay::ElasticsearchValues => 3,
        Overlay::FluentdValues => 4,
        Overlay::KibanaValues => 5,
        Overlay::ArgocdValues => 6,
        Overlay::CertIssuerManifest => 7,
        Overlay::NamespacesManifest => 8,
        Overlay::NetworkPoliciesManifest => 9,
        Overlay::ResourceQuotasManifest => 10,
        Overlay::SampleChart => 11,
    }
}

pub open spec fn overlay_at_spec(i: nat) -> Overlay
    recommends
        i < OVERLAY_COUNT,
{
    if i == 0 {
        Overlay::CertManagerValues
    } else if i == 1 {
        Overlay::IngressNginxValues
    } else if i == 2 {
        Overlay::KubePrometheusStackValues
    } else if i == 3 {
        Overlay::ElasticsearchValues
    } else if i == 4 {
        Overlay::FluentdValues
    } else if i == 5 {
        Overlay::KibanaValues
    } else if i == 6 {
        Overlay::ArgocdValues
    } else if i == 7 {
        Overlay::CertIssuerManifest
    } else if i == 8 {
        Overlay::NamespacesManifest
    } else if i == 9 {
        Overlay::NetworkPoliciesManifest
    } else if i == 10 {
        Overlay::ResourceQuotasManifest
    } else {
        Overlay::SampleChart
    }
}

/// Where an overlay is looked for on the local filesystem.
pub open spec fn overlay_path_spec(o: Overlay) -> Seq<char> {
    match o {
        Overlay::CertManagerValues => values_file_path("cert-manager"@),
        Overlay::IngressNginxValues => values_file_path("ingress-nginx"@),
        Overlay::KubePrometheusStackValues => values_file_path("kube-prometheus-stack"@),
        Overlay::ElasticsearchValues => values_file_path("elasticsearch"@),
        Overlay::FluentdValues => values_file_path("fluentd"@),
        Overlay::KibanaValues => values_file_path("kibana"@),
        Overlay::ArgocdValues => values_file_path("argocd"@),
        Overlay::CertIssuerManifest => manifest_file_path("cert-issuer"@),
        Overlay::NamespacesManifest => manifest_file_path("namespaces"@),
        Overlay::NetworkPoliciesManifest => manifest_file_path("network-policies"@),
        Overlay::ResourceQuotasManifest => manifest_file_path("resource-quotas"@),
        Overlay::SampleChart => SAMPLE_CHART_FILE@,
    }
}

/// The filesystem path whose existence is probed at position `i`: the overlays
/// in order, then the sample chart directory.
pub open spec fn probe_path_spec(i: nat) -> Seq<char> {
    if i < OVERLAY_COUNT {
        overlay_path_spec(overlay_at_spec(i))
    } else {
        SAMPLE_CHART_DIR@
    }
}

impl Overlay {
    pub fn at(i: usize) -> (r: Overlay)
        requires
            i < OVERLAY_COUNT,
        ensures
            r == overlay_at_spec(i as nat),
            overlay_index(r) == i,
    {
        match i {
            0 => Overlay::CertManagerValues,
            1 => Overlay::IngressNginxValues,
            2 => Overlay::KubePrometheusStackValues,
            3 => Overlay::ElasticsearchValues,
            4 => Overlay::FluentdValues,
            5 => Overlay::KibanaValues,
            6 => Overlay::ArgocdValues,
            7 => Overlay::CertIssuerManifest,
            8 => Overlay::NamespacesManifest,
            9 => Overlay::NetworkPoliciesManifest,
            10 => Overlay::ResourceQuotasManifest,
            _ => Overlay::SampleChart,
        }
    }

    /// The path at which this overlay is looked for.
    pub fn path(self) -> (r: String)
        ensures
            r@ == overlay_path_spec(self),
    {
        match self {
            Overlay::CertManagerValues => get_values_file("cert-manager"),
            Overlay::IngressNginxValues => get_values_file("ingress-nginx"),
            Overlay::KubePrometheusStackValues => get_values_file("kube-prometheus-stack"),
            Overlay::ElasticsearchValues => get_values_file("elasticsearch"),
            Overlay::FluentdValues => get_values_file("fluentd"),
            Overlay::KibanaValues => get_values_file("kibana"),
            Overlay::ArgocdValues => get_values_file("argocd"),
            Overlay::CertIssuerManifest => get_manifest_file("cert-issuer"),
            Overlay::NamespacesManifest => get_manifest_file("namespaces"),
            Overlay::NetworkPoliciesManifest => get_manifest_file("network-policies"),
            Overlay::ResourceQuotasManifest => get_manifest_file("resource-quotas"),
            Overlay::SampleChart => String::from_str(SAMPLE_CHART_FILE),
        }
    }
}

/// The paths whose existence the prober checks, in probe order.
pub fn probe_paths() -> (r: Vec<String>)
    ensures
        r@.len() == PROBE_COUNT,
        forall|i: int| 0 <= i < PROBE_COUNT ==> #[trigger] r@[i]@ == probe_path_spec(i as nat),
{
    let mut r: Vec<String> = Vec::new();
    let mut i: usize = 0;
    while i < OVERLAY_COUNT
        invariant
            i <= OVERLAY_COUNT,
            r@.len() == i,
            forall|k: int| 0 <= k < i ==> #[trigger] r@[k]@ == probe_path_spec(k as nat),
        decreases OVERLAY_COUNT - i,
    {
        r.push(Overlay::at(i).path());
        i = i + 1;
    }
    r.push(String::from_str(SAMPLE_CHART_DIR));
    r
}

/// What the capability prober found: whether the package manager answers, and
/// which overlays exist. Derived once, read-only afterwards.
#[derive(Clone, Copy, Debug, PartialEq, Eq)]
pub struct Capabilities {
    pub package_manager: bool,
    pub cert_manager_values: bool,
    pub ingress_nginx_values: bool,
    pub kube_prometheus_stack_values: bool,
    pub elasticsearch_values: bool,
    pub fluentd_values: bool,
    pub kibana_values: bool,
    pub argocd_values: bool,
    pub cert_issuer_manifest: bool,
    pub namespaces_manifest: bool,
    pub network_policies_manifest: bool,
    pub resource_quotas_manifest: bool,
    pub sample_chart: bool,
}

/// A probe that did not report is read as "not there".
pub open spec fn probe_found(found: Seq<bool>, i: nat) -> bool {
    i < found.len() && found[i as int]
}

impl Capabilities {
    pub open spec fn has(self, o: Overlay) -> bool {
        match o {
            Overlay::CertManagerValues => self.cert_manager_values,
            Overlay::IngressNginxValues => self.ingress_nginx_values,
            Overlay::KubePrometheusStackValues => self.kube_prometheus_stack_values,
            Overlay::ElasticsearchValues => self.elasticsearch_values,
            Overlay::FluentdValues => self.fluentd_values,
            Overlay::KibanaValues => self.kibana_values,
            Overlay::ArgocdValues => self.argocd_values,
            Overlay::CertIssuerManifest => self.cert_issuer_manifest,
            Overlay::NamespacesManifest => self.namespaces_manifest,
            Overlay::NetworkPoliciesManifest => self.network_policies_manifest,
            Overlay::ResourceQuotasManifest => self.resource_quotas_manifest,
            Overlay::SampleChart => self.sample_chart,
        }
    }

    /// The capability set that a set of probe observations means: the package
    /// manager counts only if its probe ran and succeeded; the sample chart
    /// needs both its directory and its descriptor.
    pub open spec fn from_probes_spec(package_manager: Option<bool>, found: Seq<bool>) -> Capabilities {
        Capabilities {
            package_manager: package_manager == Some(true),
            cert_manager_values: probe_found(found, 0),
            ingress_nginx_values: probe_found(found, 1),
            kube_prometheus_stack_values: probe_found(found, 2),
            elasticsearch_values: probe_found(found, 3),
            fluentd_values: probe_found(found, 4),
            kibana_values: probe_found(found, 5),
            argocd_values: probe_found(found, 6),
            cert_issuer_manifest: probe_found(found, 7),
            namespaces_manifest: probe_found(found, 8),
            network_policies_manifest: probe_found(found, 9),
            resource_quotas_manifest: probe_found(found, 10),
            sample_chart: probe_found(found, 11) && probe_found(found, 12),
        }
    }

    /// Builds the capability set from the probes: `package_manager` is the
    /// outcome of a trivial package-manager invocation (`None` where it could
    /// not be run), `found[i]` whether the path `probe_paths()[i]` exists.
    pub fn from_probes(package_manager: Option<bool>, found: &Vec<bool>) -> (r: Capabilities)
        ensures
            r == Self::from_probes_spec(package_manager, found@),
    {
        let pm = match package_manager {
            Some(ok) => ok,
            None => false,
        };
        Capabilities {
            package_manager: pm,
            cert_manager_values: found_at(found, 0),
            ingress_nginx_values: found_at(found, 1),
            kube_prometheus_stack_values: found_at(found, 2),
            elasticsearch_values: found_at(found, 3),
            fluentd_values: found_at(found, 4),
            kibana_values: found_at(found, 5),
            argocd_values: found_at(found, 6),
            cert_issuer_manifest: found_at(found, 7),
            namespaces_manifest: found_at(found, 8),
            network_policies_manifest: found_at(found, 9),
            resource_quotas_manifest: found_at(found, 10),
            sample_chart: found_at(found, 11) && found_at(found, 12),
        }
    }

    pub fn overlay_present(&self, o: Overlay) -> (r: bool)
        ensures
            r == self.has(o),
    {
        match o {
            Overlay::CertManagerValues => self.cert_manager_values,
            Overlay::IngressNginxValues => self.ingress_nginx_values,
            Overlay::KubePrometheusStackValues => self.kube_prometheus_stack_values,
            Overlay::ElasticsearchValues => self.elasticsearch_values,
            Overlay::FluentdValues => self.fluentd_values,
            Overlay::KibanaValues => self.kibana_values,
            Overlay::ArgocdValues => self.argocd_values,
            Overlay::CertIssuerManifest => self.cert_issuer_manifest,
            Overlay::NamespacesManifest => self.namespaces_manifest,
            Overlay::NetworkPoliciesManifest => self.network_policies_manifest,
            Overlay::ResourceQuotasManifest => self.resource_quotas_manifest,
            Overlay::SampleChart => self.sample_chart,
        }
    }
}

fn found_at(found: &Vec<bool>, i: usize) -> (r: bool)
    ensures
        r == probe_found(found@, i as nat),
{
    i < found.len() && found[i]
}

/// Probing is a function of what it observes: two probes of an unchanged
/// environment (same package-manager answer, same paths present) yield the same
/// capability set.
pub proof fn reprobe_is_identical(
    pm_first: Option<bool>,
    found_first: Seq<bool>,
    pm_second: Option<bool>,
    found_second: Seq<bool>,
)
    requires
        pm_first == pm_second,
        forall|i: nat| i < PROBE_COUNT ==> probe_found(found_first, i) == probe_found(found_second, i),
    ensures
        Capabilities::from_probes_spec(pm_first, found_first) == Capabilities::from_probes_spec(
            pm_second,
            found_second,
        ),
{
    assert(probe_found(found_first, 0) == probe_found(found_second, 0));
    assert(probe_found(found_first, 1) == probe_found(found_second, 1));
    assert(probe_found(found_first, 2) == probe_found(found_second, 2));
    assert(probe_found(found_first, 3) == probe_found(found_second, 3));
    assert(probe_found(found_first, 4) == probe_found(found_second, 4));
    assert(probe_found(found_first, 5) == probe_found(found_second, 5));
    assert(probe_found(found_first, 6) == probe_found(found_second, 6));
    assert(probe_found(found_first, 7) == probe_found(found_second, 7));
    assert(probe_found(found_first, 8) == probe_found(found_second, 8));
    assert(probe_found(found_first, 9) == probe_found(found_second, 9));
    assert(probe_found(found_first, 10) == probe_found(found_second, 10));
    assert(probe_found(found_first, 11) == probe_found(found_second, 11));
    assert(probe_found(found_first, 12) == probe_found(found_second, 12));
}

} // verus!
