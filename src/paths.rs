use vstd::prelude::*;

verus! {

/// Directory that holds the optional values overlays, manifests and charts.
pub const HELM_VALUES_DIR: &'static str = "./helm-values";

/// Directory of the sample workload's chart.
pub const SAMPLE_CHART_DIR: &'static str = "./helm-values/charts/sample-nginx";

/// The chart descriptor that marks the sample chart directory as usable.
pub const SAMPLE_CHART_FILE: &'static str = "./helm-values/charts/sample-nginx/Chart.yaml";

/// Path of the values overlay of a chart component.
pub open spec fn values_file_path(component: Seq<char>) -> Seq<char> {
    HELM_VALUES_DIR@ + "/"@ + component + ".yaml"@
}

/// Path of a manifest overlay.
pub open spec fn manifest_file_path(name: Seq<char>) -> Seq<char> {
    HELM_VALUES_DIR@ + "/manifests/"@ + name + ".yaml"@
}

pub fn get_values_file(component: &str) -> (r: String)
    ensures
        r@ == values_file_path(component@),
{
    String::from_str(HELM_VALUES_DIR).concat("/").concat(component).concat(".yaml")
}

pub fn get_manifest_file(name: &str) -> (r: String)
    ensures
        r@ == manifest_file_path(name@),
{
    String::from_str(HELM_VALUES_DIR).concat("/manifests/").concat(name).concat(".yaml")
}

} // verus!
