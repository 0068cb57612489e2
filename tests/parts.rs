use k3d_manager::calls::{Call, READINESS_TIMEOUT_SECS};
use k3d_manager::capability::{probe_paths, Capabilities, Overlay, OVERLAY_COUNT, PROBE_COUNT};
use k3d_manager::command::{context_name, dev_cluster_args, invocation, Tool, TOPOLOGY_PATH};
use k3d_manager::manifests::DefaultManifest;
use k3d_manager::paths::{get_manifest_file, get_values_file};
use k3d_manager::plan::{cluster_topology, decimal_string, ConfigError, ProdClusterConfig};
use k3d_manager::sequencer::{failure_kind, Failure};
use k3d_manager::step::{SkipReason, StepId, STEP_COUNT};

fn sample_plan() -> ProdClusterConfig {
    ProdClusterConfig {
        name: "edge".to_string(),
        servers: 3,
        agents: 2,
        install_monitoring: true,
        install_logging: false,
        install_argocd: true,
    }
}

#[test]
fn resolve_negates_skip_switches() {
    let c = ProdClusterConfig::resolve("prod-cluster".to_string(), 3, 3, false, true, false).unwrap();
    assert_eq!(c.name, "prod-cluster");
    assert_eq!((c.servers, c.agents), (3, 3));
    assert!(c.install_monitoring);
    assert!(!c.install_logging);
    assert!(c.install_argocd);
}

#[test]
fn resolve_rejects_out_of_range_counts() {
    let r = ProdClusterConfig::resolve("x".to_string(), 0, 3, false, false, false);
    assert_eq!(r.err(), Some(ConfigError::ServersOutOfRange));
    let r = ProdClusterConfig::resolve("x".to_string(), 256, 3, false, false, false);
    assert_eq!(r.err(), Some(ConfigError::ServersOutOfRange));
    let r = ProdClusterConfig::resolve("x".to_string(), 3, 0, false, false, false);
    assert_eq!(r.err(), Some(ConfigError::AgentsOutOfRange));
    let r = ProdClusterConfig::resolve("x".to_string(), 0, 1000, false, false, false);
    assert_eq!(r.err(), Some(ConfigError::ServersOutOfRange));
    let c = ProdClusterConfig::resolve("x".to_string(), 255, 1, true, true, true).unwrap();
    assert_eq!((c.servers, c.agents), (255, 1));
}

#[test]
fn overlay_paths() {
    assert_eq!(get_values_file("cert-manager"), "./helm-values/cert-manager.yaml");
    assert_eq!(get_manifest_file("namespaces"), "./helm-values/manifests/namespaces.yaml");
    assert_eq!(Overlay::KibanaValues.path(), "./helm-values/kibana.yaml");
    assert_eq!(Overlay::SampleChart.path(), "./helm-values/charts/sample-nginx/Chart.yaml");
}

#[test]
fn probe_paths_cover_every_overlay_and_the_chart_dir() {
    let p = probe_paths();
    assert_eq!(p.len(), PROBE_COUNT);
    for i in 0..OVERLAY_COUNT {
        assert_eq!(p[i], Overlay::at(i).path());
    }
    assert_eq!(p[0], "./helm-values/cert-manager.yaml");
    assert_eq!(p[10], "./helm-values/manifests/resource-quotas.yaml");
    assert_eq!(p[12], "./helm-values/charts/sample-nginx");
}

#[test]
fn probing_fails_closed() {
    let all = vec![true; PROBE_COUNT];
    let c = Capabilities::from_probes(None, &all);
    assert!(!c.package_manager);
    assert!(c.cert_manager_values && c.sample_chart);
    let c = Capabilities::from_probes(Some(false), &all);
    assert!(!c.package_manager);
    let short = vec![true; 3];
    let c = Capabilities::from_probes(Some(true), &short);
    assert!(c.package_manager);
    assert!(c.kube_prometheus_stack_values);
    assert!(!c.elasticsearch_values);
    assert!(!c.sample_chart);
    assert!(!c.overlay_present(Overlay::ResourceQuotasManifest));
}

#[test]
fn reprobe_of_unchanged_environment_is_identical() {
    let found = vec![true, false, true, false, false, true, false, true, true, false, false, true, true];
    let first = Capabilities::from_probes(Some(true), &found);
    let second = Capabilities::from_probes(Some(true), &found.clone());
    assert_eq!(first, second);
}

#[test]
fn decimal_rendering() {
    assert_eq!(decimal_string(0), "0");
    assert_eq!(decimal_string(7), "7");
    assert_eq!(decimal_string(255), "255");
    assert_eq!(decimal_string(300), "300");
    assert_eq!(decimal_string(1234567890), "1234567890");
}

#[test]
fn topology_payload_carries_the_plan() {
    let t = cluster_topology(&sample_plan());
    assert!(t.starts_with("\napiVersion: k3d.io/v1alpha5\nkind: Simple\nmetadata:\n  name: edge\nservers: 3\nagents: 2\nimage: rancher/k3s:v1.28.5-k3s1\n"));
    assert!(t.contains("  - port: 5601:5601\n"));
    assert!(t.contains("      - arg: --disable=traefik\n"));
    assert!(t.ends_with("    switchCurrentContext: true\n"));
}

#[test]
fn cluster_creation_invocation() {
    let inv = invocation(&Call::CreateCluster, &sample_plan()).unwrap();
    assert_eq!(inv.tool, Tool::K3d);
    assert_eq!(inv.args, vec!["cluster", "create", "edge", "--config", TOPOLOGY_PATH]);
    assert_eq!(inv.input, None);
}

#[test]
fn readiness_wait_invocation() {
    let c = Call::WaitReady {
        namespace: "argocd",
        selector: "app.kubernetes.io/name=argocd-server",
        timeout_secs: READINESS_TIMEOUT_SECS,
    };
    let inv = invocation(&c, &sample_plan()).unwrap();
    assert_eq!(inv.tool, Tool::Kubectl);
    assert_eq!(
        inv.args,
        vec![
            "wait", "--namespace", "argocd", "--for=condition=ready", "pod",
            "--selector=app.kubernetes.io/name=argocd-server", "--timeout=300s",
        ]
    );
}

#[test]
fn repository_and_namespace_invocations() {
    let p = sample_plan();
    let inv = invocation(&Call::AddRepo { name: "argo", url: "https://argoproj.github.io/argo-helm" }, &p).unwrap();
    assert_eq!(inv.tool, Tool::Helm);
    assert_eq!(inv.args, vec!["repo", "add", "argo", "https://argoproj.github.io/argo-helm"]);
    let inv = invocation(&Call::UpdateRepos, &p).unwrap();
    assert_eq!(inv.args, vec!["repo", "update"]);
    let inv = invocation(&Call::CreateNamespace { name: "logging" }, &p).unwrap();
    assert_eq!(inv.args, vec!["create", "namespace", "logging"]);
    let inv = invocation(&Call::ShowNodes, &p).unwrap();
    assert_eq!(inv.args, vec!["get", "nodes", "-o", "wide"]);
    assert!(invocation(&Call::Pause { seconds: 10 }, &p).is_none());
}

#[test]
fn dev_cluster_arguments() {
    assert_eq!(
        dev_cluster_args("dev-cluster", 2),
        vec![
            "cluster", "create", "dev-cluster", "--servers", "1", "--agents", "2", "--port",
            "8080:80@loadbalancer", "--port", "8443:443@loadbalancer", "--wait",
        ]
    );
    assert_eq!(dev_cluster_args("d", 12)[6], "12");
}

#[test]
fn context_names() {
    assert_eq!(context_name("prod-cluster"), "k3d-prod-cluster");
}

#[test]
fn failures_are_classified() {
    let wait = Call::WaitReady { namespace: "a", selector: "b", timeout_secs: 1 };
    assert_eq!(failure_kind(StepId::CertManager, &wait), Failure::ReadinessTimeout);
    assert_eq!(failure_kind(StepId::CreateCluster, &Call::CreateCluster), Failure::ClusterCreate);
    assert_eq!(failure_kind(StepId::CreateCluster, &Call::ShowNodes), Failure::ClusterCreate);
    assert_eq!(failure_kind(StepId::Namespaces, &Call::ApplyDefault { manifest: DefaultManifest::Namespaces }), Failure::StepAction);
}

#[test]
fn steps_and_ranks_agree() {
    for r in 0..STEP_COUNT {
        assert_eq!(StepId::at(r).rank(), r);
    }
    assert_eq!(StepId::at_opt(STEP_COUNT), None);
    assert_eq!(StepId::at_opt(0), Some(StepId::CreateCluster));
}

#[test]
fn skip_reasons() {
    let mut plan = sample_plan();
    let with_pm = Capabilities::from_probes(Some(true), &vec![]);
    let without_pm = Capabilities::from_probes(Some(false), &vec![]);
    assert_eq!(StepId::Logging.skip_reason(&plan, &with_pm), Some(SkipReason::FeatureDisabled));
    assert_eq!(StepId::Logging.skip_reason(&plan, &without_pm), Some(SkipReason::PackageManagerUnavailable));
    assert_eq!(StepId::Monitoring.skip_reason(&plan, &with_pm), None);
    assert_eq!(StepId::Namespaces.skip_reason(&plan, &without_pm), None);
    assert_eq!(StepId::CreateCluster.skip_reason(&plan, &without_pm), None);
    assert_eq!(StepId::NetworkPolicies.skip_reason(&plan, &without_pm), Some(SkipReason::PackageManagerUnavailable));
    plan.install_argocd = false;
    assert_eq!(StepId::ArgoCd.skip_reason(&plan, &with_pm), Some(SkipReason::FeatureDisabled));
}

#[test]
fn default_manifests() {
    assert!(DefaultManifest::CertIssuer.text().contains("name: local-ca-issuer"));
    assert!(DefaultManifest::Namespaces.text().contains("name: staging"));
    assert!(DefaultManifest::NetworkPolicies.text().contains("default-deny-ingress"));
    assert!(DefaultManifest::ResourceQuotas.text().contains("kind: LimitRange"));
}
