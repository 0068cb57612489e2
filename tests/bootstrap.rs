use k3d_manager::calls::{calls_of, deploy_basic_nginx, overlay_call_for, Call, Chart};
use k3d_manager::capability::{Capabilities, Overlay, PROBE_COUNT};
use k3d_manager::command::{invocation, Tool};
use k3d_manager::manifests::DefaultManifest;
use k3d_manager::plan::ProdClusterConfig;
use k3d_manager::report::{report_of, BootstrapReport, Endpoint, SummaryVariant};
use k3d_manager::sequencer::{Failure, Outcome, Sequencer, StepResult};
use k3d_manager::step::{SkipReason, StepId, STEP_COUNT};

fn plan(monitoring: bool, logging: bool, argocd: bool) -> ProdClusterConfig {
    ProdClusterConfig {
        name: "prod-cluster".to_string(),
        servers: 3,
        agents: 3,
        install_monitoring: monitoring,
        install_logging: logging,
        install_argocd: argocd,
    }
}

fn caps(package_manager: bool) -> Capabilities {
    Capabilities::from_probes(Some(package_manager), &vec![false; PROBE_COUNT])
}

/// Drives a run to its end; `fails` picks the call whose outcome is a failure.
fn drive(
    plan: ProdClusterConfig,
    caps: Capabilities,
    fails: impl Fn(StepId, &Call) -> bool,
) -> (BootstrapReport, Vec<(StepId, Call)>) {
    let mut s = Sequencer::new(plan, caps);
    let mut made = Vec::new();
    while let Some(call) = s.next_call() {
        let step = s.current().unwrap();
        made.push((step, call));
        s.record(!fails(step, &call));
    }
    (report_of(&s), made)
}

fn outcomes(r: &BootstrapReport) -> Vec<(StepId, Outcome)> {
    r.results.iter().map(|x| (x.step, x.outcome)).collect()
}

#[test]
fn full_plan_without_logging_uses_defaults() {
    let (r, made) = drive(plan(true, false, true), caps(true), |_, _| false);
    let expected = vec![
        (StepId::CreateCluster, Outcome::Succeeded),
        (StepId::HelmRepos, Outcome::Succeeded),
        (StepId::CertManager, Outcome::Succeeded),
        (StepId::IngressController, Outcome::Succeeded),
        (StepId::Monitoring, Outcome::Succeeded),
        (StepId::Logging, Outcome::Skipped(SkipReason::FeatureDisabled)),
        (StepId::ArgoCd, Outcome::Succeeded),
        (StepId::Namespaces, Outcome::Succeeded),
        (StepId::NetworkPolicies, Outcome::Succeeded),
        (StepId::ResourceQuotas, Outcome::Succeeded),
        (StepId::SampleApp, Outcome::Succeeded),
    ];
    assert_eq!(outcomes(&r), expected);
    assert_eq!(r.failure, None);
    assert!(made.iter().all(|(s, _)| *s != StepId::Logging));
    for (_, c) in &made {
        match c {
            Call::Install(h) => assert_eq!(h.values, None),
            Call::ApplyFile { .. } => panic!("no overlay is present"),
            _ => {}
        }
    }
    assert!(made.contains(&(StepId::SampleApp, deploy_basic_nginx())));
    let summary = r.summary.unwrap();
    assert_eq!(summary.variant, SummaryVariant::Full);
    assert_eq!(summary.cluster, "prod-cluster");
    assert_eq!(
        summary.endpoints,
        vec![Endpoint::Prometheus, Endpoint::Grafana, Endpoint::ArgoCd, Endpoint::SampleApp]
    );
}

#[test]
fn without_package_manager_only_cluster_and_namespaces_run() {
    let (r, made) = drive(plan(true, false, true), caps(false), |_, _| false);
    for res in &r.results {
        match res.step {
            StepId::CreateCluster | StepId::Namespaces => assert_eq!(res.outcome, Outcome::Succeeded),
            _ => assert_eq!(res.outcome, Outcome::Skipped(SkipReason::PackageManagerUnavailable)),
        }
    }
    assert_eq!(r.results.len(), STEP_COUNT);
    let p = plan(true, false, true);
    for (step, c) in &made {
        assert!(*step == StepId::CreateCluster || *step == StepId::Namespaces);
        if let Some(inv) = invocation(c, &p) {
            assert_ne!(inv.tool, Tool::Helm);
        }
    }
    let summary = r.summary.unwrap();
    assert_eq!(summary.variant, SummaryVariant::Basic);
    assert!(summary.endpoints.is_empty());
}

#[test]
fn ingress_readiness_timeout_aborts() {
    let (r, made) = drive(plan(true, false, true), caps(true), |s, c| {
        s == StepId::IngressController && matches!(c, Call::WaitReady { .. })
    });
    assert_eq!(
        outcomes(&r),
        vec![
            (StepId::CreateCluster, Outcome::Succeeded),
            (StepId::HelmRepos, Outcome::Succeeded),
            (StepId::CertManager, Outcome::Succeeded),
            (StepId::IngressController, Outcome::Failed(Failure::ReadinessTimeout)),
        ]
    );
    assert_eq!(r.failure, Some((StepId::IngressController, Failure::ReadinessTimeout)));
    assert!(r.summary.is_none());
    assert!(matches!(made.last().unwrap().1, Call::WaitReady { .. }));
    assert!(made.iter().all(|(s, _)| s.rank() <= StepId::IngressController.rank()));
}

#[test]
fn failed_action_keeps_earlier_results_and_stops() {
    let p = plan(true, true, true);
    let mut s = Sequencer::new(p, caps(true));
    let mut steps_seen = Vec::new();
    while let Some(call) = s.next_call() {
        let step = s.current().unwrap();
        steps_seen.push(step);
        let fail = step == StepId::Logging && matches!(call, Call::Install(_));
        s.record(!fail);
    }
    let before: Vec<StepResult> = s.results_so_far();
    assert_eq!(before.len(), 6);
    assert_eq!(before[5].outcome, Outcome::Failed(Failure::StepAction));
    assert!(before[..5].iter().all(|x| x.outcome == Outcome::Succeeded));
    assert!(s.is_finished());
    assert_eq!(s.next_call(), None);
    s.record(true);
    s.record(false);
    assert_eq!(s.results_so_far(), before);
    assert!(steps_seen.iter().all(|st| st.rank() <= StepId::Logging.rank()));
}

#[test]
fn cluster_creation_failure_runs_nothing_else() {
    let (r, made) = drive(plan(true, true, true), caps(true), |_, c| *c == Call::CreateCluster);
    assert_eq!(outcomes(&r), vec![(StepId::CreateCluster, Outcome::Failed(Failure::ClusterCreate))]);
    assert_eq!(made.len(), 1);
}

#[test]
fn monitoring_off_touches_no_monitoring_call() {
    for _ in 0..2 {
        let (r, made) = drive(plan(false, true, true), caps(true), |_, _| false);
        assert_eq!(r.results[4].outcome, Outcome::Skipped(SkipReason::FeatureDisabled));
        assert!(made.iter().all(|(s, _)| *s != StepId::Monitoring));
        assert!(!made.contains(&(StepId::Monitoring, Call::CreateNamespace { name: "monitoring" })));
    }
}

#[test]
fn external_values_are_passed_verbatim() {
    let p = plan(true, true, true);
    let mut found = vec![false; PROBE_COUNT];
    found[0] = true;
    let with = Capabilities::from_probes(Some(true), &found);
    let calls = calls_of(StepId::CertManager, &with);
    let inv = invocation(&calls[1], &p).unwrap();
    assert_eq!(inv.tool, Tool::Helm);
    assert_eq!(
        inv.args,
        vec![
            "install", "cert-manager", "jetstack/cert-manager", "--namespace", "cert-manager",
            "--version", "v1.13.2", "--set", "installCRDs=true", "--values",
            "./helm-values/cert-manager.yaml",
        ]
    );
    let without = caps(true);
    let bare = calls_of(StepId::CertManager, &without);
    assert_eq!(bare.len(), calls.len());
    let inv = invocation(&bare[1], &p).unwrap();
    assert!(!inv.args.iter().any(|a| a == "--values"));
    assert_eq!(bare[4], Call::ApplyDefault { manifest: DefaultManifest::CertIssuer });
}

#[test]
fn ingress_defaults_replace_missing_values() {
    let p = plan(true, true, true);
    let c = overlay_call_for(Overlay::IngressNginxValues, false);
    let inv = invocation(&c, &p).unwrap();
    assert_eq!(
        inv.args,
        vec![
            "install", "ingress-nginx", "ingress-nginx/ingress-nginx", "--namespace", "ingress-nginx",
            "--set", "controller.hostPort.enabled=true,controller.service.type=NodePort",
        ]
    );
}

#[test]
fn sample_chart_is_installed_when_present() {
    let p = plan(true, true, true);
    let mut found = vec![false; PROBE_COUNT];
    found[11] = true;
    found[12] = true;
    let with = Capabilities::from_probes(Some(true), &found);
    assert!(with.sample_chart);
    let calls = calls_of(StepId::SampleApp, &with);
    match calls[0] {
        Call::Install(h) => assert_eq!(h.chart, Chart::SampleDirectory),
        _ => panic!("expected a chart install"),
    }
    let inv = invocation(&calls[0], &p).unwrap();
    assert_eq!(
        inv.args,
        vec![
            "install", "sample-nginx", "./helm-values/charts/sample-nginx", "--namespace",
            "production", "--create-namespace",
        ]
    );
    found[12] = false;
    let half = Capabilities::from_probes(Some(true), &found);
    assert!(!half.sample_chart);
    assert_eq!(calls_of(StepId::SampleApp, &half)[0], deploy_basic_nginx());
}

#[test]
fn manifest_overlay_is_applied_from_its_file() {
    let p = plan(true, true, true);
    let mut found = vec![false; PROBE_COUNT];
    found[8] = true;
    let with = Capabilities::from_probes(Some(false), &found);
    let calls = calls_of(StepId::Namespaces, &with);
    assert_eq!(calls, vec![Call::ApplyFile { overlay: Overlay::NamespacesManifest }]);
    let inv = invocation(&calls[0], &p).unwrap();
    assert_eq!(inv.tool, Tool::Kubectl);
    assert_eq!(inv.args, vec!["apply", "-f", "./helm-values/manifests/namespaces.yaml"]);
    assert_eq!(inv.input, None);
}

#[test]
fn default_manifest_goes_through_stdin() {
    let p = plan(true, true, true);
    let inv = invocation(&deploy_basic_nginx(), &p).unwrap();
    assert_eq!(inv.args, vec!["apply", "-f", "-"]);
    let text = inv.input.unwrap();
    assert!(text.contains("kind: Deployment"));
    assert!(text.contains("name: sample-nginx"));
}
