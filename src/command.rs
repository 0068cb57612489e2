use vstd::prelude::*;
use crate::calls::{Call, Chart, HelmInstall};
use crate::capability::{overlay_path_spec, Overlay};
use crate::manifests::manifest_text_spec;
use crate::paths::SAMPLE_CHART_DIR;
use crate::plan::{decimal, decimal_string, ProdClusterConfig};

verus! {

/// Where the cluster-topology payload is written before cluster creation.
pub const TOPOLOGY_PATH: &'static str = "/tmp/k3d-prod-config.yaml";

/// The command-line tools behind the collaborators.
#[derive(Clone, Copy, Debug, PartialEq, Eq)]
pub enum Tool {
    /// Cluster lifecycle.
    K3d,
    /// Resource management.
    Kubectl,
    /// Package manager.
    Helm,
}

/// A process to run: the tool, its arguments, and what to feed it on standard
/// input.
pub struct Invocation {
    pub tool: Tool,
    pub args: Vec<String>,
    pub input: Option<&'static str>,
}

pub open spec fn strings_view(v: Seq<String>) -> Seq<Seq<char>> {
    v.map_values(|s: String| s@)
}

pub open spec fn opt_arg(flag: Seq<char>, value: Option<&'static str>) -> Seq<Seq<char>> {
    match value {
        Some(v) => seq![flag, v@],
        None => Seq::empty(),
    }
}

pub open spec fn chart_arg(c: Chart) -> Seq<char> {
    match c {
        Chart::Repository(r) => r@,
        Chart::SampleDirectory => SAMPLE_CHART_DIR@,
    }
}

pub open spec fn values_arg(values: Option<Overlay>) -> Seq<Seq<char>> {
    match values {
        Some(o) => seq!["--values"@, overlay_path_spec(o)],
        None => Seq::empty(),
    }
}

pub open spec fn install_args(h: HelmInstall) -> Seq<Seq<char>> {
    seq!["install"@, h.release@, chart_arg(h.chart), "--namespace"@, h.namespace@] + opt_arg(
        "--version"@,
        h.version,
    ) + opt_arg("--set"@, h.set) + values_arg(h.values) + if h.create_namespace {
        seq!["--create-namespace"@]
    } else {
        Seq::empty()
    }
}

/// The tool and arguments that carry out a call, and its standard input;
/// `None` for a settle delay, which runs no process.
pub open spec fn invocation_spec(c: Call, plan: ProdClusterConfig) -> Option<
    (Tool, Seq<Seq<char>>, Option<Seq<char>>),
> {
    match c {
        Call::CreateCluster => Some(
            (
                Tool::K3d,
                seq!["cluster"@, "create"@, plan.name@, "--config"@, TOPOLOGY_PATH@],
                None,
            ),
        ),
        Call::ShowNodes => Some((Tool::Kubectl, seq!["get"@, "nodes"@, "-o"@, "wide"@], None)),
        Call::AddRepo { name, url } => Some((Tool::Helm, seq!["repo"@, "add"@, name@, url@], None)),
        Call::UpdateRepos => Some((Tool::Helm, seq!["repo"@, "update"@], None)),
        Call::CreateNamespace { name } => Some(
            (Tool::Kubectl, seq!["create"@, "namespace"@, name@], None),
        ),
        Call::Install(h) => Some((Tool::Helm, install_args(h), None)),
        Call::ApplyFile { overlay } => Some(
            (Tool::Kubectl, seq!["apply"@, "-f"@, overlay_path_spec(overlay)], None),
        ),
        Call::ApplyDefault { manifest } => Some(
            (Tool::Kubectl, seq!["apply"@, "-f"@, "-"@], Some(manifest_text_spec(manifest))),
        ),
        Call::WaitReady { namespace, selector, timeout_secs } => Some(
            (
                Tool::Kubectl,
                seq![
                    "wait"@,
                    "--namespace"@,
                    namespace@,
                    "--for=condition=ready"@,
                    "pod"@,
                    "--selector="@ + selector@,
                    "--timeout="@ + decimal(timeout_secs as nat) + "s"@,
                ],
                None,
            ),
        ),
        Call::Pause { .. } => None,
    }
}

pub open spec fn invocation_view(i: Invocation) -> (Tool, Seq<Seq<char>>, Option<Seq<char>>) {
    (
        i.tool,
        strings_view(i.args@),
        match i.input {
            Some(t) => Some(t@),
            None => None,
        },
    )
}

fn push_arg(v: &mut Vec<String>, s: &str)
    ensures
        strings_view(final(v)@) == strings_view(old(v)@).push(s@),
{
    v.push(String::from_str(s));
    assert(strings_view(final(v)@) =~= strings_view(old(v)@).push(s@));
}

fn push_string(v: &mut Vec<String>, s: String)
    ensures
        strings_view(final(v)@) == strings_view(old(v)@).push(s@),
{
    let ghost t = s@;
    v.push(s);
    assert(strings_view(final(v)@) =~= strings_view(old(v)@).push(t));
}

fn args_of(parts: &[&str]) -> (r: Vec<String>)
    ensures
        strings_view(r@) == parts@.map_values(|p: &str| p@),
{
    let mut r: Vec<String> = Vec::new();
    let mut i: usize = 0;
    while i < parts.len()
        invariant
            i <= parts@.len(),
            strings_view(r@) == parts@.subrange(0, i as int).map_values(|p: &str| p@),
        decreases parts@.len() - i,
    {
        push_arg(&mut r, parts[i]);
        assert(parts@.subrange(0, i + 1).map_values(|p: &str| p@) =~= parts@.subrange(
            0,
            i as int,
        ).map_values(|p: &str| p@).push(parts@[i as int]@));
        i = i + 1;
    }
    assert(parts@.subrange(0, i as int) =~= parts@);
    r
}

fn push_opt(v: &mut Vec<String>, flag: &str, value: Option<&'static str>)
    ensures
        strings_view(final(v)@) == strings_view(old(v)@) + opt_arg(flag@, value),
{
    let ghost start = strings_view(v@);
    if let Some(x) = value {
        push_arg(v, flag);
        push_arg(v, x);
    }
    assert(strings_view(v@) =~= start + opt_arg(flag@, value));
}

fn push_values(v: &mut Vec<String>, values: Option<Overlay>)
    ensures
        strings_view(final(v)@) == strings_view(old(v)@) + values_arg(values),
{
    let ghost start = strings_view(v@);
    if let Some(o) = values {
        push_arg(v, "--values");
        push_string(v, o.path());
    }
    assert(strings_view(v@) =~= start + values_arg(values));
}

fn chart_text(c: Chart) -> (r: &'static str)
    ensures
        r@ == chart_arg(c),
{
    match c {
        Chart::Repository(r) => r,
        Chart::SampleDirectory => SAMPLE_CHART_DIR,
    }
}

fn install_invocation(h: &HelmInstall) -> (r: Vec<String>)
    ensures
        strings_view(r@) == install_args(*h),
{
    let mut r = args_of(&["install", h.release, chart_text(h.chart), "--namespace", h.namespace]);
    push_opt(&mut r, "--version", h.version);
    push_opt(&mut r, "--set", h.set);
    push_values(&mut r, h.values);
    let ghost before = strings_view(r@);
    if h.create_namespace {
        push_arg(&mut r, "--create-namespace");
    }
    assert(strings_view(r@) =~= before + if h.create_namespace {
        seq!["--create-namespace"@]
    } else {
        Seq::<Seq<char>>::empty()
    });
    r
}

/// How to carry out `c` for `plan`: the tool, its arguments and its standard
/// input; `None` for a settle delay.
pub fn invocation(c: &Call, plan: &ProdClusterConfig) -> (r: Option<Invocation>)
    ensures
        r is Some <==> invocation_spec(*c, *plan) is Some,
        r matches Some(i) ==> invocation_view(i) == invocation_spec(*c, *plan)->Some_0,
{
    proof {
        reveal_strlit("-");
    }
    match c {
        Call::CreateCluster => {
            let mut args = args_of(&["cluster", "create"]);
            push_arg(&mut args, plan.name.as_str());
            push_arg(&mut args, "--config");
            push_arg(&mut args, TOPOLOGY_PATH);
            Some(Invocation { tool: Tool::K3d, args, input: None })
        },
        Call::ShowNodes => Some(
            Invocation { tool: Tool::Kubectl, args: args_of(&["get", "nodes", "-o", "wide"]), input: None },
        ),
        Call::AddRepo { name, url } => Some(
            Invocation { tool: Tool::Helm, args: args_of(&["repo", "add", name, url]), input: None },
        ),
        Call::UpdateRepos => Some(
            Invocation { tool: Tool::Helm, args: args_of(&["repo", "update"]), input: None },
        ),
        Call::CreateNamespace { name } => Some(
            Invocation {
                tool: Tool::Kubectl,
                args: args_of(&["create", "namespace", name]),
                input: None,
            },
        ),
        Call::Install(h) => Some(
            Invocation { tool: Tool::Helm, args: install_invocation(h), input: None },
        ),
        Call::ApplyFile { overlay } => {
            let mut args = args_of(&["apply", "-f"]);
            push_string(&mut args, overlay.path());
            Some(Invocation { tool: Tool::Kubectl, args, input: None })
        },
        Call::ApplyDefault { manifest } => Some(
            Invocation {
                tool: Tool::Kubectl,
                args: args_of(&["apply", "-f", "-"]),
                input: Some(manifest.text()),
            },
        ),
        Call::WaitReady { namespace, selector, timeout_secs } => {
            let mut args = args_of(
                &["wait", "--namespace", namespace, "--for=condition=ready", "pod"],
            );
            push_string(&mut args, String::from_str("--selector=").concat(selector));
            let timeout = decimal_string(*timeout_secs);
            push_string(&mut args, String::from_str("--timeout=").concat(timeout.as_str()).concat("s"));
            Some(Invocation { tool: Tool::Kubectl, args, input: None })
        },
        Call::Pause { .. } => None,
    }
}

pub open spec fn dev_cluster_args_spec(name: Seq<char>, workers: nat) -> Seq<Seq<char>> {
    seq![
        "cluster"@,
        "create"@,
        name,
        "--servers"@,
        "1"@,
        "--agents"@,
        decimal(workers),
        "--port"@,
        "8080:80@loadbalancer"@,
        "--port"@,
        "8443:443@loadbalancer"@,
        "--wait"@,
    ]
}

/// Arguments of the cluster-lifecycle tool that create a single-server
/// development cluster with `workers` agents and the web ports forwarded.
pub fn dev_cluster_args(name: &str, workers: u8) -> (r: Vec<String>)
    ensures
        strings_view(r@) == dev_cluster_args_spec(name@, workers as nat),
{
    let mut r = args_of(&["cluster", "create", name, "--servers", "1", "--agents"]);
    push_string(&mut r, decimal_string(workers as u64));
    let ghost mid = strings_view(r@);
    let tail = args_of(
        &["--port", "8080:80@loadbalancer", "--port", "8443:443@loadbalancer", "--wait"],
    );
    let mut i: usize = 0;
    while i < tail.len()
        invariant
            i <= tail@.len(),
            strings_view(r@) == mid + strings_view(tail@).subrange(0, i as int),
        decreases tail@.len() - i,
    {
        push_arg(&mut r, tail[i].as_str());
        assert(strings_view(tail@).subrange(0, i + 1) =~= strings_view(tail@).subrange(
            0,
            i as int,
        ).push(tail@[i as int]@));
        i = i + 1;
    }
    assert(strings_view(tail@).subrange(0, i as int) =~= strings_view(tail@));
    assert(strings_view(r@) =~= dev_cluster_args_spec(name@, workers as nat));
    r
}

/// Name of the kubeconfig context of cluster `name`.
pub fn context_name(name: &str) -> (r: String)
    ensures
        r@ == "k3d-"@ + name@,
{
    String::from_str("k3d-").concat(name)
}

} // verus!
