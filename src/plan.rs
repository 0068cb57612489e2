use vstd::prelude::*;

verus! {

/// The immutable bootstrap plan: cluster topology and feature flags.
pub struct ProdClusterConfig {
    pub name: String,
    pub servers: u8,
    pub agents: u8,
    pub install_monitoring: bool,
    pub install_logging: bool,
    pub install_argocd: bool,
}

/// Rejected plan input.
#[derive(Clone, Copy, Debug, PartialEq, Eq)]
pub enum ConfigError {
    /// The server count is not in `1..=255`.
    ServersOutOfRange,
    /// The agent count is not in `1..=255`.
    AgentsOutOfRange,
}

/// Largest accepted node count of either kind.
pub const MAX_NODES: u64 = 255;

pub open spec fn count_in_range(n: u64) -> bool {
    1 <= n && n <= MAX_NODES
}

impl ProdClusterConfig {
    /// Builds the plan from the caller's parameters; each feature flag is the
    /// negation of its skip switch. Server and agent counts must lie in
    /// `1..=255`; the server count is checked first.
    pub fn resolve(
        name: String,
        servers: u64,
        agents: u64,
        skip_monitoring: bool,
        skip_logging: bool,
        skip_argocd: bool,
    ) -> (r: Result<ProdClusterConfig, ConfigError>)
        ensures
            !count_in_range(servers) ==> r == Err::<ProdClusterConfig, ConfigError>(
                ConfigError::ServersOutOfRange,
            ),
            count_in_range(servers) && !count_in_range(agents) ==> r == Err::<
                ProdClusterConfig,
                ConfigError,
            >(ConfigError::AgentsOutOfRange),
            count_in_range(servers) && count_in_range(agents) ==> r is Ok,
            r matches Ok(c) ==> {
                &&& c.name == name
                &&& c.servers == servers
                &&& c.agents == agents
                &&& c.install_monitoring == !skip_monitoring
                &&& c.install_logging == !skip_logging
                &&& c.install_argocd == !skip_argocd
            },
    {
        if servers < 1 || servers > MAX_NODES {
            return Err(ConfigError::ServersOutOfRange);
        }
        if agents < 1 || agents > MAX_NODES {
            return Err(ConfigError::AgentsOutOfRange);
        }
        Ok(
            ProdClusterConfig {
                name,
                servers: servers as u8,
                agents: agents as u8,
                install_monitoring: !skip_monitoring,
                install_logging: !skip_logging,
                install_argocd: !skip_argocd,
            },
        )
    }
}

pub open spec fn digit_char(d: nat) -> char {
    if d == 0 {
        '0'
    } else if d == 1 {
        '1'
    } else if d == 2 {
        '2'
    } else if d == 3 {
        '3'
    } else if d == 4 {
        '4'
    } else if d == 5 {
        '5'
    } else if d == 6 {
        '6'
    } else if d == 7 {
        '7'
    } else if d == 8 {
        '8'
    } else {
        '9'
    }
}

/// Decimal notation of a natural number, without leading zeros.
pub open spec fn decimal(n: nat) -> Seq<char>
    decreases n,
{
    if n < 10 {
        seq![digit_char(n)]
    } else {
        decimal(n / 10).push(digit_char(n % 10))
    }
}

fn push_digit(s: &mut String, d: u8)
    requires
        d < 10,
    ensures
        final(s)@ == old(s)@.push(digit_char(d as nat)),
{
    let t: &str = match d {
        0 => "0",
        1 => "1",
        2 => "2",
        3 => "3",
        4 => "4",
        5 => "5",
        6 => "6",
        7 => "7",
        8 => "8",
        _ => "9",
    };
    proof {
        reveal_strlit("0");
        reveal_strlit("1");
        reveal_strlit("2");
        reveal_strlit("3");
        reveal_strlit("4");
        reveal_strlit("5");
        reveal_strlit("6");
        reveal_strlit("7");
        reveal_strlit("8");
        reveal_strlit("9");
    }
    assert(t@ == seq![digit_char(d as nat)]);
    s.append(t);
}

/// Writes `n` in decimal.
pub fn decimal_string(n: u64) -> (r: String)
    ensures
        r@ == decimal(n as nat),
    decreases n,
{
    if n < 10 {
        let mut s = String::new();
        push_digit(&mut s, n as u8);
        assert(s@ =~= decimal(n as nat));
        s
    } else {
        let mut s = decimal_string(n / 10);
        push_digit(&mut s, (n % 10) as u8);
        s
    }
}

/// Cluster-topology payload up to the cluster name.
pub const TOPOLOGY_HEAD: &'static str = "
apiVersion: k3d.io/v1alpha5
kind: Simple
metadata:
  name: ";

pub const TOPOLOGY_SERVERS: &'static str = "
servers: ";

pub const TOPOLOGY_AGENTS: &'static str = "
agents: ";

/// Cluster-topology payload after the agent count: image, port mappings, the
/// storage mount, the embedded registry, disabled built-in load balancer and
/// ingress, and the switch of the default context to the new cluster.
pub const TOPOLOGY_TAIL: &'static str = r#"
image: rancher/k3s:v1.28.5-k3s1

ports:
  - port: 80:80
    nodeFilters:
      - loadbalancer
  - port: 443:443
    nodeFilters:
      - loadbalancer
  - port: 9090:9090
    nodeFilters:
      - loadbalancer
  - port: 3000:3000
    nodeFilters:
      - loadbalancer
  - port: 8080:8080
    nodeFilters:
      - loadbalancer
  - port: 5601:5601
    nodeFilters:
      - loadbalancer

volumes:
  - volume: /tmp/k3d-storage:/var/lib/rancher/k3s/storage
    nodeFilters:
      - all

registries:
  create:
    name: registry.localhost
    host: "0.0.0.0"
    hostPort: "5000"

options:
  k3s:
    extraArgs:
      - arg: --disable=traefik
        nodeFilters:
          - server:*
      - arg: --disable=servicelb
        nodeFilters:
          - server:*
  kubeconfig:
    updateDefaultKubeconfig: true
    switchCurrentContext: true
"#;

/// The cluster-topology payload handed to the cluster-lifecycle tool.
pub open spec fn topology_spec(name: Seq<char>, servers: nat, agents: nat) -> Seq<char> {
    TOPOLOGY_HEAD@ + name + TOPOLOGY_SERVERS@ + decimal(servers) + TOPOLOGY_AGENTS@ + decimal(
        agents,
    ) + TOPOLOGY_TAIL@
}

/// Renders the plan's topology into the cluster-lifecycle tool's payload.
pub fn cluster_topology(config: &ProdClusterConfig) -> (r: String)
    ensures
        r@ == topology_spec(config.name@, config.servers as nat, config.agents as nat),
{
    let mut s = String::from_str(TOPOLOGY_HEAD);
    s.append(config.name.as_str());
    s.append(TOPOLOGY_SERVERS);
    let servers = decimal_string(config.servers as u64);
    s.append(servers.as_str());
    s.append(TOPOLOGY_AGENTS);
    let agents = decimal_string(config.agents as u64);
    s.append(agents.as_str());
    s.append(TOPOLOGY_TAIL);
    s
}

} // verus!
