use vstd::prelude::*;

verus! {

/// Self-signed issuer, a local certificate authority, and an issuer backed by it.
pub const CERT_ISSUER_MANIFEST: &'static str = r#"
apiVersion: cert-manager.io/v1
kind: ClusterIssuer
metadata:
  name: selfsigned-issuer
spec:
  selfSigned: {}
---
apiVersion: cert-manager.io/v1
kind: Certificate
metadata:
  name: local-ca
  namespace: cert-manager
spec:
  isCA: true
  commonName: local-ca
  secretName: local-ca-secret
  privateKey:
    algorithm: ECDSA
    size: 256
  issuerRef:
    name: selfsigned-issuer
    kind: ClusterIssuer
---
apiVersion: cert-manager.io/v1
kind: ClusterIssuer
metadata:
  name: local-ca-issuer
spec:
  ca:
    secretName: local-ca-secret
"#;

/// The production, staging and development namespaces.
pub const NAMESPACES_MANIFEST: &'static str = r#"
apiVersion: v1
kind: Namespace
metadata:
  name: production
  labels:
    environment: production
---
apiVersion: v1
kind: Namespace
metadata:
  name: staging
  labels:
    environment: staging
---
apiVersion: v1
kind: Namespace
metadata:
  name: development
  labels:
    environment: development
"#;

/// Deny ingress into production except from within the namespace.
pub const NETWORK_POLICIES_MANIFEST: &'static str = r#"
apiVersion: networking.k8s.io/v1
kind: NetworkPolicy
metadata:
  name: default-deny-ingress
  namespace: production
spec:
  podSelector: {}
  policyTypes:
  - Ingress
---
apiVersion: networking.k8s.io/v1
kind: NetworkPolicy
metadata:
  name: allow-same-namespace
  namespace: production
spec:
  podSelector: {}
  policyTypes:
  - Ingress
  ingress:
  - from:
    - podSelector: {}
"#;

/// Compute quota and container limit range of the production namespace.
pub const RESOURCE_QUOTAS_MANIFEST: &'static str = r#"
apiVersion: v1
kind: ResourceQuota
metadata:
  name: compute-quota
  namespace: production
spec:
  hard:
    requests.cpu: "10"
    requests.memory: 20Gi
    limits.cpu: "20"
    limits.memory: 40Gi
---
apiVersion: v1
kind: LimitRange
metadata:
  name: resource-limits
  namespace: production
spec:
  limits:
  - max:
      cpu: "2"
      memory: 4Gi
    min:
      cpu: 100m
      memory: 128Mi
    default:
      cpu: 500m
      memory: 512Mi
    defaultRequest:
      cpu: 250m
      memory: 256Mi
    type: Container
"#;

/// A two-replica nginx deployment and its service in the production namespace.
pub const SAMPLE_NGINX_MANIFEST: &'static str = r#"
apiVersion: apps/v1
kind: Deployment
metadata:
  name: sample-nginx
  namespace: production
spec:
  replicas: 2
  selector:
    matchLabels:
      app: nginx
  template:
    metadata:
      labels:
        app: nginx
    spec:
      containers:
      - name: nginx
        image: nginx:latest
        ports:
        - containerPort: 80
---
apiVersion: v1
kind: Service
metadata:
  name: sample-nginx
  namespace: production
spec:
  selector:
    app: nginx
  ports:
  - port: 80
    targetPort: 80
"#;

/// The built-in manifests that stand in for absent manifest overlays.
#[derive(Clone, Copy, Debug, PartialEq, Eq)]
pub enum DefaultManifest {
    CertIssuer,
    Namespaces,
    NetworkPolicies,
    ResourceQuotas,
    SampleNginx,
}

pub open spec fn manifest_text_spec(m: DefaultManifest) -> Seq<char> {
    match m {
        DefaultManifest::CertIssuer => CERT_ISSUER_MANIFEST@,
        DefaultManifest::Namespaces => NAMESPACES_MANIFEST@,
        DefaultManifest::NetworkPolicies => NETWORK_POLICIES_MANIFEST@,
        DefaultManifest::ResourceQuotas => RESOURCE_QUOTAS_MANIFEST@,
        DefaultManifest::SampleNginx => SAMPLE_NGINX_MANIFEST@,
    }
}

impl DefaultManifest {
    /// The manifest text handed to the resource-management tool.
    pub fn text(self) -> (r: &'static str)
        ensures
            r@ == manifest_text_spec(self),
    {
        match self {
            DefaultManifest::CertIssuer => CERT_ISSUER_MANIFEST,
            DefaultManifest::Namespaces => NAMESPACES_MANIFEST,
            DefaultManifest::NetworkPolicies => NETWORK_POLICIES_MANIFEST,
            DefaultManifest::ResourceQuotas => RESOURCE_QUOTAS_MANIFEST,
            DefaultManifest::SampleNginx => SAMPLE_NGINX_MANIFEST,
        }
    }
}

} // verus!
