//! Options of a gateway deployment.

use vstd::prelude::*;

verus! {

/// Options for remote SSH deployment.
#[derive(Debug, Clone)]
pub struct RemoteOptions {
    /// SSH destination in the form `user@hostname` or `ssh://user@hostname`.
    pub destination: String,
    /// Path to SSH private key. If None, uses SSH agent.
    pub ssh_key: Option<String>,
}

impl RemoteOptions {
    /// The options of a deployment to `destination` without a key of its own.
    pub open spec fn spec_new(destination: String) -> RemoteOptions {
        RemoteOptions { destination, ssh_key: None }
    }

    /// The options with the given SSH key path.
    pub open spec fn spec_with_ssh_key(self, path: String) -> RemoteOptions {
        RemoteOptions { ssh_key: Some(path), ..self }
    }

    /// Create new remote options with the given SSH destination.
    pub fn new(destination: String) -> (options: Self)
        ensures
            options == Self::spec_new(destination),
    {
        RemoteOptions { destination, ssh_key: None }
    }

    /// Set the SSH key path.
    #[must_use]
    pub fn with_ssh_key(self, path: String) -> (options: Self)
        ensures
            options == self.spec_with_ssh_key(path),
    {
        RemoteOptions { ssh_key: Some(path), ..self }
    }
}

/// Default host port that maps to the k3s `NodePort` (30051) for the gateway.
pub const DEFAULT_GATEWAY_PORT: u16 = 8080;

/// Options of a gateway deployment.
#[derive(Debug, Clone)]
pub struct DeployOptions {
    /// Cluster name.
    pub name: String,
    /// Gateway image. If None, the default image is used.
    pub image_ref: Option<String>,
    /// Remote deployment options. If None, deploys locally.
    pub remote: Option<RemoteOptions>,
    /// Host port to map to the gateway `NodePort` (30051). Defaults to 8080.
    pub port: u16,
    /// Override the gateway host advertised in cluster metadata and passed to
    /// the server. Useful where `127.0.0.1` is not reachable from the client
    /// (e.g., `host.docker.internal`).
    pub gateway_host: Option<String>,
    /// Host port to expose the k3s Kubernetes control plane on.
    /// When `None`, the control plane port (6443) is not exposed on the host,
    /// allowing multiple clusters to run simultaneously without port conflicts.
    pub kube_port: Option<u16>,
    /// Disable TLS entirely: the server listens on plaintext HTTP.
    pub disable_tls: bool,
    /// Disable gateway authentication (mTLS client certificate requirement).
    /// Ignored when `disable_tls` is true.
    pub disable_gateway_auth: bool,
    /// Registry authentication token used to pull images, both during the initial
    /// pull and inside the k3s cluster at runtime.
    pub registry_token: Option<String>,
}

impl DeployOptions {
    /// The options of a local deployment with nothing overridden.
    pub open spec fn spec_new(name: String) -> DeployOptions {
        DeployOptions {
            name,
            image_ref: None,
            remote: None,
            port: 8080,
            gateway_host: None,
            kube_port: None,
            disable_tls: false,
            disable_gateway_auth: false,
            registry_token: None,
        }
    }

    /// The options with the given value in its field.
    pub open spec fn spec_with_remote(self, remote: RemoteOptions) -> DeployOptions {
        DeployOptions { remote: Some(remote), ..self }
    }

    /// The options with the given value in its field.
    pub open spec fn spec_with_port(self, port: u16) -> DeployOptions {
        DeployOptions { port, ..self }
    }

    /// The options with the given value in its field.
    pub open spec fn spec_with_gateway_host(self, host: String) -> DeployOptions {
        DeployOptions { gateway_host: Some(host), ..self }
    }

    /// The options with the given value in its field.
    pub open spec fn spec_with_kube_port(self, kube_port: u16) -> DeployOptions {
        DeployOptions { kube_port: Some(kube_port), ..self }
    }

    /// The options with the given value in its field.
    pub open spec fn spec_with_disable_tls(self, disable: bool) -> DeployOptions {
        DeployOptions { disable_tls: disable, ..self }
    }

    /// The options with the given value in its field.
    pub open spec fn spec_with_disable_gateway_auth(self, disable: bool) -> DeployOptions {
        DeployOptions { disable_gateway_auth: disable, ..self }
    }

    /// The options with the given value in its field.
    pub open spec fn spec_with_registry_token(self, token: String) -> DeployOptions {
        DeployOptions { registry_token: Some(token), ..self }
    }

    /// A local deployment of `name` on the default port, with TLS and gateway
    /// authentication on and nothing overridden.
    pub fn new(name: String) -> (options: Self)
        ensures
            options == Self::spec_new(name),
    {
        DeployOptions {
            name,
            image_ref: None,
            remote: None,
            port: DEFAULT_GATEWAY_PORT,
            gateway_host: None,
            kube_port: None,
            disable_tls: false,
            disable_gateway_auth: false,
            registry_token: None,
        }
    }

    /// Set remote deployment options.
    #[must_use]
    pub fn with_remote(self, remote: RemoteOptions) -> (options: Self)
        ensures
            options == self.spec_with_remote(remote),
    {
        DeployOptions { remote: Some(remote), ..self }
    }

    /// Set the host port for the gateway.
    #[must_use]
    pub fn with_port(self, port: u16) -> (options: Self)
        ensures
            options == self.spec_with_port(port),
    {
        DeployOptions { port, ..self }
    }

    /// Override the gateway host advertised in cluster metadata.
    #[must_use]
    pub fn with_gateway_host(self, host: String) -> (options: Self)
        ensures
            options == self.spec_with_gateway_host(host),
    {
        DeployOptions { gateway_host: Some(host), ..self }
    }

    /// Set the host port for the k3s Kubernetes control plane.
    /// When set, the control plane is accessible via `kubectl` at this port.
    #[must_use]
    pub fn with_kube_port(self, kube_port: u16) -> (options: Self)
        ensures
            options == self.spec_with_kube_port(kube_port),
    {
        DeployOptions { kube_port: Some(kube_port), ..self }
    }

    /// Disable TLS entirely: the server listens on plaintext HTTP.
    #[must_use]
    pub fn with_disable_tls(self, disable: bool) -> (options: Self)
        ensures
            options == self.spec_with_disable_tls(disable),
    {
        DeployOptions { disable_tls: disable, ..self }
    }

    /// Disable gateway authentication (mTLS client certificate requirement).
    #[must_use]
    pub fn with_disable_gateway_auth(self, disable: bool) -> (options: Self)
        ensures
            options == self.spec_with_disable_gateway_auth(disable),
    {
        DeployOptions { disable_gateway_auth: disable, ..self }
    }

    /// Set the registry authentication token for pulling images.
    #[must_use]
    pub fn with_registry_token(self, token: String) -> (options: Self)
        ensures
            options == self.spec_with_registry_token(token),
    {
        DeployOptions { registry_token: Some(token), ..self }
    }
}

/// Setting remote sets it as given and keeps every other option.
pub proof fn law_with_remote_sets_it_only(options: DeployOptions, remote: RemoteOptions)
    ensures
        ({
            let set = options.spec_with_remote(remote);
            &&& set.remote == Some(remote)
            &&& set.name == options.name
            &&& set.image_ref == options.image_ref
            &&& set.port == options.port
            &&& set.gateway_host == options.gateway_host
            &&& set.kube_port == options.kube_port
            &&& set.disable_tls == options.disable_tls
            &&& set.disable_gateway_auth == options.disable_gateway_auth
            &&& set.registry_token == options.registry_token
        }),
{
}

/// Setting port sets it as given and keeps every other option.
pub proof fn law_with_port_sets_it_only(options: DeployOptions, port: u16)
    ensures
        ({
            let set = options.spec_with_port(port);
            &&& set.port == port
            &&& set.name == options.name
            &&& set.image_ref == options.image_ref
            &&& set.remote == options.remote
            &&& set.gateway_host == options.gateway_host
            &&& set.kube_port == options.kube_port
            &&& set.disable_tls == options.disable_tls
            &&& set.disable_gateway_auth == options.disable_gateway_auth
            &&& set.registry_token == options.registry_token
        }),
{
}

/// Setting gateway host sets it as given and keeps every other option.
pub proof fn law_with_gateway_host_sets_it_only(options: DeployOptions, host: String)
    ensures
        ({
            let set = options.spec_with_gateway_host(host);
            &&& set.gateway_host == Some(host)
            &&& set.name == options.name
            &&& set.image_ref == options.image_ref
            &&& set.remote == options.remote
            &&& set.port == options.port
            &&& set.kube_port == options.kube_port
            &&& set.disable_tls == options.disable_tls
            &&& set.disable_gateway_auth == options.disable_gateway_auth
            &&& set.registry_token == options.registry_token
        }),
{
}

/// Setting kube port sets it as given and keeps every other option.
pub proof fn law_with_kube_port_sets_it_only(options: DeployOptions, kube_port: u16)
    ensures
        ({
            let set = options.spec_with_kube_port(kube_port);
            &&& set.kube_port == Some(kube_port)
            &&& set.name == options.name
            &&& set.image_ref == options.image_ref
            &&& set.remote == options.remote
            &&& set.port == options.port
            &&& set.gateway_host == options.gateway_host
            &&& set.disable_tls == options.disable_tls
            &&& set.disable_gateway_auth == options.disable_gateway_auth
            &&& set.registry_token == options.registry_token
        }),
{
}

/// Setting disable tls sets it as given and keeps every other option.
pub proof fn law_with_disable_tls_sets_it_only(options: DeployOptions, disable: bool)
    ensures
        ({
            let set = options.spec_with_disable_tls(disable);
            &&& set.disable_tls == disable
            &&& set.name == options.name
            &&& set.image_ref == options.image_ref
            &&& set.remote == options.remote
            &&& set.port == options.port
            &&& set.gateway_host == options.gateway_host
            &&& set.kube_port == options.kube_port
            &&& set.disable_gateway_auth == options.disable_gateway_auth
            &&& set.registry_token == options.registry_token
        }),
{
}

/// Setting disable gateway auth sets it as given and keeps every other option.
pub proof fn law_with_disable_gateway_auth_sets_it_only(options: DeployOptions, disable: bool)
    ensures
        ({
            let set = options.spec_with_disable_gateway_auth(disable);
            &&& set.disable_gateway_auth == disable
            &&& set.name == options.name
            &&& set.image_ref == options.image_ref
            &&& set.remote == options.remote
            &&& set.port == options.port
            &&& set.gateway_host == options.gateway_host
            &&& set.kube_port == options.kube_port
            &&& set.disable_tls == options.disable_tls
            &&& set.registry_token == options.registry_token
        }),
{
}

/// Setting registry token sets it as given and keeps every other option.
pub proof fn law_with_registry_token_sets_it_only(options: DeployOptions, token: String)
    ensures
        ({
            let set = options.spec_with_registry_token(token);
            &&& set.registry_token == Some(token)
            &&& set.name == options.name
            &&& set.image_ref == options.image_ref
            &&& set.remote == options.remote
            &&& set.port == options.port
            &&& set.gateway_host == options.gateway_host
            &&& set.kube_port == options.kube_port
            &&& set.disable_tls == options.disable_tls
            &&& set.disable_gateway_auth == options.disable_gateway_auth
        }),
{
}

/// A deployment is local, on port 8080, with TLS and authentication on, and with
/// nothing overridden, until that is set.
pub proof fn law_deployments_are_local_and_secured_by_default(name: String)
    ensures
        ({
            let options = DeployOptions::spec_new(name);
            &&& options.name == name
            &&& options.port == 8080 && options.port == DEFAULT_GATEWAY_PORT
            &&& !options.disable_tls && !options.disable_gateway_auth
            &&& options.remote is None && options.image_ref is None
            &&& options.gateway_host is None && options.kube_port is None
            &&& options.registry_token is None
        }),
{
}

/// A remote deployment goes to its destination, with the SSH agent until a key is
/// set, and with the last key that was.
pub proof fn law_remote_options_keep_their_destination(
    destination: String,
    first: String,
    last: String,
)
    ensures
        RemoteOptions::spec_new(destination).destination == destination,
        RemoteOptions::spec_new(destination).ssh_key is None,
        RemoteOptions::spec_new(destination).spec_with_ssh_key(first).spec_with_ssh_key(last)
            == (RemoteOptions { destination, ssh_key: Some(last) }),
{
}

} // verus!
