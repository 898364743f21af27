//! What is stored of a gateway between runs.

use vstd::prelude::*;
use vstd::string::*;
use crate::options::{RemoteOptions, DEFAULT_GATEWAY_PORT};
use crate::text::same_text;

verus! {

/// Stored description of a gateway.
#[derive(Debug, Clone)]
pub struct ClusterMetadata {
    pub name: String,
    /// Gateway endpoint URL (e.g., `https://127.0.0.1:8080`).
    pub gateway_endpoint: String,
    pub is_remote: bool,
    pub gateway_port: u16,
    pub kube_port: Option<u16>,
    pub remote_host: Option<String>,
    pub resolved_host: Option<String>,
    /// How clients authenticate, where it is not by client certificate.
    pub auth_mode: Option<String>,
    pub edge_team_domain: Option<String>,
    pub edge_auth_url: Option<String>,
}

/// A deployed gateway.
#[derive(Debug, Clone)]
pub struct ClusterHandle {
    name: String,
    kubeconfig_path: String,
    metadata: ClusterMetadata,
}

impl ClusterHandle {
    /// The cluster name.
    pub closed spec fn spec_name(&self) -> String {
        self.name
    }

    /// Where the kubeconfig is stored.
    pub closed spec fn spec_kubeconfig_path(&self) -> String {
        self.kubeconfig_path
    }

    /// The stored description.
    pub closed spec fn spec_metadata(&self) -> ClusterMetadata {
        self.metadata
    }

    /// A handle that holds the given parts.
    pub fn new(name: String, kubeconfig_path: String, metadata: ClusterMetadata) -> (handle: Self)
        ensures
            handle.spec_name() == name,
            handle.spec_kubeconfig_path() == kubeconfig_path,
            handle.spec_metadata() == metadata,
    {
        ClusterHandle { name, kubeconfig_path, metadata }
    }

    /// Get the cluster name.
    pub fn name(&self) -> (name: &str)
        ensures
            name@ == self.spec_name()@,
    {
        self.name.as_str()
    }

    /// Get the path of the stored kubeconfig.
    pub fn kubeconfig_path(&self) -> (path: &str)
        ensures
            path@ == self.spec_kubeconfig_path()@,
    {
        self.kubeconfig_path.as_str()
    }

    /// Get the cluster metadata.
    pub fn metadata(&self) -> (metadata: &ClusterMetadata)
        ensures
            *metadata == self.spec_metadata(),
    {
        &self.metadata
    }

    /// Get the gateway endpoint URL.
    pub fn gateway_endpoint(&self) -> (endpoint: &str)
        ensures
            endpoint@ == self.spec_metadata().gateway_endpoint@,
    {
        self.metadata.gateway_endpoint.as_str()
    }
}

/// What the metadata of a cluster is made from where none is stored.
#[derive(Debug)]
pub struct MetadataRequest<'a> {
    pub name: &'a str,
    pub remote: Option<&'a RemoteOptions>,
    pub port: u16,
    pub kube_port: Option<u16>,
}

/// `request` is what the metadata of an existing cluster is made from where none is
/// stored.
pub open spec fn is_fallback_request(
    request: MetadataRequest,
    name: Seq<char>,
    remote: Option<&RemoteOptions>,
) -> bool {
    &&& request.name@ == name
    &&& request.remote == remote
    &&& request.port == 8080
    &&& request.kube_port is None
}

/// What the metadata of an existing cluster is made from where none is stored: its
/// name and machine, the default gateway port and no control plane port, since the
/// actual ports are only known at deploy time.
pub fn fallback_request<'a>(name: &'a str, remote: Option<&'a RemoteOptions>) -> (request:
    MetadataRequest<'a>)
    ensures
        is_fallback_request(request, name@, remote),
        request.name == name,
{
    MetadataRequest { name, remote, port: DEFAULT_GATEWAY_PORT, kube_port: None }
}

/// `handle` is the handle of an existing cluster.
pub open spec fn is_handle_with(
    handle: ClusterHandle,
    name: Seq<char>,
    kubeconfig_path: String,
    stored: Option<ClusterMetadata>,
    fallback: ClusterMetadata,
) -> bool {
    &&& handle.spec_name()@ == name
    &&& handle.spec_kubeconfig_path() == kubeconfig_path
    &&& handle.spec_metadata() == (match stored {
        Some(metadata) => metadata,
        None => fallback,
    })
}

/// Get a handle to an existing cluster: with its stored metadata where there is
/// any, and with `fallback`, made as `fallback_request` says, where there is none.
pub fn cluster_handle(
    name: &str,
    kubeconfig_path: String,
    stored: Option<ClusterMetadata>,
    fallback: ClusterMetadata,
) -> (handle: ClusterHandle)
    ensures
        is_handle_with(handle, name@, kubeconfig_path, stored, fallback),
{
    let metadata = match stored {
        Some(metadata) => metadata,
        None => fallback,
    };
    ClusterHandle::new(name.to_owned(), kubeconfig_path, metadata)
}

/// Metadata stored under a cluster name.
#[derive(Debug)]
pub struct StoredCluster {
    /// The name under which the metadata is stored.
    pub key: String,
    pub metadata: ClusterMetadata,
}

/// A text stored under a cluster name.
#[derive(Debug)]
pub struct StoredText {
    /// The name under which the text is stored.
    pub key: String,
    pub text: String,
}

/// What the configuration directory holds at the start of a command.
#[derive(Debug)]
pub struct GatewayStore {
    /// The active cluster, where one is selected.
    pub active: Option<String>,
    /// The clusters with readable metadata, in the order in which they are listed.
    pub clusters: Vec<StoredCluster>,
    /// Whether the list of clusters could be read.
    pub listable: bool,
    /// Stored edge tokens.
    pub edge_tokens: Vec<StoredText>,
    /// The sandbox that was last used in each cluster.
    pub last_sandboxes: Vec<StoredText>,
}

/// The first metadata stored under `key`.
pub open spec fn metadata_under(clusters: Seq<StoredCluster>, key: Seq<char>) -> Option<
    ClusterMetadata,
>
    decreases clusters.len(),
{
    if clusters.len() == 0 {
        None
    } else if clusters.first().key@ == key {
        Some(clusters.first().metadata)
    } else {
        metadata_under(clusters.drop_first(), key)
    }
}

/// The first text stored under `key`.
pub open spec fn text_under(entries: Seq<StoredText>, key: Seq<char>) -> Option<Seq<char>>
    decreases entries.len(),
{
    if entries.len() == 0 {
        None
    } else if entries.first().key@ == key {
        Some(entries.first().text@)
    } else {
        text_under(entries.drop_first(), key)
    }
}

/// The first text stored under `key`.
fn find_text<'a>(entries: &'a Vec<StoredText>, key: &str) -> (found: Option<&'a String>)
    ensures
        found is Some <==> text_under(entries@, key@) is Some,
        found matches Some(text) ==> text_under(entries@, key@) == Some(text@),
{
    let mut i: usize = 0;
    assert(entries@.skip(0) =~= entries@);
    while i < entries.len()
        invariant
            i <= entries@.len(),
            text_under(entries@, key@) == text_under(entries@.skip(i as int), key@),
        decreases entries@.len() - i,
    {
        if same_text(entries[i].key.as_str(), key) {
            return Some(&entries[i].text);
        }
        assert(entries@.skip(i as int).drop_first() =~= entries@.skip(i + 1));
        i += 1;
    }
    None
}

impl GatewayStore {
    /// A store that holds nothing.
    pub fn empty() -> (store: Self)
        ensures
            store.active is None,
            store.clusters@.len() == 0,
            store.listable,
            store.edge_tokens@.len() == 0,
            store.last_sandboxes@.len() == 0,
    {
        GatewayStore {
            active: None,
            clusters: Vec::new(),
            listable: true,
            edge_tokens: Vec::new(),
            last_sandboxes: Vec::new(),
        }
    }

    /// The metadata stored under `name`.
    pub open spec fn spec_metadata(&self, name: Seq<char>) -> Option<ClusterMetadata> {
        metadata_under(self.clusters@, name)
    }

    /// Load the metadata stored under `name`.
    pub fn load_cluster_metadata(&self, name: &str) -> (found: Option<&ClusterMetadata>)
        ensures
            found is Some <==> self.spec_metadata(name@) is Some,
            found matches Some(metadata) ==> self.spec_metadata(name@) == Some(*metadata),
    {
        let mut i: usize = 0;
        assert(self.clusters@.skip(0) =~= self.clusters@);
        while i < self.clusters.len()
            invariant
                i <= self.clusters@.len(),
                metadata_under(self.clusters@, name@) == metadata_under(
                    self.clusters@.skip(i as int),
                    name@,
                ),
            decreases self.clusters@.len() - i,
        {
            if same_text(self.clusters[i].key.as_str(), name) {
                return Some(&self.clusters[i].metadata);
            }
            assert(self.clusters@.skip(i as int).drop_first() =~= self.clusters@.skip(i + 1));
            i += 1;
        }
        None
    }

    /// Load the edge token stored for `name`.
    pub fn load_edge_token(&self, name: &str) -> (found: Option<&String>)
        ensures
            found is Some <==> text_under(self.edge_tokens@, name@) is Some,
            found matches Some(token) ==> text_under(self.edge_tokens@, name@) == Some(token@),
    {
        find_text(&self.edge_tokens, name)
    }

    /// Load the sandbox that was last used in `name`.
    pub fn load_last_sandbox(&self, name: &str) -> (found: Option<&String>)
        ensures
            found is Some <==> text_under(self.last_sandboxes@, name@) is Some,
            found matches Some(sandbox) ==> text_under(self.last_sandboxes@, name@) == Some(
                sandbox@,
            ),
    {
        find_text(&self.last_sandboxes, name)
    }
}

/// The metadata under a name is that of the first entry stored under it, and there
/// is none where there is no such entry.
pub proof fn law_metadata_is_the_first_under_its_name(store: GatewayStore, name: Seq<char>)
    ensures
        store.spec_metadata(name) is None <==> forall|i: int|
            0 <= i < store.clusters@.len() ==> (#[trigger] store.clusters@[i]).key@ != name,
        forall|i: int|
            0 <= i < store.clusters@.len() && (#[trigger] store.clusters@[i]).key@ == name && (
            forall|j: int| 0 <= j < i ==> (#[trigger] store.clusters@[j]).key@ != name)
                ==> store.spec_metadata(name) == Some(store.clusters@[i].metadata),
{
    lemma_first_metadata(store.clusters@, name);
}

proof fn lemma_first_metadata(clusters: Seq<StoredCluster>, name: Seq<char>)
    ensures
        metadata_under(clusters, name) is None <==> forall|i: int|
            0 <= i < clusters.len() ==> (#[trigger] clusters[i]).key@ != name,
        forall|i: int|
            0 <= i < clusters.len() && (#[trigger] clusters[i]).key@ == name && (forall|j: int|
                0 <= j < i ==> (#[trigger] clusters[j]).key@ != name) ==> metadata_under(
                clusters,
                name,
            ) == Some(clusters[i].metadata),
    decreases clusters.len(),
{
    if clusters.len() > 0 {
        let rest = clusters.drop_first();
        lemma_first_metadata(rest, name);
        if clusters[0].key@ != name {
            assert forall|i: int|
                0 <= i < clusters.len() && (#[trigger] clusters[i]).key@ == name && (forall|j: int|
                    0 <= j < i ==> (#[trigger] clusters[j]).key@
                        != name) implies metadata_under(clusters, name) == Some(
                clusters[i].metadata,
            ) by {
                assert(rest[i - 1] == clusters[i]);
                assert forall|j: int| 0 <= j < i - 1 implies (#[trigger] rest[j]).key@ != name by {
                    assert(rest[j] == clusters[j + 1]);
                }
            }
            if metadata_under(rest, name) is None {
                assert forall|i: int| 0 <= i < clusters.len() implies (#[trigger] clusters[i]).key@
                    != name by {
                    if i > 0 {
                        assert(clusters[i] == rest[i - 1]);
                    }
                }
            } else {
                let k = choose|k: int| 0 <= k < rest.len() && (#[trigger] rest[k]).key@ == name;
                assert(clusters[k + 1] == rest[k]);
            }
        }
    }
}

/// The text under a name is that of the first entry stored under it, and there is
/// none where there is no such entry.
pub proof fn law_text_is_the_first_under_its_name(entries: Seq<StoredText>, name: Seq<char>)
    ensures
        text_under(entries, name) is None <==> forall|i: int|
            0 <= i < entries.len() ==> (#[trigger] entries[i]).key@ != name,
        forall|i: int|
            0 <= i < entries.len() && (#[trigger] entries[i]).key@ == name && (forall|j: int|
                0 <= j < i ==> (#[trigger] entries[j]).key@ != name) ==> text_under(entries, name)
                == Some(entries[i].text@),
    decreases entries.len(),
{
    if entries.len() > 0 {
        let rest = entries.drop_first();
        law_text_is_the_first_under_its_name(rest, name);
        if entries[0].key@ != name {
            assert forall|i: int|
                0 <= i < entries.len() && (#[trigger] entries[i]).key@ == name && (forall|j: int|
                    0 <= j < i ==> (#[trigger] entries[j]).key@ != name) implies text_under(
                entries,
                name,
            ) == Some(entries[i].text@) by {
                assert(rest[i - 1] == entries[i]);
                assert forall|j: int| 0 <= j < i - 1 implies (#[trigger] rest[j]).key@ != name by {
                    assert(rest[j] == entries[j + 1]);
                }
            }
            if text_under(rest, name) is None {
                assert forall|i: int| 0 <= i < entries.len() implies (#[trigger] entries[i]).key@
                    != name by {
                    if i > 0 {
                        assert(entries[i] == rest[i - 1]);
                    }
                }
            } else {
                let k = choose|k: int| 0 <= k < rest.len() && (#[trigger] rest[k]).key@ == name;
                assert(entries[k + 1] == rest[k]);
            }
        }
    }
}

/// A handle holds the stored metadata wherever there is any, whatever the fallback
/// is, and the fallback only where there is none; name and kubeconfig are as given.
pub proof fn law_stored_metadata_goes_first(
    handle: ClusterHandle,
    name: Seq<char>,
    kubeconfig_path: String,
    stored: Option<ClusterMetadata>,
    fallback: ClusterMetadata,
)
    requires
        is_handle_with(handle, name, kubeconfig_path, stored, fallback),
    ensures
        handle.spec_name()@ == name,
        handle.spec_kubeconfig_path() == kubeconfig_path,
        stored is Some ==> stored == Some(handle.spec_metadata()),
        stored is None ==> handle.spec_metadata() == fallback,
{
}

/// Metadata that is not stored is made for the same name and machine, with the
/// default gateway port and without a control plane port.
pub proof fn law_fallback_has_the_default_ports(
    request: MetadataRequest,
    name: Seq<char>,
    remote: Option<&RemoteOptions>,
)
    requires
        is_fallback_request(request, name, remote),
    ensures
        request.name@ == name,
        request.remote == remote,
        request.port == DEFAULT_GATEWAY_PORT && DEFAULT_GATEWAY_PORT == 8080,
        request.kube_port is None,
{
}

} // verus!
