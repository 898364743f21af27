//! Which gateway and which sandbox a command addresses.

use vstd::prelude::*;
use vstd::string::*;
use crate::metadata::{
    law_text_is_the_first_under_its_name, metadata_under, text_under, ClusterMetadata, GatewayStore,
    StoredCluster,
};
use crate::text::{
    chars_of, contains_text, is_blank, law_needle_between_is_contained, opt_view, same_text, trimmed,
};
use crate::tls::TlsOptions;

verus! {

/// `endpoint` without the slashes at its end.
pub open spec fn normalized(endpoint: Seq<char>) -> Seq<char>
    decreases endpoint.len(),
{
    if endpoint.len() > 0 && endpoint.last() == '/' {
        normalized(endpoint.drop_last())
    } else {
        endpoint
    }
}

/// `endpoint` without the slashes at its end.
pub fn normalize_gateway_endpoint(endpoint: &str) -> (trimmed: &str)
    ensures
        trimmed@ == normalized(endpoint@),
{
    let chars = chars_of(endpoint);
    let mut end: usize = chars.len();
    assert(endpoint@.take(end as int) =~= endpoint@);
    while end > 0 && chars[end - 1] == '/'
        invariant
            chars@ == endpoint@,
            end <= chars@.len(),
            normalized(endpoint@) == normalized(endpoint@.take(end as int)),
        decreases end,
    {
        assert(endpoint@.take(end as int).drop_last() =~= endpoint@.take(end - 1));
        end -= 1;
    }
    assert(endpoint@.subrange(0, end as int) =~= endpoint@.take(end as int));
    endpoint.substring_char(0, end)
}

/// `metadata` describes a gateway at `endpoint`, slashes at the end aside.
pub open spec fn is_at(metadata: ClusterMetadata, endpoint: Seq<char>) -> bool {
    normalized(metadata.gateway_endpoint@) == normalized(endpoint)
}

/// The name of the first cluster in the list that is at `endpoint`.
pub open spec fn listed_at(clusters: Seq<StoredCluster>, endpoint: Seq<char>) -> Option<Seq<char>>
    decreases clusters.len(),
{
    if clusters.len() == 0 {
        None
    } else if is_at(clusters.first().metadata, endpoint) {
        Some(clusters.first().metadata.name@)
    } else {
        listed_at(clusters.drop_first(), endpoint)
    }
}

/// The metadata of the active cluster, where one is selected and described.
pub open spec fn active_metadata(store: GatewayStore) -> Option<ClusterMetadata> {
    match store.active {
        Some(name) => store.spec_metadata(name@),
        None => None,
    }
}

/// The name of the stored cluster at `endpoint`: the active one where it is there,
/// and otherwise the first in the list that is.
pub open spec fn gateway_at(store: GatewayStore, endpoint: Seq<char>) -> Option<Seq<char>> {
    if active_metadata(store) is Some && is_at(active_metadata(store)->Some_0, endpoint) {
        Some(active_metadata(store)->Some_0.name@)
    } else if store.listable {
        listed_at(store.clusters@, endpoint)
    } else {
        None
    }
}

/// The name of the stored cluster at `endpoint`.
pub fn find_gateway_by_endpoint(endpoint: &str, store: &GatewayStore) -> (name: Option<String>)
    ensures
        opt_view(name) == gateway_at(*store, endpoint@),
{
    let wanted = normalize_gateway_endpoint(endpoint);
    if let Some(active_name) = &store.active {
        if let Some(metadata) = store.load_cluster_metadata(active_name.as_str()) {
            if same_text(
                normalize_gateway_endpoint(metadata.gateway_endpoint.as_str()),
                wanted,
            ) {
                return Some(metadata.name.clone());
            }
        }
    }
    if !store.listable {
        return None;
    }
    let mut i: usize = 0;
    assert(store.clusters@.skip(0) =~= store.clusters@);
    while i < store.clusters.len()
        invariant
            i <= store.clusters@.len(),
            wanted@ == normalized(endpoint@),
            gateway_at(*store, endpoint@) == listed_at(store.clusters@, endpoint@),
            listed_at(store.clusters@, endpoint@) == listed_at(
                store.clusters@.skip(i as int),
                endpoint@,
            ),
        decreases store.clusters@.len() - i,
    {
        let metadata = &store.clusters[i].metadata;
        if same_text(normalize_gateway_endpoint(metadata.gateway_endpoint.as_str()), wanted) {
            return Some(metadata.name.clone());
        }
        assert(store.clusters@.skip(i as int).drop_first() =~= store.clusters@.skip(i + 1));
        i += 1;
    }
    None
}

/// The cluster name that the environment sets: none where it is only white space.
pub open spec fn environment_name(variable: Option<Seq<char>>) -> Option<Seq<char>> {
    match variable {
        Some(name) => if trimmed(name).len() > 0 {
            Some(name)
        } else {
            None
        },
        None => None,
    }
}

/// The cluster that a command without an endpoint addresses: the one of the flag,
/// else the one of the environment, else the active one.
pub open spec fn gateway_name(
    flag: Option<Seq<char>>,
    variable: Option<Seq<char>>,
    active: Option<Seq<char>>,
) -> Option<Seq<char>> {
    if flag is Some {
        flag
    } else if environment_name(variable) is Some {
        environment_name(variable)
    } else {
        active
    }
}

/// Resolve only the cluster name (without requiring metadata to exist).
///
/// Used by gateway commands that operate on a cluster by name but may not need
/// the gateway endpoint (e.g., `gateway start` creates the cluster).
pub fn resolve_gateway_name(
    cluster_flag: &Option<String>,
    variable: &Option<String>,
    active: &Option<String>,
) -> (name: Option<String>)
    ensures
        opt_view(name) == gateway_name(
            opt_view(*cluster_flag),
            opt_view(*variable),
            opt_view(*active),
        ),
{
    if let Some(name) = cluster_flag {
        return Some(name.clone());
    }
    if let Some(name) = variable {
        if !is_blank(name.as_str()) {
            return Some(name.clone());
        }
    }
    match active {
        Some(name) => Some(name.clone()),
        None => None,
    }
}

/// Resolved cluster context: name + gateway endpoint.
#[derive(Debug)]
pub struct GatewayContext {
    /// The cluster name (used for TLS cert directory, metadata lookup, etc.).
    pub name: String,
    /// The gateway endpoint URL (e.g., `https://127.0.0.1` or `https://10.0.0.5`).
    pub endpoint: String,
}

/// Why no gateway was resolved.
#[derive(Debug)]
pub enum GatewayError {
    /// No cluster was named and none is active.
    NoActiveGateway,
    /// The named cluster is not described.
    UnknownGateway(String),
}

impl GatewayError {
    /// The error as the user reads it.
    pub open spec fn text(&self) -> Seq<char> {
        match self {
            GatewayError::NoActiveGateway => {
                "No active gateway.\nSet one with: nemoclaw gateway select <name>\nOr deploy a new gateway: nemoclaw gateway start"@
            },
            GatewayError::UnknownGateway(name) => {
                "Unknown gateway '"@ + name@
                    + "'.\nDeploy it first: nemoclaw gateway start --name "@ + name@
                    + "\nOr list available gateways: nemoclaw gateway select"@
            },
        }
    }

    /// The error as the user reads it.
    pub fn message(&self) -> (message: String)
        ensures
            message@ == self.text(),
    {
        match self {
            GatewayError::NoActiveGateway => {
                "No active gateway.\nSet one with: nemoclaw gateway select <name>\nOr deploy a new gateway: nemoclaw gateway start".to_owned()
            },
            GatewayError::UnknownGateway(name) => {
                let mut message = "Unknown gateway '".to_owned();
                message.append(name.as_str());
                message.append("'.\nDeploy it first: nemoclaw gateway start --name ");
                message.append(name.as_str());
                message.append("\nOr list available gateways: nemoclaw gateway select");
                message
            },
        }
    }
}

/// The name that goes with an endpoint that was given directly: the one of the
/// flag where it is described, else that of the stored cluster at the endpoint,
/// else the endpoint itself.
pub open spec fn direct_name(
    flag: Option<Seq<char>>,
    endpoint: Seq<char>,
    store: GatewayStore,
) -> Seq<char> {
    if flag is Some && store.spec_metadata(flag->Some_0) is Some {
        flag->Some_0
    } else if gateway_at(store, endpoint) is Some {
        gateway_at(store, endpoint)->Some_0
    } else {
        endpoint
    }
}

/// `resolved` is the gateway that a command addresses.
pub open spec fn resolves_to(
    flag: Option<Seq<char>>,
    endpoint: Option<Seq<char>>,
    variable: Option<Seq<char>>,
    store: GatewayStore,
    resolved: Result<GatewayContext, GatewayError>,
) -> bool {
    match endpoint {
        Some(endpoint) => {
            &&& resolved matches Ok(context)
            &&& context.name@ == direct_name(flag, endpoint, store)
            &&& context.endpoint@ == endpoint
        },
        None => match gateway_name(flag, variable, opt_view(store.active)) {
            Some(name) => match store.spec_metadata(name) {
                Some(metadata) => {
                    &&& resolved matches Ok(context)
                    &&& context.name@ == metadata.name@
                    &&& context.endpoint@ == metadata.gateway_endpoint@
                },
                None => resolved matches Err(GatewayError::UnknownGateway(unknown)) && unknown@
                    == name,
            },
            None => resolved matches Err(GatewayError::NoActiveGateway),
        },
    }
}

/// Resolve the cluster name to a [`GatewayContext`] with the gateway endpoint.
///
/// Resolution priority:
/// 1. `--gateway-endpoint` flag (direct URL, preserving metadata when available)
/// 2. `--cluster` flag (explicit name)
/// 3. the cluster variable of the environment
/// 4. the active cluster
///
/// When `--gateway-endpoint` is provided, it is used directly as the endpoint.
/// If stored metadata can still identify the gateway, the stored cluster name
/// is preserved so auth and TLS materials continue to resolve correctly.
pub fn resolve_gateway(
    cluster_flag: &Option<String>,
    gateway_endpoint: &Option<String>,
    variable: &Option<String>,
    store: &GatewayStore,
) -> (resolved: Result<GatewayContext, GatewayError>)
    ensures
        resolves_to(
            opt_view(*cluster_flag),
            opt_view(*gateway_endpoint),
            opt_view(*variable),
            *store,
            resolved,
        ),
{
    if let Some(endpoint) = gateway_endpoint {
        if let Some(name) = cluster_flag {
            if store.load_cluster_metadata(name.as_str()).is_some() {
                return Ok(GatewayContext { name: name.clone(), endpoint: endpoint.clone() });
            }
        }
        let name = match find_gateway_by_endpoint(endpoint.as_str(), store) {
            Some(name) => name,
            None => endpoint.clone(),
        };
        return Ok(GatewayContext { name, endpoint: endpoint.clone() });
    }
    let name = match resolve_gateway_name(cluster_flag, variable, &store.active) {
        Some(name) => name,
        None => {
            return Err(GatewayError::NoActiveGateway);
        },
    };
    match store.load_cluster_metadata(name.as_str()) {
        Some(metadata) => Ok(
            GatewayContext {
                name: metadata.name.clone(),
                endpoint: metadata.gateway_endpoint.clone(),
            },
        ),
        None => Err(GatewayError::UnknownGateway(name)),
    }
}

/// The cluster authenticates through an edge proxy.
pub open spec fn uses_edge_auth(store: GatewayStore, cluster: Seq<char>) -> bool {
    &&& store.spec_metadata(cluster) is Some
    &&& opt_view(store.spec_metadata(cluster)->Some_0.auth_mode) == Some("cloudflare_jwt"@)
}

/// The edge token that a connection to the cluster presents, where it presented
/// `current` before.
pub open spec fn applied_token(
    store: GatewayStore,
    cluster: Seq<char>,
    current: Option<Seq<char>>,
) -> Option<Seq<char>> {
    if uses_edge_auth(store, cluster) && text_under(store.edge_tokens@, cluster) is Some {
        text_under(store.edge_tokens@, cluster)
    } else {
        current
    }
}

/// Apply the stored edge authentication token when the cluster uses edge auth:
/// that is, when its metadata says so and a token is stored. Nothing else of the
/// options changes.
pub fn apply_edge_auth(tls: &mut TlsOptions, cluster_name: &str, store: &GatewayStore)
    ensures
        opt_view(final(tls).edge_token) == applied_token(
            *store,
            cluster_name@,
            opt_view(old(tls).edge_token),
        ),
        *final(tls) == (TlsOptions { edge_token: final(tls).edge_token, ..*old(tls) }),
{
    if let Some(metadata) = store.load_cluster_metadata(cluster_name) {
        if let Some(mode) = &metadata.auth_mode {
            if same_text(mode.as_str(), "cloudflare_jwt") {
                if let Some(token) = store.load_edge_token(cluster_name) {
                    tls.edge_token = Some(token.clone());
                }
            }
        }
    }
}

/// Why no sandbox was resolved: none was named and none was used before.
#[derive(Debug)]
pub struct NoSandbox;

impl NoSandbox {
    /// The error as the user reads it.
    pub fn message(&self) -> (message: String)
        ensures
            message@
                == "No sandbox name provided and no last-used sandbox.\nSpecify a sandbox name or connect to one first: nav sandbox connect <name>"@,
    {
        "No sandbox name provided and no last-used sandbox.\nSpecify a sandbox name or connect to one first: nav sandbox connect <name>".to_owned()
    }
}

/// The sandbox that a command addresses: the one that it names, else the one that
/// was last used in the cluster.
pub open spec fn addressed_sandbox(
    name: Option<Seq<char>>,
    cluster: Seq<char>,
    store: GatewayStore,
) -> Option<Seq<char>> {
    match name {
        Some(name) => Some(name),
        None => text_under(store.last_sandboxes@, cluster),
    }
}

/// Resolve a sandbox name, falling back to the last-used sandbox for the cluster.
pub fn resolve_sandbox_name(name: Option<String>, cluster: &str, store: &GatewayStore) -> (sandbox:
    Result<String, NoSandbox>)
    ensures
        sandbox is Ok <==> addressed_sandbox(opt_view(name), cluster@, *store) is Some,
        sandbox matches Ok(sandbox) ==> addressed_sandbox(opt_view(name), cluster@, *store)
            == Some(sandbox@),
{
    if let Some(name) = name {
        return Ok(name);
    }
    match store.load_last_sandbox(cluster) {
        Some(last) => Ok(last.clone()),
        None => Err(NoSandbox),
    }
}

/// The hint that tells the user which sandbox was chosen: due where the last-used
/// sandbox was taken, since none was `named`.
pub fn last_used_hint(named: bool, sandbox: &str) -> (hint: Option<String>)
    ensures
        opt_view(hint) == (if named {
            None
        } else {
            Some("Using sandbox '"@ + sandbox@ + "' (last used)"@)
        }),
{
    if named {
        return None;
    }
    let mut hint = "Using sandbox '".to_owned();
    hint.append(sandbox);
    hint.append("' (last used)");
    Some(hint)
}

/// A normalized endpoint is a prefix of the endpoint that ends in no slash, and
/// normalizing it changes nothing.
pub proof fn law_normalized_ends_in_no_slash(endpoint: Seq<char>)
    ensures
        normalized(endpoint).len() <= endpoint.len(),
        normalized(endpoint) == endpoint.take(normalized(endpoint).len() as int),
        normalized(endpoint).len() > 0 ==> normalized(endpoint).last() != '/',
        forall|i: int| normalized(endpoint).len() <= i < endpoint.len() ==> endpoint[i] == '/',
        normalized(normalized(endpoint)) == normalized(endpoint),
    decreases endpoint.len(),
{
    if endpoint.len() > 0 && endpoint.last() == '/' {
        let shorter = endpoint.drop_last();
        law_normalized_ends_in_no_slash(shorter);
        let len = normalized(endpoint).len() as int;
        assert(shorter.take(len) =~= endpoint.take(len));
        assert forall|i: int| len <= i < endpoint.len() implies endpoint[i] == '/' by {
            if i < shorter.len() {
                assert(shorter[i] == endpoint[i]);
            }
        }
    } else {
        assert(endpoint.take(endpoint.len() as int) =~= endpoint);
    }
}

/// A slash at the end of an endpoint does not change which gateway is found.
pub proof fn law_trailing_slash_is_ignored(store: GatewayStore, endpoint: Seq<char>)
    ensures
        normalized(endpoint.push('/')) == normalized(endpoint),
        gateway_at(store, endpoint.push('/')) == gateway_at(store, endpoint),
{
    assert(endpoint.push('/').drop_last() =~= endpoint);
    lemma_listed_at_slash(store.clusters@, endpoint);
}

proof fn lemma_listed_at_slash(clusters: Seq<StoredCluster>, endpoint: Seq<char>)
    requires
        normalized(endpoint.push('/')) == normalized(endpoint),
    ensures
        listed_at(clusters, endpoint.push('/')) == listed_at(clusters, endpoint),
    decreases clusters.len(),
{
    if clusters.len() > 0 {
        lemma_listed_at_slash(clusters.drop_first(), endpoint);
    }
}

/// What is found in the list stands in it.
proof fn lemma_listed_at(clusters: Seq<StoredCluster>, endpoint: Seq<char>)
    ensures
        listed_at(clusters, endpoint) is Some <==> exists|i: int|
            0 <= i < clusters.len() && is_at(#[trigger] clusters[i].metadata, endpoint),
        listed_at(clusters, endpoint) matches Some(name) ==> exists|i: int|
            {
                &&& 0 <= i < clusters.len()
                &&& is_at(#[trigger] clusters[i].metadata, endpoint)
                &&& clusters[i].metadata.name@ == name
            },
    decreases clusters.len(),
{
    if clusters.len() > 0 {
        if is_at(clusters.first().metadata, endpoint) {
            assert(is_at(clusters[0].metadata, endpoint));
        } else {
            let rest = clusters.drop_first();
            lemma_listed_at(rest, endpoint);
            if listed_at(rest, endpoint) is Some {
                let name = listed_at(rest, endpoint)->Some_0;
                let i = choose|i: int|
                    {
                        &&& 0 <= i < rest.len()
                        &&& is_at(#[trigger] rest[i].metadata, endpoint)
                        &&& rest[i].metadata.name@ == name
                    };
                assert(rest[i].metadata == clusters[i + 1].metadata);
            }
            if exists|i: int|
                0 <= i < clusters.len() && is_at(#[trigger] clusters[i].metadata, endpoint) {
                let i = choose|i: int|
                    0 <= i < clusters.len() && is_at(#[trigger] clusters[i].metadata, endpoint);
                assert(rest[i - 1].metadata == clusters[i].metadata);
            }
        }
    }
}

/// What is stored under a name stands in the list.
proof fn lemma_metadata_under(clusters: Seq<StoredCluster>, key: Seq<char>)
    ensures
        metadata_under(clusters, key) matches Some(metadata) ==> exists|i: int|
            0 <= i < clusters.len() && #[trigger] clusters[i].metadata == metadata
                && clusters[i].key@ == key,
    decreases clusters.len(),
{
    if clusters.len() > 0 {
        if clusters.first().key@ == key {
            assert(clusters[0].metadata == clusters.first().metadata);
        } else {
            let rest = clusters.drop_first();
            lemma_metadata_under(rest, key);
            if metadata_under(rest, key) is Some {
                let metadata = metadata_under(rest, key)->Some_0;
                let i = choose|i: int|
                    0 <= i < rest.len() && #[trigger] rest[i].metadata == metadata && rest[i].key@
                        == key;
                assert(clusters[i + 1].metadata == metadata);
            }
        }
    }
}

/// Where the clusters can be listed, a gateway is found at an endpoint if and only
/// if some stored cluster is there, and its name is the name of such a cluster.
pub proof fn law_stored_gateway_is_found(store: GatewayStore, endpoint: Seq<char>)
    requires
        store.listable,
    ensures
        gateway_at(store, endpoint) is Some <==> exists|i: int|
            0 <= i < store.clusters@.len() && is_at(
                #[trigger] store.clusters@[i].metadata,
                endpoint,
            ),
        gateway_at(store, endpoint) matches Some(name) ==> exists|i: int|
            {
                &&& 0 <= i < store.clusters@.len()
                &&& is_at(#[trigger] store.clusters@[i].metadata, endpoint)
                &&& store.clusters@[i].metadata.name@ == name
            },
{
    lemma_listed_at(store.clusters@, endpoint);
    if store.active is Some {
        lemma_metadata_under(store.clusters@, store.active->Some_0@);
    }
}

/// With an endpoint every command resolves a gateway, at that endpoint as it was
/// given. Its name is that of the flag where that is described, else that of a
/// stored cluster at the endpoint, and the endpoint itself only where there is none.
pub proof fn law_endpoint_is_used_directly(
    flag: Option<Seq<char>>,
    endpoint: Seq<char>,
    variable: Option<Seq<char>>,
    store: GatewayStore,
    resolved: Result<GatewayContext, GatewayError>,
)
    requires
        resolves_to(flag, Some(endpoint), variable, store, resolved),
    ensures
        resolved is Ok,
        resolved->Ok_0.endpoint@ == endpoint,
        flag is Some && store.spec_metadata(flag->Some_0) is Some ==> Some(
            resolved->Ok_0.name@,
        ) == flag,
        flag is None || store.spec_metadata(flag->Some_0) is None ==> {
            &&& gateway_at(store, endpoint) is Some ==> Some(resolved->Ok_0.name@) == gateway_at(
                store,
                endpoint,
            )
            &&& gateway_at(store, endpoint) is None ==> resolved->Ok_0.name@ == endpoint
        },
{
}

/// Without an endpoint the flag goes before the environment, and both go before
/// the active cluster; a blank variable counts as none.
pub proof fn law_name_priority(
    flag: Option<Seq<char>>,
    variable: Option<Seq<char>>,
    active: Option<Seq<char>>,
)
    ensures
        flag is Some ==> gateway_name(flag, variable, active) == flag,
        flag is None && variable is Some && trimmed(variable->Some_0).len() > 0 ==> gateway_name(
            flag,
            variable,
            active,
        ) == variable,
        flag is None && (variable is None || trimmed(variable->Some_0).len() == 0) ==> gateway_name(
            flag,
            variable,
            active,
        ) == active,
{
}

/// Without an endpoint a gateway is resolved if and only if the name that the
/// command addresses is described, and no other name is tried.
pub proof fn law_resolved_iff_described(
    flag: Option<Seq<char>>,
    variable: Option<Seq<char>>,
    store: GatewayStore,
    resolved: Result<GatewayContext, GatewayError>,
)
    requires
        resolves_to(flag, None, variable, store, resolved),
    ensures
        ({
            let name = gateway_name(flag, variable, opt_view(store.active));
            resolved is Ok <==> name is Some && store.spec_metadata(name->Some_0) is Some
        }),
{
}

/// Applying edge authentication twice is applying it once.
pub proof fn law_edge_auth_applies_once(
    store: GatewayStore,
    cluster: Seq<char>,
    token: Option<Seq<char>>,
)
    ensures
        applied_token(store, cluster, applied_token(store, cluster, token)) == applied_token(
            store,
            cluster,
            token,
        ),
        !uses_edge_auth(store, cluster) ==> applied_token(store, cluster, token) == token,
{
}

/// Without an endpoint the name and the endpoint of a resolved gateway are both
/// those of the one description stored under the name that the command addresses:
/// the flag's where there is one, else that of a variable that is not blank, else
/// the active one's. Which other clusters are stored, or active, does not matter.
pub proof fn law_name_and_endpoint_are_of_one_description(
    flag: Option<Seq<char>>,
    variable: Option<Seq<char>>,
    store: GatewayStore,
    context: GatewayContext,
)
    requires
        resolves_to(flag, None, variable, store, Ok(context)),
    ensures
        ({
            let set = variable is Some && trimmed(variable->Some_0).len() > 0;
            let described = |name: Seq<char>|
                {
                    &&& store.spec_metadata(name) is Some
                    &&& context.name@ == store.spec_metadata(name)->Some_0.name@
                    &&& context.endpoint@ == store.spec_metadata(name)->Some_0.gateway_endpoint@
                };
            &&& flag is Some ==> described(flag->Some_0)
            &&& flag is None && set ==> described(variable->Some_0)
            &&& flag is None && !set ==> store.active is Some && described(store.active->Some_0@)
        }),
{
}

/// Without an endpoint the error tells which name is not described, or that the
/// command addresses none: no flag, no variable that is not blank, no active one.
pub proof fn law_resolution_errors_name_what_is_missing(
    flag: Option<Seq<char>>,
    variable: Option<Seq<char>>,
    store: GatewayStore,
    error: GatewayError,
)
    requires
        resolves_to(flag, None, variable, store, Err(error)),
    ensures
        ({
            let set = variable is Some && trimmed(variable->Some_0).len() > 0;
            let addressed = flag is Some || set || store.active is Some;
            &&& error is NoActiveGateway <==> !addressed
            &&& error matches GatewayError::UnknownGateway(unknown) ==> {
                &&& store.spec_metadata(unknown@) is None
                &&& flag is Some ==> unknown@ == flag->Some_0
                &&& flag is None && set ==> unknown@ == variable->Some_0
                &&& flag is None && !set ==> store.active is Some && unknown@
                    == store.active->Some_0@
            }
        }),
{
}

/// Two stores that describe the cluster of the flag alike resolve it alike, whatever
/// else they hold and whichever cluster is active in each.
pub proof fn law_other_clusters_do_not_matter(
    flag: Seq<char>,
    variable: Option<Seq<char>>,
    a: GatewayStore,
    b: GatewayStore,
    first: GatewayContext,
    second: GatewayContext,
)
    requires
        a.spec_metadata(flag) == b.spec_metadata(flag),
        resolves_to(Some(flag), None, variable, a, Ok(first)),
        resolves_to(Some(flag), None, variable, b, Ok(second)),
    ensures
        first.name@ == second.name@,
        first.endpoint@ == second.endpoint@,
{
}

/// A gateway at an endpoint is found by its endpoint alone, slashes at the end
/// aside. The active cluster goes first where it is there; otherwise, where the
/// clusters can be listed, it is the first of the list that is there; and where they
/// cannot be listed, there is none.
pub proof fn law_active_gateway_goes_first(store: GatewayStore, endpoint: Seq<char>)
    ensures
        ({
            let active = store.active is Some && store.spec_metadata(store.active->Some_0@) is Some
                && normalized(
                store.spec_metadata(store.active->Some_0@)->Some_0.gateway_endpoint@,
            ) == normalized(endpoint);
            &&& active ==> gateway_at(store, endpoint) == Some(
                store.spec_metadata(store.active->Some_0@)->Some_0.name@,
            )
            &&& !active && !store.listable ==> gateway_at(store, endpoint) is None
            &&& !active && store.listable ==> forall|i: int|
                {
                    &&& 0 <= i < store.clusters@.len()
                    &&& normalized(
                        (#[trigger] store.clusters@[i]).metadata.gateway_endpoint@,
                    ) == normalized(endpoint)
                    &&& forall|j: int|
                        0 <= j < i ==> normalized(
                            (#[trigger] store.clusters@[j]).metadata.gateway_endpoint@,
                        ) != normalized(endpoint)
                } ==> gateway_at(store, endpoint) == Some(store.clusters@[i].metadata.name@)
            &&& (forall|i: int|
                0 <= i < store.clusters@.len() ==> normalized(
                    (#[trigger] store.clusters@[i]).metadata.gateway_endpoint@,
                ) != normalized(endpoint)) ==> gateway_at(store, endpoint) is None
        }),
{
    lemma_first_listed(store.clusters@, endpoint);
    if store.active is Some {
        lemma_metadata_under(store.clusters@, store.active->Some_0@);
    }
}

proof fn lemma_first_listed(clusters: Seq<StoredCluster>, endpoint: Seq<char>)
    ensures
        forall|i: int|
            {
                &&& 0 <= i < clusters.len()
                &&& normalized((#[trigger] clusters[i]).metadata.gateway_endpoint@) == normalized(
                    endpoint,
                )
                &&& forall|j: int|
                    0 <= j < i ==> normalized((#[trigger] clusters[j]).metadata.gateway_endpoint@)
                        != normalized(endpoint)
            } ==> listed_at(clusters, endpoint) == Some(clusters[i].metadata.name@),
        (forall|i: int|
            0 <= i < clusters.len() ==> normalized(
                (#[trigger] clusters[i]).metadata.gateway_endpoint@,
            ) != normalized(endpoint)) ==> listed_at(clusters, endpoint) is None,
    decreases clusters.len(),
{
    if clusters.len() > 0 {
        let rest = clusters.drop_first();
        lemma_first_listed(rest, endpoint);
        let wanted = normalized(endpoint);
        if normalized(clusters[0].metadata.gateway_endpoint@) != wanted {
            assert forall|i: int|
                {
                    &&& 0 <= i < clusters.len()
                    &&& normalized((#[trigger] clusters[i]).metadata.gateway_endpoint@) == wanted
                    &&& forall|j: int|
                        0 <= j < i ==> normalized(
                            (#[trigger] clusters[j]).metadata.gateway_endpoint@,
                        ) != wanted
                } implies listed_at(clusters, endpoint) == Some(clusters[i].metadata.name@) by {
                assert(rest[i - 1] == clusters[i]);
                assert forall|j: int| 0 <= j < i - 1 implies normalized(
                    (#[trigger] rest[j]).metadata.gateway_endpoint@,
                ) != wanted by {
                    assert(rest[j] == clusters[j + 1]);
                }
            }
            if forall|i: int|
                0 <= i < clusters.len() ==> normalized(
                    (#[trigger] clusters[i]).metadata.gateway_endpoint@,
                ) != wanted {
                assert forall|j: int| 0 <= j < rest.len() implies normalized(
                    (#[trigger] rest[j]).metadata.gateway_endpoint@,
                ) != wanted by {
                    assert(rest[j] == clusters[j + 1]);
                }
            }
        }
    }
}

/// An edge token is applied where the description of the cluster names the edge
/// mode and a token is stored under the name of the cluster: then it is that token.
/// In every other case the token stays what it was.
pub proof fn law_token_is_the_stored_one_of_an_edge_cluster(
    store: GatewayStore,
    cluster: Seq<char>,
    current: Option<Seq<char>>,
)
    ensures
        ({
            let described = store.spec_metadata(cluster);
            let edge = described is Some && described->Some_0.auth_mode is Some
                && described->Some_0.auth_mode->Some_0@ == "cloudflare_jwt"@;
            let stored = text_under(store.edge_tokens@, cluster);
            &&& edge && stored is Some ==> applied_token(store, cluster, current) == stored
            &&& !edge || stored is None ==> applied_token(store, cluster, current) == current
        }),
{
}

/// A sandbox that is named is addressed whatever was used before. Without a name it
/// is the one recorded first for this cluster; what was used in other clusters does
/// not matter, and without a record for this one there is none.
pub proof fn law_named_sandbox_goes_before_the_last_used(
    name: Option<Seq<char>>,
    cluster: Seq<char>,
    store: GatewayStore,
)
    ensures
        name is Some ==> addressed_sandbox(name, cluster, store) == name,
        name is None ==> {
            let used = store.last_sandboxes@;
            &&& addressed_sandbox(name, cluster, store) is None <==> forall|i: int|
                0 <= i < used.len() ==> (#[trigger] used[i]).key@ != cluster
            &&& forall|i: int|
                0 <= i < used.len() && (#[trigger] used[i]).key@ == cluster && (forall|j: int|
                    0 <= j < i ==> (#[trigger] used[j]).key@ != cluster) ==> addressed_sandbox(
                    name,
                    cluster,
                    store,
                ) == Some(used[i].text@)
        },
{
    law_text_is_the_first_under_its_name(store.last_sandboxes@, cluster);
}

/// The error of an unknown gateway names it, and the command that deploys it.
pub proof fn law_unknown_gateway_is_named(name: String)
    ensures
        ({
            let text = GatewayError::UnknownGateway(name).text();
            &&& contains_text(text, "Unknown gateway '"@ + name@ + "'"@)
            &&& contains_text(text, "nemoclaw gateway start --name "@ + name@ + "\n"@)
        }),
{
    reveal_strlit("'");
    reveal_strlit("\n");
    reveal_strlit("'.\nDeploy it first: nemoclaw gateway start --name ");
    reveal_strlit(".\nDeploy it first: nemoclaw gateway start --name ");
    reveal_strlit("'.\nDeploy it first: ");
    reveal_strlit("nemoclaw gateway start --name ");
    reveal_strlit("\nOr list available gateways: nemoclaw gateway select");
    reveal_strlit("Or list available gateways: nemoclaw gateway select");
    let text = GatewayError::UnknownGateway(name).text();
    let named = "Unknown gateway '"@ + name@ + "'"@;
    let rest = ".\nDeploy it first: nemoclaw gateway start --name "@ + name@
        + "\nOr list available gateways: nemoclaw gateway select"@;
    assert(text =~= Seq::<char>::empty() + named + rest);
    law_needle_between_is_contained(Seq::empty(), named, rest);
    let command = "nemoclaw gateway start --name "@ + name@ + "\n"@;
    let before = "Unknown gateway '"@ + name@ + "'.\nDeploy it first: "@;
    let after = "Or list available gateways: nemoclaw gateway select"@;
    assert(text =~= before + command + after);
    law_needle_between_is_contained(before, command, after);
}

} // verus!
