use navigator::gateway::{
    apply_edge_auth, find_gateway_by_endpoint, last_used_hint, normalize_gateway_endpoint, resolve_gateway,
    resolve_gateway_name, resolve_sandbox_name, GatewayError,
};
use navigator::metadata::{
    cluster_handle, fallback_request, ClusterMetadata, GatewayStore, StoredCluster, StoredText,
};
use navigator::options::RemoteOptions;
use navigator::tls::TlsOptions;

fn edge_metadata(name: &str, endpoint: &str) -> ClusterMetadata {
    ClusterMetadata {
        name: name.to_string(),
        gateway_endpoint: endpoint.to_string(),
        is_remote: true,
        gateway_port: 0,
        kube_port: None,
        remote_host: None,
        resolved_host: None,
        auth_mode: Some("cloudflare_jwt".to_string()),
        edge_team_domain: None,
        edge_auth_url: None,
    }
}

fn store_cluster_metadata(store: &mut GatewayStore, name: &str, metadata: ClusterMetadata) {
    store.clusters.push(StoredCluster { key: name.to_string(), metadata });
}

fn entry(key: &str, text: &str) -> StoredText {
    StoredText { key: key.to_string(), text: text.to_string() }
}

#[test]
fn resolve_sandbox_name_returns_explicit_name() {
    // When a name is provided, it should be returned regardless of any
    // stored last-sandbox state.
    let mut store = GatewayStore::empty();
    let result = resolve_sandbox_name(Some("explicit".to_string()), "any-cluster", &store);
    assert_eq!(result.unwrap(), "explicit");
    store.last_sandboxes.push(entry("any-cluster", "other"));
    let result = resolve_sandbox_name(Some("explicit".to_string()), "any-cluster", &store);
    assert_eq!(result.unwrap(), "explicit");
}

#[test]
fn resolve_sandbox_name_falls_back_to_last_used() {
    let mut store = GatewayStore::empty();
    store.last_sandboxes.push(entry("test-cluster", "remembered-sb"));
    let result = resolve_sandbox_name(None, "test-cluster", &store);
    assert_eq!(result.unwrap(), "remembered-sb");
}

#[test]
fn resolve_sandbox_name_errors_without_fallback() {
    let store = GatewayStore::empty();
    let err = resolve_sandbox_name(None, "unknown-cluster", &store).unwrap_err();
    let msg = err.message();
    assert!(
        msg.contains("nav sandbox connect"),
        "expected helpful hint in error, got: {msg}"
    );
}

#[test]
fn hint_names_the_last_used_sandbox() {
    assert_eq!(
        last_used_hint(false, "remembered-sb").as_deref(),
        Some("Using sandbox 'remembered-sb' (last used)")
    );
    assert_eq!(last_used_hint(true, "explicit"), None);
}

#[test]
fn last_sandbox_of_another_cluster_is_no_fallback() {
    let mut store = GatewayStore::empty();
    store.last_sandboxes.push(entry("other", "remembered-sb"));
    assert!(resolve_sandbox_name(None, "test-cluster", &store).is_err());
}

#[test]
fn resolve_gateway_uses_stored_name_for_matching_endpoint() {
    let mut store = GatewayStore::empty();
    store_cluster_metadata(
        &mut store,
        "edge-gateway",
        edge_metadata("edge-gateway", "https://gw.example.com"),
    );

    let ctx =
        resolve_gateway(&None, &Some("https://gw.example.com/".to_string()), &None, &store).unwrap();
    assert_eq!(ctx.name, "edge-gateway");
    assert_eq!(ctx.endpoint, "https://gw.example.com/");
}

#[test]
fn resolve_gateway_prefers_explicit_cluster_for_direct_endpoint() {
    let mut store = GatewayStore::empty();
    store_cluster_metadata(
        &mut store,
        "named-gateway",
        edge_metadata("named-gateway", "https://stored.example.com"),
    );

    let ctx = resolve_gateway(
        &Some("named-gateway".to_string()),
        &Some("https://override.example.com".to_string()),
        &None,
        &store,
    )
    .unwrap();

    assert_eq!(ctx.name, "named-gateway");
    assert_eq!(ctx.endpoint, "https://override.example.com");
}

#[test]
fn apply_edge_auth_uses_stored_token() {
    let mut store = GatewayStore::empty();
    store_cluster_metadata(
        &mut store,
        "edge-gateway",
        edge_metadata("edge-gateway", "https://gw.example.com"),
    );
    store.edge_tokens.push(entry("edge-gateway", "token-123"));

    let mut tls = TlsOptions::default();
    apply_edge_auth(&mut tls, "edge-gateway", &store);

    assert_eq!(tls.edge_token.as_deref(), Some("token-123"));
}

#[test]
fn edge_auth_applies_once_and_to_edge_clusters_only() {
    let mut store = GatewayStore::empty();
    let mut local = edge_metadata("local", "https://127.0.0.1");
    local.auth_mode = None;
    store_cluster_metadata(&mut store, "local", local);
    store_cluster_metadata(&mut store, "edge", edge_metadata("edge", "https://e"));
    store_cluster_metadata(&mut store, "bare", edge_metadata("bare", "https://b"));
    store.edge_tokens.push(entry("local", "unused"));
    store.edge_tokens.push(entry("edge", "token"));

    let mut tls = TlsOptions::default().with_cluster_name("kept");
    apply_edge_auth(&mut tls, "local", &store);
    assert_eq!(tls.edge_token, None);
    apply_edge_auth(&mut tls, "missing", &store);
    assert_eq!(tls.edge_token, None);
    apply_edge_auth(&mut tls, "edge", &store);
    apply_edge_auth(&mut tls, "edge", &store);
    assert_eq!(tls.edge_token.as_deref(), Some("token"));
    // An edge cluster without a stored token leaves what was there.
    apply_edge_auth(&mut tls, "bare", &store);
    assert_eq!(tls.edge_token.as_deref(), Some("token"));
    assert_eq!(tls.cluster_name.as_deref(), Some("kept"));
}

#[test]
fn endpoints_are_normalized() {
    assert_eq!(normalize_gateway_endpoint("https://gw///"), "https://gw");
    assert_eq!(normalize_gateway_endpoint("https://gw"), "https://gw");
    assert_eq!(normalize_gateway_endpoint("///"), "");
    assert_eq!(normalize_gateway_endpoint(""), "");
    assert_eq!(normalize_gateway_endpoint("h/\u{e9}/"), "h/\u{e9}");
}

#[test]
fn active_gateway_is_found_before_listed_ones() {
    let mut store = GatewayStore::empty();
    store_cluster_metadata(&mut store, "first", edge_metadata("first", "https://gw"));
    store_cluster_metadata(&mut store, "second", edge_metadata("second", "https://gw/"));
    assert_eq!(find_gateway_by_endpoint("https://gw", &store).as_deref(), Some("first"));
    store.active = Some("second".to_string());
    assert_eq!(find_gateway_by_endpoint("https://gw//", &store).as_deref(), Some("second"));
    store.active = Some("unknown".to_string());
    assert_eq!(find_gateway_by_endpoint("https://gw", &store).as_deref(), Some("first"));
    assert_eq!(find_gateway_by_endpoint("https://other", &store), None);
}

#[test]
fn unlistable_clusters_leave_the_active_one() {
    let mut store = GatewayStore::empty();
    store_cluster_metadata(&mut store, "first", edge_metadata("first", "https://gw"));
    store.listable = false;
    assert_eq!(find_gateway_by_endpoint("https://gw", &store), None);
    store.active = Some("first".to_string());
    assert_eq!(find_gateway_by_endpoint("https://gw", &store).as_deref(), Some("first"));
}

#[test]
fn unknown_endpoint_is_its_own_name() {
    let store = GatewayStore::empty();
    let ctx = resolve_gateway(
        &Some("undescribed".to_string()),
        &Some("https://gw/".to_string()),
        &None,
        &store,
    )
    .unwrap();
    assert_eq!(ctx.name, "https://gw/");
    assert_eq!(ctx.endpoint, "https://gw/");
}

#[test]
fn names_go_by_priority() {
    let flag = Some("flag".to_string());
    let variable = Some("variable".to_string());
    let blank = Some(" \t".to_string());
    let active = Some("active".to_string());
    assert_eq!(resolve_gateway_name(&flag, &variable, &active), flag);
    assert_eq!(resolve_gateway_name(&None, &variable, &active), variable);
    assert_eq!(resolve_gateway_name(&None, &blank, &active), active);
    assert_eq!(resolve_gateway_name(&None, &None, &active), active);
    assert_eq!(resolve_gateway_name(&None, &blank, &None), None);
}

#[test]
fn resolved_gateway_is_the_described_one() {
    let mut store = GatewayStore::empty();
    store_cluster_metadata(&mut store, "gw", edge_metadata("described", "https://gw"));
    store.active = Some("gw".to_string());
    let ctx = resolve_gateway(&None, &None, &None, &store).unwrap();
    assert_eq!(ctx.name, "described");
    assert_eq!(ctx.endpoint, "https://gw");
}

#[test]
fn resolve_gateway_reports_what_is_missing() {
    let mut store = GatewayStore::empty();
    let err = resolve_gateway(&None, &None, &None, &store).unwrap_err();
    assert!(matches!(err, GatewayError::NoActiveGateway));
    assert_eq!(
        err.message(),
        "No active gateway.\nSet one with: nemoclaw gateway select <name>\n\
         Or deploy a new gateway: nemoclaw gateway start"
    );

    store.active = Some("gone".to_string());
    let err = resolve_gateway(&None, &None, &None, &store).unwrap_err();
    assert!(matches!(&err, GatewayError::UnknownGateway(name) if name == "gone"));
    assert_eq!(
        err.message(),
        "Unknown gateway 'gone'.\nDeploy it first: nemoclaw gateway start --name gone\n\
         Or list available gateways: nemoclaw gateway select"
    );
}

#[test]
fn handle_prefers_stored_metadata() {
    let fallback = edge_metadata("fallback", "https://fallback");
    let handle = cluster_handle("gw", "/kube".to_string(), None, fallback.clone());
    assert_eq!(handle.name(), "gw");
    assert_eq!(handle.kubeconfig_path(), "/kube");
    assert_eq!(handle.gateway_endpoint(), "https://fallback");
    let stored = edge_metadata("stored", "https://stored");
    let handle = cluster_handle("gw", "/kube".to_string(), Some(stored), fallback);
    assert_eq!(handle.metadata().name, "stored");
    assert_eq!(handle.gateway_endpoint(), "https://stored");
}

#[test]
fn fallback_metadata_has_the_default_ports() {
    let remote = RemoteOptions::new("user@box".to_string());
    let request = fallback_request("gw", Some(&remote));
    assert_eq!(request.name, "gw");
    assert_eq!(request.remote.unwrap().destination, "user@box");
    assert_eq!(request.port, 8080);
    assert_eq!(request.kube_port, None);
    assert!(fallback_request("gw", None).remote.is_none());
}
