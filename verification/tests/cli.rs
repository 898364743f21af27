use navigator::cli::{
    download_destination, flag_override, forward_header, forward_name_width, forward_row,
    forward_status, forward_stop_cluster, gateway_command_name, log_level, login_name,
    parse_upload_spec, sandbox_create_route, ssh_proxy_target, upload_destination, upload_request,
    CompletionShell, CreateRoute, ForwardInfo, SshProxy, SshProxyArgs,
    SshProxyError,
};
use navigator::gateway::{GatewayContext, GatewayError};
use navigator::metadata::{ClusterMetadata, GatewayStore, StoredCluster};

#[test]
fn parse_upload_spec_without_remote() {
    let (local, remote) = parse_upload_spec("./src");
    assert_eq!(local, "./src");
    assert_eq!(remote, None);
}

#[test]
fn parse_upload_spec_with_remote() {
    let (local, remote) = parse_upload_spec("./src:/sandbox/src");
    assert_eq!(local, "./src");
    assert_eq!(remote, Some("/sandbox/src".to_string()));
}

#[test]
fn parse_upload_spec_with_trailing_colon() {
    let (local, remote) = parse_upload_spec("./src:");
    assert_eq!(local, "./src");
    assert_eq!(remote, None);
}

#[test]
fn upload_spec_is_cut_at_its_first_colon() {
    let (local, remote) = parse_upload_spec("a:b:c");
    assert_eq!(local, "a");
    assert_eq!(remote.as_deref(), Some("b:c"));
    assert_eq!(parse_upload_spec(""), (String::new(), None));
    assert_eq!(parse_upload_spec(":x"), (String::new(), Some("x".to_string())));
}

#[test]
fn upload_request_applies_git_ignore_by_default() {
    let request = upload_request(&Some("./src:/dst".to_string()), false).unwrap();
    assert_eq!(request.local_path, "./src");
    assert_eq!(request.sandbox_path.as_deref(), Some("/dst"));
    assert!(request.git_ignore);
    assert!(!upload_request(&Some("x".to_string()), true).unwrap().git_ignore);
    assert!(upload_request(&None, true).is_none());
}

#[test]
fn destinations_have_defaults() {
    assert_eq!(upload_destination(&None), "/sandbox");
    assert_eq!(upload_destination(&Some("/d".to_string())), "/d");
    assert_eq!(download_destination(&None), ".");
    assert_eq!(download_destination(&Some("/d".to_string())), "/d");
}

#[test]
fn shells_have_names() {
    let shells = [
        (CompletionShell::Bash, "bash"),
        (CompletionShell::Fish, "fish"),
        (CompletionShell::Zsh, "zsh"),
        (CompletionShell::Powershell, "powershell"),
    ];
    for (shell, name) in shells {
        assert_eq!(shell.to_string(), name);
    }
}

#[test]
fn verbosity_sets_the_log_level() {
    assert_eq!(log_level(0), "warn");
    assert_eq!(log_level(1), "info");
    assert_eq!(log_level(2), "debug");
    assert_eq!(log_level(3), "trace");
    assert_eq!(log_level(255), "trace");
}

#[test]
fn negated_flag_wins() {
    assert_eq!(flag_override(true, true), Some(false));
    assert_eq!(flag_override(false, true), Some(false));
    assert_eq!(flag_override(true, false), Some(true));
    assert_eq!(flag_override(false, false), None);
}

#[test]
fn gateway_commands_default_to_nemoclaw() {
    let own = Some("own".to_string());
    let flag = Some("flag".to_string());
    assert_eq!(gateway_command_name(own.clone(), &flag, &None, &None), "own");
    assert_eq!(gateway_command_name(None, &flag, &None, &None), "flag");
    assert_eq!(gateway_command_name(None, &None, &None, &own), "own");
    assert_eq!(gateway_command_name(None, &None, &None, &None), "nemoclaw");
    assert_eq!(login_name(own.clone(), &flag, &None, &None), Ok("own".to_string()));
    assert_eq!(login_name(None, &None, &flag, &None), Ok("flag".to_string()));
    assert_eq!(
        login_name(None, &None, &None, &None),
        Err("No active gateway.\nSpecify a gateway name: nemoclaw gateway login <name>\n\
             Or set one with: nemoclaw gateway select <name>")
    );
    assert_eq!(forward_stop_cluster(&None, &None, &own), "own");
    assert_eq!(forward_stop_cluster(&None, &None, &None), "");
}

#[test]
fn sandbox_is_created_where_a_gateway_is_resolved() {
    let context =
        || GatewayContext { name: "gw".to_string(), endpoint: "https://gw".to_string() };
    match sandbox_create_route(Ok(context()), &None) {
        CreateRoute::Create { gateway, warning } => {
            assert_eq!(gateway.name, "gw");
            assert_eq!(gateway.endpoint, "https://gw");
            assert_eq!(warning, None);
        }
        CreateRoute::Bootstrap => panic!("a gateway was resolved"),
    }
    match sandbox_create_route(Ok(context()), &Some("user@host".to_string())) {
        CreateRoute::Create { gateway, warning } => {
            assert_eq!(gateway.name, "gw");
            assert_eq!(
                warning.as_deref(),
                Some(
                    "--remote ignored: gateway 'gw' is already active. \
                     To redeploy, use: nemoclaw gateway start"
                )
            );
        }
        CreateRoute::Bootstrap => panic!("a gateway was resolved"),
    }
}

#[test]
fn gateway_is_deployed_where_none_is_resolved() {
    for remote in [None, Some("user@host".to_string())] {
        let route = sandbox_create_route(Err(GatewayError::NoActiveGateway), &remote);
        assert!(matches!(route, CreateRoute::Bootstrap));
        let unknown = GatewayError::UnknownGateway("gone".to_string());
        assert!(matches!(sandbox_create_route(Err(unknown), &remote), CreateRoute::Bootstrap));
    }
}

fn no_args() -> SshProxyArgs {
    SshProxyArgs {
        gateway: None,
        sandbox_id: None,
        token: None,
        server: None,
        cluster: None,
        name: None,
    }
}

fn some(text: &str) -> Option<String> {
    Some(text.to_string())
}

#[test]
fn ssh_proxy_prefers_a_session() {
    let args = SshProxyArgs {
        gateway: some("https://gw"),
        sandbox_id: some("id"),
        token: some("tok"),
        server: some("https://server"),
        cluster: some("c"),
        name: some("n"),
    };
    match ssh_proxy_target(args, &GatewayStore::empty()).unwrap() {
        SshProxy::Session { gateway, sandbox_id, token, cluster } => {
            assert_eq!(gateway, "https://gw");
            assert_eq!(sandbox_id, "id");
            assert_eq!(token, "tok");
            assert_eq!(cluster.as_deref(), Some("c"));
        }
        SshProxy::Named { .. } => panic!("a session was given"),
    }
}

#[test]
fn ssh_proxy_resolves_names() {
    let mut store = GatewayStore::empty();
    store.clusters.push(StoredCluster {
        key: "c".to_string(),
        metadata: ClusterMetadata {
            name: "c".to_string(),
            gateway_endpoint: "https://stored".to_string(),
            is_remote: false,
            gateway_port: 8080,
            kube_port: None,
            remote_host: None,
            resolved_host: None,
            auth_mode: None,
            edge_team_domain: None,
            edge_auth_url: None,
        },
    });
    let cases = [
        (SshProxyArgs { cluster: some("c"), name: some("n"), ..no_args() }, "https://stored", some("c")),
        (
            SshProxyArgs {
                cluster: some("c"),
                name: some("n"),
                server: some("https://server"),
                token: some("alone"),
                ..no_args()
            },
            "https://server",
            some("c"),
        ),
        (
            SshProxyArgs { name: some("n"), server: some("https://server"), ..no_args() },
            "https://server",
            None,
        ),
    ];
    for (args, expected, on) in cases {
        match ssh_proxy_target(args, &store).unwrap() {
            SshProxy::Named { endpoint, sandbox, cluster } => {
                assert_eq!(endpoint, expected);
                assert_eq!(sandbox, "n");
                assert_eq!(cluster, on);
            }
            SshProxy::Session { .. } => panic!("no session was given"),
        }
    }
}

#[test]
fn ssh_proxy_reports_what_is_missing() {
    let store = GatewayStore::empty();
    let args = SshProxyArgs { cluster: some("gone"), name: some("n"), ..no_args() };
    let err = ssh_proxy_target(args, &store).unwrap_err();
    assert!(matches!(&err, SshProxyError::Gateway(GatewayError::UnknownGateway(name)) if name == "gone"));
    assert_eq!(
        err.message(),
        "Unknown gateway 'gone'.\nDeploy it first: nemoclaw gateway start --name gone\n\
         Or list available gateways: nemoclaw gateway select"
    );
    for args in [
        no_args(),
        SshProxyArgs { gateway: some("g"), token: some("t"), ..no_args() },
        SshProxyArgs { cluster: some("c"), ..no_args() },
        SshProxyArgs { server: some("s"), ..no_args() },
        SshProxyArgs { name: some("n"), ..no_args() },
    ] {
        let err = ssh_proxy_target(args, &store).unwrap_err();
        assert!(matches!(err, SshProxyError::Incomplete));
        assert_eq!(
            err.message(),
            "provide either --gateway/--sandbox-id/--token or --cluster/--name (or --server/--name)"
        );
    }
}

fn forward(sandbox: &str, port: u16, pid: u32) -> ForwardInfo {
    ForwardInfo { sandbox: sandbox.to_string(), port, pid, alive: true }
}

#[test]
fn forwards_are_listed_in_columns() {
    let short = vec![forward("a", 80, 1)];
    assert_eq!(forward_name_width(&short), 7);
    assert_eq!(forward_name_width(&Vec::new()), 7);
    assert_eq!(forward_header(7), "SANDBOX PORT     PID        STATUS");
    assert_eq!(forward_row(7, &short[0]), "a       80       1          ");

    // The width counts bytes, the columns characters.
    let long = vec![forward("a", 8080, 4294967295), forward("sandb\u{f6}xes", 65535, 0)];
    assert_eq!(forward_name_width(&long), 10);
    assert_eq!(forward_header(10), format!("{:<10} {:<8} {:<10} STATUS", "SANDBOX", "PORT", "PID"));
    for info in &long {
        assert_eq!(
            forward_row(10, info),
            format!("{:<10} {:<8} {:<10} ", info.sandbox, info.port, info.pid)
        );
    }
    assert_eq!(forward_status(true), "running");
    assert_eq!(forward_status(false), "dead");
}
