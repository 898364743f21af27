use navigator::deploy::{DeployAction, DeployEvent, DeployStage, DeployStep, Deployment};
use navigator::hosts::{holds_name, local_hosts, remote_hosts};
use navigator::images::{default_cluster_image_ref, parse_push_images, versioned_image_ref};
use navigator::metadata::ClusterMetadata;
use navigator::namespace::{
    container_down_message, namespace_context, timed_out_message, NamespaceWait, Poll, Verdict,
    POLL_ATTEMPTS,
};
use navigator::options::{DeployOptions, RemoteOptions, DEFAULT_GATEWAY_PORT};
use navigator::pki::PkiBundle;

fn bundle() -> PkiBundle {
    PkiBundle {
        ca_cert_pem: "ca".to_string(),
        ca_key_pem: "ca key".to_string(),
        server_cert_pem: "server".to_string(),
        server_key_pem: "server key".to_string(),
        client_cert_pem: "client".to_string(),
        client_key_pem: "client key".to_string(),
    }
}

fn metadata() -> ClusterMetadata {
    ClusterMetadata {
        name: "gw".to_string(),
        gateway_endpoint: "https://127.0.0.1:8080".to_string(),
        is_remote: false,
        gateway_port: 8080,
        kube_port: None,
        remote_host: None,
        resolved_host: None,
        auth_mode: None,
        edge_team_domain: None,
        edge_auth_url: None,
    }
}

fn deployment(options: DeployOptions, push_list: Option<&str>) -> Deployment {
    Deployment::new(
        options,
        "/kube/config".to_string(),
        None,
        "default/image",
        push_list.map(str::to_string),
    )
}

/// How the current stage ends where all goes well.
fn good_end(deployment: &Deployment, workload: bool, rotated: bool) -> DeployEvent {
    match deployment.action() {
        DeployAction::ResolveRemoteHost { destination } => DeployEvent::RemoteHost {
            ssh_host: destination.rsplit('@').next().unwrap().to_string(),
            resolved: "10.0.0.5".to_string(),
        },
        DeployAction::ResolveLocalHost => DeployEvent::LocalHost(None),
        DeployAction::AwaitKubeconfig { .. } => DeployEvent::Kubeconfig("raw".to_string()),
        DeployAction::CleanStaleNodes { .. } => DeployEvent::StaleNodes(2),
        DeployAction::CheckWorkload { .. } => DeployEvent::Workload(workload),
        DeployAction::ReconcilePki { .. } => DeployEvent::Pki { bundle: bundle(), rotated },
        DeployAction::StoreMetadata { .. } => DeployEvent::Metadata(metadata()),
        _ => DeployEvent::Succeeded,
    }
}

/// Run a deployment to its end; the stages it went through and what it logged.
fn run(deployment: &mut Deployment, workload: bool, rotated: bool) -> (Vec<DeployStage>, Vec<String>) {
    let mut stages = vec![];
    let mut log = vec![];
    while deployment.stage() != DeployStage::Done {
        stages.push(deployment.stage());
        let event = good_end(deployment, workload, rotated);
        match deployment.advance(event) {
            DeployStep::Continue(lines) => log.extend(lines),
            DeployStep::Abort => panic!("given up"),
        }
    }
    (stages, log)
}

#[test]
fn local_deployment_goes_through_its_stages() {
    let mut local = deployment(DeployOptions::new("gw".to_string()), None);
    let (stages, log) = run(&mut local, false, true);
    assert_eq!(
        stages,
        [
            DeployStage::Connect,
            DeployStage::PullImage,
            DeployStage::EnsureNetwork,
            DeployStage::EnsureVolume,
            DeployStage::ResolveHosts,
            DeployStage::EnsureContainer,
            DeployStage::StartContainer,
            DeployStage::AwaitKubeconfig,
            DeployStage::WriteKubeconfig,
            DeployStage::CleanStaleNodes,
            DeployStage::CheckWorkload,
            DeployStage::ReconcilePki,
            DeployStage::StoreCredentials,
            DeployStage::AwaitReady,
            DeployStage::StoreMetadata,
        ]
    );
    assert_eq!(
        log,
        [
            "[status] Pulling gateway image",
            "[status] Preparing gateway",
            "[progress] Creating gateway network",
            "[progress] Preparing gateway volume",
            "[progress] Creating gateway container",
            "[status] Starting gateway",
            "[progress] Waiting for kubeconfig",
            "[progress] Writing kubeconfig",
            "[progress] Cleaning stale nodes",
            "[progress] Removed 2 stale node(s)",
            "[progress] Reconciling TLS certificates",
            "[progress] Storing CLI mTLS credentials",
            "[status] Waiting for gateway",
            "[progress] Persisting gateway metadata",
        ]
    );
    assert!(matches!(local.action(), DeployAction::Finish));
    let handle = local.finish();
    assert_eq!(handle.name(), "gw");
    assert_eq!(handle.kubeconfig_path(), "/kube/config");
    assert_eq!(handle.gateway_endpoint(), "https://127.0.0.1:8080");
}

#[test]
fn rotated_pki_restarts_a_workload_that_ran() {
    for (workload, rotated) in [(false, false), (false, true), (true, false), (true, true)] {
        let mut local = deployment(DeployOptions::new("gw".to_string()), None);
        let (stages, log) = run(&mut local, workload, rotated);
        let due = workload && rotated;
        assert_eq!(stages.contains(&DeployStage::RestartRotated), due);
        let line = "[progress] PKI rotated \u{2014} restarting navigator workload".to_string();
        assert_eq!(log.contains(&line), due);
    }
}

#[test]
fn listed_images_are_pushed_by_local_deployments() {
    let options = || DeployOptions::new("gw".to_string());
    let mut local = deployment(options(), Some("a:dev, b:dev,,"));
    let (stages, log) = run(&mut local, false, false);
    assert!(stages.contains(&DeployStage::PushImages));
    assert!(stages.contains(&DeployStage::RestartPushed));
    assert!(log.contains(&"[progress] Importing 2 local image(s) into gateway".to_string()));
    assert!(log.contains(&"[progress] Restarting navigator deployment".to_string()));

    let (stages, _) = run(&mut deployment(options(), Some(" , ")), false, false);
    assert!(!stages.contains(&DeployStage::PushImages));
    assert!(!stages.contains(&DeployStage::RestartPushed));

    let remote = options().with_remote(RemoteOptions::new("user@box".to_string()));
    let (stages, _) = run(&mut deployment(remote, Some("a:dev")), false, false);
    assert!(!stages.contains(&DeployStage::PushImages));
    assert!(!stages.contains(&DeployStage::RestartPushed));
}

#[test]
fn remote_deployment_uses_its_destination() {
    let remote = RemoteOptions::new("user@box".to_string()).with_ssh_key("/id".to_string());
    let options = DeployOptions::new("gw".to_string())
        .with_remote(remote)
        .with_port(9090)
        .with_gateway_host("gw.example.com".to_string())
        .with_kube_port(6443)
        .with_disable_tls(true)
        .with_disable_gateway_auth(true)
        .with_registry_token("token".to_string());
    let mut remote = deployment(options, None);
    while remote.stage() != DeployStage::Done {
        match remote.action() {
            DeployAction::ConnectRemote { remote } => {
                assert_eq!(remote.destination, "user@box");
                assert_eq!(remote.ssh_key.as_deref(), Some("/id"));
            }
            DeployAction::PullRemoteImage { image_ref, registry_token } => {
                assert_eq!(image_ref, "default/image");
                assert_eq!(registry_token.as_deref(), Some("token"));
            }
            DeployAction::EnsureContainer {
                name,
                image_ref,
                extra_sans,
                ssh_gateway_host,
                port,
                kube_port,
                disable_tls,
                disable_gateway_auth,
                registry_token,
            } => {
                assert_eq!(name, "gw");
                assert_eq!(image_ref, "default/image");
                assert_eq!(*extra_sans, ["10.0.0.5", "box", "gw.example.com"]);
                assert_eq!(ssh_gateway_host.as_deref(), Some("gw.example.com"));
                assert_eq!(port, 9090);
                assert_eq!(kube_port, Some(6443));
                assert!(disable_tls);
                assert!(disable_gateway_auth);
                assert_eq!(registry_token.as_deref(), Some("token"));
            }
            DeployAction::WriteRemoteKubeconfig { name, kubeconfig, destination, kube_port, path } => {
                assert_eq!(name, "gw");
                assert_eq!(kubeconfig, "raw");
                assert_eq!(destination, "user@box");
                assert_eq!(kube_port, Some(6443));
                assert_eq!(path, "/kube/config");
            }
            DeployAction::ReconcilePki { name, extra_sans } => {
                assert_eq!(name, "gw");
                assert_eq!(extra_sans.len(), 3);
            }
            DeployAction::StoreCredentials { name, bundle } => {
                assert_eq!(name, "gw");
                assert_eq!(bundle.client_key_pem, "client key");
            }
            DeployAction::StoreMetadata { name, target, port, kube_port, ssh_gateway_host, disable_tls } => {
                assert_eq!(name, "gw");
                assert!(target.is_some());
                assert_eq!(port, 9090);
                assert_eq!(kube_port, Some(6443));
                assert_eq!(ssh_gateway_host.as_deref(), Some("gw.example.com"));
                assert!(disable_tls);
            }
            DeployAction::ConnectLocal
            | DeployAction::EnsureImage { .. }
            | DeployAction::ResolveLocalHost
            | DeployAction::WriteLocalKubeconfig { .. } => panic!("a local action"),
            _ => {}
        }
        let event = good_end(&remote, true, true);
        assert!(matches!(remote.advance(event), DeployStep::Continue(_)));
    }
}

#[test]
fn failed_stage_gives_the_deployment_up() {
    let mut local = deployment(DeployOptions::new("gw".to_string()), Some("image"));
    while local.stage() != DeployStage::Done {
        let stage = local.stage();
        if stage == DeployStage::CleanStaleNodes {
            // Stale nodes are removed as far as possible.
            match local.advance(DeployEvent::Failed) {
                DeployStep::Continue(lines) => assert!(lines.is_empty()),
                DeployStep::Abort => panic!("given up"),
            }
        } else {
            assert!(matches!(local.advance(DeployEvent::Failed), DeployStep::Abort));
            assert_eq!(local.stage(), stage);
            let event = good_end(&local, true, true);
            local.advance(event);
        }
    }
}

#[test]
fn no_removed_node_is_no_line() {
    let mut local = deployment(DeployOptions::new("gw".to_string()), None);
    while local.stage() != DeployStage::CleanStaleNodes {
        let event = good_end(&local, false, false);
        local.advance(event);
    }
    match local.advance(DeployEvent::StaleNodes(0)) {
        DeployStep::Continue(lines) => assert!(lines.is_empty()),
        DeployStep::Abort => panic!("given up"),
    }
}

#[test]
fn options_start_from_defaults() {
    let options = DeployOptions::new("gw".to_string());
    assert_eq!(options.name, "gw");
    assert_eq!(options.port, DEFAULT_GATEWAY_PORT);
    assert_eq!(DEFAULT_GATEWAY_PORT, 8080);
    assert!(options.image_ref.is_none());
    assert!(options.remote.is_none());
    assert!(options.gateway_host.is_none());
    assert!(options.kube_port.is_none());
    assert!(!options.disable_tls);
    assert!(!options.disable_gateway_auth);
    assert!(options.registry_token.is_none());
}

#[test]
fn images_are_chosen() {
    let configured = |image: &str| default_cluster_image_ref(Some(image.to_string()), "default");
    assert_eq!(configured("custom"), "custom");
    assert_eq!(configured(" custom "), " custom ");
    assert_eq!(configured(" \n"), "default");
    assert_eq!(default_cluster_image_ref(None, "default"), "default");
    assert_eq!(versioned_image_ref("ghcr.io/x/cluster", "1.2"), "ghcr.io/x/cluster:1.2");
    assert_eq!(parse_push_images(" a , ,b,\tc d\n"), ["a", "b", "c d"]);
    assert!(parse_push_images("").is_empty());

    let mut options = DeployOptions::new("gw".to_string());
    options.image_ref = Some("mine".to_string());
    let mut chosen =
        Deployment::new(options, String::new(), Some("configured".to_string()), "default", None);
    chosen.advance(DeployEvent::Succeeded);
    match chosen.action() {
        DeployAction::EnsureImage { image_ref, .. } => assert_eq!(image_ref, "mine"),
        other => panic!("unexpected {other:?}"),
    }
}

#[test]
fn certificate_covers_the_hosts() {
    let gateway_host = Some("gw".to_string());
    let hosts = remote_hosts("box".to_string(), "10.0.0.5".to_string(), &None);
    assert_eq!(hosts.extra_sans, ["10.0.0.5", "box"]);
    assert_eq!(hosts.ssh_gateway_host.as_deref(), Some("10.0.0.5"));
    let hosts = remote_hosts("box".to_string(), "box".to_string(), &gateway_host);
    assert_eq!(hosts.extra_sans, ["box", "gw"]);
    assert_eq!(hosts.ssh_gateway_host, gateway_host);
    let hosts = remote_hosts("gw".to_string(), "10.0.0.5".to_string(), &gateway_host);
    assert_eq!(hosts.extra_sans, ["10.0.0.5", "gw"]);

    let hosts = local_hosts(None, &None);
    assert!(hosts.extra_sans.is_empty());
    assert_eq!(hosts.ssh_gateway_host, None);
    let hosts = local_hosts(Some("docker".to_string()), &gateway_host);
    assert_eq!(hosts.extra_sans, ["docker", "gw"]);
    assert_eq!(hosts.ssh_gateway_host, gateway_host);
    let hosts = local_hosts(Some("gw".to_string()), &gateway_host);
    assert_eq!(hosts.extra_sans, ["gw"]);
    assert!(holds_name(&hosts.extra_sans, "gw"));
    assert!(!holds_name(&hosts.extra_sans, "docker"));
}

fn ran(output: &str, exit_code: i64) -> Poll {
    Poll::Ran { output: output.to_string(), exit_code }
}

#[test]
fn namespace_is_polled_with_growing_pauses() {
    let mut wait = NamespaceWait::new();
    let mut pauses = vec![];
    loop {
        match wait.judge("navigator", &ran("not found", 1)) {
            Verdict::Retry { pause_ms } => pauses.push(pause_ms),
            verdict => {
                assert_eq!(verdict, Verdict::TimedOut);
                break;
            }
        }
    }
    assert_eq!(pauses.len(), POLL_ATTEMPTS as usize - 1);
    assert_eq!(pauses[..6], [200, 400, 800, 1600, 2000, 2000]);
    assert_eq!(pauses.iter().sum::<u64>(), 113_000);
}

#[test]
fn namespace_is_ready_once_found() {
    let mut wait = NamespaceWait::new();
    let not_run = Poll::NotRun { container_running: true };
    assert_eq!(wait.judge("navigator", &not_run), Verdict::Retry { pause_ms: 200 });
    assert_eq!(wait.judge("navigator", &ran("namespace/navigator", 1)), Verdict::Retry { pause_ms: 400 });
    assert_eq!(wait.judge("navigator", &ran("namespace/other", 0)), Verdict::Retry { pause_ms: 800 });
    assert_eq!(wait.judge("navigator", &ran("namespace/navigator\n", 0)), Verdict::Ready);
}

#[test]
fn wait_is_given_up() {
    let mut wait = NamespaceWait::new();
    let down = Poll::NotRun { container_running: false };
    assert_eq!(wait.judge("navigator", &down), Verdict::ContainerDown);
    let not_run = Poll::NotRun { container_running: true };
    for _ in 1..POLL_ATTEMPTS {
        assert!(matches!(wait.judge("navigator", &not_run), Verdict::Retry { .. }));
    }
    assert_eq!(wait.judge("navigator", &not_run), Verdict::NotRun);
    assert_eq!(namespace_context(), "K8s namespace not ready");
    assert_eq!(
        timed_out_message("navigator", "not found"),
        "timed out waiting for namespace 'navigator' to exist: not found"
    );
    assert_eq!(
        container_down_message("navigator", "exited", "log"),
        "cluster container is not running while waiting for namespace 'navigator': exited\nlog"
    );
}
