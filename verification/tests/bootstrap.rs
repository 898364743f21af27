use navigator::bootstrap::{
    bootstrap_outcome, bootstrap_plan, bootstrap_prompt, cluster_to_activate, confirm_bootstrap,
    confirmed, is_connectivity_error, is_connectivity_text, is_missing_tls_material,
    is_missing_tls_text, should_attempt_bootstrap, should_attempt_bootstrap_for, Confirmation,
};
use navigator::metadata::{ClusterHandle, ClusterMetadata};
use navigator::tls::TlsOptions;

fn report(msg: &str) -> miette::Report {
    miette::Report::msg(msg.to_string())
}

#[test]
fn connection_refused_triggers_bootstrap() {
    let err = report("tcp connect error: Connection refused (os error 111)");
    assert!(should_attempt_bootstrap(&err, &TlsOptions::default()));
}

#[test]
fn dns_error_triggers_bootstrap() {
    let err = report("dns error: failed to lookup address information");
    assert!(should_attempt_bootstrap(&err, &TlsOptions::default()));
}

#[test]
fn timeout_triggers_bootstrap() {
    let err = report("operation timed out");
    assert!(should_attempt_bootstrap(&err, &TlsOptions::default()));
}

#[test]
fn no_route_triggers_bootstrap() {
    let err = report("connect error: No route to host");
    assert!(should_attempt_bootstrap(&err, &TlsOptions::default()));
}

#[test]
fn network_unreachable_triggers_bootstrap() {
    let err = report("connect error: Network unreachable");
    assert!(should_attempt_bootstrap(&err, &TlsOptions::default()));
}

#[test]
fn missing_default_tls_files_triggers_bootstrap() {
    let err = report(
        "failed to read TLS CA from /home/user/.config/nemoclaw/clusters/nemoclaw/mtls/ca.crt: No such file or directory",
    );
    assert!(should_attempt_bootstrap(&err, &TlsOptions::default()));
}

#[test]
fn tls_ca_required_triggers_bootstrap() {
    let err = report("TLS CA is required for https endpoints");
    assert!(should_attempt_bootstrap(&err, &TlsOptions::default()));
}

#[test]
fn certificate_error_does_not_trigger() {
    let err = report("tls handshake error: certificate verify failed");
    assert!(!should_attempt_bootstrap(&err, &TlsOptions::default()));
}

#[test]
fn auth_error_does_not_trigger() {
    let err = report("authorization failed: permission denied");
    assert!(!should_attempt_bootstrap(&err, &TlsOptions::default()));
}

#[test]
fn generic_error_does_not_trigger() {
    let err = report("sandbox missing from response");
    assert!(!should_attempt_bootstrap(&err, &TlsOptions::default()));
}

#[test]
fn explicit_tls_with_missing_files_does_not_trigger() {
    // When the user explicitly provided TLS paths and they failed to read,
    // that's a config error, not a missing cluster.
    let tls = TlsOptions::new(
        Some("/explicit/path/ca.crt".into()),
        Some("/explicit/path/tls.crt".into()),
        Some("/explicit/path/tls.key".into()),
    );
    let err = report("failed to read TLS CA from /explicit/path/ca.crt: No such file or directory");
    assert!(!should_attempt_bootstrap(&err, &tls));
}

#[test]
fn explicit_tls_with_connection_refused_triggers() {
    // Even with explicit TLS, a connectivity error should still trigger bootstrap.
    let tls = TlsOptions::new(
        Some("/path/ca.crt".into()),
        Some("/path/tls.crt".into()),
        Some("/path/tls.key".into()),
    );
    let err = report("tcp connect error: Connection refused");
    assert!(should_attempt_bootstrap(&err, &tls));
}

#[test]
fn tls_and_auth_words_rule_out_connectivity() {
    for word in [
        "certificate",
        "handshake",
        "ssl",
        "tls error",
        "authorization",
        "authentication",
        "permission denied",
        "forbidden",
        "unauthorized",
    ] {
        let message = format!("connection refused: {word}");
        assert!(!is_connectivity_error(&message), "{word}");
        assert!(!should_attempt_bootstrap_for(&message, &TlsOptions::default()), "{word}");
    }
}

#[test]
fn every_connectivity_word_counts() {
    for word in [
        "connection refused",
        "connect error",
        "tcp connect",
        "dns error",
        "name resolution",
        "no route to host",
        "network unreachable",
        "connection reset",
        "broken pipe",
        "connection timed out",
        "operation timed out",
    ] {
        assert!(is_connectivity_error(&word.to_uppercase()), "{word}");
    }
    assert!(!is_connectivity_error(""));
    assert!(!is_connectivity_error("connection"));
}

#[test]
fn text_functions_expect_small_letters() {
    assert!(is_connectivity_text("broken pipe"));
    assert!(!is_connectivity_text("Broken pipe"));
    assert!(is_missing_tls_text("failed to read tls key: not found"));
    assert!(!is_missing_tls_text("Failed to read TLS key: not found"));
}

#[test]
fn letters_outside_ascii_are_lowered_too() {
    // The Kelvin sign becomes a small k.
    assert!(is_connectivity_error("BRO\u{212A}EN PIPE"));
}

#[test]
fn missing_tls_needs_both_parts() {
    assert!(is_missing_tls_material("Failed to read TLS key: No such file"));
    assert!(is_missing_tls_material("failed to read TLS cert: not found"));
    assert!(is_missing_tls_material("TLS CA is required"));
    assert!(!is_missing_tls_material("failed to read TLS key: denied"));
    assert!(!is_missing_tls_material("No such file"));
}

#[test]
fn explicit_tls_narrows_the_offer() {
    let explicit = TlsOptions::new(None, None, Some("/k".into()));
    let missing = "failed to read TLS key: not found";
    assert!(!should_attempt_bootstrap_for(missing, &explicit));
    assert!(should_attempt_bootstrap_for(missing, &TlsOptions::default()));
    assert!(should_attempt_bootstrap_for("broken pipe", &explicit));
    assert!(should_attempt_bootstrap_for("broken pipe", &TlsOptions::default()));
}

#[test]
fn explicit_flags_decide_without_a_prompt() {
    assert_eq!(confirm_bootstrap(Some(true), false), Confirmation::Decided(true));
    assert_eq!(confirm_bootstrap(Some(false), true), Confirmation::Decided(false));
    assert_eq!(confirm_bootstrap(None, true), Confirmation::Prompt { default: true });
    assert_eq!(confirm_bootstrap(None, false), Confirmation::NotInteractive);
    assert_eq!(
        bootstrap_prompt(),
        "No cluster available to launch sandbox in. Create one now?"
    );
}

#[test]
fn confirmation_follows_flag_then_answer() {
    for value in [true, false] {
        let decided = Confirmation::Decided(value);
        assert_eq!(confirmed(decided, Ok(!value)), Ok(value));
        assert_eq!(confirmed(decided, Err("closed".to_string())), Ok(value));
        let prompt = confirm_bootstrap(None, true);
        assert_eq!(confirmed(prompt, Ok(value)), Ok(value));
    }
    assert_eq!(
        confirmed(confirm_bootstrap(None, true), Err("closed".to_string())),
        Err("failed to read confirmation: closed".to_string())
    );
    assert_eq!(
        confirmed(confirm_bootstrap(None, false), Ok(true)),
        Err(
            "Gateway not reachable and bootstrap requires confirmation from an interactive \
             terminal.\n\
             Pass --bootstrap to auto-confirm, or run 'nemoclaw gateway start' first."
                .to_string()
        )
    );
}

fn handle() -> ClusterHandle {
    let metadata = ClusterMetadata {
        name: "nemoclaw".to_string(),
        gateway_endpoint: "https://127.0.0.1:8080".to_string(),
        is_remote: false,
        gateway_port: 8080,
        kube_port: None,
        remote_host: None,
        resolved_host: None,
        auth_mode: None,
        edge_team_domain: None,
        edge_auth_url: None,
    };
    ClusterHandle::new("nemoclaw".to_string(), "/kube".to_string(), metadata)
}

#[test]
fn bootstrap_succeeds_where_its_deployment_does() {
    let plan = bootstrap_plan(None, None);
    let deployed = Ok(handle());
    assert_eq!(cluster_to_activate(&plan, &deployed).map(String::as_str), Some("nemoclaw"));
    let gateway = bootstrap_outcome(plan, deployed, Ok(())).unwrap();
    assert_eq!(gateway.endpoint, "https://127.0.0.1:8080");
    assert_eq!(gateway.tls.cluster_name.as_deref(), Some("nemoclaw"));
    assert_eq!(gateway.notice, None);

    let unsaved = Err("read-only".to_string());
    let gateway = bootstrap_outcome(bootstrap_plan(None, None), Ok(handle()), unsaved).unwrap();
    assert_eq!(gateway.endpoint, "https://127.0.0.1:8080");
    assert_eq!(
        gateway.notice.as_deref(),
        Some("failed to set active cluster after bootstrap: read-only")
    );
}

#[test]
fn bootstrap_fails_with_its_deployment() {
    let plan = bootstrap_plan(None, None);
    let deployed = Err(report("no daemon"));
    assert!(cluster_to_activate(&plan, &deployed).is_none());
    let error = bootstrap_outcome(plan, deployed, Ok(())).unwrap_err();
    assert_eq!(error.to_string(), "no daemon");
}

#[test]
fn every_report_is_judged_by_its_own_text() {
    let tls = TlsOptions::default();
    assert!(should_attempt_bootstrap(&report("broken pipe"), &tls));
    assert!(!should_attempt_bootstrap(&report("quota exceeded"), &tls));
    assert!(!should_attempt_bootstrap(&report(""), &tls));
}

#[test]
fn bootstrap_plans_the_default_cluster() {
    let plan = bootstrap_plan(None, Some("/ignored"));
    assert_eq!(plan.cluster_name, "nemoclaw");
    assert_eq!(plan.location, "local");
    assert_eq!(plan.options.name, "nemoclaw");
    assert_eq!(plan.options.port, 8080);
    assert!(plan.options.remote.is_none());
    assert_eq!(plan.tls.cluster_name.as_deref(), Some("nemoclaw"));
    assert!(!plan.tls.has_any());
}

#[test]
fn bootstrap_plans_a_remote_cluster() {
    let plan = bootstrap_plan(Some("user@host"), Some("/home/user/.ssh/id"));
    assert_eq!(plan.location, "remote");
    let remote = plan.options.remote.unwrap();
    assert_eq!(remote.destination, "user@host");
    assert_eq!(remote.ssh_key.as_deref(), Some("/home/user/.ssh/id"));
    let without_key = bootstrap_plan(Some("user@host"), None);
    assert_eq!(without_key.options.remote.unwrap().ssh_key, None);
}
