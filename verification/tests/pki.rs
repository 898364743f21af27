use navigator::pki::{
    apply_outcome, assemble_bundle, can_encode, client_tls_secret_name, create_k8s_tls_secrets,
    decoded_secret_value,
    encode_secret_value, load_existing_pki_bundle, next_apply, read_secret_key, server_client_ca_secret_name,
    server_tls_secret_name, stored_keys, tls_secrets, ApplyStep, PkiBundle, SecretReplies, SecretReply,
    SecretValues, TlsSecret,
};
use navigator::reconcile::{ReconcileEvent, ReconcileStage, ReconcileStep, Reconciliation};
use navigator::shell::{apply_command, namespace_command, read_secret_command};

fn pem(label: &str) -> String {
    format!("-----BEGIN {label}-----\nMAA=\n-----END {label}-----\n")
}

fn bundle() -> PkiBundle {
    PkiBundle {
        ca_cert_pem: pem("CA CERTIFICATE"),
        ca_key_pem: pem("CA KEY"),
        server_cert_pem: pem("SERVER CERTIFICATE"),
        server_key_pem: pem("SERVER KEY"),
        client_cert_pem: pem("CLIENT CERTIFICATE"),
        client_key_pem: pem("CLIENT KEY"),
    }
}

fn printed(secrets: &[TlsSecret], name: &str, key: &str) -> SecretReply {
    let secret = secrets.iter().find(|secret| secret.name == name).unwrap();
    let (_, value) = secret.data.iter().find(|(held, _)| held == key).unwrap();
    SecretReply::Ran { output: format!("{value}\n"), exit_code: 0 }
}

fn replies(secrets: &[TlsSecret]) -> SecretReplies {
    SecretReplies {
        server_cert: printed(secrets, "navigator-server-tls", "tls.crt"),
        server_key: printed(secrets, "navigator-server-tls", "tls.key"),
        ca_cert: printed(secrets, "navigator-server-client-ca", "ca.crt"),
        client_cert: printed(secrets, "navigator-client-tls", "tls.crt"),
        client_key: printed(secrets, "navigator-client-tls", "tls.key"),
        client_ca: printed(secrets, "navigator-client-tls", "ca.crt"),
    }
}

#[test]
fn load_existing_pki_bundle_validates_pem_markers() {
    // Every part of a bundle that carries the "-----BEGIN " marker passes the
    // validation, and a part without it does not.
    let bundle = bundle();
    for (label, pem) in [
        ("ca_cert", &bundle.ca_cert_pem),
        ("server_cert", &bundle.server_cert_pem),
        ("server_key", &bundle.server_key_pem),
        ("client_cert", &bundle.client_cert_pem),
        ("client_key", &bundle.client_key_pem),
    ] {
        assert!(
            pem.contains("-----BEGIN "),
            "{label} should contain PEM marker"
        );
    }
    assert!(load_existing_pki_bundle(&replies(&tls_secrets(&bundle))).is_ok());
    let malformed = PkiBundle { client_key_pem: "no key".to_string(), ..bundle };
    assert_eq!(
        load_existing_pki_bundle(&replies(&tls_secrets(&malformed))).unwrap_err(),
        "client key does not contain valid PEM data"
    );
}

#[test]
fn stored_bundle_is_loaded_again_without_its_ca_key() {
    let stored = bundle();
    assert!(stored.can_be_stored());
    let loaded = load_existing_pki_bundle(&replies(&tls_secrets(&stored))).unwrap();
    assert_eq!(loaded.ca_cert_pem, stored.ca_cert_pem);
    assert_eq!(loaded.ca_key_pem, "");
    assert_eq!(loaded.server_cert_pem, stored.server_cert_pem);
    assert_eq!(loaded.server_key_pem, stored.server_key_pem);
    assert_eq!(loaded.client_cert_pem, stored.client_cert_pem);
    assert_eq!(loaded.client_key_pem, stored.client_key_pem);
}

#[test]
fn first_unreadable_key_is_reported() {
    let secrets = tls_secrets(&bundle());
    let mut broken = replies(&secrets);
    broken.client_ca = SecretReply::Failed("gone".to_string());
    assert_eq!(load_existing_pki_bundle(&broken).unwrap_err(), "exec failed: gone");
    broken.client_key = SecretReply::Ran { output: String::new(), exit_code: 0 };
    assert_eq!(
        load_existing_pki_bundle(&broken).unwrap_err(),
        "secret navigator-client-tls key tls.key not found or empty"
    );
    broken.client_cert = SecretReply::Ran { output: "TUFB".to_string(), exit_code: 1 };
    assert_eq!(
        load_existing_pki_bundle(&broken).unwrap_err(),
        "secret navigator-client-tls key tls.crt not found or empty"
    );
    broken.ca_cert = SecretReply::Ran { output: "*".to_string(), exit_code: 0 };
    assert!(load_existing_pki_bundle(&broken)
        .unwrap_err()
        .starts_with("base64 decode failed for navigator-server-client-ca/ca.crt: "));
    broken.server_key = SecretReply::Ran { output: "/w==".to_string(), exit_code: 0 };
    assert!(load_existing_pki_bundle(&broken)
        .unwrap_err()
        .starts_with("non-UTF8 data in navigator-server-tls/tls.key: "));
    broken.server_cert = SecretReply::Failed("first".to_string());
    assert_eq!(load_existing_pki_bundle(&broken).unwrap_err(), "exec failed: first");
}

#[test]
fn secret_values_are_base64() {
    assert_eq!(encode_secret_value("hello"), "aGVsbG8=");
    assert_eq!(encode_secret_value(""), "");
    assert_eq!(encode_secret_value("\u{fc}>?"), "w7w+Pw==");
    assert!(can_encode("hello"));
}

#[test]
fn secret_values_are_read_back() {
    let ran = |output: &str| SecretReply::Ran { output: output.to_string(), exit_code: 0 };
    assert_eq!(read_secret_key("s", "k", &ran(" aGVsbG8=\n")), Ok("hello".to_string()));
    assert_eq!(
        read_secret_key("s", "k", &ran(" \n")),
        Err("secret s key k not found or empty".to_string())
    );
    assert_eq!(
        read_secret_key("s", "k", &ran("aGVsbG8")),
        Err("base64 decode failed for s/k: Invalid padding".to_string())
    );
    assert_eq!(decoded_secret_value("s", "k", Ok(vec![104, 105])), Ok("hi".to_string()));
    assert_eq!(
        decoded_secret_value("s", "k", Err("why".to_string())),
        Err("base64 decode failed for s/k: why".to_string())
    );
    let invalid = decoded_secret_value("s", "k", Ok(vec![104, 255])).unwrap_err();
    assert_eq!(
        invalid,
        "non-UTF8 data in s/k: invalid utf-8 sequence of 1 bytes from index 1"
    );
}

#[test]
fn each_part_must_be_pem() {
    let values = || SecretValues {
        server_cert: pem("A"),
        server_key: pem("B"),
        ca_cert: pem("C"),
        client_cert: pem("D"),
        client_key: pem("E"),
        client_ca: pem("F"),
    };
    assert!(assemble_bundle(values()).is_ok());
    let bad = || "-----BEGIN".to_string();
    let cases = [
        (SecretValues { server_cert: bad(), client_ca: bad(), ..values() }, "server cert"),
        (SecretValues { server_key: bad(), ..values() }, "server key"),
        (SecretValues { ca_cert: bad(), ..values() }, "CA cert"),
        (SecretValues { client_cert: bad(), ..values() }, "client cert"),
        (SecretValues { client_key: bad(), ..values() }, "client key"),
        (SecretValues { client_ca: bad(), ..values() }, "client CA"),
    ];
    for (values, label) in cases {
        assert_eq!(
            assemble_bundle(values).unwrap_err(),
            format!("{label} does not contain valid PEM data")
        );
    }
}

#[test]
fn manifests_describe_the_secrets() {
    let secrets = tls_secrets(&bundle());
    let names: Vec<&str> = secrets.iter().map(|secret| secret.name.as_str()).collect();
    assert_eq!(
        names,
        [server_tls_secret_name(), server_client_ca_secret_name(), client_tls_secret_name()]
    );
    assert_eq!(secrets[0].apply_context(), "failed to create navigator-server-tls secret");
    let kinds = ["kubernetes.io/tls", "Opaque", "Opaque"];
    let keys: [&[&str]; 3] = [&["tls.crt", "tls.key"], &["ca.crt"], &["tls.crt", "tls.key", "ca.crt"]];
    for (i, secret) in secrets.into_iter().enumerate() {
        let name = secret.name.clone();
        let data = secret.data.iter().map(|(k, v)| (k.clone(), v.clone())).collect::<Vec<_>>();
        let text = secret.manifest();
        assert!(text.starts_with('{') && !text.contains('\n'));
        let value: serde_json::Value = serde_json::from_str(&text).unwrap();
        assert_eq!(value.as_object().unwrap().len(), 5);
        assert_eq!(value["apiVersion"], "v1");
        assert_eq!(value["kind"], "Secret");
        assert_eq!(value["metadata"]["name"], name.as_str());
        assert_eq!(value["metadata"]["namespace"], "navigator");
        assert_eq!(value["metadata"].as_object().unwrap().len(), 2);
        assert_eq!(value["type"], kinds[i]);
        assert_eq!(value["data"].as_object().unwrap().len(), keys[i].len());
        for key in keys[i] {
            let held = data.iter().find(|(k, _)| k == key).unwrap();
            assert_eq!(value["data"][*key], held.1.as_str());
        }
    }
}

#[test]
fn secrets_are_created_in_order() {
    let creations = create_k8s_tls_secrets("/k", &bundle());
    let contexts: Vec<&str> = creations.iter().map(|creation| creation.context.as_str()).collect();
    assert_eq!(
        contexts,
        [
            "failed to create navigator-server-tls secret",
            "failed to create navigator-server-client-ca secret",
            "failed to create navigator-client-tls secret"
        ]
    );
    for (creation, secret) in creations.iter().zip(tls_secrets(&bundle())) {
        assert_eq!(creation.command, apply_command("/k", &secret.manifest()));
    }
}

/// Run the creation of the secrets on these replies; the commands that were run, and
/// how it ended.
fn create(replies: &[SecretReply]) -> (usize, ApplyStep) {
    let creations = create_k8s_tls_secrets("/k", &bundle());
    let mut at = 0;
    let mut count = 0;
    loop {
        let step = next_apply(&creations, at, &replies[at]);
        count += 1;
        match step {
            ApplyStep::Apply(next) => at = next,
            end => return (count, end),
        }
    }
}

#[test]
fn secrets_are_created_where_all_commands_succeed() {
    let ok = || SecretReply::Ran { output: "created".to_string(), exit_code: 0 };
    let (count, end) = create(&[ok(), ok(), ok()]);
    assert_eq!(count, 3);
    assert!(matches!(end, ApplyStep::Done));

    let names = ["navigator-server-tls", "navigator-server-client-ca", "navigator-client-tls"];
    for (k, name) in names.iter().enumerate() {
        let mut replies = [ok(), ok(), ok()];
        replies[k] = SecretReply::Ran { output: "denied".to_string(), exit_code: 1 };
        let (count, end) = create(&replies);
        assert_eq!(count, k + 1);
        match end {
            ApplyStep::Abort { context, reason } => {
                assert_eq!(context, format!("failed to create {name} secret"));
                assert_eq!(reason, "kubectl apply failed (exit 1): denied");
            }
            other => panic!("unexpected {other:?}"),
        }
        replies[k] = SecretReply::Failed("no container".to_string());
        match create(&replies) {
            (count, ApplyStep::Abort { context, reason }) => {
                assert_eq!(count, k + 1);
                assert_eq!(context, format!("failed to create {name} secret"));
                assert_eq!(reason, "no container");
            }
            other => panic!("unexpected {other:?}"),
        }
    }
}

#[test]
fn manifest_is_the_here_document() {
    let secret = tls_secrets(&bundle()).remove(1);
    let manifest = secret.manifest();
    let args = apply_command("/etc/k3s.yaml", &manifest);
    assert_eq!(args[..2], ["sh".to_string(), "-c".to_string()]);
    let lines: Vec<&str> = args[2].split('\n').collect();
    assert_eq!(
        lines,
        [
            "KUBECONFIG=/etc/k3s.yaml kubectl apply -f - <<'ENDOFMANIFEST'",
            manifest.as_str(),
            "ENDOFMANIFEST"
        ]
    );
}

#[test]
fn secrets_and_namespaces_are_asked_for() {
    let args = read_secret_command("/k", "navigator-server-tls", "tls.crt");
    assert_eq!(
        args,
        [
            "sh",
            "-c",
            "KUBECONFIG=/k kubectl get secret navigator-server-tls -n navigator \
             -o jsonpath='{.data.tls\\.crt}' 2>/dev/null"
        ]
    );
    let args = namespace_command("/k", "navigator");
    assert_eq!(args[2], "KUBECONFIG=/k kubectl get namespace navigator -o name 2>&1");
    let keys: Vec<(String, String)> =
        stored_keys().into_iter().map(|key| (key.secret, key.key)).collect();
    assert_eq!(keys.len(), 6);
    assert_eq!(keys[2], ("navigator-server-client-ca".to_string(), "ca.crt".to_string()));
    assert_eq!(keys[5], ("navigator-client-tls".to_string(), "ca.crt".to_string()));
}

#[test]
fn apply_succeeds_with_its_command() {
    assert_eq!(apply_outcome(0, "created"), Ok(()));
    assert_eq!(
        apply_outcome(-1, "denied"),
        Err("kubectl apply failed (exit -1): denied".to_string())
    );
}

fn lines(step: ReconcileStep) -> Vec<String> {
    match step {
        ReconcileStep::Continue(lines) => lines,
        ReconcileStep::Abort(_) => panic!("given up"),
    }
}

#[test]
fn stored_pki_is_reused() {
    let mut reconciliation = Reconciliation::new();
    assert_eq!(reconciliation.stage(), ReconcileStage::Load);
    let step = reconciliation.advance(ReconcileEvent::Loaded(Ok(bundle())));
    assert_eq!(lines(step), ["[progress] Reusing existing TLS certificates"]);
    assert_eq!(reconciliation.stage(), ReconcileStage::Done);
    let (reused, rotated) = reconciliation.finish();
    assert_eq!(reused.server_key_pem, bundle().server_key_pem);
    assert!(!rotated);
}

#[test]
fn unusable_pki_is_rotated() {
    let mut reconciliation = Reconciliation::new();
    let step = reconciliation.advance(ReconcileEvent::Loaded(Err("exec failed: x".to_string())));
    assert_eq!(
        lines(step),
        [
            "[progress] Cannot reuse existing TLS secrets (exec failed: x) \u{2014} generating new PKI",
            "[progress] Waiting for navigator namespace"
        ]
    );
    assert_eq!(reconciliation.stage(), ReconcileStage::AwaitNamespace);
    assert!(reconciliation.bundle().is_none());
    let step = reconciliation.advance(ReconcileEvent::NamespaceReady);
    assert_eq!(lines(step), ["[progress] Generating TLS certificates"]);
    let step = reconciliation.advance(ReconcileEvent::Generated(bundle()));
    assert_eq!(lines(step), ["[progress] Applying TLS secrets to gateway"]);
    assert_eq!(reconciliation.stage(), ReconcileStage::Apply);
    assert!(reconciliation.bundle().is_some());
    assert!(lines(reconciliation.advance(ReconcileEvent::Applied)).is_empty());
    let (fresh, rotated) = reconciliation.finish();
    assert_eq!(fresh.ca_key_pem, bundle().ca_key_pem);
    assert!(rotated);
}

#[test]
fn failed_reconciliation_is_given_up() {
    let mut reconciliation = Reconciliation::new();
    reconciliation.advance(ReconcileEvent::Loaded(Err(String::new())));
    let step = reconciliation.advance(ReconcileEvent::Failed);
    assert!(matches!(step, ReconcileStep::Abort(None)));
    assert_eq!(reconciliation.stage(), ReconcileStage::AwaitNamespace);
    reconciliation.advance(ReconcileEvent::NamespaceReady);
    assert!(matches!(reconciliation.advance(ReconcileEvent::Failed), ReconcileStep::Abort(None)));
    reconciliation.advance(ReconcileEvent::Generated(bundle()));
    let step = reconciliation.advance(ReconcileEvent::Failed);
    assert!(matches!(step, ReconcileStep::Abort(Some("failed to apply new TLS secrets"))));
}
