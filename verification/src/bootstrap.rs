//! Deploying a gateway on the way to a sandbox.
//!
//! When `sandbox create` cannot reach a cluster, this decides whether to offer the
//! deployment of one, whether to ask the user first, and what to deploy.

use vstd::prelude::*;
use vstd::string::*;
use vstd::utf8::is_ascii_chars;
use crate::metadata::ClusterHandle;
use crate::options::{DeployOptions, RemoteOptions, DEFAULT_GATEWAY_PORT};
use crate::text::{
    ascii_lowercase, contains, contains_any, contains_text, law_ascii_letters_are_lowered,
    lowercase_text, opt_view, to_lowercase,
};
use crate::tls::TlsOptions;

verus! {

/// `miette::Report`, the error that a failed connection is reported with.
#[verifier::external_type_specification]
#[verifier::external_body]
pub struct ExReport(miette::Report);

/// `text` is how `Debug` of a `miette::Report` renders `error`.
pub uninterp spec fn report_reads(error: miette::Report, text: Seq<char>) -> bool;

/// `Debug` of a `miette::Report` renders the error, through the handler that was
/// captured when the report was made. The text is one that the report reads as.
/// What it holds is not stated: handlers are installed by the process, and the
/// error inside is formatted by its own code.
#[verifier::external_body]
fn report_text(error: &miette::Report) -> (text: String)
    ensures
        report_reads(*error, text@),
{
    format!("{error:?}")
}

/// What an error says, in small letters, where the network is the cause.
pub open spec fn connectivity_patterns() -> Seq<Seq<char>> {
    seq![
        "connection refused"@,
        "connect error"@,
        "tcp connect"@,
        "dns error"@,
        "name resolution"@,
        "no route to host"@,
        "network unreachable"@,
        "connection reset"@,
        "broken pipe"@,
        "connection timed out"@,
        "operation timed out"@,
    ]
}

/// What an error says, in small letters, where TLS or authorization is the cause.
pub open spec fn non_connectivity_patterns() -> Seq<Seq<char>> {
    seq![
        "certificate"@,
        "handshake"@,
        "ssl"@,
        "tls error"@,
        "authorization"@,
        "authentication"@,
        "permission denied"@,
        "forbidden"@,
        "unauthorized"@,
    ]
}

/// An error that reads `lower` in small letters is a failure of the network: it
/// says so, and does not name TLS or authorization.
pub open spec fn tells_of_connectivity(lower: Seq<char>) -> bool {
    &&& !contains_any(lower, non_connectivity_patterns())
    &&& contains_any(lower, connectivity_patterns())
}

/// An error that reads `lower` in small letters is that the TLS material is not
/// there.
pub open spec fn tells_of_missing_tls(lower: Seq<char>) -> bool {
    &&& contains_text(lower, "failed to read tls"@) || contains_text(
        lower,
        "tls ca is required"@,
    )
    &&& contains_text(lower, "no such file"@) || contains_text(lower, "not found"@)
        || contains_text(lower, "is required"@)
}

/// Deploying a gateway is offered after an error that reads `message`. Missing TLS
/// material counts as a missing gateway only where none was named `explicit`ly.
pub open spec fn bootstrap_offered(message: Seq<char>, explicit: bool) -> bool {
    let lower = lowercase_text(message);
    (!explicit && tells_of_missing_tls(lower)) || tells_of_connectivity(lower)
}

/// The texts that `patterns` hold.
pub open spec fn pattern_views(patterns: Seq<&'static str>) -> Seq<Seq<char>> {
    patterns.map_values(|pattern: &'static str| pattern@)
}

/// Whether one of `patterns` stands in `text`.
fn contains_one(text: &str, patterns: &Vec<&'static str>) -> (found: bool)
    ensures
        found == contains_any(text@, pattern_views(patterns@)),
{
    let mut i: usize = 0;
    while i < patterns.len()
        invariant
            i <= patterns@.len(),
            forall|j: int| 0 <= j < i ==> !contains_text(text@, #[trigger] patterns@[j]@),
        decreases patterns@.len() - i,
    {
        if contains(text, patterns[i]) {
            assert(contains_text(text@, pattern_views(patterns@)[i as int]));
            return true;
        }
        i += 1;
    }
    assert forall|j: int| 0 <= j < pattern_views(patterns@).len() implies !contains_text(
        text@,
        #[trigger] pattern_views(patterns@)[j],
    ) by {
        assert(!contains_text(text@, patterns@[j]@));
    }
    false
}

/// Check if an error that reads `lower` in small letters is a network connectivity
/// failure.
pub fn is_connectivity_text(lower: &str) -> (connectivity: bool)
    ensures
        connectivity == tells_of_connectivity(lower@),
{
    let connectivity: Vec<&'static str> = vec![
        "connection refused",
        "connect error",
        "tcp connect",
        "dns error",
        "name resolution",
        "no route to host",
        "network unreachable",
        "connection reset",
        "broken pipe",
        "connection timed out",
        "operation timed out",
    ];
    let non_connectivity: Vec<&'static str> = vec![
        "certificate",
        "handshake",
        "ssl",
        "tls error",
        "authorization",
        "authentication",
        "permission denied",
        "forbidden",
        "unauthorized",
    ];
    assert(pattern_views(connectivity@) =~= connectivity_patterns());
    assert(pattern_views(non_connectivity@) =~= non_connectivity_patterns());
    !contains_one(lower, &non_connectivity) && contains_one(lower, &connectivity)
}

/// Check if an error that reads `lower` in small letters tells of TLS material that
/// is not there.
pub fn is_missing_tls_text(lower: &str) -> (missing: bool)
    ensures
        missing == tells_of_missing_tls(lower@),
{
    (contains(lower, "failed to read tls") || contains(lower, "tls ca is required")) && (contains(
        lower,
        "no such file",
    ) || contains(lower, "not found") || contains(lower, "is required"))
}

/// Check if the error message indicates missing TLS material files at default paths.
pub fn is_missing_tls_material(msg: &str) -> (missing: bool)
    ensures
        missing == tells_of_missing_tls(lowercase_text(msg@)),
{
    let lower = to_lowercase(msg);
    is_missing_tls_text(lower.as_str())
}

/// Check if the error message represents a network connectivity failure.
pub fn is_connectivity_error(msg: &str) -> (connectivity: bool)
    ensures
        connectivity == tells_of_connectivity(lowercase_text(msg@)),
{
    let lower = to_lowercase(msg);
    is_connectivity_text(lower.as_str())
}

/// Determines if an error that reads `msg` indicates that the cluster is
/// unreachable and bootstrap should be offered.
pub fn should_attempt_bootstrap_for(msg: &str, tls: &TlsOptions) -> (offered: bool)
    ensures
        offered == bootstrap_offered(msg@, tls.explicit()),
{
    // If TLS paths were explicitly provided and they failed, that's a configuration
    // error, not a missing-cluster situation.
    if tls.has_any() {
        return is_connectivity_error(msg);
    }
    // With no explicit TLS options, missing default cert files strongly implies no
    // cluster has been bootstrapped yet.
    if is_missing_tls_material(msg) {
        return true;
    }
    is_connectivity_error(msg)
}

/// Determines if a gRPC connection error indicates the cluster is unreachable
/// and bootstrap should be offered, by what the error reads when it is rendered.
///
/// Returns `true` for connectivity errors (connection refused, timeout, DNS failure)
/// and for missing default TLS materials (which implies no cluster has been deployed).
///
/// Returns `false` for explicit TLS configuration errors, auth failures, and other
/// non-connectivity issues.
pub fn should_attempt_bootstrap(error: &miette::Report, tls: &TlsOptions) -> (offered: bool)
    ensures
        exists|message: Seq<char>| #[trigger]
            report_reads(*error, message) && offered == bootstrap_offered(message, tls.explicit()),
{
    let message = report_text(error);
    should_attempt_bootstrap_for(message.as_str(), tls)
}

/// Whether the user is asked before a cluster is bootstrapped.
#[derive(Debug, Clone, Copy, PartialEq, Eq, Structural)]
pub enum Confirmation {
    /// The decision is made.
    Decided(bool),
    /// The user is to be asked, with the given answer as the default.
    Prompt { default: bool },
    /// The user cannot be asked.
    NotInteractive,
}

/// How cluster bootstrap is confirmed.
pub open spec fn confirmation_of(override_value: Option<bool>, interactive: bool) -> Confirmation {
    match override_value {
        Some(value) => Confirmation::Decided(value),
        None => if interactive {
            Confirmation::Prompt { default: true }
        } else {
            Confirmation::NotInteractive
        },
    }
}

/// Decide how cluster bootstrap is confirmed.
///
/// When `override_value` is `Some(true)` or `Some(false)`, the decision is
/// made immediately (from `--bootstrap` / `--no-bootstrap`). Otherwise,
/// prompts interactively when stdin is a terminal, and fails in
/// non-interactive mode.
pub fn confirm_bootstrap(override_value: Option<bool>, interactive: bool) -> (confirmation:
    Confirmation)
    ensures
        confirmation == confirmation_of(override_value, interactive),
{
    match override_value {
        Some(value) => Confirmation::Decided(value),
        None => {
            if interactive {
                Confirmation::Prompt { default: true }
            } else {
                Confirmation::NotInteractive
            }
        },
    }
}

/// What the user is asked.
pub fn bootstrap_prompt() -> (question: &'static str)
    ensures
        question@ == "No cluster available to launch sandbox in. Create one now?"@,
{
    "No cluster available to launch sandbox in. Create one now?"
}

/// The error where the user cannot be asked.
pub open spec fn not_interactive_text() -> Seq<char> {
    "Gateway not reachable and bootstrap requires confirmation from an interactive terminal.\nPass --bootstrap to auto-confirm, or run 'nemoclaw gateway start' first."@
}

/// Whether bootstrap is confirmed, or why that is not known, where the user, if
/// asked, gave `answer`.
pub open spec fn confirmation_result(
    confirmation: Confirmation,
    answer: Result<bool, Seq<char>>,
) -> Result<bool, Seq<char>> {
    match confirmation {
        Confirmation::Decided(value) => Ok(value),
        Confirmation::NotInteractive => Err(not_interactive_text()),
        Confirmation::Prompt { .. } => match answer {
            Ok(value) => Ok(value),
            Err(error) => Err("failed to read confirmation: "@ + error),
        },
    }
}

/// What an answer or the description of its failure holds.
pub open spec fn answer_view(answer: Result<bool, String>) -> Result<bool, Seq<char>> {
    match answer {
        Ok(value) => Ok(value),
        Err(error) => Err(error@),
    }
}

/// Whether bootstrap is confirmed. `answer` is what the user answered, or why that
/// could not be read; it counts only where the user is to be asked.
pub fn confirmed(confirmation: Confirmation, answer: Result<bool, String>) -> (result: Result<
    bool,
    String,
>)
    ensures
        answer_view(result) == confirmation_result(confirmation, answer_view(answer)),
{
    match confirmation {
        Confirmation::Decided(value) => Ok(value),
        Confirmation::NotInteractive => Err(
            "Gateway not reachable and bootstrap requires confirmation from an interactive terminal.\nPass --bootstrap to auto-confirm, or run 'nemoclaw gateway start' first.".to_owned(),
        ),
        Confirmation::Prompt { .. } => match answer {
            Ok(value) => Ok(value),
            Err(error) => {
                let mut text = "failed to read confirmation: ".to_owned();
                text.append(error.as_str());
                Err(text)
            },
        },
    }
}

/// What is deployed on the way to a sandbox.
#[derive(Debug)]
pub struct BootstrapPlan {
    /// The name of the cluster, which becomes the active one.
    pub cluster_name: String,
    /// Where it is deployed, as the user reads it.
    pub location: &'static str,
    pub options: DeployOptions,
    /// The TLS options of the new cluster, before its default paths are resolved.
    pub tls: TlsOptions,
}

/// The remote side of a deployment to `destination`.
pub open spec fn is_remote_to(
    remote: RemoteOptions,
    destination: Seq<char>,
    ssh_key: Option<Seq<char>>,
) -> bool {
    remote.destination@ == destination && opt_view(remote.ssh_key) == ssh_key
}

/// What an optional text holds.
pub open spec fn opt_text(text: Option<&str>) -> Option<Seq<char>> {
    match text {
        Some(inner) => Some(inner@),
        None => None,
    }
}

/// `plan` is the deployment of the default cluster on the machine that `remote`
/// names, or on this one.
pub open spec fn plans_bootstrap(
    remote: Option<Seq<char>>,
    ssh_key: Option<Seq<char>>,
    plan: BootstrapPlan,
) -> bool {
    &&& plan.cluster_name@ == "nemoclaw"@
    &&& plan.location@ == (if remote is Some {
        "remote"@
    } else {
        "local"@
    })
    &&& plan.options.name@ == "nemoclaw"@
    &&& plan.options == (DeployOptions {
        name: plan.options.name,
        image_ref: None,
        remote: plan.options.remote,
        port: 8080,
        gateway_host: None,
        kube_port: None,
        disable_tls: false,
        disable_gateway_auth: false,
        registry_token: None,
    })
    &&& plan.options.remote is Some <==> remote is Some
    &&& remote is Some ==> is_remote_to(plan.options.remote->Some_0, remote->Some_0, ssh_key)
    &&& opt_view(plan.tls.cluster_name) == Some("nemoclaw"@)
    &&& plan.tls == (TlsOptions {
        ca: None,
        cert: None,
        key: None,
        cluster_name: plan.tls.cluster_name,
        edge_token: None,
    })
}

/// Plan the deployment of the default cluster: on the machine that `remote` names,
/// with the given SSH key, or locally where it names none. Nothing else differs
/// from the default options.
pub fn bootstrap_plan(remote: Option<&str>, ssh_key: Option<&str>) -> (plan: BootstrapPlan)
    ensures
        plans_bootstrap(opt_text(remote), opt_text(ssh_key), plan),
{
    let mut options = DeployOptions::new("nemoclaw".to_owned());
    let mut location: &'static str = "local";
    if let Some(destination) = remote {
        location = "remote";
        let mut remote_options = RemoteOptions::new(destination.to_owned());
        if let Some(key) = ssh_key {
            remote_options = remote_options.with_ssh_key(key.to_owned());
        }
        options = options.with_remote(remote_options);
    }
    BootstrapPlan {
        cluster_name: "nemoclaw".to_owned(),
        location,
        options,
        tls: TlsOptions::default().with_cluster_name("nemoclaw"),
    }
}

/// The cluster that becomes the active one after the deployment of `plan`: the
/// planned one where it was deployed, and none where that failed.
pub fn cluster_to_activate<'a>(
    plan: &'a BootstrapPlan,
    deployed: &Result<ClusterHandle, miette::Report>,
) -> (name: Option<&'a String>)
    ensures
        name is Some <==> deployed is Ok,
        name is Some ==> *name->Some_0 == plan.cluster_name,
{
    match deployed {
        Ok(_) => Some(&plan.cluster_name),
        Err(_) => None,
    }
}

/// A gateway that was deployed on the way to a sandbox.
#[derive(Debug)]
pub struct Bootstrapped {
    /// The TLS options of the cluster, before its default paths are resolved.
    pub tls: TlsOptions,
    /// The endpoint of its gateway.
    pub endpoint: String,
    /// What is logged for diagnosis.
    pub notice: Option<String>,
}

/// `result` is how the bootstrap of `plan` ends: with the error of the deployment
/// where that failed, and otherwise with the deployed gateway, whether or not it
/// could be made the active one.
pub open spec fn ends_bootstrap(
    plan: BootstrapPlan,
    deployed: Result<ClusterHandle, miette::Report>,
    saved: Result<(), String>,
    result: Result<Bootstrapped, miette::Report>,
) -> bool {
    match deployed {
        Err(error) => result == Err::<Bootstrapped, miette::Report>(error),
        Ok(handle) => {
            &&& result matches Ok(gateway)
            &&& gateway.tls == plan.tls
            &&& gateway.endpoint@ == handle.spec_metadata().gateway_endpoint@
            &&& opt_view(gateway.notice) == (match saved {
                Ok(_) => None,
                Err(error) => Some(
                    "failed to set active cluster after bootstrap: "@ + error@,
                ),
            })
        },
    }
}

/// How the bootstrap of `plan` ends. `saved` tells whether the cluster could be made
/// the active one, which does not decide whether the bootstrap succeeds.
pub fn bootstrap_outcome(
    plan: BootstrapPlan,
    deployed: Result<ClusterHandle, miette::Report>,
    saved: Result<(), String>,
) -> (result: Result<Bootstrapped, miette::Report>)
    ensures
        ends_bootstrap(plan, deployed, saved, result),
{
    let handle = match deployed {
        Ok(handle) => handle,
        Err(error) => {
            return Err(error);
        },
    };
    let notice = match saved {
        Ok(()) => None,
        Err(error) => {
            let mut text = "failed to set active cluster after bootstrap: ".to_owned();
            text.append(error.as_str());
            Some(text)
        },
    };
    Ok(Bootstrapped { tls: plan.tls, endpoint: handle.gateway_endpoint().to_owned(), notice })
}

/// A decision by flag stands whatever the terminal and the answer are. Without one,
/// an answer is taken as it is, a failed prompt and a missing terminal are errors.
pub proof fn law_confirmation_follows_flag_then_answer(
    confirmation: Confirmation,
    answer: Result<bool, Seq<char>>,
)
    ensures
        confirmation is Decided ==> confirmation_result(confirmation, answer) == Ok::<
            bool,
            Seq<char>,
        >(confirmation->Decided_0),
        confirmation is NotInteractive ==> confirmation_result(confirmation, answer) is Err,
        confirmation is Prompt ==> (confirmation_result(confirmation, answer) is Ok
            <==> answer is Ok),
        confirmation is Prompt && answer is Ok ==> confirmation_result(confirmation, answer)
            == answer,
{
}

/// A bootstrap succeeds if and only if its deployment does: a failure to make the
/// cluster the active one is no failure of the bootstrap.
pub proof fn law_bootstrap_succeeds_iff_deployed(
    plan: BootstrapPlan,
    deployed: Result<ClusterHandle, miette::Report>,
    saved: Result<(), String>,
    result: Result<Bootstrapped, miette::Report>,
)
    requires
        ends_bootstrap(plan, deployed, saved, result),
    ensures
        result is Ok <==> deployed is Ok,
{
}

/// An error that names TLS or authorization is never taken for a failure of the
/// network. So bootstrap is offered after it only where no TLS path was explicit
/// and the error tells of missing TLS material.
pub proof fn law_tls_and_auth_errors_are_no_connectivity(message: Seq<char>, i: int)
    requires
        0 <= i < non_connectivity_patterns().len(),
        contains_text(lowercase_text(message), non_connectivity_patterns()[i]),
    ensures
        !tells_of_connectivity(lowercase_text(message)),
        bootstrap_offered(message, true) == false,
        bootstrap_offered(message, false) == tells_of_missing_tls(lowercase_text(message)),
{
}

/// With explicit TLS paths bootstrap is offered after failures of the network only;
/// without them it is offered after these too.
pub proof fn law_explicit_tls_only_narrows_the_offer(message: Seq<char>)
    ensures
        bootstrap_offered(message, true) == tells_of_connectivity(lowercase_text(message)),
        bootstrap_offered(message, true) ==> bootstrap_offered(message, false),
{
}

/// An error is a failure of the network if and only if one of the words of the
/// network stands in it and none of the words of TLS and authorization does.
pub proof fn law_connectivity_word_by_word(lower: Seq<char>)
    ensures
        ({
            let network = {
                ||| contains_text(lower, "connection refused"@)
                ||| contains_text(lower, "connect error"@)
                ||| contains_text(lower, "tcp connect"@)
                ||| contains_text(lower, "dns error"@)
                ||| contains_text(lower, "name resolution"@)
                ||| contains_text(lower, "no route to host"@)
                ||| contains_text(lower, "network unreachable"@)
                ||| contains_text(lower, "connection reset"@)
                ||| contains_text(lower, "broken pipe"@)
                ||| contains_text(lower, "connection timed out"@)
                ||| contains_text(lower, "operation timed out"@)
            };
            let refused = {
                ||| contains_text(lower, "certificate"@)
                ||| contains_text(lower, "handshake"@)
                ||| contains_text(lower, "ssl"@)
                ||| contains_text(lower, "tls error"@)
                ||| contains_text(lower, "authorization"@)
                ||| contains_text(lower, "authentication"@)
                ||| contains_text(lower, "permission denied"@)
                ||| contains_text(lower, "forbidden"@)
                ||| contains_text(lower, "unauthorized"@)
            };
            tells_of_connectivity(lower) <==> network && !refused
        }),
{
    assert(connectivity_patterns()[0] == "connection refused"@);
    assert(connectivity_patterns()[1] == "connect error"@);
    assert(connectivity_patterns()[2] == "tcp connect"@);
    assert(connectivity_patterns()[3] == "dns error"@);
    assert(connectivity_patterns()[4] == "name resolution"@);
    assert(connectivity_patterns()[5] == "no route to host"@);
    assert(connectivity_patterns()[6] == "network unreachable"@);
    assert(connectivity_patterns()[7] == "connection reset"@);
    assert(connectivity_patterns()[8] == "broken pipe"@);
    assert(connectivity_patterns()[9] == "connection timed out"@);
    assert(connectivity_patterns()[10] == "operation timed out"@);
    assert(non_connectivity_patterns()[0] == "certificate"@);
    assert(non_connectivity_patterns()[1] == "handshake"@);
    assert(non_connectivity_patterns()[2] == "ssl"@);
    assert(non_connectivity_patterns()[3] == "tls error"@);
    assert(non_connectivity_patterns()[4] == "authorization"@);
    assert(non_connectivity_patterns()[5] == "authentication"@);
    assert(non_connectivity_patterns()[6] == "permission denied"@);
    assert(non_connectivity_patterns()[7] == "forbidden"@);
    assert(non_connectivity_patterns()[8] == "unauthorized"@);
    assert(connectivity_patterns().len() == 11);
    assert(non_connectivity_patterns().len() == 9);
}

/// Missing TLS material is told of where an error says that reading it failed, or
/// that a CA is required, and says that something is not there or is required.
pub proof fn law_missing_tls_word_by_word(lower: Seq<char>)
    ensures
        contains_text(lower, "tls ca is required"@) && contains_text(lower, "is required"@)
            ==> tells_of_missing_tls(lower),
        contains_text(lower, "failed to read tls"@) && (contains_text(lower, "no such file"@)
            || contains_text(lower, "not found"@) || contains_text(lower, "is required"@))
            ==> tells_of_missing_tls(lower),
        tells_of_missing_tls(lower) ==> contains_text(lower, "failed to read tls"@)
            || contains_text(lower, "tls ca is required"@),
        tells_of_missing_tls(lower) ==> contains_text(lower, "no such file"@) || contains_text(
            lower,
            "not found"@,
        ) || contains_text(lower, "is required"@),
{
}

/// Bootstrap is offered after every failure of the network, and after missing TLS
/// material exactly where no TLS path was explicit; after nothing else.
pub proof fn law_offer_case_by_case(message: Seq<char>, explicit: bool)
    ensures
        ({
            let lower = lowercase_text(message);
            &&& tells_of_connectivity(lower) ==> bootstrap_offered(message, explicit)
            &&& !tells_of_connectivity(lower) ==> (bootstrap_offered(message, explicit)
                <==> !explicit && tells_of_missing_tls(lower))
        }),
{
}

/// Whether bootstrap is offered does not depend on the case of an error's letters.
pub proof fn law_case_does_not_matter(message: Seq<char>, explicit: bool)
    requires
        is_ascii_chars(message),
    ensures
        bootstrap_offered(ascii_lowercase(message), explicit) == bootstrap_offered(
            message,
            explicit,
        ),
{
    let lower = ascii_lowercase(message);
    assert(is_ascii_chars(lower)) by {
        assert forall|i: int| 0 <= i < lower.len() implies '\0' <= #[trigger] lower[i] <= '\u{7f}' by {
            law_ascii_letters_are_lowered(message, i);
        }
    }
    assert forall|i: int| 0 <= i < lower.len() implies #[trigger] ascii_lowercase(lower)[i]
        == lower[i] by {
        law_ascii_letters_are_lowered(message, i);
    }
    assert(ascii_lowercase(lower) =~= lower);
}

/// A flag decides the confirmation whether or not there is a terminal, and whatever
/// would be answered. Without a flag nobody is asked where there is no terminal,
/// and that is an error; where there is one, the user is asked, plain Enter counts
/// as yes, and the answer is taken as it is.
pub proof fn law_confirmation_case_by_case(
    flag: Option<bool>,
    interactive: bool,
    answer: Result<bool, Seq<char>>,
)
    ensures
        ({
            let confirmation = confirmation_of(flag, interactive);
            let result = confirmation_result(confirmation, answer);
            &&& flag is Some ==> !(confirmation is Prompt) && result == Ok::<bool, Seq<char>>(
                flag->Some_0,
            )
            &&& flag is None && !interactive ==> !(confirmation is Prompt) && result is Err
            &&& flag is None && interactive ==> confirmation == (Confirmation::Prompt {
                default: true,
            })
            &&& flag is None && interactive && answer is Ok ==> result == answer
            &&& flag is None && interactive && answer is Err ==> result == Err::<bool, Seq<char>>(
                "failed to read confirmation: "@ + answer->Err_0,
            )
        }),
{
}

/// Where a bootstrap deploys changes nothing but the machine and how it is called:
/// every plan deploys the same cluster, with TLS and authentication, on the default
/// port, and connects to it by its name.
pub proof fn law_plans_differ_in_their_machine_only(
    remote: Option<Seq<char>>,
    ssh_key: Option<Seq<char>>,
    plan: BootstrapPlan,
)
    requires
        plans_bootstrap(remote, ssh_key, plan),
    ensures
        plan.cluster_name@ == "nemoclaw"@,
        plan.options.name@ == plan.cluster_name@,
        plan.tls.cluster_name is Some && plan.tls.cluster_name->Some_0@ == plan.cluster_name@,
        !plan.tls.explicit() && plan.tls.edge_token is None,
        plan.options.port == DEFAULT_GATEWAY_PORT && DEFAULT_GATEWAY_PORT == 8080,
        !plan.options.disable_tls && !plan.options.disable_gateway_auth,
        plan.options.image_ref is None && plan.options.gateway_host is None,
        plan.options.kube_port is None && plan.options.registry_token is None,
        remote is None ==> plan.options.remote is None && plan.location@ == "local"@,
        remote is Some ==> {
            &&& plan.location@ == "remote"@
            &&& plan.options.remote is Some
            &&& plan.options.remote->Some_0.destination@ == remote->Some_0
            &&& ssh_key is Some ==> plan.options.remote->Some_0.ssh_key is Some
                && plan.options.remote->Some_0.ssh_key->Some_0@ == ssh_key->Some_0
            &&& ssh_key is None ==> plan.options.remote->Some_0.ssh_key is None
        },
{
}

/// A bootstrap that succeeds gives the endpoint of the gateway that was deployed and
/// the TLS options of its plan; a failed one gives the error of the deployment.
pub proof fn law_bootstrap_gives_the_deployed_endpoint(
    plan: BootstrapPlan,
    deployed: Result<ClusterHandle, miette::Report>,
    saved: Result<(), String>,
    result: Result<Bootstrapped, miette::Report>,
)
    requires
        ends_bootstrap(plan, deployed, saved, result),
    ensures
        deployed is Ok ==> result is Ok && result->Ok_0.endpoint@
            == deployed->Ok_0.spec_metadata().gateway_endpoint@ && result->Ok_0.tls == plan.tls,
        deployed is Err ==> result is Err && result->Err_0 == deployed->Err_0,
{
}

} // verus!
