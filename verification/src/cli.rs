//! What the command line makes of its arguments.

use vstd::prelude::*;
use vstd::string::*;
use vstd::utf8::encode_utf8;
use crate::gateway::{gateway_name, resolve_gateway_name, GatewayContext, GatewayError};
use crate::metadata::GatewayStore;
use crate::text::{
    decimal, decimal_text, first_index, law_padded_is_text_and_spaces, lemma_first_index, opt_view,
    pad_right, padded, split_once, trimmed,
};

verus! {

/// A shell that completions are generated for.
#[derive(Debug, Clone, Copy, PartialEq, Eq, Structural)]
pub enum CompletionShell {
    Bash,
    Fish,
    Zsh,
    Powershell,
}

impl CompletionShell {
    /// The name of the shell.
    pub open spec fn name(&self) -> Seq<char> {
        match self {
            CompletionShell::Bash => "bash"@,
            CompletionShell::Fish => "fish"@,
            CompletionShell::Zsh => "zsh"@,
            CompletionShell::Powershell => "powershell"@,
        }
    }

    /// The name of the shell.
    pub fn to_string(&self) -> (name: String)
        ensures
            name@ == self.name(),
    {
        match self {
            CompletionShell::Bash => "bash".to_owned(),
            CompletionShell::Fish => "fish".to_owned(),
            CompletionShell::Zsh => "zsh".to_owned(),
            CompletionShell::Powershell => "powershell".to_owned(),
        }
    }
}

/// Different shells have different names.
pub proof fn law_shell_names_differ(a: CompletionShell, b: CompletionShell)
    ensures
        a.name() == b.name() ==> a == b,
{
    reveal_strlit("bash");
    reveal_strlit("fish");
    reveal_strlit("zsh");
    reveal_strlit("powershell");
    assert("bash"@[0] == 'b' && "fish"@[0] == 'f' && "zsh"@[0] == 'z' && "powershell"@[0] == 'p');
}

/// The log level for a number of `-v` flags.
pub open spec fn level_for(verbose: u8) -> Seq<char> {
    if verbose == 0 {
        "warn"@
    } else if verbose == 1 {
        "info"@
    } else if verbose == 2 {
        "debug"@
    } else {
        "trace"@
    }
}

/// The log level for a number of `-v` flags.
pub fn log_level(verbose: u8) -> (level: &'static str)
    ensures
        level@ == level_for(verbose),
{
    match verbose {
        0 => "warn",
        1 => "info",
        2 => "debug",
        _ => "trace",
    }
}

/// What a flag and its negation decide together.
pub open spec fn decided_by(enabled: bool, disabled: bool) -> Option<bool> {
    if disabled {
        Some(false)
    } else if enabled {
        Some(true)
    } else {
        None
    }
}

/// What a flag and its negation decide together: the negation wins, and without
/// either nothing is decided.
pub fn flag_override(enabled: bool, disabled: bool) -> (decision: Option<bool>)
    ensures
        decision == decided_by(enabled, disabled),
{
    if disabled {
        Some(false)
    } else if enabled {
        Some(true)
    } else {
        None
    }
}

/// What an upload spec reads as: the local path up to the first colon, and the
/// sandbox path after it where there is one.
pub open spec fn upload_parts(spec: Seq<char>) -> (Seq<char>, Option<Seq<char>>) {
    if spec.contains(':') {
        let at = first_index(spec, ':');
        let remote = spec.skip(at + 1);
        (
            spec.take(at),
            if remote.len() == 0 {
                None
            } else {
                Some(remote)
            },
        )
    } else {
        (spec, None)
    }
}

/// Parse an upload spec like `<local>[:<remote>]` into (local_path, optional_sandbox_path).
pub fn parse_upload_spec(spec: &str) -> (parts: (String, Option<String>))
    ensures
        (parts.0@, opt_view(parts.1)) == upload_parts(spec@),
{
    match split_once(spec, ':') {
        Some((local, remote)) => {
            let sandbox_path: Option<String> = if remote.is_empty() {
                None
            } else {
                Some(remote.to_owned())
            };
            (local.to_owned(), sandbox_path)
        },
        None => (spec.to_owned(), None),
    }
}

/// A local path without a colon reads back from a spec that it was written into,
/// alone, before a trailing colon, and before a sandbox path.
pub proof fn law_upload_spec_reads_back(local: Seq<char>, remote: Seq<char>)
    requires
        !local.contains(':'),
    ensures
        upload_parts(local) == (local, None::<Seq<char>>),
        upload_parts(local.push(':')) == (local, None::<Seq<char>>),
        remote.len() > 0 ==> upload_parts(local.push(':') + remote) == (local, Some(remote)),
{
    lemma_first_colon(local, seq![]);
    assert(local.push(':') + seq![] =~= local.push(':'));
    lemma_first_colon(local, remote);
}

/// The first colon after a path without one.
proof fn lemma_first_colon(local: Seq<char>, rest: Seq<char>)
    requires
        !local.contains(':'),
    ensures
        ({
            let spec = local.push(':') + rest;
            &&& spec.contains(':')
            &&& first_index(spec, ':') == local.len()
            &&& spec.take(first_index(spec, ':')) == local
            &&& spec.skip(first_index(spec, ':') + 1) == rest
        }),
{
    let spec = local.push(':') + rest;
    lemma_first_index(spec, ':');
    let at = first_index(spec, ':');
    assert(spec[local.len() as int] == ':');
    if at < local.len() {
        assert(local[at] == ':');
    }
    assert(spec.take(at) =~= local);
    assert(spec.skip(at + 1) =~= rest);
}

/// What is uploaded into a new sandbox.
#[derive(Debug)]
pub struct UploadRequest {
    pub local_path: String,
    /// Where it goes; the working directory of the sandbox where it is None.
    pub sandbox_path: Option<String>,
    /// Whether `.gitignore` rules apply.
    pub git_ignore: bool,
}

/// `request` is what is uploaded into a new sandbox.
pub open spec fn requests_upload(
    upload: Option<Seq<char>>,
    no_git_ignore: bool,
    request: Option<UploadRequest>,
) -> bool {
    &&& request is Some <==> upload is Some
    &&& request matches Some(request) ==> {
        &&& (request.local_path@, opt_view(request.sandbox_path)) == upload_parts(upload->Some_0)
        &&& request.git_ignore == !no_git_ignore
    }
}

/// What is uploaded into a new sandbox, by `--upload` and `--no-git-ignore`.
pub fn upload_request(upload: &Option<String>, no_git_ignore: bool) -> (request: Option<
    UploadRequest,
>)
    ensures
        requests_upload(opt_view(*upload), no_git_ignore, request),
{
    match upload {
        Some(spec) => {
            let (local_path, sandbox_path) = parse_upload_spec(spec.as_str());
            Some(UploadRequest { local_path, sandbox_path, git_ignore: !no_git_ignore })
        },
        None => None,
    }
}

/// `given`, or `default` where nothing is given.
fn given_or(given: &Option<String>, default: &str) -> (chosen: String)
    ensures
        chosen@ == (match *given {
            Some(given) => given@,
            None => default@,
        }),
{
    match given {
        Some(given) => given.clone(),
        None => default.to_owned(),
    }
}

/// Where `sandbox upload` puts files in the sandbox.
pub open spec fn upload_path(dest: Option<Seq<char>>) -> Seq<char> {
    match dest {
        Some(dest) => dest,
        None => "/sandbox"@,
    }
}

/// Where `sandbox download` puts files on this machine.
pub open spec fn download_path(dest: Option<Seq<char>>) -> Seq<char> {
    match dest {
        Some(dest) => dest,
        None => "."@,
    }
}

/// Where `sandbox upload` puts files in the sandbox.
pub fn upload_destination(dest: &Option<String>) -> (path: String)
    ensures
        path@ == upload_path(opt_view(*dest)),
{
    given_or(dest, "/sandbox")
}

/// Where `sandbox download` puts files on this machine.
pub fn download_destination(dest: &Option<String>) -> (path: String)
    ensures
        path@ == download_path(opt_view(*dest)),
{
    given_or(dest, ".")
}

/// The cluster that a gateway command addresses: the one that it names itself,
/// else the one that the whole command line addresses.
pub open spec fn addressed_name(
    name: Option<Seq<char>>,
    flag: Option<Seq<char>>,
    variable: Option<Seq<char>>,
    active: Option<Seq<char>>,
) -> Option<Seq<char>> {
    if name is Some {
        name
    } else {
        gateway_name(flag, variable, active)
    }
}

/// The cluster that a gateway command addresses.
fn addressed_cluster(
    name: Option<String>,
    cluster_flag: &Option<String>,
    variable: &Option<String>,
    active: &Option<String>,
) -> (cluster: Option<String>)
    ensures
        opt_view(cluster) == addressed_name(
            opt_view(name),
            opt_view(*cluster_flag),
            opt_view(*variable),
            opt_view(*active),
        ),
{
    match name {
        Some(name) => Some(name),
        None => resolve_gateway_name(cluster_flag, variable, active),
    }
}

/// The cluster that `gateway stop`, `destroy`, `info` and `tunnel` address.
pub open spec fn command_cluster(
    name: Option<Seq<char>>,
    flag: Option<Seq<char>>,
    variable: Option<Seq<char>>,
    active: Option<Seq<char>>,
) -> Seq<char> {
    match addressed_name(name, flag, variable, active) {
        Some(cluster) => cluster,
        None => "nemoclaw"@,
    }
}

/// The cluster that `gateway stop`, `destroy`, `info` and `tunnel` address: the
/// default one where none is named and none is active.
pub fn gateway_command_name(
    name: Option<String>,
    cluster_flag: &Option<String>,
    variable: &Option<String>,
    active: &Option<String>,
) -> (cluster: String)
    ensures
        cluster@ == command_cluster(
            opt_view(name),
            opt_view(*cluster_flag),
            opt_view(*variable),
            opt_view(*active),
        ),
{
    match addressed_cluster(name, cluster_flag, variable, active) {
        Some(cluster) => cluster,
        None => "nemoclaw".to_owned(),
    }
}

/// The cluster that `gateway login` addresses, or the error where none is named
/// and none is active.
pub fn login_name(
    name: Option<String>,
    cluster_flag: &Option<String>,
    variable: &Option<String>,
    active: &Option<String>,
) -> (cluster: Result<String, &'static str>)
    ensures
        ({
            let addressed = addressed_name(
                opt_view(name),
                opt_view(*cluster_flag),
                opt_view(*variable),
                opt_view(*active),
            );
            match cluster {
                Ok(cluster) => addressed == Some(cluster@),
                Err(message) => addressed is None && message@
                    == "No active gateway.\nSpecify a gateway name: nemoclaw gateway login <name>\nOr set one with: nemoclaw gateway select <name>"@,
            }
        }),
{
    match addressed_cluster(name, cluster_flag, variable, active) {
        Some(cluster) => Ok(cluster),
        None => Err(
            "No active gateway.\nSpecify a gateway name: nemoclaw gateway login <name>\nOr set one with: nemoclaw gateway select <name>",
        ),
    }
}

/// The cluster whose last sandbox `forward stop` falls back to.
pub open spec fn forward_cluster(
    flag: Option<Seq<char>>,
    variable: Option<Seq<char>>,
    active: Option<Seq<char>>,
) -> Seq<char> {
    match gateway_name(flag, variable, active) {
        Some(cluster) => cluster,
        None => Seq::empty(),
    }
}

/// The cluster whose last sandbox `forward stop` falls back to: the empty name
/// where no cluster is named and none is active.
pub fn forward_stop_cluster(
    cluster_flag: &Option<String>,
    variable: &Option<String>,
    active: &Option<String>,
) -> (cluster: String)
    ensures
        cluster@ == forward_cluster(
            opt_view(*cluster_flag),
            opt_view(*variable),
            opt_view(*active),
        ),
{
    match resolve_gateway_name(cluster_flag, variable, active) {
        Some(cluster) => cluster,
        None => String::new(),
    }
}

/// How `sandbox create` goes on.
#[derive(Debug)]
pub enum CreateRoute {
    /// Create the sandbox in this gateway, after a warning where there is one.
    Create { gateway: GatewayContext, warning: Option<String> },
    /// Deploy a gateway first.
    Bootstrap,
}

/// `route` is how `sandbox create` goes on.
pub open spec fn routes_creation(
    resolved: Result<GatewayContext, GatewayError>,
    remote: Option<String>,
    route: CreateRoute,
) -> bool {
    match resolved {
        Ok(context) => {
            &&& route matches CreateRoute::Create { gateway, warning }
            &&& gateway == context
            &&& warning is Some <==> remote is Some
            &&& warning is Some ==> warning->Some_0@ == "--remote ignored: gateway '"@
                + context.name@ + "' is already active. To redeploy, use: nemoclaw gateway start"@
        },
        Err(_) => route is Bootstrap,
    }
}

/// How `sandbox create` goes on: in the gateway that was resolved, where one was,
/// and with the deployment of one otherwise. `--remote` names a machine for that
/// deployment only; it is ignored, with a warning, where a gateway was resolved.
pub fn sandbox_create_route(
    resolved: Result<GatewayContext, GatewayError>,
    remote: &Option<String>,
) -> (route: CreateRoute)
    ensures
        routes_creation(resolved, *remote, route),
{
    match resolved {
        Ok(gateway) => {
            let mut warning: Option<String> = None;
            if remote.is_some() {
                let mut text = "--remote ignored: gateway '".to_owned();
                text.append(gateway.name.as_str());
                text.append("' is already active. To redeploy, use: nemoclaw gateway start");
                warning = Some(text);
            }
            CreateRoute::Create { gateway, warning }
        },
        Err(_) => CreateRoute::Bootstrap,
    }
}

/// The arguments of `ssh-proxy`.
#[derive(Debug)]
pub struct SshProxyArgs {
    pub gateway: Option<String>,
    pub sandbox_id: Option<String>,
    pub token: Option<String>,
    pub server: Option<String>,
    pub cluster: Option<String>,
    pub name: Option<String>,
}

/// What `ssh-proxy` connects to.
#[derive(Debug)]
pub enum SshProxy {
    /// A sandbox for which a session was created before.
    Session { gateway: String, sandbox_id: String, token: String, cluster: Option<String> },
    /// A sandbox by its name, at an endpoint.
    Named { endpoint: String, sandbox: String, cluster: Option<String> },
}

/// Why `ssh-proxy` connects to nothing.
#[derive(Debug)]
pub enum SshProxyError {
    /// The cluster is not described, and no endpoint was given.
    Gateway(GatewayError),
    /// The arguments name nothing to connect to.
    Incomplete,
}

impl SshProxyError {
    /// The error as the user reads it.
    pub fn message(&self) -> (message: String)
        ensures
            message@ == (match self {
                SshProxyError::Gateway(error) => error.text(),
                SshProxyError::Incomplete => {
                    "provide either --gateway/--sandbox-id/--token or --cluster/--name (or --server/--name)"@
                },
            }),
    {
        match self {
            SshProxyError::Gateway(error) => error.message(),
            SshProxyError::Incomplete => {
                "provide either --gateway/--sandbox-id/--token or --cluster/--name (or --server/--name)".to_owned()
            },
        }
    }
}

/// `target` is what `ssh-proxy` connects to with these arguments: the session
/// where all its parts are given; else the named sandbox, at the endpoint that is
/// given or else at that of the cluster.
pub open spec fn proxies_to(
    args: SshProxyArgs,
    store: GatewayStore,
    target: Result<SshProxy, SshProxyError>,
) -> bool {
    if args.gateway is Some && args.sandbox_id is Some && args.token is Some {
        target == Ok::<SshProxy, SshProxyError>(
            SshProxy::Session {
                gateway: args.gateway->Some_0,
                sandbox_id: args.sandbox_id->Some_0,
                token: args.token->Some_0,
                cluster: args.cluster,
            },
        )
    } else if args.name is Some && args.server is Some {
        target == Ok::<SshProxy, SshProxyError>(
            SshProxy::Named {
                endpoint: args.server->Some_0,
                sandbox: args.name->Some_0,
                cluster: args.cluster,
            },
        )
    } else if args.name is Some && args.cluster is Some {
        match store.spec_metadata(args.cluster->Some_0@) {
            Some(metadata) => {
                &&& target matches Ok(SshProxy::Named { endpoint, sandbox, cluster })
                &&& endpoint@ == metadata.gateway_endpoint@
                &&& sandbox == args.name->Some_0
                &&& cluster == args.cluster
            },
            None => {
                &&& target matches Err(SshProxyError::Gateway(error))
                &&& error == GatewayError::UnknownGateway(args.cluster->Some_0)
            },
        }
    } else {
        target matches Err(SshProxyError::Incomplete)
    }
}

/// What `ssh-proxy` connects to.
///
/// Two mutually exclusive modes: the parts of a session, which go first, or the
/// name of a sandbox with its cluster (or, without a cluster, with an endpoint).
pub fn ssh_proxy_target(args: SshProxyArgs, store: &GatewayStore) -> (target: Result<
    SshProxy,
    SshProxyError,
>)
    ensures
        proxies_to(args, *store, target),
{
    match (args.gateway, args.sandbox_id, args.token, args.server, args.cluster, args.name) {
        (Some(gateway), Some(sandbox_id), Some(token), _, cluster, _) => Ok(
            SshProxy::Session { gateway, sandbox_id, token, cluster },
        ),
        (_, _, _, server, Some(cluster), Some(sandbox)) => {
            let endpoint = match server {
                Some(server) => server,
                None => match store.load_cluster_metadata(cluster.as_str()) {
                    Some(metadata) => metadata.gateway_endpoint.clone(),
                    None => {
                        return Err(SshProxyError::Gateway(GatewayError::UnknownGateway(cluster)));
                    },
                },
            };
            Ok(SshProxy::Named { endpoint, sandbox, cluster: Some(cluster) })
        },
        (_, _, _, Some(endpoint), None, Some(sandbox)) => Ok(
            SshProxy::Named { endpoint, sandbox, cluster: None },
        ),
        _ => Err(SshProxyError::Incomplete),
    }
}

/// A port that is forwarded to a sandbox.
#[derive(Debug)]
pub struct ForwardInfo {
    pub sandbox: String,
    pub port: u16,
    pub pid: u32,
    /// Whether the forwarding process runs.
    pub alive: bool,
}

/// The bytes of a sandbox name.
pub open spec fn name_size(forward: ForwardInfo) -> usize {
    encode_utf8(forward.sandbox@).len() as usize
}

/// The width of the name column: that of the longest name, in bytes, and at least
/// that of the heading.
pub open spec fn name_width(forwards: Seq<ForwardInfo>) -> usize
    decreases forwards.len(),
{
    if forwards.len() == 0 {
        7
    } else {
        let earlier = name_width(forwards.drop_last());
        let size = name_size(forwards.last());
        if size > earlier {
            size
        } else {
            earlier
        }
    }
}

/// The width of the name column in a list of forwards.
pub fn forward_name_width(forwards: &Vec<ForwardInfo>) -> (width: usize)
    ensures
        width == name_width(forwards@),
{
    let mut width: usize = 7;
    let mut i: usize = 0;
    assert(forwards@.take(0) =~= seq![]);
    while i < forwards.len()
        invariant
            i <= forwards@.len(),
            width == name_width(forwards@.take(i as int)),
        decreases forwards@.len() - i,
    {
        assert(forwards@.take(i + 1).drop_last() =~= forwards@.take(i as int));
        let size: usize = forwards[i].sandbox.as_str().len();
        if size > width {
            width = size;
        }
        i += 1;
    }
    assert(forwards@.take(forwards@.len() as int) =~= forwards@);
    width
}

/// The columns before the status in a list of forwards.
pub open spec fn forward_columns(
    width: nat,
    sandbox: Seq<char>,
    port: Seq<char>,
    pid: Seq<char>,
) -> Seq<char> {
    padded(sandbox, width) + " "@ + padded(port, 8) + " "@ + padded(pid, 10) + " "@
}

/// The columns before the status in a list of forwards.
fn columns(width: usize, sandbox: &str, port: &str, pid: &str) -> (line: String)
    ensures
        line@ == forward_columns(width as nat, sandbox@, port@, pid@),
{
    let mut line = pad_right(sandbox, width);
    line.append(" ");
    line.append(pad_right(port, 8).as_str());
    line.append(" ");
    line.append(pad_right(pid, 10).as_str());
    line.append(" ");
    line
}

/// The heading of a list of forwards.
pub fn forward_header(width: usize) -> (line: String)
    ensures
        line@ == forward_columns(width as nat, "SANDBOX"@, "PORT"@, "PID"@) + "STATUS"@,
{
    let mut line = columns(width, "SANDBOX", "PORT", "PID");
    line.append("STATUS");
    line
}

/// The line of a forward, up to its status.
pub fn forward_row(width: usize, forward: &ForwardInfo) -> (line: String)
    ensures
        line@ == forward_columns(
            width as nat,
            forward.sandbox@,
            decimal_text(forward.port as nat),
            decimal_text(forward.pid as nat),
        ),
{
    let port = decimal(forward.port as u64);
    let pid = decimal(forward.pid as u64);
    columns(width, forward.sandbox.as_str(), port.as_str(), pid.as_str())
}

/// The status of a forward.
pub fn forward_status(alive: bool) -> (status: &'static str)
    ensures
        status@ == (if alive {
            "running"@
        } else {
            "dead"@
        }),
{
    if alive {
        "running"
    } else {
        "dead"
    }
}

/// No name in the list is longer than its column.
pub proof fn law_names_fit_their_column(forwards: Seq<ForwardInfo>, i: int)
    requires
        0 <= i < forwards.len(),
    ensures
        name_size(forwards[i]) <= name_width(forwards),
        7 <= name_width(forwards),
    decreases forwards.len(),
{
    let earlier = forwards.drop_last();
    if i < earlier.len() {
        law_names_fit_their_column(earlier, i);
    } else if earlier.len() > 0 {
        law_names_fit_their_column(earlier, 0);
    }
}

/// The cluster that a gateway command addresses goes by priority: its own argument
/// where there is one, else the flag, else a variable that is not blank, else the
/// active cluster, and the default only where there is none of these. A later one
/// never matters where an earlier one is given.
pub proof fn law_gateway_commands_go_by_priority(
    name: Option<Seq<char>>,
    flag: Option<Seq<char>>,
    variable: Option<Seq<char>>,
    active: Option<Seq<char>>,
)
    ensures
        ({
            let set = variable is Some && trimmed(variable->Some_0).len() > 0;
            let addressed = addressed_name(name, flag, variable, active);
            let cluster = command_cluster(name, flag, variable, active);
            &&& addressed is Some ==> addressed == Some(cluster)
            &&& name is Some ==> addressed == name && cluster == name->Some_0
            &&& name is None && flag is Some ==> addressed == flag && cluster == flag->Some_0
            &&& name is None && flag is None && set ==> addressed == variable && cluster
                == variable->Some_0
            &&& name is None && flag is None && !set && active is Some ==> addressed == active
                && cluster == active->Some_0
            &&& name is None && flag is None && !set && active is None ==> addressed is None
                && cluster == "nemoclaw"@
        }),
{
}

/// `forward stop` takes the cluster of the flag, else that of a variable that is not
/// blank, else the active one, and no cluster only where there is none of these.
pub proof fn law_forward_stop_goes_by_priority(
    flag: Option<Seq<char>>,
    variable: Option<Seq<char>>,
    active: Option<Seq<char>>,
)
    ensures
        ({
            let set = variable is Some && trimmed(variable->Some_0).len() > 0;
            let cluster = forward_cluster(flag, variable, active);
            &&& flag is Some ==> cluster == flag->Some_0
            &&& flag is None && set ==> cluster == variable->Some_0
            &&& flag is None && !set && active is Some ==> cluster == active->Some_0
            &&& flag is None && !set && active is None ==> cluster.len() == 0
        }),
{
}

/// Where gateway, sandbox id and token are given, `ssh-proxy` connects to the
/// session of exactly these three, whatever the other arguments and the store are.
pub proof fn law_session_arguments_make_a_session(
    args: SshProxyArgs,
    store: GatewayStore,
    target: Result<SshProxy, SshProxyError>,
)
    requires
        proxies_to(args, store, target),
    ensures
        (args.gateway is Some && args.sandbox_id is Some && args.token is Some) <==> (
        target matches Ok(SshProxy::Session { .. })),
        target matches Ok(SshProxy::Session { gateway, sandbox_id, token, cluster }) ==> {
            &&& args.gateway == Some(gateway)
            &&& args.sandbox_id == Some(sandbox_id)
            &&& args.token == Some(token)
            &&& args.cluster == cluster
        },
{
}

/// Without the parts of a session, `ssh-proxy` connects to the sandbox that is named,
/// on the cluster that is named: at the given endpoint where there is one, whether
/// or not the cluster is described, and else at that of the cluster's description.
pub proof fn law_named_sandbox_is_at_its_endpoint(
    args: SshProxyArgs,
    store: GatewayStore,
    target: Result<SshProxy, SshProxyError>,
)
    requires
        proxies_to(args, store, target),
        args.gateway is None || args.sandbox_id is None || args.token is None,
    ensures
        target matches Ok(SshProxy::Named { endpoint, sandbox, cluster }) ==> {
            &&& args.name == Some(sandbox)
            &&& args.cluster == cluster
            &&& args.server is Some ==> args.server == Some(endpoint)
            &&& args.server is None ==> {
                &&& args.cluster is Some
                &&& store.spec_metadata(args.cluster->Some_0@) is Some
                &&& endpoint@ == store.spec_metadata(
                    args.cluster->Some_0@,
                )->Some_0.gateway_endpoint@
            }
        },
        args.name is Some && args.server is Some ==> target is Ok,
        args.name is Some && args.server is None && args.cluster is Some ==> (target is Ok
            <==> store.spec_metadata(args.cluster->Some_0@) is Some),
{
}

/// `ssh-proxy` refuses its arguments as incomplete exactly where a part of the
/// session is missing, and so is the name or else both the cluster and the endpoint.
/// It reports a cluster as unknown only where that is what it needed.
pub proof fn law_ssh_proxy_refuses_incomplete_arguments_only(
    args: SshProxyArgs,
    store: GatewayStore,
    target: Result<SshProxy, SshProxyError>,
)
    requires
        proxies_to(args, store, target),
    ensures
        (target matches Err(SshProxyError::Incomplete)) <==> (args.gateway is None
            || args.sandbox_id is None || args.token is None) && (args.name is None || (
        args.cluster is None && args.server is None)),
        target matches Err(SshProxyError::Gateway(error)) ==> {
            &&& args.cluster is Some
            &&& args.server is None
            &&& args.name is Some
            &&& store.spec_metadata(args.cluster->Some_0@) is None
            &&& error == GatewayError::UnknownGateway(args.cluster->Some_0)
        },
{
}

/// A sandbox is created where a gateway was resolved, in that gateway, with or
/// without `--remote`; a gateway is deployed exactly where none was resolved. The
/// user is warned exactly where `--remote` is ignored.
pub proof fn law_gateway_is_deployed_iff_none_is_resolved(
    resolved: Result<GatewayContext, GatewayError>,
    remote: Option<String>,
    route: CreateRoute,
)
    requires
        routes_creation(resolved, remote, route),
    ensures
        route is Bootstrap <==> resolved is Err,
        route matches CreateRoute::Create { gateway, warning } ==> {
            &&& resolved == Ok::<GatewayContext, GatewayError>(gateway)
            &&& warning is Some <==> remote is Some
        },
{
}

/// The first column of a list of forwards is as wide as the longest name, in bytes,
/// or as the heading: no narrower than any of them, and as wide as one of them.
pub proof fn law_column_is_as_wide_as_its_longest_entry(forwards: Seq<ForwardInfo>)
    requires
        forall|i: int|
            0 <= i < forwards.len() ==> encode_utf8((#[trigger] forwards[i]).sandbox@).len()
                <= usize::MAX,
    ensures
        forall|i: int|
            0 <= i < forwards.len() ==> encode_utf8((#[trigger] forwards[i]).sandbox@).len()
                <= name_width(forwards),
        name_width(forwards) >= 7,
        name_width(forwards) == 7 || exists|i: int|
            0 <= i < forwards.len() && encode_utf8((#[trigger] forwards[i]).sandbox@).len()
                == name_width(forwards),
    decreases forwards.len(),
{
    if forwards.len() > 0 {
        let earlier = forwards.drop_last();
        assert(forall|i: int| 0 <= i < earlier.len() ==> #[trigger] earlier[i] == forwards[i]);
        assert(forwards.last() == forwards[forwards.len() - 1]);
        law_column_is_as_wide_as_its_longest_entry(earlier);
        assert forall|i: int| 0 <= i < forwards.len() implies encode_utf8(
            (#[trigger] forwards[i]).sandbox@,
        ).len() <= name_width(forwards) by {
            if i < earlier.len() {
                assert(encode_utf8(earlier[i].sandbox@).len() <= name_width(earlier));
            }
        }
        if name_width(earlier) > 7 && name_width(forwards) == name_width(earlier) {
            let i = choose|i: int|
                0 <= i < earlier.len() && encode_utf8((#[trigger] earlier[i]).sandbox@).len()
                    == name_width(earlier);
            assert(forwards[i] == earlier[i]);
        }
    }
}

/// The columns of a line of forwards start where those of every other line start
/// whose entries fit: the name at the front, the port after the first column, the
/// process id after the second, the status after the third.
pub proof fn law_columns_are_aligned(
    width: nat,
    sandbox: Seq<char>,
    port: Seq<char>,
    pid: Seq<char>,
)
    requires
        sandbox.len() <= width,
        port.len() <= 8,
        pid.len() <= 10,
    ensures
        ({
            let line = forward_columns(width, sandbox, port, pid);
            &&& line.len() == width + 21
            &&& line.take(sandbox.len() as int) == sandbox
            &&& line.subrange(width as int + 1, width as int + 1 + port.len()) == port
            &&& line.subrange(width as int + 10, width as int + 10 + pid.len()) == pid
        }),
{
    reveal_strlit(" ");
    law_padded_is_text_and_spaces(sandbox, width);
    law_padded_is_text_and_spaces(port, 8);
    law_padded_is_text_and_spaces(pid, 10);
    let line = forward_columns(width, sandbox, port, pid);
    assert(line.take(sandbox.len() as int) =~= sandbox);
    assert(line.subrange(width as int + 1, width as int + 1 + port.len()) =~= port);
    assert(line.subrange(width as int + 10, width as int + 10 + pid.len()) =~= pid);
}

/// An upload spec is its local path, which holds no colon, and after a colon its
/// sandbox path where there is one; a colon at the end stands for none.
pub proof fn law_upload_spec_is_its_parts(spec: Seq<char>)
    ensures
        ({
            let (local, remote) = upload_parts(spec);
            &&& !local.contains(':')
            &&& remote matches Some(path) ==> path.len() > 0 && spec == local + seq![':'] + path
            &&& remote is None ==> spec == local || spec == local + seq![':']
        }),
{
    lemma_first_index(spec, ':');
    let at = first_index(spec, ':');
    if spec.contains(':') {
        let i = choose|i: int| 0 <= i < spec.len() && spec[i] == ':';
        assert(at <= i);
        assert(spec =~= spec.take(at) + seq![':'] + spec.skip(at + 1));
        if spec.skip(at + 1).len() == 0 {
            assert(spec =~= spec.take(at) + seq![':']);
        }
    }
}

/// Each `-v` raises the log level by one step, up to the third.
pub proof fn law_each_v_raises_the_level(verbose: u8)
    ensures
        verbose == 0 ==> level_for(verbose) == "warn"@,
        verbose == 1 ==> level_for(verbose) == "info"@,
        verbose == 2 ==> level_for(verbose) == "debug"@,
        verbose >= 3 ==> level_for(verbose) == "trace"@,
{
}

/// A negation decides against, with or without the flag; the flag decides for where
/// it stands alone; and nothing is decided exactly where neither stands.
pub proof fn law_negation_decides(enabled: bool, disabled: bool)
    ensures
        disabled ==> decided_by(enabled, disabled) == Some(false),
        enabled && !disabled ==> decided_by(enabled, disabled) == Some(true),
        decided_by(enabled, disabled) is None <==> !enabled && !disabled,
{
}

/// An upload is requested exactly where a spec is given. Its paths make up the spec,
/// and `.gitignore` rules apply unless that is switched off.
pub proof fn law_upload_request_is_its_spec(
    upload: Option<Seq<char>>,
    no_git_ignore: bool,
    request: Option<UploadRequest>,
)
    requires
        requests_upload(upload, no_git_ignore, request),
    ensures
        upload is None ==> request is None,
        upload is Some ==> request is Some,
        upload is Some ==> {
            let spec = upload->Some_0;
            let local = request->Some_0.local_path@;
            let path = request->Some_0.sandbox_path;
            &&& !local.contains(':')
            &&& path is Some ==> path->Some_0@.len() > 0 && spec == local + seq![':']
                + path->Some_0@
            &&& path is None ==> spec == local || spec == local + seq![':']
            &&& request->Some_0.git_ignore != no_git_ignore
        },
{
    if upload is Some {
        law_upload_spec_is_its_parts(upload->Some_0);
    }
}

/// Files go where the user says, and otherwise to the working directory: that of the
/// sandbox for an upload, that of this machine for a download.
pub proof fn law_given_destination_is_used(dest: Option<Seq<char>>)
    ensures
        dest is Some ==> upload_path(dest) == dest->Some_0 && download_path(dest) == dest->Some_0,
        dest is None ==> upload_path(dest) == "/sandbox"@ && download_path(dest) == "."@,
{
}

} // verus!
