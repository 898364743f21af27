//! Under which host names a gateway is reached.

use vstd::prelude::*;
use vstd::string::*;
use crate::text::{opt_view, same_text, views};

verus! {

/// `names`, and `host` after them where there is one that is not among them.
pub open spec fn with_host(names: Seq<Seq<char>>, host: Option<Seq<char>>) -> Seq<Seq<char>> {
    match host {
        Some(host) => if names.contains(host) {
            names
        } else {
            names.push(host)
        },
        None => names,
    }
}

/// The names that the certificate of a remote gateway covers: the resolved host,
/// the SSH alias where it differs, and the gateway host where one is given.
pub open spec fn remote_names(
    ssh_host: Seq<char>,
    resolved: Seq<char>,
    gateway_host: Option<Seq<char>>,
) -> Seq<Seq<char>> {
    let reached = if ssh_host != resolved {
        seq![resolved, ssh_host]
    } else {
        seq![resolved]
    };
    with_host(reached, gateway_host)
}

/// The host that a remote gateway advertises: the gateway host where one is given,
/// and the resolved host where none is.
pub open spec fn remote_advertised(
    resolved: Seq<char>,
    gateway_host: Option<Seq<char>>,
) -> Option<Seq<char>> {
    match gateway_host {
        Some(host) => Some(host),
        None => Some(resolved),
    }
}

/// The names that the certificate of a local gateway covers: the local gateway
/// host where there is one, and the gateway host where one is given.
pub open spec fn local_names(
    local_host: Option<Seq<char>>,
    gateway_host: Option<Seq<char>>,
) -> Seq<Seq<char>> {
    let reached = match local_host {
        Some(host) => seq![host],
        None => seq![],
    };
    with_host(reached, gateway_host)
}

/// The extra names of a gateway's certificate, and the host that the gateway
/// advertises to clients.
#[derive(Debug)]
pub struct GatewayHosts {
    pub extra_sans: Vec<String>,
    pub ssh_gateway_host: Option<String>,
}

/// Whether `name` is among `names`.
pub fn holds_name(names: &Vec<String>, name: &str) -> (held: bool)
    ensures
        held == views(names@).contains(name@),
{
    let mut i: usize = 0;
    while i < names.len()
        invariant
            i <= names@.len(),
            forall|j: int| 0 <= j < i ==> names@[j]@ != name@,
        decreases names@.len() - i,
    {
        if same_text(names[i].as_str(), name) {
            assert(views(names@)[i as int] == name@);
            return true;
        }
        i += 1;
    }
    assert(!views(names@).contains(name@)) by {
        if views(names@).contains(name@) {
            let k = choose|k: int| 0 <= k < views(names@).len() && views(names@)[k] == name@;
            assert(names@[k]@ == name@);
        }
    }
    false
}

/// `names`, and `host` after them where there is one that is not among them.
fn add_host(names: Vec<String>, host: &Option<String>) -> (all: Vec<String>)
    ensures
        views(all@) == with_host(views(names@), opt_view(*host)),
{
    let mut all = names;
    if let Some(host) = host {
        if !holds_name(&all, host.as_str()) {
            let ghost before = all@;
            all.push(host.clone());
            assert(views(all@) =~= views(before).push(host@));
        }
    }
    all
}

/// The hosts of a gateway on the machine that `ssh_host` names and that resolves
/// to `resolved`.
pub fn remote_hosts(ssh_host: String, resolved: String, gateway_host: &Option<String>) -> (hosts:
    GatewayHosts)
    ensures
        views(hosts.extra_sans@) == remote_names(ssh_host@, resolved@, opt_view(*gateway_host)),
        opt_view(hosts.ssh_gateway_host) == remote_advertised(resolved@, opt_view(*gateway_host)),
{
    let mut names: Vec<String> = vec![resolved.clone()];
    assert(views(names@) =~= seq![resolved@]);
    if !same_text(ssh_host.as_str(), resolved.as_str()) {
        names.push(ssh_host);
        assert(views(names@) =~= seq![resolved@, ssh_host@]);
    }
    let advertised = match gateway_host {
        Some(host) => host.clone(),
        None => resolved,
    };
    GatewayHosts { extra_sans: add_host(names, gateway_host), ssh_gateway_host: Some(advertised) }
}

/// The hosts of a gateway on this machine.
pub fn local_hosts(local_host: Option<String>, gateway_host: &Option<String>) -> (hosts:
    GatewayHosts)
    ensures
        views(hosts.extra_sans@) == local_names(opt_view(local_host), opt_view(*gateway_host)),
        opt_view(hosts.ssh_gateway_host) == opt_view(*gateway_host),
{
    let mut names: Vec<String> = Vec::new();
    assert(views(names@) =~= seq![]);
    if let Some(host) = local_host {
        names.push(host);
        assert(views(names@) =~= seq![host@]);
    }
    let ssh_gateway_host = match gateway_host {
        Some(host) => Some(host.clone()),
        None => None,
    };
    GatewayHosts { extra_sans: add_host(names, gateway_host), ssh_gateway_host }
}

/// Adding a host keeps the names distinct, keeps every name, and covers the host.
proof fn lemma_with_host(names: Seq<Seq<char>>, host: Option<Seq<char>>)
    requires
        names.no_duplicates(),
    ensures
        with_host(names, host).no_duplicates(),
        host matches Some(host) ==> with_host(names, Some(host)).contains(host),
        forall|name: Seq<char>| #[trigger]
            names.contains(name) ==> with_host(names, host).contains(name),
{
    if let Some(added) = host {
        let all = with_host(names, host);
        if !names.contains(added) {
            assert(all[names.len() as int] == added);
            assert forall|name: Seq<char>| #[trigger] names.contains(name) implies all.contains(
                name,
            ) by {
                let i = choose|i: int| 0 <= i < names.len() && names[i] == name;
                assert(all[i] == name);
            }
        }
    }
}

/// The certificate of a remote gateway covers each name once: the SSH alias, the
/// host that it resolves to, and the host that the gateway advertises.
pub proof fn law_remote_names_cover_advertised_host(
    ssh_host: Seq<char>,
    resolved: Seq<char>,
    gateway_host: Option<Seq<char>>,
)
    ensures
        ({
            let names = remote_names(ssh_host, resolved, gateway_host);
            let advertised = remote_advertised(resolved, gateway_host);
            &&& names.no_duplicates()
            &&& names.contains(ssh_host)
            &&& names.contains(resolved)
            &&& advertised is Some
            &&& names.contains(advertised->Some_0)
        }),
{
    let reached = if ssh_host != resolved {
        seq![resolved, ssh_host]
    } else {
        seq![resolved]
    };
    assert(reached[0] == resolved);
    assert(reached.contains(resolved));
    assert(reached[reached.len() - 1] == ssh_host);
    assert(reached.contains(ssh_host));
    lemma_with_host(reached, gateway_host);
}

/// The certificate of a local gateway covers each name once: the local gateway
/// host and the host that the gateway advertises, where there are such.
pub proof fn law_local_names_cover_advertised_host(
    local_host: Option<Seq<char>>,
    gateway_host: Option<Seq<char>>,
)
    ensures
        ({
            let names = local_names(local_host, gateway_host);
            &&& names.no_duplicates()
            &&& local_host is Some ==> names.contains(local_host->Some_0)
            &&& gateway_host is Some ==> names.contains(gateway_host->Some_0)
        }),
{
    let reached: Seq<Seq<char>> = match local_host {
        Some(host) => seq![host],
        None => seq![],
    };
    if local_host is Some {
        assert(reached[0] == local_host->Some_0);
        assert(reached.contains(local_host->Some_0));
    }
    lemma_with_host(reached, gateway_host);
}

/// The certificate of a remote gateway covers nothing but the SSH alias, the host
/// that it resolves to and the gateway host that is given, and the resolved host
/// first. The gateway advertises the gateway host that is given; only without one
/// does it advertise the resolved host.
pub proof fn law_remote_names_are_the_reached_ones(
    ssh_host: Seq<char>,
    resolved: Seq<char>,
    gateway_host: Option<Seq<char>>,
)
    ensures
        ({
            let names = remote_names(ssh_host, resolved, gateway_host);
            &&& names.len() > 0 && names[0] == resolved
            &&& forall|i: int|
                0 <= i < names.len() ==> #[trigger] names[i] == ssh_host || names[i] == resolved
                    || Some(names[i]) == gateway_host
            &&& gateway_host is Some ==> remote_advertised(resolved, gateway_host) == gateway_host
            &&& gateway_host is None ==> remote_advertised(resolved, gateway_host) == Some(resolved)
        }),
{
}

/// The certificate of a local gateway covers nothing but the local gateway host and
/// the gateway host that is given: nothing extra where there is neither.
pub proof fn law_local_names_are_the_reached_ones(
    local_host: Option<Seq<char>>,
    gateway_host: Option<Seq<char>>,
)
    ensures
        ({
            let names = local_names(local_host, gateway_host);
            &&& forall|i: int|
                0 <= i < names.len() ==> Some(#[trigger] names[i]) == local_host || Some(names[i])
                    == gateway_host
            &&& names.len() == 0 <==> local_host is None && gateway_host is None
        }),
{
}

} // verus!
