//! Deploying a gateway.
//!
//! A deployment is a sequence of stages. `Deployment` says what each stage is to
//! do, and how the way a stage ended moves the deployment on; the work of the
//! stages is done outside.

use vstd::prelude::*;
use vstd::string::*;
use crate::hosts::{
    law_local_names_cover_advertised_host, law_remote_names_cover_advertised_host, local_hosts,
    local_names, remote_advertised, remote_hosts, remote_names, GatewayHosts,
};
use crate::images::{chosen_image, default_cluster_image_ref, image_list, parse_push_images};
use crate::metadata::{ClusterHandle, ClusterMetadata};
use crate::options::{DeployOptions, RemoteOptions};
use crate::pki::PkiBundle;
use crate::text::{
    contains_text, decimal, decimal_text, law_needle_between_is_contained, opt_view, trimmed, views,
};

verus! {

/// The stages of a deployment.
#[derive(Debug, Clone, Copy, PartialEq, Eq, Structural)]
pub enum DeployStage {
    /// Connect to the Docker daemon, local or remote.
    Connect,
    /// Make the gateway image available to the daemon.
    PullImage,
    /// Make sure that the gateway network exists.
    EnsureNetwork,
    /// Make sure that the gateway volume exists.
    EnsureVolume,
    /// Find out under which host names the gateway is reached.
    ResolveHosts,
    /// Make sure that the gateway container exists.
    EnsureContainer,
    /// Start the gateway container.
    StartContainer,
    /// Wait until the cluster has written its kubeconfig.
    AwaitKubeconfig,
    /// Rewrite the kubeconfig for use from the host and store it.
    WriteKubeconfig,
    /// Remove the nodes that earlier container instances left on the volume.
    CleanStaleNodes,
    /// Find out whether the gateway workload runs already.
    CheckWorkload,
    /// Reconcile the TLS secrets of the cluster.
    ReconcilePki,
    /// Restart the workload, so that it picks up the new TLS secrets.
    RestartRotated,
    /// Store the client certificates.
    StoreCredentials,
    /// Push locally built images into the cluster.
    PushImages,
    /// Restart the workload, so that it picks up the pushed images.
    RestartPushed,
    /// Wait until the cluster is ready.
    AwaitReady,
    /// Describe the gateway and store the description.
    StoreMetadata,
    /// Nothing: the gateway is deployed.
    Done,
}

/// How a stage ended.
#[derive(Debug)]
pub enum DeployEvent {
    /// The stage did its work.
    Succeeded,
    /// The host of a remote gateway, as SSH names it and as it resolves.
    RemoteHost { ssh_host: String, resolved: String },
    /// The host of a local gateway, where it is not the usual one.
    LocalHost(Option<String>),
    /// The kubeconfig of the cluster.
    Kubeconfig(String),
    /// The number of stale nodes that were removed.
    StaleNodes(u64),
    /// Whether the gateway workload runs already.
    Workload(bool),
    /// The PKI of the cluster, and whether it is a new one.
    Pki { bundle: PkiBundle, rotated: bool },
    /// The stored description of the gateway.
    Metadata(ClusterMetadata),
    /// The stage failed.
    Failed,
}

/// What follows from an event.
#[derive(Debug)]
pub enum DeployStep {
    /// Log the lines, then go on with the stage that the deployment is at.
    Continue(Vec<String>),
    /// Give up with the error of the failed stage.
    Abort,
}

/// Where a deployment stands.
pub struct DeployView {
    pub stage: DeployStage,
    pub options: DeployOptions,
    /// The gateway image.
    pub image_ref: Seq<char>,
    /// Where the kubeconfig is stored.
    pub kubeconfig_path: String,
    /// The images that are pushed into the cluster.
    pub push_images: Seq<Seq<char>>,
    /// The extra names of the gateway's certificate.
    pub extra_sans: Seq<Seq<char>>,
    /// The host that the gateway advertises.
    pub ssh_gateway_host: Option<Seq<char>>,
    /// The kubeconfig as the cluster wrote it.
    pub kubeconfig: Seq<char>,
    /// Whether the workload ran before the TLS secrets were reconciled.
    pub workload_existed: bool,
    /// Whether the TLS secrets are new.
    pub rotated: bool,
    /// The PKI of the cluster.
    pub pki: Option<PkiBundle>,
    /// The description of the gateway.
    pub metadata: Option<ClusterMetadata>,
}

impl DeployView {
    /// The gateway runs on a remote machine.
    pub open spec fn is_remote(self) -> bool {
        self.options.remote is Some
    }

    /// A running workload is to be restarted because of new TLS secrets.
    pub open spec fn restart_due(self) -> bool {
        self.rotated && self.workload_existed
    }

    /// Some image is to be pushed into the cluster.
    pub open spec fn push_due(self) -> bool {
        self.push_images.len() > 0
    }
}

/// `event` is a way in which the current stage of `state` can end.
pub open spec fn deploy_fits(state: DeployView, event: DeployEvent) -> bool {
    if event is Failed {
        !(state.stage is Done)
    } else {
        match state.stage {
            DeployStage::ResolveHosts => if state.is_remote() {
                event is RemoteHost
            } else {
                event is LocalHost
            },
            DeployStage::AwaitKubeconfig => event is Kubeconfig,
            DeployStage::CleanStaleNodes => event is StaleNodes,
            DeployStage::CheckWorkload => event is Workload,
            DeployStage::ReconcilePki => event is Pki,
            DeployStage::StoreMetadata => event is Metadata,
            DeployStage::Done => false,
            _ => event is Succeeded,
        }
    }
}

/// The stage after the one that `state` is at, once it ended well.
pub open spec fn following(state: DeployView) -> DeployStage {
    match state.stage {
        DeployStage::Connect => DeployStage::PullImage,
        DeployStage::PullImage => DeployStage::EnsureNetwork,
        DeployStage::EnsureNetwork => DeployStage::EnsureVolume,
        DeployStage::EnsureVolume => DeployStage::ResolveHosts,
        DeployStage::ResolveHosts => DeployStage::EnsureContainer,
        DeployStage::EnsureContainer => DeployStage::StartContainer,
        DeployStage::StartContainer => DeployStage::AwaitKubeconfig,
        DeployStage::AwaitKubeconfig => DeployStage::WriteKubeconfig,
        DeployStage::WriteKubeconfig => DeployStage::CleanStaleNodes,
        DeployStage::CleanStaleNodes => DeployStage::CheckWorkload,
        DeployStage::CheckWorkload => DeployStage::ReconcilePki,
        DeployStage::ReconcilePki => if state.restart_due() {
            DeployStage::RestartRotated
        } else {
            DeployStage::StoreCredentials
        },
        DeployStage::RestartRotated => DeployStage::StoreCredentials,
        DeployStage::StoreCredentials => if state.push_due() {
            DeployStage::PushImages
        } else {
            DeployStage::AwaitReady
        },
        DeployStage::PushImages => DeployStage::RestartPushed,
        DeployStage::RestartPushed => DeployStage::AwaitReady,
        DeployStage::AwaitReady => DeployStage::StoreMetadata,
        DeployStage::StoreMetadata => DeployStage::Done,
        DeployStage::Done => DeployStage::Done,
    }
}

/// `state` with what `event` tells of the gateway.
pub open spec fn informed(state: DeployView, event: DeployEvent) -> DeployView {
    let gateway_host = opt_view(state.options.gateway_host);
    match event {
        DeployEvent::RemoteHost { ssh_host, resolved } => DeployView {
            extra_sans: remote_names(ssh_host@, resolved@, gateway_host),
            ssh_gateway_host: remote_advertised(resolved@, gateway_host),
            ..state
        },
        DeployEvent::LocalHost(local_host) => DeployView {
            extra_sans: local_names(opt_view(local_host), gateway_host),
            ssh_gateway_host: gateway_host,
            ..state
        },
        DeployEvent::Kubeconfig(kubeconfig) => DeployView { kubeconfig: kubeconfig@, ..state },
        DeployEvent::Workload(existed) => DeployView { workload_existed: existed, ..state },
        DeployEvent::Pki { bundle, rotated } => DeployView { pki: Some(bundle), rotated, ..state },
        DeployEvent::Metadata(metadata) => DeployView { metadata: Some(metadata), ..state },
        _ => state,
    }
}

/// Where a deployment stands after `event`; None where it is given up. A failed
/// stage gives it up, but for the removal of stale nodes.
pub open spec fn deployed(state: DeployView, event: DeployEvent) -> Option<DeployView> {
    if !deploy_fits(state, event) || (event is Failed && !(state.stage is CleanStaleNodes)) {
        None
    } else {
        let next = informed(state, event);
        Some(DeployView { stage: following(next), ..next })
    }
}

/// The lines that are logged before `stage`, where `images` images are to be pushed.
pub open spec fn opening_lines(stage: DeployStage, images: nat) -> Seq<Seq<char>> {
    match stage {
        DeployStage::PullImage => seq!["[status] Pulling gateway image"@],
        DeployStage::EnsureNetwork => seq![
            "[status] Preparing gateway"@,
            "[progress] Creating gateway network"@,
        ],
        DeployStage::EnsureVolume => seq!["[progress] Preparing gateway volume"@],
        DeployStage::EnsureContainer => seq!["[progress] Creating gateway container"@],
        DeployStage::StartContainer => seq!["[status] Starting gateway"@],
        DeployStage::AwaitKubeconfig => seq!["[progress] Waiting for kubeconfig"@],
        DeployStage::WriteKubeconfig => seq!["[progress] Writing kubeconfig"@],
        DeployStage::CleanStaleNodes => seq!["[progress] Cleaning stale nodes"@],
        DeployStage::ReconcilePki => seq!["[progress] Reconciling TLS certificates"@],
        DeployStage::RestartRotated => seq![
            "[progress] PKI rotated — restarting navigator workload"@,
        ],
        DeployStage::StoreCredentials => seq!["[progress] Storing CLI mTLS credentials"@],
        DeployStage::PushImages => seq![
            "[progress] Importing "@ + decimal_text(images) + " local image(s) into gateway"@,
        ],
        DeployStage::RestartPushed => seq!["[progress] Restarting navigator deployment"@],
        DeployStage::AwaitReady => seq!["[status] Waiting for gateway"@],
        DeployStage::StoreMetadata => seq!["[progress] Persisting gateway metadata"@],
        _ => seq![],
    }
}

/// The lines that are logged because of `event` itself.
pub open spec fn event_lines(event: DeployEvent) -> Seq<Seq<char>> {
    match event {
        DeployEvent::StaleNodes(removed) => if removed > 0 {
            seq!["[progress] Removed "@ + decimal_text(removed as nat) + " stale node(s)"@]
        } else {
            seq![]
        },
        _ => seq![],
    }
}

/// A deployment of a gateway.
#[derive(Debug)]
pub struct Deployment {
    stage: DeployStage,
    options: DeployOptions,
    image_ref: String,
    kubeconfig_path: String,
    push_images: Vec<String>,
    hosts: GatewayHosts,
    kubeconfig: String,
    workload_existed: bool,
    rotated: bool,
    pki: Option<PkiBundle>,
    metadata: Option<ClusterMetadata>,
}

impl View for Deployment {
    type V = DeployView;

    closed spec fn view(&self) -> DeployView {
        DeployView {
            stage: self.stage,
            options: self.options,
            image_ref: self.image_ref@,
            kubeconfig_path: self.kubeconfig_path,
            push_images: views(self.push_images@),
            extra_sans: views(self.hosts.extra_sans@),
            ssh_gateway_host: opt_view(self.hosts.ssh_gateway_host),
            kubeconfig: self.kubeconfig@,
            workload_existed: self.workload_existed,
            rotated: self.rotated,
            pki: self.pki,
            metadata: self.metadata,
        }
    }
}

/// How far `stage` is in a deployment.
pub open spec fn stage_rank(stage: DeployStage) -> nat {
    match stage {
        DeployStage::Connect => 0,
        DeployStage::PullImage => 1,
        DeployStage::EnsureNetwork => 2,
        DeployStage::EnsureVolume => 3,
        DeployStage::ResolveHosts => 4,
        DeployStage::EnsureContainer => 5,
        DeployStage::StartContainer => 6,
        DeployStage::AwaitKubeconfig => 7,
        DeployStage::WriteKubeconfig => 8,
        DeployStage::CleanStaleNodes => 9,
        DeployStage::CheckWorkload => 10,
        DeployStage::ReconcilePki => 11,
        DeployStage::RestartRotated => 12,
        DeployStage::StoreCredentials => 13,
        DeployStage::PushImages => 14,
        DeployStage::RestartPushed => 15,
        DeployStage::AwaitReady => 16,
        DeployStage::StoreMetadata => 17,
        DeployStage::Done => 18,
    }
}

/// Where a deployment with these options begins.
pub open spec fn deploy_start(
    options: DeployOptions,
    kubeconfig_path: String,
    configured_image: Option<Seq<char>>,
    default_image: Seq<char>,
    push_list: Option<Seq<char>>,
) -> DeployView {
    DeployView {
        stage: DeployStage::Connect,
        options,
        image_ref: match options.image_ref {
            Some(image) => image@,
            None => chosen_image(configured_image, default_image),
        },
        kubeconfig_path,
        push_images: if options.remote is None && push_list is Some {
            image_list(push_list->Some_0)
        } else {
            seq![]
        },
        extra_sans: seq![],
        ssh_gateway_host: None,
        kubeconfig: seq![],
        workload_existed: false,
        rotated: false,
        pki: None,
        metadata: None,
    }
}

/// `lines` and `text` after them.
fn add_line(lines: &mut Vec<String>, text: &str)
    ensures
        views(final(lines)@) == views(old(lines)@).push(text@),
{
    let ghost before = lines@;
    lines.push(text.to_owned());
    assert(views(lines@) =~= views(before).push(text@));
}

impl Deployment {
    #[verifier::type_invariant]
    closed spec fn wf(&self) -> bool {
        &&& stage_rank(self.stage) > stage_rank(DeployStage::ReconcilePki) ==> self.pki is Some
        &&& self.stage is Done ==> self.metadata is Some
    }

    /// A deployment before its first stage. Where the options name no image, the
    /// image is the one that the environment configures, or the default. Images are
    /// pushed by a local deployment only, and only where the environment lists some.
    pub fn new(
        options: DeployOptions,
        kubeconfig_path: String,
        configured_image: Option<String>,
        default_image: &str,
        push_list: Option<String>,
    ) -> (deployment: Self)
        ensures
            deployment@ == deploy_start(
                options,
                kubeconfig_path,
                opt_view(configured_image),
                default_image@,
                opt_view(push_list),
            ),
    {
        let image_ref = match &options.image_ref {
            Some(image) => image.clone(),
            None => default_cluster_image_ref(configured_image, default_image),
        };
        let push_images: Vec<String> = match (&options.remote, &push_list) {
            (None, Some(list)) => parse_push_images(list.as_str()),
            _ => Vec::new(),
        };
        let hosts = GatewayHosts { extra_sans: Vec::new(), ssh_gateway_host: None };
        let deployment = Deployment {
            stage: DeployStage::Connect,
            options,
            image_ref,
            kubeconfig_path,
            push_images,
            hosts,
            kubeconfig: String::new(),
            workload_existed: false,
            rotated: false,
            pki: None,
            metadata: None,
        };
        proof {
            assert(views(hosts.extra_sans@) =~= seq![]);
            if options.remote is Some || push_list is None {
                assert(views(push_images@) =~= seq![]);
            }
        }
        deployment
    }

    /// The stage that the deployment is at.
    pub fn stage(&self) -> (stage: DeployStage)
        ensures
            stage == self@.stage,
    {
        self.stage
    }

    /// The stage after the current one.
    fn next_stage(&self) -> (stage: DeployStage)
        ensures
            stage == following(self@),
    {
        match self.stage {
            DeployStage::Connect => DeployStage::PullImage,
            DeployStage::PullImage => DeployStage::EnsureNetwork,
            DeployStage::EnsureNetwork => DeployStage::EnsureVolume,
            DeployStage::EnsureVolume => DeployStage::ResolveHosts,
            DeployStage::ResolveHosts => DeployStage::EnsureContainer,
            DeployStage::EnsureContainer => DeployStage::StartContainer,
            DeployStage::StartContainer => DeployStage::AwaitKubeconfig,
            DeployStage::AwaitKubeconfig => DeployStage::WriteKubeconfig,
            DeployStage::WriteKubeconfig => DeployStage::CleanStaleNodes,
            DeployStage::CleanStaleNodes => DeployStage::CheckWorkload,
            DeployStage::CheckWorkload => DeployStage::ReconcilePki,
            DeployStage::ReconcilePki => if self.rotated && self.workload_existed {
                DeployStage::RestartRotated
            } else {
                DeployStage::StoreCredentials
            },
            DeployStage::RestartRotated => DeployStage::StoreCredentials,
            DeployStage::StoreCredentials => if self.push_images.len() > 0 {
                DeployStage::PushImages
            } else {
                DeployStage::AwaitReady
            },
            DeployStage::PushImages => DeployStage::RestartPushed,
            DeployStage::RestartPushed => DeployStage::AwaitReady,
            DeployStage::AwaitReady => DeployStage::StoreMetadata,
            DeployStage::StoreMetadata => DeployStage::Done,
            DeployStage::Done => DeployStage::Done,
        }
    }

    /// Add the lines that are logged before the current stage to `lines`.
    fn add_opening_lines(&self, lines: &mut Vec<String>)
        ensures
            views(final(lines)@) == views(old(lines)@) + opening_lines(
                self@.stage,
                self@.push_images.len(),
            ),
    {
        match self.stage {
            DeployStage::PullImage => add_line(lines, "[status] Pulling gateway image"),
            DeployStage::EnsureNetwork => {
                add_line(lines, "[status] Preparing gateway");
                add_line(lines, "[progress] Creating gateway network");
            },
            DeployStage::EnsureVolume => add_line(lines, "[progress] Preparing gateway volume"),
            DeployStage::EnsureContainer => add_line(
                lines,
                "[progress] Creating gateway container",
            ),
            DeployStage::StartContainer => add_line(lines, "[status] Starting gateway"),
            DeployStage::AwaitKubeconfig => add_line(lines, "[progress] Waiting for kubeconfig"),
            DeployStage::WriteKubeconfig => add_line(lines, "[progress] Writing kubeconfig"),
            DeployStage::CleanStaleNodes => add_line(lines, "[progress] Cleaning stale nodes"),
            DeployStage::ReconcilePki => add_line(
                lines,
                "[progress] Reconciling TLS certificates",
            ),
            DeployStage::RestartRotated => add_line(
                lines,
                "[progress] PKI rotated — restarting navigator workload",
            ),
            DeployStage::StoreCredentials => add_line(
                lines,
                "[progress] Storing CLI mTLS credentials",
            ),
            DeployStage::PushImages => {
                let mut text = "[progress] Importing ".to_owned();
                text.append(decimal(self.push_images.len() as u64).as_str());
                text.append(" local image(s) into gateway");
                add_line(lines, text.as_str());
            },
            DeployStage::RestartPushed => add_line(
                lines,
                "[progress] Restarting navigator deployment",
            ),
            DeployStage::AwaitReady => add_line(lines, "[status] Waiting for gateway"),
            DeployStage::StoreMetadata => add_line(lines, "[progress] Persisting gateway metadata"),
            _ => {},
        }
        assert(views(lines@) =~= views(old(lines)@) + opening_lines(
            self@.stage,
            self@.push_images.len(),
        ));
    }

    /// Keep what `event` tells of the gateway.
    fn learn(&mut self, event: DeployEvent)
        requires
            deploy_fits(old(self)@, event),
        ensures
            final(self)@ == informed(old(self)@, event),
    {
        proof {
            use_type_invariant(&*self);
        }
        match event {
            DeployEvent::RemoteHost { ssh_host, resolved } => {
                self.hosts = remote_hosts(ssh_host, resolved, &self.options.gateway_host);
            },
            DeployEvent::LocalHost(local_host) => {
                self.hosts = local_hosts(local_host, &self.options.gateway_host);
            },
            DeployEvent::Kubeconfig(kubeconfig) => {
                self.kubeconfig = kubeconfig;
            },
            DeployEvent::Workload(existed) => {
                self.workload_existed = existed;
            },
            DeployEvent::Pki { bundle, rotated } => {
                self.pki = Some(bundle);
                self.rotated = rotated;
            },
            DeployEvent::Metadata(metadata) => {
                self.metadata = Some(metadata);
            },
            _ => {},
        }
    }

    /// Take the end of the current stage into account: either the deployment goes
    /// on, with some lines to log, or it is given up.
    pub fn advance(&mut self, event: DeployEvent) -> (step: DeployStep)
        requires
            deploy_fits(old(self)@, event),
        ensures
            match deployed(old(self)@, event) {
                Some(next) => {
                    &&& final(self)@ == next
                    &&& step matches DeployStep::Continue(lines)
                    &&& views(lines@) == event_lines(event) + opening_lines(
                        next.stage,
                        next.push_images.len(),
                    )
                },
                None => final(self)@ == old(self)@ && step is Abort,
            },
    {
        proof {
            use_type_invariant(&*self);
        }
        if matches!(event, DeployEvent::Failed) && self.stage != DeployStage::CleanStaleNodes {
            return DeployStep::Abort;
        }
        let mut lines: Vec<String> = Vec::new();
        assert(views(lines@) =~= seq![]);
        if let DeployEvent::StaleNodes(removed) = &event {
            if *removed > 0 {
                let mut text = "[progress] Removed ".to_owned();
                text.append(decimal(*removed).as_str());
                text.append(" stale node(s)");
                add_line(&mut lines, text.as_str());
            }
        }
        assert(views(lines@) =~= event_lines(event));
        self.learn(event);
        let stage = self.next_stage();
        self.stage = stage;
        self.add_opening_lines(&mut lines);
        DeployStep::Continue(lines)
    }
}

/// What a stage is to do.
#[derive(Debug)]
pub enum DeployAction<'a> {
    /// Connect to the Docker daemon of this machine.
    ConnectLocal,
    /// Connect to the Docker daemon of a remote machine.
    ConnectRemote { remote: &'a RemoteOptions },
    /// Pull the image on a remote machine.
    PullRemoteImage { image_ref: &'a String, registry_token: &'a Option<String> },
    /// Make sure that the image exists on this machine; pull it if needed.
    EnsureImage { image_ref: &'a String, registry_token: &'a Option<String> },
    /// Make sure that the gateway network exists.
    EnsureNetwork,
    /// Make sure that the volume of the cluster exists.
    EnsureVolume { name: &'a String },
    /// Find the host that an SSH destination names, and what it resolves to.
    ResolveRemoteHost { destination: &'a String },
    /// Find the host of a local gateway, where it is not the usual one.
    ResolveLocalHost,
    /// Make sure that the container of the cluster exists.
    EnsureContainer {
        name: &'a String,
        image_ref: &'a String,
        extra_sans: &'a Vec<String>,
        ssh_gateway_host: &'a Option<String>,
        port: u16,
        kube_port: Option<u16>,
        disable_tls: bool,
        disable_gateway_auth: bool,
        registry_token: &'a Option<String>,
    },
    /// Start the container of the cluster.
    StartContainer { name: &'a String },
    /// Wait for the kubeconfig of the cluster.
    AwaitKubeconfig { name: &'a String },
    /// Rewrite the kubeconfig of a local cluster and store it.
    WriteLocalKubeconfig {
        name: &'a String,
        kubeconfig: &'a String,
        kube_port: Option<u16>,
        path: &'a String,
    },
    /// Rewrite the kubeconfig of a remote cluster and store it.
    WriteRemoteKubeconfig {
        name: &'a String,
        kubeconfig: &'a String,
        destination: &'a String,
        kube_port: Option<u16>,
        path: &'a String,
    },
    /// Remove stale nodes of the cluster.
    CleanStaleNodes { name: &'a String },
    /// Find out whether the workload of the cluster runs.
    CheckWorkload { name: &'a String },
    /// Reconcile the TLS secrets of the cluster.
    ReconcilePki { name: &'a String, extra_sans: &'a Vec<String> },
    /// Restart the workload of the cluster.
    RestartWorkload { name: &'a String },
    /// Store the client side of the PKI.
    StoreCredentials { name: &'a String, bundle: &'a PkiBundle },
    /// Push images from the local Docker daemon into the cluster.
    PushImages { name: &'a String, images: &'a Vec<String> },
    /// Wait until the cluster is ready.
    AwaitReady { name: &'a String },
    /// Describe the gateway and store the description.
    StoreMetadata {
        name: &'a String,
        target: &'a Option<RemoteOptions>,
        port: u16,
        kube_port: Option<u16>,
        ssh_gateway_host: &'a Option<String>,
        disable_tls: bool,
    },
    /// Nothing: the gateway is deployed.
    Finish,
}

/// `action` is what the current stage of `state` is to do.
pub open spec fn is_action_of(action: DeployAction, state: DeployView) -> bool {
    let options = state.options;
    match state.stage {
        DeployStage::Connect => match options.remote {
            Some(remote) => action == (DeployAction::ConnectRemote { remote: &remote }),
            None => action is ConnectLocal,
        },
        DeployStage::PullImage => match options.remote {
            Some(_) => action matches DeployAction::PullRemoteImage { image_ref, registry_token }
                && image_ref@ == state.image_ref && *registry_token == options.registry_token,
            None => action matches DeployAction::EnsureImage { image_ref, registry_token }
                && image_ref@ == state.image_ref && *registry_token == options.registry_token,
        },
        DeployStage::EnsureNetwork => action is EnsureNetwork,
        DeployStage::EnsureVolume => action == (DeployAction::EnsureVolume {
            name: &options.name,
        }),
        DeployStage::ResolveHosts => match options.remote {
            Some(remote) => action == (DeployAction::ResolveRemoteHost {
                destination: &remote.destination,
            }),
            None => action is ResolveLocalHost,
        },
        DeployStage::EnsureContainer => {
            &&& action matches DeployAction::EnsureContainer {
                name,
                image_ref,
                extra_sans,
                ssh_gateway_host,
                port,
                kube_port,
                disable_tls,
                disable_gateway_auth,
                registry_token,
            }
            &&& *name == options.name
            &&& image_ref@ == state.image_ref
            &&& views(extra_sans@) == state.extra_sans
            &&& opt_view(*ssh_gateway_host) == state.ssh_gateway_host
            &&& port == options.port
            &&& kube_port == options.kube_port
            &&& disable_tls == options.disable_tls
            &&& disable_gateway_auth == options.disable_gateway_auth
            &&& *registry_token == options.registry_token
        },
        DeployStage::StartContainer => action == (DeployAction::StartContainer {
            name: &options.name,
        }),
        DeployStage::AwaitKubeconfig => action == (DeployAction::AwaitKubeconfig {
            name: &options.name,
        }),
        DeployStage::WriteKubeconfig => match options.remote {
            Some(remote) => {
                &&& action matches DeployAction::WriteRemoteKubeconfig {
                    name,
                    kubeconfig,
                    destination,
                    kube_port,
                    path,
                }
                &&& *name == options.name
                &&& kubeconfig@ == state.kubeconfig
                &&& *destination == remote.destination
                &&& kube_port == options.kube_port
                &&& *path == state.kubeconfig_path
            },
            None => {
                &&& action matches DeployAction::WriteLocalKubeconfig {
                    name,
                    kubeconfig,
                    kube_port,
                    path,
                }
                &&& *name == options.name
                &&& kubeconfig@ == state.kubeconfig
                &&& kube_port == options.kube_port
                &&& *path == state.kubeconfig_path
            },
        },
        DeployStage::CleanStaleNodes => action == (DeployAction::CleanStaleNodes {
            name: &options.name,
        }),
        DeployStage::CheckWorkload => action == (DeployAction::CheckWorkload {
            name: &options.name,
        }),
        DeployStage::ReconcilePki => action matches DeployAction::ReconcilePki { name, extra_sans }
            && *name == options.name && views(extra_sans@) == state.extra_sans,
        DeployStage::RestartRotated | DeployStage::RestartPushed => action == (
        DeployAction::RestartWorkload { name: &options.name }),
        DeployStage::StoreCredentials => state.pki is Some && action == (
        DeployAction::StoreCredentials { name: &options.name, bundle: &state.pki->Some_0 }),
        DeployStage::PushImages => action matches DeployAction::PushImages { name, images }
            && *name == options.name && views(images@) == state.push_images,
        DeployStage::AwaitReady => action == (DeployAction::AwaitReady { name: &options.name }),
        DeployStage::StoreMetadata => {
            &&& action matches DeployAction::StoreMetadata {
                name,
                target,
                port,
                kube_port,
                ssh_gateway_host,
                disable_tls,
            }
            &&& *name == options.name
            &&& *target == options.remote
            &&& port == options.port
            &&& kube_port == options.kube_port
            &&& opt_view(*ssh_gateway_host) == state.ssh_gateway_host
            &&& disable_tls == options.disable_tls
        },
        DeployStage::Done => action is Finish,
    }
}

impl Deployment {
    /// What the current stage is to do.
    pub fn action(&self) -> (action: DeployAction<'_>)
        ensures
            is_action_of(action, self@),
    {
        proof {
            use_type_invariant(self);
        }
        let name = &self.options.name;
        match self.stage {
            DeployStage::Connect => match &self.options.remote {
                Some(remote) => DeployAction::ConnectRemote { remote },
                None => DeployAction::ConnectLocal,
            },
            DeployStage::PullImage => {
                let image_ref = &self.image_ref;
                let registry_token = &self.options.registry_token;
                if self.options.remote.is_some() {
                    DeployAction::PullRemoteImage { image_ref, registry_token }
                } else {
                    DeployAction::EnsureImage { image_ref, registry_token }
                }
            },
            DeployStage::EnsureNetwork => DeployAction::EnsureNetwork,
            DeployStage::EnsureVolume => DeployAction::EnsureVolume { name },
            DeployStage::ResolveHosts => match &self.options.remote {
                Some(remote) => DeployAction::ResolveRemoteHost { destination: &remote.destination },
                None => DeployAction::ResolveLocalHost,
            },
            DeployStage::EnsureContainer => DeployAction::EnsureContainer {
                name,
                image_ref: &self.image_ref,
                extra_sans: &self.hosts.extra_sans,
                ssh_gateway_host: &self.hosts.ssh_gateway_host,
                port: self.options.port,
                kube_port: self.options.kube_port,
                disable_tls: self.options.disable_tls,
                disable_gateway_auth: self.options.disable_gateway_auth,
                registry_token: &self.options.registry_token,
            },
            DeployStage::StartContainer => DeployAction::StartContainer { name },
            DeployStage::AwaitKubeconfig => DeployAction::AwaitKubeconfig { name },
            DeployStage::WriteKubeconfig => match &self.options.remote {
                Some(remote) => DeployAction::WriteRemoteKubeconfig {
                    name,
                    kubeconfig: &self.kubeconfig,
                    destination: &remote.destination,
                    kube_port: self.options.kube_port,
                    path: &self.kubeconfig_path,
                },
                None => DeployAction::WriteLocalKubeconfig {
                    name,
                    kubeconfig: &self.kubeconfig,
                    kube_port: self.options.kube_port,
                    path: &self.kubeconfig_path,
                },
            },
            DeployStage::CleanStaleNodes => DeployAction::CleanStaleNodes { name },
            DeployStage::CheckWorkload => DeployAction::CheckWorkload { name },
            DeployStage::ReconcilePki => DeployAction::ReconcilePki {
                name,
                extra_sans: &self.hosts.extra_sans,
            },
            DeployStage::RestartRotated => DeployAction::RestartWorkload { name },
            DeployStage::StoreCredentials => DeployAction::StoreCredentials {
                name,
                bundle: self.pki.as_ref().unwrap(),
            },
            DeployStage::PushImages => DeployAction::PushImages { name, images: &self.push_images },
            DeployStage::RestartPushed => DeployAction::RestartWorkload { name },
            DeployStage::AwaitReady => DeployAction::AwaitReady { name },
            DeployStage::StoreMetadata => DeployAction::StoreMetadata {
                name,
                target: &self.options.remote,
                port: self.options.port,
                kube_port: self.options.kube_port,
                ssh_gateway_host: &self.hosts.ssh_gateway_host,
                disable_tls: self.options.disable_tls,
            },
            DeployStage::Done => DeployAction::Finish,
        }
    }

    /// The handle of the deployed gateway.
    pub fn finish(self) -> (handle: ClusterHandle)
        requires
            self@.stage is Done,
        ensures
            is_handle_of(handle, self@),
    {
        proof {
            use_type_invariant(&self);
        }
        ClusterHandle::new(self.options.name, self.kubeconfig_path, self.metadata.unwrap())
    }
}

/// `handle` is the handle of the gateway whose deployment reached `state`.
pub open spec fn is_handle_of(handle: ClusterHandle, state: DeployView) -> bool {
    &&& handle.spec_name() == state.options.name
    &&& handle.spec_kubeconfig_path() == state.kubeconfig_path
    &&& state.metadata == Some(handle.spec_metadata())
}

/// Where a deployment that began at `start` stands after `events`; None where one
/// of them gave it up.
pub open spec fn deployed_after(start: DeployView, events: Seq<DeployEvent>) -> Option<DeployView>
    decreases events.len(),
{
    if events.len() == 0 {
        Some(start)
    } else {
        match deployed_after(start, events.drop_last()) {
            Some(state) => deployed(state, events.last()),
            None => None,
        }
    }
}

/// Event `i` ended the stage `stage` of a deployment that began at `start`, and
/// ended it well (or ended the removal of stale nodes, well or not).
pub open spec fn completed_at(
    start: DeployView,
    events: Seq<DeployEvent>,
    stage: DeployStage,
    i: int,
) -> bool {
    &&& 0 <= i < events.len()
    &&& deployed_after(start, events.take(i)) is Some
    &&& deployed_after(start, events.take(i))->Some_0.stage == stage
    &&& events[i] is Failed ==> stage is CleanStaleNodes
}

/// `stage` is part of the deployment that reached `state`: the restart after a
/// rotation only where one is due, and pushing images only where there are some.
pub open spec fn is_part_of(stage: DeployStage, state: DeployView) -> bool {
    match stage {
        DeployStage::RestartRotated => state.restart_due(),
        DeployStage::PushImages | DeployStage::RestartPushed => state.push_due(),
        _ => true,
    }
}

/// Every event that does not give a deployment up moves it to a later stage.
pub proof fn law_deployment_progresses(state: DeployView, event: DeployEvent)
    ensures
        deployed(state, event) matches Some(next) ==> stage_rank(next.stage) > stage_rank(
            state.stage,
        ),
{
}

/// Whatever stage a deployment is at, each stage that is part of it and comes
/// before was completed. So client certificates are stored only after a rollout
/// that was due succeeded, TLS secrets are reconciled only once the kubeconfig is
/// stored, and a gateway is deployed only once it is ready and described.
pub proof fn law_stages_complete_in_order(
    start: DeployView,
    events: Seq<DeployEvent>,
    stage: DeployStage,
)
    requires
        start.stage is Connect,
    ensures
        deployed_after(start, events) matches Some(state) ==> (stage_rank(stage) < stage_rank(
            state.stage,
        ) && is_part_of(stage, state) ==> exists|i: int| completed_at(start, events, stage, i)),
    decreases events.len(),
{
    if events.len() > 0 {
        let before = events.drop_last();
        let last = events.len() - 1;
        assert(events.take(last) =~= before);
        law_stages_complete_in_order(start, before, stage);
        if let Some(state) = deployed_after(start, before) {
            if deployed(state, events.last()) is Some {
                if stage_rank(stage) < stage_rank(state.stage) && is_part_of(stage, state) {
                    let i = choose|i: int| completed_at(start, before, stage, i);
                    assert(events.take(i) =~= before.take(i));
                    assert(completed_at(start, events, stage, i));
                }
                if stage == state.stage {
                    assert(completed_at(start, events, stage, last));
                }
            }
        }
    }
}

/// A deployment restarts a running workload because of TLS secrets only where
/// these were rotated and the workload ran before; it pushes images only where it
/// has some to push.
pub proof fn law_optional_stages_are_due(start: DeployView, events: Seq<DeployEvent>)
    requires
        start.stage is Connect,
    ensures
        deployed_after(start, events) matches Some(state) ==> is_part_of(state.stage, state),
    decreases events.len(),
{
    if events.len() > 0 {
        law_optional_stages_are_due(start, events.drop_last());
    }
}

/// A deployment does not change what it was asked for.
pub proof fn law_request_is_kept(start: DeployView, events: Seq<DeployEvent>)
    ensures
        deployed_after(start, events) matches Some(state) ==> {
            &&& state.options == start.options
            &&& state.image_ref == start.image_ref
            &&& state.kubeconfig_path == start.kubeconfig_path
            &&& state.push_images == start.push_images
        },
    decreases events.len(),
{
    if events.len() > 0 {
        law_request_is_kept(start, events.drop_last());
    }
}

/// Once the hosts are resolved, the certificate covers the host that the gateway
/// advertises, and covers no name twice.
pub proof fn law_certificate_covers_advertised_host(start: DeployView, events: Seq<DeployEvent>)
    requires
        start.stage is Connect,
    ensures
        deployed_after(start, events) matches Some(state) ==> (stage_rank(state.stage)
            > stage_rank(DeployStage::ResolveHosts) ==> {
            &&& state.extra_sans.no_duplicates()
            &&& state.ssh_gateway_host is Some ==> state.extra_sans.contains(
                state.ssh_gateway_host->Some_0,
            )
        }),
    decreases events.len(),
{
    if events.len() > 0 {
        law_certificate_covers_advertised_host(start, events.drop_last());
        if let Some(state) = deployed_after(start, events.drop_last()) {
            let gateway_host = opt_view(state.options.gateway_host);
            match events.last() {
                DeployEvent::RemoteHost { ssh_host, resolved } => {
                    law_remote_names_cover_advertised_host(ssh_host@, resolved@, gateway_host);
                },
                DeployEvent::LocalHost(local_host) => {
                    law_local_names_cover_advertised_host(opt_view(local_host), gateway_host);
                },
                _ => {},
            }
        }
    }
}

/// A remote deployment never pushes images from this machine.
pub proof fn law_remote_deployment_pushes_nothing(
    options: DeployOptions,
    kubeconfig_path: String,
    configured_image: Option<Seq<char>>,
    default_image: Seq<char>,
    push_list: Option<Seq<char>>,
    events: Seq<DeployEvent>,
)
    requires
        options.remote is Some,
    ensures
        deployed_after(
            deploy_start(
                options,
                kubeconfig_path,
                configured_image,
                default_image,
                push_list,
            ),
            events,
        ) matches Some(state) ==> !(state.stage is PushImages) && !(state.stage is RestartPushed),
{
    let start = deploy_start(
        options,
        kubeconfig_path,
        configured_image,
        default_image,
        push_list,
    );
    law_optional_stages_are_due(start, events);
    law_request_is_kept(start, events);
}

/// Whatever a deployment is at, its actions carry what it was asked for: the same
/// name, ports, TLS setting, authentication, image and token each time they are
/// needed. So the gateway that is described is the one whose container was created.
pub proof fn law_actions_carry_the_request(action: DeployAction, state: DeployView)
    requires
        is_action_of(action, state),
    ensures
        action matches DeployAction::EnsureContainer {
            name,
            image_ref,
            extra_sans,
            ssh_gateway_host,
            port,
            kube_port,
            disable_tls,
            disable_gateway_auth,
            registry_token,
        } ==> {
            &&& *name == state.options.name
            &&& image_ref@ == state.image_ref
            &&& views(extra_sans@) == state.extra_sans
            &&& opt_view(*ssh_gateway_host) == state.ssh_gateway_host
            &&& port == state.options.port
            &&& kube_port == state.options.kube_port
            &&& disable_tls == state.options.disable_tls
            &&& disable_gateway_auth == state.options.disable_gateway_auth
            &&& *registry_token == state.options.registry_token
        },
        action matches DeployAction::StoreMetadata {
            name,
            target,
            port,
            kube_port,
            ssh_gateway_host,
            disable_tls,
        } ==> {
            &&& *name == state.options.name
            &&& *target == state.options.remote
            &&& port == state.options.port
            &&& kube_port == state.options.kube_port
            &&& opt_view(*ssh_gateway_host) == state.ssh_gateway_host
            &&& disable_tls == state.options.disable_tls
        },
        action matches DeployAction::PullRemoteImage { image_ref, registry_token }
            ==> image_ref@ == state.image_ref && *registry_token == state.options.registry_token,
        action matches DeployAction::EnsureImage { image_ref, registry_token } ==> image_ref@
            == state.image_ref && *registry_token == state.options.registry_token,
        action matches DeployAction::ConnectRemote { remote } ==> state.options.remote == Some(
            *remote,
        ),
        action matches DeployAction::ResolveRemoteHost { destination }
            ==> state.options.remote is Some && *destination
            == state.options.remote->Some_0.destination,
        action matches DeployAction::WriteRemoteKubeconfig {
            name,
            kubeconfig,
            destination,
            kube_port,
            path,
        } ==> {
            &&& *name == state.options.name
            &&& kubeconfig@ == state.kubeconfig
            &&& state.options.remote is Some
            &&& *destination == state.options.remote->Some_0.destination
            &&& kube_port == state.options.kube_port
            &&& *path == state.kubeconfig_path
        },
        action matches DeployAction::WriteLocalKubeconfig { name, kubeconfig, kube_port, path }
            ==> {
            &&& *name == state.options.name
            &&& kubeconfig@ == state.kubeconfig
            &&& kube_port == state.options.kube_port
            &&& *path == state.kubeconfig_path
        },
        action matches DeployAction::EnsureVolume { name } ==> *name == state.options.name,
        action matches DeployAction::StartContainer { name } ==> *name == state.options.name,
        action matches DeployAction::AwaitKubeconfig { name } ==> *name == state.options.name,
        action matches DeployAction::CleanStaleNodes { name } ==> *name == state.options.name,
        action matches DeployAction::CheckWorkload { name } ==> *name == state.options.name,
        action matches DeployAction::ReconcilePki { name, extra_sans } ==> *name
            == state.options.name && views(extra_sans@) == state.extra_sans,
        action matches DeployAction::RestartWorkload { name } ==> *name == state.options.name,
        action matches DeployAction::StoreCredentials { name, bundle } ==> *name
            == state.options.name && state.pki == Some(*bundle),
        action matches DeployAction::PushImages { name, images } ==> *name == state.options.name
            && views(images@) == state.push_images,
        action matches DeployAction::AwaitReady { name } ==> *name == state.options.name,
{
}

/// The container that a deployment creates and the description that it stores agree:
/// on the name, the ports, the advertised host and whether the gateway speaks TLS.
pub proof fn law_described_gateway_is_the_created_one(
    start: DeployView,
    early: Seq<DeployEvent>,
    late: Seq<DeployEvent>,
    created: DeployAction,
    described: DeployAction,
)
    requires
        deployed_after(start, early) is Some,
        deployed_after(start, late) is Some,
        is_action_of(created, deployed_after(start, early)->Some_0),
        is_action_of(described, deployed_after(start, late)->Some_0),
        created is EnsureContainer,
        described is StoreMetadata,
    ensures
        created->EnsureContainer_name == described->StoreMetadata_name,
        created->EnsureContainer_port == described->StoreMetadata_port,
        created->EnsureContainer_kube_port == described->StoreMetadata_kube_port,
        created->EnsureContainer_disable_tls == described->StoreMetadata_disable_tls,
        created->EnsureContainer_disable_tls == start.options.disable_tls,
        created->EnsureContainer_port == start.options.port,
        created->EnsureContainer_kube_port == start.options.kube_port,
        *created->EnsureContainer_name == start.options.name,
{
    law_request_is_kept(start, early);
    law_request_is_kept(start, late);
}

/// Each stage does its own work, on the machine that was asked for: remote work for
/// a remote deployment, local work for a local one.
pub proof fn law_each_stage_does_its_work(action: DeployAction, state: DeployView)
    requires
        is_action_of(action, state),
    ensures
        ({
            let remote = state.options.remote is Some;
            &&& action is ConnectRemote <==> state.stage is Connect && remote
            &&& action is ConnectLocal <==> state.stage is Connect && !remote
            &&& action is PullRemoteImage <==> state.stage is PullImage && remote
            &&& action is EnsureImage <==> state.stage is PullImage && !remote
            &&& action is EnsureNetwork <==> state.stage is EnsureNetwork
            &&& action is EnsureVolume <==> state.stage is EnsureVolume
            &&& action is ResolveRemoteHost <==> state.stage is ResolveHosts && remote
            &&& action is ResolveLocalHost <==> state.stage is ResolveHosts && !remote
            &&& action is EnsureContainer <==> state.stage is EnsureContainer
            &&& action is StartContainer <==> state.stage is StartContainer
            &&& action is AwaitKubeconfig <==> state.stage is AwaitKubeconfig
            &&& action is WriteRemoteKubeconfig <==> state.stage is WriteKubeconfig && remote
            &&& action is WriteLocalKubeconfig <==> state.stage is WriteKubeconfig && !remote
            &&& action is CleanStaleNodes <==> state.stage is CleanStaleNodes
            &&& action is CheckWorkload <==> state.stage is CheckWorkload
            &&& action is ReconcilePki <==> state.stage is ReconcilePki
            &&& action is RestartWorkload <==> state.stage is RestartRotated
                || state.stage is RestartPushed
            &&& action is StoreCredentials <==> state.stage is StoreCredentials
            &&& action is PushImages <==> state.stage is PushImages
            &&& action is AwaitReady <==> state.stage is AwaitReady
            &&& action is StoreMetadata <==> state.stage is StoreMetadata
            &&& action is Finish <==> state.stage is Done
        }),
{
}

/// The stages of a deployment in the order in which they come, with or without the
/// restart of a workload, and with or without images to push.
pub open spec fn planned_stages(restart: bool, push: bool) -> Seq<DeployStage> {
    let opening = seq![
        DeployStage::Connect,
        DeployStage::PullImage,
        DeployStage::EnsureNetwork,
        DeployStage::EnsureVolume,
        DeployStage::ResolveHosts,
        DeployStage::EnsureContainer,
        DeployStage::StartContainer,
        DeployStage::AwaitKubeconfig,
        DeployStage::WriteKubeconfig,
        DeployStage::CleanStaleNodes,
        DeployStage::CheckWorkload,
        DeployStage::ReconcilePki,
    ];
    let restarted = if restart {
        seq![DeployStage::RestartRotated]
    } else {
        seq![]
    };
    let pushed = if push {
        seq![DeployStage::PushImages, DeployStage::RestartPushed]
    } else {
        seq![]
    };
    opening + restarted + seq![DeployStage::StoreCredentials] + pushed + seq![
        DeployStage::AwaitReady,
        DeployStage::StoreMetadata,
        DeployStage::Done,
    ]
}

/// The events told of a workload that ran and, after it, of new TLS secrets.
pub open spec fn told_of_restart(events: Seq<DeployEvent>) -> bool {
    &&& events.len() > 11
    &&& events[10] == DeployEvent::Workload(true)
    &&& events[11] is Pki
    &&& events[11]->rotated
}

/// A deployment that is not given up goes through its stages in this order, one for
/// each event: a running workload is restarted if and only if it ran before and the
/// TLS secrets are new, before any client certificate is stored; images are pushed,
/// and the workload restarted for them, if and only if there are some.
pub proof fn law_stages_come_in_the_planned_order(start: DeployView, events: Seq<DeployEvent>)
    requires
        start.stage is Connect,
        deployed_after(start, events) is Some,
    ensures
        ({
            let stages = planned_stages(told_of_restart(events), start.push_images.len() > 0);
            &&& events.len() < stages.len()
            &&& deployed_after(start, events)->Some_0.stage == stages[events.len() as int]
        }),
{
    lemma_planned_order(start, events);
}

/// The planned order, with what the events told of the workload and the PKI.
#[verifier::rlimit(60)]
#[verifier::spinoff_prover]
proof fn lemma_planned_order(start: DeployView, events: Seq<DeployEvent>)
    requires
        start.stage is Connect,
        deployed_after(start, events) is Some,
    ensures
        ({
            let state = deployed_after(start, events)->Some_0;
            let stages = planned_stages(told_of_restart(events), start.push_images.len() > 0);
            &&& events.len() < stages.len()
            &&& state.stage == stages[events.len() as int]
            &&& state.push_images == start.push_images
            &&& events.len() > 10 ==> events[10] == DeployEvent::Workload(state.workload_existed)
            &&& events.len() > 11 ==> events[11] is Pki && events[11]->rotated == state.rotated
        }),
    decreases events.len(),
{
    if events.len() > 0 {
        let before = events.drop_last();
        lemma_planned_order(start, before);
        assert(forall|i: int| 0 <= i < before.len() ==> #[trigger] before[i] == events[i]);
        assert(events.last() == events[events.len() - 1]);
        let push = start.push_images.len() > 0;
        let restart = told_of_restart(events);
        assert(planned_stages(restart, push)[events.len() as int - 1] == planned_stages(
            told_of_restart(before),
            push,
        )[events.len() as int - 1]);
    }
}

/// How far a deployment is depends on nothing but how many stages ended, whether a
/// workload ran before the TLS secrets were renewed, and whether there are images to
/// push: a restart that is due comes before the client certificates are stored, and
/// only where it is due; pushing comes after them, and only where there are images.
pub proof fn law_stage_by_stage(start: DeployView, events: Seq<DeployEvent>)
    requires
        start.stage is Connect,
        deployed_after(start, events) is Some,
    ensures
        ({
            let stage = deployed_after(start, events)->Some_0.stage;
            let count = events.len() as int;
            let due = count > 11 && events[10] == DeployEvent::Workload(true) && events[11] is Pki
                && events[11]->rotated;
            let push = start.push_images.len() > 0;
            let restarts: int = if due {
                1
            } else {
                0
            };
            let pushes: int = if push {
                2
            } else {
                0
            };
            &&& stage is Connect <==> count == 0
            &&& stage is PullImage <==> count == 1
            &&& stage is EnsureNetwork <==> count == 2
            &&& stage is EnsureVolume <==> count == 3
            &&& stage is ResolveHosts <==> count == 4
            &&& stage is EnsureContainer <==> count == 5
            &&& stage is StartContainer <==> count == 6
            &&& stage is AwaitKubeconfig <==> count == 7
            &&& stage is WriteKubeconfig <==> count == 8
            &&& stage is CleanStaleNodes <==> count == 9
            &&& stage is CheckWorkload <==> count == 10
            &&& stage is ReconcilePki <==> count == 11
            &&& stage is RestartRotated <==> due && count == 12
            &&& stage is StoreCredentials <==> count == 12 + restarts
            &&& stage is PushImages <==> push && count == 13 + restarts
            &&& stage is RestartPushed <==> push && count == 14 + restarts
            &&& stage is AwaitReady <==> count == 13 + restarts + pushes
            &&& stage is StoreMetadata <==> count == 14 + restarts + pushes
            &&& stage is Done <==> count == 15 + restarts + pushes
        }),
{
    lemma_planned_order(start, events);
}

/// A stage that fails gives the deployment up; no other end of a stage does, and the
/// removal of stale nodes is never a reason to give up.
pub proof fn law_only_failures_give_up(state: DeployView, event: DeployEvent)
    requires
        deploy_fits(state, event),
    ensures
        deployed(state, event) is None <==> event is Failed && !(state.stage is CleanStaleNodes),
{
}

/// What the stages told of the gateway is kept as they told it: the kubeconfig that
/// the cluster wrote, the hosts under which it is reached, the PKI it was reconciled
/// with and, at the end, its description.
pub proof fn law_events_are_kept(start: DeployView, events: Seq<DeployEvent>)
    requires
        start.stage is Connect,
        deployed_after(start, events) is Some,
    ensures
        ({
            let state = deployed_after(start, events)->Some_0;
            let host = start.options.gateway_host;
            &&& events.len() > 4 ==> (events[4] matches DeployEvent::RemoteHost {
                ssh_host,
                resolved,
            } ==> {
                &&& state.extra_sans.contains(ssh_host@)
                &&& state.extra_sans.contains(resolved@)
                &&& host is Some ==> state.extra_sans.contains(host->Some_0@)
                    && state.ssh_gateway_host == Some(host->Some_0@)
                &&& host is None ==> state.ssh_gateway_host == Some(resolved@)
            })
            &&& events.len() > 4 ==> (events[4] matches DeployEvent::LocalHost(local) ==> {
                &&& local is Some ==> state.extra_sans.contains(local->Some_0@)
                &&& host is Some ==> state.extra_sans.contains(host->Some_0@)
                    && state.ssh_gateway_host == Some(host->Some_0@)
                &&& host is None ==> state.ssh_gateway_host is None
            })
            &&& events.len() > 4 ==> if start.options.remote is Some {
                events[4] is RemoteHost
            } else {
                events[4] is LocalHost
            }
            &&& events.len() > 7 ==> (events[7] matches DeployEvent::Kubeconfig(text)
                && state.kubeconfig == text@)
            &&& events.len() > 11 ==> (events[11] matches DeployEvent::Pki { bundle, .. }
                && state.pki == Some(bundle))
            &&& state.stage is Done ==> events.len() > 0 && (events.last() matches DeployEvent::Metadata(
            metadata) && state.metadata == Some(metadata))
        }),
    decreases events.len(),
{
    if events.len() > 0 {
        let before = events.drop_last();
        law_events_are_kept(start, before);
        lemma_planned_order(start, before);
        law_request_is_kept(start, before);
        assert(forall|i: int| 0 <= i < before.len() ==> #[trigger] before[i] == events[i]);
        assert(events.last() == events[events.len() - 1]);
        let host = opt_view(start.options.gateway_host);
        match events.last() {
            DeployEvent::RemoteHost { ssh_host, resolved } => {
                law_remote_names_cover_advertised_host(ssh_host@, resolved@, host);
            },
            DeployEvent::LocalHost(local) => {
                law_local_names_cover_advertised_host(opt_view(local), host);
            },
            _ => {},
        }
    }
}

/// A deployment begins with what it was asked for. Its image is the one of the
/// options, else the one that the environment configures where that is not blank,
/// else the default. It pushes the listed images where it is local, and none where
/// it is remote or nothing is listed.
pub proof fn law_deployment_begins_with_its_request(
    options: DeployOptions,
    kubeconfig_path: String,
    configured_image: Option<Seq<char>>,
    default_image: Seq<char>,
    push_list: Option<Seq<char>>,
)
    ensures
        ({
            let start = deploy_start(
                options,
                kubeconfig_path,
                configured_image,
                default_image,
                push_list,
            );
            let configured = configured_image is Some && trimmed(configured_image->Some_0).len()
                > 0;
            &&& start.stage is Connect
            &&& start.options == options
            &&& start.kubeconfig_path == kubeconfig_path
            &&& options.image_ref is Some ==> start.image_ref == options.image_ref->Some_0@
            &&& options.image_ref is None && configured ==> start.image_ref
                == configured_image->Some_0
            &&& options.image_ref is None && !configured ==> start.image_ref == default_image
            &&& options.remote is Some || push_list is None ==> start.push_images.len() == 0
            &&& options.remote is None && push_list is Some ==> start.push_images == image_list(
                push_list->Some_0,
            )
        }),
{
}

/// The line on removed nodes stands exactly where some were removed, and names how
/// many; the line on pushed images names how many.
pub proof fn law_counts_are_logged(removed: u64, images: nat)
    ensures
        event_lines(DeployEvent::StaleNodes(removed)).len() == (if removed > 0 {
            1int
        } else {
            0
        }),
        removed > 0 ==> contains_text(
            event_lines(DeployEvent::StaleNodes(removed))[0],
            decimal_text(removed as nat),
        ),
        opening_lines(DeployStage::PushImages, images).len() == 1,
        contains_text(opening_lines(DeployStage::PushImages, images)[0], decimal_text(images)),
{
    law_needle_between_is_contained(
        "[progress] Removed "@,
        decimal_text(removed as nat),
        " stale node(s)"@,
    );
    law_needle_between_is_contained(
        "[progress] Importing "@,
        decimal_text(images),
        " local image(s) into gateway"@,
    );
}

/// The handle of a deployed gateway has the name and the kubeconfig that were asked
/// for and the description that was stored last.
pub proof fn law_handle_is_of_the_described_gateway(
    start: DeployView,
    events: Seq<DeployEvent>,
    handle: ClusterHandle,
)
    requires
        start.stage is Connect,
        deployed_after(start, events) is Some,
        deployed_after(start, events)->Some_0.stage is Done,
        is_handle_of(handle, deployed_after(start, events)->Some_0),
    ensures
        handle.spec_name() == start.options.name,
        handle.spec_kubeconfig_path() == start.kubeconfig_path,
        events.len() > 0,
        events.last() == DeployEvent::Metadata(handle.spec_metadata()),
{
    law_events_are_kept(start, events);
    law_request_is_kept(start, events);
}

/// Every stage but the last can fail, and every stage but the last can end well:
/// with what it was to find out, where it was to find out something.
pub proof fn law_every_stage_can_end(state: DeployView, event: DeployEvent)
    ensures
        !(state.stage is Done) ==> deploy_fits(state, DeployEvent::Failed),
        state.stage is Done ==> !deploy_fits(state, event),
        event is RemoteHost ==> (deploy_fits(state, event) <==> state.stage is ResolveHosts
            && state.options.remote is Some),
        event is LocalHost ==> (deploy_fits(state, event) <==> state.stage is ResolveHosts
            && state.options.remote is None),
        event is Kubeconfig ==> (deploy_fits(state, event) <==> state.stage is AwaitKubeconfig),
        event is StaleNodes ==> (deploy_fits(state, event) <==> state.stage is CleanStaleNodes),
        event is Workload ==> (deploy_fits(state, event) <==> state.stage is CheckWorkload),
        event is Pki ==> (deploy_fits(state, event) <==> state.stage is ReconcilePki),
        event is Metadata ==> (deploy_fits(state, event) <==> state.stage is StoreMetadata),
        event is Succeeded ==> (deploy_fits(state, event) <==> {
            ||| state.stage is Connect
            ||| state.stage is PullImage
            ||| state.stage is EnsureNetwork
            ||| state.stage is EnsureVolume
            ||| state.stage is EnsureContainer
            ||| state.stage is StartContainer
            ||| state.stage is WriteKubeconfig
            ||| state.stage is RestartRotated
            ||| state.stage is StoreCredentials
            ||| state.stage is PushImages
            ||| state.stage is RestartPushed
            ||| state.stage is AwaitReady
        }),
{
}

} // verus!
