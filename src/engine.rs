use crate::cert::{base64_decoded, decode_base64};
use crate::config::{
    Auth, AuthConfig, Cluster, ClusterConfig, Config, Context, ContextView, Release,
};
use crate::error::{clone_opt, opt_view, Entity, ErrorView, ProvisionError};
use vstd::prelude::*;
use vstd::string::StringExecFns;

verus! {

/// The outside world's answer to the last action.
#[derive(Debug, PartialEq, Eq)]
pub enum Event {
    /// Whether the entry asked about exists in the context store.
    Exists(bool),
    /// The entry was created in the context store.
    Created,
    /// The cloud's live endpoint and base64 certificate authority of a cluster.
    ClusterDetails { endpoint: String, cert: String },
    /// The outside operation failed.
    Failed(ProvisionError),
}

/// What the outside world is asked to do next.
#[derive(Debug, PartialEq, Eq)]
pub enum Action {
    /// Report whether a context entry of that name exists.
    CheckContext { name: String },
    /// Report whether a credential entry of that name exists.
    CheckAuth { name: String },
    /// Report whether a cluster entry of that name exists.
    CheckCluster { name: String },
    /// Create a credential entry with these exec-credential arguments.
    CreateAuth { name: String, args: Vec<String> },
    /// Query the cloud for a managed cluster's endpoint and certificate authority.
    FetchCluster { profile: String, region: String, cluster: String },
    /// Create a cluster entry for this server, with this certificate authority
    /// written to a temporary file for the duration of the call.
    CreateCluster { name: String, server: String, ca: Vec<u8> },
    /// Create a context entry binding a credential entry and a cluster entry.
    CreateContext { name: String, auth: String, cluster: String, namespace: Option<String> },
    /// The run is over, with this outcome.
    Finish { result: Result<(), ProvisionError> },
}

/// Where a provisioning run stands: which answer it waits for.
#[derive(Debug, PartialEq, Eq)]
pub enum Phase {
    /// Waits to learn whether the release's context exists.
    ContextCheck { release: Release },
    /// Waits to learn whether the context's credential entry exists.
    AuthCheck { context: Context },
    /// Waits for the credential entry to be created.
    AuthCreate { context: Context },
    /// Waits to learn whether the context's cluster entry exists.
    ClusterCheck { context: Context },
    /// Waits for the cloud's details of the cluster.
    ClusterFetch { context: Context },
    /// Waits for the cluster entry to be created.
    ClusterCreate { context: Context },
    /// Waits for the context entry to be created.
    ContextCreate,
    /// The run is over.
    Done,
}

/// What an [`Event`] holds, as plain values.
pub enum EventView {
    Exists(bool),
    Created,
    ClusterDetails { endpoint: Seq<char>, cert: Seq<char> },
    Failed(ErrorView),
}

/// What an [`Action`] holds, as plain values.
pub enum ActionView {
    CheckContext { name: Seq<char> },
    CheckAuth { name: Seq<char> },
    CheckCluster { name: Seq<char> },
    CreateAuth { name: Seq<char>, args: Seq<Seq<char>> },
    FetchCluster { profile: Seq<char>, region: Seq<char>, cluster: Seq<char> },
    CreateCluster { name: Seq<char>, server: Seq<char>, ca: Seq<u8> },
    CreateContext {
        name: Seq<char>,
        auth: Seq<char>,
        cluster: Seq<char>,
        namespace: Option<Seq<char>>,
    },
    Finish { result: Result<(), ErrorView> },
}

/// What a [`Phase`] holds, as plain values.
pub enum PhaseView {
    ContextCheck { release: Seq<char>, context: Seq<char> },
    AuthCheck { context: ContextView },
    AuthCreate { context: ContextView },
    ClusterCheck { context: ContextView },
    ClusterFetch { context: ContextView },
    ClusterCreate { context: ContextView },
    ContextCreate,
    Done,
}

/// The text of each string.
pub open spec fn strings_view(v: Seq<String>) -> Seq<Seq<char>> {
    v.map_values(|s: String| s@)
}

/// An outcome, as plain values.
pub open spec fn result_view(r: Result<(), ProvisionError>) -> Result<(), ErrorView> {
    match r {
        Ok(()) => Ok(()),
        Err(e) => Err(e@),
    }
}

impl View for Event {
    type V = EventView;

    open spec fn view(&self) -> EventView {
        match self {
            Event::Exists(b) => EventView::Exists(*b),
            Event::Created => EventView::Created,
            Event::ClusterDetails { endpoint, cert } => EventView::ClusterDetails {
                endpoint: endpoint@,
                cert: cert@,
            },
            Event::Failed(e) => EventView::Failed(e@),
        }
    }
}

impl View for Action {
    type V = ActionView;

    open spec fn view(&self) -> ActionView {
        match self {
            Action::CheckContext { name } => ActionView::CheckContext { name: name@ },
            Action::CheckAuth { name } => ActionView::CheckAuth { name: name@ },
            Action::CheckCluster { name } => ActionView::CheckCluster { name: name@ },
            Action::CreateAuth { name, args } => ActionView::CreateAuth {
                name: name@,
                args: strings_view(args@),
            },
            Action::FetchCluster { profile, region, cluster } => ActionView::FetchCluster {
                profile: profile@,
                region: region@,
                cluster: cluster@,
            },
            Action::CreateCluster { name, server, ca } => ActionView::CreateCluster {
                name: name@,
                server: server@,
                ca: ca@,
            },
            Action::CreateContext { name, auth, cluster, namespace } => ActionView::CreateContext {
                name: name@,
                auth: auth@,
                cluster: cluster@,
                namespace: opt_view(*namespace),
            },
            Action::Finish { result } => ActionView::Finish { result: result_view(*result) },
        }
    }
}

impl View for Phase {
    type V = PhaseView;

    open spec fn view(&self) -> PhaseView {
        match self {
            Phase::ContextCheck { release } => PhaseView::ContextCheck {
                release: release.name@,
                context: release.context@,
            },
            Phase::AuthCheck { context } => PhaseView::AuthCheck { context: context@ },
            Phase::AuthCreate { context } => PhaseView::AuthCreate { context: context@ },
            Phase::ClusterCheck { context } => PhaseView::ClusterCheck { context: context@ },
            Phase::ClusterFetch { context } => PhaseView::ClusterFetch { context: context@ },
            Phase::ClusterCreate { context } => PhaseView::ClusterCreate { context: context@ },
            Phase::ContextCreate => PhaseView::ContextCreate,
            Phase::Done => PhaseView::Done,
        }
    }
}

/// Whether an auth variant and a cluster variant have a credential strategy.
pub open spec fn supported(auth: AuthConfig, cluster: ClusterConfig) -> bool {
    match (auth, cluster) {
        (AuthConfig::AwsSso, ClusterConfig::Eks { .. }) => true,
    }
}

/// The exec-credential arguments that register the cloud CLI token getter for
/// a cloud-SSO profile on a managed cluster.
pub open spec fn sso_eks_args(profile: Seq<char>, name: Seq<char>, region: Seq<char>) -> Seq<Seq<char>> {
    seq![
        "--exec-api-version"@,
        "client.authentication.k8s.io/v1alpha1"@,
        "--exec-arg"@,
        "--region"@,
        "--exec-arg"@,
        region,
        "--exec-arg"@,
        "eks"@,
        "--exec-arg"@,
        "get-token"@,
        "--exec-arg"@,
        "--cluster-name"@,
        "--exec-arg"@,
        name,
        "--exec-command"@,
        "aws"@,
        "--exec-env"@,
        "AWS_PROFILE="@ + profile,
    ]
}

/// The credential arguments for an auth profile on a cluster.
pub open spec fn auth_args_of(auth: Auth, cluster: Cluster) -> Result<Seq<Seq<char>>, ErrorView> {
    match (auth.config, cluster.config) {
        (AuthConfig::AwsSso, ClusterConfig::Eks { name, region }) =>
            Ok(sso_eks_args(auth.name@, name@, region@)),
    }
}

/// The arguments that create a cluster entry for `server`, with the
/// certificate authority at `ca_path` embedded.
pub open spec fn cluster_args_of(server: Seq<char>, ca_path: Seq<char>) -> Seq<Seq<char>> {
    seq!["--embed-certs"@, "--server"@, server, "--certificate-authority"@, ca_path]
}

/// The context entry for `c`: bound to the credential entry named after the
/// context and to the cluster entry named after the cluster.
pub open spec fn context_entry(c: ContextView) -> ActionView {
    ActionView::CreateContext { name: c.name, auth: c.name, cluster: c.cluster, namespace: c.namespace }
}

/// The end of a run with error `e`.
pub open spec fn fail(e: ErrorView) -> (PhaseView, ActionView) {
    (PhaseView::Done, ActionView::Finish { result: Err(e) })
}

/// A missing entry of kind `entity`, named `name`, referred to by `by`.
pub open spec fn not_found(entity: Entity, name: Seq<char>, by: Option<Seq<char>>) -> ErrorView {
    ErrorView::NotFound { entity, name, referenced_by: by }
}

/// The first phase and action of a run for the release named `name`.
pub open spec fn start(cfg: Config, name: Seq<char>) -> (PhaseView, ActionView) {
    match cfg.release_named(name) {
        None => fail(not_found(Entity::Release, name, None)),
        Some(r) => (
            PhaseView::ContextCheck { release: r.name@, context: r.context@ },
            ActionView::CheckContext { name: r.context@ },
        ),
    }
}

/// What follows the answer about the credential entry of context `c`.
pub open spec fn after_auth_check(cfg: Config, c: ContextView, exists: bool) -> (PhaseView, ActionView) {
    if exists {
        (PhaseView::ClusterCheck { context: c }, ActionView::CheckCluster { name: c.cluster })
    } else {
        match cfg.auth_named(c.auth) {
            None => fail(not_found(Entity::Auth, c.auth, Some(c.name))),
            Some(a) => match cfg.cluster_named(c.cluster) {
                None => fail(not_found(Entity::Cluster, c.cluster, Some(c.name))),
                Some(cl) => match auth_args_of(a, cl) {
                    Err(e) => fail(e),
                    Ok(args) => (
                        PhaseView::AuthCreate { context: c },
                        ActionView::CreateAuth { name: c.name, args },
                    ),
                },
            },
        }
    }
}

/// What follows the answer about the cluster entry of context `c`.
pub open spec fn after_cluster_check(cfg: Config, c: ContextView, exists: bool) -> (PhaseView, ActionView) {
    if exists {
        (PhaseView::ContextCreate, context_entry(c))
    } else {
        match cfg.cluster_named(c.cluster) {
            None => fail(not_found(Entity::Cluster, c.cluster, Some(c.name))),
            Some(cl) => match cfg.auth_named(c.auth) {
                None => fail(not_found(Entity::Auth, c.auth, Some(c.name))),
                Some(a) => match cl.config {
                    ClusterConfig::Eks { name, region } => (
                        PhaseView::ClusterFetch { context: c },
                        ActionView::FetchCluster { profile: a.name@, region: region@, cluster: name@ },
                    ),
                },
            },
        }
    }
}

/// What follows the cloud's details of the cluster of context `c`, given the
/// certificate authority as decoded (`None` where it was not valid base64).
pub open spec fn after_details(c: ContextView, endpoint: Seq<char>, ca: Option<Seq<u8>>) -> (PhaseView, ActionView) {
    match ca {
        None => fail(ErrorView::Decode { cluster: c.cluster }),
        Some(bytes) => (
            PhaseView::ClusterCreate { context: c },
            ActionView::CreateCluster { name: c.cluster, server: endpoint, ca: bytes },
        ),
    }
}

/// Whether `e` is an answer that phase `p` waits for.
pub open spec fn awaits(p: PhaseView, e: EventView) -> bool {
    match (p, e) {
        (PhaseView::Done, _) => false,
        (_, EventView::Failed(_)) => true,
        (PhaseView::ContextCheck { .. }, EventView::Exists(_)) => true,
        (PhaseView::AuthCheck { .. }, EventView::Exists(_)) => true,
        (PhaseView::ClusterCheck { .. }, EventView::Exists(_)) => true,
        (PhaseView::AuthCreate { .. }, EventView::Created) => true,
        (PhaseView::ClusterCreate { .. }, EventView::Created) => true,
        (PhaseView::ContextCreate, EventView::Created) => true,
        (PhaseView::ClusterFetch { .. }, EventView::ClusterDetails { .. }) => true,
        _ => false,
    }
}

/// The next phase and action, from phase `p` and the answer `e` it waited for.
/// A failure reported from outside ends the run with that very error. An
/// answer that the phase does not wait for ends the run (see [`awaits`]).
pub open spec fn next(cfg: Config, p: PhaseView, e: EventView) -> (PhaseView, ActionView) {
    match e {
        EventView::Failed(err) => fail(err),
        _ => match p {
            PhaseView::ContextCheck { release, context } => match e {
                EventView::Exists(true) => (PhaseView::Done, ActionView::Finish { result: Ok(()) }),
                _ => match cfg.context_named(context) {
                    None => fail(not_found(Entity::Context, context, Some(release))),
                    Some(c) => (
                        PhaseView::AuthCheck { context: c@ },
                        ActionView::CheckAuth { name: c.name@ },
                    ),
                },
            },
            PhaseView::AuthCheck { context } => after_auth_check(cfg, context, e == EventView::Exists(true)),
            PhaseView::AuthCreate { context } => (
                PhaseView::ClusterCheck { context },
                ActionView::CheckCluster { name: context.cluster },
            ),
            PhaseView::ClusterCheck { context } => after_cluster_check(cfg, context, e == EventView::Exists(true)),
            PhaseView::ClusterFetch { context } => match e {
                EventView::ClusterDetails { endpoint, cert } =>
                    after_details(context, endpoint, base64_decoded(cert)),
                _ => (PhaseView::Done, ActionView::Finish { result: Ok(()) }),
            },
            PhaseView::ClusterCreate { context } => (PhaseView::ContextCreate, context_entry(context)),
            _ => (PhaseView::Done, ActionView::Finish { result: Ok(()) }),
        },
    }
}

/// Optional bytes, as plain values.
pub open spec fn bytes_view(o: Option<Vec<u8>>) -> Option<Seq<u8>> {
    match o {
        Some(v) => Some(v@),
        None => None,
    }
}

/// The exec-credential arguments under which the context store registers a
/// credential entry for `auth` on `cluster`. Fails with
/// `UnsupportedCombination` exactly where the pairing has no strategy.
pub fn create_auth(auth: &Auth, cluster: &Cluster) -> (r: Result<Vec<String>, ProvisionError>)
    ensures
        r is Err <==> !supported(auth.config, cluster.config),
        r matches Ok(v) ==> auth_args_of(*auth, *cluster) == Ok::<Seq<Seq<char>>, ErrorView>(strings_view(v@)),
        r matches Err(e) ==> auth_args_of(*auth, *cluster) == Err::<Seq<Seq<char>>, ErrorView>(e@)
            && e@ == (ErrorView::UnsupportedCombination { auth: auth.name@, cluster: cluster.name@ }),
{
    match auth.config {
        AuthConfig::AwsSso => match &cluster.config {
            ClusterConfig::Eks { name, region } => {
                let mut args: Vec<String> = Vec::new();
                args.push(String::from_str("--exec-api-version"));
                args.push(String::from_str("client.authentication.k8s.io/v1alpha1"));
                args.push(String::from_str("--exec-arg"));
                args.push(String::from_str("--region"));
                args.push(String::from_str("--exec-arg"));
                args.push(region.clone());
                args.push(String::from_str("--exec-arg"));
                args.push(String::from_str("eks"));
                args.push(String::from_str("--exec-arg"));
                args.push(String::from_str("get-token"));
                args.push(String::from_str("--exec-arg"));
                args.push(String::from_str("--cluster-name"));
                args.push(String::from_str("--exec-arg"));
                args.push(name.clone());
                args.push(String::from_str("--exec-command"));
                args.push(String::from_str("aws"));
                args.push(String::from_str("--exec-env"));
                args.push(String::from_str("AWS_PROFILE=").concat(auth.name.as_str()));
                assert(strings_view(args@) =~= sso_eks_args(auth.name@, name@, region@));
                Ok(args)
            },
        },
    }
}

/// The arguments under which the context store creates a cluster entry for
/// `server`, embedding the certificate authority found at `ca_path`.
pub fn cluster_args(server: &String, ca_path: &String) -> (r: Vec<String>)
    ensures
        strings_view(r@) == cluster_args_of(server@, ca_path@),
{
    let mut args: Vec<String> = Vec::new();
    args.push(String::from_str("--embed-certs"));
    args.push(String::from_str("--server"));
    args.push(server.clone());
    args.push(String::from_str("--certificate-authority"));
    args.push(ca_path.clone());
    assert(strings_view(args@) =~= cluster_args_of(server@, ca_path@));
    args
}

/// The action that creates the context entry of `context`.
pub fn create_context(context: &Context) -> (r: Action)
    ensures
        r@ == context_entry(context@),
{
    Action::CreateContext {
        name: context.name.clone(),
        auth: context.name.clone(),
        cluster: context.cluster.clone(),
        namespace: clone_opt(&context.namespace),
    }
}

fn finish_with(e: ProvisionError) -> (r: (Phase, Action))
    ensures
        (r.0@, r.1@) == fail(e@),
{
    (Phase::Done, Action::Finish { result: Err(e) })
}

fn finish_ok() -> (r: (Phase, Action))
    ensures
        r.0@ == PhaseView::Done,
        r.1@ == (ActionView::Finish { result: Ok(()) }),
{
    (Phase::Done, Action::Finish { result: Ok(()) })
}

/// Starts provisioning the release named `release_name`: the first action
/// asks whether its context exists. Fails with `NotFound` citing the name
/// where no release has it.
pub fn prepare(config: &Config, release_name: &String) -> (r: (Phase, Action))
    requires
        config.wf(),
    ensures
        (r.0@, r.1@) == start(*config, release_name@),
{
    match config.find_release(release_name) {
        Err(e) => finish_with(e),
        Ok(release) => {
            let name = release.context.clone();
            let release = Release { name: release.name.clone(), context: release.context.clone() };
            (Phase::ContextCheck { release }, Action::CheckContext { name })
        },
    }
}

/// The decision once the store has said whether the context's credential
/// entry exists: go on to the cluster, or resolve the auth profile and the
/// cluster and create the entry.
pub fn ensure_auth(config: &Config, context: Context, exists: bool) -> (r: (Phase, Action))
    requires
        config.wf(),
    ensures
        (r.0@, r.1@) == after_auth_check(*config, context@, exists),
{
    if exists {
        let name = context.cluster.clone();
        return (Phase::ClusterCheck { context }, Action::CheckCluster { name });
    }
    let auth = match config.find_auth(&context) {
        Ok(a) => a,
        Err(e) => return finish_with(e),
    };
    let cluster = match config.find_cluster(&context) {
        Ok(c) => c,
        Err(e) => return finish_with(e),
    };
    match create_auth(auth, cluster) {
        Err(e) => finish_with(e),
        Ok(args) => {
            let name = context.name.clone();
            (Phase::AuthCreate { context }, Action::CreateAuth { name, args })
        },
    }
}

/// The decision once the store has said whether the context's cluster entry
/// exists: create the context, or resolve the cluster and the auth profile
/// and ask the cloud for the cluster's details.
pub fn ensure_cluster(config: &Config, context: Context, exists: bool) -> (r: (Phase, Action))
    requires
        config.wf(),
    ensures
        (r.0@, r.1@) == after_cluster_check(*config, context@, exists),
{
    if exists {
        let action = create_context(&context);
        return (Phase::ContextCreate, action);
    }
    let cluster = match config.find_cluster(&context) {
        Ok(c) => c,
        Err(e) => return finish_with(e),
    };
    let auth = match config.find_auth(&context) {
        Ok(a) => a,
        Err(e) => return finish_with(e),
    };
    match &cluster.config {
        ClusterConfig::Eks { name, region } => {
            let action = Action::FetchCluster {
                profile: auth.name.clone(),
                region: region.clone(),
                cluster: name.clone(),
            };
            (Phase::ClusterFetch { context }, action)
        },
    }
}

/// The decision once the certificate authority of the context's cluster has
/// been decoded (`None` where it was not valid base64): create the cluster
/// entry, or fail with `Decode`.
pub fn cluster_entry(context: Context, endpoint: String, ca: Option<Vec<u8>>) -> (r: (Phase, Action))
    ensures
        (r.0@, r.1@) == after_details(context@, endpoint@, bytes_view(ca)),
{
    match ca {
        None => finish_with(ProvisionError::Decode { cluster: context.cluster.clone() }),
        Some(bytes) => {
            let name = context.cluster.clone();
            (Phase::ClusterCreate { context }, Action::CreateCluster { name, server: endpoint, ca: bytes })
        },
    }
}

/// The decision once the cloud has returned the cluster's endpoint and
/// base64 certificate authority.
pub fn create_cluster(context: Context, endpoint: String, cert: &String) -> (r: (Phase, Action))
    ensures
        (r.0@, r.1@) == after_details(context@, endpoint@, base64_decoded(cert@)),
{
    match decode_base64(cert) {
        Ok(ca) => cluster_entry(context, endpoint, Some(ca)),
        Err(_) => cluster_entry(context, endpoint, None),
    }
}

/// The decision once the store has said whether the release's context exists.
fn context_checked(config: &Config, release: &Release, exists: bool) -> (r: (Phase, Action))
    requires
        config.wf(),
    ensures
        (r.0@, r.1@) == next(
            *config,
            PhaseView::ContextCheck { release: release.name@, context: release.context@ },
            EventView::Exists(exists),
        ),
{
    if exists {
        return finish_ok();
    }
    match config.find_context(release) {
        Err(e) => finish_with(e),
        Ok(c) => {
            let name = c.name.clone();
            (Phase::AuthCheck { context: c.duplicate() }, Action::CheckAuth { name })
        },
    }
}

impl Phase {
    /// Whether `event` is an answer that this phase waits for.
    pub fn accepts(&self, event: &Event) -> (r: bool)
        ensures
            r == awaits(self@, event@),
    {
        match (self, event) {
            (Phase::Done, _) => false,
            (_, Event::Failed(_)) => true,
            (Phase::ContextCheck { .. }, Event::Exists(_)) => true,
            (Phase::AuthCheck { .. }, Event::Exists(_)) => true,
            (Phase::ClusterCheck { .. }, Event::Exists(_)) => true,
            (Phase::AuthCreate { .. }, Event::Created) => true,
            (Phase::ClusterCreate { .. }, Event::Created) => true,
            (Phase::ContextCreate, Event::Created) => true,
            (Phase::ClusterFetch { .. }, Event::ClusterDetails { .. }) => true,
            _ => false,
        }
    }
}

/// Advances a run: from the phase and the answer it waited for, the next
/// phase and the next action. A failure reported from outside ends the run
/// with that error, unchanged.
pub fn step(config: &Config, phase: Phase, event: Event) -> (r: (Phase, Action))
    requires
        config.wf(),
        awaits(phase@, event@),
    ensures
        (r.0@, r.1@) == next(*config, phase@, event@),
{
    match event {
        Event::Failed(e) => finish_with(e),
        Event::Exists(b) => match phase {
            Phase::ContextCheck { release } => context_checked(config, &release, b),
            Phase::AuthCheck { context } => ensure_auth(config, context, b),
            Phase::ClusterCheck { context } => ensure_cluster(config, context, b),
            _ => finish_ok(),
        },
        Event::Created => match phase {
            Phase::AuthCreate { context } => {
                let name = context.cluster.clone();
                (Phase::ClusterCheck { context }, Action::CheckCluster { name })
            },
            Phase::ClusterCreate { context } => {
                let action = create_context(&context);
                (Phase::ContextCreate, action)
            },
            _ => finish_ok(),
        },
        Event::ClusterDetails { endpoint, cert } => match phase {
            Phase::ClusterFetch { context } => create_cluster(context, endpoint, &cert),
            _ => finish_ok(),
        },
    }
}

} // verus!
