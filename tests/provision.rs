use flightctl::{
    cluster_args, cluster_entry, create_auth, create_cluster, create_context, ensure_auth,
    ensure_cluster, prepare, step, Action, Auth, AuthConfig, Cluster, ClusterConfig, Config,
    Context, Entity, Event, Phase, ProvisionError, Release,
};
use std::collections::BTreeSet;

fn s(x: &str) -> String {
    x.to_string()
}

fn prod_config() -> Config {
    Config::new(
        vec![Release { name: s("prod"), context: s("prod-ctx") }],
        vec![Context {
            name: s("prod-ctx"),
            auth: s("admin"),
            cluster: s("prod-eks"),
            namespace: Some(s("default")),
        }],
        vec![Auth { name: s("admin"), config: AuthConfig::AwsSso }],
        vec![Cluster {
            name: s("prod-eks"),
            config: ClusterConfig::Eks { name: s("prod"), region: s("us-east-1") },
        }],
    )
    .expect("names are unique")
}

/// A fake context store and cloud.
struct Fake {
    contexts: BTreeSet<String>,
    auths: BTreeSet<String>,
    clusters: BTreeSet<String>,
    fail_writes: bool,
    cloud: Result<(String, String), String>,
    cloud_calls: usize,
}

impl Fake {
    fn empty() -> Fake {
        Fake {
            contexts: BTreeSet::new(),
            auths: BTreeSet::new(),
            clusters: BTreeSet::new(),
            fail_writes: false,
            cloud: Ok((s("https://prod.example"), s("aGVsbG8="))),
            cloud_calls: 0,
        }
    }

    fn write(&mut self, set: fn(&mut Fake) -> &mut BTreeSet<String>, name: &str) -> Event {
        if self.fail_writes {
            Event::Failed(ProvisionError::Store { message: s("read-only") })
        } else {
            set(self).insert(name.to_string());
            Event::Created
        }
    }

    fn answer(&mut self, action: &Action) -> Event {
        match action {
            Action::CheckContext { name } => Event::Exists(self.contexts.contains(name)),
            Action::CheckAuth { name } => Event::Exists(self.auths.contains(name)),
            Action::CheckCluster { name } => Event::Exists(self.clusters.contains(name)),
            Action::CreateAuth { name, .. } => self.write(|f| &mut f.auths, name),
            Action::CreateCluster { name, .. } => self.write(|f| &mut f.clusters, name),
            Action::CreateContext { name, .. } => self.write(|f| &mut f.contexts, name),
            Action::FetchCluster { .. } => {
                self.cloud_calls += 1;
                match &self.cloud {
                    Ok((endpoint, cert)) => {
                        Event::ClusterDetails { endpoint: endpoint.clone(), cert: cert.clone() }
                    }
                    Err(m) => Event::Failed(ProvisionError::CloudQuery { message: m.clone() }),
                }
            }
            Action::Finish { .. } => unreachable!(),
        }
    }
}

/// Runs the machine to its end; every action taken, the last one the finish.
fn drive(config: &Config, release: &str, world: &mut Fake) -> Vec<Action> {
    let (mut phase, mut action) = prepare(config, &s(release));
    let mut taken = Vec::new();
    loop {
        if let Action::Finish { .. } = action {
            taken.push(action);
            return taken;
        }
        let event = world.answer(&action);
        assert!(phase.accepts(&event));
        taken.push(action);
        let (p, a) = step(config, phase, event);
        phase = p;
        action = a;
    }
}

fn expected_auth_args() -> Vec<String> {
    [
        "--exec-api-version",
        "client.authentication.k8s.io/v1alpha1",
        "--exec-arg",
        "--region",
        "--exec-arg",
        "us-east-1",
        "--exec-arg",
        "eks",
        "--exec-arg",
        "get-token",
        "--exec-arg",
        "--cluster-name",
        "--exec-arg",
        "prod",
        "--exec-command",
        "aws",
        "--exec-env",
        "AWS_PROFILE=admin",
    ]
    .iter()
    .map(|x| x.to_string())
    .collect()
}

fn is_write_or_query(a: &Action) -> bool {
    matches!(
        a,
        Action::CreateAuth { .. }
            | Action::CreateCluster { .. }
            | Action::CreateContext { .. }
            | Action::FetchCluster { .. }
    )
}

#[test]
fn provisions_prod_from_nothing() {
    let config = prod_config();
    let mut world = Fake::empty();
    let actions = drive(&config, "prod", &mut world);
    assert_eq!(
        actions,
        vec![
            Action::CheckContext { name: s("prod-ctx") },
            Action::CheckAuth { name: s("prod-ctx") },
            Action::CreateAuth { name: s("prod-ctx"), args: expected_auth_args() },
            Action::CheckCluster { name: s("prod-eks") },
            Action::FetchCluster { profile: s("admin"), region: s("us-east-1"), cluster: s("prod") },
            Action::CreateCluster {
                name: s("prod-eks"),
                server: s("https://prod.example"),
                ca: b"hello".to_vec(),
            },
            Action::CreateContext {
                name: s("prod-ctx"),
                auth: s("prod-ctx"),
                cluster: s("prod-eks"),
                namespace: Some(s("default")),
            },
            Action::Finish { result: Ok(()) },
        ]
    );
    assert!(world.contexts.contains("prod-ctx"));
    assert!(world.auths.contains("prod-ctx"));
    assert!(world.clusters.contains("prod-eks"));
}

#[test]
fn existing_context_is_noop() {
    let config = prod_config();
    let mut world = Fake::empty();
    world.contexts.insert(s("prod-ctx"));
    let actions = drive(&config, "prod", &mut world);
    assert_eq!(
        actions,
        vec![Action::CheckContext { name: s("prod-ctx") }, Action::Finish { result: Ok(()) }]
    );
    assert_eq!(world.cloud_calls, 0);
}

#[test]
fn second_run_is_noop() {
    let config = prod_config();
    let mut world = Fake::empty();
    drive(&config, "prod", &mut world);
    let again = drive(&config, "prod", &mut world);
    assert_eq!(again.len(), 2);
    assert!(!again.iter().any(is_write_or_query));
    assert_eq!(world.cloud_calls, 1);
}

#[test]
fn resumes_after_auth() {
    let config = prod_config();
    let mut world = Fake::empty();
    world.auths.insert(s("prod-ctx"));
    let actions = drive(&config, "prod", &mut world);
    assert!(!actions.iter().any(|a| matches!(a, Action::CreateAuth { .. })));
    assert!(actions.iter().any(|a| matches!(a, Action::CreateCluster { .. })));
    assert!(actions.iter().any(|a| matches!(a, Action::CreateContext { .. })));
    assert_eq!(actions.last(), Some(&Action::Finish { result: Ok(()) }));
}

#[test]
fn failed_cluster_keeps_auth_and_retries_rest() {
    let config = prod_config();
    let mut world = Fake::empty();
    world.cloud = Err(s("timeout"));
    let first = drive(&config, "prod", &mut world);
    assert_eq!(
        first.last(),
        Some(&Action::Finish {
            result: Err(ProvisionError::CloudQuery { message: s("timeout") })
        })
    );
    assert!(world.auths.contains("prod-ctx"));
    assert!(!world.contexts.contains("prod-ctx"));
    world.cloud = Ok((s("https://prod.example"), s("aGVsbG8=")));
    let second = drive(&config, "prod", &mut world);
    assert!(!second.iter().any(|a| matches!(a, Action::CreateAuth { .. })));
    assert_eq!(second.last(), Some(&Action::Finish { result: Ok(()) }));
}

#[test]
fn context_created_after_dependencies() {
    let config = prod_config();
    let mut world = Fake::empty();
    let (mut phase, mut action) = prepare(&config, &s("prod"));
    while !matches!(action, Action::Finish { .. }) {
        if let Action::CreateContext { auth, cluster, .. } = &action {
            assert!(world.auths.contains(auth));
            assert!(world.clusters.contains(cluster));
        }
        let event = world.answer(&action);
        let (p, a) = step(&config, phase, event);
        phase = p;
        action = a;
    }
}

#[test]
fn unknown_release_fails() {
    let config = prod_config();
    let mut world = Fake::empty();
    let actions = drive(&config, "ghost-release", &mut world);
    assert_eq!(
        actions,
        vec![Action::Finish {
            result: Err(ProvisionError::NotFound {
                entity: Entity::Release,
                name: s("ghost-release"),
                referenced_by: None,
            })
        }]
    );
}

#[test]
fn unknown_context_fails() {
    let config = Config::new(
        vec![Release { name: s("prod"), context: s("nowhere") }],
        vec![],
        vec![],
        vec![],
    )
    .unwrap();
    let actions = drive(&config, "prod", &mut Fake::empty());
    assert_eq!(
        actions.last(),
        Some(&Action::Finish {
            result: Err(ProvisionError::NotFound {
                entity: Entity::Context,
                name: s("nowhere"),
                referenced_by: Some(s("prod")),
            })
        })
    );
    assert_eq!(actions.len(), 2);
}

fn context(auth: &str, cluster: &str) -> Context {
    Context { name: s("ctx"), auth: s(auth), cluster: s(cluster), namespace: None }
}

#[test]
fn unknown_auth_fails() {
    let config = prod_config();
    let (phase, action) = ensure_auth(&config, context("nobody", "prod-eks"), false);
    assert_eq!(phase, Phase::Done);
    assert_eq!(
        action,
        Action::Finish {
            result: Err(ProvisionError::NotFound {
                entity: Entity::Auth,
                name: s("nobody"),
                referenced_by: Some(s("ctx")),
            })
        }
    );
}

#[test]
fn unknown_cluster_fails() {
    let config = prod_config();
    let (_, action) = ensure_cluster(&config, context("admin", "elsewhere"), false);
    assert_eq!(
        action,
        Action::Finish {
            result: Err(ProvisionError::NotFound {
                entity: Entity::Cluster,
                name: s("elsewhere"),
                referenced_by: Some(s("ctx")),
            })
        }
    );
}

#[test]
fn existing_auth_goes_to_cluster() {
    let config = prod_config();
    let (phase, action) = ensure_auth(&config, context("admin", "prod-eks"), true);
    assert_eq!(action, Action::CheckCluster { name: s("prod-eks") });
    assert_eq!(phase, Phase::ClusterCheck { context: context("admin", "prod-eks") });
}

#[test]
fn existing_cluster_creates_context() {
    let config = prod_config();
    let (phase, action) = ensure_cluster(&config, context("admin", "prod-eks"), true);
    assert_eq!(phase, Phase::ContextCreate);
    assert_eq!(
        action,
        Action::CreateContext { name: s("ctx"), auth: s("ctx"), cluster: s("prod-eks"), namespace: None }
    );
}

#[test]
fn invalid_certificate_fails() {
    let (phase, action) = create_cluster(context("admin", "prod-eks"), s("https://x"), &s("not base64!"));
    assert_eq!(phase, Phase::Done);
    assert_eq!(
        action,
        Action::Finish { result: Err(ProvisionError::Decode { cluster: s("prod-eks") }) }
    );
}

#[test]
fn certificate_is_decoded() {
    let (_, action) = create_cluster(context("admin", "prod-eks"), s("https://x"), &s("Y2VydA=="));
    assert_eq!(
        action,
        Action::CreateCluster { name: s("prod-eks"), server: s("https://x"), ca: b"cert".to_vec() }
    );
}

#[test]
fn cluster_entry_from_decoded_bytes() {
    let (phase, action) = cluster_entry(context("a", "c"), s("https://e"), Some(vec![1, 2, 3]));
    assert_eq!(phase, Phase::ClusterCreate { context: context("a", "c") });
    assert_eq!(action, Action::CreateCluster { name: s("c"), server: s("https://e"), ca: vec![1, 2, 3] });
    let (_, failed) = cluster_entry(context("a", "c"), s("https://e"), None);
    assert_eq!(failed, Action::Finish { result: Err(ProvisionError::Decode { cluster: s("c") }) });
}

#[test]
fn outside_failure_is_propagated() {
    let config = prod_config();
    let (phase, _) = prepare(&config, &s("prod"));
    let error = ProvisionError::Store { message: s("locked") };
    let event = Event::Failed(error.clone());
    assert!(phase.accepts(&event));
    let (phase, action) = step(&config, phase, event);
    assert_eq!(phase, Phase::Done);
    assert_eq!(action, Action::Finish { result: Err(error) });
}

#[test]
fn unexpected_answers_are_not_accepted() {
    let config = prod_config();
    let (phase, _) = prepare(&config, &s("prod"));
    assert!(!phase.accepts(&Event::Created));
    assert!(phase.accepts(&Event::Exists(false)));
    assert!(!Phase::Done.accepts(&Event::Exists(true)));
}

#[test]
fn auth_arguments_for_sso_on_eks() {
    let auth = Auth { name: s("admin"), config: AuthConfig::AwsSso };
    let cluster = Cluster {
        name: s("prod-eks"),
        config: ClusterConfig::Eks { name: s("prod"), region: s("us-east-1") },
    };
    assert_eq!(create_auth(&auth, &cluster), Ok(expected_auth_args()));
}

#[test]
fn cluster_arguments() {
    assert_eq!(
        cluster_args(&s("https://e"), &s("/tmp/ca")),
        vec![s("--embed-certs"), s("--server"), s("https://e"), s("--certificate-authority"), s("/tmp/ca")]
    );
}

#[test]
fn context_entry_uses_context_name_for_auth() {
    let c = Context { name: s("n"), auth: s("a"), cluster: s("c"), namespace: Some(s("ns")) };
    assert_eq!(
        create_context(&c),
        Action::CreateContext { name: s("n"), auth: s("n"), cluster: s("c"), namespace: Some(s("ns")) }
    );
}

#[test]
fn duplicate_names_are_refused() {
    let r = Release { name: s("prod"), context: s("x") };
    assert!(Config::new(vec![r.clone(), r], vec![], vec![], vec![]).is_none());
    let a = Auth { name: s("admin"), config: AuthConfig::AwsSso };
    assert!(Config::new(vec![], vec![], vec![a.clone(), a], vec![]).is_none());
    assert!(Config::new(vec![], vec![], vec![], vec![]).is_some());
}

#[test]
fn store_failure_stops_run() {
    let config = prod_config();
    let mut world = Fake::empty();
    world.fail_writes = true;
    let actions = drive(&config, "prod", &mut world);
    assert_eq!(actions.len(), 4);
    assert_eq!(
        actions.last(),
        Some(&Action::Finish { result: Err(ProvisionError::Store { message: s("read-only") }) })
    );
}
