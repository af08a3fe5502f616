//! A model of whole provisioning runs, and the laws that every run obeys.
use crate::cert::base64_decoded;
use crate::config::{context_names, contains_name, index_of, Config, Context};
use crate::engine::{awaits, context_entry, next, start, ActionView, EventView, PhaseView};
use crate::error::{Entity, ErrorView};
use vstd::prelude::*;

verus! {

/// A context store and a cloud that answer every question the same way.
pub struct World {
    /// Names of the context entries in the store.
    pub contexts: Set<Seq<char>>,
    /// Names of the credential entries in the store.
    pub auths: Set<Seq<char>>,
    /// Names of the cluster entries in the store.
    pub clusters: Set<Seq<char>>,
    /// `None` where every creation succeeds; else the message with which
    /// every creation fails.
    pub store_failure: Option<Seq<char>>,
    /// The cloud's answer to every cluster query: endpoint and base64
    /// certificate authority, or the message of its failure.
    pub cloud: Result<(Seq<char>, Seq<char>), Seq<char>>,
}

/// How the world answers action `a`, and what it looks like afterwards.
pub open spec fn respond(w: World, a: ActionView) -> (World, EventView) {
    match a {
        ActionView::CheckContext { name } => (w, EventView::Exists(w.contexts.contains(name))),
        ActionView::CheckAuth { name } => (w, EventView::Exists(w.auths.contains(name))),
        ActionView::CheckCluster { name } => (w, EventView::Exists(w.clusters.contains(name))),
        ActionView::FetchCluster { .. } => match w.cloud {
            Ok((endpoint, cert)) => (w, EventView::ClusterDetails { endpoint, cert }),
            Err(message) => (w, EventView::Failed(ErrorView::CloudQuery { message })),
        },
        ActionView::Finish { .. } => (w, EventView::Created),
        _ => match w.store_failure {
            Some(message) => (w, EventView::Failed(ErrorView::Store { message })),
            None => match a {
                ActionView::CreateAuth { name, .. } => (World { auths: w.auths.insert(name), ..w }, EventView::Created),
                ActionView::CreateCluster { name, .. } => (World { clusters: w.clusters.insert(name), ..w }, EventView::Created),
                ActionView::CreateContext { name, .. } => (World { contexts: w.contexts.insert(name), ..w }, EventView::Created),
                _ => (w, EventView::Created),
            },
        },
    }
}

/// The actions of a run from phase `p` with pending action `a`, each with the
/// world as it stands when the action is taken; at most `fuel` answers long.
pub open spec fn run(cfg: Config, p: PhaseView, a: ActionView, w: World, fuel: nat) -> Seq<(ActionView, World)>
    decreases fuel,
{
    if fuel == 0 || a is Finish {
        seq![(a, w)]
    } else {
        let (w2, e) = respond(w, a);
        let (p2, a2) = next(cfg, p, e);
        seq![(a, w)] + run(cfg, p2, a2, w2, (fuel - 1) as nat)
    }
}

/// The whole run that provisions the release named `name` against `w`.
pub open spec fn trace(cfg: Config, name: Seq<char>, w: World) -> Seq<(ActionView, World)> {
    run(cfg, start(cfg, name).0, start(cfg, name).1, w, 8)
}

/// Whether `a` changes the store or queries the cloud.
pub open spec fn is_write_or_query(a: ActionView) -> bool {
    a is CreateAuth || a is CreateCluster || a is CreateContext || a is FetchCluster
}

/// The context that the release named `name` points at, where both exist.
pub open spec fn context_of(cfg: Config, name: Seq<char>) -> Option<Context> {
    match cfg.release_named(name) {
        Some(r) => cfg.context_named(r.context@),
        None => None,
    }
}

/// A release whose context already exists in the store is a no-op: the run
/// asks one question, then succeeds, without a write or a cloud query.
pub proof fn lemma_existing_context_is_noop(cfg: Config, name: Seq<char>, w: World)
    requires
        cfg.wf(),
        cfg.release_named(name) is Some,
        w.contexts.contains(cfg.release_named(name).unwrap().context@),
    ensures
        trace(cfg, name, w) == seq![
            (ActionView::CheckContext { name: cfg.release_named(name).unwrap().context@ }, w),
            (ActionView::Finish { result: Ok(()) }, w),
        ],
        forall|i: int| 0 <= i < trace(cfg, name, w).len() ==> !is_write_or_query(#[trigger] trace(cfg, name, w)[i].0),
{
    reveal_with_fuel(run, 3);
    assert(trace(cfg, name, w) =~= seq![
        (ActionView::CheckContext { name: cfg.release_named(name).unwrap().context@ }, w),
        (ActionView::Finish { result: Ok(()) }, w),
    ]);
}

/// A release that does not exist fails at once with `NotFound` citing its
/// name, before any question or write.
pub proof fn lemma_unknown_release_fails(cfg: Config, name: Seq<char>, w: World)
    requires
        cfg.wf(),
        cfg.release_named(name) is None,
    ensures
        trace(cfg, name, w) == seq![(
            ActionView::Finish {
                result: Err(ErrorView::NotFound { entity: Entity::Release, name, referenced_by: None }),
            },
            w,
        )],
{
    reveal_with_fuel(run, 2);
    assert(trace(cfg, name, w) =~= seq![(
        ActionView::Finish {
            result: Err(ErrorView::NotFound { entity: Entity::Release, name, referenced_by: None }),
        },
        w,
    )]);
}

/// Whether, where `a` creates a context entry, the credential entry and the
/// cluster entry that it refers to are already in the store.
pub open spec fn dependencies_ready(a: ActionView, w: World) -> bool {
    a matches ActionView::CreateContext { auth, cluster, .. } ==> w.auths.contains(auth)
        && w.clusters.contains(cluster)
}

/// What holds at every point of a run: the pending action fits the phase,
/// and from the cluster steps on the context's credential entry exists.
pub open spec fn run_inv(p: PhaseView, a: ActionView, w: World) -> bool {
    &&& dependencies_ready(a, w)
    &&& match p {
        PhaseView::AuthCheck { context } => a == ActionView::CheckAuth { name: context.name },
        PhaseView::AuthCreate { context } => a matches ActionView::CreateAuth { name, .. } && name
            == context.name,
        PhaseView::ClusterCheck { context } => a == ActionView::CheckCluster { name: context.cluster }
            && w.auths.contains(context.name),
        PhaseView::ClusterFetch { context } => w.auths.contains(context.name),
        PhaseView::ClusterCreate { context } => a matches ActionView::CreateCluster { name, .. }
            && name == context.cluster && w.auths.contains(context.name),
        _ => true,
    }
}

proof fn lemma_run_dependencies(cfg: Config, p: PhaseView, a: ActionView, w: World, fuel: nat)
    requires
        run_inv(p, a, w),
    ensures
        forall|i: int| 0 <= i < run(cfg, p, a, w, fuel).len()
            ==> dependencies_ready(#[trigger] run(cfg, p, a, w, fuel)[i].0, run(cfg, p, a, w, fuel)[i].1),
    decreases fuel,
{
    if fuel == 0 || a is Finish {
    } else {
        let (w2, e) = respond(w, a);
        let (p2, a2) = next(cfg, p, e);
        assert(run_inv(p2, a2, w2));
        lemma_run_dependencies(cfg, p2, a2, w2, (fuel - 1) as nat);
        let rest = run(cfg, p2, a2, w2, (fuel - 1) as nat);
        let all = run(cfg, p, a, w, fuel);
        assert(all == seq![(a, w)] + rest);
        assert forall|i: int| 0 <= i < all.len() implies dependencies_ready(#[trigger] all[i].0, all[i].1) by {
            if i > 0 {
                assert(all[i] == rest[i - 1]);
            }
        }
    }
}

/// A context entry is only ever created once the credential entry and the
/// cluster entry that it refers to exist in the store.
pub proof fn lemma_context_created_last(cfg: Config, name: Seq<char>, w: World)
    requires
        cfg.wf(),
    ensures
        forall|i: int| 0 <= i < trace(cfg, name, w).len()
            ==> dependencies_ready(#[trigger] trace(cfg, name, w)[i].0, trace(cfg, name, w)[i].1),
{
    lemma_run_dependencies(cfg, start(cfg, name).0, start(cfg, name).1, w, 8);
}

/// Where the credential entry survives from an earlier run but the cluster
/// entry does not, a run creates only the cluster entry and the context
/// entry, and succeeds.
pub proof fn lemma_resumes_after_auth(cfg: Config, name: Seq<char>, w: World)
    requires
        cfg.wf(),
        context_of(cfg, name) is Some,
        cfg.auth_named(context_of(cfg, name).unwrap().auth@) is Some,
        cfg.cluster_named(context_of(cfg, name).unwrap().cluster@) is Some,
        !w.contexts.contains(context_of(cfg, name).unwrap().name@),
        w.auths.contains(context_of(cfg, name).unwrap().name@),
        !w.clusters.contains(context_of(cfg, name).unwrap().cluster@),
        w.store_failure is None,
        w.cloud is Ok,
        base64_decoded(w.cloud->Ok_0.1) is Some,
    ensures
        trace(cfg, name, w).len() == 7,
        forall|i: int| 0 <= i < 7 ==> !(#[trigger] trace(cfg, name, w)[i].0 is CreateAuth),
        trace(cfg, name, w)[4].0 == (ActionView::CreateCluster {
            name: context_of(cfg, name).unwrap().cluster@,
            server: w.cloud->Ok_0.0,
            ca: base64_decoded(w.cloud->Ok_0.1).unwrap(),
        }),
        trace(cfg, name, w)[5].0 == context_entry(context_of(cfg, name).unwrap()@),
        trace(cfg, name, w)[6].0 == (ActionView::Finish { result: Ok(()) }),
{
    let r = cfg.release_named(name).unwrap();
    let c = context_of(cfg, name).unwrap();
    assert(c.name@ == r.context@);
    reveal_with_fuel(run, 8);
}

/// What holds at every point of a run for the context named `target`: the
/// pending action fits the phase, and a success is only reported once the
/// context entry exists.
pub open spec fn success_inv(p: PhaseView, a: ActionView, w: World, target: Seq<char>) -> bool {
    &&& (a == ActionView::Finish { result: Ok(()) } ==> w.contexts.contains(target))
    &&& match p {
        PhaseView::ContextCheck { context, .. } => context == target && a
            == ActionView::CheckContext { name: target },
        PhaseView::AuthCheck { context } => context.name == target && a
            == ActionView::CheckAuth { name: target },
        PhaseView::AuthCreate { context } => context.name == target && a is CreateAuth,
        PhaseView::ClusterCheck { context } => context.name == target && a
            == ActionView::CheckCluster { name: context.cluster },
        PhaseView::ClusterFetch { context } => context.name == target && a is FetchCluster,
        PhaseView::ClusterCreate { context } => context.name == target && a is CreateCluster,
        PhaseView::ContextCreate => a matches ActionView::CreateContext { name, .. } && name == target,
        PhaseView::Done => a is Finish,
    }
}

proof fn lemma_run_success(cfg: Config, p: PhaseView, a: ActionView, w: World, fuel: nat, target: Seq<char>)
    requires
        cfg.wf(),
        success_inv(p, a, w, target),
    ensures
        forall|i: int| 0 <= i < run(cfg, p, a, w, fuel).len()
            && #[trigger] run(cfg, p, a, w, fuel)[i].0 == (ActionView::Finish { result: Ok(()) })
            ==> run(cfg, p, a, w, fuel)[i].1.contexts.contains(target),
    decreases fuel,
{
    if fuel == 0 || a is Finish {
    } else {
        let (w2, e) = respond(w, a);
        let (p2, a2) = next(cfg, p, e);
        if p is ContextCheck && e == EventView::Exists(false) {
            let names = context_names(cfg.contexts@);
            if contains_name(names, target) {
                let j = index_of(names, target);
                assert(names[j] == target);
            }
        }
        assert(success_inv(p2, a2, w2, target));
        lemma_run_success(cfg, p2, a2, w2, (fuel - 1) as nat, target);
        let rest = run(cfg, p2, a2, w2, (fuel - 1) as nat);
        let all = run(cfg, p, a, w, fuel);
        assert(all == seq![(a, w)] + rest);
        assert forall|i: int| 0 <= i < all.len() && #[trigger] all[i].0
            == (ActionView::Finish { result: Ok(()) }) implies all[i].1.contexts.contains(target) by {
            if i > 0 {
                assert(all[i] == rest[i - 1]);
            }
        }
    }
}

/// Provisioning is idempotent: once a run has succeeded, a second run for the
/// same release against the store it left asks one question and succeeds,
/// without a write or a cloud query.
pub proof fn lemma_second_run_is_noop(cfg: Config, name: Seq<char>, w: World)
    requires
        cfg.wf(),
        trace(cfg, name, w).last().0 == (ActionView::Finish { result: Ok(()) }),
    ensures
        cfg.release_named(name) is Some,
        trace(cfg, name, trace(cfg, name, w).last().1) == seq![
            (ActionView::CheckContext { name: cfg.release_named(name).unwrap().context@ },
                trace(cfg, name, w).last().1),
            (ActionView::Finish { result: Ok(()) }, trace(cfg, name, w).last().1),
        ],
{
    if cfg.release_named(name) is None {
        lemma_unknown_release_fails(cfg, name, w);
    } else {
        let target = cfg.release_named(name).unwrap().context@;
        let t = trace(cfg, name, w);
        reveal_with_fuel(run, 1);
        assert(t.len() > 0);
        lemma_run_success(cfg, start(cfg, name).0, start(cfg, name).1, w, 8, target);
        assert(t[t.len() - 1].0 == ActionView::Finish { result: Ok(()) });
        lemma_existing_context_is_noop(cfg, name, t.last().1);
    }
}

/// How many answers a phase is at most away from the end of its run.
pub open spec fn remaining(p: PhaseView) -> nat {
    match p {
        PhaseView::ContextCheck { .. } => 7,
        PhaseView::AuthCheck { .. } => 6,
        PhaseView::AuthCreate { .. } => 5,
        PhaseView::ClusterCheck { .. } => 4,
        PhaseView::ClusterFetch { .. } => 3,
        PhaseView::ClusterCreate { .. } => 2,
        PhaseView::ContextCreate => 1,
        PhaseView::Done => 0,
    }
}

/// The world's answer to a pending action is one that the phase waits for,
/// so the executable step may always be taken on it.
pub proof fn lemma_answer_awaited(p: PhaseView, a: ActionView, w: World, target: Seq<char>)
    requires
        success_inv(p, a, w, target),
        !(a is Finish),
    ensures
        awaits(p, respond(w, a).1),
{
}

proof fn lemma_run_finishes(cfg: Config, p: PhaseView, a: ActionView, w: World, fuel: nat, target: Seq<char>)
    requires
        cfg.wf(),
        success_inv(p, a, w, target),
        remaining(p) <= fuel,
    ensures
        run(cfg, p, a, w, fuel).last().0 is Finish,
    decreases fuel,
{
    if a is Finish {
    } else {
        let (w2, e) = respond(w, a);
        let (p2, a2) = next(cfg, p, e);
        if p is ContextCheck && e == EventView::Exists(false) {
            let names = context_names(cfg.contexts@);
            if contains_name(names, target) {
                let j = index_of(names, target);
                assert(names[j] == target);
            }
        }
        assert(success_inv(p2, a2, w2, target));
        assert(remaining(p2) < remaining(p));
        lemma_run_finishes(cfg, p2, a2, w2, (fuel - 1) as nat, target);
        let rest = run(cfg, p2, a2, w2, (fuel - 1) as nat);
        assert(run(cfg, p, a, w, fuel) == seq![(a, w)] + rest);
    }
}

/// Every run ends with an outcome: its last action is the finish.
pub proof fn lemma_every_run_finishes(cfg: Config, name: Seq<char>, w: World)
    requires
        cfg.wf(),
    ensures
        trace(cfg, name, w).last().0 is Finish,
{
    let target = match cfg.release_named(name) {
        Some(r) => r.context@,
        None => name,
    };
    lemma_run_finishes(cfg, start(cfg, name).0, start(cfg, name).1, w, 8, target);
}

} // verus!
