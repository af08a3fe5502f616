use crate::error::{clone_opt, opt_view, Entity, ErrorView, ProvisionError};
use vstd::prelude::*;

verus! {

/// A target environment, pointing at the Kubernetes context it maps to.
#[derive(Debug, Clone, PartialEq, Eq)]
pub struct Release {
    pub name: String,
    pub context: String,
}

/// A named binding of one auth profile, one cluster and an optional namespace.
#[derive(Debug, Clone, PartialEq, Eq)]
pub struct Context {
    pub name: String,
    pub auth: String,
    pub cluster: String,
    pub namespace: Option<String>,
}

/// What a [`Context`] holds, as plain values.
pub struct ContextView {
    pub name: Seq<char>,
    pub auth: Seq<char>,
    pub cluster: Seq<char>,
    pub namespace: Option<Seq<char>>,
}

impl View for Context {
    type V = ContextView;

    open spec fn view(&self) -> ContextView {
        ContextView {
            name: self.name@,
            auth: self.auth@,
            cluster: self.cluster@,
            namespace: opt_view(self.namespace),
        }
    }
}

impl Context {
    /// A copy of the context that holds the same values.
    pub fn duplicate(&self) -> (r: Context)
        ensures
            r@ == self@,
    {
        Context {
            name: self.name.clone(),
            auth: self.auth.clone(),
            cluster: self.cluster.clone(),
            namespace: clone_opt(&self.namespace),
        }
    }
}

/// How an auth profile obtains credentials.
#[derive(Debug, Clone, Copy, PartialEq, Eq, Structural)]
pub enum AuthConfig {
    /// A cloud single-sign-on profile; the auth's name is the cloud profile.
    AwsSso,
}

/// A named credential profile.
#[derive(Debug, Clone, PartialEq, Eq)]
pub struct Auth {
    pub name: String,
    pub config: AuthConfig,
}

/// Where a cluster lives and how to reach it.
#[derive(Debug, Clone, PartialEq, Eq)]
pub enum ClusterConfig {
    /// A managed cloud cluster, by its cloud name and region.
    Eks { name: String, region: String },
}

/// A named cluster entry.
#[derive(Debug, Clone, PartialEq, Eq)]
pub struct Cluster {
    pub name: String,
    pub config: ClusterConfig,
}

/// The configuration: releases, contexts, auth profiles and clusters.
#[derive(Debug, Clone, PartialEq, Eq)]
pub struct Config {
    pub releases: Vec<Release>,
    pub contexts: Vec<Context>,
    pub auths: Vec<Auth>,
    pub clusters: Vec<Cluster>,
}

/// The names of the releases.
pub open spec fn release_names(s: Seq<Release>) -> Seq<Seq<char>> {
    s.map_values(|r: Release| r.name@)
}

/// The names of the contexts.
pub open spec fn context_names(s: Seq<Context>) -> Seq<Seq<char>> {
    s.map_values(|c: Context| c.name@)
}

/// The names of the auth profiles.
pub open spec fn auth_names(s: Seq<Auth>) -> Seq<Seq<char>> {
    s.map_values(|a: Auth| a.name@)
}

/// The names of the clusters.
pub open spec fn cluster_names(s: Seq<Cluster>) -> Seq<Seq<char>> {
    s.map_values(|c: Cluster| c.name@)
}

/// No name occurs twice.
pub open spec fn unique(names: Seq<Seq<char>>) -> bool {
    forall|i: int, j: int|
        0 <= i < names.len() && 0 <= j < names.len() && names[i] == names[j] ==> i == j
}

/// The position of `name`, where it occurs.
pub open spec fn index_of(names: Seq<Seq<char>>, name: Seq<char>) -> int {
    choose|i: int| 0 <= i < names.len() && names[i] == name
}

/// Whether `name` occurs.
pub open spec fn contains_name(names: Seq<Seq<char>>, name: Seq<char>) -> bool {
    exists|i: int| 0 <= i < names.len() && names[i] == name
}

/// Whether no name occurs twice in `names`.
fn all_unique(names: &Vec<String>) -> (r: bool)
    ensures
        r == unique(names@.map_values(|s: String| s@)),
{
    let ghost v = names@.map_values(|s: String| s@);
    let mut i: usize = 0;
    while i < names.len()
        invariant
            v == names@.map_values(|s: String| s@),
            i <= names.len(),
            forall|a: int, b: int| 0 <= a < i && 0 <= b < v.len() && v[a] == v[b] ==> a == b,
        decreases names.len() - i,
    {
        let mut j: usize = 0;
        while j < names.len()
            invariant
                v == names@.map_values(|s: String| s@),
                i < names.len(),
                j <= names.len(),
                forall|a: int, b: int| 0 <= a < i && 0 <= b < v.len() && v[a] == v[b] ==> a == b,
                forall|b: int| 0 <= b < j && v[i as int] == v[b] ==> i == b,
            decreases names.len() - j,
        {
            if j != i && names[i] == names[j] {
                assert(v[i as int] == v[j as int]);
                return false;
            }
            j = j + 1;
        }
        i = i + 1;
    }
    true
}

impl Config {
    /// Well formed: the names of each kind of entry are unique.
    pub open spec fn wf(&self) -> bool {
        &&& unique(release_names(self.releases@))
        &&& unique(context_names(self.contexts@))
        &&& unique(auth_names(self.auths@))
        &&& unique(cluster_names(self.clusters@))
    }

    /// The release of that name, where there is one.
    pub open spec fn release_named(&self, name: Seq<char>) -> Option<Release> {
        if contains_name(release_names(self.releases@), name) {
            Some(self.releases@[index_of(release_names(self.releases@), name)])
        } else {
            None
        }
    }

    /// The context of that name, where there is one.
    pub open spec fn context_named(&self, name: Seq<char>) -> Option<Context> {
        if contains_name(context_names(self.contexts@), name) {
            Some(self.contexts@[index_of(context_names(self.contexts@), name)])
        } else {
            None
        }
    }

    /// The auth profile of that name, where there is one.
    pub open spec fn auth_named(&self, name: Seq<char>) -> Option<Auth> {
        if contains_name(auth_names(self.auths@), name) {
            Some(self.auths@[index_of(auth_names(self.auths@), name)])
        } else {
            None
        }
    }

    /// The cluster of that name, where there is one.
    pub open spec fn cluster_named(&self, name: Seq<char>) -> Option<Cluster> {
        if contains_name(cluster_names(self.clusters@), name) {
            Some(self.clusters@[index_of(cluster_names(self.clusters@), name)])
        } else {
            None
        }
    }

    /// The release named `name`; fails with `NotFound` citing `name`.
    pub fn find_release(&self, name: &String) -> (r: Result<&Release, ProvisionError>)
        requires
            self.wf(),
        ensures
            r is Ok <==> self.release_named(name@) is Some,
            r matches Ok(x) ==> Some(*x) == self.release_named(name@),
            r matches Err(e) ==> e@ == (ErrorView::NotFound {
                entity: Entity::Release,
                name: name@,
                referenced_by: None,
            }),
    {
        let mut i: usize = 0;
        while i < self.releases.len()
            invariant
                self.wf(),
                i <= self.releases.len(),
                forall|k: int| 0 <= k < i ==> self.releases@[k].name@ != name@,
            decreases self.releases.len() - i,
        {
            if self.releases[i].name == *name {
                proof {
                    let names = release_names(self.releases@);
                    assert(names[i as int] == name@);
                    assert(contains_name(names, name@));
                    let j = index_of(names, name@);
                    assert(0 <= j < names.len() && names[j] == name@);
                    assert(j == i as int);
                }
                return Ok(&self.releases[i]);
            }
            i = i + 1;
        }
        proof {
            let names = release_names(self.releases@);
            assert(!contains_name(names, name@)) by {
                assert forall|k: int| 0 <= k < names.len() implies names[k] != name@ by {
                    assert(self.releases@[k].name@ != name@);
                }
            }
        }
        Err(ProvisionError::NotFound {
            entity: Entity::Release,
            name: name.clone(),
            referenced_by: None,
        })
    }

    /// The context that `release` points at; fails with `NotFound` citing that
    /// context's name and the release.
    pub fn find_context(&self, release: &Release) -> (r: Result<&Context, ProvisionError>)
        requires
            self.wf(),
        ensures
            r is Ok <==> self.context_named(release.context@) is Some,
            r matches Ok(x) ==> Some(*x) == self.context_named(release.context@),
            r matches Err(e) ==> e@ == (ErrorView::NotFound {
                entity: Entity::Context,
                name: release.context@,
                referenced_by: Some(release.name@),
            }),
    {
        let mut i: usize = 0;
        while i < self.contexts.len()
            invariant
                self.wf(),
                i <= self.contexts.len(),
                forall|k: int| 0 <= k < i ==> self.contexts@[k].name@ != release.context@,
            decreases self.contexts.len() - i,
        {
            if self.contexts[i].name == release.context {
                proof {
                    let names = context_names(self.contexts@);
                    assert(names[i as int] == release.context@);
                    assert(contains_name(names, release.context@));
                    let j = index_of(names, release.context@);
                    assert(0 <= j < names.len() && names[j] == release.context@);
                    assert(j == i as int);
                }
                return Ok(&self.contexts[i]);
            }
            i = i + 1;
        }
        proof {
            let names = context_names(self.contexts@);
            assert(!contains_name(names, release.context@)) by {
                assert forall|k: int| 0 <= k < names.len() implies names[k] != release.context@ by {
                    assert(self.contexts@[k].name@ != release.context@);
                }
            }
        }
        Err(ProvisionError::NotFound {
            entity: Entity::Context,
            name: release.context.clone(),
            referenced_by: Some(release.name.clone()),
        })
    }

    /// The auth profile that `context` uses; fails with `NotFound` citing that
    /// profile's name and the context.
    pub fn find_auth(&self, context: &Context) -> (r: Result<&Auth, ProvisionError>)
        requires
            self.wf(),
        ensures
            r is Ok <==> self.auth_named(context.auth@) is Some,
            r matches Ok(x) ==> Some(*x) == self.auth_named(context.auth@),
            r matches Err(e) ==> e@ == (ErrorView::NotFound {
                entity: Entity::Auth,
                name: context.auth@,
                referenced_by: Some(context.name@),
            }),
    {
        let mut i: usize = 0;
        while i < self.auths.len()
            invariant
                self.wf(),
                i <= self.auths.len(),
                forall|k: int| 0 <= k < i ==> self.auths@[k].name@ != context.auth@,
            decreases self.auths.len() - i,
        {
            if self.auths[i].name == context.auth {
                proof {
                    let names = auth_names(self.auths@);
                    assert(names[i as int] == context.auth@);
                    assert(contains_name(names, context.auth@));
                    let j = index_of(names, context.auth@);
                    assert(0 <= j < names.len() && names[j] == context.auth@);
                    assert(j == i as int);
                }
                return Ok(&self.auths[i]);
            }
            i = i + 1;
        }
        proof {
            let names = auth_names(self.auths@);
            assert(!contains_name(names, context.auth@)) by {
                assert forall|k: int| 0 <= k < names.len() implies names[k] != context.auth@ by {
                    assert(self.auths@[k].name@ != context.auth@);
                }
            }
        }
        Err(ProvisionError::NotFound {
            entity: Entity::Auth,
            name: context.auth.clone(),
            referenced_by: Some(context.name.clone()),
        })
    }

    /// The cluster that `context` uses; fails with `NotFound` citing that
    /// cluster's name and the context.
    pub fn find_cluster(&self, context: &Context) -> (r: Result<&Cluster, ProvisionError>)
        requires
            self.wf(),
        ensures
            r is Ok <==> self.cluster_named(context.cluster@) is Some,
            r matches Ok(x) ==> Some(*x) == self.cluster_named(context.cluster@),
            r matches Err(e) ==> e@ == (ErrorView::NotFound {
                entity: Entity::Cluster,
                name: context.cluster@,
                referenced_by: Some(context.name@),
            }),
    {
        let mut i: usize = 0;
        while i < self.clusters.len()
            invariant
                self.wf(),
                i <= self.clusters.len(),
                forall|k: int| 0 <= k < i ==> self.clusters@[k].name@ != context.cluster@,
            decreases self.clusters.len() - i,
        {
            if self.clusters[i].name == context.cluster {
                proof {
                    let names = cluster_names(self.clusters@);
                    assert(names[i as int] == context.cluster@);
                    assert(contains_name(names, context.cluster@));
                    let j = index_of(names, context.cluster@);
                    assert(0 <= j < names.len() && names[j] == context.cluster@);
                    assert(j == i as int);
                }
                return Ok(&self.clusters[i]);
            }
            i = i + 1;
        }
        proof {
            let names = cluster_names(self.clusters@);
            assert(!contains_name(names, context.cluster@)) by {
                assert forall|k: int| 0 <= k < names.len() implies names[k] != context.cluster@ by {
                    assert(self.clusters@[k].name@ != context.cluster@);
                }
            }
        }
        Err(ProvisionError::NotFound {
            entity: Entity::Cluster,
            name: context.cluster.clone(),
            referenced_by: Some(context.name.clone()),
        })
    }

    /// Builds a configuration; `None` where a name occurs twice among
    /// the entries of one kind.
    pub fn new(
        releases: Vec<Release>,
        contexts: Vec<Context>,
        auths: Vec<Auth>,
        clusters: Vec<Cluster>,
    ) -> (r: Option<Config>)
        ensures
            r is Some <==> (unique(release_names(releases@)) && unique(context_names(contexts@))
                && unique(auth_names(auths@)) && unique(cluster_names(clusters@))),
            r matches Some(c) ==> c.wf() && c.releases@ == releases@ && c.contexts@ == contexts@
                && c.auths@ == auths@ && c.clusters@ == clusters@,
    {
        let mut names: Vec<String> = Vec::new();
        let mut i: usize = 0;
        while i < releases.len()
            invariant
                i <= releases.len(),
                names@.len() == i,
                forall|k: int| 0 <= k < i ==> names@[k]@ == releases@[k].name@,
            decreases releases.len() - i,
        {
            names.push(releases[i].name.clone());
            i = i + 1;
        }
        assert(names@.map_values(|s: String| s@) =~= release_names(releases@));
        if !all_unique(&names) {
            return None;
        }
        let mut names: Vec<String> = Vec::new();
        let mut i: usize = 0;
        while i < contexts.len()
            invariant
                i <= contexts.len(),
                names@.len() == i,
                forall|k: int| 0 <= k < i ==> names@[k]@ == contexts@[k].name@,
            decreases contexts.len() - i,
        {
            names.push(contexts[i].name.clone());
            i = i + 1;
        }
        assert(names@.map_values(|s: String| s@) =~= context_names(contexts@));
        if !all_unique(&names) {
            return None;
        }
        let mut names: Vec<String> = Vec::new();
        let mut i: usize = 0;
        while i < auths.len()
            invariant
                i <= auths.len(),
                names@.len() == i,
                forall|k: int| 0 <= k < i ==> names@[k]@ == auths@[k].name@,
            decreases auths.len() - i,
        {
            names.push(auths[i].name.clone());
            i = i + 1;
        }
        assert(names@.map_values(|s: String| s@) =~= auth_names(auths@));
        if !all_unique(&names) {
            return None;
        }
        let mut names: Vec<String> = Vec::new();
        let mut i: usize = 0;
        while i < clusters.len()
            invariant
                i <= clusters.len(),
                names@.len() == i,
                forall|k: int| 0 <= k < i ==> names@[k]@ == clusters@[k].name@,
            decreases clusters.len() - i,
        {
            names.push(clusters[i].name.clone());
            i = i + 1;
        }
        assert(names@.map_values(|s: String| s@) =~= cluster_names(clusters@));
        if !all_unique(&names) {
            return None;
        }
        Some(Config { releases, contexts, auths, clusters })
    }
}

} // verus!
