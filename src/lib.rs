//! Idempotent provisioning of Kubernetes access entries (cluster, credentials,
//! context) from a declarative configuration of releases.
//!
//! The engine is a state machine: every decision is a verified step from a
//! phase and the answer of the outside world (the context store, the cloud
//! control plane) to the next phase and the next action to perform.

pub mod cert;
pub mod config;
pub mod engine;
pub mod error;
pub mod trace;

pub use config::{Auth, AuthConfig, Cluster, ClusterConfig, Config, Context, Release};

pub use engine::{
    cluster_args, cluster_entry, create_auth, create_cluster, create_context, ensure_auth,
    ensure_cluster, prepare, step, Action, Event, Phase,
};
pub use error::{Entity, ProvisionError};
