use vstd::prelude::*;

verus! {

/// The kind of configuration entry that a lookup was after.
#[derive(Debug, Clone, Copy, PartialEq, Eq, Structural)]
pub enum Entity {
    Release,
    Context,
    Auth,
    Cluster,
}

/// Every way in which a provisioning run can fail.
#[derive(Debug, Clone, PartialEq, Eq)]
pub enum ProvisionError {
    /// A named entry is missing from the configuration; `referenced_by` names
    /// the entry that pointed at it (none for a release asked for directly).
    NotFound { entity: Entity, name: String, referenced_by: Option<String> },
    /// No materialization strategy exists for this auth and cluster pairing.
    UnsupportedCombination { auth: String, cluster: String },
    /// The cloud control plane could not be queried.
    CloudQuery { message: String },
    /// The certificate authority handed back by the cloud is not valid base64.
    Decode { cluster: String },
    /// The context store failed to check or create an entry.
    Store { message: String },
    /// A temporary resource could not be created, written or removed.
    Resource { message: String },
}

/// What a [`ProvisionError`] holds, as plain mathematical values.
pub enum ErrorView {
    NotFound { entity: Entity, name: Seq<char>, referenced_by: Option<Seq<char>> },
    UnsupportedCombination { auth: Seq<char>, cluster: Seq<char> },
    CloudQuery { message: Seq<char> },
    Decode { cluster: Seq<char> },
    Store { message: Seq<char> },
    Resource { message: Seq<char> },
}

/// An optional string, as plain values.
pub open spec fn opt_view(o: Option<String>) -> Option<Seq<char>> {
    match o {
        Some(s) => Some(s@),
        None => None,
    }
}

impl View for ProvisionError {
    type V = ErrorView;

    open spec fn view(&self) -> ErrorView {
        match self {
            ProvisionError::NotFound { entity, name, referenced_by } => ErrorView::NotFound {
                entity: *entity,
                name: name@,
                referenced_by: opt_view(*referenced_by),
            },
            ProvisionError::UnsupportedCombination { auth, cluster } =>
                ErrorView::UnsupportedCombination { auth: auth@, cluster: cluster@ },
            ProvisionError::CloudQuery { message } => ErrorView::CloudQuery { message: message@ },
            ProvisionError::Decode { cluster } => ErrorView::Decode { cluster: cluster@ },
            ProvisionError::Store { message } => ErrorView::Store { message: message@ },
            ProvisionError::Resource { message } => ErrorView::Resource { message: message@ },
        }
    }
}

/// Copies an optional string, keeping what it holds.
pub fn clone_opt(o: &Option<String>) -> (r: Option<String>)
    ensures
        opt_view(r) == opt_view(*o),
{
    match o {
        Some(s) => Some(s.clone()),
        None => None,
    }
}

} // verus!
