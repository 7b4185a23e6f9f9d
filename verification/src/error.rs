//! Why a load was refused.

use crate::transport::TransportErrorKind;
use vstd::prelude::*;

verus! {

/// The kinds of metadata document.
#[derive(Clone, Copy, Debug, PartialEq, Eq, Structural)]
pub enum RoleType {
    /// The root of trust: the roles, their keys and their thresholds.
    Root,
    /// The freshness stamp that names the current snapshot.
    Timestamp,
    /// The list of the current versions of the targets documents.
    Snapshot,
    /// The top-level list of targets.
    Targets,
    /// A list of targets that another one delegates to.
    DelegatedTargets,
}

/// Why a load was refused.
///
/// A transport error says that a document could not be had. Every other
/// variant says that a document was had and may not be trusted: none of
/// them is tried again, since trying again cannot mend a cryptographic
/// fact.
#[derive(Clone, Copy, Debug, PartialEq, Eq, Structural)]
pub enum Error {
    /// The transport could not deliver the document of a role.
    Transport { role: RoleType, kind: TransportErrorKind },
    /// Fewer distinct authorized keys signed the document validly than the
    /// role's threshold asks for.
    SignatureThreshold { role: RoleType, threshold: u64, valid: u64 },
    /// The document's bytes are not those that the document above it
    /// declared.
    DigestMismatch { role: RoleType },
    /// The document is older than one already accepted.
    VersionRollback { role: RoleType, previous: u64, new: u64 },
    /// The document does not say what a document in its place must say.
    MalformedDocument { role: RoleType },
    /// The document has expired.
    ExpiredMetadata { role: RoleType },
    /// More root rotations were needed than the limit allows.
    RotationLimitExceeded { max: u64 },
    /// The delegations go deeper than the limit allows.
    DelegationDepthExceeded { max: u64 },
}

impl Error {
    /// Whether the error says that a document may not be trusted, as
    /// opposed to could not be had.
    pub open spec fn spec_is_trust_failure(self) -> bool {
        !(self is Transport)
    }

    /// Whether the error says that a document may not be trusted, as
    /// opposed to could not be had.
    pub fn is_trust_failure(&self) -> (r: bool)
        ensures
            r == self.spec_is_trust_failure(),
    {
        match self {
            Error::Transport { .. } => false,
            _ => true,
        }
    }
}

} // verus!
