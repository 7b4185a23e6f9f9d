//! The checks that every document passes before it is trusted, besides its
//! signatures: it has not expired, it is not older than what was accepted
//! before, and its bytes and its version are those that the document above
//! it declared.

use crate::error::{Error, RoleType};
use crate::schema::{MetaRef, Target};
use crate::text::{bytes_eq, copy_bytes};
use vstd::prelude::*;

verus! {

/// Whether expired metadata is refused.
#[derive(Clone, Copy, Debug, PartialEq, Eq, Structural)]
pub enum ExpirationEnforcement {
    /// Expired metadata is refused.
    Enforcing,
    /// Expired metadata is accepted.
    Permissive,
}

/// The limits that keep a load from doing unbounded work on what a
/// repository serves.
#[derive(Clone, Copy, Debug, PartialEq, Eq, Structural)]
pub struct Limits {
    /// The most root rotations that a load makes.
    pub max_root_rotations: u64,
    /// The most delegations that a lookup follows downwards.
    pub max_delegation_depth: u64,
    /// The most bytes that a metadata document has.
    pub max_document_size: u64,
}

impl Limits {
    /// The limits that a load has unless it is given others: 1024
    /// rotations, 32 delegations downwards, and 10 MiB for a document.
    pub open spec fn spec_default() -> Limits {
        Limits {
            max_root_rotations: 1024,
            max_delegation_depth: 32,
            max_document_size: 10_485_760,
        }
    }
}

impl Default for Limits {
    fn default() -> (limits: Limits)
        ensures
            limits == Limits::spec_default(),
    {
        Limits {
            max_root_rotations: 1024,
            max_delegation_depth: 32,
            max_document_size: 10_485_760,
        }
    }
}

/// A document that was accepted earlier: its version and the SHA-256
/// digest of its bytes.
#[derive(Clone, Debug)]
pub struct Seen {
    pub version: u64,
    pub sha256: Vec<u8>,
}

/// What a session has accepted of each kind of document that is fetched
/// anew with every load. A later load of the session must not go back on
/// it.
#[derive(Clone, Debug)]
pub struct Known {
    pub timestamp: Option<Seen>,
    pub snapshot: Option<Seen>,
    pub targets: Option<Seen>,
}

/// Whether `seen` records a document with this version and digest.
pub open spec fn records(seen: Option<Seen>, version: u64, sha256: Seq<u8>) -> bool {
    seen matches Some(accepted) && accepted.version == version && accepted.sha256@ == sha256
}

impl Known {
    /// What a session knows before its first load: nothing.
    pub fn new() -> (known: Known)
        ensures
            known.timestamp is None,
            known.snapshot is None,
            known.targets is None,
    {
        Known { timestamp: None, snapshot: None, targets: None }
    }
}

impl Default for Known {
    fn default() -> (known: Known)
        ensures
            known.timestamp is None,
            known.snapshot is None,
            known.targets is None,
    {
        Known::new()
    }
}

/// Records a document that was accepted.
pub fn seen(version: u64, sha256: &[u8]) -> (r: Option<Seen>)
    ensures
        records(r, version, sha256@),
{
    Some(Seen { version, sha256: copy_bytes(sha256) })
}

/// Whether a document that expires at `expires` has expired at `now`.
pub open spec fn is_expired(expires: i64, now: i64) -> bool {
    expires <= now
}

/// What the expiration of a document of kind `kind` amounts to: an expired
/// document is refused where expiration is enforced.
pub open spec fn expiration_verdict(
    mode: ExpirationEnforcement,
    kind: RoleType,
    expires: i64,
    now: i64,
) -> Result<(), Error> {
    if mode == ExpirationEnforcement::Enforcing && is_expired(expires, now) {
        Err(Error::ExpiredMetadata { role: kind })
    } else {
        Ok(())
    }
}

/// Checks that a document has not expired, where that is enforced.
pub fn check_expiration(mode: ExpirationEnforcement, kind: RoleType, expires: i64, now: i64) -> (r:
    Result<(), Error>)
    ensures
        r == expiration_verdict(mode, kind, expires, now),
{
    match mode {
        ExpirationEnforcement::Enforcing => {
            if expires <= now {
                Err(Error::ExpiredMetadata { role: kind })
            } else {
                Ok(())
            }
        },
        ExpirationEnforcement::Permissive => Ok(()),
    }
}

/// Whether a document with this version and digest goes back on one
/// accepted earlier: it is older, or it has the same version and other
/// bytes.
pub open spec fn goes_back_on(previous: Seen, version: u64, sha256: Seq<u8>) -> bool {
    version < previous.version || (version == previous.version && sha256 != previous.sha256@)
}

/// What the version of a document of kind `kind` amounts to, given what was
/// accepted of that kind before.
pub open spec fn version_verdict(
    kind: RoleType,
    previous: Option<Seen>,
    version: u64,
    sha256: Seq<u8>,
) -> Result<(), Error> {
    match previous {
        Some(seen) => if goes_back_on(seen, version, sha256) {
            Err(Error::VersionRollback { role: kind, previous: seen.version, new: version })
        } else {
            Ok(())
        },
        None => Ok(()),
    }
}

/// Checks that a document does not go back on one accepted earlier.
pub fn check_version(kind: RoleType, previous: &Option<Seen>, version: u64, sha256: &[u8]) -> (r:
    Result<(), Error>)
    ensures
        r == version_verdict(kind, *previous, version, sha256@),
{
    match previous {
        Some(seen) => {
            if version < seen.version || (version == seen.version && !bytes_eq(
                sha256,
                seen.sha256.as_slice(),
            )) {
                Err(Error::VersionRollback { role: kind, previous: seen.version, new: version })
            } else {
                Ok(())
            }
        },
        None => Ok(()),
    }
}

/// What the digest of a document of kind `kind` amounts to, given what the
/// document above it declared: where a digest was declared, the bytes must
/// have it.
pub open spec fn digest_verdict(kind: RoleType, pinned: MetaRef, sha256: Seq<u8>) -> Result<
    (),
    Error,
> {
    match pinned.sha256 {
        Some(declared) => if declared@ == sha256 {
            Ok(())
        } else {
            Err(Error::DigestMismatch { role: kind })
        },
        None => Ok(()),
    }
}

/// Checks the digest of a document against what the document above it
/// declared.
pub fn check_digest(kind: RoleType, pinned: &MetaRef, sha256: &[u8]) -> (r: Result<(), Error>)
    ensures
        r == digest_verdict(kind, *pinned, sha256@),
{
    match &pinned.sha256 {
        Some(declared) => {
            if bytes_eq(declared.as_slice(), sha256) {
                Ok(())
            } else {
                Err(Error::DigestMismatch { role: kind })
            }
        },
        None => Ok(()),
    }
}

/// What the version of a document of kind `kind` amounts to, given what the
/// document above it declared: the document must have the very version
/// that was declared. An older one is a rollback; a newer one is not the
/// document that was asked for.
pub open spec fn pinned_version_verdict(kind: RoleType, pinned: MetaRef, version: u64) -> Result<
    (),
    Error,
> {
    if version < pinned.version {
        Err(Error::VersionRollback { role: kind, previous: pinned.version, new: version })
    } else if version > pinned.version {
        Err(Error::MalformedDocument { role: kind })
    } else {
        Ok(())
    }
}

/// Checks the version of a document against what the document above it
/// declared.
pub fn check_pinned_version(kind: RoleType, pinned: &MetaRef, version: u64) -> (r: Result<
    (),
    Error,
>)
    ensures
        r == pinned_version_verdict(kind, *pinned, version),
{
    if version < pinned.version {
        Err(Error::VersionRollback { role: kind, previous: pinned.version, new: version })
    } else if version > pinned.version {
        Err(Error::MalformedDocument { role: kind })
    } else {
        Ok(())
    }
}

/// What the bytes that were read for a target amount to: they must be as
/// many as the targets document declared, and have the declared digest.
pub open spec fn target_verdict(target: Target, length: u64, sha256: Seq<u8>) -> Result<
    (),
    Error,
> {
    if length == target.length && sha256 == target.sha256@ {
        Ok(())
    } else {
        Err(Error::DigestMismatch { role: RoleType::Targets })
    }
}

/// Checks the bytes that were read for a target against what the targets
/// document declared.
pub fn check_target(target: &Target, length: u64, sha256: &[u8]) -> (r: Result<(), Error>)
    ensures
        r == target_verdict(*target, length, sha256@),
{
    if length == target.length && bytes_eq(sha256, target.sha256.as_slice()) {
        Ok(())
    } else {
        Err(Error::DigestMismatch { role: RoleType::Targets })
    }
}

} // verus!
