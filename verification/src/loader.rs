//! The chain from the root to the targets: timestamp, then snapshot, then
//! targets, each fetched as the one before it says and trusted only after
//! it has passed every check.
//!
//! Each stage of a load is a type of its own. A stage can only be made
//! from the one before it and a document that passed, so a value of a
//! later stage is proof that the earlier documents were accepted.

use crate::error::{Error, RoleType};
use crate::policy::{
    check_digest, check_expiration, check_pinned_version, check_version, digest_verdict,
    expiration_verdict, pinned_version_verdict, records, version_verdict, ExpirationEnforcement,
    Seen,
};
use crate::schema::{MetaRef, Root, Signed, Snapshot, Targets, Timestamp};
use crate::text::{copy_bytes, decimal, push_decimal};
use crate::threshold::{threshold_verdict, verify_threshold, Role, SignatureCheck};
use vstd::prelude::*;
use vstd::string::*;

verus! {

/// What to fetch: the name of a file, the most bytes to read of it, and
/// the digest that its bytes must have, if one is known.
#[derive(Clone, Debug)]
pub struct DocumentRequest {
    pub filename: String,
    pub max_length: u64,
    pub sha256: Option<Vec<u8>>,
}

/// The name of the file that holds version `version` of the document
/// called `name`: with the version in front where the repository keeps
/// consistent snapshots, and the bare name otherwise.
pub open spec fn versioned_name(consistent: bool, version: u64, name: Seq<char>) -> Seq<char> {
    if consistent {
        decimal(version as nat) + "."@ + name
    } else {
        name
    }
}

/// The name of the file that holds version `version` of the root.
pub open spec fn root_filename(version: u64) -> Seq<char> {
    versioned_name(true, version, "root.json"@)
}

/// The name under which a snapshot lists the targets document of a role.
pub open spec fn role_filename(role: Seq<char>) -> Seq<char> {
    role + ".json"@
}

/// The most bytes to read of a document: its declared length where there
/// is one, and the limit on documents otherwise.
pub open spec fn length_limit(pinned: MetaRef, max_document_size: u64) -> u64 {
    match pinned.length {
        Some(length) => length,
        None => max_document_size,
    }
}

/// Whether a request asks for the file `filename`, for at most
/// `max_length` bytes, with the declared digest of `pinned`, if there is
/// one.
pub open spec fn asks_for(
    request: DocumentRequest,
    filename: Seq<char>,
    max_length: u64,
    sha256: Option<Vec<u8>>,
) -> bool {
    &&& request.filename@ == filename
    &&& request.max_length == max_length
    &&& match (request.sha256, sha256) {
        (Some(asked), Some(declared)) => asked@ == declared@,
        (None, None) => true,
        _ => false,
    }
}

/// Writes the name of the file that holds a version of a document.
fn write_versioned_name(consistent: bool, version: u64, name: &str) -> (r: String)
    ensures
        r@ == versioned_name(consistent, version, name@),
{
    let mut filename = String::new();
    if consistent {
        push_decimal(&mut filename, version);
        filename.append(".");
    }
    filename.append(name);
    assert(filename@ =~= versioned_name(consistent, version, name@));
    filename
}

/// Copies a digest that may be absent.
fn copy_digest(sha256: &Option<Vec<u8>>) -> (r: Option<Vec<u8>>)
    ensures
        match (r, *sha256) {
            (Some(copy), Some(digest)) => copy@ == digest@,
            (None, None) => true,
            _ => false,
        },
{
    match sha256 {
        Some(digest) => Some(copy_bytes(digest.as_slice())),
        None => None,
    }
}

/// The request for version `version` of the root.
pub fn root_request(version: u64, max_document_size: u64) -> (r: DocumentRequest)
    ensures
        asks_for(r, root_filename(version), max_document_size, None),
{
    DocumentRequest {
        filename: write_versioned_name(true, version, "root.json"),
        max_length: max_document_size,
        sha256: None,
    }
}

/// The request for the timestamp, of which nothing is known beforehand.
pub fn timestamp_request(max_document_size: u64) -> (r: DocumentRequest)
    ensures
        asks_for(r, "timestamp.json"@, max_document_size, None),
{
    DocumentRequest {
        filename: String::from_str("timestamp.json"),
        max_length: max_document_size,
        sha256: None,
    }
}

/// The request for the document called `name` of which `pinned` is said.
pub fn pinned_request(consistent: bool, name: &str, pinned: &MetaRef, max_document_size: u64) -> (r:
    DocumentRequest)
    ensures
        asks_for(
            r,
            versioned_name(consistent, pinned.version, name@),
            length_limit(*pinned, max_document_size),
            pinned.sha256,
        ),
{
    DocumentRequest {
        filename: write_versioned_name(consistent, pinned.version, name),
        max_length: match pinned.length {
            Some(length) => length,
            None => max_document_size,
        },
        sha256: copy_digest(&pinned.sha256),
    }
}

/// What is known of a document when it is checked: its kind, the role that
/// must have signed it, what the document above it says of it, if there is
/// one, and when and how strictly it is checked.
pub struct Expectation {
    pub kind: RoleType,
    pub role: Role,
    pub pinned: Option<MetaRef>,
    pub mode: ExpirationEnforcement,
    pub now: i64,
}

/// Whether a document of kind `kind` is bound to the document above it
/// and still good, and if not, why not: its bytes have the digest that
/// the document above declared, it has the version that was declared, and
/// it has not expired.
pub open spec fn binding_verdict(
    kind: RoleType,
    pinned: Option<MetaRef>,
    mode: ExpirationEnforcement,
    now: i64,
    sha256: Seq<u8>,
    version: u64,
    expires: i64,
) -> Result<(), Error> {
    let digest = match pinned {
        Some(pinned) => digest_verdict(kind, pinned, sha256),
        None => Ok(()),
    };
    let declared = match pinned {
        Some(pinned) => pinned_version_verdict(kind, pinned, version),
        None => Ok(()),
    };
    if digest is Err {
        digest
    } else if declared is Err {
        declared
    } else {
        expiration_verdict(mode, kind, expires, now)
    }
}

/// Whether a document is one that may be trusted, and if not, why not. The
/// checks are made in this order: the signatures meet the threshold of the
/// role; the bytes have the digest that the document above declared; the
/// version is the one that it declared; the document has not expired.
pub open spec fn acceptance_verdict(
    expected: Expectation,
    checks: Seq<SignatureCheck>,
    sha256: Seq<u8>,
    version: u64,
    expires: i64,
) -> Result<(), Error> {
    let signatures = threshold_verdict(expected.kind, expected.role, checks);
    if signatures is Err {
        signatures
    } else {
        binding_verdict(
            expected.kind,
            expected.pinned,
            expected.mode,
            expected.now,
            sha256,
            version,
            expires,
        )
    }
}

/// Whether a document may be loaded, and if not, why not: it must be one
/// that may be trusted, and it must not go back on what was accepted of its
/// kind before.
pub open spec fn load_verdict(
    expected: Expectation,
    previous: Option<Seen>,
    checks: Seq<SignatureCheck>,
    sha256: Seq<u8>,
    version: u64,
    expires: i64,
) -> Result<(), Error> {
    let acceptance = acceptance_verdict(expected, checks, sha256, version, expires);
    if acceptance is Err {
        acceptance
    } else {
        version_verdict(expected.kind, previous, version, sha256)
    }
}

/// Checks a document against what is known of it and what was accepted of
/// its kind before.
pub fn check_document(
    kind: RoleType,
    role: &Role,
    pinned: Option<&MetaRef>,
    mode: ExpirationEnforcement,
    now: i64,
    previous: &Option<Seen>,
    checks: &Vec<SignatureCheck>,
    sha256: &Vec<u8>,
    version: u64,
    expires: i64,
) -> (r: Result<(), Error>)
    ensures
        r == load_verdict(
            Expectation {
                kind,
                role: *role,
                pinned: match pinned {
                    Some(meta) => Some(*meta),
                    None => None,
                },
                mode,
                now,
            },
            *previous,
            checks@,
            sha256@,
            version,
            expires,
        ),
{
    verify_threshold(kind, role, checks)?;
    match pinned {
        Some(meta) => {
            check_digest(kind, meta, sha256.as_slice())?;
            check_pinned_version(kind, meta, version)?;
        },
        None => {},
    }
    check_expiration(mode, kind, expires, now)?;
    check_version(kind, previous, version, sha256.as_slice())
}

/// A document that is older than one accepted before is refused; and if
/// it is otherwise one that may be trusted, it is refused as a rollback.
pub proof fn lemma_rollback_is_refused(
    expected: Expectation,
    seen: Seen,
    checks: Seq<SignatureCheck>,
    sha256: Seq<u8>,
    version: u64,
    expires: i64,
)
    requires
        version < seen.version,
    ensures
        load_verdict(expected, Some(seen), checks, sha256, version, expires) is Err,
        acceptance_verdict(expected, checks, sha256, version, expires) is Ok ==> load_verdict(
            expected,
            Some(seen),
            checks,
            sha256,
            version,
            expires,
        ) == Err::<(), Error>(
            Error::VersionRollback { role: expected.kind, previous: seen.version, new: version },
        ),
{
}

/// A document that has expired, and is loaded where expiration is not
/// enforced, is refused with the very same input where expiration is
/// enforced, as expired metadata of its kind. Where expiration is not
/// enforced, no document is refused as expired.
pub proof fn lemma_expiration_modes(
    expected: Expectation,
    previous: Option<Seen>,
    checks: Seq<SignatureCheck>,
    sha256: Seq<u8>,
    version: u64,
    expires: i64,
)
    ensures
        ({
            let enforcing = load_verdict(
                Expectation { mode: ExpirationEnforcement::Enforcing, ..expected },
                previous,
                checks,
                sha256,
                version,
                expires,
            );
            let permissive = load_verdict(
                Expectation { mode: ExpirationEnforcement::Permissive, ..expected },
                previous,
                checks,
                sha256,
                version,
                expires,
            );
            &&& !(permissive matches Err(Error::ExpiredMetadata { .. }))
            &&& permissive is Ok && expires <= expected.now ==> enforcing == Err::<(), Error>(
                Error::ExpiredMetadata { role: expected.kind },
            )
            &&& permissive is Ok && expires > expected.now ==> enforcing is Ok
            &&& enforcing is Ok ==> permissive is Ok
        }),
{
}

/// A document whose bytes do not have the digest that the document above
/// it declares is refused, however it is signed; and if it is signed as
/// its role asks, it is refused for the digest.
pub proof fn lemma_digest_binds(
    expected: Expectation,
    previous: Option<Seen>,
    checks: Seq<SignatureCheck>,
    sha256: Seq<u8>,
    version: u64,
    expires: i64,
)
    requires
        expected.pinned matches Some(pinned) && pinned.sha256 matches Some(declared) && declared@
            != sha256,
    ensures
        load_verdict(expected, previous, checks, sha256, version, expires) is Err,
        threshold_verdict(expected.kind, expected.role, checks) is Ok ==> load_verdict(
            expected,
            previous,
            checks,
            sha256,
            version,
            expires,
        ) == Err::<(), Error>(Error::DigestMismatch { role: expected.kind }),
{
}

/// A document that was loaded is loaded again by a session that has
/// recorded it, and so is any newer one that may be trusted: a session
/// never locks itself out.
pub proof fn lemma_known_document_loads_again(
    expected: Expectation,
    seen: Seen,
    checks: Seq<SignatureCheck>,
    sha256: Seq<u8>,
    version: u64,
    expires: i64,
)
    requires
        acceptance_verdict(expected, checks, sha256, version, expires) is Ok,
        seen.version < version || records(Some(seen), version, sha256),
    ensures
        load_verdict(expected, Some(seen), checks, sha256, version, expires) is Ok,
{
}

/// A document that has another version than the document above it declares
/// is refused, however it is signed: neither an older document nor a newer
/// one can stand in for the one that was declared.
pub proof fn lemma_declared_version_binds(
    expected: Expectation,
    previous: Option<Seen>,
    checks: Seq<SignatureCheck>,
    sha256: Seq<u8>,
    version: u64,
    expires: i64,
)
    requires
        expected.pinned matches Some(pinned) && pinned.version != version,
    ensures
        load_verdict(expected, previous, checks, sha256, version, expires) is Err,
{
}

/// What a load has accepted so far: the root, when and how strictly the
/// load checks expiration, the limit on the size of a document, and the
/// timestamp, the snapshot and the targets once each is loaded.
pub struct Chain {
    pub root: Signed<Root>,
    pub mode: ExpirationEnforcement,
    pub now: i64,
    pub max_document_size: u64,
    pub timestamp: Option<Signed<Timestamp>>,
    pub snapshot: Option<Signed<Snapshot>>,
    pub targets: Option<Signed<Targets>>,
}

/// The name under which a snapshot lists the top-level targets document.
pub open spec fn targets_filename() -> Seq<char> {
    "targets.json"@
}

impl Chain {
    /// What is known of the timestamp before it is fetched: the root names
    /// the role that signs it.
    pub open spec fn expects_timestamp(self) -> Expectation {
        Expectation {
            kind: RoleType::Timestamp,
            role: self.root.signed.timestamp,
            pinned: None,
            mode: self.mode,
            now: self.now,
        }
    }

    /// What is known of the snapshot before it is fetched: the root names
    /// the role that signs it, and the timestamp its version and digest.
    pub open spec fn expects_snapshot(self) -> Expectation {
        Expectation {
            kind: RoleType::Snapshot,
            role: self.root.signed.snapshot,
            pinned: Some(self.timestamp->0.signed.snapshot),
            mode: self.mode,
            now: self.now,
        }
    }

    /// What is known of the targets before they are fetched: the root names
    /// the role that signs them, and the snapshot their version and digest.
    pub open spec fn expects_targets(self) -> Expectation {
        Expectation {
            kind: RoleType::Targets,
            role: self.root.signed.targets,
            pinned: self.snapshot->0.signed.spec_meta(targets_filename()),
            mode: self.mode,
            now: self.now,
        }
    }

    /// Whether the root has not expired, as far as that is enforced.
    pub open spec fn root_holds(self) -> bool {
        expiration_verdict(self.mode, RoleType::Root, self.root.signed.expires, self.now) is Ok
    }

    /// Whether the timestamp is loaded and is one that may be trusted.
    pub open spec fn timestamp_holds(self) -> bool {
        &&& self.timestamp matches Some(timestamp)
        &&& acceptance_verdict(
            self.expects_timestamp(),
            timestamp.checks@,
            timestamp.sha256@,
            timestamp.signed.version,
            timestamp.signed.expires,
        ) is Ok
    }

    /// Whether the snapshot is loaded and is one that may be trusted.
    pub open spec fn snapshot_holds(self) -> bool {
        &&& self.snapshot matches Some(snapshot)
        &&& acceptance_verdict(
            self.expects_snapshot(),
            snapshot.checks@,
            snapshot.sha256@,
            snapshot.signed.version,
            snapshot.signed.expires,
        ) is Ok
    }

    /// Whether the targets are loaded, are listed in the snapshot, and are
    /// such as may be trusted.
    pub open spec fn targets_hold(self) -> bool {
        &&& self.targets matches Some(targets)
        &&& self.expects_targets().pinned is Some
        &&& acceptance_verdict(
            self.expects_targets(),
            targets.checks@,
            targets.sha256@,
            targets.signed.version,
            targets.signed.expires,
        ) is Ok
    }

    /// What loading `doc` as the timestamp amounts to.
    pub open spec fn timestamp_verdict(
        self,
        doc: Signed<Timestamp>,
        previous: Option<Seen>,
    ) -> Result<(), Error> {
        load_verdict(
            self.expects_timestamp(),
            previous,
            doc.checks@,
            doc.sha256@,
            doc.signed.version,
            doc.signed.expires,
        )
    }

    /// What loading `doc` as the snapshot amounts to.
    pub open spec fn snapshot_verdict(
        self,
        doc: Signed<Snapshot>,
        previous: Option<Seen>,
    ) -> Result<(), Error> {
        load_verdict(
            self.expects_snapshot(),
            previous,
            doc.checks@,
            doc.sha256@,
            doc.signed.version,
            doc.signed.expires,
        )
    }

    /// What loading `doc` as the targets amounts to. A snapshot that does
    /// not list the targets is malformed, whatever the document.
    pub open spec fn targets_verdict(
        self,
        doc: Signed<Targets>,
        previous: Option<Seen>,
    ) -> Result<(), Error> {
        if self.expects_targets().pinned is None {
            Err(Error::MalformedDocument { role: RoleType::Snapshot })
        } else {
            load_verdict(
                self.expects_targets(),
                previous,
                doc.checks@,
                doc.sha256@,
                doc.signed.version,
                doc.signed.expires,
            )
        }
    }
}

/// The first stage of a load: a root that is trusted and has not expired,
/// as far as that is enforced.
#[derive(Debug)]
pub struct Trusted {
    root: Signed<Root>,
    mode: ExpirationEnforcement,
    now: i64,
    max_document_size: u64,
}

impl View for Trusted {
    type V = Chain;

    closed spec fn view(&self) -> Chain {
        Chain {
            root: self.root,
            mode: self.mode,
            now: self.now,
            max_document_size: self.max_document_size,
            timestamp: None,
            snapshot: None,
            targets: None,
        }
    }
}

impl Trusted {
    #[verifier::type_invariant]
    spec fn inv(self) -> bool {
        self@.root_holds()
    }

    /// Takes `root` as the root of trust of a load that is made at the time
    /// `now`. An expired root is refused where expiration is enforced.
    pub fn new(
        root: Signed<Root>,
        mode: ExpirationEnforcement,
        now: i64,
        max_document_size: u64,
    ) -> (r: Result<Trusted, Error>)
        ensures
            match r {
                Ok(trusted) => {
                    &&& expiration_verdict(mode, RoleType::Root, root.signed.expires, now) is Ok
                    &&& trusted@ == (Chain {
                        root,
                        mode,
                        now,
                        max_document_size,
                        timestamp: None,
                        snapshot: None,
                        targets: None,
                    })
                },
                Err(e) => expiration_verdict(mode, RoleType::Root, root.signed.expires, now)
                    == Err::<(), Error>(e),
            },
    {
        check_expiration(mode, RoleType::Root, root.signed.expires, now)?;
        Ok(Trusted { root, mode, now, max_document_size })
    }

    /// The trusted root.
    pub fn root(&self) -> (r: &Signed<Root>)
        ensures
            *r == self@.root,
            self@.root_holds(),
    {
        proof {
            use_type_invariant(self);
        }
        &self.root
    }

    /// The request for the timestamp.
    pub fn timestamp_request(&self) -> (r: DocumentRequest)
        ensures
            asks_for(r, "timestamp.json"@, self@.max_document_size, None),
    {
        timestamp_request(self.max_document_size)
    }

    /// Loads the timestamp: it must be signed by the timestamp role of the
    /// root, not have expired, and not go back on the timestamp accepted
    /// before, if there is one.
    pub fn load_timestamp(self, doc: Signed<Timestamp>, previous: &Option<Seen>) -> (r: Result<
        Stamped,
        Error,
    >)
        ensures
            match r {
                Ok(stamped) => {
                    &&& self@.timestamp_verdict(doc, *previous) is Ok
                    &&& stamped@ == (Chain { timestamp: Some(doc), ..self@ })
                },
                Err(e) => self@.timestamp_verdict(doc, *previous) == Err::<(), Error>(e),
            },
    {
        proof {
            use_type_invariant(&self);
        }
        check_document(
            RoleType::Timestamp,
            &self.root.signed.timestamp,
            None,
            self.mode,
            self.now,
            previous,
            &doc.checks,
            &doc.sha256,
            doc.signed.version,
            doc.signed.expires,
        )?;
        let Trusted { root, mode, now, max_document_size } = self;
        Ok(Stamped { root, mode, now, max_document_size, timestamp: doc })
    }
}

/// The second stage of a load: the root, and a timestamp that may be
/// trusted.
#[derive(Debug)]
pub struct Stamped {
    root: Signed<Root>,
    mode: ExpirationEnforcement,
    now: i64,
    max_document_size: u64,
    timestamp: Signed<Timestamp>,
}

impl View for Stamped {
    type V = Chain;

    closed spec fn view(&self) -> Chain {
        Chain {
            root: self.root,
            mode: self.mode,
            now: self.now,
            max_document_size: self.max_document_size,
            timestamp: Some(self.timestamp),
            snapshot: None,
            targets: None,
        }
    }
}

impl Stamped {
    #[verifier::type_invariant]
    spec fn inv(self) -> bool {
        self@.root_holds() && self@.timestamp_holds()
    }

    /// The trusted root.
    pub fn root(&self) -> (r: &Signed<Root>)
        ensures
            *r == self@.root,
    {
        &self.root
    }

    /// The timestamp.
    pub fn timestamp(&self) -> (r: &Signed<Timestamp>)
        ensures
            Some(*r) == self@.timestamp,
            self@.root_holds(),
            self@.timestamp_holds(),
    {
        proof {
            use_type_invariant(self);
        }
        &self.timestamp
    }

    /// The request for the snapshot that the timestamp names.
    pub fn snapshot_request(&self) -> (r: DocumentRequest)
        ensures
            asks_for(
                r,
                versioned_name(
                    self@.root.signed.consistent_snapshot,
                    self@.timestamp->0.signed.snapshot.version,
                    "snapshot.json"@,
                ),
                length_limit(self@.timestamp->0.signed.snapshot, self@.max_document_size),
                self@.timestamp->0.signed.snapshot.sha256,
            ),
    {
        pinned_request(
            self.root.signed.consistent_snapshot,
            "snapshot.json",
            &self.timestamp.signed.snapshot,
            self.max_document_size,
        )
    }

    /// Loads the snapshot: it must be signed by the snapshot role of the
    /// root, have the digest and the version that the timestamp declares,
    /// not have expired, and not go back on the snapshot accepted before,
    /// if there is one.
    pub fn load_snapshot(self, doc: Signed<Snapshot>, previous: &Option<Seen>) -> (r: Result<
        Snapshotted,
        Error,
    >)
        ensures
            match r {
                Ok(snapshotted) => {
                    &&& self@.snapshot_verdict(doc, *previous) is Ok
                    &&& snapshotted@ == (Chain { snapshot: Some(doc), ..self@ })
                },
                Err(e) => self@.snapshot_verdict(doc, *previous) == Err::<(), Error>(e),
            },
    {
        proof {
            use_type_invariant(&self);
        }
        check_document(
            RoleType::Snapshot,
            &self.root.signed.snapshot,
            Some(&self.timestamp.signed.snapshot),
            self.mode,
            self.now,
            previous,
            &doc.checks,
            &doc.sha256,
            doc.signed.version,
            doc.signed.expires,
        )?;
        let Stamped { root, mode, now, max_document_size, timestamp } = self;
        Ok(Snapshotted { root, mode, now, max_document_size, timestamp, snapshot: doc })
    }
}

/// The third stage of a load: the root, the timestamp, and a snapshot that
/// may be trusted.
#[derive(Debug)]
pub struct Snapshotted {
    root: Signed<Root>,
    mode: ExpirationEnforcement,
    now: i64,
    max_document_size: u64,
    timestamp: Signed<Timestamp>,
    snapshot: Signed<Snapshot>,
}

impl View for Snapshotted {
    type V = Chain;

    closed spec fn view(&self) -> Chain {
        Chain {
            root: self.root,
            mode: self.mode,
            now: self.now,
            max_document_size: self.max_document_size,
            timestamp: Some(self.timestamp),
            snapshot: Some(self.snapshot),
            targets: None,
        }
    }
}

impl Snapshotted {
    #[verifier::type_invariant]
    spec fn inv(self) -> bool {
        self@.root_holds() && self@.timestamp_holds() && self@.snapshot_holds()
    }

    /// The trusted root.
    pub fn root(&self) -> (r: &Signed<Root>)
        ensures
            *r == self@.root,
    {
        &self.root
    }

    /// The timestamp.
    pub fn timestamp(&self) -> (r: &Signed<Timestamp>)
        ensures
            Some(*r) == self@.timestamp,
    {
        &self.timestamp
    }

    /// The snapshot.
    pub fn snapshot(&self) -> (r: &Signed<Snapshot>)
        ensures
            Some(*r) == self@.snapshot,
            self@.root_holds(),
            self@.timestamp_holds(),
            self@.snapshot_holds(),
    {
        proof {
            use_type_invariant(self);
        }
        &self.snapshot
    }

    /// The request for the targets that the snapshot lists. There is none
    /// where the snapshot does not list them.
    pub fn targets_request(&self) -> (r: Option<DocumentRequest>)
        ensures
            match (r, self@.expects_targets().pinned) {
                (Some(request), Some(pinned)) => asks_for(
                    request,
                    versioned_name(
                        self@.root.signed.consistent_snapshot,
                        pinned.version,
                        targets_filename(),
                    ),
                    length_limit(pinned, self@.max_document_size),
                    pinned.sha256,
                ),
                (None, None) => true,
                _ => false,
            },
    {
        match self.snapshot.signed.meta("targets.json") {
            Some(pinned) => Some(
                pinned_request(
                    self.root.signed.consistent_snapshot,
                    "targets.json",
                    pinned,
                    self.max_document_size,
                ),
            ),
            None => None,
        }
    }

    /// Takes the stage apart.
    pub(crate) fn into_parts(self) -> (r: (
        Signed<Root>,
        ExpirationEnforcement,
        i64,
        u64,
        Signed<Timestamp>,
        Signed<Snapshot>,
    ))
        ensures
            self@ == (Chain {
                root: r.0,
                mode: r.1,
                now: r.2,
                max_document_size: r.3,
                timestamp: Some(r.4),
                snapshot: Some(r.5),
                targets: None,
            }),
            self@.root_holds(),
            self@.timestamp_holds(),
            self@.snapshot_holds(),
    {
        proof {
            use_type_invariant(&self);
        }
        (
            self.root,
            self.mode,
            self.now,
            self.max_document_size,
            self.timestamp,
            self.snapshot,
        )
    }
}

} // verus!
