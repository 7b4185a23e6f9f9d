//! The repository: what a load that succeeded has accepted, and the lookup
//! of targets in it.

use crate::delegation::{
    lemma_found_entry_is_spoken_for, search, search_top, speaks_for, DelegatedDoc, Found, Lookup,
};
use crate::error::{Error, RoleType};
use crate::loader::{
    asks_for, binding_verdict, check_document, length_limit, pinned_request, role_filename,
    versioned_name, Chain, DocumentRequest, Snapshotted,
};
use crate::policy::{
    check_digest, check_expiration, check_pinned_version, check_version, records, seen,
    version_verdict, ExpirationEnforcement, Known, Seen,
};
use crate::schema::{MetaRef, Root, Signed, Snapshot, Target, Targets, Timestamp};
use crate::threshold::threshold_met;
use vstd::prelude::*;
use vstd::string::*;

verus! {

/// What a repository holds: the chain of the four documents, the documents
/// of delegated roles loaded so far, and the limit on the depth of
/// delegations.
pub struct RepositoryView {
    pub chain: Chain,
    pub delegated: Seq<DelegatedDoc>,
    pub max_delegation_depth: u64,
}

impl RepositoryView {
    /// What the snapshot says of the targets document of the role `name`.
    pub open spec fn pinned(self, name: Seq<char>) -> Option<MetaRef> {
        self.chain.snapshot->0.signed.spec_meta(role_filename(name))
    }

    /// Whether a document is bound to the snapshot as the targets of the
    /// role `name`, and still good.
    pub open spec fn binds(self, name: Seq<char>, doc: Signed<Targets>) -> Result<(), Error> {
        match self.pinned(name) {
            None => Err(Error::MalformedDocument { role: RoleType::Snapshot }),
            Some(pinned) => binding_verdict(
                RoleType::DelegatedTargets,
                Some(pinned),
                self.chain.mode,
                self.chain.now,
                doc.sha256@,
                doc.signed.version,
                doc.signed.expires,
            ),
        }
    }

    /// What loading the targets of the role `name` amounts to, given what
    /// their fetch came back with: the document, or the error for which
    /// there is none. The snapshot must list them, they must have the digest
    /// and the version that it declares, they must not have expired, and
    /// they must not go back on what was accepted of them before.
    pub open spec fn delegated_verdict(
        self,
        name: Seq<char>,
        fetched: Result<Signed<Targets>, Error>,
        previous: Option<Seen>,
    ) -> Result<(), Error> {
        match fetched {
            Err(e) => Err(e),
            Ok(doc) => if self.binds(name, doc) is Err {
                self.binds(name, doc)
            } else {
                version_verdict(
                    RoleType::DelegatedTargets,
                    previous,
                    doc.signed.version,
                    doc.sha256@,
                )
            },
        }
    }

    /// Whether the repository is one that a load can have made: each of the
    /// four documents may be trusted, and every document of a delegated
    /// role is bound to the snapshot.
    pub open spec fn wf(self) -> bool {
        &&& self.chain.root_holds()
        &&& self.chain.timestamp_holds()
        &&& self.chain.snapshot_holds()
        &&& self.chain.targets_hold()
        &&& forall|i: int|
            0 <= i < self.delegated.len() ==> ((#[trigger] self.delegated[i]).doc matches Some(doc)
                ==> self.binds(self.delegated[i].name@, doc) is Ok)
    }

    /// What the search for a target path ends in.
    pub open spec fn found(self, path: Seq<char>, path_hash: Seq<char>) -> Found {
        search_top(
            self.delegated,
            self.chain.targets->0.signed,
            path,
            path_hash,
            self.max_delegation_depth as nat,
        )
    }
}

/// The validated documents of a repository. A value of this type exists
/// only where a load went through: all four documents were accepted.
#[derive(Debug)]
pub struct Repository {
    root: Signed<Root>,
    mode: ExpirationEnforcement,
    now: i64,
    max_document_size: u64,
    timestamp: Signed<Timestamp>,
    snapshot: Signed<Snapshot>,
    targets: Signed<Targets>,
    delegated: Vec<DelegatedDoc>,
    max_delegation_depth: u64,
}

impl View for Repository {
    type V = RepositoryView;

    closed spec fn view(&self) -> RepositoryView {
        RepositoryView {
            chain: Chain {
                root: self.root,
                mode: self.mode,
                now: self.now,
                max_document_size: self.max_document_size,
                timestamp: Some(self.timestamp),
                snapshot: Some(self.snapshot),
                targets: Some(self.targets),
            },
            delegated: self.delegated@,
            max_delegation_depth: self.max_delegation_depth,
        }
    }
}

/// Writes the name under which a snapshot lists the targets of a role.
fn write_role_filename(role: &str) -> (r: String)
    ensures
        r@ == role_filename(role@),
{
    let mut filename = String::from_str(role);
    filename.append(".json");
    filename
}

impl Repository {
    #[verifier::type_invariant]
    spec fn inv(self) -> bool {
        self@.wf()
    }

    /// Loads the targets, which completes the load: they must be listed in
    /// the snapshot, be signed by the targets role of the root, have the
    /// version that the snapshot declares and its digest, if it declares
    /// one, not have expired, and not go back on the targets accepted
    /// before, if there are any.
    pub fn load(
        stage: Snapshotted,
        doc: Signed<Targets>,
        previous: &Option<Seen>,
        max_delegation_depth: u64,
    ) -> (r: Result<Repository, Error>)
        ensures
            match r {
                Ok(repository) => {
                    &&& stage@.targets_verdict(doc, *previous) is Ok
                    &&& repository@ == (RepositoryView {
                        chain: Chain { targets: Some(doc), ..stage@ },
                        delegated: Seq::<DelegatedDoc>::empty(),
                        max_delegation_depth,
                    })
                    &&& repository@.wf()
                },
                Err(e) => stage@.targets_verdict(doc, *previous) == Err::<(), Error>(e),
            },
    {
        let (root, mode, now, max_document_size, timestamp, snapshot) = stage.into_parts();
        match snapshot.signed.meta("targets.json") {
            None => Err(Error::MalformedDocument { role: RoleType::Snapshot }),
            Some(pinned) => {
                check_document(
                    RoleType::Targets,
                    &root.signed.targets,
                    Some(pinned),
                    mode,
                    now,
                    previous,
                    &doc.checks,
                    &doc.sha256,
                    doc.signed.version,
                    doc.signed.expires,
                )?;
                Ok(
                    Repository {
                        root,
                        mode,
                        now,
                        max_document_size,
                        timestamp,
                        snapshot,
                        targets: doc,
                        delegated: Vec::new(),
                        max_delegation_depth,
                    },
                )
            },
        }
    }

    /// The root.
    pub fn root(&self) -> (r: &Signed<Root>)
        ensures
            *r == self@.chain.root,
            self@.wf(),
    {
        proof {
            use_type_invariant(self);
        }
        &self.root
    }

    /// The timestamp.
    pub fn timestamp(&self) -> (r: &Signed<Timestamp>)
        ensures
            Some(*r) == self@.chain.timestamp,
            self@.wf(),
    {
        proof {
            use_type_invariant(self);
        }
        &self.timestamp
    }

    /// The snapshot.
    pub fn snapshot(&self) -> (r: &Signed<Snapshot>)
        ensures
            Some(*r) == self@.chain.snapshot,
            self@.wf(),
    {
        proof {
            use_type_invariant(self);
        }
        &self.snapshot
    }

    /// The top-level targets.
    pub fn targets(&self) -> (r: &Signed<Targets>)
        ensures
            Some(*r) == self@.chain.targets,
            self@.wf(),
    {
        proof {
            use_type_invariant(self);
        }
        &self.targets
    }

    /// The documents of delegated roles that were loaded so far, each under
    /// the name of its role.
    pub fn delegated(&self) -> (r: &Vec<DelegatedDoc>)
        ensures
            r@ == self@.delegated,
            self@.wf(),
    {
        proof {
            use_type_invariant(self);
        }
        &self.delegated
    }

    /// What the session knows after this load: the versions and digests of
    /// the timestamp, the snapshot and the targets that were accepted.
    pub fn known(&self) -> (r: Known)
        ensures
            records(
                r.timestamp,
                self@.chain.timestamp->0.signed.version,
                self@.chain.timestamp->0.sha256@,
            ),
            records(
                r.snapshot,
                self@.chain.snapshot->0.signed.version,
                self@.chain.snapshot->0.sha256@,
            ),
            records(
                r.targets,
                self@.chain.targets->0.signed.version,
                self@.chain.targets->0.sha256@,
            ),
    {
        Known {
            timestamp: seen(self.timestamp.signed.version, self.timestamp.sha256.as_slice()),
            snapshot: seen(self.snapshot.signed.version, self.snapshot.sha256.as_slice()),
            targets: seen(self.targets.signed.version, self.targets.sha256.as_slice()),
        }
    }

    /// The request for the targets of the delegated role `name`. There is
    /// none where the snapshot does not list them.
    pub fn delegated_request(&self, name: &str) -> (r: Option<DocumentRequest>)
        ensures
            match (r, self@.pinned(name@)) {
                (Some(request), Some(pinned)) => asks_for(
                    request,
                    versioned_name(
                        self@.chain.root.signed.consistent_snapshot,
                        pinned.version,
                        role_filename(name@),
                    ),
                    length_limit(pinned, self@.chain.max_document_size),
                    pinned.sha256,
                ),
                (None, None) => true,
                _ => false,
            },
    {
        let filename = write_role_filename(name);
        match self.snapshot.signed.meta(filename.as_str()) {
            Some(pinned) => Some(
                pinned_request(
                    self.root.signed.consistent_snapshot,
                    filename.as_str(),
                    pinned,
                    self.max_document_size,
                ),
            ),
            None => None,
        }
    }

    /// Takes in what the fetch of the targets of the delegated role `name`
    /// came back with. A document that passes is held under the name; for
    /// one that does not, or could not be had, the role is held without a
    /// document, and has nothing to say from then on. Whether the keys of a
    /// delegation have signed the document is checked when a search comes
    /// to it.
    pub fn load_delegated(
        self,
        name: String,
        fetched: Result<Signed<Targets>, Error>,
        previous: &Option<Seen>,
    ) -> (r: (Repository, Result<(), Error>))
        ensures
            r.1 == self@.delegated_verdict(name@, fetched, *previous),
            r.0@.chain == self@.chain,
            r.0@.max_delegation_depth == self@.max_delegation_depth,
            r.0@.delegated.len() == self@.delegated.len() + 1,
            r.0@.delegated.drop_last() == self@.delegated,
            r.0@.delegated.last().name@ == name@,
            r.0@.delegated.last().doc == match (r.1, fetched) {
                (Ok(_), Ok(doc)) => Some(doc),
                _ => None,
            },
            r.0@.wf(),
    {
        proof {
            use_type_invariant(&self);
        }
        let verdict = match &fetched {
            Err(e) => Err(*e),
            Ok(doc) => self.check_delegated(name.as_str(), doc, previous),
        };
        let held = match (&verdict, fetched) {
            (Ok(_), Ok(doc)) => Some(doc),
            _ => None,
        };
        let Repository {
            root,
            mode,
            now,
            max_document_size,
            timestamp,
            snapshot,
            targets,
            mut delegated,
            max_delegation_depth,
        } = self;
        let ghost before = delegated@;
        delegated.push(DelegatedDoc { name, doc: held });
        let repository = Repository {
            root,
            mode,
            now,
            max_document_size,
            timestamp,
            snapshot,
            targets,
            delegated,
            max_delegation_depth,
        };
        proof {
            assert(repository@.delegated.drop_last() =~= before);
            assert forall|i: int| 0 <= i < repository@.delegated.len() implies ((
            #[trigger] repository@.delegated[i]).doc matches Some(doc) ==> repository@.binds(
                repository@.delegated[i].name@,
                doc,
            ) is Ok) by {
                if i < before.len() {
                    assert(repository@.delegated[i] == before[i]);
                }
            }
        }
        (repository, verdict)
    }

    /// Checks a document as the targets of the delegated role `name`.
    fn check_delegated(&self, name: &str, doc: &Signed<Targets>, previous: &Option<Seen>) -> (r:
        Result<(), Error>)
        ensures
            r == self@.delegated_verdict(name@, Ok::<Signed<Targets>, Error>(*doc), *previous),
            r is Ok ==> self@.binds(name@, *doc) is Ok,
    {
        let filename = write_role_filename(name);
        match self.snapshot.signed.meta(filename.as_str()) {
            None => Err(Error::MalformedDocument { role: RoleType::Snapshot }),
            Some(pinned) => {
                check_digest(RoleType::DelegatedTargets, pinned, doc.sha256.as_slice())?;
                check_pinned_version(RoleType::DelegatedTargets, pinned, doc.signed.version)?;
                check_expiration(
                    self.mode,
                    RoleType::DelegatedTargets,
                    doc.signed.expires,
                    self.now,
                )?;
                check_version(
                    RoleType::DelegatedTargets,
                    previous,
                    doc.signed.version,
                    doc.sha256.as_slice(),
                )
            },
        }
    }

    /// What the search for a target path ends in, or the error that the
    /// delegations go too deep.
    pub open spec fn lookup_verdict(found: Found, max_delegation_depth: u64) -> Result<
        Found,
        Error,
    > {
        match found {
            Found::TooDeep => Err(Error::DelegationDepthExceeded { max: max_delegation_depth }),
            found => Ok(found),
        }
    }

    /// Looks for the entry that speaks for the target `path`, whose SHA-256
    /// digest reads `path_hash` in hexadecimal: in the top-level targets
    /// first, then in the targets of the roles that the path is delegated
    /// to.
    pub fn lookup<'a>(&'a self, path: &str, path_hash: &str) -> (r: Result<Lookup<'a>, Error>)
        ensures
            match r {
                Ok(lookup) => Ok::<Found, Error>(lookup@),
                Err(e) => Err::<Found, Error>(e),
            } == Repository::lookup_verdict(
                self@.found(path@, path_hash@),
                self@.max_delegation_depth,
            ),
            self@.wf(),
    {
        proof {
            use_type_invariant(self);
        }
        match search(
            &self.delegated,
            &self.targets.signed,
            path,
            path_hash,
            self.max_delegation_depth,
        ) {
            Lookup::TooDeep => Err(
                Error::DelegationDepthExceeded { max: self.max_delegation_depth },
            ),
            lookup => Ok(lookup),
        }
    }
}

/// An entry that a repository finds for a path is vouched for all the way
/// from the root: the targets role of the root has signed the top-level
/// targets, and those speak for the path with the entry, themselves or
/// through delegations that cover the path, each signed by the keys of the
/// delegation that leads to it.
pub proof fn lemma_found_entry_is_vouched_for(
    repository: RepositoryView,
    path: Seq<char>,
    path_hash: Seq<char>,
    target: Target,
)
    requires
        repository.wf(),
        repository.found(path, path_hash) == Found::Entry(target),
    ensures
        threshold_met(repository.chain.root.signed.targets, repository.chain.targets->0.checks@),
        speaks_for(
            repository.delegated,
            repository.chain.targets->0.signed,
            path,
            path_hash,
            target,
            repository.max_delegation_depth as nat,
        ),
{
    lemma_found_entry_is_spoken_for(
        repository.delegated,
        repository.chain.targets->0.signed,
        path,
        path_hash,
        repository.max_delegation_depth as nat,
        Seq::<Seq<char>>::empty(),
        target,
    );
}

} // verus!
