//! The four kinds of metadata document, as the values that the trust rules
//! read.
//!
//! A document arrives as bytes. What the rules need of it is its payload,
//! the outcome of checking each of its signatures, and the digest of the
//! bytes: a [`Signed`] holds these.

pub use crate::error::RoleType;
use crate::seqs::{first_index, lemma_first_index_is, lemma_first_index_is_none};
use crate::text::str_eq;
use crate::threshold::{Key, Role, SignatureCheck};
use vstd::prelude::*;

verus! {

/// A document as it was fetched: its payload, its signatures after
/// checking, and the SHA-256 digest of its bytes.
#[derive(Clone, Debug)]
pub struct Signed<T> {
    /// The payload.
    pub signed: T,
    /// One check for each signature attached to the document, made with
    /// the keys of the role that must have signed it.
    pub checks: Vec<SignatureCheck>,
    /// The SHA-256 digest of the bytes of the document.
    pub sha256: Vec<u8>,
}

/// The payload of a root document: the roles and the keys that may sign
/// for them.
#[derive(Clone, Debug)]
pub struct Root {
    /// The version, which grows by one with each rotation.
    pub version: u64,
    /// The time after which the document is not to be trusted, in seconds
    /// since the epoch.
    pub expires: i64,
    /// The keys that the roles name.
    pub keys: Vec<Key>,
    /// The role that signs root documents.
    pub root: Role,
    /// The role that signs timestamp documents.
    pub timestamp: Role,
    /// The role that signs snapshot documents.
    pub snapshot: Role,
    /// The role that signs the top-level targets document.
    pub targets: Role,
    /// Whether the files of the repository carry their version in their
    /// names.
    pub consistent_snapshot: bool,
}

/// What one document says of another: its version and, where given, its
/// length and its SHA-256 digest.
#[derive(Clone, Debug)]
pub struct MetaRef {
    /// The version of the document referred to.
    pub version: u64,
    /// The length of the document in bytes, if declared.
    pub length: Option<u64>,
    /// The SHA-256 digest of the document, if declared.
    pub sha256: Option<Vec<u8>>,
}

/// The payload of a timestamp document.
#[derive(Clone, Debug)]
pub struct Timestamp {
    pub version: u64,
    pub expires: i64,
    /// The current snapshot document.
    pub snapshot: MetaRef,
}

/// One entry of a snapshot: the file name of a targets document and what
/// the snapshot says of it.
#[derive(Clone, Debug)]
pub struct SnapshotEntry {
    pub name: String,
    pub meta: MetaRef,
}

/// The payload of a snapshot document.
#[derive(Clone, Debug)]
pub struct Snapshot {
    pub version: u64,
    pub expires: i64,
    /// The targets documents of the repository, by file name.
    pub meta: Vec<SnapshotEntry>,
}

/// What a targets document says of one target.
#[derive(Clone, Debug)]
pub struct Target {
    /// The length of the target in bytes.
    pub length: u64,
    /// The SHA-256 digest of the target.
    pub sha256: Vec<u8>,
    /// Custom metadata, which the trust rules do not read.
    pub custom: Vec<u8>,
}

/// One entry of a targets document: a path and its target.
#[derive(Clone, Debug)]
pub struct TargetEntry {
    pub path: String,
    pub target: Target,
}

/// The paths that a delegation covers.
#[derive(Clone, Debug)]
pub enum PathSet {
    /// Patterns, in which `*` stands for any run of bytes.
    Patterns(Vec<String>),
    /// Prefixes of the hexadecimal SHA-256 digest of the path.
    HashPrefixes(Vec<String>),
}

/// One delegation: a role, the paths it may sign for, and whether the
/// search for such a path ends with it.
#[derive(Clone, Debug)]
pub struct Delegation {
    /// The name of the delegated role.
    pub name: String,
    /// The keys that sign the delegated targets document, and how many
    /// must.
    pub role: Role,
    /// The paths that the delegation covers.
    pub paths: PathSet,
    /// Whether a path that the delegation covers is looked for no further
    /// once the delegated role does not have it.
    pub terminating: bool,
}

/// The payload of a targets document.
#[derive(Clone, Debug)]
pub struct Targets {
    pub version: u64,
    pub expires: i64,
    /// The targets that the document lists itself.
    pub targets: Vec<TargetEntry>,
    /// The keys that the delegations name.
    pub keys: Vec<Key>,
    /// The delegations, in the order in which they are searched.
    pub delegations: Vec<Delegation>,
}

/// The index of the first entry of a snapshot for the file `name`.
pub open spec fn meta_index(entries: Seq<SnapshotEntry>, name: Seq<char>) -> Option<int> {
    first_index(entries, |entry: SnapshotEntry| entry.name@ == name)
}

impl Snapshot {
    /// What the snapshot says of the file `name`: the first entry with that
    /// name.
    pub open spec fn spec_meta(self, name: Seq<char>) -> Option<MetaRef> {
        match meta_index(self.meta@, name) {
            Some(i) => Some(self.meta@[i].meta),
            None => None,
        }
    }

    /// What the snapshot says of the file `name`.
    pub fn meta(&self, name: &str) -> (r: Option<&MetaRef>)
        ensures
            match r {
                Some(meta) => self.spec_meta(name@) == Some(*meta),
                None => self.spec_meta(name@) is None,
            },
    {
        let mut i: usize = 0;
        while i < self.meta.len()
            invariant
                i <= self.meta@.len(),
                forall|j: int| 0 <= j < i ==> (#[trigger] self.meta@[j]).name@ != name@,
            decreases self.meta@.len() - i,
        {
            if str_eq(self.meta[i].name.as_str(), name) {
                proof {
                    lemma_first_index_is(
                        self.meta@,
                        |entry: SnapshotEntry| entry.name@ == name@,
                        i as int,
                    );
                }
                return Some(&self.meta[i].meta);
            }
            i += 1;
        }
        proof {
            lemma_first_index_is_none(self.meta@, |entry: SnapshotEntry| entry.name@ == name@);
        }
        None
    }
}

} // verus!
