use tough::delegation::Lookup;
use tough::loader::Trusted;
use tough::policy::{check_target, seen, Known};
use tough::root::{RootCandidate, RootStore, RotationEvent, RotationStep};
use tough::schema::{
    Delegation, MetaRef, PathSet, Root, RoleType, Signed, Snapshot, SnapshotEntry, Target,
    TargetEntry, Targets, Timestamp,
};
use tough::threshold::{Key, Role, SignatureCheck};
use tough::{Error, ExpirationEnforcement, Limits, Repository};

const NOW: i64 = 1_600_000_000;
const IN_2030: i64 = 1_893_456_000;
const IN_2019: i64 = 1_546_300_800;

const FILE1: &[u8] = b"This is an example target file.";
const FILE1_SHA256: &str = "65b8c67f51c993d898250f40aa57a317d854900b3a04895464313e48785440da";
const FILE2: &[u8] = b"This is an another example target file.";
const FILE2_SHA256: &str = "452ce8308500d83ef44248d8e6062359211992fd837ea9e370e561efb1a4ca99";

fn unhex(text: &str) -> Vec<u8> {
    (0..text.len() / 2).map(|i| u8::from_str_radix(&text[2 * i..2 * i + 2], 16).unwrap()).collect()
}

fn key(keyid: &str) -> Key {
    Key { keyid: keyid.as_bytes().to_vec(), keytype: "ed25519".to_string(), public: vec![] }
}

fn role(keyid: &str) -> Role {
    Role { keyids: vec![keyid.as_bytes().to_vec()], threshold: 1 }
}

fn signed_by<T>(keyid: &str, signed: T, sha256: u8) -> Signed<T> {
    Signed {
        signed,
        checks: vec![SignatureCheck { keyid: keyid.as_bytes().to_vec(), valid: true }],
        sha256: vec![sha256],
    }
}

fn root(version: u64) -> Signed<Root> {
    signed_by(
        "root-key",
        Root {
            version,
            expires: IN_2030,
            keys: vec![
                key("root-key"),
                key("timestamp-key"),
                key("snapshot-key"),
                key("targets-key"),
            ],
            root: role("root-key"),
            timestamp: role("timestamp-key"),
            snapshot: role("snapshot-key"),
            targets: role("targets-key"),
            consistent_snapshot: false,
        },
        version as u8,
    )
}

fn timestamp(expires: i64) -> Signed<Timestamp> {
    signed_by(
        "timestamp-key",
        Timestamp {
            version: 1,
            expires,
            snapshot: MetaRef { version: 1, length: None, sha256: Some(vec![0x53]) },
        },
        0x54,
    )
}

fn snapshot() -> Signed<Snapshot> {
    let entry = |name: &str, sha256: u8| SnapshotEntry {
        name: name.to_string(),
        meta: MetaRef { version: 1, length: None, sha256: Some(vec![sha256]) },
    };
    signed_by(
        "snapshot-key",
        Snapshot {
            version: 1,
            expires: IN_2030,
            meta: vec![entry("role1.json", 0x31), entry("targets.json", 0x47)],
        },
        0x53,
    )
}

fn targets() -> Signed<Targets> {
    let target = |path: &str, length: u64, sha256: &str| TargetEntry {
        path: path.to_string(),
        target: Target {
            length,
            sha256: unhex(sha256),
            custom: br#"{"file_permissions":"0644"}"#.to_vec(),
        },
    };
    signed_by(
        "targets-key",
        Targets {
            version: 1,
            expires: IN_2030,
            targets: vec![
                target("file1.txt", 31, FILE1_SHA256),
                target("file2.txt", 39, FILE2_SHA256),
            ],
            keys: vec![key("role1-key")],
            delegations: vec![Delegation {
                name: "role1".to_string(),
                role: role("role1-key"),
                paths: PathSet::Patterns(vec!["file3.txt".to_string()]),
                terminating: false,
            }],
        },
        0x47,
    )
}

/// Loads the repository, with a timestamp that expires at `timestamp_expires`.
fn load(
    trusted: Trusted,
    timestamp_expires: i64,
    limits: &Limits,
) -> Result<Repository, Error> {
    let stamped = trusted.load_timestamp(timestamp(timestamp_expires), &None)?;
    let snapshotted = stamped.load_snapshot(snapshot(), &None)?;
    Repository::load(snapshotted, targets(), &None, limits.max_delegation_depth)
}

fn load_from_root(
    timestamp_expires: i64,
    mode: ExpirationEnforcement,
) -> Result<Repository, Error> {
    let limits = Limits::default();
    let trusted = Trusted::new(root(1), mode, NOW, limits.max_document_size)?;
    load(trusted, timestamp_expires, &limits)
}

#[test]
fn default_limits_bound_rotations_depth_and_size() {
    let limits = Limits::default();
    assert_eq!(limits.max_root_rotations, 1024);
    assert_eq!(limits.max_delegation_depth, 32);
    assert_eq!(limits.max_document_size, 10 * 1024 * 1024);
}

/// An expired repository is not loaded where expiration is enforced.
#[test]
fn test_expiration_enforcement_safe() {
    let result = load_from_root(IN_2019, ExpirationEnforcement::Enforcing);
    if let Err(err) = result {
        match err {
            Error::ExpiredMetadata { role } => {
                assert_eq!(role, RoleType::Timestamp);
            }
            _ => {
                panic!(
                    "Expected an error type of 'ExpiredMetadata' but received a different error."
                );
            }
        }
    } else {
        panic!("Repository::load was expected to return an error.")
    }
}

/// An expired repository is loaded where expiration is not enforced.
#[test]
fn test_expiration_enforcement_unsafe() {
    let result = load_from_root(IN_2019, ExpirationEnforcement::Permissive);
    assert!(result.is_ok())
}

/// A repository whose root was rotated once is loaded from the first root.
#[test]
fn rotated_root() {
    let limits = Limits::default();
    let mut store = RootStore::new(root(1), limits.max_root_rotations);
    while let RotationStep::Fetch { version } = store.next() {
        let event = if version == 2 {
            RotationEvent::Fetched(RootCandidate {
                signed: root(2),
                checks_by_trusted: root(2).checks,
            })
        } else {
            RotationEvent::NotFound
        };
        store = store.rotate(event).0;
    }
    let trusted =
        store.finish(ExpirationEnforcement::Enforcing, NOW, limits.max_document_size).unwrap();
    let repo = load(trusted, IN_2030, &limits).unwrap();

    assert_eq!(repo.root().signed.version, 2);
}

/// A repository with two listed targets and one delegated role.
#[test]
fn test_tuf_reference_impl() {
    let repo = load_from_root(IN_2030, ExpirationEnforcement::Enforcing).unwrap();

    let read = |path: &str, content: &[u8], sha256: &str| match repo.lookup(path, "").unwrap() {
        Lookup::Found(target) => {
            check_target(target, content.len() as u64, &unhex(sha256)).unwrap();
            content.to_vec()
        }
        _ => panic!("{} is listed", path),
    };
    assert_eq!(read("file1.txt", FILE1, FILE1_SHA256), &b"This is an example target file."[..]);
    assert_eq!(
        read("file2.txt", FILE2, FILE2_SHA256),
        &b"This is an another example target file."[..]
    );
    assert_eq!(FILE1.len(), 31);
    assert_eq!(FILE2.len(), 39);
    assert_eq!(
        repo.targets().signed.targets[0].target.custom,
        br#"{"file_permissions":"0644"}"#.to_vec()
    );

    assert!(repo.targets().signed.target_is_delegated("file3.txt", ""));
    assert!(!repo.targets().signed.target_is_delegated("file4.txt", ""));
}

/// A target that was cut short, or whose bytes were changed, is not handed
/// over.
#[test]
fn a_target_that_is_not_as_declared_is_refused() {
    let repo = load_from_root(IN_2030, ExpirationEnforcement::Enforcing).unwrap();
    let target = match repo.lookup("file1.txt", "").unwrap() {
        Lookup::Found(target) => target,
        _ => panic!("file1.txt is listed"),
    };
    let mismatch = Err(Error::DigestMismatch { role: RoleType::Targets });
    assert_eq!(check_target(target, 30, &unhex(FILE1_SHA256)), mismatch);
    assert_eq!(check_target(target, 31, &unhex(FILE2_SHA256)), mismatch);
    assert_eq!(check_target(target, 31, &unhex(FILE1_SHA256)), Ok(()));
}

/// The delegated target is found only once the document of its role is
/// loaded and signed by the key of the delegation.
#[test]
fn a_delegated_target_needs_the_signed_document_of_its_role() {
    let repo = load_from_root(IN_2030, ExpirationEnforcement::Enforcing).unwrap();
    assert!(matches!(repo.lookup("file3.txt", "").unwrap(), Lookup::Need { at: 0, .. }));
    assert!(repo.delegated().is_empty());
    let role1 = |keyid: &str| {
        signed_by(
            keyid,
            Targets {
                version: 1,
                expires: IN_2030,
                targets: vec![TargetEntry {
                    path: "file3.txt".to_string(),
                    target: Target { length: 28, sha256: vec![3], custom: vec![] },
                }],
                keys: vec![],
                delegations: vec![],
            },
            0x31,
        )
    };
    let (repo, loaded) = repo.load_delegated("role1".to_string(), Ok(role1("targets-key")), &None);
    assert_eq!(loaded, Ok(()));
    assert_eq!(repo.delegated().len(), 1);
    assert!(matches!(repo.lookup("file3.txt", "").unwrap(), Lookup::NotFound));

    let repo = load_from_root(IN_2030, ExpirationEnforcement::Enforcing).unwrap();
    let (repo, loaded) = repo.load_delegated("role1".to_string(), Ok(role1("role1-key")), &None);
    assert_eq!(loaded, Ok(()));
    match repo.lookup("file3.txt", "").unwrap() {
        Lookup::Found(target) => assert_eq!(target.length, 28),
        _ => panic!("role1 lists file3.txt"),
    }
}

/// What a load has accepted is what the next load of the session must not
/// go back on.
#[test]
fn a_session_does_not_go_back_on_what_it_has_accepted() {
    let first = Known::new();
    assert!(first.timestamp.is_none() && first.snapshot.is_none() && first.targets.is_none());
    let repo = load_from_root(IN_2030, ExpirationEnforcement::Enforcing).unwrap();
    let known = repo.known();
    let recorded = known.timestamp.clone().unwrap();
    assert_eq!((recorded.version, recorded.sha256), (1, vec![0x54]));
    let recorded = known.snapshot.clone().unwrap();
    assert_eq!((recorded.version, recorded.sha256), (1, vec![0x53]));
    let recorded = known.targets.clone().unwrap();
    assert_eq!((recorded.version, recorded.sha256), (1, vec![0x47]));

    // The same documents are loaded again.
    let limits = Limits::default();
    let trusted = || {
        Trusted::new(root(1), ExpirationEnforcement::Enforcing, NOW, limits.max_document_size)
            .unwrap()
    };
    let stamped = trusted().load_timestamp(timestamp(IN_2030), &known.timestamp).unwrap();
    let snapshotted = stamped.load_snapshot(snapshot(), &known.snapshot).unwrap();
    assert!(Repository::load(snapshotted, targets(), &known.targets, 8).is_ok());

    // A session that has seen a newer timestamp does not take this one.
    let newer = seen(2, &[0x55]);
    assert_eq!(
        trusted().load_timestamp(timestamp(IN_2030), &newer).unwrap_err(),
        Error::VersionRollback { role: RoleType::Timestamp, previous: 2, new: 1 }
    );
    // Nor one of the same version with other bytes.
    let other = seen(1, &[0x56]);
    assert_eq!(
        trusted().load_timestamp(timestamp(IN_2030), &other).unwrap_err(),
        Error::VersionRollback { role: RoleType::Timestamp, previous: 1, new: 1 }
    );
}
