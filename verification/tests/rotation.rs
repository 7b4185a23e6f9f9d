use tough::error::{Error, RoleType};
use tough::policy::ExpirationEnforcement;
use tough::root::{check_candidate, RootCandidate, RootStore, Rotation, RotationEvent, RotationStep};
use tough::schema::{Root, Signed};
use tough::threshold::{Role, SignatureCheck};
use tough::TransportErrorKind;

fn role(keyids: &[&str], threshold: u64) -> Role {
    Role { keyids: keyids.iter().map(|k| k.as_bytes().to_vec()).collect(), threshold }
}

fn checks(keyids: &[&str]) -> Vec<SignatureCheck> {
    keyids.iter().map(|k| SignatureCheck { keyid: k.as_bytes().to_vec(), valid: true }).collect()
}

fn root(version: u64, keyids: &[&str], threshold: u64, signed_by: &[&str]) -> Signed<Root> {
    Signed {
        signed: Root {
            version,
            expires: 2_000_000_000,
            keys: vec![],
            root: role(keyids, threshold),
            timestamp: role(&["t"], 1),
            snapshot: role(&["s"], 1),
            targets: role(&["g"], 1),
            consistent_snapshot: true,
        },
        checks: checks(signed_by),
        sha256: vec![version as u8],
    }
}

fn candidate(version: u64) -> RootCandidate {
    RootCandidate { signed: root(version, &["r"], 1, &["r"]), checks_by_trusted: checks(&["r"]) }
}

/// Rotates against a server that has the roots up to `newest`.
fn rotate_all(mut store: RootStore, newest: u64) -> (RootStore, Vec<u64>, RotationStep) {
    let mut kept = Vec::new();
    loop {
        match store.next() {
            RotationStep::Fetch { version } => {
                let event = if version <= newest {
                    RotationEvent::Fetched(candidate(version))
                } else {
                    RotationEvent::NotFound
                };
                let (after, rotation) = store.rotate(event);
                store = after;
                if let Some(accepted) = rotation.accepted {
                    kept.push(accepted);
                }
            }
            last => return (store, kept, last),
        }
    }
}

#[test]
fn rotation_ends_at_the_last_root_before_the_missing_one() {
    let store = RootStore::new(root(1, &["r"], 1, &["r"]), 1024);
    assert_eq!(store.next(), RotationStep::Fetch { version: 2 });
    let (store, kept, last) = rotate_all(store, 5);
    assert_eq!(last, RotationStep::Complete);
    assert_eq!(kept, vec![2, 3, 4, 5]);
    assert_eq!(store.trusted().signed.version, 5);
    assert_eq!(store.rotations(), 4);
    let trusted = store.finish(ExpirationEnforcement::Enforcing, 1_000_000_000, 1 << 20).unwrap();
    assert_eq!(trusted.root().signed.version, 5);
}

#[test]
fn rotation_is_refused_at_the_limit() {
    let store = RootStore::new(root(1, &["r"], 1, &["r"]), 3);
    let (store, kept, last) = rotate_all(store, 10);
    assert_eq!(last, RotationStep::Failed(Error::RotationLimitExceeded { max: 3 }));
    assert_eq!(kept, vec![2, 3, 4]);
    assert_eq!(store.rotations(), 3);
    assert_eq!(
        store.finish(ExpirationEnforcement::Enforcing, 1_000_000_000, 1 << 20).unwrap_err(),
        Error::RotationLimitExceeded { max: 3 }
    );
}

#[test]
fn the_limit_is_reached_before_the_missing_root_is_seen() {
    let store = RootStore::new(root(1, &["r"], 1, &["r"]), 3);
    let (_, kept, last) = rotate_all(store, 4);
    assert_eq!(kept, vec![2, 3, 4]);
    assert_eq!(last, RotationStep::Failed(Error::RotationLimitExceeded { max: 3 }));
    let store = RootStore::new(root(1, &["r"], 1, &["r"]), 4);
    let (_, kept, last) = rotate_all(store, 4);
    assert_eq!(kept, vec![2, 3, 4]);
    assert_eq!(last, RotationStep::Complete);
}

#[test]
fn a_limit_of_zero_refuses_every_load() {
    let store = RootStore::new(root(1, &["r"], 1, &["r"]), 0);
    assert_eq!(store.next(), RotationStep::Failed(Error::RotationLimitExceeded { max: 0 }));
}

#[test]
fn no_newer_root_leaves_the_trusted_one() {
    let store = RootStore::new(root(7, &["r"], 1, &["r"]), 10);
    assert_eq!(store.next(), RotationStep::Fetch { version: 8 });
    let (store, rotation) = store.rotate(RotationEvent::NotFound);
    assert_eq!(rotation, Rotation { accepted: None, next: RotationStep::Complete });
    assert_eq!(store.trusted().signed.version, 7);
    assert_eq!(store.rotations(), 0);
}

#[test]
fn a_failed_transport_refuses_the_load() {
    let store = RootStore::new(root(1, &["r"], 1, &["r"]), 10);
    let (store, rotation) = store.rotate(RotationEvent::Failure);
    let failure = Error::Transport { role: RoleType::Root, kind: TransportErrorKind::Failure };
    assert_eq!(rotation, Rotation { accepted: None, next: RotationStep::Failed(failure) });
    assert_eq!(store.next(), RotationStep::Failed(failure));
    // Nothing changes it afterwards.
    let (store, rotation) = store.rotate(RotationEvent::Fetched(candidate(2)));
    assert_eq!(rotation, Rotation { accepted: None, next: RotationStep::Failed(failure) });
    assert_eq!(store.trusted().signed.version, 1);
    assert_eq!(
        store.finish(ExpirationEnforcement::Permissive, 0, 1 << 20).unwrap_err(),
        failure
    );
}

#[test]
fn a_document_that_cannot_be_read_refuses_the_load() {
    let store = RootStore::new(root(1, &["r"], 1, &["r"]), 10);
    let (store, rotation) = store.rotate(RotationEvent::Malformed);
    let malformed = Error::MalformedDocument { role: RoleType::Root };
    assert_eq!(rotation, Rotation { accepted: None, next: RotationStep::Failed(malformed) });
    assert_eq!(store.trusted().signed.version, 1);
    assert_eq!(store.next(), RotationStep::Failed(malformed));
}

#[test]
fn a_root_must_be_signed_by_the_trusted_root_role() {
    let trusted = root(1, &["old1", "old2"], 2, &[]);
    let mut next = RootCandidate {
        signed: root(2, &["new"], 1, &["new"]),
        checks_by_trusted: checks(&["old1"]),
    };
    assert_eq!(
        check_candidate(&trusted.signed, &next),
        Err(Error::SignatureThreshold { role: RoleType::Root, threshold: 2, valid: 1 })
    );
    next.checks_by_trusted = checks(&["old1", "old2"]);
    assert_eq!(check_candidate(&trusted.signed, &next), Ok(()));
}

#[test]
fn a_root_must_be_signed_by_its_own_root_role() {
    let trusted = root(1, &["old"], 1, &[]);
    let mut next = RootCandidate {
        signed: root(2, &["new1", "new2"], 2, &["new1", "old"]),
        checks_by_trusted: checks(&["old"]),
    };
    assert_eq!(
        check_candidate(&trusted.signed, &next),
        Err(Error::SignatureThreshold { role: RoleType::Root, threshold: 2, valid: 1 })
    );
    next.signed.checks = checks(&["new1", "new2"]);
    assert_eq!(check_candidate(&trusted.signed, &next), Ok(()));
}

#[test]
fn a_root_must_have_the_next_version() {
    let trusted = root(4, &["r"], 1, &[]);
    assert_eq!(check_candidate(&trusted.signed, &candidate(5)), Ok(()));
    assert_eq!(
        check_candidate(&trusted.signed, &candidate(4)),
        Err(Error::VersionRollback { role: RoleType::Root, previous: 4, new: 4 })
    );
    assert_eq!(
        check_candidate(&trusted.signed, &candidate(3)),
        Err(Error::VersionRollback { role: RoleType::Root, previous: 4, new: 3 })
    );
    assert_eq!(
        check_candidate(&trusted.signed, &candidate(6)),
        Err(Error::MalformedDocument { role: RoleType::Root })
    );
}

#[test]
fn a_refused_root_is_not_taken_in() {
    let store = RootStore::new(root(1, &["r"], 1, &["r"]), 10);
    let (store, rotation) = store.rotate(RotationEvent::Fetched(candidate(3)));
    assert_eq!(rotation.accepted, None);
    assert_eq!(
        rotation.next,
        RotationStep::Failed(Error::MalformedDocument { role: RoleType::Root })
    );
    assert_eq!(store.trusted().signed.version, 1);
    assert_eq!(store.rotations(), 0);
}

#[test]
fn the_last_version_there_can_be_completes_the_rotation() {
    let store = RootStore::new(root(u64::MAX, &["r"], 1, &["r"]), 10);
    assert_eq!(store.next(), RotationStep::Complete);
    let store = RootStore::new(root(u64::MAX - 1, &["r"], 1, &["r"]), 10);
    let (store, rotation) = store.rotate(RotationEvent::Fetched(candidate(u64::MAX)));
    assert_eq!(
        rotation,
        Rotation { accepted: Some(u64::MAX), next: RotationStep::Complete }
    );
    assert_eq!(store.trusted().signed.version, u64::MAX);
}

#[test]
fn only_the_final_root_is_checked_for_expiration() {
    // Root 2 has expired, root 3 has not: root 2 still lets root 3 in.
    let store = RootStore::new(root(1, &["r"], 1, &["r"]), 10);
    let mut second = candidate(2);
    second.signed.signed.expires = 10;
    let (store, rotation) = store.rotate(RotationEvent::Fetched(second));
    assert_eq!(rotation.next, RotationStep::Fetch { version: 3 });
    let (store, _) = store.rotate(RotationEvent::Fetched(candidate(3)));
    let (store, rotation) = store.rotate(RotationEvent::NotFound);
    assert_eq!(rotation.next, RotationStep::Complete);
    assert!(store.finish(ExpirationEnforcement::Enforcing, 1_000, 1 << 20).is_ok());
}

#[test]
fn an_expired_final_root_is_refused_where_that_is_enforced() {
    let expired = || {
        let store = RootStore::new(root(1, &["r"], 1, &["r"]), 10);
        let mut second = candidate(2);
        second.signed.signed.expires = 10;
        let (store, _) = store.rotate(RotationEvent::Fetched(second));
        let (store, _) = store.rotate(RotationEvent::NotFound);
        store
    };
    assert_eq!(
        expired().finish(ExpirationEnforcement::Enforcing, 10, 1 << 20).unwrap_err(),
        Error::ExpiredMetadata { role: RoleType::Root }
    );
    assert!(expired().finish(ExpirationEnforcement::Enforcing, 9, 1 << 20).is_ok());
    assert!(expired().finish(ExpirationEnforcement::Permissive, 10, 1 << 20).is_ok());
}

#[test]
fn a_rotation_that_still_waits_cannot_be_finished() {
    let store = RootStore::new(root(1, &["r"], 1, &["r"]), 10);
    assert_eq!(
        store.finish(ExpirationEnforcement::Permissive, 0, 1 << 20).unwrap_err(),
        Error::Transport { role: RoleType::Root, kind: TransportErrorKind::Failure }
    );
}
