use tough::error::{Error, RoleType};
use tough::threshold::{
    count_valid_signers, key_for, verify_threshold, Key, Role, Signature, SignatureCheck,
};

fn role(keyids: &[&str], threshold: u64) -> Role {
    Role { keyids: keyids.iter().map(|k| k.as_bytes().to_vec()).collect(), threshold }
}

fn check(keyid: &str, valid: bool) -> SignatureCheck {
    SignatureCheck { keyid: keyid.as_bytes().to_vec(), valid }
}

#[test]
fn one_key_fewer_than_the_threshold_is_refused() {
    let role = role(&["a", "b", "c"], 3);
    let checks = vec![check("a", true), check("b", true)];
    assert_eq!(count_valid_signers(&role, &checks), 2);
    assert_eq!(
        verify_threshold(RoleType::Timestamp, &role, &checks),
        Err(Error::SignatureThreshold { role: RoleType::Timestamp, threshold: 3, valid: 2 })
    );
}

#[test]
fn exactly_the_threshold_is_accepted() {
    let role = role(&["a", "b", "c"], 2);
    let checks = vec![check("c", true), check("a", true)];
    assert_eq!(count_valid_signers(&role, &checks), 2);
    assert_eq!(verify_threshold(RoleType::Snapshot, &role, &checks), Ok(()));
}

#[test]
fn more_than_the_threshold_is_accepted() {
    let role = role(&["a", "b", "c"], 2);
    let checks = vec![check("c", true), check("a", true), check("b", true)];
    assert_eq!(count_valid_signers(&role, &checks), 3);
    assert_eq!(verify_threshold(RoleType::Root, &role, &checks), Ok(()));
}

#[test]
fn a_key_that_signs_twice_counts_once() {
    let role = role(&["a", "b", "c"], 2);
    let checks = vec![check("a", true), check("a", true), check("a", true)];
    assert_eq!(count_valid_signers(&role, &checks), 1);
    assert_eq!(
        verify_threshold(RoleType::Targets, &role, &checks),
        Err(Error::SignatureThreshold { role: RoleType::Targets, threshold: 2, valid: 1 })
    );
}

#[test]
fn a_key_that_is_listed_twice_counts_once() {
    let role = role(&["a", "a", "b"], 2);
    let checks = vec![check("a", true)];
    assert_eq!(count_valid_signers(&role, &checks), 1);
    assert!(verify_threshold(RoleType::Targets, &role, &checks).is_err());
    let checks = vec![check("a", true), check("b", true)];
    assert_eq!(count_valid_signers(&role, &checks), 2);
    assert_eq!(verify_threshold(RoleType::Targets, &role, &checks), Ok(()));
}

#[test]
fn signatures_that_did_not_verify_do_not_count() {
    let role = role(&["a", "b"], 1);
    let checks = vec![check("a", false), check("b", false)];
    assert_eq!(count_valid_signers(&role, &checks), 0);
    assert_eq!(
        verify_threshold(RoleType::Root, &role, &checks),
        Err(Error::SignatureThreshold { role: RoleType::Root, threshold: 1, valid: 0 })
    );
    let checks = vec![check("a", false), check("a", true)];
    assert_eq!(count_valid_signers(&role, &checks), 1);
    assert_eq!(verify_threshold(RoleType::Root, &role, &checks), Ok(()));
}

#[test]
fn keys_that_are_not_authorized_do_not_count() {
    let role = role(&["a", "b"], 2);
    let checks = vec![check("a", true), check("x", true), check("y", true)];
    assert_eq!(count_valid_signers(&role, &checks), 1);
    assert_eq!(
        verify_threshold(RoleType::Snapshot, &role, &checks),
        Err(Error::SignatureThreshold { role: RoleType::Snapshot, threshold: 2, valid: 1 })
    );
}

#[test]
fn no_signature_meets_no_threshold() {
    let role = role(&["a"], 1);
    assert_eq!(count_valid_signers(&role, &vec![]), 0);
    assert!(verify_threshold(RoleType::Root, &role, &vec![]).is_err());
}

#[test]
fn a_threshold_of_zero_is_never_met() {
    let role = role(&["a"], 0);
    assert_eq!(
        verify_threshold(RoleType::Root, &role, &vec![]),
        Err(Error::SignatureThreshold { role: RoleType::Root, threshold: 0, valid: 0 })
    );
    assert_eq!(
        verify_threshold(RoleType::Root, &role, &vec![check("a", true)]),
        Err(Error::SignatureThreshold { role: RoleType::Root, threshold: 0, valid: 1 })
    );
}

#[test]
fn a_role_without_keys_is_never_met() {
    let role = role(&[], 1);
    assert_eq!(count_valid_signers(&role, &vec![check("a", true)]), 0);
    assert!(verify_threshold(RoleType::Root, &role, &vec![check("a", true)]).is_err());
}

#[test]
fn transport_errors_are_no_trust_failures() {
    let e = Error::Transport {
        role: RoleType::Timestamp,
        kind: tough::TransportErrorKind::FileNotFound,
    };
    assert!(!e.is_trust_failure());
    assert!(Error::DigestMismatch { role: RoleType::Snapshot }.is_trust_failure());
    assert!(Error::ExpiredMetadata { role: RoleType::Root }.is_trust_failure());
    assert!(Error::RotationLimitExceeded { max: 3 }.is_trust_failure());
    assert!(Error::DelegationDepthExceeded { max: 3 }.is_trust_failure());
    assert!(Error::MalformedDocument { role: RoleType::Root }.is_trust_failure());
    assert!(
        Error::VersionRollback { role: RoleType::Root, previous: 2, new: 1 }.is_trust_failure()
    );
    assert!(
        Error::SignatureThreshold { role: RoleType::Root, threshold: 2, valid: 1 }
            .is_trust_failure()
    );
}

fn key(keyid: &str, public: &[u8]) -> Key {
    Key {
        keyid: keyid.as_bytes().to_vec(),
        keytype: "ed25519".to_string(),
        public: public.to_vec(),
    }
}

fn signature(keyid: &str) -> Signature {
    Signature { keyid: keyid.as_bytes().to_vec(), sig: vec![0x51, 0x67] }
}

#[test]
fn a_signature_is_verified_with_the_key_that_it_names() {
    let keys = vec![key("a", &[1]), key("b", &[2]), key("c", &[3])];
    let role = role(&["c", "b"], 1);
    assert_eq!(key_for(&keys, &role, &signature("b")).unwrap().public, vec![2]);
    assert_eq!(key_for(&keys, &role, &signature("c")).unwrap().public, vec![3]);
}

#[test]
fn a_signature_by_a_key_that_the_role_does_not_authorize_is_not_verified() {
    let keys = vec![key("a", &[1]), key("b", &[2])];
    let role = role(&["b"], 1);
    assert!(key_for(&keys, &role, &signature("a")).is_none());
    assert!(key_for(&keys, &role, &signature("")).is_none());
}

#[test]
fn a_signature_by_a_key_that_is_not_known_is_not_verified() {
    let keys = vec![key("a", &[1])];
    let role = role(&["a", "b"], 1);
    assert!(key_for(&keys, &role, &signature("b")).is_none());
    assert!(key_for(&vec![], &role, &signature("a")).is_none());
}

#[test]
fn the_first_key_of_an_identifier_counts() {
    let keys = vec![key("a", &[1]), key("a", &[9])];
    let role = role(&["a"], 1);
    assert_eq!(key_for(&keys, &role, &signature("a")).unwrap().public, vec![1]);
}
