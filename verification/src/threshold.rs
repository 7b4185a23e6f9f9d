//! Threshold signatures: a document counts as signed by a role when enough
//! distinct keys of that role have signed it validly.

use crate::error::{Error, RoleType};
use crate::seqs::{first_index, lemma_first_index_is, lemma_first_index_is_none};
use crate::text::bytes_eq;
use vstd::prelude::*;

verus! {

/// A public key: the tag of its type, its material, and the identifier
/// that is derived from its content.
#[derive(Clone, Debug)]
pub struct Key {
    /// The identifier of the key.
    pub keyid: Vec<u8>,
    /// The tag that names the type of the key.
    pub keytype: String,
    /// The public-key material.
    pub public: Vec<u8>,
}

/// A signature attached to a document: the identifier of the key that
/// made it, and the signature itself.
#[derive(Clone, Debug)]
pub struct Signature {
    /// The identifier of the key that the signature names.
    pub keyid: Vec<u8>,
    /// The bytes of the signature.
    pub sig: Vec<u8>,
}

/// The keys that may sign for a role, and how many of them must.
#[derive(Clone, Debug)]
pub struct Role {
    /// The identifiers of the authorized keys.
    pub keyids: Vec<Vec<u8>>,
    /// The number of distinct keys that must sign. A role whose threshold
    /// is zero can never be met.
    pub threshold: u64,
}

/// One signature of a document, after it was checked against the key that
/// it names: the key's identifier, and whether the signature is a valid
/// signature of the document's canonical bytes by that key.
#[derive(Clone, Debug)]
pub struct SignatureCheck {
    /// The identifier of the key that the signature names.
    pub keyid: Vec<u8>,
    /// Whether the signature verified.
    pub valid: bool,
}

/// The index of the first key with the identifier `keyid`.
pub open spec fn key_index(keys: Seq<Key>, keyid: Seq<u8>) -> Option<int> {
    first_index(keys, |key: Key| key.keyid@ == keyid)
}

/// The key with which a signature that names `keyid` is to be verified for
/// a role: the first of the known keys with that identifier, provided the
/// role authorizes it. A signature by any other key is not verified at
/// all.
pub open spec fn verifying_key(keys: Seq<Key>, role: Role, keyid: Seq<u8>) -> Option<Key> {
    if role.keyids.deep_view().contains(keyid) {
        match key_index(keys, keyid) {
            Some(at) => Some(keys[at]),
            None => None,
        }
    } else {
        None
    }
}

/// The key with which `signature` is to be verified for `role`, among the
/// keys that were known before the signed document was read.
pub fn key_for<'a>(keys: &'a Vec<Key>, role: &Role, signature: &Signature) -> (r: Option<&'a Key>)
    ensures
        match (r, verifying_key(keys@, *role, signature.keyid@)) {
            (Some(key), Some(wanted)) => *key == wanted,
            (None, None) => true,
            _ => false,
        },
{
    let ghost keyids = role.keyids.deep_view();
    let mut authorized = false;
    let mut i: usize = 0;
    while i < role.keyids.len()
        invariant
            keyids == role.keyids.deep_view(),
            keyids.len() == role.keyids@.len(),
            i <= role.keyids@.len(),
            authorized == exists|j: int| 0 <= j < i && keyids[j] == signature.keyid@,
        decreases role.keyids@.len() - i,
    {
        assert(keyids[i as int] == role.keyids@[i as int]@);
        if bytes_eq(role.keyids[i].as_slice(), signature.keyid.as_slice()) {
            authorized = true;
        }
        i += 1;
    }
    if !authorized {
        return None;
    }
    assert(keyids.contains(signature.keyid@)) by {
        let j = choose|j: int| 0 <= j < keyids.len() && keyids[j] == signature.keyid@;
        assert(keyids[j] == signature.keyid@);
    }
    let mut k: usize = 0;
    while k < keys.len()
        invariant
            role.keyids.deep_view().contains(signature.keyid@),
            k <= keys@.len(),
            forall|j: int| 0 <= j < k ==> (#[trigger] keys@[j]).keyid@ != signature.keyid@,
        decreases keys@.len() - k,
    {
        if bytes_eq(keys[k].keyid.as_slice(), signature.keyid.as_slice()) {
            proof {
                lemma_first_index_is(
                    keys@,
                    |key: Key| key.keyid@ == signature.keyid@,
                    k as int,
                );
            }
            return Some(&keys[k]);
        }
        k += 1;
    }
    proof {
        lemma_first_index_is_none(keys@, |key: Key| key.keyid@ == signature.keyid@);
    }
    None
}

/// Whether some signature by the key `keyid` verified.
pub open spec fn signed_by(checks: Seq<SignatureCheck>, keyid: Seq<u8>) -> bool {
    exists|i: int| 0 <= i < checks.len() && is_valid_by(#[trigger] checks[i], keyid)
}

/// Whether a check is a valid signature by the key `keyid`.
pub open spec fn is_valid_by(check: SignatureCheck, keyid: Seq<u8>) -> bool {
    check.valid && check.keyid@ == keyid
}

/// The authorized keys that signed validly. Each key is in the set once,
/// however often it is listed or has signed.
pub open spec fn valid_signers(keyids: Seq<Seq<u8>>, checks: Seq<SignatureCheck>) -> Set<Seq<u8>> {
    Set::new(|keyid: Seq<u8>| keyids.contains(keyid) && signed_by(checks, keyid))
}

/// Whether the checks meet the threshold of a role.
pub open spec fn threshold_met(role: Role, checks: Seq<SignatureCheck>) -> bool {
    role.threshold >= 1 && valid_signers(role.keyids.deep_view(), checks).len() >= role.threshold
}

/// What the checks of a document of kind `kind` amount to under `role`.
pub open spec fn threshold_verdict(
    kind: RoleType,
    role: Role,
    checks: Seq<SignatureCheck>,
) -> Result<(), Error> {
    if threshold_met(role, checks) {
        Ok(())
    } else {
        Err(
            Error::SignatureThreshold {
                role: kind,
                threshold: role.threshold,
                valid: valid_signers(role.keyids.deep_view(), checks).len() as u64,
            },
        )
    }
}

/// The authorized keys that signed validly are finitely many: no more than
/// there are authorized keys.
pub proof fn lemma_valid_signers_finite(keyids: Seq<Seq<u8>>, checks: Seq<SignatureCheck>)
    ensures
        valid_signers(keyids, checks).finite(),
        valid_signers(keyids, checks).len() <= keyids.len(),
    decreases keyids.len(),
{
    if keyids.len() == 0 {
        assert(valid_signers(keyids, checks) =~= Set::<Seq<u8>>::empty());
    } else {
        lemma_valid_signers_finite(keyids.drop_last(), checks);
        lemma_valid_signers_step(keyids.drop_last(), keyids.last(), checks);
        assert(keyids.drop_last().push(keyids.last()) =~= keyids);
    }
}

/// One more authorized key adds itself to the valid signers if it signed
/// validly, and nothing otherwise.
proof fn lemma_valid_signers_step(
    keyids: Seq<Seq<u8>>,
    keyid: Seq<u8>,
    checks: Seq<SignatureCheck>,
)
    ensures
        valid_signers(keyids.push(keyid), checks) == if signed_by(checks, keyid) {
            valid_signers(keyids, checks).insert(keyid)
        } else {
            valid_signers(keyids, checks)
        },
{
    let longer = keyids.push(keyid);
    assert(longer[keyids.len() as int] == keyid);
    assert forall|k: Seq<u8>| longer.contains(k) <==> (keyids.contains(k) || k == keyid) by {
        if keyids.contains(k) {
            let i = choose|i: int| 0 <= i < keyids.len() && keyids[i] == k;
            assert(longer[i] == k);
        }
    }
    if signed_by(checks, keyid) {
        assert(valid_signers(longer, checks) =~= valid_signers(keyids, checks).insert(keyid));
    } else {
        assert(valid_signers(longer, checks) =~= valid_signers(keyids, checks));
    }
}

/// Whether some signature by the key `keyid` verified.
fn has_valid_check(checks: &Vec<SignatureCheck>, keyid: &Vec<u8>) -> (r: bool)
    ensures
        r == signed_by(checks@, keyid@),
{
    let mut i: usize = 0;
    while i < checks.len()
        invariant
            i <= checks@.len(),
            forall|j: int| 0 <= j < i ==> !is_valid_by(#[trigger] checks@[j], keyid@),
        decreases checks@.len() - i,
    {
        if checks[i].valid && bytes_eq(checks[i].keyid.as_slice(), keyid.as_slice()) {
            assert(is_valid_by(checks@[i as int], keyid@));
            return true;
        }
        i += 1;
    }
    false
}

/// Counts the distinct authorized keys of `role` that signed validly.
pub fn count_valid_signers(role: &Role, checks: &Vec<SignatureCheck>) -> (n: usize)
    ensures
        n == valid_signers(role.keyids.deep_view(), checks@).len(),
{
    let ghost keyids = role.keyids.deep_view();
    let mut n: usize = 0;
    let mut i: usize = 0;
    proof {
        assert(keyids.take(0) =~= Seq::<Seq<u8>>::empty());
        lemma_valid_signers_finite(keyids.take(0), checks@);
    }
    while i < role.keyids.len()
        invariant
            keyids == role.keyids.deep_view(),
            keyids.len() == role.keyids@.len(),
            i <= role.keyids@.len(),
            n == valid_signers(keyids.take(i as int), checks@).len(),
            n <= i,
        decreases role.keyids@.len() - i,
    {
        let keyid = &role.keyids[i];
        proof {
            assert(keyids[i as int] == keyid@);
            assert(keyids.take(i as int).push(keyid@) =~= keyids.take(i + 1));
            lemma_valid_signers_finite(keyids.take(i as int), checks@);
            lemma_valid_signers_step(keyids.take(i as int), keyid@, checks@);
        }
        if has_valid_check(checks, keyid) {
            let mut seen = false;
            let mut j: usize = 0;
            while j < i
                invariant
                    j <= i <= role.keyids@.len(),
                    keyids == role.keyids.deep_view(),
                    keyids.len() == role.keyids@.len(),
                    keyid@ == keyids[i as int],
                    seen == exists|k: int| 0 <= k < j && keyids[k] == keyid@,
                decreases i - j,
            {
                assert(keyids[j as int] == role.keyids@[j as int]@);
                if bytes_eq(role.keyids[j].as_slice(), keyid.as_slice()) {
                    seen = true;
                }
                j += 1;
            }
            proof {
                let earlier = keyids.take(i as int);
                if seen {
                    let k = choose|k: int| 0 <= k < i && keyids[k] == keyid@;
                    assert(earlier[k] == keyid@);
                    assert(earlier.contains(keyid@));
                    assert(valid_signers(earlier, checks@).contains(keyid@));
                } else {
                    if earlier.contains(keyid@) {
                        let k = choose|k: int| 0 <= k < earlier.len() && earlier[k] == keyid@;
                        assert(keyids[k] == keyid@);
                    }
                    assert(!valid_signers(earlier, checks@).contains(keyid@));
                }
            }
            if !seen {
                n += 1;
            }
        }
        i += 1;
    }
    assert(keyids.take(i as int) =~= keyids);
    n
}

/// Checks the signatures of a document of kind `kind` against the role
/// that must have signed it.
pub fn verify_threshold(kind: RoleType, role: &Role, checks: &Vec<SignatureCheck>) -> (r: Result<
    (),
    Error,
>)
    ensures
        r == threshold_verdict(kind, *role, checks@),
{
    let valid = count_valid_signers(role, checks);
    if role.threshold >= 1 && valid as u64 >= role.threshold {
        Ok(())
    } else {
        Err(
            Error::SignatureThreshold { role: kind, threshold: role.threshold, valid: valid as u64 },
        )
    }
}

/// One more signature adds its key to the valid signers if the signature
/// verified and the key is authorized, and nothing otherwise: a second
/// signature by a key that has signed already changes nothing.
pub proof fn lemma_duplicate_signature_counts_once(
    keyids: Seq<Seq<u8>>,
    checks: Seq<SignatureCheck>,
    extra: SignatureCheck,
)
    ensures
        valid_signers(keyids, checks.push(extra)) == if extra.valid && keyids.contains(
            extra.keyid@,
        ) {
            valid_signers(keyids, checks).insert(extra.keyid@)
        } else {
            valid_signers(keyids, checks)
        },
        signed_by(checks, extra.keyid@) ==> valid_signers(keyids, checks.push(extra))
            == valid_signers(keyids, checks),
{
    let longer = checks.push(extra);
    assert(longer[checks.len() as int] == extra);
    assert forall|k: Seq<u8>| signed_by(longer, k) <==> (signed_by(checks, k) || is_valid_by(
        extra,
        k,
    )) by {
        if signed_by(checks, k) {
            let i = choose|i: int| 0 <= i < checks.len() && is_valid_by(#[trigger] checks[i], k);
            assert(is_valid_by(longer[i], k));
        }
        if signed_by(longer, k) {
            let i = choose|i: int| 0 <= i < longer.len() && is_valid_by(#[trigger] longer[i], k);
            if i < checks.len() {
                assert(is_valid_by(checks[i], k));
            }
        }
    }
    if extra.valid && keyids.contains(extra.keyid@) {
        assert(valid_signers(keyids, longer) =~= valid_signers(keyids, checks).insert(
            extra.keyid@,
        ));
    } else {
        assert(valid_signers(keyids, longer) =~= valid_signers(keyids, checks));
    }
    if signed_by(checks, extra.keyid@) {
        assert(valid_signers(keyids, longer) =~= valid_signers(keyids, checks));
    }
}

/// Whether every check is a valid signature by an authorized key, and no
/// two checks are by the same key.
pub open spec fn distinct_valid_signatures(
    keyids: Seq<Seq<u8>>,
    checks: Seq<SignatureCheck>,
) -> bool {
    &&& forall|i: int|
        0 <= i < checks.len() ==> (#[trigger] checks[i]).valid && keyids.contains(checks[i].keyid@)
    &&& forall|i: int, j: int|
        0 <= i < j < checks.len() ==> (#[trigger] checks[i]).keyid@ != (#[trigger] checks[j]).keyid@
}

/// Valid signatures by distinct authorized keys count one each.
pub proof fn lemma_distinct_signatures_count(keyids: Seq<Seq<u8>>, checks: Seq<SignatureCheck>)
    requires
        distinct_valid_signatures(keyids, checks),
    ensures
        valid_signers(keyids, checks).len() == checks.len(),
    decreases checks.len(),
{
    if checks.len() == 0 {
        assert(valid_signers(keyids, checks) =~= Set::<Seq<u8>>::empty());
    } else {
        let earlier = checks.drop_last();
        let last = checks.last();
        assert(earlier.push(last) =~= checks);
        assert forall|i: int| 0 <= i < earlier.len() implies (#[trigger] earlier[i]).valid
            && keyids.contains(earlier[i].keyid@) by {
            assert(earlier[i] == checks[i]);
        }
        assert forall|i: int, j: int| 0 <= i < j < earlier.len() implies (
        #[trigger] earlier[i]).keyid@ != (#[trigger] earlier[j]).keyid@ by {
            assert(earlier[i] == checks[i] && earlier[j] == checks[j]);
        }
        lemma_distinct_signatures_count(keyids, earlier);
        lemma_valid_signers_finite(keyids, earlier);
        lemma_duplicate_signature_counts_once(keyids, earlier, last);
        if signed_by(earlier, last.keyid@) {
            let i = choose|i: int|
                0 <= i < earlier.len() && is_valid_by(#[trigger] earlier[i], last.keyid@);
            assert(checks[i].keyid@ == checks[checks.len() - 1].keyid@);
        }
        assert(!valid_signers(keyids, earlier).contains(last.keyid@));
    }
}

/// A document signed validly by one distinct authorized key fewer than the
/// threshold is refused, and one signed by exactly as many as the threshold
/// is accepted.
pub proof fn lemma_threshold_enforcement(kind: RoleType, role: Role, checks: Seq<SignatureCheck>)
    requires
        role.threshold >= 1,
        distinct_valid_signatures(role.keyids.deep_view(), checks),
    ensures
        checks.len() + 1 == role.threshold ==> threshold_verdict(kind, role, checks) == Err::<
            (),
            Error,
        >(
            Error::SignatureThreshold {
                role: kind,
                threshold: role.threshold,
                valid: checks.len() as u64,
            },
        ),
        checks.len() == role.threshold ==> threshold_verdict(kind, role, checks) == Ok::<
            (),
            Error,
        >(()),
{
    lemma_distinct_signatures_count(role.keyids.deep_view(), checks);
}

/// A further signature by a key that has signed validly already changes
/// nothing: no key counts twice toward the threshold.
pub proof fn lemma_repeated_signature_changes_nothing(
    kind: RoleType,
    role: Role,
    checks: Seq<SignatureCheck>,
    repeat: SignatureCheck,
)
    requires
        signed_by(checks, repeat.keyid@),
    ensures
        valid_signers(role.keyids.deep_view(), checks.push(repeat)) == valid_signers(
            role.keyids.deep_view(),
            checks,
        ),
        threshold_verdict(kind, role, checks.push(repeat)) == threshold_verdict(
            kind,
            role,
            checks,
        ),
{
    lemma_duplicate_signature_counts_once(role.keyids.deep_view(), checks, repeat);
}

} // verus!