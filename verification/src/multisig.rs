//! Multi-signature approval: an action is approved when enough administrators
//! have signed its hash.
use vstd::prelude::*;

verus! {

/// The most signatures one approval may carry.
pub const MAX_SIGNATURES: usize = 20;

/// The administrators (by ed25519 public key) and how many of them must sign.
pub struct AdminConfig {
    pub admins: Vec<[u8; 32]>,
    pub threshold: u32,
}

/// Whether the ed25519 verification of the Soroban host accepts `signature` as a
/// signature of `message` by `public_key`.
pub uninterp spec fn ed25519_accepts(public_key: Seq<u8>, message: Seq<u8>, signature: Seq<u8>) -> bool;

/// Checks an ed25519 signature with the Soroban host's `verify_sig_ed25519` (the
/// check behind `soroban_sdk::crypto::Crypto::ed25519_verify`, taken here with its
/// outcome as a value instead of a panic).
///
/// Trusted: the result is `ed25519_accepts` of the key, message and signature. The
/// host is created fresh for each call with its default budget, so nothing but the
/// three arguments decides the outcome; what the host accepts (strict ed25519
/// verification, refusal of malformed keys) is not stated here.
#[verifier::external_body]
fn signature_valid(public_key: &[u8; 32], message: &[u8; 32], signature: &[u8; 64]) -> (valid: bool)
    ensures
        valid == ed25519_accepts(public_key@, message@, signature@),
{
    let config = soroban_sdk::testutils::EnvTestConfig { capture_snapshot_at_drop: false };
    let env = soroban_sdk::Env::new_with_config(config);
    let key = soroban_sdk::BytesN::from_array(&env, public_key);
    let payload = soroban_sdk::Bytes::from_array(&env, message);
    let sig = soroban_sdk::BytesN::from_array(&env, signature);
    let host = env.host();
    soroban_env_host::Env::verify_sig_ed25519(host, key.to_object(), payload.to_object(), sig.to_object()).is_ok()
}

/// `who` is one of the configured administrators.
pub open spec fn is_admin(admins: Seq<[u8; 32]>, who: [u8; 32]) -> bool {
    exists|i: int| 0 <= i < admins.len() && #[trigger] admins[i]@ == who@
}

/// A signature counts when its signer is an administrator and the signature verifies.
pub open spec fn counts(admins: Seq<[u8; 32]>, action_hash: [u8; 32], entry: ([u8; 32], [u8; 64])) -> bool {
    is_admin(admins, entry.0) && ed25519_accepts(entry.0@, action_hash@, entry.1@)
}

/// The administrators who approve: the keys of signers whose signature counts, each
/// taken once, in the order of their first counting signature.
pub open spec fn approvers(
    admins: Seq<[u8; 32]>,
    action_hash: [u8; 32],
    signatures: Seq<([u8; 32], [u8; 64])>,
) -> Seq<Seq<u8>>
    decreases signatures.len(),
{
    if signatures.len() == 0 {
        Seq::empty()
    } else {
        let earlier = approvers(admins, action_hash, signatures.drop_last());
        let entry = signatures.last();
        if counts(admins, action_hash, entry) && !earlier.contains(entry.0@) {
            earlier.push(entry.0@)
        } else {
            earlier
        }
    }
}

/// How many distinct administrators have signed validly.
pub open spec fn valid_signature_count(
    admins: Seq<[u8; 32]>,
    action_hash: [u8; 32],
    signatures: Seq<([u8; 32], [u8; 64])>,
) -> nat {
    approvers(admins, action_hash, signatures).len()
}

/// The keys of the administrators with at least one counting signature.
pub open spec fn approving_keys(
    admins: Seq<[u8; 32]>,
    action_hash: [u8; 32],
    signatures: Seq<([u8; 32], [u8; 64])>,
) -> Set<Seq<u8>> {
    Set::new(
        |k: Seq<u8>|
            exists|i: int|
                0 <= i < signatures.len() && #[trigger] counts(admins, action_hash, signatures[i])
                    && signatures[i].0@ == k,
    )
}

/// The approvers are distinct, and they are exactly the approving keys.
pub proof fn lemma_approvers_are_approving_keys(
    admins: Seq<[u8; 32]>,
    action_hash: [u8; 32],
    signatures: Seq<([u8; 32], [u8; 64])>,
)
    ensures
        approvers(admins, action_hash, signatures).no_duplicates(),
        approvers(admins, action_hash, signatures).to_set() == approving_keys(
            admins,
            action_hash,
            signatures,
        ),
    decreases signatures.len(),
{
    broadcast use vstd::seq_lib::group_seq_properties;
    broadcast use vstd::set::group_set_axioms;

    let a = approvers(admins, action_hash, signatures);
    let keys = approving_keys(admins, action_hash, signatures);
    if signatures.len() == 0 {
        assert(a.to_set() =~= keys);
    } else {
        let prev = signatures.drop_last();
        lemma_approvers_are_approving_keys(admins, action_hash, prev);
        let earlier = approvers(admins, action_hash, prev);
        let prev_keys = approving_keys(admins, action_hash, prev);
        let entry = signatures.last();
        let n = prev.len() as int;
        assert forall|k: Seq<u8>| #[trigger] keys.contains(k) <==> (prev_keys.contains(k) || (
        counts(admins, action_hash, entry) && entry.0@ == k)) by {
            if keys.contains(k) {
                let i = choose|i: int|
                    0 <= i < signatures.len() && #[trigger] counts(
                        admins,
                        action_hash,
                        signatures[i],
                    ) && signatures[i].0@ == k;
                if i < n {
                    assert(prev[i] == signatures[i]);
                    assert(prev_keys.contains(k));
                }
            }
            if prev_keys.contains(k) {
                let i = choose|i: int|
                    0 <= i < prev.len() && #[trigger] counts(admins, action_hash, prev[i])
                        && prev[i].0@ == k;
                assert(signatures[i] == prev[i]);
            }
            if counts(admins, action_hash, entry) && entry.0@ == k {
                assert(signatures[n] == entry);
            }
        }
        if counts(admins, action_hash, entry) && !earlier.contains(entry.0@) {
            assert(a == earlier.push(entry.0@));
            assert forall|i: int, j: int| 0 <= i < j < a.len() implies a[i] != a[j] by {
                if j == earlier.len() {
                    assert(earlier.contains(earlier[i]));
                }
            }
            assert forall|k: Seq<u8>| #[trigger] a.to_set().contains(k) <==> keys.contains(k) by {
                assert(a.contains(k) <==> (earlier.contains(k) || k == entry.0@)) by {
                    if a.contains(k) {
                        let i = choose|i: int| 0 <= i < a.len() && a[i] == k;
                        if i < earlier.len() {
                            assert(earlier[i] == k);
                        }
                    }
                    if earlier.contains(k) {
                        let i = choose|i: int| 0 <= i < earlier.len() && earlier[i] == k;
                        assert(a[i] == k);
                    }
                    if k == entry.0@ {
                        assert(a[earlier.len() as int] == k);
                    }
                }
            }
            assert(a.to_set() =~= keys);
        } else {
            assert(a == earlier);
            assert forall|k: Seq<u8>| #[trigger] a.to_set().contains(k) <==> keys.contains(k) by {
                if counts(admins, action_hash, entry) && entry.0@ == k {
                    assert(earlier.contains(k));
                }
            }
            assert(a.to_set() =~= keys);
        }
    }
}

/// The number of approvals is the number of distinct approving keys.
pub proof fn lemma_count_is_approving_keys(
    admins: Seq<[u8; 32]>,
    action_hash: [u8; 32],
    signatures: Seq<([u8; 32], [u8; 64])>,
)
    ensures
        approving_keys(admins, action_hash, signatures).finite(),
        valid_signature_count(admins, action_hash, signatures) == approving_keys(
            admins,
            action_hash,
            signatures,
        ).len(),
{
    broadcast use vstd::seq_lib::seq_to_set_is_finite;

    lemma_approvers_are_approving_keys(admins, action_hash, signatures);
    approvers(admins, action_hash, signatures).unique_seq_to_set();
}

/// Byte-wise equality of two keys.
fn same_key(a: &[u8; 32], b: &[u8; 32]) -> (same: bool)
    ensures
        same == (a@ == b@),
{
    let mut i: usize = 0;
    while i < 32
        invariant
            i <= 32,
            a@.len() == 32,
            b@.len() == 32,
            forall|k: int| 0 <= k < i ==> a@[k] == b@[k],
        decreases 32 - i,
    {
        if a[i] != b[i] {
            return false;
        }
        i = i + 1;
    }
    assert(a@ =~= b@);
    true
}

/// Whether `who` is among `admins`.
fn admin_listed(admins: &Vec<[u8; 32]>, who: &[u8; 32]) -> (listed: bool)
    ensures
        listed == is_admin(admins@, *who),
{
    let mut i: usize = 0;
    while i < admins.len()
        invariant
            i <= admins@.len(),
            forall|k: int| 0 <= k < i ==> admins@[k]@ != who@,
        decreases admins@.len() - i,
    {
        if same_key(&admins[i], who) {
            return true;
        }
        i = i + 1;
    }
    false
}

/// The approvers of a prefix are a prefix of the approvers of the whole list.
pub proof fn lemma_count_prefix_monotone(
    admins: Seq<[u8; 32]>,
    action_hash: [u8; 32],
    signatures: Seq<([u8; 32], [u8; 64])>,
    i: int,
)
    requires
        0 <= i <= signatures.len(),
    ensures
        valid_signature_count(admins, action_hash, signatures.subrange(0, i))
            <= valid_signature_count(admins, action_hash, signatures),
    decreases signatures.len() - i,
{
    if i < signatures.len() {
        lemma_count_prefix_monotone(admins, action_hash, signatures, i + 1);
        assert(signatures.subrange(0, i + 1).drop_last() =~= signatures.subrange(0, i));
    } else {
        assert(signatures.subrange(0, i) =~= signatures);
    }
}

/// Approves the action whose hash is `action_hash` when at least `config.threshold`
/// distinct configured administrators have validly signed the hash. Further signatures
/// by an administrator who already approved are not counted, and verification stops as
/// soon as the threshold is reached. Each signature is checked on a host environment
/// of its own, so the outcome depends only on the keys, hash and signatures.
pub fn verify_multisig(
    action_hash: &[u8; 32],
    signatures: &Vec<([u8; 32], [u8; 64])>,
    config: &AdminConfig,
) -> (approved: bool)
    requires
        signatures@.len() <= MAX_SIGNATURES,
    ensures
        approved == (valid_signature_count(config.admins@, *action_hash, signatures@)
            >= config.threshold),
{
    let ghost all = signatures@;
    let ghost admins = config.admins@;
    let mut approved: Vec<[u8; 32]> = Vec::new();
    let mut valid_count: u32 = 0;
    let mut i: usize = 0;
    while i < signatures.len()
        invariant
            all == signatures@,
            admins == config.admins@,
            all.len() <= MAX_SIGNATURES,
            i <= all.len(),
            keys_of(approved@) == approvers(admins, *action_hash, all.subrange(0, i as int)),
            valid_count == approved@.len(),
            valid_count <= i,
        decreases all.len() - i,
    {
        if valid_count >= config.threshold {
            proof {
                lemma_count_prefix_monotone(admins, *action_hash, all, i as int);
            }
            return true;
        }
        let entry = &signatures[i];
        let ghost earlier = keys_of(approved@);
        assert(all.subrange(0, i + 1).drop_last() =~= all.subrange(0, i as int));
        assert(all.subrange(0, i + 1).last() == *entry);
        let already = admin_listed(&approved, &entry.0);
        assert(already == earlier.contains(entry.0@)) by {
            if already {
                let k = choose|k: int| 0 <= k < approved@.len() && #[trigger] approved@[k]@ == entry.0@;
                assert(earlier[k] == entry.0@);
            }
            if earlier.contains(entry.0@) {
                let k = choose|k: int| 0 <= k < earlier.len() && earlier[k] == entry.0@;
                assert(approved@[k]@ == entry.0@);
            }
        }
        if !already && admin_listed(&config.admins, &entry.0) {
            if signature_valid(&entry.0, action_hash, &entry.1) {
                approved.push(entry.0);
                valid_count = valid_count + 1;
                assert(keys_of(approved@) =~= earlier.push(entry.0@));
            }
        }
        i = i + 1;
    }
    assert(all.subrange(0, i as int) =~= all);
    valid_count >= config.threshold
}

/// The keys, as byte sequences.
pub open spec fn keys_of(keys: Seq<[u8; 32]>) -> Seq<Seq<u8>> {
    keys.map_values(|k: [u8; 32]| k@)
}

/// Each administrator counts at most once: the approvals are the distinct administrator
/// keys that carry a valid signature, however often each appears.
pub proof fn law_each_admin_counted_once(
    admins: Seq<[u8; 32]>,
    action_hash: [u8; 32],
    signatures: Seq<([u8; 32], [u8; 64])>,
)
    ensures
        approvers(admins, action_hash, signatures).no_duplicates(),
        valid_signature_count(admins, action_hash, signatures) == approving_keys(
            admins,
            action_hash,
            signatures,
        ).len(),
{
    lemma_approvers_are_approving_keys(admins, action_hash, signatures);
    lemma_count_is_approving_keys(admins, action_hash, signatures);
}

/// Listing more administrators never withdraws an approval.
pub proof fn law_more_admins_never_revoke(
    admins: Seq<[u8; 32]>,
    more_admins: Seq<[u8; 32]>,
    action_hash: [u8; 32],
    signatures: Seq<([u8; 32], [u8; 64])>,
)
    requires
        forall|k: [u8; 32]| is_admin(admins, k) ==> is_admin(more_admins, k),
    ensures
        valid_signature_count(admins, action_hash, signatures) <= valid_signature_count(
            more_admins,
            action_hash,
            signatures,
        ),
{
    let small = approving_keys(admins, action_hash, signatures);
    let large = approving_keys(more_admins, action_hash, signatures);
    lemma_count_is_approving_keys(admins, action_hash, signatures);
    lemma_count_is_approving_keys(more_admins, action_hash, signatures);
    assert forall|k: Seq<u8>| small.contains(k) implies large.contains(k) by {
        let i = choose|i: int|
            0 <= i < signatures.len() && #[trigger] counts(admins, action_hash, signatures[i])
                && signatures[i].0@ == k;
        assert(counts(more_admins, action_hash, signatures[i]));
    }
    vstd::set_lib::lemma_len_subset(small, large);
}

/// Signatures from accounts outside the administrator list never count: adding one
/// leaves the approvers, and so the approval, unchanged.
pub proof fn law_outsider_signature_ignored(
    admins: Seq<[u8; 32]>,
    action_hash: [u8; 32],
    signatures: Seq<([u8; 32], [u8; 64])>,
    extra: ([u8; 32], [u8; 64]),
)
    requires
        !is_admin(admins, extra.0),
    ensures
        approvers(admins, action_hash, signatures.push(extra)) == approvers(
            admins,
            action_hash,
            signatures,
        ),
{
    assert(signatures.push(extra).drop_last() =~= signatures);
}

/// Adding a signature never withdraws an approval.
pub proof fn law_more_signatures_never_revoke(
    admins: Seq<[u8; 32]>,
    action_hash: [u8; 32],
    signatures: Seq<([u8; 32], [u8; 64])>,
    extra: ([u8; 32], [u8; 64]),
)
    ensures
        valid_signature_count(admins, action_hash, signatures) <= valid_signature_count(
            admins,
            action_hash,
            signatures.push(extra),
        ),
{
    assert(signatures.push(extra).drop_last() =~= signatures);
}

} // verus!
