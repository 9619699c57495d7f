use ed25519_dalek::{Signer, SigningKey};
use propchain_security_tests::multisig::{verify_multisig, AdminConfig};

fn key(seed: u8) -> SigningKey {
    SigningKey::from_bytes(&[seed; 32])
}

fn public(k: &SigningKey) -> [u8; 32] {
    k.verifying_key().to_bytes()
}

fn sign(k: &SigningKey, msg: &[u8; 32]) -> [u8; 64] {
    k.sign(msg).to_bytes()
}

const HASH: [u8; 32] = [7u8; 32];

#[test]
fn threshold_met_by_admin_signatures() {
    let (a, b, c) = (key(1), key(2), key(3));
    let config = AdminConfig { admins: vec![public(&a), public(&b), public(&c)], threshold: 2 };
    let sigs = vec![(public(&a), sign(&a, &HASH)), (public(&c), sign(&c, &HASH))];
    assert!(verify_multisig(&HASH, &sigs, &config));
}

#[test]
fn forged_signature_does_not_count() {
    let (a, b) = (key(1), key(2));
    let config = AdminConfig { admins: vec![public(&a), public(&b)], threshold: 2 };
    let mut forged = sign(&b, &HASH);
    forged[0] ^= 1;
    let sigs = vec![(public(&a), sign(&a, &HASH)), (public(&b), forged)];
    assert!(!verify_multisig(&HASH, &sigs, &config));
}

#[test]
fn signature_over_other_message_does_not_count() {
    let a = key(1);
    let config = AdminConfig { admins: vec![public(&a)], threshold: 1 };
    let sigs = vec![(public(&a), sign(&a, &[8u8; 32]))];
    assert!(!verify_multisig(&HASH, &sigs, &config));
}

#[test]
fn outsider_signature_does_not_count() {
    let (a, outsider) = (key(1), key(9));
    let config = AdminConfig { admins: vec![public(&a)], threshold: 2 };
    let sigs = vec![(public(&a), sign(&a, &HASH)), (public(&outsider), sign(&outsider, &HASH))];
    assert!(!verify_multisig(&HASH, &sigs, &config));
    let config_one = AdminConfig { admins: vec![public(&a)], threshold: 1 };
    assert!(verify_multisig(&HASH, &sigs, &config_one));
}

#[test]
fn zero_threshold_approves_without_signatures() {
    let config = AdminConfig { admins: vec![], threshold: 0 };
    assert!(verify_multisig(&HASH, &vec![], &config));
}

#[test]
fn no_signatures_do_not_meet_positive_threshold() {
    let a = key(1);
    let config = AdminConfig { admins: vec![public(&a)], threshold: 1 };
    assert!(!verify_multisig(&HASH, &vec![], &config));
}

#[test]
fn repeated_admin_signature_counts_once() {
    let (a, b, c) = (key(1), key(2), key(3));
    let config = AdminConfig { admins: vec![public(&a), public(&b), public(&c)], threshold: 2 };
    let s = sign(&a, &HASH);
    let sigs = vec![(public(&a), s), (public(&a), s)];
    assert!(!verify_multisig(&HASH, &sigs, &config));
    let with_second = vec![(public(&a), s), (public(&a), s), (public(&b), sign(&b, &HASH))];
    assert!(verify_multisig(&HASH, &with_second, &config));
}

#[test]
fn duplicate_admin_listing_does_not_double_count() {
    let a = key(1);
    let config = AdminConfig { admins: vec![public(&a), public(&a)], threshold: 2 };
    let sigs = vec![(public(&a), sign(&a, &HASH))];
    assert!(!verify_multisig(&HASH, &sigs, &config));
}

#[test]
fn twenty_signatures_accepted() {
    let keys: Vec<SigningKey> = (1..=20u8).map(key).collect();
    let config = AdminConfig { admins: keys.iter().map(public).collect(), threshold: 20 };
    let sigs: Vec<([u8; 32], [u8; 64])> = keys.iter().map(|k| (public(k), sign(k, &HASH))).collect();
    assert!(verify_multisig(&HASH, &sigs, &config));
    let config_more = AdminConfig { admins: config.admins.clone(), threshold: 21 };
    assert!(!verify_multisig(&HASH, &sigs, &config_more));
}

#[test]
fn listing_more_admins_never_revokes() {
    let (a, b) = (key(1), key(2));
    let sigs = vec![(public(&a), sign(&a, &HASH)), (public(&b), sign(&b, &HASH))];
    let few = AdminConfig { admins: vec![public(&a)], threshold: 2 };
    let more = AdminConfig { admins: vec![public(&a), public(&b)], threshold: 2 };
    assert!(!verify_multisig(&HASH, &sigs, &few));
    assert!(verify_multisig(&HASH, &sigs, &more));
}
