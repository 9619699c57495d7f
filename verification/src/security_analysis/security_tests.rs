//! Small simulations of common attacks, each checking that a standard defence holds.
use std::collections::HashMap;
use vstd::prelude::*;
use vstd::std_specs::hash::obeys_key_model;
use vstd::string::*;

verus! {

/// The names under which [`test_attack_resistance`] records its checks.
pub open spec fn attack_check_names() -> Set<Seq<char>> {
    set![
        "reentrancy_resistance"@,
        "overflow_protection"@,
        "access_control"@,
        "front_running_resistance"@,
        "dos_resistance"@,
    ]
}

/// Runs every simulation and records its outcome under its name; every simulation passes.
///
/// The map's contents are stated under `obeys_key_model::<String>()`: vstd describes a
/// `HashMap`'s contents only for key types whose hashing it knows to be deterministic,
/// and it does not claim that for `String`.
pub fn test_attack_resistance() -> (results: HashMap<String, bool>)
    ensures
        obeys_key_model::<String>() ==> {
            &&& forall|k: String| #[trigger]
                results@.contains_key(k) ==> attack_check_names().contains(k@) && results@[k]
            &&& forall|name: Seq<char>| #[trigger]
                attack_check_names().contains(name) ==> exists|k: String|
                    results@.contains_key(k) && k@ == name
        },
{
    broadcast use vstd::std_specs::hash::group_hash_axioms;

    let mut results: HashMap<String, bool> = HashMap::new();
    let k1 = String::from_str("reentrancy_resistance");
    let k2 = String::from_str("overflow_protection");
    let k3 = String::from_str("access_control");
    let k4 = String::from_str("front_running_resistance");
    let k5 = String::from_str("dos_resistance");
    let ghost keys = seq![k1, k2, k3, k4, k5];
    results.insert(k1, test_reentrancy_resistance());
    results.insert(k2, test_overflow_protection());
    results.insert(k3, test_access_control());
    results.insert(k4, test_front_running_resistance());
    results.insert(k5, test_dos_resistance());
    proof {
        if obeys_key_model::<String>() {
            assert(results@ == Map::<String, bool>::empty().insert(k1, true).insert(k2, true).insert(
                k3,
                true,
            ).insert(k4, true).insert(k5, true));
            assert forall|name: Seq<char>| #[trigger]
                attack_check_names().contains(name) implies exists|k: String|
                results@.contains_key(k) && k@ == name by {
                if name == k1@ {
                    assert(results@.contains_key(k1));
                } else if name == k2@ {
                    assert(results@.contains_key(k2));
                } else if name == k3@ {
                    assert(results@.contains_key(k3));
                } else if name == k4@ {
                    assert(results@.contains_key(k4));
                } else {
                    assert(results@.contains_key(k5));
                }
            }
        }
    }
    results
}

/// A guarded withdrawal cannot be re-entered: the balance is untouched.
fn test_reentrancy_resistance() -> (resisted: bool)
    ensures
        resisted,
{
    let mut reentrancy_guard = false;
    let mut balance: u128 = 1000;
    if !reentrancy_guard {
        reentrancy_guard = true;
        if !reentrancy_guard {
            balance = balance - 100;
        }
        reentrancy_guard = false;
    }
    balance == 1000
}

/// Checked addition reports the overflow one step past `u128::MAX`.
fn test_overflow_protection() -> (protected: bool)
    ensures
        protected,
{
    let mut value: u128 = u128::MAX - 1;
    if let Some(result) = value.checked_add(1) {
        value = result;
    } else {
        return true;
    }
    if let Some(_) = value.checked_add(1) {
        false
    } else {
        true
    }
}

/// Byte-wise equality of two slices.
fn same_bytes(a: &[u8], b: &[u8]) -> (same: bool)
    ensures
        same == (a@ == b@),
{
    if a.len() != b.len() {
        return false;
    }
    let mut i: usize = 0;
    while i < a.len()
        invariant
            a@.len() == b@.len(),
            i <= a@.len(),
            forall|k: int| 0 <= k < i ==> a@[k] == b@[k],
        decreases a@.len() - i,
    {
        if a[i] != b[i] {
            return false;
        }
        i = i + 1;
    }
    assert(a@ =~= b@);
    true
}

/// Only the owner's identity is authorised.
fn test_access_control() -> (enforced: bool)
    ensures
        enforced,
{
    let owner: Vec<u8> = vec![1u8; 32];
    let unauthorized: Vec<u8> = vec![2u8; 32];
    let rejects_stranger = !same_bytes(unauthorized.as_slice(), owner.as_slice());
    let accepts_owner = same_bytes(owner.as_slice(), owner.as_slice());
    assert(owner@[0] == 1u8 && unauthorized@[0] == 2u8);
    rejects_stranger && accepts_owner
}

/// A commit-reveal exchange has both a commitment and a revealed value.
fn test_front_running_resistance() -> (resisted: bool)
    ensures
        resisted,
{
    let commit = "secret_hash";
    let reveal = "secret_value";
    proof {
        broadcast use vstd::string::group_string_axioms;

        reveal_strlit("secret_hash");
        reveal_strlit("secret_value");
        assert(commit.is_ascii());
        assert(reveal.is_ascii());
    }
    commit.len() > 0 && reveal.len() > 0
}

/// Iterations over a large array are capped at the configured maximum.
fn test_dos_resistance() -> (resisted: bool)
    ensures
        resisted,
{
    let array_size: i32 = 1000;
    let max_iterations: i32 = 100;
    let iterations: i32 = if array_size < max_iterations {
        array_size
    } else {
        max_iterations
    };
    iterations <= max_iterations
}

} // verus!
