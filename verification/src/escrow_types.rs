//! The escrow data model: lifecycle states, approval kinds, escrow records and
//! multi-signature configurations. Accounts are identified by their 32-byte
//! ed25519 public keys.
use vstd::prelude::*;

verus! {

/// The lifecycle state of an escrow.
#[derive(Clone, Copy, Debug, PartialEq, Eq, Structural)]
pub enum EscrowStatus {
    Created,
    Funded,
    Active,
    Released,
    Refunded,
    Disputed,
    Cancelled,
}

/// The action an approval signature authorises.
#[derive(Clone, Copy, Debug, PartialEq, Eq, Structural)]
pub enum ApprovalType {
    Release,
    Refund,
    EmergencyOverride,
}

/// One escrow between a buyer and a seller over a property.
#[derive(Clone, Debug, PartialEq, Eq)]
pub struct EscrowData {
    pub id: u64,
    pub property_id: u64,
    pub buyer: [u8; 32],
    pub seller: [u8; 32],
    pub amount: i128,
    pub deposited_amount: i128,
    pub status: EscrowStatus,
    pub created_at: u64,
    pub release_time_lock: Option<u64>,
    pub participants: Vec<[u8; 32]>,
}

/// How many of the listed signers must approve an escrow action.
#[derive(Clone, Debug, PartialEq, Eq)]
pub struct MultiSigConfig {
    pub required_signatures: u32,
    pub signers: Vec<[u8; 32]>,
}

} // verus!
