//! Security tooling for property-escrow contracts: a pattern-based vulnerability
//! scanner with risk scoring, multi-signature approval counting, a cross-chain
//! bridge ledger, and the escrow data model.
use vstd::prelude::*;

pub mod bridge;
pub mod escrow_types;
pub mod multisig;
pub mod security_analysis;
pub mod text;

verus! {

} // verus!
