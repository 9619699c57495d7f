# propchain_security_tests

Security tooling for property-escrow smart contracts, written in Verus.

- `src/security_analysis.rs` — a pattern-based vulnerability scanner. Each check is
  specified over the UTF-8 bytes of the scanned text; risk metrics and the 0–100
  security score are exact fractions. Proved laws: the score lies in `[0, 100]`, it is
  100 exactly when nothing is found, severity counts partition the findings, every
  kind of finding has a fixed severity, and the `unchecked_*` patterns are never
  reported. The Markdown report is built here too; only the decimal rendering of the four
  fractions is left to the caller.
- `src/security_analysis/security_tests.rs` — attack simulations (reentrancy guard,
  checked overflow, access control, commit-reveal, bounded loops), each proved to pass.
- `src/multisig.rs` — threshold approval: enough distinct administrators must have
  signed (each counted once); ed25519 checks go to the Soroban host.
- `src/bridge.rs` — the cross-chain bridge ledger and its integrity laws.
- `src/escrow_types.rs` — the escrow data model.
- `src/text.rs` — verified substring search.
- `app/` — the command-line demo, the decimal rendering of the report's fractions, serde copies of
  the result types, proptest input strategies and the Soroban adapter for multisig.
