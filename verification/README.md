# polyleverage_sim

The verified core of an in-process harness for the polyleverage Solana
program, written in Verus.

- `src/pricing.rs` — normalization of a Pyth `(raw, expo)` price into
  the program's `(0, 1e18)` fixed-point, and the law that the reference
  ceiling scales out of price ratios.
- `src/attestor.rs` — the simulated TEE attestor: the 104-byte
  attestation layouts (PRICE_TWAP, RESOLUTION, HISTORICAL_LIQUIDATION),
  Ed25519 signing, and the `Ed25519SigVerify` precompile instruction,
  with read-back laws for every field.
- `src/driver.rs` — the program's instructions as plain values: PDAs of
  the program's seeds, the account list and framed data of every
  instruction, and the settlement attestations.
- `src/spl.rs` — packed SPL mint and token-account state, and the
  balance read back from a token account.
- `src/scenario.rs` — scenario constants and trader funding.
- `src/instruction.rs`, `src/wire.rs` — plain instructions and byte
  helpers.

`app/` drives the program in litesvm (loading the SBF artifact, sending
transactions, reading program state); it needs the `polyleverage`
program crate for its argument types, tags, seeds and state layouts.
