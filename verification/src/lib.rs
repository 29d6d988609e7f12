//! Verified core of the polyleverage simulation harness: price
//! normalization into the program's fixed-point, the attestation wire
//! layouts and the Ed25519 precompile instruction, and the accounts,
//! program-derived addresses and data of the program's instructions.

pub mod attestor;
pub mod driver;
pub mod instruction;
pub mod pricing;
pub mod scenario;
pub mod spl;
pub mod wire;

pub use attestor::{AttestationFormat, Attestor};
pub use driver::{InstrumentParams, ProgramLayout, SOL};
pub use pricing::normalize_price;
