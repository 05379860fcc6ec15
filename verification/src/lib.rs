//! Verified model of the EarnProof registries: the issuer registry, the proof
//! registry and the upgrade governance they share.
pub mod primitives;
pub mod table;
pub mod shared;
pub mod invocation;
pub mod upgrade;
pub mod issuer_registry;
pub mod proof_registry;
pub mod upgrade_laws;
pub mod issuer_laws;
pub mod proof_laws;
