//! Records, statuses, error codes and limits shared by the registries.
use crate::primitives::{Address, Hash32};
use vstd::prelude::*;

verus! {

/// Minimum number of ledgers of remaining life before an entry is extended.
pub const TTL_THRESHOLD_LEDGERS: u32 = 50_000;

/// Number of ledgers of life an extended entry is given.
pub const TTL_EXTEND_TO_LEDGERS: u32 = 500_000;

/// Minimum valid schema version; version zero is reserved and invalid.
pub const MIN_SCHEMA_VERSION: u32 = 1;

/// A proof's expiration must exceed the ledger timestamp by at least this much.
pub const MIN_EXPIRATION_OFFSET_FROM_NOW: u64 = 1;

/// Contract versions start here and only increase.
pub const MIN_CONTRACT_VERSION: u32 = 1;

/// Lifecycle status of an issuer. `Revoked` is terminal.
#[derive(Clone, Copy, Debug, PartialEq, Eq, Structural)]
pub enum IssuerStatus {
    Active,
    Suspended,
    Revoked,
}

/// Lifecycle status of a proof. `Revoked` is terminal.
#[derive(Clone, Copy, Debug, PartialEq, Eq, Structural)]
pub enum ProofStatus {
    Active,
    Revoked,
}

/// What the issuer registry stores for one issuer.
#[derive(Clone, Copy, Debug, PartialEq, Eq)]
pub struct IssuerRecord {
    pub issuer_id_hash: Hash32,
    pub issuer_address: Address,
    pub metadata_hash: Hash32,
    pub status: IssuerStatus,
    pub created_at: u64,
    pub updated_at: u64,
}

/// What the proof registry stores for one proof.
#[derive(Clone, Copy, Debug, PartialEq, Eq)]
pub struct ProofRecord {
    pub proof_id_hash: Hash32,
    pub commitment_hash: Hash32,
    pub issuer_address: Address,
    pub status: ProofStatus,
    pub schema_version: u32,
    pub expires_at: u64,
    pub created_at: u64,
    pub revoked_at: u64,
}

/// Errors common to all contracts.
#[derive(Clone, Copy, Debug, PartialEq, Eq, Structural)]
pub enum ContractError {
    AlreadyInitialized,
    NotInitialized,
    Unauthorized,
    AlreadyExists,
    NotFound,
    InvalidState,
    InvalidInput,
    ProtocolPaused,
}

/// The published code of each common error.
pub open spec fn contract_error_code(e: ContractError) -> u32 {
    match e {
        ContractError::AlreadyInitialized => 1,
        ContractError::NotInitialized => 2,
        ContractError::Unauthorized => 20,
        ContractError::AlreadyExists => 40,
        ContractError::NotFound => 41,
        ContractError::InvalidState => 42,
        ContractError::InvalidInput => 60,
        ContractError::ProtocolPaused => 80,
    }
}

impl ContractError {
    /// The machine-readable error code (common range 1-99).
    pub fn code(&self) -> (c: u32)
        ensures
            c == contract_error_code(*self),
            1 <= c <= 99,
    {
        match self {
            ContractError::AlreadyInitialized => 1,
            ContractError::NotInitialized => 2,
            ContractError::Unauthorized => 20,
            ContractError::AlreadyExists => 40,
            ContractError::NotFound => 41,
            ContractError::InvalidState => 42,
            ContractError::InvalidInput => 60,
            ContractError::ProtocolPaused => 80,
        }
    }
}

/// Errors of the issuer registry.
#[derive(Clone, Copy, Debug, PartialEq, Eq, Structural)]
pub enum IssuerError {
    IssuerAlreadyRegistered,
    IssuerNotFound,
    IssuerAddressAlreadyRegistered,
    IssuerAddressNotFound,
    IssuerRevoked,
    IssuerInactive,
    InvalidTransition,
    InvalidAddress,
}

/// The published code of each issuer registry error.
pub open spec fn issuer_error_code(e: IssuerError) -> u32 {
    match e {
        IssuerError::IssuerAlreadyRegistered => 200,
        IssuerError::IssuerNotFound => 201,
        IssuerError::IssuerAddressAlreadyRegistered => 202,
        IssuerError::IssuerAddressNotFound => 203,
        IssuerError::IssuerRevoked => 204,
        IssuerError::IssuerInactive => 205,
        IssuerError::InvalidTransition => 206,
        IssuerError::InvalidAddress => 207,
    }
}

impl IssuerError {
    /// The machine-readable error code (issuer range 200-299).
    pub fn code(&self) -> (c: u32)
        ensures
            c == issuer_error_code(*self),
            200 <= c <= 299,
    {
        match self {
            IssuerError::IssuerAlreadyRegistered => 200,
            IssuerError::IssuerNotFound => 201,
            IssuerError::IssuerAddressAlreadyRegistered => 202,
            IssuerError::IssuerAddressNotFound => 203,
            IssuerError::IssuerRevoked => 204,
            IssuerError::IssuerInactive => 205,
            IssuerError::InvalidTransition => 206,
            IssuerError::InvalidAddress => 207,
        }
    }
}

/// Errors of the proof registry.
#[derive(Clone, Copy, Debug, PartialEq, Eq, Structural)]
pub enum ProofError {
    ProofAlreadyRegistered,
    ProofNotFound,
    ProofAlreadyRevoked,
    ProofExpired,
    InvalidSchemaVersion,
    SchemaVersionNotApproved,
    InvalidAddress,
}

/// The published code of each proof registry error.
pub open spec fn proof_error_code(e: ProofError) -> u32 {
    match e {
        ProofError::ProofAlreadyRegistered => 300,
        ProofError::ProofNotFound => 301,
        ProofError::ProofAlreadyRevoked => 302,
        ProofError::ProofExpired => 303,
        ProofError::InvalidSchemaVersion => 304,
        ProofError::SchemaVersionNotApproved => 305,
        ProofError::InvalidAddress => 306,
    }
}

impl ProofError {
    /// The machine-readable error code (proof range 300-399).
    pub fn code(&self) -> (c: u32)
        ensures
            c == proof_error_code(*self),
            300 <= c <= 399,
    {
        match self {
            ProofError::ProofAlreadyRegistered => 300,
            ProofError::ProofNotFound => 301,
            ProofError::ProofAlreadyRevoked => 302,
            ProofError::ProofExpired => 303,
            ProofError::InvalidSchemaVersion => 304,
            ProofError::SchemaVersionNotApproved => 305,
            ProofError::InvalidAddress => 306,
        }
    }

    /// The reason in words.
    pub fn message(&self) -> (m: &'static str)
        ensures
            m@ == proof_error_message(*self),
    {
        match self {
            ProofError::ProofAlreadyRegistered => "proof already registered",
            ProofError::ProofNotFound => "proof not found",
            ProofError::ProofAlreadyRevoked => "proof already revoked",
            ProofError::ProofExpired => "proof expiration must be in the future",
            ProofError::InvalidSchemaVersion => "invalid schema version",
            ProofError::SchemaVersionNotApproved => "schema version is not approved",
            ProofError::InvalidAddress => "invalid address",
        }
    }
}

/// The reason, in words, for each proof registry error.
pub open spec fn proof_error_message(e: ProofError) -> Seq<char> {
    match e {
        ProofError::ProofAlreadyRegistered => "proof already registered"@,
        ProofError::ProofNotFound => "proof not found"@,
        ProofError::ProofAlreadyRevoked => "proof already revoked"@,
        ProofError::ProofExpired => "proof expiration must be in the future"@,
        ProofError::InvalidSchemaVersion => "invalid schema version"@,
        ProofError::SchemaVersionNotApproved => "schema version is not approved"@,
        ProofError::InvalidAddress => "invalid address"@,
    }
}

/// A principal address is valid when it is an account or a contract whose
/// 32-byte key is not the all-zero sentinel.
pub open spec fn valid_principal(a: Address) -> bool {
    match a {
        Address::Account(k) => !k.is_zero(),
        Address::Contract(k) => !k.is_zero(),
        Address::Unrecognized => false,
    }
}

/// Whether `address` may act as an admin, an issuer or a dependency.
pub fn is_valid_principal_address(address: &Address) -> (r: bool)
    ensures
        r == valid_principal(*address),
{
    match address {
        Address::Account(k) => !k.check_zero(),
        Address::Contract(k) => !k.check_zero(),
        Address::Unrecognized => false,
    }
}

} // verus!
