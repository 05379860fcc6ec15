//! Zero, sentinel, malformed and self-referential addresses.
use earnproof::invocation::{Authorizations, Invocation, Outcome};
use earnproof::issuer_registry::IssuerRegistryContract;
use earnproof::primitives::{Address, Hash32};
use earnproof::proof_registry::{DependencyReplies, ProofRegistryContract, Reply};
use earnproof::shared::{is_valid_principal_address, ContractError, IssuerError, ProofError};

/// The account whose key is all zero (written GAAAA...).
fn zero_addr() -> Address {
    Address::Account(Hash32::filled(0))
}

fn bytes(value: u8) -> Hash32 {
    Hash32::filled(value)
}

fn all() -> Invocation {
    Invocation { timestamp: 0, auth: Authorizations::All }
}

fn answered_yes() -> DependencyReplies {
    DependencyReplies {
        paused: Reply::Answer(false),
        schema_approved: Reply::Answer(true),
        issuer_active: Reply::Answer(true),
    }
}

#[test]
fn issuer_registry_rejects_zero_sentinel_and_self_referential_issuer_addresses() {
    let mut client = IssuerRegistryContract::new();
    let admin = Address::Account(bytes(0xAD));
    client.initialize(&all(), admin);

    let zero = zero_addr();
    let result = client.register_issuer(&all(), bytes(1), zero, bytes(2));
    assert_eq!(result, Outcome::Rejected(IssuerError::InvalidAddress));

    let issuer = Address::Account(bytes(0x15));
    let issuer_id = bytes(9);
    client.register_issuer(&all(), issuer_id, issuer, bytes(7));
    let same = client.rotate_issuer_address(&all(), issuer_id, issuer);
    assert_eq!(same, Outcome::Rejected(IssuerError::InvalidAddress));
}

#[test]
fn proof_registry_rejects_zero_dependency_addresses_and_self_references() {
    let admin = Address::Account(bytes(0xAD));
    let config_id = Address::Contract(bytes(0xC1));
    let issuer_registry_id = Address::Contract(bytes(0xC2));
    let proof_id = Address::Contract(bytes(0xC3));
    let mut proof_client = ProofRegistryContract::new(proof_id);
    let zero = zero_addr();

    let bad_init = proof_client.initialize(&all(), admin, zero, config_id);
    assert_eq!(bad_init, Outcome::Rejected(ContractError::InvalidInput));

    proof_client.initialize(&all(), admin, issuer_registry_id, config_id);
    let result = proof_client.register_proof(&all(), bytes(3), bytes(4), zero_addr(), 1, 1_000, &answered_yes());
    assert_eq!(result, Outcome::Rejected(ProofError::InvalidAddress));

    let self_result = proof_client.register_proof(&all(), bytes(5), bytes(6), proof_id, 1, 1_000, &answered_yes());
    assert_eq!(self_result, Outcome::Rejected(ProofError::InvalidAddress));
}

#[test]
fn a_malformed_address_is_not_a_principal() {
    let mut issuers = IssuerRegistryContract::new();
    issuers.initialize(&all(), Address::Account(bytes(0xAD)));
    let result = issuers.register_issuer(&all(), bytes(1), Address::Unrecognized, bytes(2));
    assert_eq!(result, Outcome::Rejected(IssuerError::InvalidAddress));
    assert_eq!(issuers.get_issuer(&bytes(1)), Err(IssuerError::IssuerNotFound));
    assert!(!is_valid_principal_address(&Address::Contract(bytes(0))));
    assert!(is_valid_principal_address(&Address::Contract(bytes(1))));
}

#[test]
fn a_dependency_may_not_be_the_registry_itself() {
    let own = Address::Contract(bytes(0xC3));
    let mut proofs = ProofRegistryContract::new(own);
    let admin = Address::Account(bytes(0xAD));
    assert_eq!(
        proofs.initialize(&all(), admin, own, Address::Contract(bytes(0xC1))),
        Outcome::Rejected(ContractError::InvalidInput)
    );
    assert_eq!(
        proofs.initialize(&all(), admin, Address::Contract(bytes(0xC2)), own),
        Outcome::Rejected(ContractError::InvalidInput)
    );
    assert_eq!(proofs.get_admin(), Err(ContractError::NotInitialized));
    assert_eq!(
        proofs.initialize(&all(), admin, Address::Contract(bytes(0xC2)), Address::Contract(bytes(0xC1))),
        Outcome::Done(())
    );
    assert_eq!(
        proofs.initialize(&all(), admin, Address::Contract(bytes(0xC2)), Address::Contract(bytes(0xC1))),
        Outcome::Rejected(ContractError::AlreadyInitialized)
    );
}

/// The protocol configuration's admin, as far as this test reads it.
struct ProtocolConfigAdmin {
    admin: Address,
}

impl ProtocolConfigAdmin {
    fn get_admin(&self) -> Address {
        self.admin
    }
}

#[test]
fn malformed_encoded_addresses_do_not_mutate_state() {
    let admin = Address::Account(bytes(0xAD));
    let config = ProtocolConfigAdmin { admin };
    let mut issuer_registry = IssuerRegistryContract::new();
    issuer_registry.initialize(&all(), admin);

    // "BADADDRESS" decodes to no account or contract key.
    let malformed = Address::Unrecognized;
    let result = issuer_registry.register_issuer(&all(), bytes(1), malformed, bytes(2));
    assert_eq!(result, Outcome::Rejected(IssuerError::InvalidAddress));

    assert_eq!(issuer_registry.get_issuer(&bytes(1)), Err(IssuerError::IssuerNotFound));
    assert_eq!(config.get_admin(), admin);
    assert_eq!(issuer_registry.get_admin(), Ok(admin));
}

#[test]
fn proof_registry_accepts_any_admin_that_authorizes() {
    let config_id = Address::Contract(bytes(0xC1));
    let issuer_registry_id = Address::Contract(bytes(0xC2));
    let mut proof_client = ProofRegistryContract::new(Address::Contract(bytes(0xC3)));

    let result = proof_client.initialize(&all(), zero_addr(), issuer_registry_id, config_id);
    assert_eq!(result, Outcome::Done(()));
    assert_eq!(proof_client.get_admin(), Ok(zero_addr()));
    assert_eq!(proof_client.get_contract_version(), 1);
}
