//! Ledger-time boundaries of proof registration and validity.
use earnproof::invocation::{Authorizations, Invocation, Outcome};
use earnproof::issuer_registry::IssuerRegistryContract;
use earnproof::primitives::{Address, Hash32};
use earnproof::proof_registry::{DependencyReplies, ProofRegistryContract, ProofSubmission, Reply};
use earnproof::shared::ProofError;

const NOW: u64 = 1_000;

fn bytes(value: u8) -> Hash32 {
    Hash32::filled(value)
}

fn at(timestamp: u64) -> Invocation {
    Invocation { timestamp, auth: Authorizations::All }
}

struct Fixture {
    proofs: ProofRegistryContract,
    issuers: IssuerRegistryContract,
    paused: bool,
    issuer: Address,
}

impl Fixture {
    fn try_register_proof(&mut self, id: Hash32, commitment: Hash32, schema_version: u32, expires_at: u64) -> Outcome<(), ProofError> {
        let submission = ProofSubmission {
            proof_id_hash: id,
            commitment_hash: commitment,
            issuer_address: self.issuer,
            schema_version,
            expires_at,
        };
        let replies = DependencyReplies {
            paused: Reply::Answer(self.paused),
            schema_approved: Reply::Answer(schema_version == 1),
            issuer_active: Reply::Answer(self.issuers.is_active_address(&self.issuer)),
        };
        self.proofs.register_proof(&at(NOW), submission.proof_id_hash, submission.commitment_hash, submission.issuer_address, submission.schema_version, submission.expires_at, &replies)
    }
}

fn fixture() -> Fixture {
    let admin = Address::Account(bytes(0xAD));
    let issuer = Address::Account(bytes(0x15));
    let mut issuers = IssuerRegistryContract::new();
    issuers.initialize(&at(NOW), admin);
    issuers.register_issuer(&at(NOW), bytes(1), issuer, bytes(2));
    let mut proofs = ProofRegistryContract::new(Address::Contract(bytes(0xC3)));
    proofs.initialize(&at(NOW), admin, Address::Contract(bytes(0xC2)), Address::Contract(bytes(0xC1)));
    Fixture { proofs, issuers, paused: false, issuer }
}

fn register(fixture: &mut Fixture, id: u8, expires_at: u64) {
    assert_eq!(
        fixture.try_register_proof(bytes(id), bytes(id.wrapping_add(10)), 1, expires_at),
        Outcome::Done(())
    );
}

#[test]
fn validity_is_inclusive_at_expiration_and_false_after() {
    let mut fixture = fixture();
    register(&mut fixture, 1, NOW + 10);
    assert!(fixture.proofs.is_valid_proof(NOW + 10, &bytes(1)).unwrap());
    assert!(!fixture.proofs.is_valid_proof(NOW + 11, &bytes(1)).unwrap());
}

#[test]
fn registration_requires_strictly_future_expiration() {
    let mut fixture = fixture();
    for (id, expires_at) in [(1u8, NOW - 1), (2, NOW), (3, 0)] {
        assert_eq!(
            fixture.try_register_proof(bytes(id), bytes(id + 10), 1, expires_at),
            Outcome::Rejected(ProofError::ProofExpired)
        );
    }
}

#[test]
fn revocation_dominates_expiration() {
    let mut fixture = fixture();
    register(&mut fixture, 4, NOW + 10);
    assert_eq!(fixture.proofs.revoke_proof(&at(NOW + 10), bytes(4)), Outcome::Done(()));
    assert!(!fixture.proofs.is_valid_proof(NOW + 11, &bytes(4)).unwrap());
    assert!(fixture.proofs.is_revoked(&bytes(4)).unwrap());
}

#[test]
fn zero_schema_and_pause_are_deterministic_guards() {
    let mut fixture = fixture();
    assert_eq!(
        fixture.try_register_proof(bytes(5), bytes(6), 0, NOW + 1),
        Outcome::Rejected(ProofError::InvalidSchemaVersion)
    );
    fixture.paused = true;
    assert_eq!(
        fixture.try_register_proof(bytes(7), bytes(8), 1, NOW + 1),
        Outcome::Rejected(ProofError::InvalidSchemaVersion)
    );
}

#[test]
fn maximum_timestamp_is_representable_without_interval_overflow() {
    let mut fixture = fixture();
    register(&mut fixture, 9, u64::MAX);
    assert!(fixture.proofs.is_valid_proof(NOW, &bytes(9)).unwrap());
}
