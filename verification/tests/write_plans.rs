//! The writes the library plans for each successful operation, and that
//! performing them is what the operations do.
use earnproof::invocation::{Authorizations, Invocation, Outcome};
use earnproof::issuer_registry::{
    plan_initialize, plan_record, plan_register, plan_rotate, IssuerAddressRotated, IssuerRegistryContract,
    IssuerWrite,
};
use earnproof::primitives::{Address, Hash32};
use earnproof::proof_registry::{
    plan_configure, plan_proof, DependencyReplies, ProofRegistryContract, ProofWrite, Reply,
};
use earnproof::shared::{IssuerRecord, IssuerStatus, ProofRecord, ProofStatus};
use earnproof::upgrade::{plan_approve, plan_revoke, plan_upgrade, UpgradeWrite};

fn bytes(value: u8) -> Hash32 {
    Hash32::filled(value)
}

fn at(timestamp: u64) -> Invocation {
    Invocation { timestamp, auth: Authorizations::All }
}

fn issuer_record(id: Hash32, address: Address, status: IssuerStatus, at: u64) -> IssuerRecord {
    IssuerRecord {
        issuer_id_hash: id,
        issuer_address: address,
        metadata_hash: bytes(7),
        status,
        created_at: 10,
        updated_at: at,
    }
}

#[test]
fn issuer_plans_name_each_stored_entry() {
    let admin = Address::Account(bytes(0xAD));
    let old = Address::Account(bytes(0x11));
    let new = Address::Account(bytes(0x12));
    let id = bytes(1);
    let record = issuer_record(id, new, IssuerStatus::Active, 20);

    assert_eq!(
        plan_initialize(admin),
        vec![IssuerWrite::SetAdmin { admin }, IssuerWrite::Governance(UpgradeWrite::SetVersion { version: 1 })]
    );
    assert_eq!(
        plan_register(id, old, record),
        vec![IssuerWrite::PutIssuer { id, record }, IssuerWrite::PutAddressIndex { address: old, id }]
    );
    assert_eq!(plan_record(id, record), vec![IssuerWrite::PutIssuer { id, record }]);
    assert_eq!(
        plan_rotate(id, old, new, record),
        vec![
            IssuerWrite::RemoveAddressIndex { address: old },
            IssuerWrite::PutIssuer { id, record },
            IssuerWrite::PutAddressIndex { address: new, id },
        ]
    );
}

#[test]
fn upgrade_plans_consume_the_allowlist_entry() {
    let hash = bytes(0x55);
    assert_eq!(plan_approve(hash, 2), vec![UpgradeWrite::Allow { wasm_hash: hash, version: 2 }]);
    assert_eq!(plan_revoke(hash), vec![UpgradeWrite::Disallow { wasm_hash: hash }]);
    assert_eq!(
        plan_upgrade(hash, 2),
        vec![UpgradeWrite::Disallow { wasm_hash: hash }, UpgradeWrite::SetVersion { version: 2 }]
    );
}

#[test]
fn proof_plans_name_each_stored_entry() {
    let admin = Address::Account(bytes(0xAD));
    let issuers = Address::Contract(bytes(0xC2));
    let config = Address::Contract(bytes(0xC1));
    assert_eq!(
        plan_configure(admin, issuers, config),
        vec![
            ProofWrite::SetAdmin { admin },
            ProofWrite::SetIssuerRegistry { address: issuers },
            ProofWrite::SetProtocolConfig { address: config },
            ProofWrite::Governance(UpgradeWrite::SetVersion { version: 1 }),
        ]
    );
    let record = ProofRecord {
        proof_id_hash: bytes(3),
        commitment_hash: bytes(4),
        issuer_address: Address::Account(bytes(0x15)),
        status: ProofStatus::Active,
        schema_version: 1,
        expires_at: 1_000,
        created_at: 5,
        revoked_at: 0,
    };
    assert_eq!(plan_proof(bytes(3), record), vec![ProofWrite::PutProof { id: bytes(3), record }]);
}

#[test]
fn rotation_performs_its_plan() {
    let mut registry = IssuerRegistryContract::new();
    let admin = Address::Account(bytes(0xAD));
    let old = Address::Account(bytes(0x11));
    let new = Address::Account(bytes(0x12));
    let id = bytes(1);
    registry.initialize(&at(0), admin);
    registry.register_issuer(&at(10), id, old, bytes(7));

    assert_eq!(
        registry.rotate_issuer_address(&at(20), id, new),
        Outcome::Done(IssuerAddressRotated { issuer_id_hash: id, old_address: old, new_address: new, updated_at: 20 })
    );
    assert_eq!(registry.get_issuer(&id), Ok(issuer_record(id, new, IssuerStatus::Active, 20)));
    assert!(registry.get_issuer_by_address(&old).is_err());
    assert_eq!(registry.get_issuer_by_address(&new), Ok(issuer_record(id, new, IssuerStatus::Active, 20)));
}

#[test]
fn revocation_performs_its_plan() {
    let mut proofs = ProofRegistryContract::new(Address::Contract(bytes(0xC3)));
    let admin = Address::Account(bytes(0xAD));
    let issuer = Address::Account(bytes(0x15));
    proofs.initialize(&at(0), admin, Address::Contract(bytes(0xC2)), Address::Contract(bytes(0xC1)));
    let replies = DependencyReplies {
        paused: Reply::Answer(false),
        schema_approved: Reply::Answer(true),
        issuer_active: Reply::Answer(true),
    };
    assert_eq!(proofs.register_proof(&at(5), bytes(3), bytes(4), issuer, 1, 1_000, &replies), Outcome::Done(()));
    assert_eq!(proofs.revoke_proof(&at(9), bytes(3)), Outcome::Done(()));
    let stored = proofs.get_proof(&bytes(3)).unwrap();
    assert_eq!(stored.status, ProofStatus::Revoked);
    assert_eq!(stored.revoked_at, 9);
    assert_eq!(stored.created_at, 5);
}
