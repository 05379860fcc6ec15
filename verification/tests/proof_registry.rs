use earnproof::invocation::{Authorizations, Invocation, Outcome};
use earnproof::issuer_registry::IssuerRegistryContract;
use earnproof::primitives::{Address, Hash32};
use earnproof::proof_registry::{DependencyReplies, ProofRegistryContract, ProofSubmission, Reply};
use earnproof::shared::{ProofError, ProofStatus};
use earnproof::upgrade::UpgradeError;

// Ed25519 keys of the accounts GCFIRY65... (admin) and GCATS5YO... (issuer).
const ADMIN: [u8; 32] = [
    138, 136, 227, 221, 116, 9, 241, 149, 253, 82, 219, 45, 60, 186, 93, 114, 202, 103, 9, 191, 29,
    148, 18, 27, 243, 116, 136, 1, 180, 15, 111, 92,
];
const ISSUER: [u8; 32] = [
    129, 57, 119, 14, 168, 125, 23, 95, 86, 163, 84, 102, 195, 76, 126, 204, 203, 141, 138, 145,
    180, 238, 55, 162, 93, 246, 15, 91, 143, 201, 179, 148,
];
// Ed25519 key of GBXHUHG5...
const INACTIVE_ISSUER: [u8; 32] = [
    110, 122, 28, 221, 41, 176, 183, 143, 209, 58, 244, 197, 89, 143, 239, 244, 239, 42, 151, 22,
    110, 60, 166, 242, 228, 251, 252, 205, 128, 80, 91, 241,
];

fn bytes(value: u8) -> Hash32 {
    Hash32::filled(value)
}

fn account(key: [u8; 32]) -> Address {
    Address::Account(Hash32 { bytes: key })
}

fn contract(value: u8) -> Address {
    Address::Contract(Hash32::filled(value))
}

fn all() -> Invocation {
    Invocation { timestamp: 0, auth: Authorizations::All }
}

/// The protocol configuration as the proof registry sees it: its pause flag
/// and its approved schema versions.
struct Config {
    paused: bool,
    approved: Vec<u32>,
}

impl Config {
    fn approve_schema_version(&mut self, version: u32) {
        self.approved.push(version);
    }
}

/// The three contracts, deployed and initialized, with one active issuer.
struct Deployment {
    proofs: ProofRegistryContract,
    config: Config,
    issuers: IssuerRegistryContract,
    issuer_registry_id: Address,
}

impl Deployment {
    fn replies(&self, submission: &ProofSubmission) -> DependencyReplies {
        DependencyReplies {
            paused: Reply::Answer(self.config.paused),
            schema_approved: Reply::Answer(self.config.approved.contains(&submission.schema_version)),
            issuer_active: Reply::Answer(self.issuers.is_active_address(&submission.issuer_address)),
        }
    }

    fn try_register_proof(
        &mut self,
        proof_id: Hash32,
        commitment: Hash32,
        issuer: Address,
        schema_version: u32,
        expires_at: u64,
    ) -> Outcome<(), ProofError> {
        let submission = ProofSubmission {
            proof_id_hash: proof_id,
            commitment_hash: commitment,
            issuer_address: issuer,
            schema_version,
            expires_at,
        };
        let replies = self.replies(&submission);
        self.proofs.register_proof(&all(), submission.proof_id_hash, submission.commitment_hash, submission.issuer_address, submission.schema_version, submission.expires_at, &replies)
    }

    /// Registers or fails the way a contract invocation does.
    fn register_proof(&mut self, proof_id: Hash32, commitment: Hash32, issuer: Address, schema_version: u32, expires_at: u64) {
        match self.try_register_proof(proof_id, commitment, issuer, schema_version, expires_at) {
            Outcome::Done(()) => {}
            Outcome::Rejected(e) => panic!("{}", e.message()),
            Outcome::Aborted(reason) => panic!("invocation aborted: {:?}", reason),
        }
    }
}

fn setup() -> Deployment {
    let admin = account(ADMIN);
    let issuer = account(ISSUER);
    let protocol_config_id = contract(0xC1);
    let issuer_registry_id = contract(0xC2);
    let mut config = Config { paused: false, approved: vec![] };
    config.approve_schema_version(1);
    let mut issuers = IssuerRegistryContract::new();
    issuers.initialize(&all(), admin);
    issuers.register_issuer(&all(), bytes(9), issuer, bytes(8));
    let mut proofs = ProofRegistryContract::new(contract(0xC3));
    proofs.initialize(&all(), admin, issuer_registry_id, protocol_config_id);
    Deployment { proofs, config, issuers, issuer_registry_id }
}

fn expect_upgrade<T>(outcome: Outcome<T, UpgradeError>) -> T {
    match outcome {
        Outcome::Done(t) => t,
        Outcome::Rejected(e) => panic!("{}", e.message()),
        Outcome::Aborted(reason) => panic!("invocation aborted: {:?}", reason),
    }
}

#[test]
fn registers_and_validates_proof() {
    let mut d = setup();
    let proof_id = bytes(1);
    let commitment = bytes(2);
    let issuer = account(ISSUER);

    d.register_proof(proof_id, commitment, issuer, 1, 2_000);

    let record = d.proofs.get_proof(&proof_id).unwrap();
    assert_eq!(record.proof_id_hash, proof_id);
    assert_eq!(record.commitment_hash, commitment);
    assert_eq!(record.issuer_address, issuer);
    assert_eq!(record.status, ProofStatus::Active);
    assert_eq!(d.proofs.get_issuer_registry(), Ok(d.issuer_registry_id));
    assert!(d.proofs.is_valid_proof(0, &proof_id).unwrap());
    assert!(!d.proofs.is_revoked(&proof_id).unwrap());
}

#[test]
fn issuer_can_revoke_proof() {
    let mut d = setup();
    let proof_id = bytes(1);
    let issuer = account(ISSUER);

    d.register_proof(proof_id, bytes(2), issuer, 1, 2_000);
    d.proofs.revoke_proof(&all(), proof_id);

    let record = d.proofs.get_proof(&proof_id).unwrap();
    assert_eq!(record.status, ProofStatus::Revoked);
    assert!(d.proofs.is_revoked(&proof_id).unwrap());
    assert!(!d.proofs.is_valid_proof(0, &proof_id).unwrap());
}

#[test]
#[should_panic(expected = "proof expiration must be in the future")]
fn rejects_expired_proof() {
    let mut d = setup();
    d.register_proof(bytes(1), bytes(2), account(ISSUER), 1, 0);
}

#[test]
#[should_panic(expected = "proof already registered")]
fn rejects_duplicate_proof_id() {
    let mut d = setup();
    let proof_id = bytes(1);
    let issuer = account(ISSUER);

    d.register_proof(proof_id, bytes(2), issuer, 1, 2_000);
    d.register_proof(proof_id, bytes(3), issuer, 1, 2_000);
}

#[test]
#[should_panic(expected = "schema version is not approved")]
fn rejects_unapproved_schema_version() {
    let mut d = setup();
    d.register_proof(bytes(1), bytes(2), account(ISSUER), 2, 2_000);
}

#[test]
fn lib_contract_version_initialized_to_one_in_the_proof_registry() {
    let d = setup();
    assert_eq!(d.proofs.get_contract_version(), 1);
}

#[test]
fn register_proof_schema_version_boundaries() {
    let mut d = setup();
    let issuer = account(ISSUER);

    // The minimum schema version.
    d.register_proof(bytes(1), bytes(2), issuer, 1, 2_000);
    assert!(d.proofs.is_valid_proof(0, &bytes(1)).unwrap());

    // A typical schema version.
    d.config.approve_schema_version(99);
    d.register_proof(bytes(10), bytes(11), issuer, 99, 2_000);
    assert!(d.proofs.is_valid_proof(0, &bytes(10)).unwrap());

    // The largest schema version.
    d.config.approve_schema_version(u32::MAX);
    d.register_proof(bytes(20), bytes(21), issuer, u32::MAX, 2_000);
    assert!(d.proofs.is_valid_proof(0, &bytes(20)).unwrap());
}

#[test]
fn register_proof_expiration_boundaries() {
    let mut d = setup();
    let issuer = account(ISSUER);
    let current_time = 0u64;

    // One second in the future.
    d.register_proof(bytes(1), bytes(2), issuer, 1, current_time + 1);
    assert!(d.proofs.is_valid_proof(current_time, &bytes(1)).unwrap());

    // A year in the future.
    d.register_proof(bytes(10), bytes(11), issuer, 1, current_time + 365 * 24 * 3600);
    assert!(d.proofs.is_valid_proof(current_time, &bytes(10)).unwrap());

    // The far future.
    d.register_proof(bytes(20), bytes(21), issuer, 1, u64::MAX);
    assert!(d.proofs.is_valid_proof(current_time, &bytes(20)).unwrap());
}

#[test]
#[should_panic(expected = "proof expiration must be in the future")]
fn register_proof_expiration_at_current_time_rejected() {
    let mut d = setup();
    let current_time = 0u64;
    d.register_proof(bytes(1), bytes(2), account(ISSUER), 1, current_time);
}

#[test]
fn failed_register_proof_schema_zero_leaves_state_unchanged() {
    let mut d = setup();
    let issuer = account(ISSUER);
    let proof_id = bytes(999u16 as u8);

    let result = d.try_register_proof(proof_id, bytes(888u16 as u8), issuer, 0, 2_000);

    assert!(!matches!(result, Outcome::Done(())));
    assert!(d.proofs.get_proof(&proof_id).is_err(), "failed proof registration must not write to storage");
}

#[test]
fn failed_register_proof_expired_leaves_state_unchanged() {
    let mut d = setup();
    let issuer = account(ISSUER);
    let current_time = 0u64;
    let proof_id = bytes(777u16 as u8);

    let result = d.try_register_proof(proof_id, bytes(666u16 as u8), issuer, 1, current_time);

    assert!(!matches!(result, Outcome::Done(())));
    assert!(
        d.proofs.get_proof(&proof_id).is_err(),
        "failed proof registration with expired timestamp must not write to storage"
    );
}

#[test]
fn contract_version_upgrade_boundaries() {
    let mut d = setup();
    assert_eq!(d.proofs.get_contract_version(), 1);

    // The immediate next version.
    expect_upgrade(d.proofs.approve_upgrade(&all(), bytes(1), 2));
    expect_upgrade(d.proofs.upgrade_contract(&all(), bytes(1)));
    assert_eq!(d.proofs.get_contract_version(), 2);

    // The largest version.
    expect_upgrade(d.proofs.approve_upgrade(&all(), bytes(2), u32::MAX));
    expect_upgrade(d.proofs.upgrade_contract(&all(), bytes(2)));
    assert_eq!(d.proofs.get_contract_version(), u32::MAX);
}

// ---------------------------------------------------------------------------
// Further checks of the registry's behaviour
// ---------------------------------------------------------------------------

#[test]
fn revocation_paths_and_their_errors() {
    let mut d = setup();
    let issuer = account(ISSUER);
    d.register_proof(bytes(1), bytes(2), issuer, 1, 2_000);
    d.register_proof(bytes(3), bytes(4), issuer, 1, 2_000);

    // Only the issuer authorizes: an admin revocation aborts.
    let issuer_only = Invocation { timestamp: 5, auth: Authorizations::Only(vec![issuer]) };
    let admin_only = Invocation { timestamp: 6, auth: Authorizations::Only(vec![account(ADMIN)]) };
    assert!(matches!(d.proofs.admin_revoke_proof(&issuer_only, bytes(1)), Outcome::Aborted(_)));
    assert!(matches!(d.proofs.revoke_proof(&admin_only, bytes(1)), Outcome::Aborted(_)));
    assert_eq!(d.proofs.admin_revoke_proof(&admin_only, bytes(1)), Outcome::Done(()));
    assert_eq!(d.proofs.get_proof(&bytes(1)).unwrap().revoked_at, 6);
    assert_eq!(d.proofs.revoke_proof(&issuer_only, bytes(3)), Outcome::Done(()));
    assert_eq!(d.proofs.get_proof(&bytes(3)).unwrap().revoked_at, 5);

    assert_eq!(d.proofs.revoke_proof(&all(), bytes(1)), Outcome::Rejected(ProofError::ProofAlreadyRevoked));
    assert_eq!(d.proofs.admin_revoke_proof(&all(), bytes(3)), Outcome::Rejected(ProofError::ProofAlreadyRevoked));
    assert_eq!(d.proofs.revoke_proof(&all(), bytes(50)), Outcome::Rejected(ProofError::ProofNotFound));
    assert_eq!(d.proofs.is_valid_proof(0, &bytes(50)), Err(ProofError::ProofNotFound));
}

#[test]
fn an_issuer_registered_elsewhere_cannot_register_when_inactive() {
    let mut d = setup();
    let inactive = account(INACTIVE_ISSUER);
    d.issuers.register_issuer(&all(), bytes(10), inactive, bytes(11));
    d.issuers.suspend_issuer(&all(), bytes(10));

    assert_eq!(
        d.try_register_proof(bytes(1), bytes(2), inactive, 1, 2_000),
        Outcome::Rejected(ProofError::InvalidSchemaVersion)
    );
    assert!(d.proofs.get_proof(&bytes(1)).is_err());
}

#[test]
fn proof_error_codes_follow_the_published_ranges() {
    assert_eq!(ProofError::ProofAlreadyRegistered.code(), 300);
    assert_eq!(ProofError::ProofExpired.code(), 303);
    assert_eq!(ProofError::InvalidSchemaVersion.code(), 304);
    assert_eq!(ProofError::SchemaVersionNotApproved.code(), 305);
}
