//! Failures at each of the three reads a registration makes of other
//! contracts: before the first read, inside a read (the other contract fails
//! or answers with the wrong type), and after a read (its answer says no).
use earnproof::invocation::{Abort, Authorizations, Invocation, Outcome};
use earnproof::issuer_registry::IssuerRegistryContract;
use earnproof::primitives::{Address, Hash32};
use earnproof::proof_registry::{DependencyReplies, ProofRegistryContract, ProofSubmission, Reply};
use earnproof::shared::{ProofError, ProofRecord, ProofStatus};

const APPROVED_SCHEMA: u32 = 1;

fn hash(value: u8) -> Hash32 {
    Hash32::filled(value)
}

/// How the protocol configuration behaves.
#[derive(Clone, Copy)]
enum ConfigBehaviour {
    /// Answers from its state.
    Real,
    /// Fails every pause read.
    RejectsPauseRead,
    /// Answers the pause read, fails every schema read.
    RejectsSchemaRead,
    /// Answers the pause read with a value that is not a boolean.
    MalformedPauseRead,
    /// Answers the schema read with a value that is not a boolean.
    MalformedSchemaRead,
    /// Demands an authorization the transaction does not carry.
    RequiringAuth,
}

/// How the issuer registry behaves.
#[derive(Clone, Copy)]
enum IssuersBehaviour {
    Real,
    RejectsIssuerRead,
    MalformedIssuerRead,
}

#[derive(Debug, PartialEq)]
enum Rejection {
    Accepted,
    Typed(ProofError),
    Aborted,
}

/// What an attempt could change: the proof's record and the registry's settings.
#[derive(Debug, PartialEq)]
struct Footprint {
    proof: Result<ProofRecord, ProofError>,
    version: u32,
    allowed: bool,
}

struct Deployment {
    proofs: ProofRegistryContract,
    issuers: IssuerRegistryContract,
    issuer: Address,
    issuer_id: Hash32,
    paused: bool,
    approved: Vec<u32>,
    config: ConfigBehaviour,
    issuer_registry: IssuersBehaviour,
    auth: Authorizations,
}

impl Deployment {
    fn new() -> Deployment {
        Deployment::with_dependencies(ConfigBehaviour::Real, IssuersBehaviour::Real)
    }

    fn with_dependencies(config: ConfigBehaviour, issuer_registry: IssuersBehaviour) -> Deployment {
        let all = Invocation { timestamp: 0, auth: Authorizations::All };
        let admin = Address::Account(hash(0xAD));
        let issuer = Address::Account(hash(0x15));
        let issuer_id = hash(0x1D);
        let mut issuers = IssuerRegistryContract::new();
        issuers.initialize(&all, admin);
        issuers.register_issuer(&all, issuer_id, issuer, hash(0x3E));
        let mut proofs = ProofRegistryContract::new(Address::Contract(hash(0xC3)));
        proofs.initialize(&all, admin, Address::Contract(hash(0xC2)), Address::Contract(hash(0xC1)));
        Deployment {
            proofs,
            issuers,
            issuer,
            issuer_id,
            paused: false,
            approved: vec![APPROVED_SCHEMA],
            config,
            issuer_registry,
            auth: Authorizations::All,
        }
    }

    fn expiry(&self) -> u64 {
        1_000
    }

    fn replies(&self, s: &ProofSubmission) -> DependencyReplies {
        let (paused, schema_approved) = match self.config {
            ConfigBehaviour::Real => (
                Reply::Answer(self.paused),
                Reply::Answer(self.approved.contains(&s.schema_version)),
            ),
            ConfigBehaviour::RejectsPauseRead => (Reply::Failed, Reply::Failed),
            ConfigBehaviour::RequiringAuth => (Reply::Failed, Reply::Failed),
            ConfigBehaviour::RejectsSchemaRead => (Reply::Answer(false), Reply::Failed),
            ConfigBehaviour::MalformedPauseRead => (Reply::Malformed, Reply::Malformed),
            ConfigBehaviour::MalformedSchemaRead => (Reply::Answer(false), Reply::Malformed),
        };
        let issuer_active = match self.issuer_registry {
            IssuersBehaviour::Real => Reply::Answer(self.issuers.is_active_address(&s.issuer_address)),
            IssuersBehaviour::RejectsIssuerRead => Reply::Failed,
            IssuersBehaviour::MalformedIssuerRead => Reply::Malformed,
        };
        DependencyReplies { paused, schema_approved, issuer_active }
    }

    fn attempt(&mut self, proof_id: &Hash32, issuer: Address, schema_version: u32, expires_at: u64) -> Rejection {
        let submission = ProofSubmission {
            proof_id_hash: *proof_id,
            commitment_hash: hash(0xC0),
            issuer_address: issuer,
            schema_version,
            expires_at,
        };
        let replies = self.replies(&submission);
        let inv = Invocation { timestamp: 0, auth: std::mem::replace(&mut self.auth, Authorizations::All) };
        let outcome = self.proofs.register_proof(&inv, submission.proof_id_hash, submission.commitment_hash, submission.issuer_address, submission.schema_version, submission.expires_at, &replies);
        self.auth = inv.auth;
        match outcome {
            Outcome::Done(()) => Rejection::Accepted,
            Outcome::Rejected(e) => Rejection::Typed(e),
            Outcome::Aborted(_) => Rejection::Aborted,
        }
    }

    fn register(&mut self, seed: u8) -> Hash32 {
        let proof_id = hash(seed);
        let (issuer, expiry) = (self.issuer, self.expiry());
        assert_eq!(self.attempt(&proof_id, issuer, APPROVED_SCHEMA, expiry), Rejection::Accepted);
        proof_id
    }

    fn footprint(&self, proof_id: &Hash32) -> Footprint {
        Footprint {
            proof: self.proofs.get_proof(proof_id),
            version: self.proofs.get_contract_version(),
            allowed: self.proofs.is_upgrade_allowed(proof_id),
        }
    }

    fn assert_rejected_and_atomic_with(&mut self, proof_id: &Hash32, issuer: &Address, schema_version: u32, expires_at: u64) -> Rejection {
        let before = self.footprint(proof_id);
        let rejection = self.attempt(proof_id, *issuer, schema_version, expires_at);
        assert_ne!(rejection, Rejection::Accepted, "the registration must be rejected");
        assert_eq!(before, self.footprint(proof_id), "a rejected registration changed the footprint");
        rejection
    }

    fn assert_rejected_and_atomic(&mut self, proof_id: &Hash32) -> Rejection {
        let (issuer, expiry) = (self.issuer, self.expiry());
        self.assert_rejected_and_atomic_with(proof_id, &issuer, APPROVED_SCHEMA, expiry)
    }
}

#[test]
fn missing_authorization_is_rejected_before_any_dependency_is_read() {
    let mut deployment = Deployment::with_dependencies(ConfigBehaviour::RejectsPauseRead, IssuersBehaviour::Real);
    deployment.auth = Authorizations::Only(vec![]);

    let rejection = deployment.assert_rejected_and_atomic(&hash(0x21));

    assert_eq!(
        rejection,
        Rejection::Aborted,
        "an unauthorised registration must be rejected by the host, not resolved into a proof-registry verdict"
    );
}

#[test]
fn nested_authorization_failure_rolls_back_the_registration() {
    let mut deployment = Deployment::with_dependencies(ConfigBehaviour::RequiringAuth, IssuersBehaviour::Real);
    let proof_id = hash(0x22);
    deployment.auth = Authorizations::Only(vec![deployment.issuer]);

    let rejection = deployment.assert_rejected_and_atomic(&proof_id);

    assert_eq!(rejection, Rejection::Aborted, "an unsatisfied nested authorization must abort the registration");
}

#[test]
fn root_authorization_alone_registers_against_dependencies_that_demand_none() {
    let mut deployment = Deployment::new();
    let proof_id = hash(0x23);
    deployment.auth = Authorizations::Only(vec![deployment.issuer]);

    let (issuer, expiry) = (deployment.issuer, deployment.expiry());
    let rejection = deployment.attempt(&proof_id, issuer, APPROVED_SCHEMA, expiry);

    assert_eq!(rejection, Rejection::Accepted);
    assert_eq!(deployment.proofs.get_proof(&proof_id).unwrap().proof_id_hash, proof_id);
}

#[test]
fn zero_schema_version_is_rejected_before_the_protocol_config_is_read() {
    let mut deployment = Deployment::with_dependencies(ConfigBehaviour::RejectsPauseRead, IssuersBehaviour::Real);
    let (issuer, expiry) = (deployment.issuer, deployment.expiry());

    let rejection = deployment.assert_rejected_and_atomic_with(&hash(0x24), &issuer, 0, expiry);

    assert_eq!(rejection, Rejection::Typed(ProofError::InvalidSchemaVersion));
}

#[test]
fn an_expired_proof_is_rejected_before_the_protocol_config_is_read() {
    let mut deployment = Deployment::with_dependencies(ConfigBehaviour::RejectsPauseRead, IssuersBehaviour::Real);
    let now = 0;
    let issuer = deployment.issuer;

    let rejection = deployment.assert_rejected_and_atomic_with(&hash(0x25), &issuer, APPROVED_SCHEMA, now);

    assert_eq!(rejection, Rejection::Typed(ProofError::ProofExpired));
}

#[test]
fn registration_rolls_back_when_the_pause_read_fails() {
    let mut deployment = Deployment::with_dependencies(ConfigBehaviour::RejectsPauseRead, IssuersBehaviour::Real);

    let rejection = deployment.assert_rejected_and_atomic(&hash(0x31));

    assert_eq!(
        rejection,
        Rejection::Aborted,
        "a dependency rejection must not be decoded as a proof-registry error"
    );
}

#[test]
fn registration_rolls_back_when_the_schema_read_fails() {
    let mut deployment = Deployment::with_dependencies(ConfigBehaviour::RejectsSchemaRead, IssuersBehaviour::Real);

    let rejection = deployment.assert_rejected_and_atomic(&hash(0x32));

    assert_eq!(rejection, Rejection::Aborted);
}

#[test]
fn registration_rolls_back_when_the_issuer_read_fails() {
    let mut deployment = Deployment::with_dependencies(ConfigBehaviour::Real, IssuersBehaviour::RejectsIssuerRead);

    let rejection = deployment.assert_rejected_and_atomic(&hash(0x33));

    assert_eq!(rejection, Rejection::Aborted);
}

#[test]
fn a_malformed_pause_result_rolls_back_the_registration() {
    let mut deployment = Deployment::with_dependencies(ConfigBehaviour::MalformedPauseRead, IssuersBehaviour::Real);

    let rejection = deployment.assert_rejected_and_atomic(&hash(0x41));

    assert_eq!(rejection, Rejection::Aborted, "a return value that is not the declared type must fail closed");
}

#[test]
fn a_malformed_schema_result_rolls_back_the_registration() {
    let mut deployment = Deployment::with_dependencies(ConfigBehaviour::MalformedSchemaRead, IssuersBehaviour::Real);

    let rejection = deployment.assert_rejected_and_atomic(&hash(0x42));

    assert_eq!(rejection, Rejection::Aborted);
}

#[test]
fn a_malformed_issuer_result_rolls_back_the_registration() {
    let mut deployment = Deployment::with_dependencies(ConfigBehaviour::Real, IssuersBehaviour::MalformedIssuerRead);

    let rejection = deployment.assert_rejected_and_atomic(&hash(0x43));

    assert_eq!(rejection, Rejection::Aborted);
}

#[test]
fn a_paused_protocol_is_rejected_with_a_typed_error() {
    let mut deployment = Deployment::new();
    deployment.paused = true;

    let rejection = deployment.assert_rejected_and_atomic(&hash(0x51));

    // The pause is reported as `InvalidSchemaVersion` (code 304).
    assert_eq!(rejection, Rejection::Typed(ProofError::InvalidSchemaVersion));
}

#[test]
fn an_unapproved_schema_version_is_rejected_with_a_typed_error() {
    let mut deployment = Deployment::new();
    deployment.approved.retain(|v| *v != APPROVED_SCHEMA);

    let rejection = deployment.assert_rejected_and_atomic(&hash(0x52));

    assert_eq!(rejection, Rejection::Typed(ProofError::SchemaVersionNotApproved));
}

#[test]
fn an_inactive_issuer_is_rejected_with_a_typed_error() {
    let mut deployment = Deployment::new();
    let all = Invocation { timestamp: 0, auth: Authorizations::All };
    let issuer_id = deployment.issuer_id;
    deployment.issuers.suspend_issuer(&all, issuer_id);

    let rejection = deployment.assert_rejected_and_atomic(&hash(0x53));

    // The inactive issuer is reported as code 304 too.
    assert_eq!(rejection, Rejection::Typed(ProofError::InvalidSchemaVersion));
}

#[test]
fn a_duplicate_registration_is_rejected_after_every_dependency_read() {
    let mut deployment = Deployment::new();
    let proof_id = deployment.register(0x61);

    let rejection = deployment.assert_rejected_and_atomic(&proof_id);

    assert_eq!(rejection, Rejection::Typed(ProofError::ProofAlreadyRegistered));
    assert_eq!(deployment.proofs.get_proof(&proof_id).unwrap().status, ProofStatus::Active);
}

#[test]
fn an_aborted_registration_reports_its_reason() {
    let mut deployment = Deployment::with_dependencies(ConfigBehaviour::RejectsSchemaRead, IssuersBehaviour::Real);
    let submission = ProofSubmission {
        proof_id_hash: hash(0x70),
        commitment_hash: hash(0xC0),
        issuer_address: deployment.issuer,
        schema_version: APPROVED_SCHEMA,
        expires_at: 1_000,
    };
    let replies = deployment.replies(&submission);
    let all = Invocation { timestamp: 0, auth: Authorizations::All };
    assert_eq!(
        deployment.proofs.register_proof(&all, submission.proof_id_hash, submission.commitment_hash, submission.issuer_address, submission.schema_version, submission.expires_at, &replies),
        Outcome::Aborted(Abort::DependencyFailed)
    );
    let nobody = Invocation { timestamp: 0, auth: Authorizations::Only(vec![]) };
    assert_eq!(
        deployment.proofs.register_proof(&nobody, submission.proof_id_hash, submission.commitment_hash, submission.issuer_address, submission.schema_version, submission.expires_at, &replies),
        Outcome::Aborted(Abort::Unauthorized)
    );
    let mut fresh = ProofRegistryContract::new(Address::Contract(hash(0xC3)));
    assert_eq!(fresh.register_proof(&all, submission.proof_id_hash, submission.commitment_hash, submission.issuer_address, submission.schema_version, submission.expires_at, &replies), Outcome::Aborted(Abort::NotInitialized));
}
