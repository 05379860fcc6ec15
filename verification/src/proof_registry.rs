//! The proof registry: proof commitments keyed by the hash of the proof's
//! identifier. Registration consults two other contracts: the protocol
//! configuration (pause flag, approved schema versions) and the issuer
//! registry (whether the issuing address is active).
use crate::invocation::{settle, settled, Abort, Authorizations, Decision, Invocation, Outcome};
use crate::issuer_registry::lookup;
use crate::primitives::{Address, Hash32};
use crate::shared::{
    is_valid_principal_address, valid_principal, ContractError, ProofError, ProofRecord,
    ProofStatus, MIN_CONTRACT_VERSION, MIN_SCHEMA_VERSION,
};
use crate::table::Table;
use crate::upgrade::{
    apply_upgrade_write, approve_upgrade_spec, reported_version, revoke_upgrade_spec,
    upgrade_contract_spec, ContractUpgraded, UpgradeAllowlisted, UpgradeError, UpgradeGovernance,
    UpgradeRevoked, UpgradeView, UpgradeWrite,
};
use vstd::prelude::*;

verus! {

/// What an issuer submits to register a proof.
#[derive(Clone, Copy, Debug, PartialEq, Eq)]
pub struct ProofSubmission {
    pub proof_id_hash: Hash32,
    pub commitment_hash: Hash32,
    pub issuer_address: Address,
    pub schema_version: u32,
    pub expires_at: u64,
}

/// A read that registration makes of another contract, in the order made.
#[derive(Clone, Copy, Debug, PartialEq, Eq, Structural)]
pub enum DependencyCheck {
    /// Is the protocol paused? (protocol configuration)
    Paused,
    /// Is the submitted schema version approved? (protocol configuration)
    SchemaApproved,
    /// Is the issuing address an active issuer? (issuer registry)
    IssuerActive,
}

/// What a read of another contract came back with.
#[derive(Clone, Copy, Debug, PartialEq, Eq)]
pub enum Reply {
    /// The contract answered with a boolean.
    Answer(bool),
    /// The call failed inside the other contract.
    Failed,
    /// The contract answered with a value that is not a boolean.
    Malformed,
}

/// The replies the other contracts give to a registration's reads.
#[derive(Clone, Copy, Debug, PartialEq, Eq)]
pub struct DependencyReplies {
    pub paused: Reply,
    pub schema_approved: Reply,
    pub issuer_active: Reply,
}

/// How registration proceeds after a reply.
#[derive(Clone, Copy, Debug, PartialEq, Eq)]
pub enum Verdict {
    /// Go on to the next read, or to the write after the last one.
    Continue,
    /// Refuse with a typed error.
    Reject(ProofError),
    /// The host aborts the invocation.
    Abort(Abort),
}

/// The contents of the proof registry.
pub struct ProofRegistryView {
    /// The registry's own contract address.
    pub own_address: Address,
    /// The admin, once initialized.
    pub admin: Option<Address>,
    /// The issuer registry consulted on registration, once initialized.
    pub issuer_registry: Option<Address>,
    /// The protocol configuration consulted on registration, once initialized.
    pub protocol_config: Option<Address>,
    /// Proof records by proof id hash.
    pub proofs: Map<Hash32, ProofRecord>,
    /// Upgrade governance.
    pub upgrades: UpgradeView,
}

/// `v` with its upgrade governance replaced by `u`.
pub open spec fn with_upgrades(v: ProofRegistryView, u: UpgradeView) -> ProofRegistryView {
    ProofRegistryView { upgrades: u, ..v }
}

/// Initializing with `admin` and the two dependency addresses.
pub open spec fn initialize_decision(
    own_address: Address,
    admin_present: bool,
    admin: Address,
    issuer_registry: Address,
    protocol_config: Address,
) -> Decision<(), ContractError> {
    if admin_present {
        Decision { authorizer: None, verdict: Err(ContractError::AlreadyInitialized) }
    } else if !valid_principal(issuer_registry) || issuer_registry == own_address
        || !valid_principal(protocol_config) || protocol_config == own_address {
        Decision { authorizer: None, verdict: Err(ContractError::InvalidInput) }
    } else {
        Decision { authorizer: Some(admin), verdict: Ok(()) }
    }
}

/// Initializing the registry.
pub open spec fn initialize_spec(
    v: ProofRegistryView,
    auth: Authorizations,
    admin: Address,
    issuer_registry: Address,
    protocol_config: Address,
) -> (ProofRegistryView, Outcome<(), ContractError>) {
    match settled(
        initialize_decision(v.own_address, v.admin is Some, admin, issuer_registry, protocol_config),
        auth,
    ) {
        Outcome::Done(_) => (
            ProofRegistryView {
                admin: Some(admin),
                issuer_registry: Some(issuer_registry),
                protocol_config: Some(protocol_config),
                upgrades: UpgradeView { version: Some(MIN_CONTRACT_VERSION), ..v.upgrades },
                ..v
            },
            Outcome::Done(()),
        ),
        Outcome::Rejected(e) => (v, Outcome::Rejected(e)),
        Outcome::Aborted(r) => (v, Outcome::Aborted(r)),
    }
}

/// The typed error for a submission refused before any other contract is
/// read, if there is one: a bad issuing address, a zero schema version, or an
/// expiration that is not in the future.
pub open spec fn submission_error(own_address: Address, now: u64, s: ProofSubmission) -> Option<
    ProofError,
> {
    if !valid_principal(s.issuer_address) || s.issuer_address == own_address {
        Some(ProofError::InvalidAddress)
    } else if s.schema_version < MIN_SCHEMA_VERSION {
        Some(ProofError::InvalidSchemaVersion)
    } else if s.expires_at <= now {
        Some(ProofError::ProofExpired)
    } else {
        None
    }
}

/// How registration proceeds on `reply` to `check`. A paused protocol and an
/// inactive issuer are both reported as `InvalidSchemaVersion`.
pub open spec fn check_verdict(check: DependencyCheck, reply: Reply) -> Verdict {
    match reply {
        Reply::Failed => Verdict::Abort(Abort::DependencyFailed),
        Reply::Malformed => Verdict::Abort(Abort::DependencyFailed),
        Reply::Answer(b) => match check {
            DependencyCheck::Paused => if b {
                Verdict::Reject(ProofError::InvalidSchemaVersion)
            } else {
                Verdict::Continue
            },
            DependencyCheck::SchemaApproved => if b {
                Verdict::Continue
            } else {
                Verdict::Reject(ProofError::SchemaVersionNotApproved)
            },
            DependencyCheck::IssuerActive => if b {
                Verdict::Continue
            } else {
                Verdict::Reject(ProofError::InvalidSchemaVersion)
            },
        },
    }
}

/// The read that follows `check`, if any.
pub open spec fn following_check(check: DependencyCheck) -> Option<DependencyCheck> {
    match check {
        DependencyCheck::Paused => Some(DependencyCheck::SchemaApproved),
        DependencyCheck::SchemaApproved => Some(DependencyCheck::IssuerActive),
        DependencyCheck::IssuerActive => None,
    }
}

/// The reply to `check` among `replies`.
pub open spec fn reply_to(replies: DependencyReplies, check: DependencyCheck) -> Reply {
    match check {
        DependencyCheck::Paused => replies.paused,
        DependencyCheck::SchemaApproved => replies.schema_approved,
        DependencyCheck::IssuerActive => replies.issuer_active,
    }
}

/// The verdict of the three reads taken in order: the first that does not
/// continue, or `Continue` when all three do.
pub open spec fn reads_verdict(replies: DependencyReplies) -> Verdict {
    match check_verdict(DependencyCheck::Paused, replies.paused) {
        Verdict::Continue => match check_verdict(
            DependencyCheck::SchemaApproved,
            replies.schema_approved,
        ) {
            Verdict::Continue => check_verdict(DependencyCheck::IssuerActive, replies.issuer_active),
            other => other,
        },
        other => other,
    }
}

/// The record a registration stores.
pub open spec fn registered_record(now: u64, s: ProofSubmission) -> ProofRecord {
    ProofRecord {
        proof_id_hash: s.proof_id_hash,
        commitment_hash: s.commitment_hash,
        issuer_address: s.issuer_address,
        status: ProofStatus::Active,
        schema_version: s.schema_version,
        expires_at: s.expires_at,
        created_at: now,
        revoked_at: 0,
    }
}

/// The outcome of a registration whose issuer has authorized it, before the
/// write: halted before the reads, halted by a read, or cleared for the write.
pub open spec fn registration_halt(
    v: ProofRegistryView,
    now: u64,
    s: ProofSubmission,
    replies: DependencyReplies,
) -> Option<Outcome<(), ProofError>> {
    match submission_error(v.own_address, now, s) {
        Some(e) => Some(Outcome::Rejected(e)),
        None => if v.protocol_config is None || v.issuer_registry is None {
            Some(Outcome::Aborted(Abort::NotInitialized))
        } else {
            match reads_verdict(replies) {
                Verdict::Reject(e) => Some(Outcome::Rejected(e)),
                Verdict::Abort(a) => Some(Outcome::Aborted(a)),
                Verdict::Continue => if v.proofs.dom().contains(s.proof_id_hash) {
                    Some(Outcome::Rejected(ProofError::ProofAlreadyRegistered))
                } else {
                    None
                },
            }
        },
    }
}

/// Registering submission `s` when the other contracts reply `replies`.
pub open spec fn register_proof_spec(
    v: ProofRegistryView,
    auth: Authorizations,
    now: u64,
    s: ProofSubmission,
    replies: DependencyReplies,
) -> (ProofRegistryView, Outcome<(), ProofError>) {
    if !auth.authorizes(s.issuer_address) {
        (v, Outcome::Aborted(Abort::Unauthorized))
    } else {
        match registration_halt(v, now, s, replies) {
            Some(o) => (v, o),
            None => (
                ProofRegistryView {
                    proofs: v.proofs.insert(s.proof_id_hash, registered_record(now, s)),
                    ..v
                },
                Outcome::Done(()),
            ),
        }
    }
}

/// Revoking `record` on the authority of `authority`.
pub open spec fn revocation_decision(authority: Address, record: ProofRecord, now: u64) -> Decision<
    ProofRecord,
    ProofError,
> {
    Decision {
        authorizer: Some(authority),
        verdict: if record.status == ProofStatus::Revoked {
            Err(ProofError::ProofAlreadyRevoked)
        } else {
            Ok(ProofRecord { status: ProofStatus::Revoked, revoked_at: now, ..record })
        },
    }
}

/// Revoking proof `id`: by its issuer, or by the admin when `by_admin`.
pub open spec fn set_revoked_spec(
    v: ProofRegistryView,
    auth: Authorizations,
    now: u64,
    id: Hash32,
    by_admin: bool,
) -> (ProofRegistryView, Outcome<(), ProofError>) {
    match lookup(v.proofs, id) {
        None => (v, Outcome::Rejected(ProofError::ProofNotFound)),
        Some(record) => if by_admin && v.admin is None {
            (v, Outcome::Aborted(Abort::NotInitialized))
        } else {
            let authority = if by_admin {
                v.admin->0
            } else {
                record.issuer_address
            };
            match settled(revocation_decision(authority, record, now), auth) {
                Outcome::Done(r) => (
                    ProofRegistryView { proofs: v.proofs.insert(id, r), ..v },
                    Outcome::Done(()),
                ),
                Outcome::Rejected(e) => (v, Outcome::Rejected(e)),
                Outcome::Aborted(a) => (v, Outcome::Aborted(a)),
            }
        },
    }
}

/// Whether a proof record counts as valid at ledger time `now`: active, and
/// `now` not past its expiration (the expiration instant itself is valid).
pub open spec fn valid_at(record: ProofRecord, now: u64) -> bool {
    record.status == ProofStatus::Active && now <= record.expires_at
}

/// A write to the proof registry's stored state.
#[derive(Clone, Copy, Debug, PartialEq, Eq)]
pub enum ProofWrite {
    /// Store `admin` as the admin.
    SetAdmin { admin: Address },
    /// Store `address` as the issuer registry consulted on registration.
    SetIssuerRegistry { address: Address },
    /// Store `address` as the protocol configuration consulted on registration.
    SetProtocolConfig { address: Address },
    /// Store `record` under proof id `id`.
    PutProof { id: Hash32, record: ProofRecord },
    /// A write to upgrade governance.
    Governance(UpgradeWrite),
}

/// `v` after write `w`.
pub open spec fn apply_proof_write(v: ProofRegistryView, w: ProofWrite) -> ProofRegistryView {
    match w {
        ProofWrite::SetAdmin { admin } => ProofRegistryView { admin: Some(admin), ..v },
        ProofWrite::SetIssuerRegistry { address } => ProofRegistryView {
            issuer_registry: Some(address),
            ..v
        },
        ProofWrite::SetProtocolConfig { address } => ProofRegistryView {
            protocol_config: Some(address),
            ..v
        },
        ProofWrite::PutProof { id, record } => ProofRegistryView {
            proofs: v.proofs.insert(id, record),
            ..v
        },
        ProofWrite::Governance(u) => ProofRegistryView {
            upgrades: apply_upgrade_write(v.upgrades, u),
            ..v
        },
    }
}

/// `v` after the writes `ws`, in order.
pub open spec fn apply_proof_writes(v: ProofRegistryView, ws: Seq<ProofWrite>) -> ProofRegistryView
    decreases ws.len(),
{
    if ws.len() == 0 {
        v
    } else {
        apply_proof_write(apply_proof_writes(v, ws.drop_last()), ws.last())
    }
}

/// The writes of initialization with `admin` and the two dependency addresses.
pub open spec fn configure_writes(
    admin: Address,
    issuer_registry: Address,
    protocol_config: Address,
) -> Seq<ProofWrite> {
    seq![
        ProofWrite::SetAdmin { admin },
        ProofWrite::SetIssuerRegistry { address: issuer_registry },
        ProofWrite::SetProtocolConfig { address: protocol_config },
        ProofWrite::Governance(UpgradeWrite::SetVersion { version: MIN_CONTRACT_VERSION }),
    ]
}

/// The writes that store `record` under proof id `id`: a registration's
/// commit, or a revocation.
pub open spec fn proof_writes(id: Hash32, record: ProofRecord) -> Seq<ProofWrite> {
    seq![ProofWrite::PutProof { id, record }]
}

/// The writes of initialization with `admin` and the two dependency addresses.
pub fn plan_configure(admin: Address, issuer_registry: Address, protocol_config: Address) -> (ws: Vec<
    ProofWrite,
>)
    ensures
        ws@ == configure_writes(admin, issuer_registry, protocol_config),
{
    let ws = vec![
        ProofWrite::SetAdmin { admin },
        ProofWrite::SetIssuerRegistry { address: issuer_registry },
        ProofWrite::SetProtocolConfig { address: protocol_config },
        ProofWrite::Governance(UpgradeWrite::SetVersion { version: MIN_CONTRACT_VERSION }),
    ];
    assert(ws@ =~= configure_writes(admin, issuer_registry, protocol_config));
    ws
}

/// The writes that store `record` under proof id `id`.
pub fn plan_proof(id: Hash32, record: ProofRecord) -> (ws: Vec<ProofWrite>)
    ensures
        ws@ == proof_writes(id, record),
{
    let ws = vec![ProofWrite::PutProof { id, record }];
    assert(ws@ =~= proof_writes(id, record));
    ws
}

/// Decides an initialization.
pub fn decide_initialize(
    own_address: &Address,
    admin_present: bool,
    admin: &Address,
    issuer_registry: &Address,
    protocol_config: &Address,
) -> (d: Decision<(), ContractError>)
    ensures
        d == initialize_decision(*own_address, admin_present, *admin, *issuer_registry, *protocol_config),
{
    if admin_present {
        Decision { authorizer: None, verdict: Err(ContractError::AlreadyInitialized) }
    } else if !is_valid_principal_address(issuer_registry) || issuer_registry.same_as(own_address)
        || !is_valid_principal_address(protocol_config)
        || protocol_config.same_as(own_address) {
        Decision { authorizer: None, verdict: Err(ContractError::InvalidInput) }
    } else {
        Decision { authorizer: Some(*admin), verdict: Ok(()) }
    }
}

/// The typed error for a submission refused before any read, if any.
pub fn check_submission(own_address: &Address, now: u64, s: &ProofSubmission) -> (r: Option<ProofError>)
    ensures
        r == submission_error(*own_address, now, *s),
{
    if !is_valid_principal_address(&s.issuer_address) || s.issuer_address.same_as(own_address) {
        Some(ProofError::InvalidAddress)
    } else if s.schema_version < MIN_SCHEMA_VERSION {
        Some(ProofError::InvalidSchemaVersion)
    } else if s.expires_at <= now {
        Some(ProofError::ProofExpired)
    } else {
        None
    }
}

/// How registration proceeds on `reply` to `check`.
pub fn judge_reply(check: DependencyCheck, reply: Reply) -> (r: Verdict)
    ensures
        r == check_verdict(check, reply),
{
    match reply {
        Reply::Failed => Verdict::Abort(Abort::DependencyFailed),
        Reply::Malformed => Verdict::Abort(Abort::DependencyFailed),
        Reply::Answer(b) => match check {
            DependencyCheck::Paused => if b {
                Verdict::Reject(ProofError::InvalidSchemaVersion)
            } else {
                Verdict::Continue
            },
            DependencyCheck::SchemaApproved => if b {
                Verdict::Continue
            } else {
                Verdict::Reject(ProofError::SchemaVersionNotApproved)
            },
            DependencyCheck::IssuerActive => if b {
                Verdict::Continue
            } else {
                Verdict::Reject(ProofError::InvalidSchemaVersion)
            },
        },
    }
}

/// The read that follows `check`, if any.
pub fn next_check(check: DependencyCheck) -> (r: Option<DependencyCheck>)
    ensures
        r == following_check(check),
{
    match check {
        DependencyCheck::Paused => Some(DependencyCheck::SchemaApproved),
        DependencyCheck::SchemaApproved => Some(DependencyCheck::IssuerActive),
        DependencyCheck::IssuerActive => None,
    }
}

/// The record a registration of `s` at time `now` stores.
pub fn new_proof_record(now: u64, s: &ProofSubmission) -> (r: ProofRecord)
    ensures
        r == registered_record(now, *s),
{
    ProofRecord {
        proof_id_hash: s.proof_id_hash,
        commitment_hash: s.commitment_hash,
        issuer_address: s.issuer_address,
        status: ProofStatus::Active,
        schema_version: s.schema_version,
        expires_at: s.expires_at,
        created_at: now,
        revoked_at: 0,
    }
}

/// The write that ends a registration whose reads all passed: the record
/// to store, unless the proof id is taken.
pub fn decide_commit(id_taken: bool, now: u64, s: &ProofSubmission) -> (r: Result<ProofRecord, ProofError>)
    ensures
        r == (if id_taken {
            Err(ProofError::ProofAlreadyRegistered)
        } else {
            Ok(registered_record(now, *s))
        }),
{
    if id_taken {
        Err(ProofError::ProofAlreadyRegistered)
    } else {
        Ok(new_proof_record(now, s))
    }
}

/// Who must authorize revoking `record`: its issuer, or the admin (absent
/// before initialization) for an admin revocation.
pub fn revocation_authority(by_admin: bool, admin: Option<Address>, record: &ProofRecord) -> (r: Option<
    Address,
>)
    ensures
        r == (if by_admin {
            admin
        } else {
            Some(record.issuer_address)
        }),
{
    if by_admin {
        admin
    } else {
        Some(record.issuer_address)
    }
}

/// Whether `record` is valid at ledger time `now`.
pub fn proof_valid_at(record: &ProofRecord, now: u64) -> (r: bool)
    ensures
        r == valid_at(*record, now),
{
    record.status == ProofStatus::Active && now <= record.expires_at
}

/// Decides the revocation of `record` on the authority of `authority`.
pub fn decide_revocation(authority: Address, record: ProofRecord, now: u64) -> (d: Decision<
    ProofRecord,
    ProofError,
>)
    ensures
        d == revocation_decision(authority, record, now),
{
    Decision {
        authorizer: Some(authority),
        verdict: if record.status == ProofStatus::Revoked {
            Err(ProofError::ProofAlreadyRevoked)
        } else {
            Ok(ProofRecord { status: ProofStatus::Revoked, revoked_at: now, ..record })
        },
    }
}

impl DependencyReplies {
    /// The reply to `check`.
    pub fn reply(&self, check: DependencyCheck) -> (r: Reply)
        ensures
            r == reply_to(*self, check),
    {
        match check {
            DependencyCheck::Paused => self.paused,
            DependencyCheck::SchemaApproved => self.schema_approved,
            DependencyCheck::IssuerActive => self.issuer_active,
        }
    }
}

/// The proof registry contract: its stored contents and its entry points.
pub struct ProofRegistryContract {
    own_address: Address,
    admin: Option<Address>,
    issuer_registry: Option<Address>,
    protocol_config: Option<Address>,
    proofs: Table<Hash32, ProofRecord>,
    upgrades: UpgradeGovernance,
}

impl View for ProofRegistryContract {
    type V = ProofRegistryView;

    closed spec fn view(&self) -> ProofRegistryView {
        ProofRegistryView {
            own_address: self.own_address,
            admin: self.admin,
            issuer_registry: self.issuer_registry,
            protocol_config: self.protocol_config,
            proofs: self.proofs@,
            upgrades: self.upgrades@,
        }
    }
}

impl ProofRegistryContract {
    /// Internal consistency of the stored tables.
    pub closed spec fn wf(&self) -> bool {
        &&& self.proofs.wf()
        &&& self.upgrades.wf()
    }

    /// Performs write `w`.
    fn apply(&mut self, w: &ProofWrite)
        requires
            old(self).wf(),
        ensures
            final(self).wf(),
            final(self)@ == apply_proof_write(old(self)@, *w),
    {
        match w {
            ProofWrite::SetAdmin { admin } => {
                self.admin = Some(*admin);
            },
            ProofWrite::SetIssuerRegistry { address } => {
                self.issuer_registry = Some(*address);
            },
            ProofWrite::SetProtocolConfig { address } => {
                self.protocol_config = Some(*address);
            },
            ProofWrite::PutProof { id, record } => self.proofs.insert(*id, *record),
            ProofWrite::Governance(u) => self.upgrades.apply(u),
        }
    }

    /// Performs the writes `ws`, in order.
    fn apply_all(&mut self, ws: &Vec<ProofWrite>)
        requires
            old(self).wf(),
        ensures
            final(self).wf(),
            final(self)@ == apply_proof_writes(old(self)@, ws@),
    {
        let ghost start = self@;
        let mut i: usize = 0;
        while i < ws.len()
            invariant
                0 <= i <= ws@.len(),
                self.wf(),
                self@ == apply_proof_writes(start, ws@.take(i as int)),
            decreases ws@.len() - i,
        {
            assert(ws@.take(i + 1).drop_last() =~= ws@.take(i as int));
            self.apply(&ws[i]);
            i = i + 1;
        }
        assert(ws@.take(ws@.len() as int) =~= ws@);
    }

    /// A freshly deployed, uninitialized registry at `own_address`.
    pub fn new(own_address: Address) -> (c: Self)
        ensures
            c.wf(),
            c@.own_address == own_address,
            c@.admin == None::<Address>,
            c@.issuer_registry == None::<Address>,
            c@.protocol_config == None::<Address>,
            c@.proofs == Map::<Hash32, ProofRecord>::empty(),
            c@.upgrades.version == None::<u32>,
            c@.upgrades.allowed == Map::<Hash32, u32>::empty(),
    {
        ProofRegistryContract {
            own_address,
            admin: None,
            issuer_registry: None,
            protocol_config: None,
            proofs: Table::new(),
            upgrades: UpgradeGovernance::new(),
        }
    }

    /// Stores the admin (who must authorize) and the two dependency
    /// addresses, and sets the contract version to 1.
    pub fn initialize(
        &mut self,
        inv: &Invocation,
        admin: Address,
        issuer_registry: Address,
        protocol_config: Address,
    ) -> (r: Outcome<(), ContractError>)
        requires
            old(self).wf(),
        ensures
            final(self).wf(),
            (final(self)@, r) == initialize_spec(old(self)@, inv.auth, admin, issuer_registry, protocol_config),
    {
        let d = decide_initialize(
            &self.own_address,
            self.admin.is_some(),
            &admin,
            &issuer_registry,
            &protocol_config,
        );
        match settle(d, &inv.auth) {
            Outcome::Done(_) => {
                self.apply_all(&plan_configure(admin, issuer_registry, protocol_config));
                proof {
                    reveal_with_fuel(apply_proof_writes, 5);
                    assert(self@ =~= initialize_spec(
                        old(self)@,
                        inv.auth,
                        admin,
                        issuer_registry,
                        protocol_config,
                    ).0);
                }
                Outcome::Done(())
            },
            Outcome::Rejected(e) => Outcome::Rejected(e),
            Outcome::Aborted(r) => Outcome::Aborted(r),
        }
    }

    /// The first step of a registration the issuer has authorized: the
    /// refusal before any read, if there is one.
    pub fn admit_submission(&self, now: u64, submission: &ProofSubmission) -> (r: Option<
        Outcome<(), ProofError>,
    >)
        ensures
            r == (match submission_error(self@.own_address, now, *submission) {
                Some(e) => Some(Outcome::Rejected(e)),
                None => if self@.protocol_config is None || self@.issuer_registry is None {
                    Some(Outcome::<(), ProofError>::Aborted(Abort::NotInitialized))
                } else {
                    None
                },
            }),
    {
        match check_submission(&self.own_address, now, submission) {
            Some(e) => Some(Outcome::Rejected(e)),
            None => if self.protocol_config.is_none() || self.issuer_registry.is_none() {
                Some(Outcome::Aborted(Abort::NotInitialized))
            } else {
                None
            },
        }
    }

    /// The last step of a registration whose reads all passed: stores the
    /// proof unless its id is taken.
    pub fn commit_registration(&mut self, now: u64, submission: &ProofSubmission) -> (r: Outcome<
        (),
        ProofError,
    >)
        requires
            old(self).wf(),
        ensures
            final(self).wf(),
            old(self)@.proofs.dom().contains(submission.proof_id_hash) ==> final(self)@ == old(self)@
                && r == Outcome::<(), ProofError>::Rejected(ProofError::ProofAlreadyRegistered),
            !old(self)@.proofs.dom().contains(submission.proof_id_hash) ==> final(self)@ == (
            ProofRegistryView {
                proofs: old(self)@.proofs.insert(
                    submission.proof_id_hash,
                    registered_record(now, *submission),
                ),
                ..old(self)@
            }) && r == Outcome::<(), ProofError>::Done(()),
    {
        match decide_commit(self.proofs.contains_key(&submission.proof_id_hash), now, submission) {
            Err(e) => Outcome::Rejected(e),
            Ok(record) => {
                self.apply_all(&plan_proof(submission.proof_id_hash, record));
                proof {
                    reveal_with_fuel(apply_proof_writes, 2);
                }
                Outcome::Done(())
            },
        }
    }

    /// Registers a proof. The issuing address must authorize; the submission
    /// must pass its own checks; then the pause flag, the schema approval and
    /// the issuer's status are read, in that order, and the proof is stored
    /// unless its id is taken. `replies` is what the other contracts answer.
    pub fn register_proof(
        &mut self,
        inv: &Invocation,
        proof_id_hash: Hash32,
        commitment_hash: Hash32,
        issuer_address: Address,
        schema_version: u32,
        expires_at: u64,
        replies: &DependencyReplies,
    ) -> (r: Outcome<(), ProofError>)
        requires
            old(self).wf(),
        ensures
            final(self).wf(),
            (final(self)@, r) == register_proof_spec(
                old(self)@,
                inv.auth,
                inv.timestamp,
                (ProofSubmission {
                    proof_id_hash,
                    commitment_hash,
                    issuer_address,
                    schema_version,
                    expires_at,
                }),
                *replies,
            ),
    {
        let submission = &ProofSubmission {
            proof_id_hash,
            commitment_hash,
            issuer_address,
            schema_version,
            expires_at,
        };
        if !inv.auth.check(&submission.issuer_address) {
            return Outcome::Aborted(Abort::Unauthorized);
        }
        match self.admit_submission(inv.timestamp, submission) {
            Some(o) => {
                return o;
            },
            None => {},
        }
        let mut check = DependencyCheck::Paused;
        #[verifier::loop_isolation(false)]
        loop
            invariant
                check_verdict(DependencyCheck::Paused, replies.paused) == Verdict::Continue || check
                    == DependencyCheck::Paused,
                check == DependencyCheck::IssuerActive ==> check_verdict(
                    DependencyCheck::SchemaApproved,
                    replies.schema_approved,
                ) == Verdict::Continue,
            decreases (match check {
                DependencyCheck::Paused => 2int,
                DependencyCheck::SchemaApproved => 1int,
                DependencyCheck::IssuerActive => 0int,
            }),
        {
            match judge_reply(check, replies.reply(check)) {
                Verdict::Continue => {},
                Verdict::Reject(e) => {
                    return Outcome::Rejected(e);
                },
                Verdict::Abort(a) => {
                    return Outcome::Aborted(a);
                },
            }
            match next_check(check) {
                Some(c) => {
                    check = c;
                },
                None => {
                    break;
                },
            }
        }
        self.commit_registration(inv.timestamp, submission)
    }

    /// Revokes proof `id` on the authority of its issuer or of the admin.
    fn set_revoked(&mut self, inv: &Invocation, proof_id_hash: Hash32, by_admin: bool) -> (r: Outcome<
        (),
        ProofError,
    >)
        requires
            old(self).wf(),
        ensures
            final(self).wf(),
            (final(self)@, r) == set_revoked_spec(old(self)@, inv.auth, inv.timestamp, proof_id_hash, by_admin),
    {
        let record = match self.proofs.get(&proof_id_hash) {
            None => {
                return Outcome::Rejected(ProofError::ProofNotFound);
            },
            Some(rec) => rec,
        };
        let authority = match revocation_authority(by_admin, self.admin, &record) {
            None => {
                return Outcome::Aborted(Abort::NotInitialized);
            },
            Some(a) => a,
        };
        match settle(decide_revocation(authority, record, inv.timestamp), &inv.auth) {
            Outcome::Done(r) => {
                self.apply_all(&plan_proof(proof_id_hash, r));
                proof {
                    reveal_with_fuel(apply_proof_writes, 2);
                }
                Outcome::Done(())
            },
            Outcome::Rejected(e) => Outcome::Rejected(e),
            Outcome::Aborted(a) => Outcome::Aborted(a),
        }
    }

    /// The proof's issuer revokes it.
    pub fn revoke_proof(&mut self, inv: &Invocation, proof_id_hash: Hash32) -> (r: Outcome<(), ProofError>)
        requires
            old(self).wf(),
        ensures
            final(self).wf(),
            (final(self)@, r) == set_revoked_spec(old(self)@, inv.auth, inv.timestamp, proof_id_hash, false),
    {
        self.set_revoked(inv, proof_id_hash, false)
    }

    /// The admin revokes a proof.
    pub fn admin_revoke_proof(&mut self, inv: &Invocation, proof_id_hash: Hash32) -> (r: Outcome<
        (),
        ProofError,
    >)
        requires
            old(self).wf(),
        ensures
            final(self).wf(),
            (final(self)@, r) == set_revoked_spec(old(self)@, inv.auth, inv.timestamp, proof_id_hash, true),
    {
        self.set_revoked(inv, proof_id_hash, true)
    }

    /// The record of proof `proof_id_hash`.
    pub fn get_proof(&self, proof_id_hash: &Hash32) -> (r: Result<ProofRecord, ProofError>)
        requires
            self.wf(),
        ensures
            r == (match lookup(self@.proofs, *proof_id_hash) {
                Some(rec) => Ok(rec),
                None => Err(ProofError::ProofNotFound),
            }),
    {
        match self.proofs.get(proof_id_hash) {
            Some(rec) => Ok(rec),
            None => Err(ProofError::ProofNotFound),
        }
    }

    /// Whether proof `proof_id_hash` is valid at ledger time `now`.
    pub fn is_valid_proof(&self, now: u64, proof_id_hash: &Hash32) -> (r: Result<bool, ProofError>)
        requires
            self.wf(),
        ensures
            r == (match lookup(self@.proofs, *proof_id_hash) {
                Some(rec) => Ok(valid_at(rec, now)),
                None => Err(ProofError::ProofNotFound),
            }),
    {
        match self.proofs.get(proof_id_hash) {
            Some(rec) => Ok(proof_valid_at(&rec, now)),
            None => Err(ProofError::ProofNotFound),
        }
    }

    /// Whether proof `proof_id_hash` has been revoked.
    pub fn is_revoked(&self, proof_id_hash: &Hash32) -> (r: Result<bool, ProofError>)
        requires
            self.wf(),
        ensures
            r == (match lookup(self@.proofs, *proof_id_hash) {
                Some(rec) => Ok(rec.status == ProofStatus::Revoked),
                None => Err(ProofError::ProofNotFound),
            }),
    {
        match self.proofs.get(proof_id_hash) {
            Some(rec) => Ok(rec.status == ProofStatus::Revoked),
            None => Err(ProofError::ProofNotFound),
        }
    }

    /// The admin, or `NotInitialized`.
    pub fn get_admin(&self) -> (r: Result<Address, ContractError>)
        ensures
            r == (match self@.admin {
                Some(a) => Ok(a),
                None => Err(ContractError::NotInitialized),
            }),
    {
        match self.admin {
            Some(a) => Ok(a),
            None => Err(ContractError::NotInitialized),
        }
    }

    /// The issuer registry consulted on registration, or `NotInitialized`.
    pub fn get_issuer_registry(&self) -> (r: Result<Address, ContractError>)
        ensures
            r == (match self@.issuer_registry {
                Some(a) => Ok(a),
                None => Err(ContractError::NotInitialized),
            }),
    {
        match self.issuer_registry {
            Some(a) => Ok(a),
            None => Err(ContractError::NotInitialized),
        }
    }

    /// The protocol configuration consulted on registration, or `NotInitialized`.
    pub fn get_protocol_config(&self) -> (r: Result<Address, ContractError>)
        ensures
            r == (match self@.protocol_config {
                Some(a) => Ok(a),
                None => Err(ContractError::NotInitialized),
            }),
    {
        match self.protocol_config {
            Some(a) => Ok(a),
            None => Err(ContractError::NotInitialized),
        }
    }

    /// The contract version: 1 after initialization, raised by each upgrade;
    /// 0 before initialization.
    pub fn get_contract_version(&self) -> (r: u32)
        ensures
            r == reported_version(self@.upgrades),
    {
        self.upgrades.get_contract_version()
    }

    /// Admin only: approves `wasm_hash` for `new_version`, which must exceed
    /// the current version.
    pub fn approve_upgrade(&mut self, inv: &Invocation, wasm_hash: Hash32, new_version: u32) -> (r: Outcome<
        UpgradeAllowlisted,
        UpgradeError,
    >)
        requires
            old(self).wf(),
        ensures
            final(self).wf(),
            final(self)@ == with_upgrades(old(self)@, approve_upgrade_spec(old(self)@.upgrades, old(self)@.admin, inv.auth, wasm_hash, new_version).0),
            r == approve_upgrade_spec(old(self)@.upgrades, old(self)@.admin, inv.auth, wasm_hash, new_version).1,
    {
        self.upgrades.approve_upgrade(self.admin, &inv.auth, wasm_hash, new_version)
    }

    /// Admin only: removes `wasm_hash` from the allowlist.
    pub fn revoke_upgrade(&mut self, inv: &Invocation, wasm_hash: Hash32) -> (r: Outcome<
        UpgradeRevoked,
        UpgradeError,
    >)
        requires
            old(self).wf(),
        ensures
            final(self).wf(),
            final(self)@ == with_upgrades(old(self)@, revoke_upgrade_spec(old(self)@.upgrades, old(self)@.admin, inv.auth, wasm_hash).0),
            r == revoke_upgrade_spec(old(self)@.upgrades, old(self)@.admin, inv.auth, wasm_hash).1,
    {
        self.upgrades.revoke_upgrade(self.admin, &inv.auth, wasm_hash)
    }

    /// Whether `wasm_hash` is on the allowlist.
    pub fn is_upgrade_allowed(&self, wasm_hash: &Hash32) -> (r: bool)
        requires
            self.wf(),
        ensures
            r == self@.upgrades.allowed.dom().contains(*wasm_hash),
    {
        self.upgrades.is_upgrade_allowed(wasm_hash)
    }

    /// Admin only: applies the allowlisted upgrade `wasm_hash`, consuming its
    /// allowlist entry and advancing the contract version.
    pub fn upgrade_contract(&mut self, inv: &Invocation, wasm_hash: Hash32) -> (r: Outcome<
        ContractUpgraded,
        UpgradeError,
    >)
        requires
            old(self).wf(),
        ensures
            final(self).wf(),
            final(self)@ == with_upgrades(old(self)@, upgrade_contract_spec(old(self)@.upgrades, old(self)@.admin, inv.auth, wasm_hash).0),
            r == upgrade_contract_spec(old(self)@.upgrades, old(self)@.admin, inv.auth, wasm_hash).1,
    {
        self.upgrades.upgrade_contract(self.admin, &inv.auth, wasm_hash)
    }
}

} // verus!
