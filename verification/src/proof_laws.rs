//! Laws of the proof registry.
use crate::invocation::{Abort, Authorizations, Outcome};
use crate::proof_registry::{
    apply_proof_writes, configure_writes, initialize_spec, proof_writes, register_proof_spec,
    registered_record, revocation_decision, set_revoked_spec, submission_error, valid_at,
    with_upgrades, DependencyReplies, ProofRegistryView, ProofSubmission, ProofWrite, Reply,
};
use crate::issuer_registry::lookup;
use crate::primitives::{Address, Hash32};
use crate::shared::{valid_principal, MIN_SCHEMA_VERSION};
use crate::upgrade::{approve_upgrade_spec, revoke_upgrade_spec, upgrade_contract_spec};
use crate::shared::{ProofError, ProofStatus};
use vstd::prelude::*;

verus! {

/// A registration that its issuer has not authorized, or that fails its own
/// checks, is decided before any other contract is read: its outcome does
/// not depend on what the other contracts would reply.
pub proof fn law_no_read_before_authorization_and_checks(
    v: ProofRegistryView,
    auth: Authorizations,
    now: u64,
    s: ProofSubmission,
    replies: DependencyReplies,
    other: DependencyReplies,
)
    requires
        !auth.authorizes(s.issuer_address) || submission_error(v.own_address, now, s) is Some,
    ensures
        register_proof_spec(v, auth, now, s, replies) == register_proof_spec(v, auth, now, s, other),
{
}

/// A registration either stores exactly the submitted proof as active, or
/// changes nothing.
pub proof fn law_registration_is_atomic(
    v: ProofRegistryView,
    auth: Authorizations,
    now: u64,
    s: ProofSubmission,
    replies: DependencyReplies,
)
    ensures
        register_proof_spec(v, auth, now, s, replies).1 is Done ==> register_proof_spec(
            v,
            auth,
            now,
            s,
            replies,
        ).0.proofs == v.proofs.insert(s.proof_id_hash, registered_record(now, s)),
        !(register_proof_spec(v, auth, now, s, replies).1 is Done) ==> register_proof_spec(
            v,
            auth,
            now,
            s,
            replies,
        ).0 == v,
{
}

/// A read that fails, or answers with a value of the wrong type, aborts the
/// registration whenever the registration gets that far.
pub proof fn law_failed_reads_abort(
    v: ProofRegistryView,
    auth: Authorizations,
    now: u64,
    s: ProofSubmission,
    replies: DependencyReplies,
)
    requires
        auth.authorizes(s.issuer_address),
        submission_error(v.own_address, now, s) is None,
        v.protocol_config is Some,
        v.issuer_registry is Some,
        replies.paused == Reply::Failed || replies.paused == Reply::Malformed || (replies.paused
            == Reply::Answer(false) && (replies.schema_approved == Reply::Failed
            || replies.schema_approved == Reply::Malformed || (replies.schema_approved
            == Reply::Answer(true) && (replies.issuer_active == Reply::Failed
            || replies.issuer_active == Reply::Malformed)))),
    ensures
        register_proof_spec(v, auth, now, s, replies) == (
            v,
            Outcome::<(), ProofError>::Aborted(Abort::DependencyFailed),
        ),
{
}

/// A registered proof is never overwritten: registering an id that is taken
/// leaves its record as it was.
pub proof fn law_no_overwrite(
    v: ProofRegistryView,
    auth: Authorizations,
    now: u64,
    s: ProofSubmission,
    replies: DependencyReplies,
)
    requires
        v.proofs.dom().contains(s.proof_id_hash),
    ensures
        register_proof_spec(v, auth, now, s, replies).0 == v,
        !(register_proof_spec(v, auth, now, s, replies).1 is Done),
{
}

/// A proof registered at time `now` is valid at every time from `now` up to
/// and including its expiration, and at no time after it.
pub proof fn law_registered_proof_validity_window(
    v: ProofRegistryView,
    auth: Authorizations,
    now: u64,
    s: ProofSubmission,
    replies: DependencyReplies,
    t: u64,
)
    requires
        register_proof_spec(v, auth, now, s, replies).1 is Done,
    ensures
        now < s.expires_at,
        valid_at(register_proof_spec(v, auth, now, s, replies).0.proofs[s.proof_id_hash], t) == (t
            <= s.expires_at),
{
}

/// Revocation is terminal and dominates expiry: once revoked, a proof stays
/// revoked whatever is attempted next, and is valid at no time.
pub proof fn law_revocation_is_terminal(
    v: ProofRegistryView,
    auth: Authorizations,
    now: u64,
    id: Hash32,
    by_admin: bool,
    s: ProofSubmission,
    replies: DependencyReplies,
    t: u64,
)
    requires
        v.proofs.dom().contains(id),
        v.proofs[id].status == ProofStatus::Revoked,
    ensures
        set_revoked_spec(v, auth, now, id, by_admin).0 == v,
        !(set_revoked_spec(v, auth, now, id, by_admin).1 is Done),
        register_proof_spec(v, auth, now, s, replies).0.proofs[id] == v.proofs[id],
        !valid_at(v.proofs[id], t),
{
}

/// Revocation changes nothing of a proof but its status and its revocation
/// time, and only its issuer (or, for an admin revocation, the admin) can
/// authorize it.
pub proof fn law_revocation_scope(
    v: ProofRegistryView,
    auth: Authorizations,
    now: u64,
    id: Hash32,
    by_admin: bool,
)
    requires
        set_revoked_spec(v, auth, now, id, by_admin).1 is Done,
    ensures
        ({
            let before = v.proofs[id];
            let after = set_revoked_spec(v, auth, now, id, by_admin).0.proofs[id];
            &&& after.status == ProofStatus::Revoked
            &&& after.revoked_at == now
            &&& after.proof_id_hash == before.proof_id_hash
            &&& after.commitment_hash == before.commitment_hash
            &&& after.issuer_address == before.issuer_address
            &&& after.schema_version == before.schema_version
            &&& after.expires_at == before.expires_at
            &&& after.created_at == before.created_at
        }),
        by_admin ==> auth.authorizes(v.admin->0),
        !by_admin ==> auth.authorizes(v.proofs[id].issuer_address),
        set_revoked_spec(v, auth, now, id, by_admin).0.proofs.dom() == v.proofs.dom(),
{
    assert(set_revoked_spec(v, auth, now, id, by_admin).0.proofs.dom() =~= v.proofs.dom());
}

/// The mutating operations of the proof registry with their arguments.
pub enum ProofOperation {
    Initialize { admin: Address, issuer_registry: Address, protocol_config: Address },
    Register { submission: ProofSubmission, replies: DependencyReplies },
    Revoke { id: Hash32 },
    AdminRevoke { id: Hash32 },
    ApproveUpgrade { wasm_hash: Hash32, new_version: u32 },
    RevokeUpgrade { wasm_hash: Hash32 },
    UpgradeContract { wasm_hash: Hash32 },
}

/// The state after an operation of the registry, any of them, on `v`.
pub open spec fn after_any_operation(
    v: ProofRegistryView,
    op: ProofOperation,
    auth: Authorizations,
    now: u64,
) -> ProofRegistryView {
    match op {
        ProofOperation::Initialize { admin, issuer_registry, protocol_config } => initialize_spec(
            v,
            auth,
            admin,
            issuer_registry,
            protocol_config,
        ).0,
        ProofOperation::Register { submission, replies } => register_proof_spec(
            v,
            auth,
            now,
            submission,
            replies,
        ).0,
        ProofOperation::Revoke { id } => set_revoked_spec(v, auth, now, id, false).0,
        ProofOperation::AdminRevoke { id } => set_revoked_spec(v, auth, now, id, true).0,
        ProofOperation::ApproveUpgrade { wasm_hash, new_version } => with_upgrades(
            v,
            approve_upgrade_spec(v.upgrades, v.admin, auth, wasm_hash, new_version).0,
        ),
        ProofOperation::RevokeUpgrade { wasm_hash } => with_upgrades(
            v,
            revoke_upgrade_spec(v.upgrades, v.admin, auth, wasm_hash).0,
        ),
        ProofOperation::UpgradeContract { wasm_hash } => with_upgrades(
            v,
            upgrade_contract_spec(v.upgrades, v.admin, auth, wasm_hash).0,
        ),
    }
}

/// Whatever operation follows, a registered proof stays registered, keeps
/// every field but its status and revocation time, and a revoked proof
/// stays revoked with its revocation time.
pub proof fn law_proofs_are_immutable_but_for_revocation(
    v: ProofRegistryView,
    op: ProofOperation,
    auth: Authorizations,
    now: u64,
    id: Hash32,
)
    requires
        v.proofs.dom().contains(id),
    ensures
        ({
            let w = after_any_operation(v, op, auth, now);
            let before = v.proofs[id];
            let after = w.proofs[id];
            &&& w.proofs.dom().contains(id)
            &&& after.proof_id_hash == before.proof_id_hash
            &&& after.commitment_hash == before.commitment_hash
            &&& after.issuer_address == before.issuer_address
            &&& after.schema_version == before.schema_version
            &&& after.expires_at == before.expires_at
            &&& after.created_at == before.created_at
            &&& before.status == ProofStatus::Revoked ==> after == before
        }),
{
}

/// A registration succeeds only when its issuer authorized it, the issuing
/// address is a valid principal other than the registry, the schema version
/// is nonzero and approved, the expiration is in the future, the protocol is
/// not paused, the issuer is active, and the proof id is new.
pub proof fn law_registration_requires_every_guard(
    v: ProofRegistryView,
    auth: Authorizations,
    now: u64,
    s: ProofSubmission,
    replies: DependencyReplies,
)
    requires
        register_proof_spec(v, auth, now, s, replies).1 is Done,
    ensures
        auth.authorizes(s.issuer_address),
        valid_principal(s.issuer_address),
        s.issuer_address != v.own_address,
        s.schema_version >= MIN_SCHEMA_VERSION,
        s.expires_at > now,
        replies.paused == Reply::Answer(false),
        replies.schema_approved == Reply::Answer(true),
        replies.issuer_active == Reply::Answer(true),
        !v.proofs.dom().contains(s.proof_id_hash),
        v.protocol_config is Some,
        v.issuer_registry is Some,
{
}

/// Initialization happens once: on an initialized registry it is refused
/// with `AlreadyInitialized` and nothing changes.
pub proof fn law_initialization_is_one_way(
    v: ProofRegistryView,
    auth: Authorizations,
    admin: Address,
    issuer_registry: Address,
    protocol_config: Address,
)
    requires
        v.admin is Some,
    ensures
        initialize_spec(v, auth, admin, issuer_registry, protocol_config) == (
            v,
            Outcome::<(), crate::shared::ContractError>::Rejected(
                crate::shared::ContractError::AlreadyInitialized,
            ),
        ),
{
}

/// The write plans perform the transitions: when an operation succeeds,
/// performing the writes planned from its decision on the stored state gives
/// the state its transition states.
pub proof fn law_plans_perform_the_transitions(
    v: ProofRegistryView,
    auth: Authorizations,
    now: u64,
    admin: Address,
    issuer_registry: Address,
    protocol_config: Address,
    s: ProofSubmission,
    replies: DependencyReplies,
    id: Hash32,
    by_admin: bool,
)
    ensures
        initialize_spec(v, auth, admin, issuer_registry, protocol_config).1 is Done ==> apply_proof_writes(
            v,
            configure_writes(admin, issuer_registry, protocol_config),
        ) == initialize_spec(v, auth, admin, issuer_registry, protocol_config).0,
        register_proof_spec(v, auth, now, s, replies).1 is Done ==> apply_proof_writes(
            v,
            proof_writes(s.proof_id_hash, registered_record(now, s)),
        ) == register_proof_spec(v, auth, now, s, replies).0,
        lookup(v.proofs, id) matches Some(record) ==> (revocation_decision(
            if by_admin {
                v.admin->0
            } else {
                record.issuer_address
            },
            record,
            now,
        ).verdict matches Ok(revoked) ==> (set_revoked_spec(v, auth, now, id, by_admin).1 is Done
            ==> apply_proof_writes(v, proof_writes(id, revoked)) == set_revoked_spec(
            v,
            auth,
            now,
            id,
            by_admin,
        ).0)),
{
    reveal_with_fuel(apply_proof_writes, 5);
    assert forall|i: Hash32, r: crate::shared::ProofRecord| #[trigger] proof_writes(i, r).drop_last()
        =~= Seq::<ProofWrite>::empty() by {}
    let c = configure_writes(admin, issuer_registry, protocol_config);
    assert(c.drop_last().drop_last().drop_last().drop_last() =~= Seq::<ProofWrite>::empty());
    if initialize_spec(v, auth, admin, issuer_registry, protocol_config).1 is Done {
        assert(apply_proof_writes(v, c) =~= initialize_spec(
            v,
            auth,
            admin,
            issuer_registry,
            protocol_config,
        ).0);
    }
}

/// A successful registration stores exactly what was submitted: the record
/// under the submitted proof id carries the submitted commitment, issuing
/// address, schema version and expiration, is `Active`, was created at
/// `now` and has never been revoked; every other proof is untouched. And a
/// registration succeeds when its issuer authorizes it, the submission
/// passes its own checks, the registry is initialized, the protocol is not
/// paused, the schema version is approved, the issuer is active and the id
/// is free, and only then.
pub proof fn law_registration_stores_the_submission(
    v: ProofRegistryView,
    auth: Authorizations,
    now: u64,
    s: ProofSubmission,
    replies: DependencyReplies,
)
    ensures
        register_proof_spec(v, auth, now, s, replies).1 is Done ==> {
            let w = register_proof_spec(v, auth, now, s, replies).0;
            &&& !v.proofs.dom().contains(s.proof_id_hash)
            &&& w.proofs.dom().contains(s.proof_id_hash)
            &&& w.proofs[s.proof_id_hash].proof_id_hash == s.proof_id_hash
            &&& w.proofs[s.proof_id_hash].commitment_hash == s.commitment_hash
            &&& w.proofs[s.proof_id_hash].issuer_address == s.issuer_address
            &&& w.proofs[s.proof_id_hash].schema_version == s.schema_version
            &&& w.proofs[s.proof_id_hash].expires_at == s.expires_at
            &&& w.proofs[s.proof_id_hash].status == ProofStatus::Active
            &&& w.proofs[s.proof_id_hash].created_at == now
            &&& w.proofs[s.proof_id_hash].revoked_at == 0
            &&& forall|other: Hash32| other != s.proof_id_hash ==> #[trigger] w.proofs.dom().contains(
                other,
            ) == v.proofs.dom().contains(other) && (w.proofs.dom().contains(other)
                ==> w.proofs[other] == v.proofs[other])
            &&& w.admin == v.admin
            &&& w.upgrades == v.upgrades
        },
        (auth.authorizes(s.issuer_address) && valid_principal(s.issuer_address) && s.issuer_address
            != v.own_address && s.schema_version >= MIN_SCHEMA_VERSION && s.expires_at > now
            && v.protocol_config is Some && v.issuer_registry is Some && replies.paused == Reply::Answer(
            false,
        ) && replies.schema_approved == Reply::Answer(true) && replies.issuer_active == Reply::Answer(
            true,
        ) && !v.proofs.dom().contains(s.proof_id_hash)) <==> register_proof_spec(
            v,
            auth,
            now,
            s,
            replies,
        ).1 is Done,
{
}

/// Revoking an active proof succeeds at every ledger time, expired or not,
/// when the revoking authority authorizes it (its issuer, or the stored
/// admin for an admin revocation): the proof becomes `Revoked` with
/// `revoked_at == now`, its other fields unchanged. A proof already revoked
/// is refused with `ProofAlreadyRevoked`.
pub proof fn law_revocation_of_active_proofs_succeeds(
    v: ProofRegistryView,
    auth: Authorizations,
    now: u64,
    id: Hash32,
    by_admin: bool,
)
    requires
        v.proofs.dom().contains(id),
        by_admin ==> v.admin is Some && auth.authorizes(v.admin->0),
        !by_admin ==> auth.authorizes(v.proofs[id].issuer_address),
    ensures
        v.proofs[id].status == ProofStatus::Active ==> {
            let (w, r) = set_revoked_spec(v, auth, now, id, by_admin);
            &&& r == Outcome::<(), ProofError>::Done(())
            &&& w.proofs.dom().contains(id)
            &&& w.proofs[id].status == ProofStatus::Revoked
            &&& w.proofs[id].revoked_at == now
            &&& w.proofs[id].proof_id_hash == v.proofs[id].proof_id_hash
            &&& w.proofs[id].commitment_hash == v.proofs[id].commitment_hash
            &&& w.proofs[id].issuer_address == v.proofs[id].issuer_address
            &&& w.proofs[id].schema_version == v.proofs[id].schema_version
            &&& w.proofs[id].expires_at == v.proofs[id].expires_at
            &&& w.proofs[id].created_at == v.proofs[id].created_at
        },
        v.proofs[id].status == ProofStatus::Revoked ==> set_revoked_spec(v, auth, now, id, by_admin)
            == (v, Outcome::<(), ProofError>::Rejected(ProofError::ProofAlreadyRevoked)),
{
}

/// A revocation succeeds exactly when the proof exists and is active and
/// its revoking authority has authorized it: the issuer for a revocation by
/// the issuer, the stored admin for an admin revocation. Ledger time plays
/// no part.
pub proof fn law_revocation_succeeds_exactly_when_authorized(
    v: ProofRegistryView,
    auth: Authorizations,
    now: u64,
    id: Hash32,
    by_admin: bool,
)
    ensures
        set_revoked_spec(v, auth, now, id, by_admin).1 is Done <==> (v.proofs.dom().contains(id)
            && v.proofs[id].status == ProofStatus::Active && (if by_admin {
            v.admin matches Some(a) && auth.authorizes(a)
        } else {
            auth.authorizes(v.proofs[id].issuer_address)
        })),
{
}

} // verus!
