//! Laws of the issuer registry.
use crate::invocation::{Authorizations, Outcome};
use crate::issuer_registry::{
    apply_issuer_writes, initialize_writes, lookup, record_writes, register_decision,
    register_writes, rotate_decision, rotate_writes, status_decision, update_decision,
    active_address, active_issuer, initialize_spec, issuer_by_address, register_issuer_spec,
    rotate_issuer_address_spec, set_status_spec, update_issuer_spec, with_upgrades,
    IssuerRegistryView,
};
use crate::primitives::{Address, Hash32};
use crate::shared::{valid_principal, IssuerRecord, IssuerStatus};
use crate::upgrade::{approve_upgrade_spec, revoke_upgrade_spec, upgrade_contract_spec, UpgradeView};
use vstd::prelude::*;

verus! {

/// Issuer records and the reverse index agree: each record is stored under
/// its own id and indexed by its address, and each indexed address leads to
/// a record that carries it.
pub open spec fn index_consistent(v: IssuerRegistryView) -> bool {
    &&& forall|id: Hash32| #[trigger]
        v.issuers.dom().contains(id) ==> {
            &&& v.issuers[id].issuer_id_hash == id
            &&& v.address_index.dom().contains(v.issuers[id].issuer_address)
            &&& v.address_index[v.issuers[id].issuer_address] == id
        }
    &&& forall|a: Address| #[trigger]
        v.address_index.dom().contains(a) ==> {
            &&& v.issuers.dom().contains(v.address_index[a])
            &&& v.issuers[v.address_index[a]].issuer_address == a
        }
}

/// The state after an operation of the registry, any of them, on `v`.
pub open spec fn after_any_operation(
    v: IssuerRegistryView,
    op: IssuerOperation,
    auth: Authorizations,
    now: u64,
) -> IssuerRegistryView {
    match op {
        IssuerOperation::Initialize { admin } => initialize_spec(v, auth, admin).0,
        IssuerOperation::Register { id, address, metadata } => register_issuer_spec(
            v,
            auth,
            now,
            id,
            address,
            metadata,
        ).0,
        IssuerOperation::Update { id, metadata } => update_issuer_spec(v, auth, now, id, metadata).0,
        IssuerOperation::SetStatus { id, status } => set_status_spec(v, auth, now, id, status).0,
        IssuerOperation::Rotate { id, new_address } => rotate_issuer_address_spec(
            v,
            auth,
            now,
            id,
            new_address,
        ).0,
        IssuerOperation::ApproveUpgrade { wasm_hash, new_version } => with_upgrades(
            v,
            approve_upgrade_spec(v.upgrades, v.admin, auth, wasm_hash, new_version).0,
        ),
        IssuerOperation::RevokeUpgrade { wasm_hash } => with_upgrades(
            v,
            revoke_upgrade_spec(v.upgrades, v.admin, auth, wasm_hash).0,
        ),
        IssuerOperation::UpgradeContract { wasm_hash } => with_upgrades(
            v,
            upgrade_contract_spec(v.upgrades, v.admin, auth, wasm_hash).0,
        ),
    }
}

/// The mutating operations of the issuer registry with their arguments.
pub enum IssuerOperation {
    Initialize { admin: Address },
    Register { id: Hash32, address: Address, metadata: Hash32 },
    Update { id: Hash32, metadata: Hash32 },
    SetStatus { id: Hash32, status: IssuerStatus },
    Rotate { id: Hash32, new_address: Address },
    ApproveUpgrade { wasm_hash: Hash32, new_version: u32 },
    RevokeUpgrade { wasm_hash: Hash32 },
    UpgradeContract { wasm_hash: Hash32 },
}

/// A freshly deployed registry is consistent.
pub proof fn law_fresh_registry_is_consistent(u: UpgradeView)
    ensures
        index_consistent(
            IssuerRegistryView {
                admin: None,
                issuers: Map::empty(),
                address_index: Map::empty(),
                upgrades: u,
            },
        ),
{
}

/// Every operation keeps issuer records and the reverse index consistent.
pub proof fn law_operations_keep_index_consistent(
    v: IssuerRegistryView,
    op: IssuerOperation,
    auth: Authorizations,
    now: u64,
)
    requires
        index_consistent(v),
    ensures
        index_consistent(after_any_operation(v, op, auth, now)),
{
    let w = after_any_operation(v, op, auth, now);
    match op {
        IssuerOperation::Register { id, address, metadata } => {
            if register_issuer_spec(v, auth, now, id, address, metadata).1 is Done {
                assert forall|a: Address| #[trigger] w.address_index.dom().contains(a) implies {
                    &&& w.issuers.dom().contains(w.address_index[a])
                    &&& w.issuers[w.address_index[a]].issuer_address == a
                } by {
                    if a != address {
                        assert(v.address_index.dom().contains(a));
                        assert(v.address_index[a] != id);
                    }
                }
            }
        },
        IssuerOperation::Update { id, metadata } => {
            if update_issuer_spec(v, auth, now, id, metadata).1 is Done {
                assert forall|a: Address| #[trigger] w.address_index.dom().contains(a) implies {
                    &&& w.issuers.dom().contains(w.address_index[a])
                    &&& w.issuers[w.address_index[a]].issuer_address == a
                } by {
                    assert(v.address_index.dom().contains(a));
                }
            }
        },
        IssuerOperation::SetStatus { id, status } => {
            if set_status_spec(v, auth, now, id, status).1 is Done {
                assert forall|a: Address| #[trigger] w.address_index.dom().contains(a) implies {
                    &&& w.issuers.dom().contains(w.address_index[a])
                    &&& w.issuers[w.address_index[a]].issuer_address == a
                } by {
                    assert(v.address_index.dom().contains(a));
                }
            }
        },
        IssuerOperation::Rotate { id, new_address } => {
            if rotate_issuer_address_spec(v, auth, now, id, new_address).1 is Done {
                let old_address = v.issuers[id].issuer_address;
                assert forall|i: Hash32| #[trigger] w.issuers.dom().contains(i) implies {
                    &&& w.issuers[i].issuer_id_hash == i
                    &&& w.address_index.dom().contains(w.issuers[i].issuer_address)
                    &&& w.address_index[w.issuers[i].issuer_address] == i
                } by {
                    if i != id {
                        assert(v.issuers.dom().contains(i));
                        assert(v.issuers[i].issuer_address != old_address);
                        assert(v.issuers[i].issuer_address != new_address);
                    }
                }
                assert forall|a: Address| #[trigger] w.address_index.dom().contains(a) implies {
                    &&& w.issuers.dom().contains(w.address_index[a])
                    &&& w.issuers[w.address_index[a]].issuer_address == a
                } by {
                    if a != new_address {
                        assert(v.address_index.dom().contains(a));
                        assert(a != old_address);
                        assert(v.address_index[a] != id);
                    }
                }
            }
        },
        _ => {},
    }
}

/// Issuer records are never removed, and a revoked issuer stays revoked
/// whatever operation follows.
pub proof fn law_revocation_is_terminal(
    v: IssuerRegistryView,
    op: IssuerOperation,
    auth: Authorizations,
    now: u64,
    id: Hash32,
)
    requires
        v.issuers.dom().contains(id),
        v.issuers[id].status == IssuerStatus::Revoked,
    ensures
        after_any_operation(v, op, auth, now).issuers.dom().contains(id),
        after_any_operation(v, op, auth, now).issuers[id].status == IssuerStatus::Revoked,
        after_any_operation(v, op, auth, now).issuers[id].issuer_address == v.issuers[id].issuer_address,
        !active_issuer(after_any_operation(v, op, auth, now), id),
{
}

/// The state after the operations `ops`, each with its authorizations and
/// ledger time, applied in order to `v`.
pub open spec fn after_operations(
    v: IssuerRegistryView,
    ops: Seq<(IssuerOperation, Authorizations, u64)>,
) -> IssuerRegistryView
    decreases ops.len(),
{
    if ops.len() == 0 {
        v
    } else {
        after_any_operation(
            after_operations(v, ops.drop_last()),
            ops.last().0,
            ops.last().1,
            ops.last().2,
        )
    }
}

/// Revocation is terminal over any sequence of operations: a revoked
/// issuer stays registered, revoked and at the same address, and neither
/// its id nor its address ever answers as active again.
pub proof fn law_revoked_issuer_stays_inactive(
    v: IssuerRegistryView,
    ops: Seq<(IssuerOperation, Authorizations, u64)>,
    id: Hash32,
)
    requires
        index_consistent(v),
        v.issuers.dom().contains(id),
        v.issuers[id].status == IssuerStatus::Revoked,
    ensures
        ({
            let w = after_operations(v, ops);
            &&& index_consistent(w)
            &&& w.issuers.dom().contains(id)
            &&& w.issuers[id].status == IssuerStatus::Revoked
            &&& w.issuers[id].issuer_address == v.issuers[id].issuer_address
            &&& !active_issuer(w, id)
            &&& !active_address(w, v.issuers[id].issuer_address)
        }),
    decreases ops.len(),
{
    if ops.len() > 0 {
        law_revoked_issuer_stays_inactive(v, ops.drop_last(), id);
        let u = after_operations(v, ops.drop_last());
        law_revocation_is_terminal(u, ops.last().0, ops.last().1, ops.last().2, id);
        law_operations_keep_index_consistent(u, ops.last().0, ops.last().1, ops.last().2);
    }
    let w = after_operations(v, ops);
    let a = v.issuers[id].issuer_address;
    assert(w.issuers.dom().contains(id));
    assert(w.address_index.dom().contains(a) && w.address_index[a] == id);
}

/// The contents of a freshly deployed, uninitialized registry.
pub open spec fn fresh_registry() -> IssuerRegistryView {
    IssuerRegistryView {
        admin: None,
        issuers: Map::empty(),
        address_index: Map::empty(),
        upgrades: UpgradeView { version: None, allowed: Map::empty() },
    }
}

/// Every state that a freshly deployed registry reaches, by any sequence of
/// operations, keeps issuer records and the reverse index consistent.
pub proof fn law_reachable_registries_are_consistent(ops: Seq<(IssuerOperation, Authorizations, u64)>)
    ensures
        index_consistent(after_operations(fresh_registry(), ops)),
    decreases ops.len(),
{
    if ops.len() > 0 {
        law_reachable_registries_are_consistent(ops.drop_last());
        law_operations_keep_index_consistent(
            after_operations(fresh_registry(), ops.drop_last()),
            ops.last().0,
            ops.last().1,
            ops.last().2,
        );
    }
}

/// Revocation is terminal in every state a deployed registry reaches: once
/// the operations `before` have left issuer `id` revoked, whatever operations
/// `after` follow, it stays registered, revoked and at the same address, and
/// neither its id nor its address answers as active again.
pub proof fn law_revoked_issuer_never_reactivates(
    before: Seq<(IssuerOperation, Authorizations, u64)>,
    after: Seq<(IssuerOperation, Authorizations, u64)>,
    id: Hash32,
)
    requires
        after_operations(fresh_registry(), before).issuers.dom().contains(id),
        after_operations(fresh_registry(), before).issuers[id].status == IssuerStatus::Revoked,
    ensures
        ({
            let v = after_operations(fresh_registry(), before);
            let w = after_operations(v, after);
            &&& w.issuers.dom().contains(id)
            &&& w.issuers[id].status == IssuerStatus::Revoked
            &&& w.issuers[id].issuer_address == v.issuers[id].issuer_address
            &&& !active_issuer(w, id)
            &&& !active_address(w, v.issuers[id].issuer_address)
        }),
{
    law_reachable_registries_are_consistent(before);
    law_revoked_issuer_stays_inactive(after_operations(fresh_registry(), before), after, id);
}

/// A revoked issuer can be neither reactivated, suspended, updated nor
/// moved to another address: each attempt by the admin is refused, and
/// nothing changes.
pub proof fn law_revoked_issuer_refuses_changes(
    v: IssuerRegistryView,
    auth: Authorizations,
    now: u64,
    id: Hash32,
    metadata: Hash32,
    new_address: Address,
)
    requires
        v.admin is Some,
        auth.authorizes(v.admin->0),
        v.issuers.dom().contains(id),
        v.issuers[id].status == IssuerStatus::Revoked,
    ensures
        set_status_spec(v, auth, now, id, IssuerStatus::Active) == (
            v,
            Outcome::<IssuerRecord, _>::Rejected(crate::shared::IssuerError::InvalidTransition),
        ),
        set_status_spec(v, auth, now, id, IssuerStatus::Suspended) == (
            v,
            Outcome::<IssuerRecord, _>::Rejected(crate::shared::IssuerError::InvalidTransition),
        ),
        update_issuer_spec(v, auth, now, id, metadata).0 == v,
        update_issuer_spec(v, auth, now, id, metadata).1 == Outcome::<
            crate::issuer_registry::IssuerMetadataUpdated,
            _,
        >::Rejected(crate::shared::IssuerError::IssuerRevoked),
        rotate_issuer_address_spec(v, auth, now, id, new_address).0 == v,
        !(rotate_issuer_address_spec(v, auth, now, id, new_address).1 is Done),
{
}

/// Without the admin's authorization no operation other than
/// initialization changes the registry, and the attempt is aborted unless
/// it was refused before the authorization check.
pub proof fn law_only_admin_mutates(
    v: IssuerRegistryView,
    op: IssuerOperation,
    auth: Authorizations,
    now: u64,
)
    requires
        v.admin is Some,
        !auth.authorizes(v.admin->0),
        !(op is Initialize),
    ensures
        after_any_operation(v, op, auth, now) == v,
{
}

/// What registration writes is what reading gives back: the new issuer is
/// active under its id and through its address.
pub proof fn law_register_then_read(
    v: IssuerRegistryView,
    auth: Authorizations,
    now: u64,
    id: Hash32,
    address: Address,
    metadata: Hash32,
)
    requires
        register_issuer_spec(v, auth, now, id, address, metadata).1 is Done,
    ensures
        ({
            let w = register_issuer_spec(v, auth, now, id, address, metadata).0;
            &&& w.issuers[id] == IssuerRecord {
                issuer_id_hash: id,
                issuer_address: address,
                metadata_hash: metadata,
                status: IssuerStatus::Active,
                created_at: now,
                updated_at: now,
            }
            &&& active_issuer(w, id)
            &&& active_address(w, address)
            &&& issuer_by_address(w, address) == Ok::<IssuerRecord, crate::shared::IssuerError>(
                w.issuers[id],
            )
        }),
{
}

/// Status changes decide activity: after a suspension or a revocation the
/// issuer is inactive, after a reactivation it is active, and an address
/// answers as its issuer does.
pub proof fn law_status_decides_activity(
    v: IssuerRegistryView,
    auth: Authorizations,
    now: u64,
    id: Hash32,
    status: IssuerStatus,
)
    requires
        index_consistent(v),
        set_status_spec(v, auth, now, id, status).1 is Done,
    ensures
        active_issuer(set_status_spec(v, auth, now, id, status).0, id) == (status
            == IssuerStatus::Active),
        active_address(set_status_spec(v, auth, now, id, status).0, v.issuers[id].issuer_address) == (
        status == IssuerStatus::Active),
{
}

/// After a rotation the old address no longer leads to the issuer and the
/// new one does; the issuer's status is unchanged.
pub proof fn law_rotation_moves_the_index(
    v: IssuerRegistryView,
    auth: Authorizations,
    now: u64,
    id: Hash32,
    new_address: Address,
)
    requires
        rotate_issuer_address_spec(v, auth, now, id, new_address).1 is Done,
    ensures
        ({
            let w = rotate_issuer_address_spec(v, auth, now, id, new_address).0;
            &&& !w.address_index.dom().contains(v.issuers[id].issuer_address)
            &&& w.address_index.dom().contains(new_address)
            &&& w.address_index[new_address] == id
            &&& w.issuers[id].issuer_address == new_address
            &&& w.issuers[id].status == v.issuers[id].status
            &&& !active_address(w, v.issuers[id].issuer_address)
        }),
{
}

/// A refused or aborted operation leaves the registry as it was.
pub proof fn law_failed_operations_change_nothing(
    v: IssuerRegistryView,
    auth: Authorizations,
    now: u64,
    id: Hash32,
    address: Address,
    metadata: Hash32,
    status: IssuerStatus,
)
    ensures
        !(register_issuer_spec(v, auth, now, id, address, metadata).1 is Done) ==> register_issuer_spec(
            v,
            auth,
            now,
            id,
            address,
            metadata,
        ).0 == v,
        !(update_issuer_spec(v, auth, now, id, metadata).1 is Done) ==> update_issuer_spec(
            v,
            auth,
            now,
            id,
            metadata,
        ).0 == v,
        !(set_status_spec(v, auth, now, id, status).1 is Done) ==> set_status_spec(
            v,
            auth,
            now,
            id,
            status,
        ).0 == v,
        !(rotate_issuer_address_spec(v, auth, now, id, address).1 is Done) ==> rotate_issuer_address_spec(
            v,
            auth,
            now,
            id,
            address,
        ).0 == v,
        !(initialize_spec(v, auth, address).1 is Done) ==> initialize_spec(v, auth, address).0 == v,
{
}

/// In a consistent registry, looking an issuer up by address agrees with the
/// records: an address is active exactly when some active issuer's record
/// carries it, and the record found through the index is that issuer's.
pub proof fn law_address_lookup_agrees_with_records(v: IssuerRegistryView, a: Address)
    requires
        index_consistent(v),
    ensures
        active_address(v, a) <==> exists|id: Hash32|
            #![trigger v.issuers[id]]
            v.issuers.dom().contains(id) && v.issuers[id].issuer_address == a
                && v.issuers[id].status == IssuerStatus::Active,
        forall|id: Hash32|
            #![trigger v.issuers[id]]
            v.issuers.dom().contains(id) && v.issuers[id].issuer_address == a ==> issuer_by_address(
                v,
                a,
            ) == Ok::<IssuerRecord, crate::shared::IssuerError>(v.issuers[id]),
{
    if active_address(v, a) {
        let id = v.address_index[a];
        assert(v.issuers.dom().contains(id) && v.issuers[id].issuer_address == a);
    }
    assert forall|id: Hash32|
        #![trigger v.issuers[id]]
        v.issuers.dom().contains(id) && v.issuers[id].issuer_address == a implies v.address_index.dom().contains(a)
            && v.address_index[a] == id by {}
}

/// Upgrade governance leaves the issuer records, the reverse index and the
/// admin as they were.
pub proof fn law_upgrades_preserve_issuer_state(
    v: IssuerRegistryView,
    op: IssuerOperation,
    auth: Authorizations,
    now: u64,
)
    requires
        op is ApproveUpgrade || op is RevokeUpgrade || op is UpgradeContract,
    ensures
        after_any_operation(v, op, auth, now).issuers == v.issuers,
        after_any_operation(v, op, auth, now).address_index == v.address_index,
        after_any_operation(v, op, auth, now).admin == v.admin,
{
}

/// Initialization happens once: on an initialized registry it is refused
/// with `AlreadyInitialized` and the admin stays.
pub proof fn law_initialization_is_one_way(v: IssuerRegistryView, auth: Authorizations, admin: Address)
    requires
        v.admin is Some,
    ensures
        initialize_spec(v, auth, admin) == (
            v,
            Outcome::<(), crate::shared::ContractError>::Rejected(
                crate::shared::ContractError::AlreadyInitialized,
            ),
        ),
{
}

/// The write plans perform the transitions: when an operation succeeds,
/// performing the writes planned from its decision on the stored state gives
/// the state its transition states.
pub proof fn law_plans_perform_the_transitions(
    v: IssuerRegistryView,
    auth: Authorizations,
    now: u64,
    id: Hash32,
    address: Address,
    metadata: Hash32,
    status: IssuerStatus,
)
    ensures
        initialize_spec(v, auth, address).1 is Done ==> apply_issuer_writes(v, initialize_writes(address))
            == initialize_spec(v, auth, address).0,
        register_decision(
            v.admin,
            v.issuers.dom().contains(id),
            v.address_index.dom().contains(address),
            now,
            id,
            address,
            metadata,
        ).verdict matches Ok(record) ==> (register_issuer_spec(v, auth, now, id, address, metadata).1 is Done
            ==> apply_issuer_writes(v, register_writes(id, address, record))
            == register_issuer_spec(v, auth, now, id, address, metadata).0),
        update_decision(v.admin, lookup(v.issuers, id), now, metadata).verdict matches Ok(record) ==> (
        update_issuer_spec(v, auth, now, id, metadata).1 is Done ==> apply_issuer_writes(v, record_writes(id, record))
            == update_issuer_spec(v, auth, now, id, metadata).0),
        status_decision(v.admin, lookup(v.issuers, id), now, status).verdict matches Ok(record) ==> (
        set_status_spec(v, auth, now, id, status).1 is Done ==> apply_issuer_writes(v, record_writes(id, record))
            == set_status_spec(v, auth, now, id, status).0),
        rotate_decision(
            v.admin,
            lookup(v.issuers, id),
            v.address_index.dom().contains(address),
            now,
            address,
        ).verdict matches Ok(record) ==> (rotate_issuer_address_spec(v, auth, now, id, address).1 is Done
            ==> apply_issuer_writes(v, rotate_writes(id, v.issuers[id].issuer_address, address, record))
            == rotate_issuer_address_spec(v, auth, now, id, address).0),
{
    reveal_with_fuel(apply_issuer_writes, 4);
    assert(initialize_writes(address).drop_last().drop_last() =~= Seq::empty());
    assert(initialize_writes(address).drop_last() =~= seq![initialize_writes(address)[0]]);
    if initialize_spec(v, auth, address).1 is Done {
        assert(apply_issuer_writes(v, initialize_writes(address)) =~= initialize_spec(v, auth, address).0);
    }
    assert forall|record: IssuerRecord| #[trigger] register_writes(id, address, record).drop_last()
        =~= seq![register_writes(id, address, record)[0]] by {}
    assert forall|record: IssuerRecord| #[trigger] record_writes(id, record).drop_last()
        =~= Seq::<crate::issuer_registry::IssuerWrite>::empty() by {}
    assert forall|record: IssuerRecord, old_a: Address| #[trigger] rotate_writes(id, old_a, address, record).drop_last()
        =~= seq![rotate_writes(id, old_a, address, record)[0], rotate_writes(id, old_a, address, record)[1]] by {}
    assert forall|record: IssuerRecord, old_a: Address| #[trigger] rotate_writes(id, old_a, address, record).drop_last().drop_last()
        =~= seq![rotate_writes(id, old_a, address, record)[0]] by {}
    assert forall|s: Seq<crate::issuer_registry::IssuerWrite>| s.len() == 1 implies #[trigger] s.drop_last()
        =~= Seq::<crate::issuer_registry::IssuerWrite>::empty() by {}
}

/// Updating an issuer replaces its metadata hash and nothing else but its
/// update time: on success the stored record carries the submitted metadata
/// hash and `updated_at == now`, with id, address, status and creation time
/// as before. The admin's authorized update of a registered issuer that is
/// not revoked always succeeds.
pub proof fn law_update_replaces_metadata(
    v: IssuerRegistryView,
    auth: Authorizations,
    now: u64,
    id: Hash32,
    metadata: Hash32,
)
    ensures
        update_issuer_spec(v, auth, now, id, metadata).1 is Done ==> {
            let w = update_issuer_spec(v, auth, now, id, metadata).0;
            &&& v.issuers.dom().contains(id)
            &&& w.issuers.dom().contains(id)
            &&& w.issuers[id].metadata_hash == metadata
            &&& w.issuers[id].updated_at == now
            &&& w.issuers[id].issuer_id_hash == v.issuers[id].issuer_id_hash
            &&& w.issuers[id].issuer_address == v.issuers[id].issuer_address
            &&& w.issuers[id].status == v.issuers[id].status
            &&& w.issuers[id].created_at == v.issuers[id].created_at
            &&& forall|other: Hash32| other != id ==> #[trigger] w.issuers.dom().contains(other)
                == v.issuers.dom().contains(other) && (w.issuers.dom().contains(other)
                ==> w.issuers[other] == v.issuers[other])
            &&& w.address_index == v.address_index
            &&& w.admin == v.admin
        },
        (v.admin matches Some(a) && auth.authorizes(a) && v.issuers.dom().contains(id)
            && v.issuers[id].status != IssuerStatus::Revoked) ==> update_issuer_spec(
            v,
            auth,
            now,
            id,
            metadata,
        ).1 is Done,
{
}

/// The status lifecycle: only leaving `Revoked` is refused. The admin's
/// authorized move of a registered issuer to `status` succeeds whenever the
/// issuer is not revoked (or the move is to `Revoked`), and on success the
/// stored record has exactly that status and `updated_at == now`, its other
/// fields unchanged. In particular revoking an active or suspended issuer
/// succeeds and leaves it revoked.
pub proof fn law_status_changes_refuse_only_leaving_revoked(
    v: IssuerRegistryView,
    auth: Authorizations,
    now: u64,
    id: Hash32,
    status: IssuerStatus,
)
    ensures
        (v.admin matches Some(a) && auth.authorizes(a) && v.issuers.dom().contains(id) && (
        v.issuers[id].status != IssuerStatus::Revoked || status == IssuerStatus::Revoked))
            ==> set_status_spec(v, auth, now, id, status).1 is Done,
        (v.issuers.dom().contains(id) && v.issuers[id].status == IssuerStatus::Revoked && status
            != IssuerStatus::Revoked) ==> !(set_status_spec(v, auth, now, id, status).1 is Done),
        set_status_spec(v, auth, now, id, status).1 is Done ==> {
            let w = set_status_spec(v, auth, now, id, status).0;
            &&& v.issuers.dom().contains(id)
            &&& w.issuers.dom().contains(id)
            &&& w.issuers[id].status == status
            &&& w.issuers[id].updated_at == now
            &&& w.issuers[id].issuer_id_hash == v.issuers[id].issuer_id_hash
            &&& w.issuers[id].issuer_address == v.issuers[id].issuer_address
            &&& w.issuers[id].metadata_hash == v.issuers[id].metadata_hash
            &&& w.issuers[id].created_at == v.issuers[id].created_at
            &&& w.address_index == v.address_index
        },
{
}

/// Rotation moves a registered, non-revoked issuer (active or suspended) to
/// any valid, unindexed address other than its own, when the admin
/// authorizes: the record then carries the new address and `updated_at ==
/// now` with status, metadata and creation time unchanged, and the reverse
/// index drops the old address and maps the new one to the issuer.
pub proof fn law_rotation_moves_any_unrevoked_issuer(
    v: IssuerRegistryView,
    auth: Authorizations,
    now: u64,
    id: Hash32,
    new_address: Address,
)
    requires
        v.admin is Some,
        auth.authorizes(v.admin->0),
        v.issuers.dom().contains(id),
        v.issuers[id].status != IssuerStatus::Revoked,
        valid_principal(new_address),
        new_address != v.issuers[id].issuer_address,
        !v.address_index.dom().contains(new_address),
    ensures
        ({
            let (w, r) = rotate_issuer_address_spec(v, auth, now, id, new_address);
            &&& r is Done
            &&& w.issuers.dom().contains(id)
            &&& w.issuers[id].issuer_address == new_address
            &&& w.issuers[id].updated_at == now
            &&& w.issuers[id].status == v.issuers[id].status
            &&& w.issuers[id].metadata_hash == v.issuers[id].metadata_hash
            &&& w.issuers[id].issuer_id_hash == v.issuers[id].issuer_id_hash
            &&& w.issuers[id].created_at == v.issuers[id].created_at
            &&& w.address_index.dom().contains(new_address)
            &&& w.address_index[new_address] == id
            &&& !w.address_index.dom().contains(v.issuers[id].issuer_address)
        }),
{
}

/// Registration succeeds exactly when the admin authorizes it, the address
/// is a valid principal, and neither the id nor the address is registered.
pub proof fn law_registration_succeeds_exactly_when_free(
    v: IssuerRegistryView,
    auth: Authorizations,
    now: u64,
    id: Hash32,
    address: Address,
    metadata: Hash32,
)
    ensures
        register_issuer_spec(v, auth, now, id, address, metadata).1 is Done <==> (v.admin matches Some(
            a,
        ) && auth.authorizes(a) && valid_principal(address) && !v.issuers.dom().contains(id)
            && !v.address_index.dom().contains(address)),
{
}

/// When changes to a registered issuer succeed, and only then: each needs
/// the admin's authorization and a registered issuer; an update needs the
/// issuer not revoked; a status change is refused only when it would leave
/// `Revoked`; a rotation needs the issuer not revoked and a valid new
/// address that differs from its own and is not indexed.
pub proof fn law_issuer_changes_succeed_exactly_when_allowed(
    v: IssuerRegistryView,
    auth: Authorizations,
    now: u64,
    id: Hash32,
    metadata: Hash32,
    status: IssuerStatus,
    new_address: Address,
)
    ensures
        update_issuer_spec(v, auth, now, id, metadata).1 is Done <==> (v.admin matches Some(a)
            && auth.authorizes(a) && v.issuers.dom().contains(id) && v.issuers[id].status
            != IssuerStatus::Revoked),
        set_status_spec(v, auth, now, id, status).1 is Done <==> (v.admin matches Some(a)
            && auth.authorizes(a) && v.issuers.dom().contains(id) && (v.issuers[id].status
            != IssuerStatus::Revoked || status == IssuerStatus::Revoked)),
        rotate_issuer_address_spec(v, auth, now, id, new_address).1 is Done <==> (v.admin matches Some(
            a,
        ) && auth.authorizes(a) && v.issuers.dom().contains(id) && v.issuers[id].status
            != IssuerStatus::Revoked && valid_principal(new_address) && new_address
            != v.issuers[id].issuer_address && !v.address_index.dom().contains(new_address)),
{
}

} // verus!
