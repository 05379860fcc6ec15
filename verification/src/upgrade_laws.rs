//! Laws of upgrade governance.
use crate::invocation::Authorizations;
use crate::primitives::{Address, Hash32};
use crate::upgrade::{
    apply_upgrade_writes, approve_upgrade_spec, approve_writes, reported_version,
    revoke_upgrade_spec, revoke_writes, upgrade_contract_spec, upgrade_writes, UpgradeView,
};
use crate::invocation::Outcome;
use vstd::prelude::*;

verus! {

/// The contract version never decreases: approving and revoking leave it as
/// it is, and an applied upgrade raises it strictly.
pub proof fn law_version_is_monotonic(
    v: UpgradeView,
    admin: Option<Address>,
    auth: Authorizations,
    wasm_hash: Hash32,
    new_version: u32,
)
    ensures
        reported_version(approve_upgrade_spec(v, admin, auth, wasm_hash, new_version).0)
            == reported_version(v),
        reported_version(revoke_upgrade_spec(v, admin, auth, wasm_hash).0) == reported_version(v),
        reported_version(upgrade_contract_spec(v, admin, auth, wasm_hash).0) >= reported_version(v),
        upgrade_contract_spec(v, admin, auth, wasm_hash).1 is Done ==> reported_version(
            upgrade_contract_spec(v, admin, auth, wasm_hash).0,
        ) > reported_version(v),
{
}

/// An applied upgrade consumes its allowlist entry: the same code hash
/// cannot be applied a second time, whoever authorizes it.
pub proof fn law_upgrade_cannot_be_replayed(
    v: UpgradeView,
    admin: Option<Address>,
    auth: Authorizations,
    again: Authorizations,
    wasm_hash: Hash32,
)
    requires
        upgrade_contract_spec(v, admin, auth, wasm_hash).1 is Done,
    ensures
        !upgrade_contract_spec(v, admin, auth, wasm_hash).0.allowed.dom().contains(wasm_hash),
        !(upgrade_contract_spec(upgrade_contract_spec(v, admin, auth, wasm_hash).0, admin, again, wasm_hash).1 is Done),
{
}

/// After an upgrade to version `n`, no code hash can be approved for a
/// version at or below `n`.
pub proof fn law_no_approval_at_or_below_current(
    v: UpgradeView,
    admin: Option<Address>,
    auth: Authorizations,
    wasm_hash: Hash32,
    new_version: u32,
)
    requires
        new_version <= reported_version(v),
    ensures
        !(approve_upgrade_spec(v, admin, auth, wasm_hash, new_version).1 is Done),
        approve_upgrade_spec(v, admin, auth, wasm_hash, new_version).0 == v,
{
}

/// An approved code hash is on the allowlist with its target version; a
/// revoked one is not.
pub proof fn law_allowlist_reflects_last_edit(
    v: UpgradeView,
    admin: Option<Address>,
    auth: Authorizations,
    wasm_hash: Hash32,
    new_version: u32,
)
    ensures
        approve_upgrade_spec(v, admin, auth, wasm_hash, new_version).1 is Done ==> {
            let after = approve_upgrade_spec(v, admin, auth, wasm_hash, new_version).0;
            after.allowed.dom().contains(wasm_hash) && after.allowed[wasm_hash] == new_version
        },
        revoke_upgrade_spec(v, admin, auth, wasm_hash).1 is Done ==> !revoke_upgrade_spec(
            v,
            admin,
            auth,
            wasm_hash,
        ).0.allowed.dom().contains(wasm_hash),
{
}

/// Without the admin's authorization no governance operation changes anything.
pub proof fn law_only_admin_governs(
    v: UpgradeView,
    admin: Address,
    auth: Authorizations,
    wasm_hash: Hash32,
    new_version: u32,
)
    requires
        !auth.authorizes(admin),
    ensures
        approve_upgrade_spec(v, Some(admin), auth, wasm_hash, new_version).0 == v,
        revoke_upgrade_spec(v, Some(admin), auth, wasm_hash).0 == v,
        upgrade_contract_spec(v, Some(admin), auth, wasm_hash).0 == v,
        approve_upgrade_spec(v, Some(admin), auth, wasm_hash, new_version).1 is Aborted,
        revoke_upgrade_spec(v, Some(admin), auth, wasm_hash).1 is Aborted,
        upgrade_contract_spec(v, Some(admin), auth, wasm_hash).1 is Aborted,
{
}

/// The write plans perform the transitions: when an operation succeeds,
/// performing its writes on the stored state gives the state its transition
/// states.
pub proof fn law_plans_perform_the_transitions(
    v: UpgradeView,
    admin: Option<Address>,
    auth: Authorizations,
    wasm_hash: Hash32,
    new_version: u32,
)
    ensures
        approve_upgrade_spec(v, admin, auth, wasm_hash, new_version).1 is Done ==> apply_upgrade_writes(
            v,
            approve_writes(wasm_hash, new_version),
        ) == approve_upgrade_spec(v, admin, auth, wasm_hash, new_version).0,
        revoke_upgrade_spec(v, admin, auth, wasm_hash).1 is Done ==> apply_upgrade_writes(
            v,
            revoke_writes(wasm_hash),
        ) == revoke_upgrade_spec(v, admin, auth, wasm_hash).0,
        upgrade_contract_spec(v, admin, auth, wasm_hash).1 matches Outcome::Done(event)
            ==> apply_upgrade_writes(v, upgrade_writes(wasm_hash, event.new_contract_version))
            == upgrade_contract_spec(v, admin, auth, wasm_hash).0,
{
    reveal_with_fuel(apply_upgrade_writes, 3);
    assert(approve_writes(wasm_hash, new_version).drop_last() =~= Seq::empty());
    assert(revoke_writes(wasm_hash).drop_last() =~= Seq::empty());
    if upgrade_contract_spec(v, admin, auth, wasm_hash).1 is Done {
        let n = v.allowed[wasm_hash];
        assert(upgrade_writes(wasm_hash, n).drop_last().drop_last() =~= Seq::empty());
        assert(upgrade_writes(wasm_hash, n).drop_last() =~= seq![crate::upgrade::UpgradeWrite::Disallow { wasm_hash }]);
        assert(apply_upgrade_writes(v, upgrade_writes(wasm_hash, n)) =~= upgrade_contract_spec(v, admin, auth, wasm_hash).0);
    }
}

} // verus!
