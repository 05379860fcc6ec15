//! Upgrade governance shared by the registries: an admin-managed allowlist of
//! code hashes, each approved for a target contract version, and the
//! monotonically increasing contract version.
use crate::invocation::{settle, settled, Authorizations, Decision, Outcome};
use crate::primitives::{Address, Hash32};
use crate::shared::MIN_CONTRACT_VERSION;
use crate::table::Table;
use vstd::prelude::*;

verus! {

/// Published when the admin adds a code hash to the upgrade allowlist.
#[derive(Clone, Copy, Debug, PartialEq, Eq)]
pub struct UpgradeAllowlisted {
    pub wasm_hash: Hash32,
    pub new_contract_version: u32,
    pub approved_by: Address,
}

/// Published when the admin removes a code hash from the allowlist.
#[derive(Clone, Copy, Debug, PartialEq, Eq)]
pub struct UpgradeRevoked {
    pub wasm_hash: Hash32,
    pub revoked_by: Address,
}

/// Published when an upgrade is applied.
#[derive(Clone, Copy, Debug, PartialEq, Eq)]
pub struct ContractUpgraded {
    pub new_wasm_hash: Hash32,
    pub old_contract_version: u32,
    pub new_contract_version: u32,
    pub upgraded_by: Address,
}

/// Why an upgrade operation was refused.
#[derive(Clone, Copy, Debug, PartialEq, Eq, Structural)]
pub enum UpgradeError {
    /// The contract has no admin yet.
    NotInitialized,
    /// The approved version is not above the current contract version.
    VersionNotGreater,
    /// The code hash is not on the allowlist.
    NotAllowlisted,
    /// Applying the upgrade would not advance the contract version.
    VersionNotAdvanced,
}

/// The reason, in words, for each refused upgrade operation.
pub open spec fn upgrade_error_message(e: UpgradeError) -> Seq<char> {
    match e {
        UpgradeError::NotInitialized => "not initialized"@,
        UpgradeError::VersionNotGreater => "new_version must be greater than current contract version"@,
        UpgradeError::NotAllowlisted => "wasm hash not on allowlist"@,
        UpgradeError::VersionNotAdvanced => "upgrade would not advance contract version"@,
    }
}

impl UpgradeError {
    /// The reason in words.
    pub fn message(&self) -> (m: &'static str)
        ensures
            m@ == upgrade_error_message(*self),
    {
        match self {
            UpgradeError::NotInitialized => "not initialized",
            UpgradeError::VersionNotGreater => "new_version must be greater than current contract version",
            UpgradeError::NotAllowlisted => "wasm hash not on allowlist",
            UpgradeError::VersionNotAdvanced => "upgrade would not advance contract version",
        }
    }
}

/// The state of upgrade governance.
pub struct UpgradeView {
    /// The stored contract version; absent before initialization.
    pub version: Option<u32>,
    /// The allowlist: each approved code hash with its target version.
    pub allowed: Map<Hash32, u32>,
}

/// The contract version as reported: the stored one, or 0 when none is stored.
pub open spec fn reported_version(v: UpgradeView) -> u32 {
    match v.version {
        Some(n) => n,
        None => 0,
    }
}

/// A write to upgrade governance's stored state.
#[derive(Clone, Copy, Debug, PartialEq, Eq)]
pub enum UpgradeWrite {
    /// Put `wasm_hash` on the allowlist for `version`.
    Allow { wasm_hash: Hash32, version: u32 },
    /// Take `wasm_hash` off the allowlist.
    Disallow { wasm_hash: Hash32 },
    /// Store `version` as the contract version.
    SetVersion { version: u32 },
}

/// `u` after write `w`.
pub open spec fn apply_upgrade_write(u: UpgradeView, w: UpgradeWrite) -> UpgradeView {
    match w {
        UpgradeWrite::Allow { wasm_hash, version } => UpgradeView {
            allowed: u.allowed.insert(wasm_hash, version),
            ..u
        },
        UpgradeWrite::Disallow { wasm_hash } => UpgradeView {
            allowed: u.allowed.remove(wasm_hash),
            ..u
        },
        UpgradeWrite::SetVersion { version } => UpgradeView { version: Some(version), ..u },
    }
}

/// `u` after the writes `ws`, in order.
pub open spec fn apply_upgrade_writes(u: UpgradeView, ws: Seq<UpgradeWrite>) -> UpgradeView
    decreases ws.len(),
{
    if ws.len() == 0 {
        u
    } else {
        apply_upgrade_write(apply_upgrade_writes(u, ws.drop_last()), ws.last())
    }
}

/// The writes of an approval of `wasm_hash` for `new_version`.
pub open spec fn approve_writes(wasm_hash: Hash32, new_version: u32) -> Seq<UpgradeWrite> {
    seq![UpgradeWrite::Allow { wasm_hash, version: new_version }]
}

/// The writes of removing `wasm_hash` from the allowlist.
pub open spec fn revoke_writes(wasm_hash: Hash32) -> Seq<UpgradeWrite> {
    seq![UpgradeWrite::Disallow { wasm_hash }]
}

/// The writes of applying the upgrade to `wasm_hash` at version `n`: the
/// allowlist entry is consumed and the version advanced.
pub open spec fn upgrade_writes(wasm_hash: Hash32, n: u32) -> Seq<UpgradeWrite> {
    seq![UpgradeWrite::Disallow { wasm_hash }, UpgradeWrite::SetVersion { version: n }]
}

/// The writes of an approval.
pub fn plan_approve(wasm_hash: Hash32, new_version: u32) -> (ws: Vec<UpgradeWrite>)
    ensures
        ws@ == approve_writes(wasm_hash, new_version),
{
    let ws = vec![UpgradeWrite::Allow { wasm_hash, version: new_version }];
    assert(ws@ =~= approve_writes(wasm_hash, new_version));
    ws
}

/// The writes of removing a code hash from the allowlist.
pub fn plan_revoke(wasm_hash: Hash32) -> (ws: Vec<UpgradeWrite>)
    ensures
        ws@ == revoke_writes(wasm_hash),
{
    let ws = vec![UpgradeWrite::Disallow { wasm_hash }];
    assert(ws@ =~= revoke_writes(wasm_hash));
    ws
}

/// The writes of an applied upgrade.
pub fn plan_upgrade(wasm_hash: Hash32, n: u32) -> (ws: Vec<UpgradeWrite>)
    ensures
        ws@ == upgrade_writes(wasm_hash, n),
{
    let ws = vec![UpgradeWrite::Disallow { wasm_hash }, UpgradeWrite::SetVersion { version: n }];
    assert(ws@ =~= upgrade_writes(wasm_hash, n));
    ws
}

/// The decision on approving `wasm_hash` for `new_version`.
pub open spec fn approve_decision(admin: Option<Address>, current: u32, new_version: u32) -> Decision<
    (),
    UpgradeError,
> {
    match admin {
        None => Decision { authorizer: None, verdict: Err(UpgradeError::NotInitialized) },
        Some(a) => Decision {
            authorizer: Some(a),
            verdict: if new_version <= current {
                Err(UpgradeError::VersionNotGreater)
            } else {
                Ok(())
            },
        },
    }
}

/// Approving `wasm_hash` for `new_version`: the state after and the outcome.
pub open spec fn approve_upgrade_spec(
    v: UpgradeView,
    admin: Option<Address>,
    auth: Authorizations,
    wasm_hash: Hash32,
    new_version: u32,
) -> (UpgradeView, Outcome<UpgradeAllowlisted, UpgradeError>) {
    match settled(approve_decision(admin, reported_version(v), new_version), auth) {
        Outcome::Done(_) => (
            UpgradeView { version: v.version, allowed: v.allowed.insert(wasm_hash, new_version) },
            Outcome::Done(
                UpgradeAllowlisted {
                    wasm_hash,
                    new_contract_version: new_version,
                    approved_by: admin->0,
                },
            ),
        ),
        Outcome::Rejected(e) => (v, Outcome::Rejected(e)),
        Outcome::Aborted(r) => (v, Outcome::Aborted(r)),
    }
}

/// The decision on removing a code hash from the allowlist.
pub open spec fn revoke_decision(admin: Option<Address>) -> Decision<(), UpgradeError> {
    match admin {
        None => Decision { authorizer: None, verdict: Err(UpgradeError::NotInitialized) },
        Some(a) => Decision { authorizer: Some(a), verdict: Ok(()) },
    }
}

/// Removing `wasm_hash` from the allowlist: the state after and the outcome.
pub open spec fn revoke_upgrade_spec(
    v: UpgradeView,
    admin: Option<Address>,
    auth: Authorizations,
    wasm_hash: Hash32,
) -> (UpgradeView, Outcome<UpgradeRevoked, UpgradeError>) {
    match settled(revoke_decision(admin), auth) {
        Outcome::Done(_) => (
            UpgradeView { version: v.version, allowed: v.allowed.remove(wasm_hash) },
            Outcome::Done(UpgradeRevoked { wasm_hash, revoked_by: admin->0 }),
        ),
        Outcome::Rejected(e) => (v, Outcome::Rejected(e)),
        Outcome::Aborted(r) => (v, Outcome::Aborted(r)),
    }
}

/// The decision on applying the upgrade to the code whose allowlist entry is
/// `target` (absent when the hash is not on the allowlist).
pub open spec fn upgrade_decision(admin: Option<Address>, target: Option<u32>, current: u32) -> Decision<
    u32,
    UpgradeError,
> {
    match admin {
        None => Decision { authorizer: None, verdict: Err(UpgradeError::NotInitialized) },
        Some(a) => Decision {
            authorizer: Some(a),
            verdict: match target {
                None => Err(UpgradeError::NotAllowlisted),
                Some(n) => if n <= current {
                    Err(UpgradeError::VersionNotAdvanced)
                } else {
                    Ok(n)
                },
            },
        },
    }
}

/// The allowlist entry of `h`, if any.
pub open spec fn allowlist_entry(v: UpgradeView, h: Hash32) -> Option<u32> {
    if v.allowed.dom().contains(h) {
        Some(v.allowed[h])
    } else {
        None
    }
}

/// Applying the upgrade to `wasm_hash`: the state after and the outcome. On
/// success the allowlist entry is consumed and the version advanced to its
/// target.
pub open spec fn upgrade_contract_spec(
    v: UpgradeView,
    admin: Option<Address>,
    auth: Authorizations,
    wasm_hash: Hash32,
) -> (UpgradeView, Outcome<ContractUpgraded, UpgradeError>) {
    match settled(
        upgrade_decision(admin, allowlist_entry(v, wasm_hash), reported_version(v)),
        auth,
    ) {
        Outcome::Done(n) => (
            UpgradeView { version: Some(n), allowed: v.allowed.remove(wasm_hash) },
            Outcome::Done(
                ContractUpgraded {
                    new_wasm_hash: wasm_hash,
                    old_contract_version: reported_version(v),
                    new_contract_version: n,
                    upgraded_by: admin->0,
                },
            ),
        ),
        Outcome::Rejected(e) => (v, Outcome::Rejected(e)),
        Outcome::Aborted(r) => (v, Outcome::Aborted(r)),
    }
}

/// Decides whether `wasm_hash` may be approved for `new_version`.
pub fn decide_approve(admin: Option<Address>, current: u32, new_version: u32) -> (d: Decision<
    (),
    UpgradeError,
>)
    ensures
        d == approve_decision(admin, current, new_version),
{
    match admin {
        None => Decision { authorizer: None, verdict: Err(UpgradeError::NotInitialized) },
        Some(a) => Decision {
            authorizer: Some(a),
            verdict: if new_version <= current {
                Err(UpgradeError::VersionNotGreater)
            } else {
                Ok(())
            },
        },
    }
}

/// Decides whether the allowlist may be edited.
pub fn decide_revoke(admin: Option<Address>) -> (d: Decision<(), UpgradeError>)
    ensures
        d == revoke_decision(admin),
{
    match admin {
        None => Decision { authorizer: None, verdict: Err(UpgradeError::NotInitialized) },
        Some(a) => Decision { authorizer: Some(a), verdict: Ok(()) },
    }
}

/// Decides whether the code with allowlist entry `target` may replace the
/// current code, and to which version.
pub fn decide_upgrade(admin: Option<Address>, target: Option<u32>, current: u32) -> (d: Decision<
    u32,
    UpgradeError,
>)
    ensures
        d == upgrade_decision(admin, target, current),
{
    match admin {
        None => Decision { authorizer: None, verdict: Err(UpgradeError::NotInitialized) },
        Some(a) => Decision {
            authorizer: Some(a),
            verdict: match target {
                None => Err(UpgradeError::NotAllowlisted),
                Some(n) => if n <= current {
                    Err(UpgradeError::VersionNotAdvanced)
                } else {
                    Ok(n)
                },
            },
        },
    }
}

/// The upgrade governance state of one contract.
pub struct UpgradeGovernance {
    version: Option<u32>,
    allowed: Table<Hash32, u32>,
}

impl View for UpgradeGovernance {
    type V = UpgradeView;

    closed spec fn view(&self) -> UpgradeView {
        UpgradeView { version: self.version, allowed: self.allowed@ }
    }
}

impl UpgradeGovernance {
    /// Internal consistency of the allowlist.
    pub closed spec fn wf(&self) -> bool {
        self.allowed.wf()
    }

    /// Governance of a contract that is not initialized: no version, empty allowlist.
    pub fn new() -> (g: Self)
        ensures
            g.wf(),
            g@.version == None::<u32>,
            g@.allowed == Map::<Hash32, u32>::empty(),
    {
        UpgradeGovernance { version: None, allowed: Table::new() }
    }

    /// Performs write `w`.
    pub fn apply(&mut self, w: &UpgradeWrite)
        requires
            old(self).wf(),
        ensures
            final(self).wf(),
            final(self)@ == apply_upgrade_write(old(self)@, *w),
    {
        match w {
            UpgradeWrite::Allow { wasm_hash, version } => self.allowed.insert(*wasm_hash, *version),
            UpgradeWrite::Disallow { wasm_hash } => self.allowed.remove(wasm_hash),
            UpgradeWrite::SetVersion { version } => {
                self.version = Some(*version);
            },
        }
    }

    /// Performs the writes `ws`, in order.
    pub fn apply_all(&mut self, ws: &Vec<UpgradeWrite>)
        requires
            old(self).wf(),
        ensures
            final(self).wf(),
            final(self)@ == apply_upgrade_writes(old(self)@, ws@),
    {
        let ghost start = self@;
        let mut i: usize = 0;
        while i < ws.len()
            invariant
                0 <= i <= ws@.len(),
                self.wf(),
                self@ == apply_upgrade_writes(start, ws@.take(i as int)),
            decreases ws@.len() - i,
        {
            assert(ws@.take(i + 1).drop_last() =~= ws@.take(i as int));
            self.apply(&ws[i]);
            i = i + 1;
        }
        assert(ws@.take(ws@.len() as int) =~= ws@);
    }

    /// The stored contract version, or 0 before initialization.
    pub fn get_contract_version(&self) -> (r: u32)
        ensures
            r == reported_version(self@),
    {
        match self.version {
            Some(n) => n,
            None => 0,
        }
    }

    /// Whether `wasm_hash` is on the allowlist.
    pub fn is_upgrade_allowed(&self, wasm_hash: &Hash32) -> (r: bool)
        requires
            self.wf(),
        ensures
            r == self@.allowed.dom().contains(*wasm_hash),
    {
        self.allowed.contains_key(wasm_hash)
    }

    /// Admin only: approves `wasm_hash` for `new_version`, which must exceed
    /// the current version.
    pub fn approve_upgrade(
        &mut self,
        admin: Option<Address>,
        auth: &Authorizations,
        wasm_hash: Hash32,
        new_version: u32,
    ) -> (r: Outcome<UpgradeAllowlisted, UpgradeError>)
        requires
            old(self).wf(),
        ensures
            final(self).wf(),
            (final(self)@, r) == approve_upgrade_spec(old(self)@, admin, *auth, wasm_hash, new_version),
    {
        let current = self.get_contract_version();
        match settle(decide_approve(admin, current, new_version), auth) {
            Outcome::Done(_) => {
                self.apply_all(&plan_approve(wasm_hash, new_version));
                proof {
                    reveal_with_fuel(apply_upgrade_writes, 2);
                }
                Outcome::Done(
                    UpgradeAllowlisted {
                        wasm_hash,
                        new_contract_version: new_version,
                        approved_by: admin.unwrap(),
                    },
                )
            },
            Outcome::Rejected(e) => Outcome::Rejected(e),
            Outcome::Aborted(r) => Outcome::Aborted(r),
        }
    }

    /// Admin only: removes `wasm_hash` from the allowlist without applying it.
    pub fn revoke_upgrade(
        &mut self,
        admin: Option<Address>,
        auth: &Authorizations,
        wasm_hash: Hash32,
    ) -> (r: Outcome<UpgradeRevoked, UpgradeError>)
        requires
            old(self).wf(),
        ensures
            final(self).wf(),
            (final(self)@, r) == revoke_upgrade_spec(old(self)@, admin, *auth, wasm_hash),
    {
        match settle(decide_revoke(admin), auth) {
            Outcome::Done(_) => {
                self.apply_all(&plan_revoke(wasm_hash));
                proof {
                    reveal_with_fuel(apply_upgrade_writes, 2);
                }
                Outcome::Done(UpgradeRevoked { wasm_hash, revoked_by: admin.unwrap() })
            },
            Outcome::Rejected(e) => Outcome::Rejected(e),
            Outcome::Aborted(r) => Outcome::Aborted(r),
        }
    }

    /// Admin only: applies the upgrade to `wasm_hash`, consuming its allowlist
    /// entry and advancing the version to the entry's target.
    pub fn upgrade_contract(
        &mut self,
        admin: Option<Address>,
        auth: &Authorizations,
        wasm_hash: Hash32,
    ) -> (r: Outcome<ContractUpgraded, UpgradeError>)
        requires
            old(self).wf(),
        ensures
            final(self).wf(),
            (final(self)@, r) == upgrade_contract_spec(old(self)@, admin, *auth, wasm_hash),
    {
        let current = self.get_contract_version();
        let target = self.allowed.get(&wasm_hash);
        match settle(decide_upgrade(admin, target, current), auth) {
            Outcome::Done(n) => {
                self.apply_all(&plan_upgrade(wasm_hash, n));
                proof {
                    reveal_with_fuel(apply_upgrade_writes, 3);
                    assert(self@ =~= upgrade_contract_spec(old(self)@, admin, *auth, wasm_hash).0);
                }
                Outcome::Done(
                    ContractUpgraded {
                        new_wasm_hash: wasm_hash,
                        old_contract_version: current,
                        new_contract_version: n,
                        upgraded_by: admin.unwrap(),
                    },
                )
            },
            Outcome::Rejected(e) => Outcome::Rejected(e),
            Outcome::Aborted(r) => Outcome::Aborted(r),
        }
    }
}

} // verus!
