//! The issuer registry: issuer records keyed by the hash of the issuer's
//! identifier, a reverse index from each issuer's address to that hash, and
//! the admin who governs both.
use crate::invocation::{settle, settled, Authorizations, Decision, Invocation, Outcome};
use crate::primitives::{Address, Hash32};
use crate::shared::{
    is_valid_principal_address, valid_principal, ContractError, IssuerError, IssuerRecord,
    IssuerStatus, MIN_CONTRACT_VERSION,
};
use crate::table::Table;
use crate::upgrade::{
    apply_upgrade_write, approve_upgrade_spec, UpgradeWrite, reported_version, revoke_upgrade_spec, upgrade_contract_spec,
    ContractUpgraded, UpgradeAllowlisted, UpgradeError, UpgradeGovernance, UpgradeRevoked,
    UpgradeView,
};
use vstd::prelude::*;

verus! {

/// Published when an issuer is registered.
#[derive(Clone, Copy, Debug, PartialEq, Eq)]
pub struct IssuerRegistered {
    pub issuer_id_hash: Hash32,
    pub issuer_address: Address,
    pub metadata_hash: Hash32,
    pub created_at: u64,
}

/// Published when an issuer's public metadata hash is replaced.
#[derive(Clone, Copy, Debug, PartialEq, Eq)]
pub struct IssuerMetadataUpdated {
    pub issuer_id_hash: Hash32,
    pub metadata_hash: Hash32,
    pub updated_at: u64,
}

/// Published when an issuer is suspended.
#[derive(Clone, Copy, Debug, PartialEq, Eq)]
pub struct IssuerSuspended {
    pub issuer_id_hash: Hash32,
    pub updated_at: u64,
}

/// Published when an issuer is made active again.
#[derive(Clone, Copy, Debug, PartialEq, Eq)]
pub struct IssuerReactivated {
    pub issuer_id_hash: Hash32,
    pub updated_at: u64,
}

/// Published when an issuer is revoked.
#[derive(Clone, Copy, Debug, PartialEq, Eq)]
pub struct IssuerRevoked {
    pub issuer_id_hash: Hash32,
    pub updated_at: u64,
}

/// Published when an issuer's address is rotated; carries both addresses.
#[derive(Clone, Copy, Debug, PartialEq, Eq)]
pub struct IssuerAddressRotated {
    pub issuer_id_hash: Hash32,
    pub old_address: Address,
    pub new_address: Address,
    pub updated_at: u64,
}

/// The contents of the issuer registry.
pub struct IssuerRegistryView {
    /// The admin, once initialized.
    pub admin: Option<Address>,
    /// Issuer records by issuer id hash.
    pub issuers: Map<Hash32, IssuerRecord>,
    /// Reverse index: issuer address to issuer id hash.
    pub address_index: Map<Address, Hash32>,
    /// Upgrade governance.
    pub upgrades: UpgradeView,
}

/// `m` as an optional value: the entry under `k`, if any.
pub open spec fn lookup<K, V>(m: Map<K, V>, k: K) -> Option<V> {
    if m.dom().contains(k) {
        Some(m[k])
    } else {
        None
    }
}

// ---------------------------------------------------------------------------
// Decisions: the verdict of each operation on the entries it reads
// ---------------------------------------------------------------------------

/// Initializing with `admin` when an admin is (or is not) already stored.
pub open spec fn initialize_decision(admin_present: bool, admin: Address) -> Decision<
    (),
    ContractError,
> {
    if admin_present {
        Decision { authorizer: None, verdict: Err(ContractError::AlreadyInitialized) }
    } else if !valid_principal(admin) {
        Decision { authorizer: None, verdict: Err(ContractError::InvalidInput) }
    } else {
        Decision { authorizer: Some(admin), verdict: Ok(()) }
    }
}

/// Registering issuer `id` at `address`: the record to store.
pub open spec fn register_decision(
    admin: Option<Address>,
    id_taken: bool,
    address_taken: bool,
    now: u64,
    id: Hash32,
    address: Address,
    metadata: Hash32,
) -> Decision<IssuerRecord, IssuerError> {
    match admin {
        None => Decision { authorizer: None, verdict: Err(IssuerError::IssuerNotFound) },
        Some(a) => if !valid_principal(address) {
            Decision { authorizer: None, verdict: Err(IssuerError::InvalidAddress) }
        } else {
            Decision {
                authorizer: Some(a),
                verdict: if id_taken {
                    Err(IssuerError::IssuerAlreadyRegistered)
                } else if address_taken {
                    Err(IssuerError::IssuerAddressAlreadyRegistered)
                } else {
                    Ok(
                        IssuerRecord {
                            issuer_id_hash: id,
                            issuer_address: address,
                            metadata_hash: metadata,
                            status: IssuerStatus::Active,
                            created_at: now,
                            updated_at: now,
                        },
                    )
                },
            }
        },
    }
}

/// Replacing the metadata hash of `record`: the record to store.
pub open spec fn update_decision(
    admin: Option<Address>,
    record: Option<IssuerRecord>,
    now: u64,
    metadata: Hash32,
) -> Decision<IssuerRecord, IssuerError> {
    match admin {
        None => Decision { authorizer: None, verdict: Err(IssuerError::IssuerNotFound) },
        Some(a) => Decision {
            authorizer: Some(a),
            verdict: match record {
                None => Err(IssuerError::IssuerNotFound),
                Some(r) => if r.status == IssuerStatus::Revoked {
                    Err(IssuerError::IssuerRevoked)
                } else {
                    Ok(IssuerRecord { metadata_hash: metadata, updated_at: now, ..r })
                },
            },
        },
    }
}

/// Moving `record` to `status`: the record to store. Nothing leaves `Revoked`.
pub open spec fn status_decision(
    admin: Option<Address>,
    record: Option<IssuerRecord>,
    now: u64,
    status: IssuerStatus,
) -> Decision<IssuerRecord, IssuerError> {
    match admin {
        None => Decision { authorizer: None, verdict: Err(IssuerError::IssuerNotFound) },
        Some(a) => Decision {
            authorizer: Some(a),
            verdict: match record {
                None => Err(IssuerError::IssuerNotFound),
                Some(r) => if r.status == IssuerStatus::Revoked && status != IssuerStatus::Revoked {
                    Err(IssuerError::InvalidTransition)
                } else {
                    Ok(IssuerRecord { status: status, updated_at: now, ..r })
                },
            },
        },
    }
}

/// Moving `record` to `new_address`: the record to store.
pub open spec fn rotate_decision(
    admin: Option<Address>,
    record: Option<IssuerRecord>,
    new_address_taken: bool,
    now: u64,
    new_address: Address,
) -> Decision<IssuerRecord, IssuerError> {
    match admin {
        None => Decision { authorizer: None, verdict: Err(IssuerError::IssuerNotFound) },
        Some(a) => if !valid_principal(new_address) {
            Decision { authorizer: None, verdict: Err(IssuerError::InvalidAddress) }
        } else {
            Decision {
                authorizer: Some(a),
                verdict: match record {
                    None => Err(IssuerError::IssuerNotFound),
                    Some(r) => if r.status == IssuerStatus::Revoked {
                        Err(IssuerError::IssuerRevoked)
                    } else if new_address == r.issuer_address {
                        Err(IssuerError::InvalidAddress)
                    } else if new_address_taken {
                        Err(IssuerError::IssuerAddressAlreadyRegistered)
                    } else {
                        Ok(IssuerRecord { issuer_address: new_address, updated_at: now, ..r })
                    },
                },
            }
        },
    }
}

/// Whether `record` is present and active.
pub fn issuer_record_is_active(record: Option<IssuerRecord>) -> (r: bool)
    ensures
        r == (record matches Some(rec) && rec.status == IssuerStatus::Active),
{
    match record {
        Some(rec) => rec.status == IssuerStatus::Active,
        None => false,
    }
}

/// Decides an initialization.
pub fn decide_initialize(admin_present: bool, admin: &Address) -> (d: Decision<(), ContractError>)
    ensures
        d == initialize_decision(admin_present, *admin),
{
    if admin_present {
        Decision { authorizer: None, verdict: Err(ContractError::AlreadyInitialized) }
    } else if !is_valid_principal_address(admin) {
        Decision { authorizer: None, verdict: Err(ContractError::InvalidInput) }
    } else {
        Decision { authorizer: Some(*admin), verdict: Ok(()) }
    }
}

/// Decides a registration.
pub fn decide_register(
    admin: Option<Address>,
    id_taken: bool,
    address_taken: bool,
    now: u64,
    id: Hash32,
    address: Address,
    metadata: Hash32,
) -> (d: Decision<IssuerRecord, IssuerError>)
    ensures
        d == register_decision(admin, id_taken, address_taken, now, id, address, metadata),
{
    match admin {
        None => Decision { authorizer: None, verdict: Err(IssuerError::IssuerNotFound) },
        Some(a) => if !is_valid_principal_address(&address) {
            Decision { authorizer: None, verdict: Err(IssuerError::InvalidAddress) }
        } else {
            Decision {
                authorizer: Some(a),
                verdict: if id_taken {
                    Err(IssuerError::IssuerAlreadyRegistered)
                } else if address_taken {
                    Err(IssuerError::IssuerAddressAlreadyRegistered)
                } else {
                    Ok(
                        IssuerRecord {
                            issuer_id_hash: id,
                            issuer_address: address,
                            metadata_hash: metadata,
                            status: IssuerStatus::Active,
                            created_at: now,
                            updated_at: now,
                        },
                    )
                },
            }
        },
    }
}

/// Decides a metadata update.
pub fn decide_update(admin: Option<Address>, record: Option<IssuerRecord>, now: u64, metadata: Hash32) -> (d:
    Decision<IssuerRecord, IssuerError>)
    ensures
        d == update_decision(admin, record, now, metadata),
{
    match admin {
        None => Decision { authorizer: None, verdict: Err(IssuerError::IssuerNotFound) },
        Some(a) => Decision {
            authorizer: Some(a),
            verdict: match record {
                None => Err(IssuerError::IssuerNotFound),
                Some(r) => if r.status == IssuerStatus::Revoked {
                    Err(IssuerError::IssuerRevoked)
                } else {
                    Ok(IssuerRecord { metadata_hash: metadata, updated_at: now, ..r })
                },
            },
        },
    }
}

/// Decides a status change.
pub fn decide_status(
    admin: Option<Address>,
    record: Option<IssuerRecord>,
    now: u64,
    status: IssuerStatus,
) -> (d: Decision<IssuerRecord, IssuerError>)
    ensures
        d == status_decision(admin, record, now, status),
{
    match admin {
        None => Decision { authorizer: None, verdict: Err(IssuerError::IssuerNotFound) },
        Some(a) => Decision {
            authorizer: Some(a),
            verdict: match record {
                None => Err(IssuerError::IssuerNotFound),
                Some(r) => if r.status == IssuerStatus::Revoked && status != IssuerStatus::Revoked {
                    Err(IssuerError::InvalidTransition)
                } else {
                    Ok(IssuerRecord { status: status, updated_at: now, ..r })
                },
            },
        },
    }
}

/// Decides an address rotation.
pub fn decide_rotate(
    admin: Option<Address>,
    record: Option<IssuerRecord>,
    new_address_taken: bool,
    now: u64,
    new_address: Address,
) -> (d: Decision<IssuerRecord, IssuerError>)
    ensures
        d == rotate_decision(admin, record, new_address_taken, now, new_address),
{
    match admin {
        None => Decision { authorizer: None, verdict: Err(IssuerError::IssuerNotFound) },
        Some(a) => if !is_valid_principal_address(&new_address) {
            Decision { authorizer: None, verdict: Err(IssuerError::InvalidAddress) }
        } else {
            Decision {
                authorizer: Some(a),
                verdict: match record {
                    None => Err(IssuerError::IssuerNotFound),
                    Some(r) => if r.status == IssuerStatus::Revoked {
                        Err(IssuerError::IssuerRevoked)
                    } else if new_address.same_as(&r.issuer_address) {
                        Err(IssuerError::InvalidAddress)
                    } else if new_address_taken {
                        Err(IssuerError::IssuerAddressAlreadyRegistered)
                    } else {
                        Ok(IssuerRecord { issuer_address: new_address, updated_at: now, ..r })
                    },
                },
            }
        },
    }
}

// ---------------------------------------------------------------------------
// Transitions: each operation's effect on the registry's contents
// ---------------------------------------------------------------------------

/// Initializing the registry with `admin`.
pub open spec fn initialize_spec(v: IssuerRegistryView, auth: Authorizations, admin: Address) -> (
    IssuerRegistryView,
    Outcome<(), ContractError>,
) {
    match settled(initialize_decision(v.admin is Some, admin), auth) {
        Outcome::Done(_) => (
            IssuerRegistryView {
                admin: Some(admin),
                upgrades: UpgradeView { version: Some(MIN_CONTRACT_VERSION), ..v.upgrades },
                ..v
            },
            Outcome::Done(()),
        ),
        Outcome::Rejected(e) => (v, Outcome::Rejected(e)),
        Outcome::Aborted(r) => (v, Outcome::Aborted(r)),
    }
}

/// Registering issuer `id` at `address` with `metadata`.
pub open spec fn register_issuer_spec(
    v: IssuerRegistryView,
    auth: Authorizations,
    now: u64,
    id: Hash32,
    address: Address,
    metadata: Hash32,
) -> (IssuerRegistryView, Outcome<IssuerRegistered, IssuerError>) {
    match settled(
        register_decision(
            v.admin,
            v.issuers.dom().contains(id),
            v.address_index.dom().contains(address),
            now,
            id,
            address,
            metadata,
        ),
        auth,
    ) {
        Outcome::Done(record) => (
            IssuerRegistryView {
                issuers: v.issuers.insert(id, record),
                address_index: v.address_index.insert(address, id),
                ..v
            },
            Outcome::Done(
                IssuerRegistered {
                    issuer_id_hash: id,
                    issuer_address: address,
                    metadata_hash: metadata,
                    created_at: now,
                },
            ),
        ),
        Outcome::Rejected(e) => (v, Outcome::Rejected(e)),
        Outcome::Aborted(r) => (v, Outcome::Aborted(r)),
    }
}

/// Replacing the metadata hash of issuer `id`.
pub open spec fn update_issuer_spec(
    v: IssuerRegistryView,
    auth: Authorizations,
    now: u64,
    id: Hash32,
    metadata: Hash32,
) -> (IssuerRegistryView, Outcome<IssuerMetadataUpdated, IssuerError>) {
    match settled(update_decision(v.admin, lookup(v.issuers, id), now, metadata), auth) {
        Outcome::Done(record) => (
            IssuerRegistryView { issuers: v.issuers.insert(id, record), ..v },
            Outcome::Done(
                IssuerMetadataUpdated { issuer_id_hash: id, metadata_hash: metadata, updated_at: now },
            ),
        ),
        Outcome::Rejected(e) => (v, Outcome::Rejected(e)),
        Outcome::Aborted(r) => (v, Outcome::Aborted(r)),
    }
}

/// Moving issuer `id` to `status`; on success the outcome carries the stored record.
pub open spec fn set_status_spec(
    v: IssuerRegistryView,
    auth: Authorizations,
    now: u64,
    id: Hash32,
    status: IssuerStatus,
) -> (IssuerRegistryView, Outcome<IssuerRecord, IssuerError>) {
    match settled(status_decision(v.admin, lookup(v.issuers, id), now, status), auth) {
        Outcome::Done(record) => (
            IssuerRegistryView { issuers: v.issuers.insert(id, record), ..v },
            Outcome::Done(record),
        ),
        Outcome::Rejected(e) => (v, Outcome::Rejected(e)),
        Outcome::Aborted(r) => (v, Outcome::Aborted(r)),
    }
}

/// The outcome of a status change with its record replaced by the event `f` makes of it.
pub open spec fn map_done<T, U, E>(o: Outcome<T, E>, f: spec_fn(T) -> U) -> Outcome<U, E> {
    match o {
        Outcome::Done(t) => Outcome::Done(f(t)),
        Outcome::Rejected(e) => Outcome::Rejected(e),
        Outcome::Aborted(r) => Outcome::Aborted(r),
    }
}

/// Rotating issuer `id` to `new_address`: the old reverse-index entry goes,
/// the new one comes, and the record follows.
pub open spec fn rotate_issuer_address_spec(
    v: IssuerRegistryView,
    auth: Authorizations,
    now: u64,
    id: Hash32,
    new_address: Address,
) -> (IssuerRegistryView, Outcome<IssuerAddressRotated, IssuerError>) {
    match settled(
        rotate_decision(
            v.admin,
            lookup(v.issuers, id),
            v.address_index.dom().contains(new_address),
            now,
            new_address,
        ),
        auth,
    ) {
        Outcome::Done(record) => (
            IssuerRegistryView {
                issuers: v.issuers.insert(id, record),
                address_index: v.address_index.remove(v.issuers[id].issuer_address).insert(
                    new_address,
                    id,
                ),
                ..v
            },
            Outcome::Done(
                IssuerAddressRotated {
                    issuer_id_hash: id,
                    old_address: v.issuers[id].issuer_address,
                    new_address,
                    updated_at: now,
                },
            ),
        ),
        Outcome::Rejected(e) => (v, Outcome::Rejected(e)),
        Outcome::Aborted(r) => (v, Outcome::Aborted(r)),
    }
}

/// `v` with its upgrade governance replaced by `u`.
pub open spec fn with_upgrades(v: IssuerRegistryView, u: UpgradeView) -> IssuerRegistryView {
    IssuerRegistryView { upgrades: u, ..v }
}

/// A write to the issuer registry's stored state.
#[derive(Clone, Copy, Debug, PartialEq, Eq)]
pub enum IssuerWrite {
    /// Store `admin` as the admin.
    SetAdmin { admin: Address },
    /// Store `record` under issuer id `id`.
    PutIssuer { id: Hash32, record: IssuerRecord },
    /// Index `address` to issuer id `id`.
    PutAddressIndex { address: Address, id: Hash32 },
    /// Remove the index entry of `address`.
    RemoveAddressIndex { address: Address },
    /// A write to upgrade governance.
    Governance(UpgradeWrite),
}

/// `v` after write `w`.
pub open spec fn apply_issuer_write(v: IssuerRegistryView, w: IssuerWrite) -> IssuerRegistryView {
    match w {
        IssuerWrite::SetAdmin { admin } => IssuerRegistryView { admin: Some(admin), ..v },
        IssuerWrite::PutIssuer { id, record } => IssuerRegistryView {
            issuers: v.issuers.insert(id, record),
            ..v
        },
        IssuerWrite::PutAddressIndex { address, id } => IssuerRegistryView {
            address_index: v.address_index.insert(address, id),
            ..v
        },
        IssuerWrite::RemoveAddressIndex { address } => IssuerRegistryView {
            address_index: v.address_index.remove(address),
            ..v
        },
        IssuerWrite::Governance(u) => IssuerRegistryView {
            upgrades: apply_upgrade_write(v.upgrades, u),
            ..v
        },
    }
}

/// `v` after the writes `ws`, in order.
pub open spec fn apply_issuer_writes(v: IssuerRegistryView, ws: Seq<IssuerWrite>) -> IssuerRegistryView
    decreases ws.len(),
{
    if ws.len() == 0 {
        v
    } else {
        apply_issuer_write(apply_issuer_writes(v, ws.drop_last()), ws.last())
    }
}

/// The writes of initialization with `admin`.
pub open spec fn initialize_writes(admin: Address) -> Seq<IssuerWrite> {
    seq![
        IssuerWrite::SetAdmin { admin },
        IssuerWrite::Governance(UpgradeWrite::SetVersion { version: MIN_CONTRACT_VERSION }),
    ]
}

/// The writes of registering `record` as issuer `id` at `address`.
pub open spec fn register_writes(id: Hash32, address: Address, record: IssuerRecord) -> Seq<IssuerWrite> {
    seq![IssuerWrite::PutIssuer { id, record }, IssuerWrite::PutAddressIndex { address, id }]
}

/// The writes of replacing issuer `id`'s record by `record`.
pub open spec fn record_writes(id: Hash32, record: IssuerRecord) -> Seq<IssuerWrite> {
    seq![IssuerWrite::PutIssuer { id, record }]
}

/// The writes of moving issuer `id` from `old_address` to `new_address`.
pub open spec fn rotate_writes(
    id: Hash32,
    old_address: Address,
    new_address: Address,
    record: IssuerRecord,
) -> Seq<IssuerWrite> {
    seq![
        IssuerWrite::RemoveAddressIndex { address: old_address },
        IssuerWrite::PutIssuer { id, record },
        IssuerWrite::PutAddressIndex { address: new_address, id },
    ]
}

/// The writes of initialization with `admin`.
pub fn plan_initialize(admin: Address) -> (ws: Vec<IssuerWrite>)
    ensures
        ws@ == initialize_writes(admin),
{
    let ws = vec![
        IssuerWrite::SetAdmin { admin },
        IssuerWrite::Governance(UpgradeWrite::SetVersion { version: MIN_CONTRACT_VERSION }),
    ];
    assert(ws@ =~= initialize_writes(admin));
    ws
}

/// The writes of a registration.
pub fn plan_register(id: Hash32, address: Address, record: IssuerRecord) -> (ws: Vec<IssuerWrite>)
    ensures
        ws@ == register_writes(id, address, record),
{
    let ws = vec![IssuerWrite::PutIssuer { id, record }, IssuerWrite::PutAddressIndex { address, id }];
    assert(ws@ =~= register_writes(id, address, record));
    ws
}

/// The writes of a metadata update or a status change.
pub fn plan_record(id: Hash32, record: IssuerRecord) -> (ws: Vec<IssuerWrite>)
    ensures
        ws@ == record_writes(id, record),
{
    let ws = vec![IssuerWrite::PutIssuer { id, record }];
    assert(ws@ =~= record_writes(id, record));
    ws
}

/// The writes of an address rotation.
pub fn plan_rotate(id: Hash32, old_address: Address, new_address: Address, record: IssuerRecord) -> (ws: Vec<
    IssuerWrite,
>)
    ensures
        ws@ == rotate_writes(id, old_address, new_address, record),
{
    let ws = vec![
        IssuerWrite::RemoveAddressIndex { address: old_address },
        IssuerWrite::PutIssuer { id, record },
        IssuerWrite::PutAddressIndex { address: new_address, id },
    ];
    assert(ws@ =~= rotate_writes(id, old_address, new_address, record));
    ws
}

/// Whether issuer `id` is registered and active.
pub open spec fn active_issuer(v: IssuerRegistryView, id: Hash32) -> bool {
    v.issuers.dom().contains(id) && v.issuers[id].status == IssuerStatus::Active
}

/// Whether `address` is indexed to an issuer that is registered and active.
pub open spec fn active_address(v: IssuerRegistryView, address: Address) -> bool {
    v.address_index.dom().contains(address) && active_issuer(v, v.address_index[address])
}

/// The record reached through the reverse index from `address`.
pub open spec fn issuer_by_address(v: IssuerRegistryView, address: Address) -> Result<
    IssuerRecord,
    IssuerError,
> {
    if !v.address_index.dom().contains(address) {
        Err(IssuerError::IssuerAddressNotFound)
    } else if !v.issuers.dom().contains(v.address_index[address]) {
        Err(IssuerError::IssuerNotFound)
    } else {
        Ok(v.issuers[v.address_index[address]])
    }
}

/// The issuer registry contract: its stored contents and its entry points.
pub struct IssuerRegistryContract {
    admin: Option<Address>,
    issuers: Table<Hash32, IssuerRecord>,
    address_index: Table<Address, Hash32>,
    upgrades: UpgradeGovernance,
}

impl View for IssuerRegistryContract {
    type V = IssuerRegistryView;

    closed spec fn view(&self) -> IssuerRegistryView {
        IssuerRegistryView {
            admin: self.admin,
            issuers: self.issuers@,
            address_index: self.address_index@,
            upgrades: self.upgrades@,
        }
    }
}

impl IssuerRegistryContract {
    /// Internal consistency of the stored tables.
    pub closed spec fn wf(&self) -> bool {
        &&& self.issuers.wf()
        &&& self.address_index.wf()
        &&& self.upgrades.wf()
    }

    /// Performs write `w`.
    fn apply(&mut self, w: &IssuerWrite)
        requires
            old(self).wf(),
        ensures
            final(self).wf(),
            final(self)@ == apply_issuer_write(old(self)@, *w),
    {
        match w {
            IssuerWrite::SetAdmin { admin } => {
                self.admin = Some(*admin);
            },
            IssuerWrite::PutIssuer { id, record } => self.issuers.insert(*id, *record),
            IssuerWrite::PutAddressIndex { address, id } => self.address_index.insert(*address, *id),
            IssuerWrite::RemoveAddressIndex { address } => self.address_index.remove(address),
            IssuerWrite::Governance(u) => self.upgrades.apply(u),
        }
    }

    /// Performs the writes `ws`, in order.
    fn apply_all(&mut self, ws: &Vec<IssuerWrite>)
        requires
            old(self).wf(),
        ensures
            final(self).wf(),
            final(self)@ == apply_issuer_writes(old(self)@, ws@),
    {
        let ghost start = self@;
        let mut i: usize = 0;
        while i < ws.len()
            invariant
                0 <= i <= ws@.len(),
                self.wf(),
                self@ == apply_issuer_writes(start, ws@.take(i as int)),
            decreases ws@.len() - i,
        {
            assert(ws@.take(i + 1).drop_last() =~= ws@.take(i as int));
            self.apply(&ws[i]);
            i = i + 1;
        }
        assert(ws@.take(ws@.len() as int) =~= ws@);
    }

    /// A freshly deployed, uninitialized registry.
    pub fn new() -> (c: Self)
        ensures
            c.wf(),
            c@.admin == None::<Address>,
            c@.issuers == Map::<Hash32, IssuerRecord>::empty(),
            c@.address_index == Map::<Address, Hash32>::empty(),
            c@.upgrades.version == None::<u32>,
            c@.upgrades.allowed == Map::<Hash32, u32>::empty(),
    {
        IssuerRegistryContract {
            admin: None,
            issuers: Table::new(),
            address_index: Table::new(),
            upgrades: UpgradeGovernance::new(),
        }
    }

    /// Stores `admin` (who must authorize) and sets the contract version to 1.
    pub fn initialize(&mut self, inv: &Invocation, admin: Address) -> (r: Outcome<(), ContractError>)
        requires
            old(self).wf(),
        ensures
            final(self).wf(),
            (final(self)@, r) == initialize_spec(old(self)@, inv.auth, admin),
    {
        match settle(decide_initialize(self.admin.is_some(), &admin), &inv.auth) {
            Outcome::Done(_) => {
                self.apply_all(&plan_initialize(admin));
                proof {
                    reveal_with_fuel(apply_issuer_writes, 3);
                    assert(self@ =~= initialize_spec(old(self)@, inv.auth, admin).0);
                }
                Outcome::Done(())
            },
            Outcome::Rejected(e) => Outcome::Rejected(e),
            Outcome::Aborted(r) => Outcome::Aborted(r),
        }
    }

    /// The admin, or `NotInitialized`.
    pub fn get_admin(&self) -> (r: Result<Address, ContractError>)
        ensures
            r == (match self@.admin {
                Some(a) => Ok(a),
                None => Err(ContractError::NotInitialized),
            }),
    {
        match self.admin {
            Some(a) => Ok(a),
            None => Err(ContractError::NotInitialized),
        }
    }

    /// Admin only: registers issuer `issuer_id_hash` as active at `issuer_address`.
    pub fn register_issuer(
        &mut self,
        inv: &Invocation,
        issuer_id_hash: Hash32,
        issuer_address: Address,
        metadata_hash: Hash32,
    ) -> (r: Outcome<IssuerRegistered, IssuerError>)
        requires
            old(self).wf(),
        ensures
            final(self).wf(),
            (final(self)@, r) == register_issuer_spec(
                old(self)@,
                inv.auth,
                inv.timestamp,
                issuer_id_hash,
                issuer_address,
                metadata_hash,
            ),
    {
        let d = decide_register(
            self.admin,
            self.issuers.contains_key(&issuer_id_hash),
            self.address_index.contains_key(&issuer_address),
            inv.timestamp,
            issuer_id_hash,
            issuer_address,
            metadata_hash,
        );
        match settle(d, &inv.auth) {
            Outcome::Done(record) => {
                self.apply_all(&plan_register(issuer_id_hash, issuer_address, record));
                proof {
                    reveal_with_fuel(apply_issuer_writes, 3);
                }
                Outcome::Done(
                    IssuerRegistered {
                        issuer_id_hash,
                        issuer_address,
                        metadata_hash,
                        created_at: inv.timestamp,
                    },
                )
            },
            Outcome::Rejected(e) => Outcome::Rejected(e),
            Outcome::Aborted(r) => Outcome::Aborted(r),
        }
    }

    /// Admin only: replaces the metadata hash of a registered, unrevoked issuer.
    pub fn update_issuer(&mut self, inv: &Invocation, issuer_id_hash: Hash32, metadata_hash: Hash32) -> (r:
        Outcome<IssuerMetadataUpdated, IssuerError>)
        requires
            old(self).wf(),
        ensures
            final(self).wf(),
            (final(self)@, r) == update_issuer_spec(
                old(self)@,
                inv.auth,
                inv.timestamp,
                issuer_id_hash,
                metadata_hash,
            ),
    {
        let d = decide_update(
            self.admin,
            self.issuers.get(&issuer_id_hash),
            inv.timestamp,
            metadata_hash,
        );
        match settle(d, &inv.auth) {
            Outcome::Done(record) => {
                self.apply_all(&plan_record(issuer_id_hash, record));
                proof {
                    reveal_with_fuel(apply_issuer_writes, 2);
                }
                Outcome::Done(
                    IssuerMetadataUpdated {
                        issuer_id_hash,
                        metadata_hash,
                        updated_at: inv.timestamp,
                    },
                )
            },
            Outcome::Rejected(e) => Outcome::Rejected(e),
            Outcome::Aborted(r) => Outcome::Aborted(r),
        }
    }

    /// Admin only: moves an issuer to `status`; a revoked issuer may only be
    /// revoked again.
    fn set_status(&mut self, inv: &Invocation, issuer_id_hash: Hash32, status: IssuerStatus) -> (r:
        Outcome<IssuerRecord, IssuerError>)
        requires
            old(self).wf(),
        ensures
            final(self).wf(),
            (final(self)@, r) == set_status_spec(
                old(self)@,
                inv.auth,
                inv.timestamp,
                issuer_id_hash,
                status,
            ),
    {
        let d = decide_status(self.admin, self.issuers.get(&issuer_id_hash), inv.timestamp, status);
        match settle(d, &inv.auth) {
            Outcome::Done(record) => {
                self.apply_all(&plan_record(issuer_id_hash, record));
                proof {
                    reveal_with_fuel(apply_issuer_writes, 2);
                }
                Outcome::Done(record)
            },
            Outcome::Rejected(e) => Outcome::Rejected(e),
            Outcome::Aborted(r) => Outcome::Aborted(r),
        }
    }

    /// Admin only: suspends an issuer.
    pub fn suspend_issuer(&mut self, inv: &Invocation, issuer_id_hash: Hash32) -> (r: Outcome<
        IssuerSuspended,
        IssuerError,
    >)
        requires
            old(self).wf(),
        ensures
            final(self).wf(),
            final(self)@ == set_status_spec(
                old(self)@,
                inv.auth,
                inv.timestamp,
                issuer_id_hash,
                IssuerStatus::Suspended,
            ).0,
            r == map_done(
                set_status_spec(
                    old(self)@,
                    inv.auth,
                    inv.timestamp,
                    issuer_id_hash,
                    IssuerStatus::Suspended,
                ).1,
                |_stored: IssuerRecord|
                    IssuerSuspended { issuer_id_hash, updated_at: inv.timestamp },
            ),
    {
        match self.set_status(inv, issuer_id_hash, IssuerStatus::Suspended) {
            Outcome::Done(_) => Outcome::Done(
                IssuerSuspended { issuer_id_hash, updated_at: inv.timestamp },
            ),
            Outcome::Rejected(e) => Outcome::Rejected(e),
            Outcome::Aborted(r) => Outcome::Aborted(r),
        }
    }

    /// Admin only: makes a suspended (or active) issuer active; a revoked
    /// issuer stays revoked.
    pub fn reactivate_issuer(&mut self, inv: &Invocation, issuer_id_hash: Hash32) -> (r: Outcome<
        IssuerReactivated,
        IssuerError,
    >)
        requires
            old(self).wf(),
        ensures
            final(self).wf(),
            final(self)@ == set_status_spec(
                old(self)@,
                inv.auth,
                inv.timestamp,
                issuer_id_hash,
                IssuerStatus::Active,
            ).0,
            r == map_done(
                set_status_spec(
                    old(self)@,
                    inv.auth,
                    inv.timestamp,
                    issuer_id_hash,
                    IssuerStatus::Active,
                ).1,
                |_stored: IssuerRecord|
                    IssuerReactivated { issuer_id_hash, updated_at: inv.timestamp },
            ),
    {
        match self.set_status(inv, issuer_id_hash, IssuerStatus::Active) {
            Outcome::Done(_) => Outcome::Done(
                IssuerReactivated { issuer_id_hash, updated_at: inv.timestamp },
            ),
            Outcome::Rejected(e) => Outcome::Rejected(e),
            Outcome::Aborted(r) => Outcome::Aborted(r),
        }
    }

    /// Admin only: revokes an issuer, permanently.
    pub fn revoke_issuer(&mut self, inv: &Invocation, issuer_id_hash: Hash32) -> (r: Outcome<
        IssuerRevoked,
        IssuerError,
    >)
        requires
            old(self).wf(),
        ensures
            final(self).wf(),
            final(self)@ == set_status_spec(
                old(self)@,
                inv.auth,
                inv.timestamp,
                issuer_id_hash,
                IssuerStatus::Revoked,
            ).0,
            r == map_done(
                set_status_spec(
                    old(self)@,
                    inv.auth,
                    inv.timestamp,
                    issuer_id_hash,
                    IssuerStatus::Revoked,
                ).1,
                |_stored: IssuerRecord|
                    IssuerRevoked { issuer_id_hash, updated_at: inv.timestamp },
            ),
    {
        match self.set_status(inv, issuer_id_hash, IssuerStatus::Revoked) {
            Outcome::Done(_) => Outcome::Done(
                IssuerRevoked { issuer_id_hash, updated_at: inv.timestamp },
            ),
            Outcome::Rejected(e) => Outcome::Rejected(e),
            Outcome::Aborted(r) => Outcome::Aborted(r),
        }
    }

    /// Admin only: moves an unrevoked issuer to a new, unused address.
    pub fn rotate_issuer_address(&mut self, inv: &Invocation, issuer_id_hash: Hash32, new_address: Address) -> (r:
        Outcome<IssuerAddressRotated, IssuerError>)
        requires
            old(self).wf(),
        ensures
            final(self).wf(),
            (final(self)@, r) == rotate_issuer_address_spec(
                old(self)@,
                inv.auth,
                inv.timestamp,
                issuer_id_hash,
                new_address,
            ),
    {
        let current = self.issuers.get(&issuer_id_hash);
        let d = decide_rotate(
            self.admin,
            current,
            self.address_index.contains_key(&new_address),
            inv.timestamp,
            new_address,
        );
        match settle(d, &inv.auth) {
            Outcome::Done(record) => {
                let old_address = current.unwrap().issuer_address;
                self.apply_all(&plan_rotate(issuer_id_hash, old_address, new_address, record));
                proof {
                    reveal_with_fuel(apply_issuer_writes, 4);
                }
                Outcome::Done(
                    IssuerAddressRotated {
                        issuer_id_hash,
                        old_address,
                        new_address,
                        updated_at: inv.timestamp,
                    },
                )
            },
            Outcome::Rejected(e) => Outcome::Rejected(e),
            Outcome::Aborted(r) => Outcome::Aborted(r),
        }
    }

    /// The record of issuer `issuer_id_hash`.
    pub fn get_issuer(&self, issuer_id_hash: &Hash32) -> (r: Result<IssuerRecord, IssuerError>)
        requires
            self.wf(),
        ensures
            r == (match lookup(self@.issuers, *issuer_id_hash) {
                Some(rec) => Ok(rec),
                None => Err(IssuerError::IssuerNotFound),
            }),
    {
        match self.issuers.get(issuer_id_hash) {
            Some(rec) => Ok(rec),
            None => Err(IssuerError::IssuerNotFound),
        }
    }

    /// Whether issuer `issuer_id_hash` is registered and active.
    pub fn is_active_issuer(&self, issuer_id_hash: &Hash32) -> (r: bool)
        requires
            self.wf(),
        ensures
            r == active_issuer(self@, *issuer_id_hash),
    {
        issuer_record_is_active(self.issuers.get(issuer_id_hash))
    }

    /// Whether `issuer_address` belongs to a registered, active issuer.
    pub fn is_active_address(&self, issuer_address: &Address) -> (r: bool)
        requires
            self.wf(),
        ensures
            r == active_address(self@, *issuer_address),
    {
        match self.address_index.get(issuer_address) {
            Some(id) => self.is_active_issuer(&id),
            None => false,
        }
    }

    /// The record of the issuer at `issuer_address`.
    pub fn get_issuer_by_address(&self, issuer_address: &Address) -> (r: Result<IssuerRecord, IssuerError>)
        requires
            self.wf(),
        ensures
            r == issuer_by_address(self@, *issuer_address),
    {
        match self.address_index.get(issuer_address) {
            None => Err(IssuerError::IssuerAddressNotFound),
            Some(id) => match self.issuers.get(&id) {
                None => Err(IssuerError::IssuerNotFound),
                Some(rec) => Ok(rec),
            },
        }
    }

    /// The contract version: 1 after initialization, raised by each upgrade;
    /// 0 before initialization.
    pub fn get_contract_version(&self) -> (r: u32)
        ensures
            r == reported_version(self@.upgrades),
    {
        self.upgrades.get_contract_version()
    }

    /// Admin only: approves `wasm_hash` for `new_version`, which must exceed
    /// the current version.
    pub fn approve_upgrade(&mut self, inv: &Invocation, wasm_hash: Hash32, new_version: u32) -> (r: Outcome<
        UpgradeAllowlisted,
        UpgradeError,
    >)
        requires
            old(self).wf(),
        ensures
            final(self).wf(),
            final(self)@ == with_upgrades(old(self)@, approve_upgrade_spec(
                    old(self)@.upgrades,
                    old(self)@.admin,
                    inv.auth,
                    wasm_hash,
                    new_version,
                ).0),
            r == approve_upgrade_spec(
                old(self)@.upgrades,
                old(self)@.admin,
                inv.auth,
                wasm_hash,
                new_version,
            ).1,
    {
        self.upgrades.approve_upgrade(self.admin, &inv.auth, wasm_hash, new_version)
    }

    /// Admin only: removes `wasm_hash` from the allowlist.
    pub fn revoke_upgrade(&mut self, inv: &Invocation, wasm_hash: Hash32) -> (r: Outcome<
        UpgradeRevoked,
        UpgradeError,
    >)
        requires
            old(self).wf(),
        ensures
            final(self).wf(),
            final(self)@ == with_upgrades(old(self)@, revoke_upgrade_spec(old(self)@.upgrades, old(self)@.admin, inv.auth, wasm_hash).0),
            r == revoke_upgrade_spec(old(self)@.upgrades, old(self)@.admin, inv.auth, wasm_hash).1,
    {
        self.upgrades.revoke_upgrade(self.admin, &inv.auth, wasm_hash)
    }

    /// Whether `wasm_hash` is on the allowlist.
    pub fn is_upgrade_allowed(&self, wasm_hash: &Hash32) -> (r: bool)
        requires
            self.wf(),
        ensures
            r == self@.upgrades.allowed.dom().contains(*wasm_hash),
    {
        self.upgrades.is_upgrade_allowed(wasm_hash)
    }

    /// Admin only: applies the allowlisted upgrade `wasm_hash`, consuming its
    /// allowlist entry and advancing the contract version. The caller replaces
    /// the contract's code with `wasm_hash` when this succeeds.
    pub fn upgrade_contract(&mut self, inv: &Invocation, wasm_hash: Hash32) -> (r: Outcome<
        ContractUpgraded,
        UpgradeError,
    >)
        requires
            old(self).wf(),
        ensures
            final(self).wf(),
            final(self)@ == with_upgrades(old(self)@, upgrade_contract_spec(old(self)@.upgrades, old(self)@.admin, inv.auth, wasm_hash).0),
            r == upgrade_contract_spec(old(self)@.upgrades, old(self)@.admin, inv.auth, wasm_hash).1,
    {
        self.upgrades.upgrade_contract(self.admin, &inv.auth, wasm_hash)
    }
}

} // verus!
