//! Policy aggregate: fee split, reserve and dispute window, versioned per scope.
use crate::table::Duplicate;
use crate::text::{colon, decimal, join_colon2, owned, push_decimal};
use vstd::prelude::*;
use vstd::string::*;

verus! {

broadcast use vstd::string::group_string_axioms;

/// Basis points that make 100%.
pub const BPS_MAX: u16 = 10_000;

/// Policy scope; precedence OwnerService > Owner > Global.
#[derive(Debug, Clone, PartialEq, Eq)]
pub enum PolicyScope {
    Global,
    Owner { owner: String },
    OwnerService { owner: String, service_id: String },
}

/// Abstract policy scope.
pub enum PolicyScopeView {
    Global,
    Owner { owner: Seq<char> },
    OwnerService { owner: Seq<char>, service_id: Seq<char> },
}

impl View for PolicyScope {
    type V = PolicyScopeView;

    open spec fn view(&self) -> PolicyScopeView {
        match self {
            PolicyScope::Global => PolicyScopeView::Global,
            PolicyScope::Owner { owner } => PolicyScopeView::Owner { owner: owner@ },
            PolicyScope::OwnerService { owner, service_id } => PolicyScopeView::OwnerService {
                owner: owner@,
                service_id: service_id@,
            },
        }
    }
}

/// The storage key of a scope: `global`, `owner:<owner>` or `owner_service:<owner>:<service>`.
pub open spec fn scope_key_of(s: PolicyScopeView) -> Seq<char> {
    match s {
        PolicyScopeView::Global => "global"@,
        PolicyScopeView::Owner { owner } => "owner:"@ + owner,
        PolicyScopeView::OwnerService { owner, service_id } => "owner_service:"@ + owner + colon()
            + service_id,
    }
}

/// The scopes consulted for `(owner, service_id)`, most specific first.
pub open spec fn scope_chain_of(owner: Seq<char>, service_id: Seq<char>) -> Seq<PolicyScopeView> {
    seq![
        PolicyScopeView::OwnerService { owner, service_id },
        PolicyScopeView::Owner { owner },
        PolicyScopeView::Global,
    ]
}

impl Duplicate for PolicyScope {
    fn duplicate(&self) -> (r: Self) {
        match self {
            PolicyScope::Global => PolicyScope::Global,
            PolicyScope::Owner { owner } => PolicyScope::Owner { owner: owner.clone() },
            PolicyScope::OwnerService { owner, service_id } => PolicyScope::OwnerService {
                owner: owner.clone(),
                service_id: service_id.clone(),
            },
        }
    }
}

impl PolicyScope {
    /// Stable key for storage and resolution.
    pub fn scope_key(&self) -> (k: String)
        ensures
            k@ == scope_key_of(self@),
    {
        match self {
            PolicyScope::Global => owned("global"),
            PolicyScope::Owner { owner } => {
                let mut k = owned("owner:");
                k.append(owner.as_str());
                k
            },
            PolicyScope::OwnerService { owner, service_id } => {
                let mut k = owned("owner_service:");
                let rest = join_colon2(owner.as_str(), service_id.as_str());
                k.append(rest.as_str());
                proof {
                    assert(k@ =~= "owner_service:"@ + owner@ + colon() + service_id@);
                }
                k
            },
        }
    }

    /// The resolution chain for `(owner, service_id)`: OwnerService, Owner, Global.
    pub fn scope_chain(owner: &str, service_id: &str) -> (r: Vec<PolicyScope>)
        ensures
            r@.len() == 3,
            forall|i: int| 0 <= i < 3 ==> #[trigger] r@[i]@ == scope_chain_of(owner@, service_id@)[i],
            r@.map_values(|s: PolicyScope| s@) == scope_chain_of(owner@, service_id@),
    {
        let mut r = Vec::new();
        r.push(PolicyScope::OwnerService { owner: owned(owner), service_id: owned(service_id) });
        r.push(PolicyScope::Owner { owner: owned(owner) });
        r.push(PolicyScope::Global);
        proof {
            assert(r@.map_values(|s: PolicyScope| s@) =~= scope_chain_of(owner@, service_id@));
        }
        r
    }
}

/// Fee split in basis points (10_000 = 100%).
#[derive(Debug, Clone, PartialEq, Eq)]
pub struct FeePolicy {
    pub operator_share_bps: u16,
    pub protocol_fee_bps: u16,
}

impl View for FeePolicy {
    type V = FeePolicy;

    open spec fn view(&self) -> FeePolicy {
        *self
    }
}

/// The two shares add up to exactly 100% (the sum saturates at `u16::MAX`).
pub open spec fn fee_policy_valid(f: FeePolicy) -> bool {
    (if f.operator_share_bps + f.protocol_fee_bps > u16::MAX {
        u16::MAX as int
    } else {
        f.operator_share_bps + f.protocol_fee_bps
    }) == BPS_MAX
}

/// `gross * bps / 10_000`, rounded down.
pub open spec fn bps_of(gross: u64, bps: u16) -> int {
    (gross * bps) / (BPS_MAX as int)
}

impl FeePolicy {
    /// True when the shares sum to 10_000 basis points.
    pub fn validate(&self) -> (b: bool)
        ensures
            b == fee_policy_valid(*self),
    {
        self.operator_share_bps.saturating_add(self.protocol_fee_bps) == BPS_MAX
    }

    /// Operator share and protocol fee of `gross_spent`, each rounded down.
    pub fn split(&self, gross_spent: u64) -> (r: (u64, u64))
        requires
            gross_spent * self.operator_share_bps <= u64::MAX,
            gross_spent * self.protocol_fee_bps <= u64::MAX,
        ensures
            r.0 == bps_of(gross_spent, self.operator_share_bps),
            r.1 == bps_of(gross_spent, self.protocol_fee_bps),
    {
        let op = (gross_spent * self.operator_share_bps as u64) / BPS_MAX as u64;
        let proto = (gross_spent * self.protocol_fee_bps as u64) / BPS_MAX as u64;
        (op, proto)
    }
}

/// Reserve policy.
#[derive(Debug, Clone, PartialEq, Eq)]
pub enum ReservePolicy {
    NoReserve,
    Fixed { amount: u64 },
    Bps { reserve_bps: u16 },
}

impl View for ReservePolicy {
    type V = ReservePolicy;

    open spec fn view(&self) -> ReservePolicy {
        *self
    }
}

/// Dispute policy: challenge window in seconds.
#[derive(Debug, Clone, PartialEq, Eq)]
pub struct DisputePolicy {
    pub dispute_window_secs: u64,
}

/// Full policy configuration.
#[derive(Debug, Clone, PartialEq, Eq)]
pub struct PolicyConfig {
    pub fee_policy: FeePolicy,
    pub reserve_policy: ReservePolicy,
    pub dispute_policy: DisputePolicy,
}

impl View for PolicyConfig {
    type V = PolicyConfig;

    open spec fn view(&self) -> PolicyConfig {
        *self
    }
}

impl Duplicate for PolicyConfig {
    fn duplicate(&self) -> (r: Self) {
        PolicyConfig {
            fee_policy: FeePolicy {
                operator_share_bps: self.fee_policy.operator_share_bps,
                protocol_fee_bps: self.fee_policy.protocol_fee_bps,
            },
            reserve_policy: match &self.reserve_policy {
                ReservePolicy::NoReserve => ReservePolicy::NoReserve,
                ReservePolicy::Fixed { amount } => ReservePolicy::Fixed { amount: *amount },
                ReservePolicy::Bps { reserve_bps } => ReservePolicy::Bps { reserve_bps: *reserve_bps },
            },
            dispute_policy: DisputePolicy {
                dispute_window_secs: self.dispute_policy.dispute_window_secs,
            },
        }
    }
}

/// Valid fee split and a positive dispute window.
pub open spec fn config_valid(c: PolicyConfig) -> bool {
    fee_policy_valid(c.fee_policy) && c.dispute_policy.dispute_window_secs > 0
}

/// The reserve locked from `gross` under configuration `c`.
pub open spec fn reserve_of(c: PolicyConfig, gross: u64) -> int {
    match c.reserve_policy {
        ReservePolicy::NoReserve => 0,
        ReservePolicy::Fixed { amount } => amount as int,
        ReservePolicy::Bps { reserve_bps } => bps_of(gross, reserve_bps),
    }
}

/// Computing the reserve of `gross` stays within `u64`.
pub open spec fn reserve_fits(c: PolicyConfig, gross: u64) -> bool {
    match c.reserve_policy {
        ReservePolicy::Bps { reserve_bps } => gross * reserve_bps <= u64::MAX,
        _ => true,
    }
}

impl PolicyConfig {
    /// True when the fee split sums to 100% and the dispute window is positive.
    pub fn validate(&self) -> (b: bool)
        ensures
            b == config_valid(*self),
    {
        self.fee_policy.validate() && self.dispute_policy.dispute_window_secs > 0
    }

    /// The reserve locked from `gross_spent`.
    pub fn reserve_from_gross(&self, gross_spent: u64) -> (r: u64)
        requires
            reserve_fits(*self, gross_spent),
        ensures
            r == reserve_of(*self, gross_spent),
    {
        match &self.reserve_policy {
            ReservePolicy::NoReserve => 0,
            ReservePolicy::Fixed { amount } => *amount,
            ReservePolicy::Bps { reserve_bps } => (gross_spent * *reserve_bps as u64) / BPS_MAX as u64,
        }
    }
}

/// Policy version status.
#[derive(Debug, Clone, Copy, PartialEq, Eq, Structural)]
pub enum PolicyVersionStatus {
    Draft,
    Published,
    Superseded,
}

/// Policy version identity: `(scope_key, version)`.
#[derive(Debug, Clone, PartialEq, Eq)]
pub struct PolicyVersionId {
    pub scope_key: String,
    pub version: u64,
}

/// The storage key of a policy version: `<scope_key>:<version>`.
pub open spec fn policy_key_of(scope_key: Seq<char>, version: u64) -> Seq<char> {
    scope_key + colon() + decimal(version as nat)
}

impl PolicyVersionId {
    /// The storage key `<scope_key>:<version>`.
    pub fn key(&self) -> (k: String)
        ensures
            k@ == policy_key_of(self.scope_key@, self.version),
    {
        proof { reveal_strlit(":"); }
        let mut k = self.scope_key.clone();
        k.append(":");
        push_decimal(&mut k, self.version);
        k
    }
}

/// Schema version written into newly published policy versions.
pub const POLICY_SCHEMA_VERSION: u16 = 1;

/// Policy version aggregate.
#[derive(Debug, Clone, PartialEq, Eq)]
pub struct PolicyVersion {
    /// Schema version of this record.
    pub schema_version: u16,
    pub id: PolicyVersionId,
    pub scope: PolicyScope,
    pub effective_from_tx_id: u64,
    pub published_by: String,
    pub published_at: u64,
    pub config: PolicyConfig,
    pub status: PolicyVersionStatus,
}

/// Abstract policy version.
pub struct PolicyVersionView {
    pub schema_version: u16,
    pub scope_key: Seq<char>,
    pub version: u64,
    pub scope: PolicyScopeView,
    pub effective_from_tx_id: u64,
    pub published_by: Seq<char>,
    pub published_at: u64,
    pub config: PolicyConfig,
    pub status: PolicyVersionStatus,
}

impl View for PolicyVersion {
    type V = PolicyVersionView;

    open spec fn view(&self) -> PolicyVersionView {
        PolicyVersionView {
            schema_version: self.schema_version,
            scope_key: self.id.scope_key@,
            version: self.id.version,
            scope: self.scope@,
            effective_from_tx_id: self.effective_from_tx_id,
            published_by: self.published_by@,
            published_at: self.published_at,
            config: self.config,
            status: self.status,
        }
    }
}

impl Duplicate for PolicyVersion {
    fn duplicate(&self) -> (r: Self) {
        PolicyVersion {
            schema_version: self.schema_version,
            id: PolicyVersionId { scope_key: self.id.scope_key.clone(), version: self.id.version },
            scope: self.scope.duplicate(),
            effective_from_tx_id: self.effective_from_tx_id,
            published_by: self.published_by.clone(),
            published_at: self.published_at,
            config: self.config.duplicate(),
            status: self.status,
        }
    }
}

impl PolicyVersion {
    /// True when the version is published (not draft, not superseded).
    pub fn is_published(&self) -> (b: bool)
        ensures
            b == (self.status == PolicyVersionStatus::Published),
    {
        match self.status {
            PolicyVersionStatus::Published => true,
            _ => false,
        }
    }

    /// Published and already effective at `current_tx_id`.
    pub fn is_effective_at(&self, current_tx_id: u64) -> (b: bool)
        ensures
            b == (self.status == PolicyVersionStatus::Published && self.effective_from_tx_id
                <= current_tx_id),
    {
        self.is_published() && self.effective_from_tx_id <= current_tx_id
    }
}

} // verus!
