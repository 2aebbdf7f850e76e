//! Domain errors and their stable codes.
use crate::text::{concat2, owned};
use vstd::prelude::*;

verus! {

/// Every failure the library reports. Variants with a `String` carry a human-readable detail.
#[derive(Debug)]
pub enum Error {
    MiningExhausted,
    InvalidTransaction(String),
    StateError(String),
    SignatureVerification(String),
    DelegatedConsumeRequiresV2,
    DelegationProofMissing,
    ValidAtMissing,
    NonceAccountMissingOrInvalid,
    InvalidValidationContextLiveNowMissing,
    InvalidValidationContextLiveMaxAgeMissing,
    ReferenceTimeFuture,
    ReferenceTimeTooOld,
    DelegationExpiredOrNotYetValid,
    PrincipalBindingFailed(String),
    DelegationIssuerOwnerMismatch,
    DelegationAudienceSignerMismatch,
    CapabilityLimitExceeded,
    DelegationRevoked,
    DelegationScopeMismatch,
    DuplicateSettlementWindow,
    SettlementNotFound,
    SettlementNotProposed,
    SettlementNotFinalized,
    ClaimAmountExceedsPayable,
    ClaimNotPending,
    SettlementConservationViolation,
    DisputeAlreadyOpen,
    DisputeNotFound,
    DisputeNotOpen,
    InvalidPolicyParameters,
    PolicyVersionConflict,
    PolicyNotFound,
    PolicyNotEffective,
    RetroactivePolicyForbidden,
    InvalidEvidenceBundle,
    ReplayMismatch,
    EvidenceNotFound,
    UnsupportedSchemaVersion,
    UnsupportedTxVersion,
    UnsupportedEventVersion,
    ReplayProtocolMismatch,
    MigrationRequired,
}

/// Result type of the library.
pub type Result<T> = core::result::Result<T, Error>;

/// The kind of an error, without its detail text: what contracts speak of.
#[derive(Debug, Clone, Copy, PartialEq, Eq)]
pub enum ErrorKind {
    MiningExhausted,
    InvalidTransaction,
    StateError,
    SignatureVerification,
    DelegatedConsumeRequiresV2,
    DelegationProofMissing,
    ValidAtMissing,
    NonceAccountMissingOrInvalid,
    InvalidValidationContextLiveNowMissing,
    InvalidValidationContextLiveMaxAgeMissing,
    ReferenceTimeFuture,
    ReferenceTimeTooOld,
    DelegationExpiredOrNotYetValid,
    PrincipalBindingFailed,
    DelegationIssuerOwnerMismatch,
    DelegationAudienceSignerMismatch,
    CapabilityLimitExceeded,
    DelegationRevoked,
    DelegationScopeMismatch,
    DuplicateSettlementWindow,
    SettlementNotFound,
    SettlementNotProposed,
    SettlementNotFinalized,
    ClaimAmountExceedsPayable,
    ClaimNotPending,
    SettlementConservationViolation,
    DisputeAlreadyOpen,
    DisputeNotFound,
    DisputeNotOpen,
    InvalidPolicyParameters,
    PolicyVersionConflict,
    PolicyNotFound,
    PolicyNotEffective,
    RetroactivePolicyForbidden,
    InvalidEvidenceBundle,
    ReplayMismatch,
    EvidenceNotFound,
    UnsupportedSchemaVersion,
    UnsupportedTxVersion,
    UnsupportedEventVersion,
    ReplayProtocolMismatch,
    MigrationRequired,
}

impl Error {
    /// The kind of this error.
    pub open spec fn kind(&self) -> ErrorKind {
        match self {
            Error::MiningExhausted => ErrorKind::MiningExhausted,
            Error::InvalidTransaction(_) => ErrorKind::InvalidTransaction,
            Error::StateError(_) => ErrorKind::StateError,
            Error::SignatureVerification(_) => ErrorKind::SignatureVerification,
            Error::DelegatedConsumeRequiresV2 => ErrorKind::DelegatedConsumeRequiresV2,
            Error::DelegationProofMissing => ErrorKind::DelegationProofMissing,
            Error::ValidAtMissing => ErrorKind::ValidAtMissing,
            Error::NonceAccountMissingOrInvalid => ErrorKind::NonceAccountMissingOrInvalid,
            Error::InvalidValidationContextLiveNowMissing => ErrorKind::InvalidValidationContextLiveNowMissing,
            Error::InvalidValidationContextLiveMaxAgeMissing => ErrorKind::InvalidValidationContextLiveMaxAgeMissing,
            Error::ReferenceTimeFuture => ErrorKind::ReferenceTimeFuture,
            Error::ReferenceTimeTooOld => ErrorKind::ReferenceTimeTooOld,
            Error::DelegationExpiredOrNotYetValid => ErrorKind::DelegationExpiredOrNotYetValid,
            Error::PrincipalBindingFailed(_) => ErrorKind::PrincipalBindingFailed,
            Error::DelegationIssuerOwnerMismatch => ErrorKind::DelegationIssuerOwnerMismatch,
            Error::DelegationAudienceSignerMismatch => ErrorKind::DelegationAudienceSignerMismatch,
            Error::CapabilityLimitExceeded => ErrorKind::CapabilityLimitExceeded,
            Error::DelegationRevoked => ErrorKind::DelegationRevoked,
            Error::DelegationScopeMismatch => ErrorKind::DelegationScopeMismatch,
            Error::DuplicateSettlementWindow => ErrorKind::DuplicateSettlementWindow,
            Error::SettlementNotFound => ErrorKind::SettlementNotFound,
            Error::SettlementNotProposed => ErrorKind::SettlementNotProposed,
            Error::SettlementNotFinalized => ErrorKind::SettlementNotFinalized,
            Error::ClaimAmountExceedsPayable => ErrorKind::ClaimAmountExceedsPayable,
            Error::ClaimNotPending => ErrorKind::ClaimNotPending,
            Error::SettlementConservationViolation => ErrorKind::SettlementConservationViolation,
            Error::DisputeAlreadyOpen => ErrorKind::DisputeAlreadyOpen,
            Error::DisputeNotFound => ErrorKind::DisputeNotFound,
            Error::DisputeNotOpen => ErrorKind::DisputeNotOpen,
            Error::InvalidPolicyParameters => ErrorKind::InvalidPolicyParameters,
            Error::PolicyVersionConflict => ErrorKind::PolicyVersionConflict,
            Error::PolicyNotFound => ErrorKind::PolicyNotFound,
            Error::PolicyNotEffective => ErrorKind::PolicyNotEffective,
            Error::RetroactivePolicyForbidden => ErrorKind::RetroactivePolicyForbidden,
            Error::InvalidEvidenceBundle => ErrorKind::InvalidEvidenceBundle,
            Error::ReplayMismatch => ErrorKind::ReplayMismatch,
            Error::EvidenceNotFound => ErrorKind::EvidenceNotFound,
            Error::UnsupportedSchemaVersion => ErrorKind::UnsupportedSchemaVersion,
            Error::UnsupportedTxVersion => ErrorKind::UnsupportedTxVersion,
            Error::UnsupportedEventVersion => ErrorKind::UnsupportedEventVersion,
            Error::ReplayProtocolMismatch => ErrorKind::ReplayProtocolMismatch,
            Error::MigrationRequired => ErrorKind::MigrationRequired,
        }
    }

    /// Stable machine-readable code of an error kind.
    pub open spec fn code_of(k: ErrorKind) -> Seq<char> {
        match k {
            ErrorKind::MiningExhausted => "MINING_EXHAUSTED"@,
            ErrorKind::InvalidTransaction => "INVALID_TRANSACTION"@,
            ErrorKind::StateError => "STATE_ERROR"@,
            ErrorKind::SignatureVerification => "SIGNATURE_VERIFICATION_FAILED"@,
            ErrorKind::DelegatedConsumeRequiresV2 => "DELEGATED_CONSUME_REQUIRES_V2"@,
            ErrorKind::DelegationProofMissing => "DELEGATION_PROOF_MISSING"@,
            ErrorKind::ValidAtMissing => "VALID_AT_MISSING"@,
            ErrorKind::NonceAccountMissingOrInvalid => "NONCE_ACCOUNT_MISSING_OR_INVALID"@,
            ErrorKind::InvalidValidationContextLiveNowMissing => "VALIDATION_CONTEXT_LIVE_NOW_MISSING"@,
            ErrorKind::InvalidValidationContextLiveMaxAgeMissing => "VALIDATION_CONTEXT_LIVE_MAX_AGE_MISSING"@,
            ErrorKind::ReferenceTimeFuture => "REFERENCE_TIME_FUTURE"@,
            ErrorKind::ReferenceTimeTooOld => "REFERENCE_TIME_TOO_OLD"@,
            ErrorKind::DelegationExpiredOrNotYetValid => "DELEGATION_EXPIRED_OR_NOT_YET_VALID"@,
            ErrorKind::PrincipalBindingFailed => "PRINCIPAL_BINDING_FAILED"@,
            ErrorKind::DelegationIssuerOwnerMismatch => "DELEGATION_ISSUER_OWNER_MISMATCH"@,
            ErrorKind::DelegationAudienceSignerMismatch => "DELEGATION_AUDIENCE_SIGNER_MISMATCH"@,
            ErrorKind::CapabilityLimitExceeded => "CAPABILITY_LIMIT_EXCEEDED"@,
            ErrorKind::DelegationRevoked => "DELEGATION_REVOKED"@,
            ErrorKind::DelegationScopeMismatch => "DELEGATION_SCOPE_MISMATCH"@,
            ErrorKind::DuplicateSettlementWindow => "DUPLICATE_SETTLEMENT_WINDOW"@,
            ErrorKind::SettlementNotFound => "SETTLEMENT_NOT_FOUND"@,
            ErrorKind::SettlementNotProposed => "SETTLEMENT_NOT_PROPOSED"@,
            ErrorKind::SettlementNotFinalized => "SETTLEMENT_NOT_FINALIZED"@,
            ErrorKind::ClaimAmountExceedsPayable => "CLAIM_AMOUNT_EXCEEDS_PAYABLE"@,
            ErrorKind::ClaimNotPending => "CLAIM_NOT_PENDING"@,
            ErrorKind::SettlementConservationViolation => "SETTLEMENT_CONSERVATION_VIOLATION"@,
            ErrorKind::DisputeAlreadyOpen => "DISPUTE_ALREADY_OPEN"@,
            ErrorKind::DisputeNotFound => "DISPUTE_NOT_FOUND"@,
            ErrorKind::DisputeNotOpen => "DISPUTE_NOT_OPEN"@,
            ErrorKind::InvalidPolicyParameters => "INVALID_POLICY_PARAMETERS"@,
            ErrorKind::PolicyVersionConflict => "POLICY_VERSION_CONFLICT"@,
            ErrorKind::PolicyNotFound => "POLICY_NOT_FOUND"@,
            ErrorKind::PolicyNotEffective => "POLICY_NOT_EFFECTIVE"@,
            ErrorKind::RetroactivePolicyForbidden => "RETROACTIVE_POLICY_FORBIDDEN"@,
            ErrorKind::InvalidEvidenceBundle => "INVALID_EVIDENCE_BUNDLE"@,
            ErrorKind::ReplayMismatch => "REPLAY_MISMATCH"@,
            ErrorKind::EvidenceNotFound => "EVIDENCE_NOT_FOUND"@,
            ErrorKind::UnsupportedSchemaVersion => "UNSUPPORTED_SCHEMA_VERSION"@,
            ErrorKind::UnsupportedTxVersion => "UNSUPPORTED_TX_VERSION"@,
            ErrorKind::UnsupportedEventVersion => "UNSUPPORTED_EVENT_VERSION"@,
            ErrorKind::ReplayProtocolMismatch => "REPLAY_PROTOCOL_MISMATCH"@,
            ErrorKind::MigrationRequired => "MIGRATION_REQUIRED"@,
        }
    }

    /// Stable code for UI mapping, one per variant.
    pub fn error_code(&self) -> (code: &'static str)
        ensures
            code@ == Self::code_of(self.kind()),
    {
        match self {
            Error::MiningExhausted => "MINING_EXHAUSTED",
            Error::InvalidTransaction(_) => "INVALID_TRANSACTION",
            Error::StateError(_) => "STATE_ERROR",
            Error::SignatureVerification(_) => "SIGNATURE_VERIFICATION_FAILED",
            Error::DelegatedConsumeRequiresV2 => "DELEGATED_CONSUME_REQUIRES_V2",
            Error::DelegationProofMissing => "DELEGATION_PROOF_MISSING",
            Error::ValidAtMissing => "VALID_AT_MISSING",
            Error::NonceAccountMissingOrInvalid => "NONCE_ACCOUNT_MISSING_OR_INVALID",
            Error::InvalidValidationContextLiveNowMissing => "VALIDATION_CONTEXT_LIVE_NOW_MISSING",
            Error::InvalidValidationContextLiveMaxAgeMissing => "VALIDATION_CONTEXT_LIVE_MAX_AGE_MISSING",
            Error::ReferenceTimeFuture => "REFERENCE_TIME_FUTURE",
            Error::ReferenceTimeTooOld => "REFERENCE_TIME_TOO_OLD",
            Error::DelegationExpiredOrNotYetValid => "DELEGATION_EXPIRED_OR_NOT_YET_VALID",
            Error::PrincipalBindingFailed(_) => "PRINCIPAL_BINDING_FAILED",
            Error::DelegationIssuerOwnerMismatch => "DELEGATION_ISSUER_OWNER_MISMATCH",
            Error::DelegationAudienceSignerMismatch => "DELEGATION_AUDIENCE_SIGNER_MISMATCH",
            Error::CapabilityLimitExceeded => "CAPABILITY_LIMIT_EXCEEDED",
            Error::DelegationRevoked => "DELEGATION_REVOKED",
            Error::DelegationScopeMismatch => "DELEGATION_SCOPE_MISMATCH",
            Error::DuplicateSettlementWindow => "DUPLICATE_SETTLEMENT_WINDOW",
            Error::SettlementNotFound => "SETTLEMENT_NOT_FOUND",
            Error::SettlementNotProposed => "SETTLEMENT_NOT_PROPOSED",
            Error::SettlementNotFinalized => "SETTLEMENT_NOT_FINALIZED",
            Error::ClaimAmountExceedsPayable => "CLAIM_AMOUNT_EXCEEDS_PAYABLE",
            Error::ClaimNotPending => "CLAIM_NOT_PENDING",
            Error::SettlementConservationViolation => "SETTLEMENT_CONSERVATION_VIOLATION",
            Error::DisputeAlreadyOpen => "DISPUTE_ALREADY_OPEN",
            Error::DisputeNotFound => "DISPUTE_NOT_FOUND",
            Error::DisputeNotOpen => "DISPUTE_NOT_OPEN",
            Error::InvalidPolicyParameters => "INVALID_POLICY_PARAMETERS",
            Error::PolicyVersionConflict => "POLICY_VERSION_CONFLICT",
            Error::PolicyNotFound => "POLICY_NOT_FOUND",
            Error::PolicyNotEffective => "POLICY_NOT_EFFECTIVE",
            Error::RetroactivePolicyForbidden => "RETROACTIVE_POLICY_FORBIDDEN",
            Error::InvalidEvidenceBundle => "INVALID_EVIDENCE_BUNDLE",
            Error::ReplayMismatch => "REPLAY_MISMATCH",
            Error::EvidenceNotFound => "EVIDENCE_NOT_FOUND",
            Error::UnsupportedSchemaVersion => "UNSUPPORTED_SCHEMA_VERSION",
            Error::UnsupportedTxVersion => "UNSUPPORTED_TX_VERSION",
            Error::UnsupportedEventVersion => "UNSUPPORTED_EVENT_VERSION",
            Error::ReplayProtocolMismatch => "REPLAY_PROTOCOL_MISMATCH",
            Error::MigrationRequired => "MIGRATION_REQUIRED",
        }
    }
}

/// `r` fails with kind `k` where `e` is `Some(k)`, and succeeds where `e` is `None`.
pub open spec fn outcome<T>(r: Result<T>, e: Option<ErrorKind>) -> bool {
    match e {
        None => r is Ok,
        Some(k) => r matches Err(x) && x.kind() == k,
    }
}

/// `r` is `Ok(v)` or fails with kind `k`, as `expected` says.
pub open spec fn same_outcome<T>(r: Result<T>, expected: core::result::Result<T, ErrorKind>) -> bool {
    match expected {
        Ok(v) => r matches Ok(x) && x == v,
        Err(k) => r matches Err(x) && x.kind() == k,
    }
}

/// The display text of an error: its description, then the detail where it carries one.
pub open spec fn message_of(e: Error) -> Seq<char> {
    match e {
        Error::MiningExhausted => "Mining failed: exhausted nonce range without finding valid hash"@,
        Error::InvalidTransaction(m) => "Invalid transaction: "@ + m@,
        Error::StateError(m) => "State error: "@ + m@,
        Error::SignatureVerification(m) => "Signature verification failed: "@ + m@,
        Error::DelegatedConsumeRequiresV2 => "Delegated Consume requires payload_version=2"@,
        Error::DelegationProofMissing => "Delegation proof missing"@,
        Error::ValidAtMissing => "valid_at (reference time) missing for delegated consume"@,
        Error::NonceAccountMissingOrInvalid => "nonce_account missing or invalid for delegated consume"@,
        Error::InvalidValidationContextLiveNowMissing => "Live validation context requires now"@,
        Error::InvalidValidationContextLiveMaxAgeMissing => "Live validation context requires max_age"@,
        Error::ReferenceTimeFuture => "Reference time (valid_at) is in the future"@,
        Error::ReferenceTimeTooOld => "Reference time (valid_at) too old (exceeds max_age)"@,
        Error::DelegationExpiredOrNotYetValid => "Delegation expired or not yet valid"@,
        Error::PrincipalBindingFailed(m) => "Principal binding failed: "@ + m@,
        Error::DelegationIssuerOwnerMismatch => "Delegation issuer does not match owner"@,
        Error::DelegationAudienceSignerMismatch => "Delegation audience does not match signer"@,
        Error::CapabilityLimitExceeded => "Capability limit exceeded"@,
        Error::DelegationRevoked => "Delegation revoked"@,
        Error::DelegationScopeMismatch => "Delegation scope mismatch: proof service_id or ability does not match transaction"@,
        Error::DuplicateSettlementWindow => "Duplicate settlement window: same (owner, service_id, window_id) already exists"@,
        Error::SettlementNotFound => "Settlement not found"@,
        Error::SettlementNotProposed => "Settlement not proposed or already finalized"@,
        Error::SettlementNotFinalized => "Settlement not finalized"@,
        Error::ClaimAmountExceedsPayable => "Claim amount exceeds payable"@,
        Error::ClaimNotPending => "Claim not found or not pending"@,
        Error::SettlementConservationViolation => "Invalid settlement: gross_spent != operator_share + protocol_fee + reserve"@,
        Error::DisputeAlreadyOpen => "Dispute already open for this settlement"@,
        Error::DisputeNotFound => "Dispute not found"@,
        Error::DisputeNotOpen => "Dispute not open (already resolved)"@,
        Error::InvalidPolicyParameters => "Invalid policy parameters (e.g. bps sum != 10000 or dispute_window_secs == 0)"@,
        Error::PolicyVersionConflict => "Policy version conflict (duplicate scope:version)"@,
        Error::PolicyNotFound => "Policy not found"@,
        Error::PolicyNotEffective => "Policy not effective at this tx_id"@,
        Error::RetroactivePolicyForbidden => "Retroactive policy forbidden (effective_from_tx_id < next_tx_id)"@,
        Error::InvalidEvidenceBundle => "Invalid evidence bundle (shape or required fields)"@,
        Error::ReplayMismatch => "Replay result does not match settlement totals or replay_hash"@,
        Error::EvidenceNotFound => "Evidence or bundle not found"@,
        Error::UnsupportedSchemaVersion => "Unsupported schema version (reader does not support this record version)"@,
        Error::UnsupportedTxVersion => "Unsupported transaction version"@,
        Error::UnsupportedEventVersion => "Unsupported event version"@,
        Error::ReplayProtocolMismatch => "Replay protocol version mismatch (hash/serialization contract changed)"@,
        Error::MigrationRequired => "Migration required (data must be upgraded before use)"@,
    }
}

impl Error {
    /// The display text: the description, then the detail where the error carries one.
    pub fn message(&self) -> (r: String)
        ensures
            r@ == message_of(*self),
    {
        match self {
            Error::MiningExhausted => owned("Mining failed: exhausted nonce range without finding valid hash"),
            Error::InvalidTransaction(m) => {
                proof {
                    reveal_strlit("Invalid transaction: ");
                }
                concat2("Invalid transaction: ", m.as_str())
            },
            Error::StateError(m) => {
                proof {
                    reveal_strlit("State error: ");
                }
                concat2("State error: ", m.as_str())
            },
            Error::SignatureVerification(m) => {
                proof {
                    reveal_strlit("Signature verification failed: ");
                }
                concat2("Signature verification failed: ", m.as_str())
            },
            Error::DelegatedConsumeRequiresV2 => owned("Delegated Consume requires payload_version=2"),
            Error::DelegationProofMissing => owned("Delegation proof missing"),
            Error::ValidAtMissing => owned("valid_at (reference time) missing for delegated consume"),
            Error::NonceAccountMissingOrInvalid => owned("nonce_account missing or invalid for delegated consume"),
            Error::InvalidValidationContextLiveNowMissing => owned("Live validation context requires now"),
            Error::InvalidValidationContextLiveMaxAgeMissing => owned("Live validation context requires max_age"),
            Error::ReferenceTimeFuture => owned("Reference time (valid_at) is in the future"),
            Error::ReferenceTimeTooOld => owned("Reference time (valid_at) too old (exceeds max_age)"),
            Error::DelegationExpiredOrNotYetValid => owned("Delegation expired or not yet valid"),
            Error::PrincipalBindingFailed(m) => {
                proof {
                    reveal_strlit("Principal binding failed: ");
                }
                concat2("Principal binding failed: ", m.as_str())
            },
            Error::DelegationIssuerOwnerMismatch => owned("Delegation issuer does not match owner"),
            Error::DelegationAudienceSignerMismatch => owned("Delegation audience does not match signer"),
            Error::CapabilityLimitExceeded => owned("Capability limit exceeded"),
            Error::DelegationRevoked => owned("Delegation revoked"),
            Error::DelegationScopeMismatch => owned("Delegation scope mismatch: proof service_id or ability does not match transaction"),
            Error::DuplicateSettlementWindow => owned("Duplicate settlement window: same (owner, service_id, window_id) already exists"),
            Error::SettlementNotFound => owned("Settlement not found"),
            Error::SettlementNotProposed => owned("Settlement not proposed or already finalized"),
            Error::SettlementNotFinalized => owned("Settlement not finalized"),
            Error::ClaimAmountExceedsPayable => owned("Claim amount exceeds payable"),
            Error::ClaimNotPending => owned("Claim not found or not pending"),
            Error::SettlementConservationViolation => owned("Invalid settlement: gross_spent != operator_share + protocol_fee + reserve"),
            Error::DisputeAlreadyOpen => owned("Dispute already open for this settlement"),
            Error::DisputeNotFound => owned("Dispute not found"),
            Error::DisputeNotOpen => owned("Dispute not open (already resolved)"),
            Error::InvalidPolicyParameters => owned("Invalid policy parameters (e.g. bps sum != 10000 or dispute_window_secs == 0)"),
            Error::PolicyVersionConflict => owned("Policy version conflict (duplicate scope:version)"),
            Error::PolicyNotFound => owned("Policy not found"),
            Error::PolicyNotEffective => owned("Policy not effective at this tx_id"),
            Error::RetroactivePolicyForbidden => owned("Retroactive policy forbidden (effective_from_tx_id < next_tx_id)"),
            Error::InvalidEvidenceBundle => owned("Invalid evidence bundle (shape or required fields)"),
            Error::ReplayMismatch => owned("Replay result does not match settlement totals or replay_hash"),
            Error::EvidenceNotFound => owned("Evidence or bundle not found"),
            Error::UnsupportedSchemaVersion => owned("Unsupported schema version (reader does not support this record version)"),
            Error::UnsupportedTxVersion => owned("Unsupported transaction version"),
            Error::UnsupportedEventVersion => owned("Unsupported event version"),
            Error::ReplayProtocolMismatch => owned("Replay protocol version mismatch (hash/serialization contract changed)"),
            Error::MigrationRequired => owned("Migration required (data must be upgraded before use)"),
        }
    }
}

} // verus!
