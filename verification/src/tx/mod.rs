//! Transactions, their canonical bytes, delegation proofs and validation.
pub mod delegation;
pub mod encode;
pub mod transaction;
pub mod validation;

pub use transaction::{DisputeVerdict, Pricing, SignedTx, Transaction};
pub use validation::{
    build_signed_proof, capability_id, compute_cost, delegation_claims_to_sign,
    principal_to_chain_address, validate, validate_close_meter, validate_consume, validate_mint,
    validate_open_meter, validate_revoke_delegation, DelegationProofMinimal, SignedDelegationProof,
    ValidationContext, ValidationMode,
};
