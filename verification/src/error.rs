//! The error taxonomy shared by all handlers.

use vstd::prelude::*;
use vstd::string::StringExecFns;

verus! {

/// Why a request was rejected. Authorization and precondition failures
/// are returned synchronously and leave state untouched; remote failures
/// are recorded in the transaction slot and surfaced through it.
#[derive(Clone, Debug, PartialEq, Eq)]
pub enum ContractError {
    /// The sender is not entitled to the operation.
    Unauthorized,
    /// The single remote-transaction slot is already reserved.
    AlreadyInProgress,
    /// No remote delegated account is registered yet.
    IcaNotRegistered,
    /// The voucher's extension data is missing or malformed.
    InvalidNFT { reason: String },
    /// The referenced unbonding batch has not settled as unbonded.
    BatchIsNotUnbonded,
    /// The referenced batch settled without a recorded slashing effect.
    BatchSlashingEffectIsEmpty,
    /// The validator set's total weight is zero.
    DistributionError,
    /// The remote side reported a failure or the call timed out.
    RemoteOperationFailed { message: String },
}

impl ContractError {
    /// A short description of the error, one line per variant.
    pub fn message(&self) -> (r: String)
        ensures
            self is Unauthorized ==> r@ == "Sender is not allowed"@,
            self is AlreadyInProgress ==> r@ == "Transaction txState is not equal to expected: Idle"@,
            self is IcaNotRegistered ==> r@ == "Ica is not registered"@,
            self matches ContractError::InvalidNFT { reason } ==> r@ == reason@,
            self is BatchIsNotUnbonded ==> r@ == "Batch is not unbonded"@,
            self is BatchSlashingEffectIsEmpty ==> r@ == "Batch slashing effect is empty"@,
            self matches ContractError::RemoteOperationFailed { message } ==> r@ == message@,
            self is DistributionError ==> r@ == "Total weight is zero"@,
    {
        match self {
            ContractError::Unauthorized => "Sender is not allowed".to_owned(),
            ContractError::AlreadyInProgress => {
                "Transaction txState is not equal to expected: Idle".to_owned()
            },
            ContractError::IcaNotRegistered => "Ica is not registered".to_owned(),
            ContractError::InvalidNFT { reason } => reason.clone(),
            ContractError::BatchIsNotUnbonded => "Batch is not unbonded".to_owned(),
            ContractError::BatchSlashingEffectIsEmpty => {
                "Batch slashing effect is empty".to_owned()
            },
            ContractError::DistributionError => "Total weight is zero".to_owned(),
            ContractError::RemoteOperationFailed { message } => message.clone(),
        }
    }
}

/// One event attribute: a key/value pair reported back to the host.
#[derive(Clone, Debug, PartialEq, Eq)]
pub struct Attribute {
    pub key: String,
    pub value: String,
}

/// Builds an attribute from a key literal and an owned value.
pub fn attr(key: &str, value: String) -> (r: Attribute)
    ensures
        r.key@ == key@,
        r.value == value,
{
    Attribute { key: key.to_owned(), value }
}

} // verus!
