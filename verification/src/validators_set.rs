//! The validator-set collaborator's data model and message surface. Its
//! handlers are plain field setters maintained by the operator; only the
//! data shapes matter to the rest of the system.

use vstd::prelude::*;
use crate::numbers::FixedRatio;

verus! {

/// The collaborator's configuration: who may drive it and where validator
/// statistics come from.
#[derive(Clone, Debug, PartialEq, Eq)]
pub struct Config {
    pub core: String,
    pub stats_contract: String,
}

/// What instantiation receives.
#[derive(Clone, Debug, PartialEq, Eq)]
pub struct InstantiateMsg {
    pub core: String,
    pub stats_contract: String,
}

/// One validator as the operator declares it: its address and its target
/// share of the stake.
#[derive(Clone, Debug, PartialEq, Eq)]
pub struct ValidatorData {
    pub valoper_address: String,
    pub weight: u64,
}

/// One validator's observed statistics update.
#[derive(Clone, Debug, PartialEq, Eq)]
pub struct ValidatorInfoUpdate {
    pub valoper_address: String,
    pub last_processed_remote_height: Option<u64>,
    pub last_processed_local_height: Option<u64>,
    pub last_validated_height: Option<u64>,
    pub last_commission_in_range: Option<u64>,
    pub uptime: FixedRatio,
    pub tombstone: bool,
    pub jailed_number: Option<u64>,
}

/// One validator as tracked: the declared data plus the observed
/// statistics.
#[derive(Clone, Debug, PartialEq, Eq)]
pub struct ValidatorInfo {
    pub valoper_address: String,
    pub weight: u64,
    pub last_processed_remote_height: Option<u64>,
    pub last_processed_local_height: Option<u64>,
    pub last_validated_height: Option<u64>,
    pub last_commission_in_range: Option<u64>,
    pub uptime: FixedRatio,
    pub tombstone: bool,
    pub jailed_number: Option<u64>,
}

/// The collaborator's request surface.
#[derive(Clone, Debug, PartialEq, Eq)]
pub enum ExecuteMsg {
    UpdateConfig { core: Option<String>, stats_contract: Option<String> },
    UpdateValidators { validators: Vec<ValidatorData> },
    UpdateValidator { validator: ValidatorData },
    UpdateValidatorInfo { validators: Vec<ValidatorInfoUpdate> },
}

/// The collaborator's query surface.
#[derive(Clone, Debug, PartialEq, Eq)]
pub enum QueryMsg {
    Config {},
    Validator { valoper: String },
    Validators {},
}

/// Migration carries nothing.
#[derive(Clone, Copy, Debug, PartialEq, Eq, Structural)]
pub struct MigrateMsg {}

} // verus!
