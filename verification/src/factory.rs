//! The factory's data model: what it deploys, with which options, and the
//! addresses it ends up tracking.

use vstd::prelude::*;
use crate::validators_set::{ValidatorData, ValidatorInfoUpdate};

verus! {

/// The code identifiers of everything the factory deploys.
#[derive(Clone, Copy, Debug, PartialEq, Eq, Structural)]
pub struct CodeIds {
    pub token_code_id: u64,
    pub core_code_id: u64,
    pub puppeteer_code_id: u64,
    pub withdrawal_voucher_code_id: u64,
    pub withdrawal_manager_code_id: u64,
    pub strategy_code_id: u64,
    pub validators_set_code_id: u64,
    pub distribution_code_id: u64,
    pub rewards_manager_code_id: u64,
}

/// The remote chain options handed to the deployed contracts.
#[derive(Clone, Debug, PartialEq, Eq)]
pub struct RemoteOpts {
    pub denom: String,
    pub update_period: u64,
    pub connection_id: String,
    pub port_id: String,
    pub transfer_channel_id: String,
}

/// One denomination unit of the minted token's metadata.
#[derive(Clone, Debug, PartialEq, Eq)]
pub struct DenomUnit {
    pub denom: String,
    pub exponent: u32,
    pub aliases: Vec<String>,
}

/// The minted token's metadata.
#[derive(Clone, Debug, PartialEq, Eq)]
pub struct DenomMetadata {
    pub description: String,
    pub denom_units: Vec<DenomUnit>,
    pub base: String,
    pub display: String,
    pub name: String,
    pub symbol: String,
    pub uri: Option<String>,
    pub uri_hash: Option<String>,
}

/// The factory's configuration.
#[derive(Clone, Debug, PartialEq, Eq)]
pub struct Config {
    pub code_ids: CodeIds,
    pub remote_opts: RemoteOpts,
    pub owner: String,
    pub salt: String,
    pub subdenom: String,
    pub token_metadata: DenomMetadata,
}

/// The addresses of everything the factory deployed.
#[derive(Clone, Debug, PartialEq, Eq)]
pub struct State {
    pub token_contract: String,
    pub core_contract: String,
    pub puppeteer_contract: String,
    pub withdrawal_voucher_contract: String,
    pub withdrawal_manager_contract: String,
    pub strategy_contract: String,
    pub validators_set_contract: String,
    pub distribution_contract: String,
    pub rewards_manager_contract: String,
}

/// What instantiation receives.
#[derive(Clone, Debug, PartialEq, Eq)]
pub struct InstantiateMsg {
    pub code_ids: CodeIds,
    pub remote_opts: RemoteOpts,
    pub salt: String,
    pub subdenom: String,
}

/// The callbacks the factory asks of itself.
#[derive(Clone, Copy, Debug, PartialEq, Eq, Structural)]
pub enum CallbackMsg {
    PostInit {},
}

/// The core contract's timing parameters, fixed at initialization.
#[derive(Clone, Copy, Debug, PartialEq, Eq, Structural)]
pub struct CoreParams {
    pub idle_min_interval: u64,
    pub puppeteer_timeout: u64,
    pub unbonding_period: u64,
    pub unbonding_safe_period: u64,
    pub unbond_batch_switch_time: u64,
}

/// The orchestrator's fee schedule, as the factory configures it.
#[derive(Clone, Copy, Debug, PartialEq, Eq, Structural)]
pub struct FeesMsg {
    pub recv_fee: u128,
    pub ack_fee: u128,
    pub timeout_fee: u128,
    pub register_fee: u128,
}

/// A partial update of the core contract's timing parameters.
#[derive(Clone, Copy, Debug, PartialEq, Eq, Structural)]
pub struct CoreConfigOptional {
    pub idle_min_interval: Option<u64>,
    pub puppeteer_timeout: Option<u64>,
    pub unbonding_period: Option<u64>,
    pub unbonding_safe_period: Option<u64>,
    pub unbond_batch_switch_time: Option<u64>,
}

/// A partial update of the validator-set collaborator's configuration.
#[derive(Clone, Debug, PartialEq, Eq)]
pub struct ValidatorsSetConfigOptional {
    pub core: Option<String>,
    pub stats_contract: Option<String>,
}

/// Which deployed contract a configuration update goes to.
#[derive(Clone, Debug, PartialEq, Eq)]
pub enum UpdateConfigMsg {
    Core(CoreConfigOptional),
    ValidatorsSet(ValidatorsSetConfigOptional),
    PuppeteerFees(FeesMsg),
}

/// A validator-set operation proxied through the factory.
#[derive(Clone, Debug, PartialEq, Eq)]
pub enum ValidatorSetMsg {
    UpdateValidators { validators: Vec<ValidatorData> },
    UpdateValidator { validator: ValidatorData },
    UpdateValidatorInfo { validators: Vec<ValidatorInfoUpdate> },
}

/// An operation proxied through the factory to a deployed contract.
#[derive(Clone, Debug, PartialEq, Eq)]
pub enum ProxyMsg {
    ValidatorSet(ValidatorSetMsg),
}

/// The factory's request surface.
#[derive(Clone, Debug, PartialEq, Eq)]
pub enum ExecuteMsg {
    Init { base_denom: String, core_params: CoreParams },
    Callback(CallbackMsg),
    UpdateConfig(UpdateConfigMsg),
    Proxy(ProxyMsg),
}

/// Migration carries nothing.
#[derive(Clone, Copy, Debug, PartialEq, Eq, Structural)]
pub struct MigrateMsg {}

/// The factory's query surface.
#[derive(Clone, Copy, Debug, PartialEq, Eq, Structural)]
pub enum QueryMsg {
    State {},
}

} // verus!
