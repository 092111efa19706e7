//! The validator-statistics collaborator's message surface.

use vstd::prelude::*;

verus! {

/// What instantiation receives: where and how often to poll.
#[derive(Clone, Debug, PartialEq, Eq)]
pub struct InstantiateMsg {
    pub connection_id: String,
    pub port_id: String,
    pub profile_update_period: u64,
    pub info_update_period: u64,
    pub avg_block_time: u64,
    pub owner: String,
}

/// The collaborator's request surface.
#[derive(Clone, Debug, PartialEq, Eq)]
pub enum ExecuteMsg {
    RegisterStatsQueries { validators: Vec<String> },
}

/// Migration carries nothing.
#[derive(Clone, Copy, Debug, PartialEq, Eq, Structural)]
pub struct MigrateMsg {}

} // verus!
