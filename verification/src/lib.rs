//! A verified core for a cross-chain liquid-staking coordinator.
//!
//! The library models the control side of a liquid-staking system that
//! drives a delegated ("puppeteer") account on a remote chain:
//!
//! * a single-slot transaction tracker that enforces at most one remote
//!   operation in flight ([`txstate`]),
//! * the orchestrator that authorizes staking requests, reserves the slot
//!   and builds the remote-call envelope ([`puppeteer`]),
//! * a pure distribution engine that splits a deposit or withdrawal across
//!   a weighted validator set ([`distribution`]), and the strategy that
//!   feeds it from the validator set and the remote account's ledger
//!   ([`strategy`]),
//! * the unbonding-batch lifecycle with its slashing accounting ([`batch`]),
//! * the redemption authority that prices withdrawal vouchers against a
//!   settled batch ([`withdrawal_manager`]),
//! * the read-only query surface of an interceptor over a remote account
//!   ([`interceptor`]),
//! * the data models of the deployment factory and the validator-set
//!   collaborators ([`factory`], [`validators_set`], [`validators_stats`]).
//!
//! All state handles are passed explicitly; persistence and transport stay
//! with the embedding host.

pub mod batch;
pub mod distribution;
pub mod envelope;
pub mod error;
pub mod factory;
pub mod interceptor;
pub mod numbers;
pub mod proto;
pub mod puppeteer;
pub mod strategy;
pub mod sums;
pub mod txstate;
pub mod validators_set;
pub mod validators_stats;
pub mod withdrawal_manager;
