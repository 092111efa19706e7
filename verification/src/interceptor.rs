//! The interceptor base: the state a remote-account interceptor persists
//! and the read-only query surface over it.
//!
//! The base is generic in the concrete contract's configuration type `T`
//! and its settled-transaction record type `C`; queries hand back
//! references into the stored state, so what a query returns is exactly a
//! function of the state.

use vstd::prelude::*;
use crate::envelope::Coin;

verus! {

/// The interceptor's own record: the delegated account's address once
/// registration completed, and how far ingestion has advanced.
#[derive(Clone, Debug, PartialEq, Eq)]
pub struct State {
    pub ica: Option<String>,
    pub last_processed_height: Option<u64>,
}

/// One transfer observed for the tracked recipient.
#[derive(Clone, Debug, PartialEq, Eq)]
pub struct Transfer {
    pub recipient: String,
    pub sender: String,
    pub denom: String,
    pub amount: u128,
}

/// One delegation of the remote account as last observed.
#[derive(Clone, Debug, PartialEq, Eq)]
pub struct AccountDelegation {
    pub delegator: String,
    pub validator: String,
    pub amount: Coin,
}

/// The delegation ledger together with the height it was read at.
#[derive(Clone, Copy, Debug, PartialEq, Eq)]
pub struct DelegationsResponse<'a> {
    pub delegations: &'a Vec<AccountDelegation>,
    pub last_updated_height: u64,
}

/// The read-only query surface.
#[derive(Clone, Copy, Debug, PartialEq, Eq)]
pub enum QueryMsg {
    State {},
    Config {},
    Transactions {},
    InterchainTransactions {},
    Delegations {},
}

/// What each query answers with.
#[derive(Clone, Copy, Debug, PartialEq, Eq)]
pub enum QueryResponse<'a, T, C> {
    State(&'a State),
    Config(&'a T),
    Transactions(&'a Vec<Transfer>),
    InterchainTransactions(&'a Vec<C>),
    Delegations(DelegationsResponse<'a>),
}

/// The interceptor base: configuration, its own state, the observed
/// transfers, the settled transactions, and the delegation ledger with
/// its read height.
#[derive(Clone, Debug, PartialEq, Eq)]
pub struct InterchainIntercaptorBase<T, C> {
    pub config: T,
    pub state: State,
    pub recipient_txs: Vec<Transfer>,
    pub transactions: Vec<C>,
    pub delegations: Vec<AccountDelegation>,
    pub last_updated_height: u64,
}

/// The one answer a query has on a given state: each message reads
/// exactly its part of the state.
pub open spec fn query_answers<'a, T, C>(
    s: &'a InterchainIntercaptorBase<T, C>,
    msg: QueryMsg,
    r: QueryResponse<'a, T, C>,
) -> bool {
    match msg {
        QueryMsg::State {} => r matches QueryResponse::State(st) && *st == s.state,
        QueryMsg::Config {} => r matches QueryResponse::Config(c) && *c == s.config,
        QueryMsg::Transactions {} => r matches QueryResponse::Transactions(t) && *t
            == s.recipient_txs,
        QueryMsg::InterchainTransactions {} => r matches QueryResponse::InterchainTransactions(
            t,
        ) && *t == s.transactions,
        QueryMsg::Delegations {} => r matches QueryResponse::Delegations(d) && *d.delegations
            == s.delegations && d.last_updated_height == s.last_updated_height,
    }
}

impl<T, C> InterchainIntercaptorBase<T, C> {
    /// Answers one query from the stored state alone.
    pub fn query<'a>(&'a self, msg: QueryMsg) -> (r: QueryResponse<'a, T, C>)
        ensures
            query_answers(self, msg, r),
    {
        match msg {
            QueryMsg::State {} => self.query_state(),
            QueryMsg::Config {} => self.query_config(),
            QueryMsg::Transactions {} => self.query_transactions(),
            QueryMsg::InterchainTransactions {} => self.query_done_transactions(),
            QueryMsg::Delegations {} => QueryResponse::Delegations(self.query_delegations()),
        }
    }

    /// The delegation ledger with its read height.
    pub fn query_delegations<'a>(&'a self) -> (r: DelegationsResponse<'a>)
        ensures
            *r.delegations == self.delegations,
            r.last_updated_height == self.last_updated_height,
    {
        DelegationsResponse {
            delegations: &self.delegations,
            last_updated_height: self.last_updated_height,
        }
    }

    /// The interceptor's own state.
    pub fn query_state<'a>(&'a self) -> (r: QueryResponse<'a, T, C>)
        ensures
            query_answers(self, QueryMsg::State {}, r),
    {
        QueryResponse::State(&self.state)
    }

    /// The stored configuration.
    pub fn query_config<'a>(&'a self) -> (r: QueryResponse<'a, T, C>)
        ensures
            query_answers(self, QueryMsg::Config {}, r),
    {
        QueryResponse::Config(&self.config)
    }

    /// The transfers observed for the tracked recipient.
    pub fn query_transactions<'a>(&'a self) -> (r: QueryResponse<'a, T, C>)
        ensures
            query_answers(self, QueryMsg::Transactions {}, r),
    {
        QueryResponse::Transactions(&self.recipient_txs)
    }

    /// The settled interchain transactions.
    pub fn query_done_transactions<'a>(&'a self) -> (r: QueryResponse<'a, T, C>)
        ensures
            query_answers(self, QueryMsg::InterchainTransactions {}, r),
    {
        QueryResponse::InterchainTransactions(&self.transactions)
    }
}

/// Queries are idempotent: without a mutation in between, two answers to
/// the same query on the same state are identical.
pub proof fn lemma_query_idempotent<'a, T, C>(
    s: &'a InterchainIntercaptorBase<T, C>,
    msg: QueryMsg,
    r1: QueryResponse<'a, T, C>,
    r2: QueryResponse<'a, T, C>,
)
    requires
        query_answers(s, msg, r1),
        query_answers(s, msg, r2),
    ensures
        r1 == r2,
{
}

} // verus!
