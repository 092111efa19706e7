//! The remote-call envelope: what one dispatched interchain transaction
//! carries to the transport layer.

use vstd::prelude::*;

verus! {

/// An amount of one denomination of the local settlement currency.
#[derive(Clone, Debug, PartialEq, Eq)]
pub struct Coin {
    pub denom: String,
    pub amount: u128,
}

/// A protobuf-encoded message together with its type URL.
#[derive(Clone, Debug, PartialEq, Eq)]
pub struct AnyMsg {
    pub type_url: String,
    pub value: Vec<u8>,
}

/// The fee schedule attached to every dispatched remote call.
#[derive(Clone, Debug, PartialEq, Eq)]
pub struct IbcFee {
    pub recv_fee: Vec<Coin>,
    pub ack_fee: Vec<Coin>,
    pub timeout_fee: Vec<Coin>,
}

/// One remote-call envelope: the messages to execute through the
/// delegated account, the channel they travel on, their fee schedule and
/// their relative timeout in seconds.
#[derive(Clone, Debug, PartialEq, Eq)]
pub struct SubmitTx {
    pub connection_id: String,
    pub interchain_account_id: String,
    pub msgs: Vec<AnyMsg>,
    pub memo: String,
    pub timeout: u64,
    pub fee: IbcFee,
}

/// A coin list as plain values.
pub open spec fn coins_view(s: Seq<Coin>) -> Seq<(Seq<char>, u128)> {
    Seq::new(s.len(), |i: int| (s[i].denom@, s[i].amount))
}

/// A fee schedule as plain values.
pub open spec fn fee_view(f: IbcFee) -> (
    Seq<(Seq<char>, u128)>,
    Seq<(Seq<char>, u128)>,
    Seq<(Seq<char>, u128)>,
) {
    (coins_view(f.recv_fee@), coins_view(f.ack_fee@), coins_view(f.timeout_fee@))
}

/// An empty fee schedule.
pub fn empty_fee() -> (f: IbcFee)
    ensures
        f.recv_fee@.len() == 0,
        f.ack_fee@.len() == 0,
        f.timeout_fee@.len() == 0,
{
    IbcFee { recv_fee: Vec::new(), ack_fee: Vec::new(), timeout_fee: Vec::new() }
}

/// Copies a coin list, keeping denominations and amounts.
pub fn clone_coins(coins: &Vec<Coin>) -> (r: Vec<Coin>)
    ensures
        coins_view(r@) == coins_view(coins@),
{
    let mut r: Vec<Coin> = Vec::new();
    let mut i: usize = 0;
    while i < coins.len()
        invariant
            0 <= i <= coins@.len(),
            r@.len() == i,
            forall|k: int|
                0 <= k < i ==> (#[trigger] r@[k]).denom@ == coins@[k].denom@ && r@[k].amount
                    == coins@[k].amount,
        decreases coins@.len() - i,
    {
        r.push(Coin { denom: coins[i].denom.clone(), amount: coins[i].amount });
        i = i + 1;
    }
    proof {
        assert(coins_view(r@) =~= coins_view(coins@));
    }
    r
}

/// Copies a fee schedule, keeping every coin.
pub fn clone_fee(fee: &IbcFee) -> (r: IbcFee)
    ensures
        fee_view(r) == fee_view(*fee),
{
    let r = IbcFee {
        recv_fee: clone_coins(&fee.recv_fee),
        ack_fee: clone_coins(&fee.ack_fee),
        timeout_fee: clone_coins(&fee.timeout_fee),
    };
    r
}

} // verus!
