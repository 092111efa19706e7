//! The protobuf payloads of the remote staking operations.
//!
//! The wire encodings come from the Cosmos SDK message definitions; only
//! the encoding calls are trusted, each named by an uninterpreted
//! function of its inputs.

use vstd::prelude::*;
use cosmos_sdk_proto::prost::Message;

verus! {

/// The wire encoding of a staking delegate message with the given
/// delegator, validator, denomination and amount.
pub uninterp spec fn delegate_msg_bytes(
    delegator: Seq<char>,
    validator: Seq<char>,
    denom: Seq<char>,
    amount: u128,
) -> Seq<u8>;

/// The wire encoding of a staking undelegate message with the given
/// delegator, validator, denomination and amount.
pub uninterp spec fn undelegate_msg_bytes(
    delegator: Seq<char>,
    validator: Seq<char>,
    denom: Seq<char>,
    amount: u128,
) -> Seq<u8>;

/// Relies on prost's `Message::encode_to_vec` for
/// `cosmos_sdk_proto::cosmos::staking::v1beta1::MsgDelegate`: the
/// encoding is a deterministic function of the message's fields alone.
#[verifier::external_body]
pub(crate) fn encode_delegate_msg(
    delegator: &String,
    validator: &String,
    denom: &String,
    amount: u128,
) -> (r: Vec<u8>)
    ensures
        r@ == delegate_msg_bytes(delegator@, validator@, denom@, amount),
{
    let msg = cosmos_sdk_proto::cosmos::staking::v1beta1::MsgDelegate {
        delegator_address: delegator.clone(),
        validator_address: validator.clone(),
        amount: Some(cosmos_sdk_proto::cosmos::base::v1beta1::Coin {
            denom: denom.clone(),
            amount: format!("{}", amount),
        }),
    };
    msg.encode_to_vec()
}

/// Relies on prost's `Message::encode_to_vec` for
/// `cosmos_sdk_proto::cosmos::staking::v1beta1::MsgUndelegate`: the
/// encoding is a deterministic function of the message's fields alone.
#[verifier::external_body]
pub(crate) fn encode_undelegate_msg(
    delegator: &String,
    validator: &String,
    denom: &String,
    amount: u128,
) -> (r: Vec<u8>)
    ensures
        r@ == undelegate_msg_bytes(delegator@, validator@, denom@, amount),
{
    let msg = cosmos_sdk_proto::cosmos::staking::v1beta1::MsgUndelegate {
        delegator_address: delegator.clone(),
        validator_address: validator.clone(),
        amount: Some(cosmos_sdk_proto::cosmos::base::v1beta1::Coin {
            denom: denom.clone(),
            amount: format!("{}", amount),
        }),
    };
    msg.encode_to_vec()
}

} // verus!
