//! The redemption authority: pricing a withdrawal voucher against its
//! settled batch and paying the claim out.
//!
//! A claim arrives as a voucher transfer from the voucher collaborator.
//! The voucher's extension names the batch and the expected amount; the
//! payout is the expected amount scaled by the batch's realized slashing
//! ratio. Looking the voucher and the batch up is the host's part; the
//! checks and the pricing are here.

use vstd::prelude::*;
use vstd::string::StringExecFns;
use crate::batch::{UnbondBatch, UnbondBatchStatus};
use crate::error::{Attribute, ContractError, attr};
use crate::numbers::{
    RATIO_FRACTIONAL, all_digits, dec_digits, dec_value, format_u128, parse_u128,
};

verus! {

/// The redemption authority's configuration.
#[derive(Clone, Debug, PartialEq, Eq)]
pub struct Config {
    pub core_contract: String,
    pub withdrawal_voucher_contract: String,
    pub base_denom: String,
    pub owner: String,
}

/// What instantiation receives.
#[derive(Clone, Debug, PartialEq, Eq)]
pub struct InstantiateMsg {
    pub owner: String,
    pub core_contract: String,
    pub voucher_contract: String,
    pub base_denom: String,
}

/// The voucher transfer hook's payload: who sent the voucher in and which
/// token it is.
#[derive(Clone, Debug, PartialEq, Eq)]
pub struct Cw721ReceiveMsg {
    pub sender: String,
    pub token_id: String,
    pub msg: Vec<u8>,
}

/// The claim data a voucher carries: the batch it belongs to and the
/// amount it expects, as minted.
#[derive(Clone, Debug, PartialEq, Eq)]
pub struct VoucherExtension {
    pub batch_id: String,
    pub expected_amount: u128,
}

/// A funds transfer the host is asked to issue.
#[derive(Clone, Debug, PartialEq, Eq)]
pub struct BankSend {
    pub to_address: String,
    pub denom: String,
    pub amount: u128,
}

/// The attributes instantiation reports: the action, then one per
/// recorded field.
pub open spec fn instantiate_attr_views(msg: InstantiateMsg) -> Seq<(Seq<char>, Seq<char>)> {
    seq![
        ("action"@, "instantiate"@),
        ("owner"@, msg.owner@),
        ("core_contract"@, msg.core_contract@),
        ("voucher_contract"@, msg.voucher_contract@),
        ("base_denom"@, msg.base_denom@),
    ]
}

/// Sets up the redemption authority; one attribute per recorded field,
/// after the leading action attribute.
pub fn instantiate(msg: InstantiateMsg) -> (r: (Config, Vec<Attribute>))
    ensures
        r.0.core_contract == msg.core_contract,
        r.0.withdrawal_voucher_contract == msg.voucher_contract,
        r.0.base_denom == msg.base_denom,
        r.0.owner == msg.owner,
        attr_views(r.1@) == instantiate_attr_views(msg),
        r.1@.len() == 5,
{
    let mut attrs: Vec<Attribute> = Vec::new();
    attrs.push(attr("action", "instantiate".to_owned()));
    attrs.push(attr("owner", msg.owner.clone()));
    attrs.push(attr("core_contract", msg.core_contract.clone()));
    attrs.push(attr("voucher_contract", msg.voucher_contract.clone()));
    attrs.push(attr("base_denom", msg.base_denom.clone()));
    let config = Config {
        core_contract: msg.core_contract,
        withdrawal_voucher_contract: msg.voucher_contract,
        base_denom: msg.base_denom,
        owner: msg.owner,
    };
    proof {
        assert(attr_views(attrs@) =~= instantiate_attr_views(msg));
    }
    (config, attrs)
}

/// Attributes as plain key/value views.
pub open spec fn attr_views(s: Seq<Attribute>) -> Seq<(Seq<char>, Seq<char>)> {
    Seq::new(s.len(), |i: int| (s[i].key@, s[i].value@))
}

/// The attributes a partial update reports: the action first, then one
/// per provided field, in the order the fields are applied.
pub open spec fn update_attr_views(
    owner: Option<String>,
    core_contract: Option<String>,
    voucher_contract: Option<String>,
) -> Seq<(Seq<char>, Seq<char>)> {
    let s0 = seq![("action"@, "update_config"@)];
    let s1 = if owner is Some {
        s0.push(("owner"@, owner->0@))
    } else {
        s0
    };
    let s2 = if core_contract is Some {
        s1.push(("core_contract"@, core_contract->0@))
    } else {
        s1
    };
    let s3 = if voucher_contract is Some {
        s2.push(("voucher_contract"@, voucher_contract->0@))
    } else {
        s2
    };
    s3
}

/// The redemption authority's request surface. A voucher-receive hook
/// needs the voucher's extension and its batch, which the host fetches
/// from the voucher and core collaborators between the hook and the
/// redemption.
#[derive(Clone, Debug, PartialEq, Eq)]
pub enum ExecuteMsg {
    UpdateConfig {
        owner: Option<String>,
        core_contract: Option<String>,
        voucher_contract: Option<String>,
    },
    ReceiveNft(Cw721ReceiveMsg),
}

/// The redemption authority's query surface.
#[derive(Clone, Copy, Debug, PartialEq, Eq, Structural)]
pub enum QueryMsg {
    Config {},
}

/// What a handled request reports back to the host.
#[derive(Clone, Debug, PartialEq, Eq)]
pub enum WithdrawalManagerResponse {
    ConfigUpdated(Vec<Attribute>),
    Payout(BankSend, Vec<Attribute>),
}

/// Answers the one query: the configuration as stored.
pub fn query(config: &Config, msg: QueryMsg) -> (r: &Config)
    ensures
        msg is Config ==> r == config,
{
    match msg {
        QueryMsg::Config {} => config,
    }
}

/// Applies a partial configuration update: only the owner may; exactly
/// the fields provided change; one attribute per provided field after the
/// leading action attribute.
pub fn execute_update_config(
    config: &mut Config,
    sender: &String,
    owner: Option<String>,
    core_contract: Option<String>,
    voucher_contract: Option<String>,
) -> (r: Result<Vec<Attribute>, ContractError>)
    ensures
        r is Ok <==> old(config).owner@ == sender@,
        r matches Err(e) ==> e is Unauthorized && *final(config) == *old(config),
        r matches Ok(attrs) ==> wm_update_ok(
            *old(config),
            *final(config),
            attrs,
            owner,
            core_contract,
            voucher_contract,
        ) && attrs@.len() == 1 + (if owner is Some {
            1int
        } else {
            0int
        }) + (if core_contract is Some {
            1int
        } else {
            0int
        }) + (if voucher_contract is Some {
            1int
        } else {
            0int
        }),
{
    if !(*sender == config.owner) {
        return Err(ContractError::Unauthorized);
    }
    let mut attrs: Vec<Attribute> = Vec::new();
    attrs.push(attr("action", "update_config".to_owned()));
    if let Some(v) = owner {
        attrs.push(attr("owner", v.clone()));
        config.owner = v;
    }
    if let Some(v) = core_contract {
        attrs.push(attr("core_contract", v.clone()));
        config.core_contract = v;
    }
    if let Some(v) = voucher_contract {
        attrs.push(attr("voucher_contract", v.clone()));
        config.withdrawal_voucher_contract = v;
    }
    proof {
        reveal_strlit("action");
        reveal_strlit("update_config");
        assert(attr_views(attrs@) =~= update_attr_views(owner, core_contract, voucher_contract));
    }
    Ok(attrs)
}

/// Everything a successful configuration update guarantees: exactly the
/// provided fields change, the base denomination stays, and the action
/// attribute is followed by one attribute per provided field with its key
/// and value pinned.
pub open spec fn wm_update_ok(
    pre: Config,
    post: Config,
    attrs: Vec<Attribute>,
    owner: Option<String>,
    core_contract: Option<String>,
    voucher_contract: Option<String>,
) -> bool {
    &&& post.owner == (if owner is Some {
        owner->0
    } else {
        pre.owner
    })
    &&& post.core_contract == (if core_contract is Some {
        core_contract->0
    } else {
        pre.core_contract
    })
    &&& post.withdrawal_voucher_contract == (if voucher_contract is Some {
        voucher_contract->0
    } else {
        pre.withdrawal_voucher_contract
    })
    &&& post.base_denom == pre.base_denom
    &&& attr_views(attrs@) == update_attr_views(owner, core_contract, voucher_contract)
}

/// The attributes a redemption reports: the action, the batch redeemed
/// against (in canonical decimal), and the payout.
pub open spec fn receive_attr_views(batch_id: int, payout: u128) -> Seq<(Seq<char>, Seq<char>)> {
    seq![
        ("action"@, "receive_nft"@),
        ("batch_id"@, dec_digits(batch_id as nat)),
        ("payout_amount"@, dec_digits(payout as nat)),
    ]
}

/// Everything a successful redemption guarantees: the payout is the
/// voucher's expected amount scaled by the batch's slashing ratio,
/// floored, in the base denomination, to whoever sent the voucher in,
/// with the batch and the payout reported as attributes.
pub open spec fn receive_ok(
    config: Config,
    holder: Seq<char>,
    voucher_extension: Option<VoucherExtension>,
    batch: UnbondBatch,
    send: BankSend,
    attrs: Vec<Attribute>,
) -> bool {
    &&& send.amount == voucher_extension->0.expected_amount * batch.slashing_effect->0.atomics
        / (RATIO_FRACTIONAL as int)
    &&& send.amount <= voucher_extension->0.expected_amount
    &&& send.denom@ == config.base_denom@
    &&& send.to_address@ == holder
    &&& attr_views(attrs@) == receive_attr_views(
        extension_batch_id(voucher_extension),
        send.amount,
    )
}

/// Whether a voucher extension parses: present, with a non-empty
/// all-digit batch id that fits the id type.
pub open spec fn extension_parses(ext: Option<VoucherExtension>) -> bool {
    ext matches Some(v) && v.batch_id@.len() > 0 && all_digits(v.batch_id@) && dec_value(
        v.batch_id@,
    ) <= u128::MAX
}

/// The batch id a parseable voucher extension names.
pub open spec fn extension_batch_id(ext: Option<VoucherExtension>) -> int {
    dec_value(ext->0.batch_id@)
}

/// Redeems one voucher against its settled batch.
///
/// Only the voucher collaborator may deliver the hook; a voucher without
/// a parseable extension is invalid; the batch must have settled as
/// unbonded, and defensively must carry its slashing ratio (impossible
/// for a batch driven through its lifecycle, but checked rather than
/// assumed). The payout is the voucher's expected amount scaled by that
/// ratio, floored, paid in the base denomination to whoever sent the
/// voucher in.
pub fn execute_receive_nft(
    config: &Config,
    info_sender: &String,
    msg: Cw721ReceiveMsg,
    voucher_extension: Option<VoucherExtension>,
    batch: &UnbondBatch,
) -> (r: Result<(BankSend, Vec<Attribute>), ContractError>)
    requires
        batch.slashing_effect matches Some(e) ==> e.is_proper(),
        extension_parses(voucher_extension) ==> extension_batch_id(voucher_extension)
            == batch.id as int,
    ensures
        r is Ok <==> info_sender@ == config.withdrawal_voucher_contract@ && extension_parses(
            voucher_extension,
        ) && batch.status is Unbonded && batch.slashing_effect is Some,
        r matches Err(e) ==> {
            &&& e is Unauthorized <==> info_sender@ != config.withdrawal_voucher_contract@
            &&& e is InvalidNFT <==> info_sender@ == config.withdrawal_voucher_contract@
                && !extension_parses(voucher_extension)
            &&& (e matches ContractError::InvalidNFT { reason } ==> reason@ == (
            if voucher_extension is None {
                "extension is not set"@
            } else {
                "invalid batch_id"@
            }))
            &&& e is BatchIsNotUnbonded <==> info_sender@
                == config.withdrawal_voucher_contract@ && extension_parses(voucher_extension)
                && !(batch.status is Unbonded)
            &&& e is BatchSlashingEffectIsEmpty <==> info_sender@
                == config.withdrawal_voucher_contract@ && extension_parses(voucher_extension)
                && batch.status is Unbonded && batch.slashing_effect is None
        },
        r matches Ok((send, attrs)) ==> receive_ok(
            *config,
            msg.sender@,
            voucher_extension,
            *batch,
            send,
            attrs,
        ),
{
    if !(*info_sender == config.withdrawal_voucher_contract) {
        return Err(ContractError::Unauthorized);
    }
    let extension = match voucher_extension {
        Some(v) => v,
        None => {
            return Err(
                ContractError::InvalidNFT { reason: "extension is not set".to_owned() },
            );
        },
    };
    let batch_id = match parse_u128(extension.batch_id.as_str()) {
        Some(id) => id,
        None => {
            return Err(ContractError::InvalidNFT { reason: "invalid batch_id".to_owned() });
        },
    };
    if !matches!(batch.status, UnbondBatchStatus::Unbonded) {
        return Err(ContractError::BatchIsNotUnbonded);
    }
    let effect = match batch.slashing_effect {
        Some(e) => e,
        None => {
            return Err(ContractError::BatchSlashingEffectIsEmpty);
        },
    };
    let payout_amount = effect.apply_floor(extension.expected_amount);
    let mut attrs: Vec<Attribute> = Vec::new();
    attrs.push(attr("action", "receive_nft".to_owned()));
    attrs.push(attr("batch_id", format_u128(batch_id)));
    attrs.push(attr("payout_amount", format_u128(payout_amount)));
    let send = BankSend {
        to_address: msg.sender,
        denom: config.base_denom.clone(),
        amount: payout_amount,
    };
    proof {
        assert(batch_id as int == extension_batch_id(voucher_extension));
        assert(attr_views(attrs@) =~= receive_attr_views(
            extension_batch_id(voucher_extension),
            payout_amount,
        ));
    }
    Ok((send, attrs))
}

/// Dispatches one request. The redemption context carries what the host
/// fetched for a voucher-receive hook: the voucher's extension and the
/// batch the voucher names.
pub fn execute(
    config: &mut Config,
    sender: &String,
    msg: ExecuteMsg,
    voucher_extension: Option<VoucherExtension>,
    batch: &UnbondBatch,
) -> (r: Result<WithdrawalManagerResponse, ContractError>)
    requires
        batch.slashing_effect matches Some(e) ==> e.is_proper(),
        extension_parses(voucher_extension) ==> extension_batch_id(voucher_extension)
            == batch.id as int,
    ensures
        msg matches ExecuteMsg::UpdateConfig { .. } ==> {
            &&& (r is Ok <==> old(config).owner@ == sender@)
            &&& (r matches Err(e) ==> e is Unauthorized && *final(config) == *old(config))
            &&& (r is Ok ==> (r matches Ok(resp) && resp matches
                WithdrawalManagerResponse::ConfigUpdated(attrs) && wm_update_ok(
                *old(config),
                *final(config),
                attrs,
                msg->UpdateConfig_owner,
                msg->UpdateConfig_core_contract,
                msg->UpdateConfig_voucher_contract,
            )))
        },
        msg matches ExecuteMsg::ReceiveNft(hook) ==> {
            &&& *final(config) == *old(config)
            &&& (r is Ok <==> sender@ == old(config).withdrawal_voucher_contract@
                && extension_parses(voucher_extension) && batch.status is Unbonded
                && batch.slashing_effect is Some)
            &&& (r matches Ok(resp) ==> (resp matches WithdrawalManagerResponse::Payout(
                send,
                attrs,
            ) && receive_ok(*old(config), hook.sender@, voucher_extension, *batch, send, attrs)))
        },
{
    match msg {
        ExecuteMsg::UpdateConfig { owner, core_contract, voucher_contract } => {
            match execute_update_config(config, sender, owner, core_contract, voucher_contract) {
                Ok(attrs) => Ok(WithdrawalManagerResponse::ConfigUpdated(attrs)),
                Err(e) => Err(e),
            }
        },
        ExecuteMsg::ReceiveNft(hook) => {
            match execute_receive_nft(config, sender, hook, voucher_extension, batch) {
                Ok((send, attrs)) => Ok(WithdrawalManagerResponse::Payout(send, attrs)),
                Err(e) => Err(e),
            }
        },
    }
}

} // verus!
