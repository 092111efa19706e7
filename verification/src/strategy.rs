//! The strategy contract: joining the validator set with the remote
//! account's delegation ledger and asking the distribution engine how to
//! split a deposit or a withdrawal.

use vstd::prelude::*;
use vstd::string::StringExecFns;
use crate::distribution::{
    Delegation, IdealDelegation, calc_deposit, calc_withdraw, deposit_deviations,
    deposit_projected, rounding_shortfall, stake_values, total_ideal, total_stake, total_weight,
    weight_values, withdraw_deviations, withdraw_projected,
};
use crate::error::{Attribute, ContractError, attr};
use crate::interceptor::AccountDelegation;
use crate::sums::seq_sum;
use crate::validators_set::ValidatorInfo;

verus! {

/// The strategy's configuration: its collaborators, the staking
/// denomination, and the owner entitled to update it (the core contract,
/// as recorded at instantiation).
#[derive(Clone, Debug, PartialEq, Eq)]
pub struct Config {
    pub core_address: String,
    pub puppeteer_address: String,
    pub validator_set_address: String,
    pub distribution_address: String,
    pub denom: String,
    pub owner: String,
}

/// What instantiation receives.
#[derive(Clone, Debug, PartialEq, Eq)]
pub struct InstantiateMsg {
    pub core_address: String,
    pub puppeteer_address: String,
    pub validator_set_address: String,
    pub distribution_address: String,
    pub denom: String,
}

/// The strategy's request surface.
#[derive(Clone, Debug, PartialEq, Eq)]
pub enum ExecuteMsg {
    UpdateConfig {
        core_address: Option<String>,
        puppeteer_address: Option<String>,
        validator_set_address: Option<String>,
        distribution_address: Option<String>,
        denom: Option<String>,
    },
}

/// The strategy's query surface.
#[derive(Clone, Copy, Debug, PartialEq, Eq)]
pub enum QueryMsg {
    Config {},
    CalcDeposit { deposit: u128 },
    CalcWithdraw { withdraw: u128 },
}

/// What each query answers with.
#[derive(Clone, Debug, PartialEq, Eq)]
pub enum StrategyQueryResponse<'a> {
    Config(&'a Config),
    CalcDeposit(Vec<IdealDelegation>),
    CalcWithdraw(Vec<IdealDelegation>),
}

/// Migration carries nothing.
#[derive(Clone, Copy, Debug, PartialEq, Eq, Structural)]
pub struct MigrateMsg {}

/// Attributes as plain key/value views.
pub open spec fn attr_views(s: Seq<Attribute>) -> Seq<(Seq<char>, Seq<char>)> {
    Seq::new(s.len(), |i: int| (s[i].key@, s[i].value@))
}

/// The attributes a partial update reports: one per provided field, in
/// the order the fields are applied.
pub open spec fn update_attr_views(
    core_address: Option<String>,
    puppeteer_address: Option<String>,
    validator_set_address: Option<String>,
    distribution_address: Option<String>,
    denom: Option<String>,
) -> Seq<(Seq<char>, Seq<char>)> {
    let s0 = Seq::<(Seq<char>, Seq<char>)>::empty();
    let s1 = if core_address is Some {
        s0.push(("core_address"@, core_address->0@))
    } else {
        s0
    };
    let s2 = if puppeteer_address is Some {
        s1.push(("puppeteer_address"@, puppeteer_address->0@))
    } else {
        s1
    };
    let s3 = if validator_set_address is Some {
        s2.push(("validator_set_address"@, validator_set_address->0@))
    } else {
        s2
    };
    let s4 = if distribution_address is Some {
        s3.push(("distribution_address"@, distribution_address->0@))
    } else {
        s3
    };
    let s5 = if denom is Some {
        s4.push(("denom"@, denom->0@))
    } else {
        s4
    };
    s5
}

/// The attributes instantiation reports: one per recorded field.
pub open spec fn instantiate_attr_views(msg: InstantiateMsg) -> Seq<(Seq<char>, Seq<char>)> {
    seq![
        ("core_address"@, msg.core_address@),
        ("puppeteer_address"@, msg.puppeteer_address@),
        ("validator_set_address"@, msg.validator_set_address@),
        ("distribution_address"@, msg.distribution_address@),
        ("denom"@, msg.denom@),
    ]
}

/// Sets up the strategy; one attribute per recorded field. The core
/// becomes the owner.
pub fn instantiate(msg: InstantiateMsg) -> (r: (Config, Vec<Attribute>))
    ensures
        r.0.core_address == msg.core_address,
        r.0.puppeteer_address == msg.puppeteer_address,
        r.0.validator_set_address == msg.validator_set_address,
        r.0.distribution_address == msg.distribution_address,
        r.0.denom == msg.denom,
        r.0.owner@ == msg.core_address@,
        attr_views(r.1@) == instantiate_attr_views(msg),
        r.1@.len() == 5,
{
    let mut attrs: Vec<Attribute> = Vec::new();
    attrs.push(attr("core_address", msg.core_address.clone()));
    attrs.push(attr("puppeteer_address", msg.puppeteer_address.clone()));
    attrs.push(attr("validator_set_address", msg.validator_set_address.clone()));
    attrs.push(attr("distribution_address", msg.distribution_address.clone()));
    attrs.push(attr("denom", msg.denom.clone()));
    let owner = msg.core_address.clone();
    let config = Config {
        core_address: msg.core_address,
        puppeteer_address: msg.puppeteer_address,
        validator_set_address: msg.validator_set_address,
        distribution_address: msg.distribution_address,
        denom: msg.denom,
        owner,
    };
    proof {
        assert(attr_views(attrs@) =~= instantiate_attr_views(msg));
    }
    (config, attrs)
}

/// Everything a successful configuration update guarantees: exactly the
/// provided fields change, the owner and every other field stay, and one
/// attribute is emitted per provided field with its key and value pinned.
pub open spec fn strategy_update_ok(
    pre: Config,
    post: Config,
    attrs: Vec<Attribute>,
    core_address: Option<String>,
    puppeteer_address: Option<String>,
    validator_set_address: Option<String>,
    distribution_address: Option<String>,
    denom: Option<String>,
) -> bool {
    &&& post.core_address == (if core_address is Some {
        core_address->0
    } else {
        pre.core_address
    })
    &&& post.puppeteer_address == (if puppeteer_address is Some {
        puppeteer_address->0
    } else {
        pre.puppeteer_address
    })
    &&& post.validator_set_address == (if validator_set_address is Some {
        validator_set_address->0
    } else {
        pre.validator_set_address
    })
    &&& post.distribution_address == (if distribution_address is Some {
        distribution_address->0
    } else {
        pre.distribution_address
    })
    &&& post.denom == (if denom is Some {
        denom->0
    } else {
        pre.denom
    })
    &&& post.owner == pre.owner
    &&& attr_views(attrs@) == update_attr_views(
        core_address,
        puppeteer_address,
        validator_set_address,
        distribution_address,
        denom,
    )
}

/// Applies a partial configuration update: only the owner may; exactly
/// the fields provided change; one attribute per provided field.
pub fn exec_config_update(
    config: &mut Config,
    sender: &String,
    core_address: Option<String>,
    puppeteer_address: Option<String>,
    validator_set_address: Option<String>,
    distribution_address: Option<String>,
    denom: Option<String>,
) -> (r: Result<Vec<Attribute>, ContractError>)
    ensures
        r is Ok <==> old(config).owner@ == sender@,
        r matches Err(e) ==> e is Unauthorized && *final(config) == *old(config),
        r matches Ok(attrs) ==> strategy_update_ok(
            *old(config),
            *final(config),
            attrs,
            core_address,
            puppeteer_address,
            validator_set_address,
            distribution_address,
            denom,
        ),
{
    if !(*sender == config.owner) {
        return Err(ContractError::Unauthorized);
    }
    let mut attrs: Vec<Attribute> = Vec::new();
    if let Some(v) = core_address {
        attrs.push(attr("core_address", v.clone()));
        config.core_address = v;
    }
    if let Some(v) = puppeteer_address {
        attrs.push(attr("puppeteer_address", v.clone()));
        config.puppeteer_address = v;
    }
    if let Some(v) = validator_set_address {
        attrs.push(attr("validator_set_address", v.clone()));
        config.validator_set_address = v;
    }
    if let Some(v) = distribution_address {
        attrs.push(attr("distribution_address", v.clone()));
        config.distribution_address = v;
    }
    if let Some(v) = denom {
        attrs.push(attr("denom", v.clone()));
        config.denom = v;
    }
    proof {
        assert(attr_views(attrs@) =~= update_attr_views(
            core_address,
            puppeteer_address,
            validator_set_address,
            distribution_address,
            denom,
        ));
    }
    Ok(attrs)
}

/// Dispatches one request: a configuration update succeeds exactly for
/// the owner, changes exactly the provided fields, and answers with one
/// attribute per provided field; a failure changes nothing.
pub fn execute(config: &mut Config, sender: &String, msg: ExecuteMsg) -> (r: Result<
    Vec<Attribute>,
    ContractError,
>)
    ensures
        r is Ok <==> old(config).owner@ == sender@,
        r matches Err(e) ==> e is Unauthorized && *final(config) == *old(config),
        msg matches ExecuteMsg::UpdateConfig { .. } && r is Ok ==> (r matches Ok(attrs)
            && strategy_update_ok(
            *old(config),
            *final(config),
            attrs,
            msg->UpdateConfig_core_address,
            msg->UpdateConfig_puppeteer_address,
            msg->UpdateConfig_validator_set_address,
            msg->UpdateConfig_distribution_address,
            msg->UpdateConfig_denom,
        )),
{
    match msg {
        ExecuteMsg::UpdateConfig {
            core_address,
            puppeteer_address,
            validator_set_address,
            distribution_address,
            denom,
        } => exec_config_update(
            config,
            sender,
            core_address,
            puppeteer_address,
            validator_set_address,
            distribution_address,
            denom,
        ),
    }
}

/// The stake the ledger shows for one validator in one denomination: the
/// first matching delegation's amount, or zero.
pub open spec fn stake_for(
    delegs: Seq<AccountDelegation>,
    validator: Seq<char>,
    denom: Seq<char>,
) -> u128
    decreases delegs.len(),
{
    if delegs.len() == 0 {
        0
    } else if delegs[0].validator@ == validator && delegs[0].amount.denom@ == denom {
        delegs[0].amount.amount
    } else {
        stake_for(delegs.drop_first(), validator, denom)
    }
}

/// The per-validator stakes the join produces, as integers.
pub open spec fn prepared_stakes(
    delegs: Seq<AccountDelegation>,
    denom: Seq<char>,
    vs: Seq<ValidatorInfo>,
) -> Seq<int> {
    Seq::new(vs.len(), |i: int| stake_for(delegs, vs[i].valoper_address@, denom) as int)
}

/// The per-validator weights, as integers.
pub open spec fn vs_weights(vs: Seq<ValidatorInfo>) -> Seq<int> {
    Seq::new(vs.len(), |i: int| vs[i].weight as int)
}

/// The joined input the distribution engine works on: one delegation per
/// validator of the set, in the set's order, with the ledger's stake.
pub open spec fn prepared_delegations(
    delegs: Seq<AccountDelegation>,
    denom: Seq<char>,
    vs: Seq<ValidatorInfo>,
) -> Seq<Delegation> {
    Seq::new(
        vs.len(),
        |i: int| Delegation {
            valoper_address: vs[i].valoper_address,
            stake: stake_for(delegs, vs[i].valoper_address@, denom),
            weight: vs[i].weight,
        },
    )
}

/// Everything the engine guarantees of a deposit split, restated over the
/// joined input: the set's order and addresses kept, the deposit
/// allocated exactly, each validator offered at most its shortfall from
/// target except one largest-shortfall validator that also absorbs the
/// rounding remainder, and larger shortfalls served first.
pub open spec fn deposit_answer_ok(
    out: Seq<IdealDelegation>,
    deposit: u128,
    delegs: Seq<AccountDelegation>,
    denom: Seq<char>,
    vs: Seq<ValidatorInfo>,
) -> bool {
    let prepared = prepared_delegations(delegs, denom, vs);
    let projected = deposit_projected(prepared, deposit as int);
    let w_total = total_weight(prepared);
    let devs = deposit_deviations(prepared, projected, w_total);
    &&& out.len() == vs.len()
    &&& forall|i: int|
        0 <= i < out.len() ==> (#[trigger] out[i]).valoper_address@ == vs[i].valoper_address@
    &&& total_ideal(out) == deposit
    &&& exists|j: int|
        #![auto]
        0 <= j < out.len() && (forall|i: int|
            0 <= i < out.len() && i != j ==> (#[trigger] out[i]).ideal_stake as int <= devs[i])
            && out[j].ideal_stake as int <= devs[j] + rounding_shortfall(deposit as int, devs)
            && (forall|i: int| 0 <= i < out.len() ==> devs[j] >= devs[i])
    &&& forall|i1: int, i2: int|
        0 <= i1 < out.len() && 0 <= i2 < out.len() && devs[i1] > devs[i2] && (
        #[trigger] out[i2]).ideal_stake > 0 ==> (#[trigger] out[i1]).ideal_stake as int
            >= devs[i1]
}

/// Everything the engine guarantees of a withdrawal split, restated over
/// the joined input: the set's order and addresses kept, the withdrawal
/// released exactly, each validator giving at most its excess above
/// target (so never more than its stake), and larger excesses taken
/// first.
pub open spec fn withdraw_answer_ok(
    out: Seq<IdealDelegation>,
    withdraw: u128,
    delegs: Seq<AccountDelegation>,
    denom: Seq<char>,
    vs: Seq<ValidatorInfo>,
) -> bool {
    let prepared = prepared_delegations(delegs, denom, vs);
    let projected = withdraw_projected(prepared, withdraw as int);
    let w_total = total_weight(prepared);
    let devs = withdraw_deviations(prepared, projected, w_total);
    &&& out.len() == vs.len()
    &&& forall|i: int|
        0 <= i < out.len() ==> (#[trigger] out[i]).valoper_address@ == vs[i].valoper_address@
    &&& total_ideal(out) == withdraw
    &&& forall|i: int|
        0 <= i < out.len() ==> (#[trigger] out[i]).ideal_stake as int <= devs[i]
    &&& forall|i: int|
        0 <= i < out.len() ==> (#[trigger] out[i]).ideal_stake as int <= stake_for(
            delegs,
            vs[i].valoper_address@,
            denom,
        )
    &&& forall|i1: int, i2: int|
        0 <= i1 < out.len() && 0 <= i2 < out.len() && devs[i1] > devs[i2] && (
        #[trigger] out[i2]).ideal_stake > 0 ==> (#[trigger] out[i1]).ideal_stake as int
            >= devs[i1]
}

/// A scan that saw no match up to a position determines `stake_for`.
proof fn lemma_stake_for_from_scan(
    delegs: Seq<AccountDelegation>,
    validator: Seq<char>,
    denom: Seq<char>,
    i: int,
)
    requires
        0 <= i <= delegs.len(),
        forall|k: int|
            0 <= k < i ==> !((#[trigger] delegs[k]).validator@ == validator
                && delegs[k].amount.denom@ == denom),
        i < delegs.len() ==> delegs[i].validator@ == validator && delegs[i].amount.denom@
            == denom,
    ensures
        i < delegs.len() ==> stake_for(delegs, validator, denom) == delegs[i].amount.amount,
        i == delegs.len() ==> stake_for(delegs, validator, denom) == 0,
    decreases i,
{
    if delegs.len() == 0 {
    } else if i == 0 {
    } else {
        assert(forall|k: int|
            0 <= k < i - 1 ==> (#[trigger] delegs.drop_first()[k]) == delegs[k + 1]);
        lemma_stake_for_from_scan(delegs.drop_first(), validator, denom, i - 1);
    }
}

/// Looks one validator's stake up in the ledger: the first delegation
/// matching the validator and the denomination, or zero.
fn lookup_stake(
    delegs: &Vec<AccountDelegation>,
    validator: &String,
    denom: &String,
) -> (r: u128)
    ensures
        r == stake_for(delegs@, validator@, denom@),
{
    let mut i: usize = 0;
    while i < delegs.len()
        invariant
            0 <= i <= delegs@.len(),
            forall|k: int|
                0 <= k < i ==> !((#[trigger] delegs@[k]).validator@ == validator@
                    && delegs@[k].amount.denom@ == denom@),
        decreases delegs@.len() - i,
    {
        if delegs[i].validator == *validator && delegs[i].amount.denom == *denom {
            proof {
                lemma_stake_for_from_scan(delegs@, validator@, denom@, i as int);
            }
            return delegs[i].amount.amount;
        }
        i = i + 1;
    }
    proof {
        lemma_stake_for_from_scan(delegs@, validator@, denom@, i as int);
    }
    0
}

/// Joins the validator set with the remote account's delegation ledger:
/// one entry per validator, in the set's order, carrying the validator's
/// weight and its first matching delegation in the staking denomination
/// (zero when it has none).
pub fn prepare_delegation_data(
    account_delegations: &Vec<AccountDelegation>,
    denom: &String,
    validator_set: &Vec<ValidatorInfo>,
) -> (r: Vec<Delegation>)
    ensures
        r@.len() == validator_set@.len(),
        forall|i: int|
            0 <= i < r@.len() ==> (#[trigger] r@[i]).valoper_address@
                == validator_set@[i].valoper_address@ && r@[i].weight == validator_set@[i].weight
                && r@[i].stake == stake_for(
                account_delegations@,
                validator_set@[i].valoper_address@,
                denom@,
            ),
{
    let mut r: Vec<Delegation> = Vec::new();
    let mut i: usize = 0;
    while i < validator_set.len()
        invariant
            0 <= i <= validator_set@.len(),
            r@.len() == i,
            forall|k: int|
                0 <= k < i ==> (#[trigger] r@[k]).valoper_address@
                    == validator_set@[k].valoper_address@ && r@[k].weight
                    == validator_set@[k].weight && r@[k].stake == stake_for(
                    account_delegations@,
                    validator_set@[k].valoper_address@,
                    denom@,
                ),
        decreases validator_set@.len() - i,
    {
        let stake = lookup_stake(account_delegations, &validator_set[i].valoper_address, denom);
        r.push(
            Delegation {
                valoper_address: validator_set[i].valoper_address.clone(),
                stake,
                weight: validator_set[i].weight,
            },
        );
        i = i + 1;
    }
    r
}

/// Asks the distribution engine how to split a deposit across the joined
/// validator set: fails exactly when the set's total weight is zero, and
/// otherwise allocates the deposit exactly, one entry per validator in
/// the set's order.
pub fn query_calc_deposit(
    deposit: u128,
    account_delegations: &Vec<AccountDelegation>,
    denom: &String,
    validator_set: &Vec<ValidatorInfo>,
) -> (r: Result<Vec<IdealDelegation>, ContractError>)
    requires
        seq_sum(prepared_stakes(account_delegations@, denom@, validator_set@)) + deposit
            <= u128::MAX,
    ensures
        r is Err <==> seq_sum(vs_weights(validator_set@)) == 0,
        r matches Err(e) ==> e is DistributionError,
        r matches Ok(out) ==> deposit_answer_ok(
            out@,
            deposit,
            account_delegations@,
            denom@,
            validator_set@,
        ),
{
    let delegations = prepare_delegation_data(account_delegations, denom, validator_set);
    let ghost prepared = prepared_delegations(account_delegations@, denom@, validator_set@);
    proof {
        assert(stake_values(delegations@) =~= prepared_stakes(
            account_delegations@,
            denom@,
            validator_set@,
        ));
        assert(weight_values(delegations@) =~= vs_weights(validator_set@));
        assert(stake_values(prepared) =~= prepared_stakes(
            account_delegations@,
            denom@,
            validator_set@,
        ));
        assert(weight_values(prepared) =~= vs_weights(validator_set@));
        // the joined value and its specification agree on every stake and
        // weight, so the engine's deviations coincide
        assert(forall|i: int|
            0 <= i < delegations@.len() ==> (#[trigger] delegations@[i]).stake == prepared[i].stake
                && delegations@[i].weight == prepared[i].weight);
    }
    let r = calc_deposit(deposit, &delegations);
    proof {
        if r is Ok {
            let projected = deposit_projected(prepared, deposit as int);
            let w_total = total_weight(prepared);
            assert(deposit_projected(delegations@, deposit as int) == projected);
            assert(total_weight(delegations@) == w_total);
            assert(deposit_deviations(delegations@, projected, w_total) =~= deposit_deviations(
                prepared,
                projected,
                w_total,
            ));
        }
    }
    r
}

/// Asks the distribution engine how to split a withdrawal across the
/// joined validator set: fails exactly when the set's total weight is
/// zero, and otherwise releases the amount exactly, one entry per
/// validator in the set's order, never more than a validator's stake.
pub fn query_calc_withdraw(
    withdraw: u128,
    account_delegations: &Vec<AccountDelegation>,
    denom: &String,
    validator_set: &Vec<ValidatorInfo>,
) -> (r: Result<Vec<IdealDelegation>, ContractError>)
    requires
        seq_sum(prepared_stakes(account_delegations@, denom@, validator_set@)) <= u128::MAX,
        withdraw as int <= seq_sum(prepared_stakes(account_delegations@, denom@, validator_set@)),
    ensures
        r is Err <==> seq_sum(vs_weights(validator_set@)) == 0,
        r matches Err(e) ==> e is DistributionError,
        r matches Ok(out) ==> withdraw_answer_ok(
            out@,
            withdraw,
            account_delegations@,
            denom@,
            validator_set@,
        ),
{
    let delegations = prepare_delegation_data(account_delegations, denom, validator_set);
    let ghost prepared = prepared_delegations(account_delegations@, denom@, validator_set@);
    proof {
        assert(stake_values(delegations@) =~= prepared_stakes(
            account_delegations@,
            denom@,
            validator_set@,
        ));
        assert(weight_values(delegations@) =~= vs_weights(validator_set@));
        assert(stake_values(prepared) =~= prepared_stakes(
            account_delegations@,
            denom@,
            validator_set@,
        ));
        assert(weight_values(prepared) =~= vs_weights(validator_set@));
        // the joined value and its specification agree on every stake and
        // weight, so the engine's deviations coincide
        assert(forall|i: int|
            0 <= i < delegations@.len() ==> (#[trigger] delegations@[i]).stake == prepared[i].stake
                && delegations@[i].weight == prepared[i].weight);
    }
    let r = calc_withdraw(withdraw, &delegations);
    proof {
        if r is Ok {
            let projected = withdraw_projected(prepared, withdraw as int);
            let w_total = total_weight(prepared);
            assert(withdraw_projected(delegations@, withdraw as int) == projected);
            assert(total_weight(delegations@) == w_total);
            assert(withdraw_deviations(delegations@, projected, w_total) =~= withdraw_deviations(
                prepared,
                projected,
                w_total,
            ));
        }
    }
    r
}

/// Answers the configuration query: the stored configuration itself.
pub fn query_config(config: &Config) -> (r: &Config)
    ensures
        r == config,
{
    config
}

/// Dispatches one query, with the collaborators' data resolved by the
/// host: the delegation ledger of the remote account and the validator
/// set.
pub fn query<'a>(
    config: &'a Config,
    msg: QueryMsg,
    account_delegations: &Vec<AccountDelegation>,
    validator_set: &Vec<ValidatorInfo>,
) -> (r: Result<StrategyQueryResponse<'a>, ContractError>)
    requires
        msg matches QueryMsg::CalcDeposit { deposit } ==> seq_sum(
            prepared_stakes(account_delegations@, config.denom@, validator_set@),
        ) + deposit <= u128::MAX,
        msg matches QueryMsg::CalcWithdraw { withdraw } ==> seq_sum(
            prepared_stakes(account_delegations@, config.denom@, validator_set@),
        ) <= u128::MAX && withdraw as int <= seq_sum(
            prepared_stakes(account_delegations@, config.denom@, validator_set@),
        ),
    ensures
        msg matches QueryMsg::Config {} ==> (r matches Ok(resp) && resp matches
            StrategyQueryResponse::Config(c) && *c == *config),
        msg matches QueryMsg::CalcDeposit { deposit } ==> {
            &&& r is Err <==> seq_sum(vs_weights(validator_set@)) == 0
            &&& r matches Err(e) ==> e is DistributionError
            &&& r matches Ok(resp) ==> (resp matches StrategyQueryResponse::CalcDeposit(out)
                && deposit_answer_ok(
                out@,
                deposit,
                account_delegations@,
                config.denom@,
                validator_set@,
            ))
        },
        msg matches QueryMsg::CalcWithdraw { withdraw } ==> {
            &&& r is Err <==> seq_sum(vs_weights(validator_set@)) == 0
            &&& r matches Err(e) ==> e is DistributionError
            &&& r matches Ok(resp) ==> (resp matches StrategyQueryResponse::CalcWithdraw(out)
                && withdraw_answer_ok(
                out@,
                withdraw,
                account_delegations@,
                config.denom@,
                validator_set@,
            ))
        },
{
    match msg {
        QueryMsg::Config {} => Ok(StrategyQueryResponse::Config(query_config(config))),
        QueryMsg::CalcDeposit { deposit } => {
            match query_calc_deposit(deposit, account_delegations, &config.denom, validator_set) {
                Ok(out) => Ok(StrategyQueryResponse::CalcDeposit(out)),
                Err(e) => Err(e),
            }
        },
        QueryMsg::CalcWithdraw { withdraw } => {
            match query_calc_withdraw(
                withdraw,
                account_delegations,
                &config.denom,
                validator_set,
            ) {
                Ok(out) => Ok(StrategyQueryResponse::CalcWithdraw(out)),
                Err(e) => Err(e),
            }
        },
    }
}

} // verus!
