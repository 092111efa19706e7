//! The orchestrator driving the delegated remote account.
//!
//! It authorizes staking requests against the allowed-senders set, reserves
//! the single transaction slot, emits the remote-call envelope, and later
//! consumes the asynchronous completion or failure notification: on success
//! it applies the settled operation to the delegation ledger and frees the
//! slot, on failure it records the error and frees the slot.

use vstd::prelude::*;
use vstd::string::StringExecFns;
use crate::envelope::{AnyMsg, IbcFee, SubmitTx, clone_fee, fee_view};
use crate::error::{Attribute, ContractError, attr};
use crate::numbers::{dec_digits, format_u64};
use crate::proto::{
    delegate_msg_bytes, encode_delegate_msg, encode_undelegate_msg, undelegate_msg_bytes,
};
use crate::txstate::{Transaction, TxState, TxStateStatus};

verus! {

/// The timeout, in seconds, given to a remote call when the caller names
/// none.
pub const DEFAULT_TIMEOUT_SECONDS: u64 = 360;

/// The identifier under which the delegated account was registered.
pub open spec fn ica_id() -> Seq<char> {
    "DROP"@
}

/// Returns the registered identifier of the delegated account.
pub fn ica_id_string() -> (r: String)
    ensures
        r@ == ica_id(),
{
    "DROP".to_owned()
}

/// The address of the delegated account on the remote chain, set exactly
/// once when remote registration completes.
#[derive(Clone, Debug, PartialEq, Eq)]
pub struct RemoteAccount {
    pub address: Option<String>,
    pub registered: bool,
}

impl RemoteAccount {
    /// The account records an address exactly when it is registered.
    pub open spec fn wf(self) -> bool {
        self.registered <==> self.address is Some
    }

    /// An account not registered yet.
    pub fn new_unregistered() -> (r: RemoteAccount)
        ensures
            r.wf(),
            r.address is None,
            !r.registered,
    {
        RemoteAccount { address: None, registered: false }
    }

    /// Records the address reported by the registration service; callable
    /// only once.
    pub fn set_address(&mut self, address: String)
        requires
            old(self).wf(),
            old(self).address is None,
        ensures
            final(self).wf(),
            final(self).address == Some(address),
            final(self).registered,
    {
        self.address = Some(address);
        self.registered = true;
    }
}

/// The orchestrator's configuration.
#[derive(Clone, Debug, PartialEq, Eq)]
pub struct Config {
    pub connection_id: String,
    pub port_id: String,
    pub update_period: u64,
    pub remote_denom: String,
    pub allowed_senders: Vec<String>,
    pub transfer_channel_id: String,
    pub sdk_version: String,
    pub proxy_address: Option<String>,
}

/// A partial configuration: only the fields present are applied.
#[derive(Clone, Debug, PartialEq, Eq)]
pub struct ConfigOptional {
    pub connection_id: Option<String>,
    pub port_id: Option<String>,
    pub update_period: Option<u64>,
    pub remote_denom: Option<String>,
    pub allowed_senders: Option<Vec<String>>,
    pub transfer_channel_id: Option<String>,
    pub sdk_version: Option<String>,
    pub proxy_address: Option<String>,
}

/// The configuration after applying a partial update: exactly the fields
/// provided change, every other field is identical.
pub open spec fn updated_config(c: Config, n: ConfigOptional) -> Config {
    Config {
        connection_id: if n.connection_id is Some {
            n.connection_id->0
        } else {
            c.connection_id
        },
        port_id: if n.port_id is Some {
            n.port_id->0
        } else {
            c.port_id
        },
        update_period: if n.update_period is Some {
            n.update_period->0
        } else {
            c.update_period
        },
        remote_denom: if n.remote_denom is Some {
            n.remote_denom->0
        } else {
            c.remote_denom
        },
        allowed_senders: if n.allowed_senders is Some {
            n.allowed_senders->0
        } else {
            c.allowed_senders
        },
        transfer_channel_id: if n.transfer_channel_id is Some {
            n.transfer_channel_id->0
        } else {
            c.transfer_channel_id
        },
        sdk_version: if n.sdk_version is Some {
            n.sdk_version->0
        } else {
            c.sdk_version
        },
        proxy_address: if n.proxy_address is Some {
            n.proxy_address
        } else {
            c.proxy_address
        },
    }
}

/// How many fields a partial update provides.
pub open spec fn provided_count(n: ConfigOptional) -> int {
    (if n.proxy_address is Some {
        1int
    } else {
        0int
    }) + (if n.remote_denom is Some {
        1int
    } else {
        0int
    }) + (if n.connection_id is Some {
        1int
    } else {
        0int
    }) + (if n.port_id is Some {
        1int
    } else {
        0int
    }) + (if n.update_period is Some {
        1int
    } else {
        0int
    }) + (if n.allowed_senders is Some {
        1int
    } else {
        0int
    }) + (if n.transfer_channel_id is Some {
        1int
    } else {
        0int
    }) + (if n.sdk_version is Some {
        1int
    } else {
        0int
    })
}

/// Attributes as plain key/value views.
pub open spec fn attr_views(s: Seq<Attribute>) -> Seq<(Seq<char>, Seq<char>)> {
    Seq::new(s.len(), |i: int| (s[i].key@, s[i].value@))
}

/// The attributes a partial update reports: one per provided field, in
/// the order the fields are applied.
pub open spec fn update_attr_views(n: ConfigOptional) -> Seq<(Seq<char>, Seq<char>)> {
    let s0 = Seq::<(Seq<char>, Seq<char>)>::empty();
    let s1 = if n.proxy_address is Some {
        s0.push(("proxy_address"@, n.proxy_address->0@))
    } else {
        s0
    };
    let s2 = if n.remote_denom is Some {
        s1.push(("remote_denom"@, n.remote_denom->0@))
    } else {
        s1
    };
    let s3 = if n.connection_id is Some {
        s2.push(("connection_id"@, n.connection_id->0@))
    } else {
        s2
    };
    let s4 = if n.port_id is Some {
        s3.push(("port_id"@, n.port_id->0@))
    } else {
        s3
    };
    let s5 = if n.update_period is Some {
        s4.push(("update_period"@, dec_digits(n.update_period->0 as nat)))
    } else {
        s4
    };
    let s6 = if n.allowed_senders is Some {
        s5.push(("allowed_senders"@, dec_digits(n.allowed_senders->0@.len())))
    } else {
        s5
    };
    let s7 = if n.transfer_channel_id is Some {
        s6.push(("transfer_channel_id"@, n.transfer_channel_id->0@))
    } else {
        s6
    };
    let s8 = if n.sdk_version is Some {
        s7.push(("sdk_version"@, n.sdk_version->0@))
    } else {
        s7
    };
    s8
}

/// What every emitted envelope carries: the configured connection, the
/// registered account identifier, an empty memo, and the stored fee
/// schedule.
pub open spec fn envelope_ok(pre: Puppeteer, sub: SubmitTx) -> bool {
    &&& sub.connection_id@ == pre.config.connection_id@
    &&& sub.interchain_account_id@ == ica_id()
    &&& sub.memo@ == ""@
    &&& fee_view(sub.fee) == fee_view(pre.ibc_fee)
}

/// Everything a successful delegate request guarantees: the slot holds
/// the payload verbatim with a cleared sequence id, nothing else of the
/// orchestrator moved, and the envelope carries one encoded staking
/// message per item with the given or default timeout.
pub open spec fn delegate_ok(
    pre: Puppeteer,
    post: Puppeteer,
    sub: SubmitTx,
    items: Vec<(String, u128)>,
    reply_to: String,
    timeout: Option<u64>,
) -> bool {
    &&& post.tx_state.status is InProgress
    &&& post.tx_state.seq_id is None
    &&& post.tx_state.reply_to == Some(reply_to)
    &&& post.tx_state.transaction matches Some(
        Transaction::Delegate { interchain_account_id, denom, items: titems },
    ) && interchain_account_id@ == ica_id() && denom@ == pre.config.remote_denom@ && titems
        == items
    &&& post.config == pre.config
    &&& post.owner == pre.owner
    &&& post.ica == pre.ica
    &&& post.ibc_fee == pre.ibc_fee
    &&& post.delegations == pre.delegations
    &&& envelope_ok(pre, sub)
    &&& sub.timeout == (if timeout is Some {
        timeout->0
    } else {
        DEFAULT_TIMEOUT_SECONDS
    })
    &&& sub.msgs@.len() == items@.len()
    &&& forall|k: int|
        0 <= k < items@.len() ==> (#[trigger] sub.msgs@[k]).type_url@
            == "/cosmos.staking.v1beta1.MsgDelegate"@ && sub.msgs@[k].value@
            == delegate_msg_bytes(
            pre.ica.address->0@,
            items@[k].0@,
            pre.config.remote_denom@,
            items@[k].1,
        )
}

/// The undelegation counterpart of [`delegate_ok`]: the payload also
/// names the batch being settled.
pub open spec fn undelegate_ok(
    pre: Puppeteer,
    post: Puppeteer,
    sub: SubmitTx,
    batch_id: u128,
    items: Vec<(String, u128)>,
    reply_to: String,
    timeout: Option<u64>,
) -> bool {
    &&& post.tx_state.status is InProgress
    &&& post.tx_state.seq_id is None
    &&& post.tx_state.reply_to == Some(reply_to)
    &&& post.tx_state.transaction matches Some(
        Transaction::Undelegate { batch_id: b, interchain_account_id, denom, items: titems },
    ) && b == batch_id && interchain_account_id@ == ica_id() && denom@
        == pre.config.remote_denom@ && titems == items
    &&& post.config == pre.config
    &&& post.owner == pre.owner
    &&& post.ica == pre.ica
    &&& post.ibc_fee == pre.ibc_fee
    &&& post.delegations == pre.delegations
    &&& envelope_ok(pre, sub)
    &&& sub.timeout == (if timeout is Some {
        timeout->0
    } else {
        DEFAULT_TIMEOUT_SECONDS
    })
    &&& sub.msgs@.len() == items@.len()
    &&& forall|k: int|
        0 <= k < items@.len() ==> (#[trigger] sub.msgs@[k]).type_url@
            == "/cosmos.staking.v1beta1.MsgUndelegate"@ && sub.msgs@[k].value@
            == undelegate_msg_bytes(
            pre.ica.address->0@,
            items@[k].0@,
            pre.config.remote_denom@,
            items@[k].1,
        )
}

/// Everything a successful configuration update guarantees: exactly the
/// provided fields change, one attribute is emitted per provided field
/// with its key and value pinned, and owner, slot, remote account, fees
/// and ledger are untouched.
pub open spec fn config_update_ok(
    pre: Puppeteer,
    post: Puppeteer,
    attrs: Vec<Attribute>,
    new_config: ConfigOptional,
) -> bool {
    &&& post.config == updated_config(pre.config, new_config)
    &&& attrs@.len() == provided_count(new_config)
    &&& attr_views(attrs@) == update_attr_views(new_config)
    &&& post.owner == pre.owner
    &&& post.tx_state == pre.tx_state
    &&& post.ica == pre.ica
    &&& post.ibc_fee == pre.ibc_fee
    &&& post.delegations == pre.delegations
}

/// What instantiation receives.
#[derive(Clone, Debug, PartialEq, Eq)]
pub struct InstantiateMsg {
    pub owner: Option<String>,
    pub connection_id: String,
    pub port_id: String,
    pub update_period: u64,
    pub remote_denom: String,
    pub allowed_senders: Vec<String>,
    pub transfer_channel_id: String,
    pub sdk_version: String,
}

/// The orchestrator's request surface.
#[derive(Clone, Debug, PartialEq, Eq)]
pub enum ExecuteMsg {
    UpdateConfig { new_config: ConfigOptional },
    Delegate { items: Vec<(String, u128)>, reply_to: String, timeout: Option<u64> },
    Undelegate {
        batch_id: u128,
        items: Vec<(String, u128)>,
        reply_to: String,
        timeout: Option<u64>,
    },
}

/// What a handled request reports back to the host.
#[derive(Clone, Debug, PartialEq, Eq)]
pub enum PuppeteerResponse {
    ConfigUpdated { attributes: Vec<Attribute> },
    RemoteCall { submit: SubmitTx },
}

/// One line of the delegation ledger: the stake last known to be
/// delegated to one validator.
#[derive(Clone, Debug, PartialEq, Eq)]
pub struct DelegationRecord {
    pub validator: String,
    pub stake: u128,
}

/// The ledger as plain values.
pub open spec fn ledger_view(s: Seq<DelegationRecord>) -> Seq<(Seq<char>, u128)> {
    Seq::new(s.len(), |i: int| (s[i].validator@, s[i].stake))
}

/// Operation items as plain values.
pub open spec fn items_view(s: Seq<(String, u128)>) -> Seq<(Seq<char>, u128)> {
    Seq::new(s.len(), |i: int| (s[i].0@, s[i].1))
}

/// The first ledger position holding the named validator, or -1.
pub open spec fn find_validator(l: Seq<(Seq<char>, u128)>, name: Seq<char>) -> int
    decreases l.len(),
{
    if l.len() == 0 {
        -1
    } else if l[0].0 == name {
        0
    } else {
        let r = find_validator(l.drop_first(), name);
        if r < 0 {
            -1
        } else {
            r + 1
        }
    }
}

/// A stake after settling one item against it: grown saturating at the
/// amount type's bound, or shrunk saturating at zero.
pub open spec fn bumped_stake(stake: u128, amount: u128, add: bool) -> u128 {
    if add {
        if stake + amount <= u128::MAX {
            (stake + amount) as u128
        } else {
            u128::MAX
        }
    } else {
        if stake >= amount {
            (stake - amount) as u128
        } else {
            0
        }
    }
}

/// The ledger after settling one item: the named validator's line is
/// adjusted; an unknown validator is appended on growth and ignored on
/// shrinkage.
pub open spec fn apply_one_item(
    l: Seq<(Seq<char>, u128)>,
    item: (Seq<char>, u128),
    add: bool,
) -> Seq<(Seq<char>, u128)> {
    let i = find_validator(l, item.0);
    if i >= 0 {
        l.update(i, (l[i].0, bumped_stake(l[i].1, item.1, add)))
    } else if add {
        l.push((item.0, item.1))
    } else {
        l
    }
}

/// The ledger after settling a list of items, left to right.
pub open spec fn apply_items(
    l: Seq<(Seq<char>, u128)>,
    items: Seq<(Seq<char>, u128)>,
    add: bool,
) -> Seq<(Seq<char>, u128)>
    decreases items.len(),
{
    if items.len() == 0 {
        l
    } else {
        apply_items(apply_one_item(l, items[0], add), items.drop_first(), add)
    }
}

/// Settling `s` and then one more item is settling `s.push(x)`.
proof fn lemma_apply_items_snoc(
    l: Seq<(Seq<char>, u128)>,
    s: Seq<(Seq<char>, u128)>,
    x: (Seq<char>, u128),
    add: bool,
)
    ensures
        apply_items(l, s.push(x), add) == apply_one_item(apply_items(l, s, add), x, add),
    decreases s.len(),
{
    if s.len() == 0 {
        assert(s.push(x)[0] == x);
        assert(s.push(x).drop_first() =~= Seq::<(Seq<char>, u128)>::empty());
        assert(apply_items(l, s.push(x), add) == apply_items(
            apply_one_item(l, x, add),
            s.push(x).drop_first(),
            add,
        ));
        assert(apply_items(apply_one_item(l, x, add), s.push(x).drop_first(), add)
            == apply_one_item(l, x, add));
        assert(apply_items(l, s, add) == l);
    } else {
        assert(s.push(x)[0] == s[0]);
        assert(s.push(x).drop_first() =~= s.drop_first().push(x));
        assert(apply_items(l, s.push(x), add) == apply_items(
            apply_one_item(l, s[0], add),
            s.drop_first().push(x),
            add,
        ));
        lemma_apply_items_snoc(apply_one_item(l, s[0], add), s.drop_first(), x, add);
        assert(apply_items(l, s, add) == apply_items(
            apply_one_item(l, s[0], add),
            s.drop_first(),
            add,
        ));
    }
}

/// A scan that saw no match up to a position determines `find_validator`.
proof fn lemma_find_from_scan(l: Seq<(Seq<char>, u128)>, name: Seq<char>, i: int)
    requires
        0 <= i <= l.len(),
        forall|k: int| 0 <= k < i ==> (#[trigger] l[k]).0 != name,
        i < l.len() ==> l[i].0 == name,
    ensures
        i < l.len() ==> find_validator(l, name) == i,
        i == l.len() ==> find_validator(l, name) == -1,
    decreases i,
{
    if l.len() == 0 {
    } else if i == 0 {
    } else {
        assert(l[0].0 != name);
        assert(forall|k: int|
            0 <= k < i - 1 ==> (#[trigger] l.drop_first()[k]).0 == l[k + 1].0);
        lemma_find_from_scan(l.drop_first(), name, i - 1);
    }
}

/// Finds the first ledger line of the named validator.
fn find_record(ledger: &Vec<DelegationRecord>, name: &String) -> (r: Option<usize>)
    ensures
        r matches Some(i) ==> i < ledger@.len() && find_validator(ledger_view(ledger@), name@)
            == i as int,
        r is None ==> find_validator(ledger_view(ledger@), name@) == -1,
{
    let ghost lv = ledger_view(ledger@);
    let mut i: usize = 0;
    while i < ledger.len()
        invariant
            0 <= i <= ledger@.len(),
            lv == ledger_view(ledger@),
            forall|k: int| 0 <= k < i ==> (#[trigger] lv[k]).0 != name@,
        decreases ledger@.len() - i,
    {
        if ledger[i].validator == *name {
            proof {
                lemma_find_from_scan(lv, name@, i as int);
            }
            return Some(i);
        }
        i = i + 1;
    }
    proof {
        lemma_find_from_scan(lv, name@, i as int);
    }
    None
}

/// Settles a list of items against the ledger, left to right.
fn apply_delegation_items(
    ledger: &mut Vec<DelegationRecord>,
    items: &Vec<(String, u128)>,
    add: bool,
)
    ensures
        ledger_view(final(ledger)@) == apply_items(
            ledger_view(old(ledger)@),
            items_view(items@),
            add,
        ),
{
    let ghost iv = items_view(items@);
    let ghost l0 = ledger_view(old(ledger)@);
    let mut k: usize = 0;
    proof {
        assert(iv.take(0) =~= Seq::<(Seq<char>, u128)>::empty());
    }
    while k < items.len()
        invariant
            0 <= k <= items@.len(),
            iv == items_view(items@),
            l0 == ledger_view(old(ledger)@),
            ledger_view(ledger@) == apply_items(l0, iv.take(k as int), add),
        decreases items@.len() - k,
    {
        let ghost lpre = ledger_view(ledger@);
        let name = &items[k].0;
        let amount = items[k].1;
        match find_record(ledger, name) {
            Some(i) => {
                let stake = ledger[i].stake;
                let new_stake = if add {
                    if stake <= u128::MAX - amount {
                        stake + amount
                    } else {
                        u128::MAX
                    }
                } else {
                    if stake >= amount {
                        stake - amount
                    } else {
                        0
                    }
                };
                let validator = ledger[i].validator.clone();
                ledger.set(i, DelegationRecord { validator, stake: new_stake });
                proof {
                    assert(ledger_view(ledger@) =~= lpre.update(
                        i as int,
                        (lpre[i as int].0, bumped_stake(lpre[i as int].1, amount, add)),
                    ));
                }
            },
            None => {
                if add {
                    ledger.push(DelegationRecord { validator: name.clone(), stake: amount });
                    proof {
                        assert(ledger_view(ledger@) =~= lpre.push((name@, amount)));
                    }
                }
            },
        }
        proof {
            assert(iv.take(k as int + 1) =~= iv.take(k as int).push(iv[k as int]));
            lemma_apply_items_snoc(l0, iv.take(k as int), iv[k as int], add);
            assert(ledger_view(ledger@) == apply_one_item(lpre, iv[k as int], add));
        }
        k = k + 1;
    }
    proof {
        assert(iv.take(k as int) =~= iv);
    }
}

/// The ledger after a settled operation: delegations grow the named
/// validators' lines, undelegations shrink them, other operations leave
/// the ledger alone.
pub open spec fn ledger_after(l: Seq<(Seq<char>, u128)>, t: Transaction) -> Seq<
    (Seq<char>, u128),
> {
    match t {
        Transaction::Delegate { items, .. } => apply_items(l, items_view(items@), true),
        Transaction::Undelegate { items, .. } => apply_items(l, items_view(items@), false),
        _ => l,
    }
}

/// Whether the sender is one of the allowed senders.
pub open spec fn spec_is_allowed(senders: Seq<String>, sender: Seq<char>) -> bool {
    exists|i: int| 0 <= i < senders.len() && senders[i]@ == sender
}

/// Checks the sender against the allowed-senders set.
fn is_allowed(senders: &Vec<String>, sender: &String) -> (r: bool)
    ensures
        r == spec_is_allowed(senders@, sender@),
{
    let mut i: usize = 0;
    while i < senders.len()
        invariant
            0 <= i <= senders@.len(),
            forall|k: int| 0 <= k < i ==> (#[trigger] senders@[k])@ != sender@,
        decreases senders@.len() - i,
    {
        if senders[i] == *sender {
            return true;
        }
        i = i + 1;
    }
    false
}

/// The orchestrator: configuration, the transaction slot, the remote
/// account handle, the fee schedule, and the delegation ledger.
#[derive(Clone, Debug, PartialEq, Eq)]
pub struct Puppeteer {
    pub config: Config,
    pub owner: Option<String>,
    pub tx_state: TxState,
    pub ica: RemoteAccount,
    pub ibc_fee: IbcFee,
    pub delegations: Vec<DelegationRecord>,
}

impl Puppeteer {
    /// The orchestrator's invariant: the slot and the account handle are
    /// each well formed.
    pub open spec fn wf(self) -> bool {
        &&& self.tx_state.wf()
        &&& self.ica.wf()
    }

    /// Sets up a fresh orchestrator from the instantiation message: the
    /// configuration is taken verbatim, the owner defaults to the
    /// instantiating sender, the slot is free, no remote account is
    /// registered, the fee schedule and the ledger are empty.
    pub fn instantiate(msg: InstantiateMsg, sender: String) -> (p: Puppeteer)
        ensures
            p.wf(),
            p.config.connection_id == msg.connection_id,
            p.config.port_id == msg.port_id,
            p.config.update_period == msg.update_period,
            p.config.remote_denom == msg.remote_denom,
            p.config.allowed_senders == msg.allowed_senders,
            p.config.transfer_channel_id == msg.transfer_channel_id,
            p.config.sdk_version == msg.sdk_version,
            p.config.proxy_address is None,
            p.owner == if msg.owner is Some {
                msg.owner
            } else {
                Some(sender)
            },
            p.tx_state.status is Idle,
            p.tx_state.transaction is None,
            p.ica.address is None,
            p.delegations@.len() == 0,
    {
        let owner = match msg.owner {
            Some(o) => Some(o),
            None => Some(sender),
        };
        Puppeteer {
            config: Config {
                connection_id: msg.connection_id,
                port_id: msg.port_id,
                update_period: msg.update_period,
                remote_denom: msg.remote_denom,
                allowed_senders: msg.allowed_senders,
                transfer_channel_id: msg.transfer_channel_id,
                sdk_version: msg.sdk_version,
                proxy_address: None,
            },
            owner,
            tx_state: TxState::new_idle(),
            ica: RemoteAccount::new_unregistered(),
            ibc_fee: crate::envelope::empty_fee(),
            delegations: Vec::new(),
        }
    }

    /// Applies a partial configuration update: only the owner may; exactly
    /// the fields provided change and one attribute is emitted per
    /// provided field; everything else is untouched.
    #[verifier::rlimit(50)]
    pub fn execute_update_config(&mut self, sender: &String, new_config: ConfigOptional) -> (r:
        Result<Vec<Attribute>, ContractError>)
        requires
            old(self).wf(),
        ensures
            final(self).wf(),
            r is Ok <==> (old(self).owner matches Some(o) && o@ == sender@),
            r matches Err(e) ==> e is Unauthorized && *final(self) == *old(self),
            r matches Ok(attrs) ==> config_update_ok(*old(self), *final(self), attrs, new_config),
    {
        let authorized = match &self.owner {
            Some(o) => *o == *sender,
            None => false,
        };
        if !authorized {
            return Err(ContractError::Unauthorized);
        }
        let mut attrs: Vec<Attribute> = Vec::new();
        if let Some(v) = new_config.proxy_address {
            attrs.push(attr("proxy_address", v.clone()));
            self.config.proxy_address = Some(v);
        }
        if let Some(v) = new_config.remote_denom {
            attrs.push(attr("remote_denom", v.clone()));
            self.config.remote_denom = v;
        }
        if let Some(v) = new_config.connection_id {
            attrs.push(attr("connection_id", v.clone()));
            self.config.connection_id = v;
        }
        if let Some(v) = new_config.port_id {
            attrs.push(attr("port_id", v.clone()));
            self.config.port_id = v;
        }
        if let Some(v) = new_config.update_period {
            attrs.push(attr("update_period", format_u64(v)));
            self.config.update_period = v;
        }
        if let Some(v) = new_config.allowed_senders {
            attrs.push(attr("allowed_senders", format_u64(v.len() as u64)));
            self.config.allowed_senders = v;
        }
        if let Some(v) = new_config.transfer_channel_id {
            attrs.push(attr("transfer_channel_id", v.clone()));
            self.config.transfer_channel_id = v;
        }
        if let Some(v) = new_config.sdk_version {
            attrs.push(attr("sdk_version", v.clone()));
            self.config.sdk_version = v;
        }
        proof {
            assert(attr_views(attrs@) =~= update_attr_views(new_config));
        }
        Ok(attrs)
    }

    /// Authorizes and dispatches one staking operation to the remote
    /// account: checks the sender, requires a registered account, reserves
    /// the slot with the payload, and emits the remote-call envelope. An
    /// unauthorized or conflicting request changes nothing.
    pub fn execute_delegate(
        &mut self,
        sender: &String,
        items: Vec<(String, u128)>,
        reply_to: String,
        timeout: Option<u64>,
    ) -> (r: Result<SubmitTx, ContractError>)
        requires
            old(self).wf(),
        ensures
            final(self).wf(),
            !spec_is_allowed(old(self).config.allowed_senders@, sender@) ==> (r matches Err(e)
                && e is Unauthorized && *final(self) == *old(self)),
            spec_is_allowed(old(self).config.allowed_senders@, sender@) && old(self).ica.address is None ==> (r matches Err(e) && e is IcaNotRegistered && *final(self)
                == *old(self)),
            spec_is_allowed(old(self).config.allowed_senders@, sender@) && old(self).ica.address is Some && old(self).tx_state.status is InProgress ==> (r matches Err(e)
                && e is AlreadyInProgress && *final(self) == *old(self)),
            r is Ok <==> spec_is_allowed(old(self).config.allowed_senders@, sender@) && old(self).ica.address is Some && !(old(self).tx_state.status is InProgress),
            r matches Ok(sub) ==> delegate_ok(
                *old(self),
                *final(self),
                sub,
                items,
                reply_to,
                timeout,
            ),
    {
        if !is_allowed(&self.config.allowed_senders, sender) {
            return Err(ContractError::Unauthorized);
        }
        let delegator = match &self.ica.address {
            Some(a) => a.clone(),
            None => {
                return Err(ContractError::IcaNotRegistered);
            },
        };
        if matches!(self.tx_state.status, TxStateStatus::InProgress) {
            return Err(ContractError::AlreadyInProgress);
        }
        let denom = self.config.remote_denom.clone();
        let msgs = build_staking_msgs(&delegator, &denom, &items, true);
        let transaction = Transaction::Delegate {
            interchain_account_id: ica_id_string(),
            denom,
            items,
        };
        let reserved = self.tx_state.reserve(transaction, reply_to);
        proof {
            assert(reserved is Ok);
        }
        let submit = SubmitTx {
            connection_id: self.config.connection_id.clone(),
            interchain_account_id: ica_id_string(),
            msgs,
            memo: "".to_owned(),
            timeout: match timeout {
                Some(t) => t,
                None => DEFAULT_TIMEOUT_SECONDS,
            },
            fee: clone_fee(&self.ibc_fee),
        };
        Ok(submit)
    }

    /// The undelegation counterpart of [`Puppeteer::execute_delegate`]:
    /// the payload additionally names the unbonding batch being settled.
    pub fn execute_undelegate(
        &mut self,
        sender: &String,
        batch_id: u128,
        items: Vec<(String, u128)>,
        reply_to: String,
        timeout: Option<u64>,
    ) -> (r: Result<SubmitTx, ContractError>)
        requires
            old(self).wf(),
        ensures
            final(self).wf(),
            !spec_is_allowed(old(self).config.allowed_senders@, sender@) ==> (r matches Err(e)
                && e is Unauthorized && *final(self) == *old(self)),
            spec_is_allowed(old(self).config.allowed_senders@, sender@) && old(self).ica.address is None ==> (r matches Err(e) && e is IcaNotRegistered && *final(self)
                == *old(self)),
            spec_is_allowed(old(self).config.allowed_senders@, sender@) && old(self).ica.address is Some && old(self).tx_state.status is InProgress ==> (r matches Err(e)
                && e is AlreadyInProgress && *final(self) == *old(self)),
            r is Ok <==> spec_is_allowed(old(self).config.allowed_senders@, sender@) && old(self).ica.address is Some && !(old(self).tx_state.status is InProgress),
            r matches Ok(sub) ==> undelegate_ok(
                *old(self),
                *final(self),
                sub,
                batch_id,
                items,
                reply_to,
                timeout,
            ),
    {
        if !is_allowed(&self.config.allowed_senders, sender) {
            return Err(ContractError::Unauthorized);
        }
        let delegator = match &self.ica.address {
            Some(a) => a.clone(),
            None => {
                return Err(ContractError::IcaNotRegistered);
            },
        };
        if matches!(self.tx_state.status, TxStateStatus::InProgress) {
            return Err(ContractError::AlreadyInProgress);
        }
        let denom = self.config.remote_denom.clone();
        let msgs = build_staking_msgs(&delegator, &denom, &items, false);
        let transaction = Transaction::Undelegate {
            batch_id,
            interchain_account_id: ica_id_string(),
            denom,
            items,
        };
        let reserved = self.tx_state.reserve(transaction, reply_to);
        proof {
            assert(reserved is Ok);
        }
        let submit = SubmitTx {
            connection_id: self.config.connection_id.clone(),
            interchain_account_id: ica_id_string(),
            msgs,
            memo: "".to_owned(),
            timeout: match timeout {
                Some(t) => t,
                None => DEFAULT_TIMEOUT_SECONDS,
            },
            fee: clone_fee(&self.ibc_fee),
        };
        Ok(submit)
    }

    /// Dispatches one request: a partial configuration update, a
    /// delegation, or an undelegation. A staking request succeeds exactly
    /// on an allowed sender with a registered account and a free slot, and
    /// then answers with the remote-call envelope; a configuration update
    /// succeeds exactly for the owner and answers with the emitted
    /// attributes. Every failure is synchronous and changes nothing.
    pub fn execute(&mut self, sender: &String, msg: ExecuteMsg) -> (r: Result<
        PuppeteerResponse,
        ContractError,
    >)
        requires
            old(self).wf(),
        ensures
            final(self).wf(),
            (msg matches ExecuteMsg::Delegate { .. } || msg matches ExecuteMsg::Undelegate {
                ..
            }) ==> (r is Ok <==> spec_is_allowed(old(self).config.allowed_senders@, sender@)
                && old(self).ica.address is Some && !(old(self).tx_state.status is InProgress)),
            (msg matches ExecuteMsg::Delegate { .. } || msg matches ExecuteMsg::Undelegate {
                ..
            }) && !spec_is_allowed(old(self).config.allowed_senders@, sender@) ==> (r matches Err(
                e,
            ) && e is Unauthorized && *final(self) == *old(self)),
            (msg matches ExecuteMsg::Delegate { .. } || msg matches ExecuteMsg::Undelegate {
                ..
            }) && spec_is_allowed(old(self).config.allowed_senders@, sender@) && old(
                self,
            ).ica.address is None ==> (r matches Err(e) && e is IcaNotRegistered && *final(self)
                == *old(self)),
            (msg matches ExecuteMsg::Delegate { .. } || msg matches ExecuteMsg::Undelegate {
                ..
            }) && spec_is_allowed(old(self).config.allowed_senders@, sender@) && old(
                self,
            ).ica.address is Some && old(self).tx_state.status is InProgress ==> (r matches Err(
                e,
            ) && e is AlreadyInProgress && *final(self) == *old(self)),
            msg matches ExecuteMsg::Delegate { .. } && r is Ok ==> (r matches Ok(resp)
                && resp matches PuppeteerResponse::RemoteCall { submit } && delegate_ok(
                *old(self),
                *final(self),
                submit,
                msg->Delegate_items,
                msg->Delegate_reply_to,
                msg->Delegate_timeout,
            )),
            msg matches ExecuteMsg::Undelegate { .. } && r is Ok ==> (r matches Ok(resp)
                && resp matches PuppeteerResponse::RemoteCall { submit } && undelegate_ok(
                *old(self),
                *final(self),
                submit,
                msg->Undelegate_batch_id,
                msg->Undelegate_items,
                msg->Undelegate_reply_to,
                msg->Undelegate_timeout,
            )),
            msg matches ExecuteMsg::UpdateConfig { new_config } ==> {
                &&& (r is Ok <==> (old(self).owner matches Some(o) && o@ == sender@))
                &&& (r matches Err(e) ==> e is Unauthorized && *final(self) == *old(self))
                &&& (r is Ok ==> (r matches Ok(resp) && resp matches
                    PuppeteerResponse::ConfigUpdated { attributes } && config_update_ok(
                    *old(self),
                    *final(self),
                    attributes,
                    new_config,
                )))
            },
    {
        match msg {
            ExecuteMsg::UpdateConfig { new_config } => {
                match self.execute_update_config(sender, new_config) {
                    Ok(attributes) => Ok(PuppeteerResponse::ConfigUpdated { attributes }),
                    Err(e) => Err(e),
                }
            },
            ExecuteMsg::Delegate { items, reply_to, timeout } => {
                match self.execute_delegate(sender, items, reply_to, timeout) {
                    Ok(submit) => Ok(PuppeteerResponse::RemoteCall { submit }),
                    Err(e) => Err(e),
                }
            },
            ExecuteMsg::Undelegate { batch_id, items, reply_to, timeout } => {
                match self.execute_undelegate(sender, batch_id, items, reply_to, timeout) {
                    Ok(submit) => Ok(PuppeteerResponse::RemoteCall { submit }),
                    Err(e) => Err(e),
                }
            },
        }
    }

    /// Records the address the registration service reported for the
    /// delegated account; callable only once.
    pub fn register_ica(&mut self, address: String)
        requires
            old(self).wf(),
            old(self).ica.address is None,
        ensures
            final(self).wf(),
            final(self).ica.address == Some(address),
            final(self).ica.registered,
            final(self).config == old(self).config,
            final(self).owner == old(self).owner,
            final(self).tx_state == old(self).tx_state,
            final(self).ibc_fee == old(self).ibc_fee,
            final(self).delegations == old(self).delegations,
    {
        self.ica.set_address(address);
    }

    /// Replaces the fee schedule attached to dispatched remote calls.
    pub fn set_fees(&mut self, fee: IbcFee)
        requires
            old(self).wf(),
        ensures
            final(self).wf(),
            final(self).ibc_fee == fee,
            final(self).config == old(self).config,
            final(self).owner == old(self).owner,
            final(self).tx_state == old(self).tx_state,
            final(self).ica == old(self).ica,
            final(self).delegations == old(self).delegations,
    {
        self.ibc_fee = fee;
    }

    /// Records the transport's sequence id for the in-flight operation
    /// once the envelope is accepted; with a free slot this is a no-op and
    /// reports false.
    pub fn handle_reply(&mut self, seq_id: u64) -> (r: bool)
        requires
            old(self).wf(),
        ensures
            final(self).wf(),
            r == old(self).tx_state.status is InProgress,
            !r ==> *final(self) == *old(self),
            r ==> final(self).tx_state.status is InProgress && final(self).tx_state.seq_id
                == Some(seq_id) && final(self).tx_state.transaction == old(self).tx_state.transaction && final(self).tx_state.reply_to == old(self).tx_state.reply_to && final(self).config == old(self).config && final(self).owner
                == old(self).owner && final(self).ica == old(self).ica && final(self).ibc_fee
                == old(self).ibc_fee && final(self).delegations == old(self).delegations,
    {
        if matches!(self.tx_state.status, TxStateStatus::InProgress) {
            self.tx_state.attach_sequence(seq_id);
            true
        } else {
            false
        }
    }

    /// Consumes the success notification of the in-flight operation:
    /// applies the settled payload to the delegation ledger, frees the
    /// slot, and hands back the payload and whom to notify. With a free
    /// slot the notification is a no-op.
    pub fn sudo_response(&mut self) -> (r: Option<(Transaction, Option<String>)>)
        requires
            old(self).wf(),
        ensures
            final(self).wf(),
            !(old(self).tx_state.status is InProgress) ==> r is None && *final(self) == *old(self),
            old(self).tx_state.status is InProgress ==> {
                &&& r matches Some(done) && Some(done.0) == old(self).tx_state.transaction
                    && done.1 == old(self).tx_state.reply_to
                &&& final(self).tx_state.status is Idle
                &&& final(self).tx_state.transaction is None
                &&& final(self).tx_state.reply_to is None
                &&& final(self).tx_state.seq_id is None
                &&& ledger_view(final(self).delegations@) == ledger_after(
                    ledger_view(old(self).delegations@),
                    old(self).tx_state.transaction->0,
                )
                &&& final(self).config == old(self).config
                &&& final(self).owner == old(self).owner
                &&& final(self).ica == old(self).ica
                &&& final(self).ibc_fee == old(self).ibc_fee
            },
    {
        if !matches!(self.tx_state.status, TxStateStatus::InProgress) {
            return None;
        }
        let (transaction, reply_to) = self.tx_state.resolve_success();
        match &transaction {
            Transaction::Delegate { items, .. } => {
                apply_delegation_items(&mut self.delegations, items, true);
            },
            Transaction::Undelegate { items, .. } => {
                apply_delegation_items(&mut self.delegations, items, false);
            },
            _ => {},
        }
        Some((transaction, reply_to))
    }

    /// Consumes the failure notification of the in-flight operation:
    /// records the error in the slot's status, frees the slot, leaves the
    /// ledger alone, and hands back whom to notify. With a free slot the
    /// notification is a no-op.
    pub fn sudo_error(&mut self, message: String) -> (r: Option<Option<String>>)
        requires
            old(self).wf(),
        ensures
            final(self).wf(),
            !(old(self).tx_state.status is InProgress) ==> r is None && *final(self) == *old(self),
            old(self).tx_state.status is InProgress ==> {
                &&& r == Some(old(self).tx_state.reply_to)
                &&& final(self).tx_state.status == TxStateStatus::Error(message)
                &&& final(self).tx_state.transaction is None
                &&& final(self).tx_state.reply_to is None
                &&& final(self).tx_state.seq_id is None
                &&& final(self).config == old(self).config
                &&& final(self).owner == old(self).owner
                &&& final(self).ica == old(self).ica
                &&& final(self).ibc_fee == old(self).ibc_fee
                &&& final(self).delegations == old(self).delegations
            },
    {
        if !matches!(self.tx_state.status, TxStateStatus::InProgress) {
            return None;
        }
        let reply = self.tx_state.resolve_failure(message);
        Some(reply)
    }

    /// Consumes the timeout notification of the in-flight operation, as
    /// [`Puppeteer::sudo_error`] with the timeout named as the failure.
    pub fn sudo_timeout(&mut self) -> (r: Option<Option<String>>)
        requires
            old(self).wf(),
        ensures
            final(self).wf(),
            !(old(self).tx_state.status is InProgress) ==> r is None && *final(self) == *old(self),
            old(self).tx_state.status is InProgress ==> {
                &&& r == Some(old(self).tx_state.reply_to)
                &&& final(self).tx_state.status matches TxStateStatus::Error(m) && m@
                    == "Timeout"@
                &&& final(self).tx_state.transaction is None
                &&& final(self).delegations == old(self).delegations
                &&& final(self).config == old(self).config
            },
    {
        self.sudo_error("Timeout".to_owned())
    }
}

/// Consumes the success notification of an in-flight undelegation and
/// advances the batch it settled: the slot is freed, the ledger shrinks
/// by the undelegated items, and the batch moves forward from submitted
/// to unbonding, to have its slashing effect recorded on a later
/// settlement poll.
pub fn settle_undelegate_success(
    p: &mut Puppeteer,
    batch: &mut crate::batch::UnbondBatch,
    unbond_at: u64,
) -> (r: (Transaction, Option<String>))
    requires
        old(p).wf(),
        old(batch).wf(),
        old(p).tx_state.status is InProgress,
        old(p).tx_state.transaction matches Some(Transaction::Undelegate { batch_id, .. })
            && batch_id == old(batch).id,
        old(batch).status is Submitted,
    ensures
        final(p).wf(),
        final(batch).wf(),
        final(p).tx_state.status is Idle,
        final(p).tx_state.transaction is None,
        Some(r.0) == old(p).tx_state.transaction,
        r.1 == old(p).tx_state.reply_to,
        ledger_view(final(p).delegations@) == ledger_after(
            ledger_view(old(p).delegations@),
            old(p).tx_state.transaction->0,
        ),
        final(batch).status is Unbonding,
        final(batch).unbond_at == Some(unbond_at),
        final(batch).id == old(batch).id,
        final(batch).total_requested == old(batch).total_requested,
        final(p).config == old(p).config,
        final(p).owner == old(p).owner,
        final(p).ica == old(p).ica,
        final(p).ibc_fee == old(p).ibc_fee,
{
    let done = p.sudo_response();
    batch.start_unbonding(unbond_at);
    match done {
        Some(r) => r,
        None => {
            proof {
                assert(false);
            }
            unreached()
        },
    }
}

/// Builds one protobuf message per `(validator, amount)` item, delegating
/// or undelegating from the given delegator in the given denomination.
fn build_staking_msgs(
    delegator: &String,
    denom: &String,
    items: &Vec<(String, u128)>,
    delegate: bool,
) -> (msgs: Vec<AnyMsg>)
    ensures
        msgs@.len() == items@.len(),
        delegate ==> forall|k: int|
            0 <= k < items@.len() ==> (#[trigger] msgs@[k]).type_url@
                == "/cosmos.staking.v1beta1.MsgDelegate"@ && msgs@[k].value@
                == delegate_msg_bytes(delegator@, items@[k].0@, denom@, items@[k].1),
        !delegate ==> forall|k: int|
            0 <= k < items@.len() ==> (#[trigger] msgs@[k]).type_url@
                == "/cosmos.staking.v1beta1.MsgUndelegate"@ && msgs@[k].value@
                == undelegate_msg_bytes(delegator@, items@[k].0@, denom@, items@[k].1),
{
    let mut msgs: Vec<AnyMsg> = Vec::new();
    let mut i: usize = 0;
    while i < items.len()
        invariant
            0 <= i <= items@.len(),
            msgs@.len() == i,
            delegate ==> forall|k: int|
                0 <= k < i ==> (#[trigger] msgs@[k]).type_url@
                    == "/cosmos.staking.v1beta1.MsgDelegate"@ && msgs@[k].value@
                    == delegate_msg_bytes(delegator@, items@[k].0@, denom@, items@[k].1),
            !delegate ==> forall|k: int|
                0 <= k < i ==> (#[trigger] msgs@[k]).type_url@
                    == "/cosmos.staking.v1beta1.MsgUndelegate"@ && msgs@[k].value@
                    == undelegate_msg_bytes(delegator@, items@[k].0@, denom@, items@[k].1),
        decreases items@.len() - i,
    {
        if delegate {
            let value = encode_delegate_msg(delegator, &items[i].0, denom, items[i].1);
            msgs.push(
                AnyMsg { type_url: "/cosmos.staking.v1beta1.MsgDelegate".to_owned(), value },
            );
        } else {
            let value = encode_undelegate_msg(delegator, &items[i].0, denom, items[i].1);
            msgs.push(
                AnyMsg { type_url: "/cosmos.staking.v1beta1.MsgUndelegate".to_owned(), value },
            );
        }
        i = i + 1;
    }
    msgs
}

} // verus!
