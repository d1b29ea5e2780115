//! The contract's handlers: instantiation, the four mutating operations,
//! and the read-only queries. Each handler takes full copies of the
//! persisted state, either leaves them untouched and fails with a typed
//! error, or produces the new state together with the transfer instructions
//! the host is to execute.

use crate::error::ContractError;
use crate::math::share;
use crate::math::mul_pct;
use crate::msg::{
    accounts_response_matches, spec_limit_response, spec_records_response, AccountsResponse,
    ExecuteMsg, InstantiateMsg, LimitResponse, QueryAnswer, QueryMsg, RecordsResponse,
};
use crate::state::{Config, Record};
use crate::types::{
    addr_validate, is_attr, is_send_to, valid_addr, Addr, BankMsg, Coin, MessageInfo, Response,
};
use vstd::prelude::*;

verus! {

/// The deposit guard: a payment is attached and its amount equals the
/// configured deposit amount exactly.
pub open spec fn deposit_accepted(config: Config, info: MessageInfo) -> bool {
    &&& info.funds@.len() >= 1
    &&& info.funds@[0].amount == config.amount
}

/// Each bucket has room for its share of one deposit.
pub open spec fn deposit_fits(config: Config, record: Record) -> bool {
    &&& record.burn + share(config.amount, 85) <= u128::MAX
    &&& record.jackpot + share(config.amount, 10) <= u128::MAX
    &&& record.development + share(config.amount, 5) <= u128::MAX
}

/// The ledger after a deposit of `amount`: every bucket grows by its share.
pub open spec fn record_after_deposit(record: Record, amount: u128) -> Record {
    Record {
        burn: (record.burn + share(amount, 85)) as u128,
        jackpot: (record.jackpot + share(amount, 10)) as u128,
        development: (record.development + share(amount, 5)) as u128,
    }
}

/// The response a deposit returns: the burn share goes to the burn sink and
/// the development share to the development sink, both denominated in the
/// attached payment's asset. The jackpot share stays in contract custody.
pub open spec fn deposit_response(resp: Response, config: Config, denom: Seq<char>) -> bool {
    &&& resp.messages@.len() == 2
    &&& is_send_to(resp.messages@[0], config.burn@, denom, share(config.amount, 85) as u128)
    &&& is_send_to(resp.messages@[1], config.development@, denom, share(config.amount, 5) as u128)
    &&& resp.attributes@.len() == 4
    &&& is_attr(resp.attributes@[0], "action"@, "distribute"@)
    &&& is_attr(resp.attributes@[1], "to"@, config.burn@)
    &&& is_attr(resp.attributes@[2], "action"@, "distribute"@)
    &&& is_attr(resp.attributes@[3], "to"@, config.development@)
}

/// Why a withdrawal is rejected, if it is: the caller must be the
/// controller, the jackpot bucket must cover the amount, and the receiver
/// must be well-formed — checked in that order.
pub open spec fn withdraw_error(
    config: Config,
    record: Record,
    sender: Seq<char>,
    receiver: Seq<char>,
    amount: u128,
) -> Option<ContractError> {
    if sender != config.arbiter@ {
        Some(ContractError::Unauthorized)
    } else if amount > record.jackpot {
        Some(ContractError::InsufficientBalance)
    } else if !valid_addr(receiver) {
        Some(ContractError::InvalidIdentity)
    } else {
        None
    }
}

/// The ledger after a withdrawal: the jackpot bucket shrinks by the amount,
/// the other buckets are untouched.
pub open spec fn record_after_withdraw(record: Record, amount: u128) -> Record
    recommends
        amount <= record.jackpot,
{
    Record {
        burn: record.burn,
        jackpot: (record.jackpot - amount) as u128,
        development: record.development,
    }
}

/// The ledger's invariant across its two transitions: a deposit with room
/// in every bucket decreases no bucket, and a covered withdrawal shrinks
/// the jackpot bucket by exactly the amount while leaving the burn and
/// development buckets untouched. So the burn and development totals are
/// monotonically non-decreasing, and the jackpot total never underflows.
pub proof fn lemma_record_invariant(record: Record, amount: u128)
    ensures
        (record.burn + share(amount, 85) <= u128::MAX && record.jackpot + share(amount, 10)
            <= u128::MAX && record.development + share(amount, 5) <= u128::MAX) ==> {
            let d = record_after_deposit(record, amount);
            &&& d.burn >= record.burn
            &&& d.jackpot >= record.jackpot
            &&& d.development >= record.development
        },
        amount <= record.jackpot ==> {
            let w = record_after_withdraw(record, amount);
            &&& w.burn == record.burn
            &&& w.development == record.development
            &&& w.jackpot == record.jackpot - amount
        },
{
}

/// The response a withdrawal returns: one transfer of the amount to the
/// receiver, denominated in the contract's configured asset.
pub open spec fn withdraw_response(
    resp: Response,
    receiver: Seq<char>,
    denom: Seq<char>,
    amount: u128,
) -> bool {
    &&& resp.messages@.len() == 1
    &&& is_send_to(resp.messages@[0], receiver, denom, amount)
    &&& resp.attributes@.len() == 2
    &&& is_attr(resp.attributes@[0], "action"@, "withdraw"@)
    &&& is_attr(resp.attributes@[1], "to"@, receiver)
}

/// Creates the contract state: validates the three identities, then returns
/// the initial configuration and a zeroed ledger. Runs once, at contract
/// creation; the deployer is implicitly trusted, so there is no
/// authorization check.
pub fn instantiate(msg: &InstantiateMsg) -> (res: Result<(Config, Record), ContractError>)
    ensures
        match res {
            Ok(pair) => {
                &&& valid_addr(msg.arbiter@)
                &&& valid_addr(msg.burn@)
                &&& valid_addr(msg.development@)
                &&& pair.0.wf()
                &&& pair.0.arbiter@ == msg.arbiter@
                &&& pair.0.burn@ == msg.burn@
                &&& pair.0.development@ == msg.development@
                &&& pair.0.amount == msg.amount
                &&& pair.0.denom@ == msg.denom@
                &&& pair.1 == (Record { burn: 0u128, jackpot: 0u128, development: 0u128 })
            },
            Err(e) => {
                &&& e == ContractError::InvalidIdentity
                &&& !(valid_addr(msg.arbiter@) && valid_addr(msg.burn@) && valid_addr(
                    msg.development@,
                ))
            },
        },
{
    let arbiter = addr_validate(msg.arbiter.as_str())?;
    let burn = addr_validate(msg.burn.as_str())?;
    let development = addr_validate(msg.development.as_str())?;
    let config = Config { arbiter, burn, development, amount: msg.amount, denom: msg.denom.clone() };
    let record = Record { burn: 0, jackpot: 0, development: 0 };
    Ok((config, record))
}

/// Accepts the attached payment if it equals the configured deposit amount
/// exactly, splits it 85% / 10% / 5% by truncating division into the burn,
/// jackpot and development buckets, and emits the two outbound transfers.
pub fn execute_deposit(config: &Config, record: &mut Record, info: &MessageInfo) -> (res: Result<
    Response,
    ContractError,
>)
    requires
        deposit_accepted(*config, *info) ==> deposit_fits(*config, *old(record)),
    ensures
        match res {
            Ok(resp) => {
                &&& deposit_accepted(*config, *info)
                &&& *final(record) == record_after_deposit(*old(record), config.amount)
                &&& deposit_response(resp, *config, info.funds@[0].denom@)
            },
            Err(e) => {
                &&& e == ContractError::InvalidAmount
                &&& !deposit_accepted(*config, *info)
                &&& *final(record) == *old(record)
            },
        },
{
    if info.funds.len() < 1 {
        return Err(ContractError::InvalidAmount);
    }
    let amount = info.funds[0].amount;
    if amount != config.amount {
        return Err(ContractError::InvalidAmount);
    }
    let denom = &info.funds[0].denom;
    let burn_share = mul_pct(amount, 85);
    let jackpot_share = mul_pct(amount, 10);
    let dev_share = mul_pct(amount, 5);
    record.burn = record.burn + burn_share;
    record.jackpot = record.jackpot + jackpot_share;
    record.development = record.development + dev_share;
    let burn_coins = vec![Coin { denom: denom.clone(), amount: burn_share }];
    let dev_coins = vec![Coin { denom: denom.clone(), amount: dev_share }];
    Ok(
        send_batch_tokens(
            config.burn.clone(),
            burn_coins,
            config.development.clone(),
            dev_coins,
            "distribute",
        ),
    )
}

/// Pays `amount` from the jackpot bucket to `receiver`. Only the controller
/// may call; the jackpot must cover the amount, and the receiver must be a
/// well-formed identity. The transfer is denominated in the contract's
/// configured asset.
pub fn execute_withdraw(
    config: &Config,
    record: &mut Record,
    info: &MessageInfo,
    receiver: &String,
    amount: u128,
) -> (res: Result<Response, ContractError>)
    ensures
        match res {
            Ok(resp) => {
                &&& withdraw_error(*config, *old(record), info.sender@, receiver@, amount)
                    is None
                &&& *final(record) == record_after_withdraw(*old(record), amount)
                &&& withdraw_response(resp, receiver@, config.denom@, amount)
            },
            Err(e) => {
                &&& Some(e) == withdraw_error(
                    *config,
                    *old(record),
                    info.sender@,
                    receiver@,
                    amount,
                )
                &&& *final(record) == *old(record)
            },
        },
{
    if !(info.sender.addr == config.arbiter.addr) {
        return Err(ContractError::Unauthorized);
    }
    if amount > record.jackpot {
        return Err(ContractError::InsufficientBalance);
    }
    let to = addr_validate(receiver.as_str())?;
    record.jackpot = record.jackpot - amount;
    let coins = vec![Coin { denom: config.denom.clone(), amount }];
    Ok(send_tokens(to, coins, "withdraw"))
}

/// Replaces the configured deposit amount. Only the controller may call;
/// every other configuration field is unchanged.
pub fn execute_set(config: &mut Config, info: &MessageInfo, amount: u128) -> (res: Result<
    Response,
    ContractError,
>)
    ensures
        match res {
            Ok(resp) => {
                &&& info.sender@ == old(config).arbiter@
                &&& final(config).arbiter == old(config).arbiter
                &&& final(config).burn == old(config).burn
                &&& final(config).development == old(config).development
                &&& final(config).denom == old(config).denom
                &&& final(config).amount == amount
                &&& old(config).wf() ==> final(config).wf()
                &&& resp.messages@.len() == 0
                &&& resp.attributes@.len() == 0
            },
            Err(e) => {
                &&& e == ContractError::Unauthorized
                &&& info.sender@ != old(config).arbiter@
                &&& *final(config) == *old(config)
            },
        },
{
    if !(info.sender.addr == config.arbiter.addr) {
        return Err(ContractError::Unauthorized);
    }
    config.amount = amount;
    Ok(Response::new())
}

/// Replaces the controller identity. Only the current controller may call;
/// the new identity must be well-formed, and every other configuration
/// field is unchanged.
pub fn owner_set(config: &mut Config, info: &MessageInfo, arbiter: &String) -> (res: Result<
    Response,
    ContractError,
>)
    ensures
        match res {
            Ok(resp) => {
                &&& info.sender@ == old(config).arbiter@
                &&& valid_addr(arbiter@)
                &&& final(config).arbiter@ == arbiter@
                &&& final(config).burn == old(config).burn
                &&& final(config).development == old(config).development
                &&& final(config).amount == old(config).amount
                &&& final(config).denom == old(config).denom
                &&& old(config).wf() ==> final(config).wf()
                &&& resp.messages@.len() == 0
                &&& resp.attributes@.len() == 0
            },
            Err(e) => {
                &&& *final(config) == *old(config)
                &&& if info.sender@ != old(config).arbiter@ {
                    e == ContractError::Unauthorized
                } else {
                    e == ContractError::InvalidIdentity && !valid_addr(arbiter@)
                }
            },
        },
{
    if !(info.sender.addr == config.arbiter.addr) {
        return Err(ContractError::Unauthorized);
    }
    let new_arbiter = addr_validate(arbiter.as_str())?;
    config.arbiter = new_arbiter;
    Ok(Response::new())
}

/// Routes a mutating request to its handler.
pub fn execute(
    config: &mut Config,
    record: &mut Record,
    info: &MessageInfo,
    msg: ExecuteMsg,
) -> (res: Result<Response, ContractError>)
    requires
        (msg is Deposit && deposit_accepted(*old(config), *info)) ==> deposit_fits(
            *old(config),
            *old(record),
        ),
    ensures
        match msg {
            ExecuteMsg::Deposit {  } => {
                &&& *final(config) == *old(config)
                &&& match res {
                    Ok(resp) => {
                        &&& deposit_accepted(*old(config), *info)
                        &&& *final(record) == record_after_deposit(
                            *old(record),
                            old(config).amount,
                        )
                        &&& deposit_response(resp, *old(config), info.funds@[0].denom@)
                    },
                    Err(e) => {
                        &&& e == ContractError::InvalidAmount
                        &&& !deposit_accepted(*old(config), *info)
                        &&& *final(record) == *old(record)
                    },
                }
            },
            ExecuteMsg::Withdraw { receiver, amount } => {
                &&& *final(config) == *old(config)
                &&& match res {
                    Ok(resp) => {
                        &&& withdraw_error(
                            *old(config),
                            *old(record),
                            info.sender@,
                            receiver@,
                            amount,
                        ) is None
                        &&& *final(record) == record_after_withdraw(*old(record), amount)
                        &&& withdraw_response(resp, receiver@, old(config).denom@, amount)
                    },
                    Err(e) => {
                        &&& Some(e) == withdraw_error(
                            *old(config),
                            *old(record),
                            info.sender@,
                            receiver@,
                            amount,
                        )
                        &&& *final(record) == *old(record)
                    },
                }
            },
            ExecuteMsg::SetAmount { amount } => {
                &&& *final(record) == *old(record)
                &&& match res {
                    Ok(resp) => {
                        &&& info.sender@ == old(config).arbiter@
                        &&& final(config).arbiter == old(config).arbiter
                        &&& final(config).burn == old(config).burn
                        &&& final(config).development == old(config).development
                        &&& final(config).denom == old(config).denom
                        &&& final(config).amount == amount
                        &&& resp.messages@.len() == 0
                        &&& resp.attributes@.len() == 0
                    },
                    Err(e) => {
                        &&& e == ContractError::Unauthorized
                        &&& info.sender@ != old(config).arbiter@
                        &&& *final(config) == *old(config)
                    },
                }
            },
            ExecuteMsg::SetOwner { arbiter } => {
                &&& *final(record) == *old(record)
                &&& match res {
                    Ok(resp) => {
                        &&& info.sender@ == old(config).arbiter@
                        &&& valid_addr(arbiter@)
                        &&& final(config).arbiter@ == arbiter@
                        &&& final(config).burn == old(config).burn
                        &&& final(config).development == old(config).development
                        &&& final(config).amount == old(config).amount
                        &&& final(config).denom == old(config).denom
                        &&& resp.messages@.len() == 0
                        &&& resp.attributes@.len() == 0
                    },
                    Err(e) => {
                        &&& *final(config) == *old(config)
                        &&& if info.sender@ != old(config).arbiter@ {
                            e == ContractError::Unauthorized
                        } else {
                            e == ContractError::InvalidIdentity && !valid_addr(arbiter@)
                        }
                    },
                }
            },
        },
{
    match msg {
        ExecuteMsg::Deposit {  } => execute_deposit(&*config, record, info),
        ExecuteMsg::Withdraw { receiver, amount } => execute_withdraw(
            &*config,
            record,
            info,
            &receiver,
            amount,
        ),
        ExecuteMsg::SetAmount { amount } => execute_set(config, info, amount),
        ExecuteMsg::SetOwner { arbiter } => owner_set(config, info, &arbiter),
    }
}

/// A helper that builds the response for one outbound transfer, with its
/// audit attribute pair.
pub fn send_tokens(to_address: Addr, amount: Vec<Coin>, action: &str) -> (resp: Response)
    ensures
        resp.messages@.len() == 1,
        (resp.messages@[0] matches BankMsg::Send { to_address: t, amount: a } && t@ == to_address@
            && a@ == amount@),
        resp.attributes@.len() == 2,
        is_attr(resp.attributes@[0], "action"@, action@),
        is_attr(resp.attributes@[1], "to"@, to_address@),
{
    let to = to_address.clone().into_string();
    Response::new().add_message(BankMsg::Send { to_address: to, amount }).add_attribute(
        "action".to_owned(),
        action.to_owned(),
    ).add_attribute("to".to_owned(), to_address.into_string())
}

/// A helper that builds the response for two outbound transfers, each with
/// its audit attribute pair.
pub fn send_batch_tokens(
    to_address1: Addr,
    amount1: Vec<Coin>,
    to_address2: Addr,
    amount2: Vec<Coin>,
    action: &str,
) -> (resp: Response)
    ensures
        resp.messages@.len() == 2,
        (resp.messages@[0] matches BankMsg::Send { to_address: t, amount: a } && t@ == to_address1@
            && a@ == amount1@),
        (resp.messages@[1] matches BankMsg::Send { to_address: t, amount: a } && t@ == to_address2@
            && a@ == amount2@),
        resp.attributes@.len() == 4,
        is_attr(resp.attributes@[0], "action"@, action@),
        is_attr(resp.attributes@[1], "to"@, to_address1@),
        is_attr(resp.attributes@[2], "action"@, action@),
        is_attr(resp.attributes@[3], "to"@, to_address2@),
{
    let to1 = to_address1.clone().into_string();
    let to2 = to_address2.clone().into_string();
    Response::new().add_message(BankMsg::Send { to_address: to1, amount: amount1 }).add_message(
        BankMsg::Send { to_address: to2, amount: amount2 },
    ).add_attribute("action".to_owned(), action.to_owned()).add_attribute(
        "to".to_owned(),
        to_address1.into_string(),
    ).add_attribute("action".to_owned(), action.to_owned()).add_attribute(
        "to".to_owned(),
        to_address2.into_string(),
    )
}

/// Snapshot of the configuration; read-only.
pub fn query_accounts(config: &Config) -> (res: AccountsResponse)
    ensures
        accounts_response_matches(res, *config),
{
    AccountsResponse {
        arbiter: config.arbiter.clone(),
        burn: config.burn.clone(),
        development: config.development.clone(),
        amount: config.amount,
    }
}

/// Snapshot of the three bucket totals; read-only and fully determined by
/// the state.
pub fn query_records(record: &Record) -> (res: RecordsResponse)
    ensures
        res == spec_records_response(*record),
{
    RecordsResponse {
        burn: record.burn,
        jackpot: record.jackpot,
        development: record.development,
    }
}

/// The configured deposit amount alone; read-only and fully determined by
/// the state.
pub fn query_limit(config: &Config) -> (res: LimitResponse)
    ensures
        res == spec_limit_response(*config),
{
    LimitResponse { limit: config.amount }
}

/// Routes a read-only request. The state is taken by shared reference, so
/// no query can mutate it, and each answer is a function of the state
/// alone: repeated calls on the same state return the same answer.
pub fn query(config: &Config, record: &Record, msg: QueryMsg) -> (res: QueryAnswer)
    ensures
        match msg {
            QueryMsg::Accounts {  } => (res matches QueryAnswer::Accounts(a)
                && accounts_response_matches(a, *config)),
            QueryMsg::Records {  } => res == QueryAnswer::Records(spec_records_response(*record)),
            QueryMsg::Limit {  } => res == QueryAnswer::Limit(spec_limit_response(*config)),
        },
{
    match msg {
        QueryMsg::Accounts {  } => QueryAnswer::Accounts(query_accounts(config)),
        QueryMsg::Records {  } => QueryAnswer::Records(query_records(record)),
        QueryMsg::Limit {  } => QueryAnswer::Limit(query_limit(config)),
    }
}

} // verus!
