use distributor::contract::{
    execute, execute_deposit, execute_set, execute_withdraw, instantiate, owner_set, query,
    query_accounts, query_limit, query_records,
};
use distributor::error::ContractError;
use distributor::msg::{ExecuteMsg, InstantiateMsg, QueryAnswer, QueryMsg};
use distributor::state::{Config, Record};
use distributor::types::{addr_validate, Addr, BankMsg, Coin, MessageInfo, Response};

fn init_msg(amount: u128) -> InstantiateMsg {
    InstantiateMsg {
        arbiter: String::from("verifies"),
        burn: String::from("benefits"),
        development: String::from("creator"),
        amount,
        denom: String::from("earth"),
    }
}

fn addr(s: &str) -> Addr {
    Addr { addr: String::from(s) }
}

fn info(sender: &str, funds: Vec<Coin>) -> MessageInfo {
    MessageInfo { sender: addr(sender), funds }
}

fn coins(amount: u128, denom: &str) -> Vec<Coin> {
    vec![Coin { denom: String::from(denom), amount }]
}

fn send_parts(msg: &BankMsg) -> (String, Vec<Coin>) {
    match msg {
        BankMsg::Send { to_address, amount } => (to_address.clone(), amount.clone()),
    }
}

#[test]
fn proper_initialization() {
    let msg = init_msg(1000);
    let (config, record) = instantiate(&msg).unwrap();
    assert_eq!(
        config,
        Config {
            arbiter: addr("verifies"),
            burn: addr("benefits"),
            development: addr("creator"),
            amount: 1000,
            denom: String::from("earth"),
        }
    );
    assert_eq!(record, Record { burn: 0, jackpot: 0, development: 0 });
}

#[test]
fn instantiate_rejects_malformed_identity() {
    let mut msg = init_msg(1000);
    msg.arbiter = String::from("NO");
    assert_eq!(instantiate(&msg), Err(ContractError::InvalidIdentity));

    let mut msg = init_msg(1000);
    msg.development = String::from("UPPER_CASE");
    assert_eq!(instantiate(&msg), Err(ContractError::InvalidIdentity));
}

#[test]
fn addr_validate_accepts_and_rejects() {
    assert_eq!(addr_validate("verifies").unwrap(), addr("verifies"));
    assert_eq!(addr_validate("abc123").unwrap(), addr("abc123"));
    assert_eq!(addr_validate("ab"), Err(ContractError::InvalidIdentity));
    assert_eq!(addr_validate("has space"), Err(ContractError::InvalidIdentity));
    assert_eq!(addr_validate("Mixed"), Err(ContractError::InvalidIdentity));
    let long = "a".repeat(91);
    assert_eq!(addr_validate(&long), Err(ContractError::InvalidIdentity));
    let longest = "a".repeat(90);
    assert_eq!(addr_validate(&longest).unwrap(), addr(&longest));
}

#[test]
fn deposit_splits_exactly() {
    let (config, mut record) = instantiate(&init_msg(1000)).unwrap();
    let resp = execute_deposit(&config, &mut record, &info("anyone", coins(1000, "earth")))
        .unwrap();

    assert_eq!(record, Record { burn: 850, jackpot: 100, development: 50 });

    assert_eq!(resp.messages.len(), 2);
    let (to0, coins0) = send_parts(&resp.messages[0]);
    assert_eq!(to0, "benefits");
    assert_eq!(coins0, coins(850, "earth"));
    let (to1, coins1) = send_parts(&resp.messages[1]);
    assert_eq!(to1, "creator");
    assert_eq!(coins1, coins(50, "earth"));

    assert_eq!(resp.attributes.len(), 4);
    assert_eq!(resp.attributes[0].key, "action");
    assert_eq!(resp.attributes[0].value, "distribute");
    assert_eq!(resp.attributes[1].key, "to");
    assert_eq!(resp.attributes[1].value, "benefits");
    assert_eq!(resp.attributes[2].value, "distribute");
    assert_eq!(resp.attributes[3].value, "creator");
}

#[test]
fn deposit_accumulates() {
    let (config, mut record) = instantiate(&init_msg(1000)).unwrap();
    execute_deposit(&config, &mut record, &info("anyone", coins(1000, "earth"))).unwrap();
    execute_deposit(&config, &mut record, &info("other", coins(1000, "earth"))).unwrap();
    assert_eq!(record, Record { burn: 1700, jackpot: 200, development: 100 });
}

#[test]
fn deposit_truncates_remainder() {
    // 19 is not a multiple of 20: 16 + 1 + 0 == 17 < 19, the rest is forfeited.
    let (config, mut record) = instantiate(&init_msg(19)).unwrap();
    execute_deposit(&config, &mut record, &info("anyone", coins(19, "earth"))).unwrap();
    assert_eq!(record, Record { burn: 16, jackpot: 1, development: 0 });
}

#[test]
fn deposit_multiple_of_twenty_is_exhaustive() {
    let (config, mut record) = instantiate(&init_msg(20)).unwrap();
    execute_deposit(&config, &mut record, &info("anyone", coins(20, "earth"))).unwrap();
    assert_eq!(record, Record { burn: 17, jackpot: 2, development: 1 });
    assert_eq!(17 + 2 + 1, 20);
}

#[test]
fn deposit_rejects_wrong_amount() {
    let (config, mut record) = instantiate(&init_msg(1000)).unwrap();
    let res = execute_deposit(&config, &mut record, &info("anyone", coins(999, "earth")));
    assert_eq!(res, Err(ContractError::InvalidAmount));
    let res = execute_deposit(&config, &mut record, &info("anyone", coins(1001, "earth")));
    assert_eq!(res, Err(ContractError::InvalidAmount));
    let res = execute_deposit(&config, &mut record, &info("anyone", vec![]));
    assert_eq!(res, Err(ContractError::InvalidAmount));
    assert_eq!(record, Record { burn: 0, jackpot: 0, development: 0 });
}

#[test]
fn withdraw_pays_from_jackpot() {
    let (config, mut record) = instantiate(&init_msg(1000)).unwrap();
    execute_deposit(&config, &mut record, &info("anyone", coins(1000, "earth"))).unwrap();
    assert_eq!(record.jackpot, 100);

    let resp = execute_withdraw(
        &config,
        &mut record,
        &info("verifies", vec![]),
        &String::from("winner"),
        60,
    )
    .unwrap();

    assert_eq!(record, Record { burn: 850, jackpot: 40, development: 50 });
    assert_eq!(resp.messages.len(), 1);
    let (to, sent) = send_parts(&resp.messages[0]);
    assert_eq!(to, "winner");
    // denominated in the configured asset, not a hardcoded one
    assert_eq!(sent, coins(60, "earth"));
    assert_eq!(resp.attributes.len(), 2);
    assert_eq!(resp.attributes[0].value, "withdraw");
    assert_eq!(resp.attributes[1].value, "winner");
}

#[test]
fn withdraw_rejects_insufficient_balance() {
    let (config, mut record) = instantiate(&init_msg(1000)).unwrap();
    execute_deposit(&config, &mut record, &info("anyone", coins(1000, "earth"))).unwrap();
    let before = record;
    let res = execute_withdraw(
        &config,
        &mut record,
        &info("verifies", vec![]),
        &String::from("winner"),
        101,
    );
    assert_eq!(res, Err(ContractError::InsufficientBalance));
    assert_eq!(record, before);
}

#[test]
fn withdraw_rejects_non_controller() {
    let (config, mut record) = instantiate(&init_msg(1000)).unwrap();
    execute_deposit(&config, &mut record, &info("anyone", coins(1000, "earth"))).unwrap();
    let before = record;
    let res = execute_withdraw(
        &config,
        &mut record,
        &info("intruder", vec![]),
        &String::from("winner"),
        10,
    );
    assert_eq!(res, Err(ContractError::Unauthorized));
    assert_eq!(record, before);
}

#[test]
fn withdraw_rejects_malformed_receiver() {
    let (config, mut record) = instantiate(&init_msg(1000)).unwrap();
    execute_deposit(&config, &mut record, &info("anyone", coins(1000, "earth"))).unwrap();
    let before = record;
    let res = execute_withdraw(
        &config,
        &mut record,
        &info("verifies", vec![]),
        &String::from("BAD ADDRESS"),
        10,
    );
    assert_eq!(res, Err(ContractError::InvalidIdentity));
    assert_eq!(record, before);
}

#[test]
fn withdraw_of_everything_empties_jackpot() {
    let (config, mut record) = instantiate(&init_msg(1000)).unwrap();
    execute_deposit(&config, &mut record, &info("anyone", coins(1000, "earth"))).unwrap();
    execute_withdraw(
        &config,
        &mut record,
        &info("verifies", vec![]),
        &String::from("winner"),
        100,
    )
    .unwrap();
    assert_eq!(record, Record { burn: 850, jackpot: 0, development: 50 });
}

#[test]
fn set_amount_requires_controller() {
    let (mut config, _record) = instantiate(&init_msg(1000)).unwrap();
    let res = execute_set(&mut config, &info("intruder", vec![]), 5);
    assert_eq!(res, Err(ContractError::Unauthorized));
    assert_eq!(config.amount, 1000);
}

#[test]
fn set_amount_replaces_only_the_amount() {
    let (mut config, _record) = instantiate(&init_msg(1000)).unwrap();
    let resp = execute_set(&mut config, &info("verifies", vec![]), 2048).unwrap();
    assert_eq!(resp, Response { messages: vec![], attributes: vec![] });
    assert_eq!(
        config,
        Config {
            arbiter: addr("verifies"),
            burn: addr("benefits"),
            development: addr("creator"),
            amount: 2048,
            denom: String::from("earth"),
        }
    );
}

#[test]
fn set_owner_replaces_only_the_controller() {
    let (mut config, _record) = instantiate(&init_msg(1000)).unwrap();
    owner_set(&mut config, &info("verifies", vec![]), &String::from("successor")).unwrap();
    assert_eq!(config.arbiter, addr("successor"));
    assert_eq!(config.burn, addr("benefits"));
    assert_eq!(config.amount, 1000);

    // the old controller lost its powers, the new one has them
    let res = execute_set(&mut config, &info("verifies", vec![]), 5);
    assert_eq!(res, Err(ContractError::Unauthorized));
    execute_set(&mut config, &info("successor", vec![]), 5).unwrap();
    assert_eq!(config.amount, 5);
}

#[test]
fn set_owner_rejects_non_controller_and_bad_identity() {
    let (mut config, _record) = instantiate(&init_msg(1000)).unwrap();
    let before = config.clone();
    let res = owner_set(&mut config, &info("intruder", vec![]), &String::from("successor"));
    assert_eq!(res, Err(ContractError::Unauthorized));
    assert_eq!(config, before);
    let res = owner_set(&mut config, &info("verifies", vec![]), &String::from("??"));
    assert_eq!(res, Err(ContractError::InvalidIdentity));
    assert_eq!(config, before);
}

#[test]
fn execute_routes_each_message() {
    let (mut config, mut record) = instantiate(&init_msg(1000)).unwrap();

    let resp = execute(
        &mut config,
        &mut record,
        &info("anyone", coins(1000, "earth")),
        ExecuteMsg::Deposit {},
    )
    .unwrap();
    assert_eq!(resp.messages.len(), 2);
    assert_eq!(record, Record { burn: 850, jackpot: 100, development: 50 });

    let resp = execute(
        &mut config,
        &mut record,
        &info("verifies", vec![]),
        ExecuteMsg::Withdraw { receiver: String::from("winner"), amount: 60 },
    )
    .unwrap();
    assert_eq!(resp.messages.len(), 1);
    assert_eq!(record, Record { burn: 850, jackpot: 40, development: 50 });

    execute(
        &mut config,
        &mut record,
        &info("verifies", vec![]),
        ExecuteMsg::SetAmount { amount: 876 },
    )
    .unwrap();
    assert_eq!(config.amount, 876);

    execute(
        &mut config,
        &mut record,
        &info("verifies", vec![]),
        ExecuteMsg::SetOwner { arbiter: String::from("successor") },
    )
    .unwrap();
    assert_eq!(config.arbiter, addr("successor"));
}

#[test]
fn queries_are_read_only_and_repeatable() {
    let (config, mut record) = instantiate(&init_msg(1000)).unwrap();
    execute_deposit(&config, &mut record, &info("anyone", coins(1000, "earth"))).unwrap();
    let config_before = config.clone();
    let record_before = record;

    let a1 = query_accounts(&config);
    let a2 = query_accounts(&config);
    assert_eq!(a1, a2);
    assert_eq!(a1.arbiter, addr("verifies"));
    assert_eq!(a1.burn, addr("benefits"));
    assert_eq!(a1.development, addr("creator"));
    assert_eq!(a1.amount, 1000);

    let r1 = query_records(&record);
    let r2 = query_records(&record);
    assert_eq!(r1, r2);
    assert_eq!((r1.burn, r1.jackpot, r1.development), (850, 100, 50));

    let l1 = query_limit(&config);
    let l2 = query_limit(&config);
    assert_eq!(l1, l2);
    assert_eq!(l1.limit, 1000);

    assert_eq!(query(&config, &record, QueryMsg::Accounts {}), QueryAnswer::Accounts(a1));
    assert_eq!(query(&config, &record, QueryMsg::Records {}), QueryAnswer::Records(r1));
    assert_eq!(query(&config, &record, QueryMsg::Limit {}), QueryAnswer::Limit(l1));

    // the state the queries saw is untouched
    assert_eq!(config, config_before);
    assert_eq!(record, record_before);
}
