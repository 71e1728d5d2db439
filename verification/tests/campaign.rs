//! The campaign against a simulated chain: a bank that holds the native
//! currency and a CW20 contract that holds the receipt token. The test plays
//! the host: it moves the attached funds, calls the core, and carries out the
//! instructions the core returns.

use cosmwasm_std::{
    coin, coins, Addr, BankMsg, Binary, Coin as NativeCoin, CosmosMsg, Empty, Timestamp, Uint128,
    WasmMsg,
};
use cw20::{BalanceResponse, MinterResponse};
use cw_multi_test::{App, Contract, ContractWrapper, Executor};

use kickstarter::contract::{KickstarterContract, FEE_ADDRESS};
use kickstarter::error::ContractError;
use kickstarter::msg::{Coin, ContributionResponse, Instruction};
use kickstarter::storage::{Campaign, CampaignMeta};

pub fn contract_cw20() -> Box<dyn Contract<Empty>> {
    let contract = ContractWrapper::new(
        cw20_base::contract::execute,
        cw20_base::contract::instantiate,
        cw20_base::contract::query,
    );
    Box::new(contract)
}

const INIT: &str = "init";

struct Chain {
    router: App,
    core: KickstarterContract,
    cw20_addr: Addr,
    kickstarter_addr: Addr,
    admin: Addr,
    user: Addr,
    fee: Addr,
}

// Initial setup: the creator puts 1000 down at creation, which the campaign
// holds from then on.
fn setup_contracts() -> Chain {
    setup(true)
}

// The same, but for the creator's 1000: they go to the campaign, or else to
// the treasury, so that all the campaign ever holds is what was pledged.
fn setup(deposit_to_campaign: bool) -> Chain {
    let init = Addr::unchecked(INIT);

    let init_funds = coins(2000, "ustars");

    let mut router = App::new(|router, _, storage| {
        router
            .bank
            .init_balance(storage, &init, init_funds.clone())
            .unwrap();
    });

    let admin = router.api().addr_make("admin");
    let user = router.api().addr_make("user");
    let fee = router.api().addr_make("fee");
    let kickstarter_addr = router.api().addr_make("kickstarter");

    router
        .send_tokens(init.clone(), user.clone(), &coins(1000, "ustars"))
        .unwrap();
    router
        .send_tokens(init, admin.clone(), &coins(1000, "ustars"))
        .unwrap();

    // Set up CW20 contract
    let cw20_id = router.store_code(contract_cw20());
    let msg = cw20_base::msg::InstantiateMsg {
        name: String::from("My Campaign Token"),
        symbol: String::from("MCT"),
        decimals: 6,
        initial_balances: vec![],
        mint: Some(MinterResponse {
            minter: admin.to_string(),
            cap: None,
        }),
        marketing: None,
    };
    let cw20_addr = router
        .instantiate_contract(cw20_id, admin.clone(), &msg, &[], "MCT_CW20", None)
        .unwrap();

    // Set up the campaign
    let core = KickstarterContract::instantiate(
        admin.to_string(),
        cw20_addr.to_string(),
        "ustars".to_string(),
        CampaignMeta {
            name: "My Campaign".to_string(),
            description: "My Campaign Description".to_string(),
            end_time: Timestamp::from_seconds(86400).nanos(),
            goal: 10000,
            links: vec![],
            tiers: vec![],
            minimum_contribution: Some(100),
        },
    );
    let deposit_to = if deposit_to_campaign { kickstarter_addr.clone() } else { fee.clone() };
    router
        .send_tokens(admin.clone(), deposit_to, &coins(1000, "ustars"))
        .unwrap();

    let msg = cw20::Cw20ExecuteMsg::UpdateMinter {
        new_minter: Some(kickstarter_addr.to_string()),
    };

    router
        .execute_contract(admin.clone(), cw20_addr.clone(), &msg, &[])
        .unwrap();

    let mut block = router.block_info();
    block.time = Timestamp::from_seconds(1);
    router.set_block(block);

    Chain { router, core, cw20_addr, kickstarter_addr, admin, user, fee }
}

// Update block time
fn add_block_time(router: &mut App, seconds: u64) {
    let mut block = router.block_info();
    block.time = block.time.plus_seconds(seconds);
    router.set_block(block);
}

fn now(router: &App) -> u64 {
    router.block_info().time.nanos()
}

// What the host does with the instructions of a successful call.
fn carry_out(router: &mut App, from: &Addr, messages: &[Instruction]) {
    for message in messages {
        let msg: CosmosMsg = match message {
            Instruction::Token { contract_addr, msg, .. } => WasmMsg::Execute {
                contract_addr: contract_addr.clone(),
                msg: Binary::new(msg.clone()),
                funds: vec![],
            }
            .into(),
            Instruction::Send { to_address, amount, denom } => BankMsg::Send {
                to_address: to_address.clone(),
                amount: vec![coin(*amount, denom.clone())],
            }
            .into(),
        };
        router.execute(from.clone(), msg).unwrap();
    }
}

// A pledge as the chain sees it: the funds move, then the core is called,
// then its instructions are carried out.
fn contribute(
    chain: &mut Chain,
    sender: &Addr,
    funds: &[NativeCoin],
) -> Result<u128, ContractError> {
    let attached: Vec<Coin> = funds
        .iter()
        .map(|c| Coin { denom: c.denom.clone(), amount: c.amount.u128() })
        .collect();
    let time = now(&chain.router);
    let response = chain.core.contribute(sender.to_string(), time, &attached)?;
    chain
        .router
        .send_tokens(sender.clone(), chain.kickstarter_addr.clone(), funds)
        .unwrap();
    carry_out(&mut chain.router, &chain.kickstarter_addr, &response.messages);
    Ok(response.contribution)
}

// A reversal as the chain sees it: the receipt tokens come back, then the
// core is called, then its instructions are carried out.
fn refund(chain: &mut Chain, sender: &Addr, amount: u128) -> Result<u128, ContractError> {
    let response = chain.core.receive(sender.to_string(), amount)?;
    let msg = cw20::Cw20ExecuteMsg::Transfer {
        recipient: chain.kickstarter_addr.to_string(),
        amount: Uint128::from(amount),
    };
    chain
        .router
        .execute_contract(sender.clone(), chain.cw20_addr.clone(), &msg, &[])
        .unwrap();
    carry_out(&mut chain.router, &chain.kickstarter_addr, &response.messages);
    Ok(response.refunded)
}

fn end_campaign(chain: &mut Chain, sender: &Addr) -> Result<(u128, u128), ContractError> {
    let balance: NativeCoin = chain
        .router
        .wrap()
        .query_balance(chain.kickstarter_addr.clone(), "ustars".to_string())
        .unwrap();
    let time = now(&chain.router);
    let response = chain
        .core
        .end_campaign(&sender.to_string(), time, balance.amount.u128())?;
    carry_out(&mut chain.router, &chain.kickstarter_addr, &response.messages);
    Ok((response.payout, response.fee))
}

fn token_balance(chain: &Chain, of: &Addr) -> Uint128 {
    let balance: BalanceResponse = chain
        .router
        .wrap()
        .query_wasm_smart(
            chain.cw20_addr.clone(),
            &cw20::Cw20QueryMsg::Balance {
                address: of.to_string(),
            },
        )
        .unwrap();
    balance.balance
}

#[test]
fn proper_initialization() {
    setup_contracts();
}

#[test]
fn the_treasury_is_the_fee_account() {
    let chain = setup_contracts();
    assert_eq!(chain.fee.as_str(), FEE_ADDRESS);
}

#[test]
fn try_contribute() {
    let mut chain = setup_contracts();
    let user = chain.user.clone();

    // Contribute to the campaign
    contribute(&mut chain, &user, &[coin(100, "ustars".to_string())]).unwrap();

    let campaign: Campaign = chain.core.info();
    assert_eq!(campaign.minimum_contribution.unwrap(), 100);

    // Ensure the user is now a contributor
    let contributors: Vec<ContributionResponse> = chain.core.contributions();
    assert_eq!(contributors.len(), 1);
    assert_eq!(contributors[0].contributor, user.to_string());

    // Ensure the user's contribution is recorded
    let contribution: u128 = chain.core.contribution(&user.to_string());
    assert_eq!(contribution, 100);
}

#[test]
fn try_contribute_below_minimum() {
    let mut chain = setup_contracts();
    let user = chain.user.clone();

    // Contribute to the campaign
    let res = contribute(&mut chain, &user, &[coin(50, "ustars".to_string())]);

    assert!(res.is_err());
    assert_eq!(res, Err(ContractError::ContributionTooLow));
}

#[test]
fn try_refund() {
    let mut chain = setup_contracts();
    let user = chain.user.clone();

    // Contribute to the campaign
    contribute(&mut chain, &user, &[coin(100, "ustars".to_string())]).unwrap();

    // Ensure the user's balance is updated
    assert_eq!(token_balance(&chain, &user), Uint128::new(100));

    // Refund the user
    refund(&mut chain, &user, 100).unwrap();

    // Ensure the user's balance is refunded
    let user_balance: NativeCoin = chain
        .router
        .wrap()
        .query_balance(user.clone(), "ustars".to_string())
        .unwrap();
    assert_eq!(user_balance.amount, Uint128::new(1000));

    // Ensure the receipt tokens are gone
    assert_eq!(token_balance(&chain, &user), Uint128::new(0));
    assert_eq!(token_balance(&chain, &chain.kickstarter_addr), Uint128::new(0));

    // Ensure the user is no longer a contributor
    let contributors: Vec<ContributionResponse> = chain.core.contributions();
    assert_eq!(contributors.len(), 0);
}

#[test]
pub fn try_refund_without_contribution() {
    let mut chain = setup_contracts();
    let user = chain.user.clone();

    // Refund the user
    let res = refund(&mut chain, &user, 100);

    assert!(res.is_err());
    assert_eq!(res, Err(ContractError::NoContribution));
}

#[test]
pub fn try_refund_too_many_tokens() {
    let mut chain = setup_contracts();
    let user = chain.user.clone();

    // Contribute to the campaign
    contribute(&mut chain, &user, &[coin(100, "ustars".to_string())]).unwrap();

    // Ensure the user's balance is updated
    assert_eq!(token_balance(&chain, &user), Uint128::new(100));

    // Refund the user
    let res = refund(&mut chain, &user, 101);

    assert!(res.is_err());
    assert_eq!(res, Err(ContractError::AmountExceedsContribution));
}

#[test]
pub fn try_end_campaign() {
    let mut chain = setup_contracts();
    let user = chain.user.clone();
    let admin = chain.admin.clone();

    // Contribute to the campaign
    contribute(&mut chain, &user, &[coin(100, "ustars".to_string())]).unwrap();

    // Ensure the user's balance is updated
    assert_eq!(token_balance(&chain, &user), Uint128::new(100));

    // Push time to after campaign end
    add_block_time(&mut chain.router, 86400);

    // End the campaign. What is split is all the campaign holds: the pledge
    // of 100 and the creator's own 1000.
    assert_eq!(end_campaign(&mut chain, &admin), Ok((1045, 55)));

    // Ensure the admin has received the campaign balance
    let admin_balance: NativeCoin = chain
        .router
        .wrap()
        .query_balance(admin, "ustars".to_string())
        .unwrap();
    assert_eq!(admin_balance.amount, Uint128::new(1045));

    // Ensure the fee account has received its twentieth
    let fee_balance: NativeCoin = chain
        .router
        .wrap()
        .query_balance(chain.fee.clone(), "ustars".to_string())
        .unwrap();
    assert_eq!(fee_balance.amount, Uint128::new(55));

    // Ensure nothing is left in custody and the ledger is cleared
    let left: NativeCoin = chain
        .router
        .wrap()
        .query_balance(chain.kickstarter_addr.clone(), "ustars".to_string())
        .unwrap();
    assert_eq!(left.amount, Uint128::new(0));
    assert_eq!(chain.core.contributions().len(), 0);
}

#[test]
pub fn end_campaign_on_pledges_alone() {
    let mut chain = setup(false);
    let user = chain.user.clone();
    let admin = chain.admin.clone();

    // Contribute to the campaign
    contribute(&mut chain, &user, &[coin(100, "ustars".to_string())]).unwrap();

    // Ensure the user's balance is updated
    assert_eq!(token_balance(&chain, &user), Uint128::new(100));

    // Push time to after campaign end
    add_block_time(&mut chain.router, 86400);

    // End the campaign
    assert_eq!(end_campaign(&mut chain, &admin), Ok((95, 5)));

    // Ensure the admin has received the campaign balance
    let admin_balance: NativeCoin = chain
        .router
        .wrap()
        .query_balance(admin, "ustars".to_string())
        .unwrap();
    assert_eq!(admin_balance.amount, Uint128::new(95));

    // Ensure the fee account has received 5ustars
    let fee_balance: NativeCoin = chain
        .router
        .wrap()
        .query_balance(chain.fee.clone(), "ustars".to_string())
        .unwrap();
    assert_eq!(fee_balance.amount, Uint128::new(1005));

    // Ensure the ledger is cleared
    assert_eq!(chain.core.contributions().len(), 0);
}

#[test]
pub fn try_end_campaign_before_end() {
    let mut chain = setup_contracts();
    let admin = chain.admin.clone();

    // End the campaign
    let res = end_campaign(&mut chain, &admin);

    assert!(res.is_err());
    assert_eq!(res, Err(ContractError::CampaignNotEnded));
}
