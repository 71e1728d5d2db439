//! What goes in and out of the controller besides the campaign itself:
//! attached funds, answers to queries, and the instructions a successful call
//! hands to the host.

use vstd::prelude::*;
use crate::token::{TokenOrder, TokenOrderView};

verus! {

/// An amount of native currency of one denomination, as attached to a call.
#[derive(Debug, PartialEq, Eq)]
pub struct Coin {
    pub denom: String,
    pub amount: u128,
}

/// The view of a [`Coin`].
#[verifier::ext_equal]
pub struct CoinView {
    pub denom: Seq<char>,
    pub amount: u128,
}

impl View for Coin {
    type V = CoinView;

    open spec fn view(&self) -> CoinView {
        CoinView { denom: self.denom@, amount: self.amount }
    }
}

impl Clone for Coin {
    fn clone(&self) -> (copy: Self)
        ensures
            copy@ == self@,
    {
        Coin { denom: self.denom.clone(), amount: self.amount }
    }
}

/// The configuration: where the receipt token lives and which denomination
/// the campaign collects. Both are set when the campaign is created and never
/// change.
#[derive(Debug, PartialEq, Eq)]
pub struct ConfigResponse {
    pub cw20_address: String,
    pub denom: String,
}

/// The view of a [`ConfigResponse`].
#[verifier::ext_equal]
pub struct ConfigView {
    pub cw20_address: Seq<char>,
    pub denom: Seq<char>,
}

impl View for ConfigResponse {
    type V = ConfigView;

    open spec fn view(&self) -> ConfigView {
        ConfigView { cw20_address: self.cw20_address@, denom: self.denom@ }
    }
}

impl Clone for ConfigResponse {
    fn clone(&self) -> (copy: Self)
        ensures
            copy@ == self@,
    {
        ConfigResponse { cw20_address: self.cw20_address.clone(), denom: self.denom.clone() }
    }
}

/// One line of the ledger: a contributor and all they have pledged and not
/// taken back.
#[derive(Debug, PartialEq, Eq)]
pub struct ContributionResponse {
    pub contributor: String,
    pub amount: u128,
}

/// The view of a [`ContributionResponse`].
#[verifier::ext_equal]
pub struct ContributionView {
    pub contributor: Seq<char>,
    pub amount: u128,
}

impl View for ContributionResponse {
    type V = ContributionView;

    open spec fn view(&self) -> ContributionView {
        ContributionView { contributor: self.contributor@, amount: self.amount }
    }
}

impl Clone for ContributionResponse {
    fn clone(&self) -> (copy: Self)
        ensures
            copy@ == self@,
    {
        ContributionResponse { contributor: self.contributor.clone(), amount: self.amount }
    }
}

/// The views of a list of ledger lines, in order.
pub open spec fn contribution_views(lines: Seq<ContributionResponse>) -> Seq<ContributionView> {
    Seq::new(lines.len(), |i: int| lines[i]@)
}

/// The views of a list of coins, in order.
pub open spec fn coin_views(coins: Seq<Coin>) -> Seq<CoinView> {
    Seq::new(coins.len(), |i: int| coins[i]@)
}

/// Something the host has to carry out after a successful call. The core
/// emits instructions; it does not execute them.
#[derive(Debug, PartialEq, Eq)]
pub enum Instruction {
    /// Hand `order` to the token service at `contract_addr`. `msg` is the
    /// order as the service takes it.
    Token { contract_addr: String, order: TokenOrder, msg: Vec<u8> },
    /// Send `amount` of native currency `denom` to `to_address`.
    Send { to_address: String, amount: u128, denom: String },
}

/// The view of an [`Instruction`].
#[verifier::ext_equal]
pub enum InstructionView {
    Token { contract_addr: Seq<char>, order: TokenOrderView, msg: Seq<u8> },
    Send { to_address: Seq<char>, amount: u128, denom: Seq<char> },
}

impl View for Instruction {
    type V = InstructionView;

    open spec fn view(&self) -> InstructionView {
        match self {
            Instruction::Token { contract_addr, order, msg } => InstructionView::Token {
                contract_addr: contract_addr@,
                order: order@,
                msg: msg@,
            },
            Instruction::Send { to_address, amount, denom } => InstructionView::Send {
                to_address: to_address@,
                amount: *amount,
                denom: denom@,
            },
        }
    }
}

/// The views of a list of instructions, in order.
pub open spec fn instruction_views(messages: Seq<Instruction>) -> Seq<InstructionView> {
    Seq::new(messages.len(), |i: int| messages[i]@)
}

/// What a successful pledge returns.
#[derive(Debug, PartialEq, Eq)]
pub struct ContributeResponse {
    /// The contributor's cumulative pledge after this one.
    pub contribution: u128,
    /// The instructions for the host.
    pub messages: Vec<Instruction>,
}

/// The view of a [`ContributeResponse`].
#[verifier::ext_equal]
pub struct ContributeResponseView {
    pub contribution: u128,
    pub messages: Seq<InstructionView>,
}

impl View for ContributeResponse {
    type V = ContributeResponseView;

    open spec fn view(&self) -> ContributeResponseView {
        ContributeResponseView {
            contribution: self.contribution,
            messages: instruction_views(self.messages@),
        }
    }
}

/// What a successful reversal returns.
#[derive(Debug, PartialEq, Eq)]
pub struct RefundResponse {
    /// The amount given back.
    pub refunded: u128,
    /// The instructions for the host.
    pub messages: Vec<Instruction>,
}

/// The view of a [`RefundResponse`].
#[verifier::ext_equal]
pub struct RefundResponseView {
    pub refunded: u128,
    pub messages: Seq<InstructionView>,
}

impl View for RefundResponse {
    type V = RefundResponseView;

    open spec fn view(&self) -> RefundResponseView {
        RefundResponseView { refunded: self.refunded, messages: instruction_views(self.messages@) }
    }
}

/// What a successful settlement returns.
#[derive(Debug, PartialEq, Eq)]
pub struct SettleResponse {
    /// What goes to the creator.
    pub payout: u128,
    /// What goes to the treasury.
    pub fee: u128,
    /// The instructions for the host.
    pub messages: Vec<Instruction>,
}

/// The view of a [`SettleResponse`].
#[verifier::ext_equal]
pub struct SettleResponseView {
    pub payout: u128,
    pub fee: u128,
    pub messages: Seq<InstructionView>,
}

impl View for SettleResponse {
    type V = SettleResponseView;

    open spec fn view(&self) -> SettleResponseView {
        SettleResponseView {
            payout: self.payout,
            fee: self.fee,
            messages: instruction_views(self.messages@),
        }
    }
}

} // verus!
