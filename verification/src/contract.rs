//! The campaign's lifecycle: creation, edits by the creator, pledges until
//! the deadline, reversals until settlement, and the settlement itself.
//!
//! Each operation either succeeds, changes the state and returns the
//! instructions for the host, or is rejected and changes nothing.

use vstd::prelude::*;
use crate::error::ContractError;
use crate::fee::{fee_of, payout_of, split};
use crate::ledger::{
    amount_of, credited, debited, holds, lemma_credited_amount, lemma_debited_amount, total,
    well_formed, Ledger,
};
use crate::msg::{
    coin_views, contribution_views, Coin, CoinView, ConfigResponse, ConfigView,
    ContributeResponse, ContributeResponseView, ContributionResponse, ContributionView,
    Instruction, InstructionView, RefundResponse, RefundResponseView, SettleResponse,
    SettleResponseView,
};
use crate::storage::{
    link_views, Campaign, CampaignMeta, CampaignMetaView, CampaignView, Link, LinkView,
};
use crate::token::{describe, encode, order_json, TokenOrder, TokenOrderView};

verus! {

/// The treasury, which receives the fee of every settlement.
pub const FEE_ADDRESS: &'static str =
    "cosmwasm1hqxd4t5mxg4m523cl5uk9xtc9fxvdd9qenm8ln9me3she99yvqnqxhpk8e";

/// One campaign with its configuration and its ledger.
#[derive(Debug)]
pub struct KickstarterContract {
    cw20_address: String,
    denom: String,
    campaign: Campaign,
    contributions: Ledger,
}

/// The view of a [`KickstarterContract`]: the whole state of a campaign.
#[verifier::ext_equal]
pub struct ContractView {
    /// Where the receipt token lives.
    pub cw20_address: Seq<char>,
    /// The denomination the campaign collects.
    pub denom: Seq<char>,
    /// The campaign record.
    pub campaign: CampaignView,
    /// The lines of the ledger, by ascending contributor.
    pub contributions: Seq<ContributionView>,
}

impl View for KickstarterContract {
    type V = ContractView;

    closed spec fn view(&self) -> ContractView {
        ContractView {
            cw20_address: self.cw20_address@,
            denom: self.denom@,
            campaign: self.campaign@,
            contributions: self.contributions@,
        }
    }
}

/// The campaign that `creator` creates from `meta`.
pub open spec fn created_campaign(creator: Seq<char>, meta: CampaignMetaView) -> CampaignView {
    CampaignView {
        name: meta.name,
        description: meta.description,
        end_time: meta.end_time,
        goal: meta.goal,
        links: meta.links,
        tiers: meta.tiers,
        creator,
        minimum_contribution: meta.minimum_contribution,
    }
}

/// Why a pledge made at `now` with `funds` attached is rejected, if it is.
/// The deadline is looked at first, then the funds, then the minimum.
pub open spec fn pledge_refusal(state: ContractView, now: u64, funds: Seq<CoinView>) -> Option<
    ContractError,
> {
    if now >= state.campaign.end_time {
        Some(ContractError::CampaignEnded)
    } else if funds.len() != 1 || funds[0].amount == 0 {
        Some(ContractError::NoFunds)
    } else if funds[0].denom != state.denom {
        Some(ContractError::InvalidDenom)
    } else if state.campaign.minimum_contribution is Some && funds[0].amount
        < state.campaign.minimum_contribution->0 {
        Some(ContractError::ContributionTooLow)
    } else {
        None
    }
}

/// Whether the cumulative pledge of `sender` stays within 128 bits if the
/// pledge made at `now` with `funds` is taken.
pub open spec fn pledge_fits(
    state: ContractView,
    sender: Seq<char>,
    now: u64,
    funds: Seq<CoinView>,
) -> bool {
    pledge_refusal(state, now, funds) is None ==> amount_of(state.contributions, sender)
        + funds[0].amount <= u128::MAX
}

/// The state after `sender` has pledged `amount`.
pub open spec fn pledged(state: ContractView, sender: Seq<char>, amount: u128) -> ContractView {
    ContractView { contributions: credited(state.contributions, sender, amount), ..state }
}

/// What a successful pledge of `amount` by `sender` returns: the new
/// cumulative pledge, and one instruction, to mint `amount` receipt tokens to
/// `sender`, with `msg` as the order in the form the token service takes.
pub open spec fn pledge_response(
    state: ContractView,
    sender: Seq<char>,
    amount: u128,
    msg: Seq<u8>,
) -> ContributeResponseView {
    ContributeResponseView {
        contribution: (amount_of(state.contributions, sender) + amount) as u128,
        messages: seq![
            InstructionView::Token {
                contract_addr: state.cw20_address,
                order: TokenOrderView::Mint { recipient: sender, amount },
                msg,
            },
        ],
    }
}

/// Why the return of `amount` receipt tokens by `sender` is rejected, if it
/// is.
pub open spec fn refund_refusal(state: ContractView, sender: Seq<char>, amount: u128) -> Option<
    ContractError,
> {
    if !holds(state.contributions, sender) {
        Some(ContractError::NoContribution)
    } else if amount > amount_of(state.contributions, sender) {
        Some(ContractError::AmountExceedsContribution)
    } else {
        None
    }
}

/// The state after `sender` has taken back `amount`.
pub open spec fn refunded(state: ContractView, sender: Seq<char>, amount: u128) -> ContractView {
    ContractView { contributions: debited(state.contributions, sender, amount), ..state }
}

/// What a successful reversal of `amount` by `sender` returns: the amount,
/// and two instructions, first to send `amount` of the campaign's
/// denomination back to `sender`, then to burn `amount` receipt tokens, with
/// `msg` as the order in the form the token service takes.
pub open spec fn refund_response(
    state: ContractView,
    sender: Seq<char>,
    amount: u128,
    msg: Seq<u8>,
) -> RefundResponseView {
    RefundResponseView {
        refunded: amount,
        messages: seq![
            InstructionView::Send { to_address: sender, amount, denom: state.denom },
            InstructionView::Token {
                contract_addr: state.cw20_address,
                order: TokenOrderView::Burn { amount },
                msg,
            },
        ],
    }
}

/// Why settlement asked for by `sender` at `now` is rejected, if it is.
pub open spec fn settlement_refusal(state: ContractView, sender: Seq<char>, now: u64) -> Option<
    ContractError,
> {
    if sender != state.campaign.creator {
        Some(ContractError::Unauthorized)
    } else if now < state.campaign.end_time {
        Some(ContractError::CampaignNotEnded)
    } else {
        None
    }
}

/// The state after settlement: the ledger is empty.
pub open spec fn settled(state: ContractView) -> ContractView {
    ContractView { contributions: Seq::<ContributionView>::empty(), ..state }
}

/// What settlement of a custodied `balance` returns: the creator's payout,
/// the treasury's fee, and two instructions, first to send the payout to the
/// creator, then to send the fee to the treasury.
pub open spec fn settlement_response(state: ContractView, balance: u128) -> SettleResponseView {
    SettleResponseView {
        payout: payout_of(balance as nat) as u128,
        fee: fee_of(balance as nat) as u128,
        messages: seq![
            InstructionView::Send {
                to_address: state.campaign.creator,
                amount: payout_of(balance as nat) as u128,
                denom: state.denom,
            },
            InstructionView::Send {
                to_address: FEE_ADDRESS@,
                amount: fee_of(balance as nat) as u128,
                denom: state.denom,
            },
        ],
    }
}

/// The state after the creator has edited the campaign: description, links
/// and minimum pledge are replaced, and nothing else.
pub open spec fn edited(
    state: ContractView,
    description: Seq<char>,
    links: Seq<LinkView>,
    minimum_contribution: Option<u128>,
) -> ContractView {
    ContractView {
        campaign: CampaignView { description, links, minimum_contribution, ..state.campaign },
        ..state
    }
}

/// What is fixed at creation stays fixed. A pledge, a reversal and a
/// settlement change nothing but the ledger. An edit leaves the ledger and
/// the configuration alone, and of the campaign its creator, deadline, name,
/// goal and tiers.
pub proof fn lemma_fixed_at_creation(
    state: ContractView,
    sender: Seq<char>,
    amount: u128,
    description: Seq<char>,
    links: Seq<LinkView>,
    minimum_contribution: Option<u128>,
)
    ensures
        pledged(state, sender, amount) == (ContractView {
            contributions: pledged(state, sender, amount).contributions,
            ..state
        }),
        refunded(state, sender, amount) == (ContractView {
            contributions: refunded(state, sender, amount).contributions,
            ..state
        }),
        settled(state) == (ContractView { contributions: settled(state).contributions, ..state }),
        ({
            let after = edited(state, description, links, minimum_contribution);
            &&& after.contributions == state.contributions
            &&& after.cw20_address == state.cw20_address
            &&& after.denom == state.denom
            &&& after.campaign.creator == state.campaign.creator
            &&& after.campaign.end_time == state.campaign.end_time
            &&& after.campaign.name == state.campaign.name
            &&& after.campaign.goal == state.campaign.goal
            &&& after.campaign.tiers == state.campaign.tiers
        }),
{
}

impl KickstarterContract {
    /// Puts a campaign together from its parts, as they were kept.
    pub fn new(
        cw20_address: String,
        denom: String,
        campaign: Campaign,
        contributions: Ledger,
    ) -> (contract: Self)
        ensures
            contract@ == (ContractView {
                cw20_address: cw20_address@,
                denom: denom@,
                campaign: campaign@,
                contributions: contributions@,
            }),
    {
        KickstarterContract { cw20_address, denom, campaign, contributions }
    }

    /// Creates the campaign that `sender` announces with `campaign`. The
    /// receipt token lives at `cw20_address` and pledges are taken in `denom`.
    /// Nothing is checked of the announcement; the ledger starts empty.
    pub fn instantiate(
        sender: String,
        cw20_address: String,
        denom: String,
        campaign: CampaignMeta,
    ) -> (contract: Self)
        ensures
            contract@ == (ContractView {
                cw20_address: cw20_address@,
                denom: denom@,
                campaign: created_campaign(sender@, campaign@),
                contributions: Seq::<ContributionView>::empty(),
            }),
    {
        let campaign = Campaign {
            name: campaign.name,
            description: campaign.description,
            end_time: campaign.end_time,
            links: campaign.links,
            goal: campaign.goal,
            tiers: campaign.tiers,
            creator: sender,
            minimum_contribution: campaign.minimum_contribution,
        };
        KickstarterContract { cw20_address, denom, campaign, contributions: Ledger::new() }
    }

    /// Looks at a pledge made at `now` with `funds` attached, and says why it
    /// is rejected, if it is.
    pub fn refuse_pledge(&self, now: u64, funds: &Vec<Coin>) -> (refusal: Option<ContractError>)
        ensures
            refusal == pledge_refusal(self@, now, coin_views(funds@)),
    {
        if now >= self.campaign.end_time {
            return Some(ContractError::CampaignEnded);
        }
        if funds.len() != 1 || funds[0].amount == 0 {
            return Some(ContractError::NoFunds);
        }
        if !(funds[0].denom == self.denom) {
            return Some(ContractError::InvalidDenom);
        }
        if let Some(minimum_contribution) = self.campaign.minimum_contribution {
            if funds[0].amount < minimum_contribution {
                return Some(ContractError::ContributionTooLow);
            }
        }
        None
    }

    /// Tells whether [`KickstarterContract::contribute`] may be called with
    /// these arguments: whether the sender's cumulative pledge would stay
    /// within 128 bits. A pledge that is rejected anyway always fits.
    pub fn pledge_fits(&self, sender: &String, now: u64, funds: &Vec<Coin>) -> (fits: bool)
        ensures
            fits == pledge_fits(self@, sender@, now, coin_views(funds@)),
    {
        match self.refuse_pledge(now, funds) {
            Some(_) => true,
            None => self.contributions.contribution(sender) <= u128::MAX - funds[0].amount,
        }
    }

    /// Takes the pledge that `sender` makes at `now` with `funds` attached.
    /// Times are in nanoseconds since the Unix epoch.
    ///
    /// The sender's cumulative pledge must stay within 128 bits:
    /// [`KickstarterContract::pledge_fits`] tells whether it does.
    ///
    /// The pledge is rejected as [`pledge_refusal`] says, and taken
    /// otherwise: the order to mint is written, the attached amount is added
    /// to the sender's line, and the new cumulative pledge is returned with
    /// the instruction to mint that amount to the sender.
    pub fn contribute(&mut self, sender: String, now: u64, funds: &Vec<Coin>) -> (outcome: Result<
        ContributeResponse,
        ContractError,
    >)
        requires
            pledge_fits(old(self)@, sender@, now, coin_views(funds@)),
        ensures
            now >= old(self)@.campaign.end_time ==> outcome == Err::<
                ContributeResponse,
                ContractError,
            >(ContractError::CampaignEnded),
            funds@.len() == 1 && old(self)@.campaign.minimum_contribution is Some
                && funds@[0].amount < old(self)@.campaign.minimum_contribution->0
                ==> outcome is Err,
            pledge_refusal(old(self)@, now, coin_views(funds@)) is None ==> outcome is Ok,
            match pledge_refusal(old(self)@, now, coin_views(funds@)) {
                Some(refusal) => outcome == Err::<ContributeResponse, ContractError>(refusal)
                    && final(self)@ == old(self)@,
                None => outcome matches Ok(response) && response@ == pledge_response(
                    old(self)@,
                    sender@,
                    funds@[0].amount,
                    order_json(
                        TokenOrderView::Mint { recipient: sender@, amount: funds@[0].amount },
                    ),
                ) && final(self)@ == pledged(old(self)@, sender@, funds@[0].amount),
            },
            outcome is Ok ==> total(final(self)@.contributions) == total(
                old(self)@.contributions,
            ) + funds@[0].amount,
    {
        if let Some(refusal) = self.refuse_pledge(now, funds) {
            return Err(refusal);
        }
        let order = TokenOrder::Mint { recipient: sender.clone(), amount: funds[0].amount };
        let written = encode(&order);
        self.complete_contribution(sender, now, funds, written)
    }

    /// Books the pledge that `sender` makes at `now` with `funds` attached,
    /// `written` being what writing the order to mint gave.
    ///
    /// The pledge is rejected as [`pledge_refusal`] says, whatever `written`
    /// is. Otherwise, with the order written, the attached amount is added to
    /// the sender's line and the response carries the order; with a failure,
    /// nothing changes and the failure is reported.
    pub fn complete_contribution(
        &mut self,
        sender: String,
        now: u64,
        funds: &Vec<Coin>,
        written: Result<Vec<u8>, serde_json::Error>,
    ) -> (outcome: Result<ContributeResponse, ContractError>)
        requires
            pledge_fits(old(self)@, sender@, now, coin_views(funds@)),
        ensures
            match pledge_refusal(old(self)@, now, coin_views(funds@)) {
                Some(refusal) => outcome == Err::<ContributeResponse, ContractError>(refusal)
                    && final(self)@ == old(self)@,
                None => match written {
                    Ok(msg) => outcome matches Ok(response) && response@ == pledge_response(
                        old(self)@,
                        sender@,
                        funds@[0].amount,
                        msg@,
                    ) && final(self)@ == pledged(old(self)@, sender@, funds@[0].amount),
                    Err(_) => outcome matches Err(ContractError::Serialization { .. })
                        && final(self)@ == old(self)@,
                },
            },
            outcome is Ok ==> total(final(self)@.contributions) == total(
                old(self)@.contributions,
            ) + funds@[0].amount,
    {
        if let Some(refusal) = self.refuse_pledge(now, funds) {
            return Err(refusal);
        }
        let amount = funds[0].amount;
        proof {
            use_type_invariant(&self.contributions);
            lemma_credited_amount(self@.contributions, sender@, amount);
        }
        match written {
            Ok(msg) => {
                let contribution = self.contributions.credit(sender.clone(), amount);
                let mint = Instruction::Token {
                    contract_addr: self.cw20_address.clone(),
                    order: TokenOrder::Mint { recipient: sender, amount },
                    msg,
                };
                let mut messages: Vec<Instruction> = Vec::new();
                messages.push(mint);
                let response = ContributeResponse { contribution, messages };
                assert(response@.messages =~= pledge_response(
                    old(self)@,
                    sender@,
                    amount,
                    msg@,
                ).messages);
                Ok(response)
            },
            Err(error) => Err(ContractError::Serialization { detail: describe(&error) }),
        }
    }

    /// Lets the creator replace the campaign's description, links and minimum
    /// pledge, and returns the campaign as it then is. Anyone else is turned
    /// away.
    pub fn update_campaign(
        &mut self,
        sender: &String,
        description: String,
        links: Vec<Link>,
        minimum_contribution: Option<u128>,
    ) -> (outcome: Result<Campaign, ContractError>)
        ensures
            sender@ != old(self)@.campaign.creator ==> outcome == Err::<Campaign, ContractError>(
                ContractError::Unauthorized,
            ) && final(self)@ == old(self)@,
            sender@ == old(self)@.campaign.creator ==> (outcome matches Ok(campaign) && campaign@
                == final(self)@.campaign) && final(self)@ == edited(
                old(self)@,
                description@,
                link_views(links@),
                minimum_contribution,
            ),
    {
        if !(self.campaign.creator == *sender) {
            return Err(ContractError::Unauthorized);
        }
        self.campaign.description = description;
        self.campaign.links = links;
        self.campaign.minimum_contribution = minimum_contribution;
        Ok(self.campaign.clone())
    }

    /// Looks at the return of `amount` receipt tokens by `sender`, and says
    /// why it is rejected, if it is.
    pub fn refuse_refund(&self, sender: &String, amount: u128) -> (refusal: Option<ContractError>)
        ensures
            refusal == refund_refusal(self@, sender@, amount),
    {
        let contribution = self.contributions.contribution(sender);
        if contribution == 0 {
            return Some(ContractError::NoContribution);
        }
        if amount > contribution {
            return Some(ContractError::AmountExceedsContribution);
        }
        None
    }

    /// Takes back `amount` of what `sender` has pledged, `sender` having
    /// returned as many receipt tokens. This is open before and after the
    /// deadline.
    ///
    /// The return is rejected as [`refund_refusal`] says, and taken
    /// otherwise: the order to burn is written, the amount is taken from the
    /// sender's line, which goes when nothing is left on it, and the
    /// instructions to send the amount back and to burn the tokens are
    /// returned.
    pub fn receive(&mut self, sender: String, amount: u128) -> (outcome: Result<
        RefundResponse,
        ContractError,
    >)
        ensures
            refund_refusal(old(self)@, sender@, amount) is None ==> outcome is Ok,
            match refund_refusal(old(self)@, sender@, amount) {
                Some(refusal) => outcome == Err::<RefundResponse, ContractError>(refusal)
                    && final(self)@ == old(self)@,
                None => outcome matches Ok(response) && response@ == refund_response(
                    old(self)@,
                    sender@,
                    amount,
                    order_json(TokenOrderView::Burn { amount }),
                ) && final(self)@ == refunded(old(self)@, sender@, amount),
            },
            outcome is Ok ==> total(final(self)@.contributions) == total(
                old(self)@.contributions,
            ) - amount,
    {
        if let Some(refusal) = self.refuse_refund(&sender, amount) {
            return Err(refusal);
        }
        let written = encode(&TokenOrder::Burn { amount });
        self.complete_refund(sender, amount, written)
    }

    /// Books the return of `amount` by `sender`, `written` being what writing
    /// the order to burn gave.
    ///
    /// The return is rejected as [`refund_refusal`] says, whatever `written`
    /// is. Otherwise, with the order written, the amount is taken from the
    /// sender's line and the response carries the order; with a failure,
    /// nothing changes and the failure is reported.
    pub fn complete_refund(
        &mut self,
        sender: String,
        amount: u128,
        written: Result<Vec<u8>, serde_json::Error>,
    ) -> (outcome: Result<RefundResponse, ContractError>)
        ensures
            match refund_refusal(old(self)@, sender@, amount) {
                Some(refusal) => outcome == Err::<RefundResponse, ContractError>(refusal)
                    && final(self)@ == old(self)@,
                None => match written {
                    Ok(msg) => outcome matches Ok(response) && response@ == refund_response(
                        old(self)@,
                        sender@,
                        amount,
                        msg@,
                    ) && final(self)@ == refunded(old(self)@, sender@, amount),
                    Err(_) => outcome matches Err(ContractError::Serialization { .. })
                        && final(self)@ == old(self)@,
                },
            },
            outcome is Ok ==> total(final(self)@.contributions) == total(
                old(self)@.contributions,
            ) - amount,
    {
        if let Some(refusal) = self.refuse_refund(&sender, amount) {
            return Err(refusal);
        }
        proof {
            use_type_invariant(&self.contributions);
            lemma_debited_amount(self@.contributions, sender@, amount);
        }
        match written {
            Ok(msg) => {
                let _ = self.contributions.debit(&sender, amount);
                let send = Instruction::Send {
                    to_address: sender,
                    amount,
                    denom: self.denom.clone(),
                };
                let burn = Instruction::Token {
                    contract_addr: self.cw20_address.clone(),
                    order: TokenOrder::Burn { amount },
                    msg,
                };
                let mut messages: Vec<Instruction> = Vec::new();
                messages.push(send);
                messages.push(burn);
                let response = RefundResponse { refunded: amount, messages };
                assert(response@.messages =~= refund_response(
                    old(self)@,
                    sender@,
                    amount,
                    msg@,
                ).messages);
                Ok(response)
            },
            Err(error) => Err(ContractError::Serialization { detail: describe(&error) }),
        }
    }

    /// Looks at a settlement asked for by `sender` at `now`, and says why it
    /// is rejected, if it is. A host that has to fetch the balance first can
    /// ask this before it does.
    pub fn refuse_settlement(&self, sender: &String, now: u64) -> (refusal: Option<ContractError>)
        ensures
            refusal == settlement_refusal(self@, sender@, now),
    {
        if !(self.campaign.creator == *sender) {
            return Some(ContractError::Unauthorized);
        }
        if now < self.campaign.end_time {
            return Some(ContractError::CampaignNotEnded);
        }
        None
    }

    /// Settles the campaign for its creator, from the deadline on: `balance`,
    /// which is what the host holds of the campaign's denomination, is split
    /// between the creator and the treasury, and the ledger is cleared.
    /// Anyone else is turned away, and so is the creator before the deadline.
    ///
    /// Settling again is not refused: with nothing left in custody it pays
    /// out nothing.
    pub fn end_campaign(&mut self, sender: &String, now: u64, balance: u128) -> (outcome: Result<
        SettleResponse,
        ContractError,
    >)
        ensures
            sender@ != old(self)@.campaign.creator ==> outcome == Err::<
                SettleResponse,
                ContractError,
            >(ContractError::Unauthorized),
            now < old(self)@.campaign.end_time ==> outcome is Err,
            match settlement_refusal(old(self)@, sender@, now) {
                Some(refusal) => outcome == Err::<SettleResponse, ContractError>(refusal)
                    && final(self)@ == old(self)@,
                None => outcome matches Ok(response) && response@ == settlement_response(
                    old(self)@,
                    balance,
                ) && final(self)@ == settled(old(self)@),
            },
    {
        if let Some(refusal) = self.refuse_settlement(sender, now) {
            return Err(refusal);
        }
        let (payout, fee) = split(balance);
        let to_creator = Instruction::Send {
            to_address: self.campaign.creator.clone(),
            amount: payout,
            denom: self.denom.clone(),
        };
        let to_treasury = Instruction::Send {
            to_address: FEE_ADDRESS.to_owned(),
            amount: fee,
            denom: self.denom.clone(),
        };
        let mut messages: Vec<Instruction> = Vec::new();
        messages.push(to_creator);
        messages.push(to_treasury);
        self.contributions.clear();
        let response = SettleResponse { payout, fee, messages };
        assert(response@.messages =~= settlement_response(old(self)@, balance).messages);
        Ok(response)
    }

    /// The campaign as it is now.
    pub fn info(&self) -> (campaign: Campaign)
        ensures
            campaign@ == self@.campaign,
    {
        self.campaign.clone()
    }

    /// The configuration.
    pub fn config(&self) -> (config: ConfigResponse)
        ensures
            config@ == (ConfigView { cw20_address: self@.cw20_address, denom: self@.denom }),
    {
        ConfigResponse { cw20_address: self.cw20_address.clone(), denom: self.denom.clone() }
    }

    /// All lines of the ledger, by ascending contributor.
    pub fn contributions(&self) -> (lines: Vec<ContributionResponse>)
        ensures
            contribution_views(lines@) == self@.contributions,
            well_formed(contribution_views(lines@)),
    {
        proof {
            use_type_invariant(&self.contributions);
        }
        self.contributions.entries()
    }

    /// The cumulative pledge of `address`: zero where it has no line.
    pub fn contribution(&self, address: &String) -> (amount: u128)
        ensures
            amount == amount_of(self@.contributions, address@),
            amount > 0 <==> holds(self@.contributions, address@),
    {
        self.contributions.contribution(address)
    }
}

} // verus!
