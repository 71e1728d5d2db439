//! The orders the receipt-token service takes.
//!
//! The service is a CW20 token contract. It takes its orders as JSON, and the
//! JSON is written by `serde_json` from the `cw20` crate's own message type.
//! Nothing here is proved about those bytes: they are named, so that a
//! contract can say which order an instruction carries. That they can always
//! be written is taken from the writer's source.

use vstd::prelude::*;

verus! {

#[verifier::external_type_specification]
#[verifier::external_body]
pub struct ExJsonError(serde_json::Error);

/// An order for the token service.
#[derive(Debug, PartialEq, Eq)]
pub enum TokenOrder {
    /// Create `amount` receipt tokens on the account of `recipient`.
    Mint { recipient: String, amount: u128 },
    /// Destroy `amount` receipt tokens of the caller's.
    Burn { amount: u128 },
}

/// The view of a [`TokenOrder`].
#[verifier::ext_equal]
pub enum TokenOrderView {
    Mint { recipient: Seq<char>, amount: u128 },
    Burn { amount: u128 },
}

impl View for TokenOrder {
    type V = TokenOrderView;

    open spec fn view(&self) -> TokenOrderView {
        match self {
            TokenOrder::Mint { recipient, amount } => TokenOrderView::Mint {
                recipient: recipient@,
                amount: *amount,
            },
            TokenOrder::Burn { amount } => TokenOrderView::Burn { amount: *amount },
        }
    }
}

/// The JSON that `serde_json::to_vec` writes for the `cw20::Cw20ExecuteMsg`
/// that says what `order` says: `Mint { recipient, amount }` for a mint and
/// `Burn { amount }` for a burn.
pub uninterp spec fn order_json(order: TokenOrderView) -> Seq<u8>;

/// Calls `serde_json::to_vec` on the `cw20::Cw20ExecuteMsg` for `order`.
///
/// Claimed, not proved: the call succeeds, and the bytes written depend on
/// the order alone. It succeeds because the message is a variant with fields
/// that are written as strings, the amount too, and all that can fail on
/// that path is the writer, which here is a vector.
#[verifier::external_body]
pub(crate) fn encode(order: &TokenOrder) -> (written: Result<Vec<u8>, serde_json::Error>)
    ensures
        written is Ok,
        written matches Ok(bytes) ==> bytes@ == order_json(order@),
{
    let msg = match order {
        TokenOrder::Mint { recipient, amount } => cw20::Cw20ExecuteMsg::Mint {
            recipient: recipient.clone(),
            amount: cosmwasm_std::Uint128::new(*amount),
        },
        TokenOrder::Burn { amount } => cw20::Cw20ExecuteMsg::Burn {
            amount: cosmwasm_std::Uint128::new(*amount),
        },
    };
    serde_json::to_vec(&msg)
}

/// Calls `to_string` on a `serde_json::Error`, which writes out what went
/// wrong. Nothing is claimed of the text.
#[verifier::external_body]
pub(crate) fn describe(error: &serde_json::Error) -> (text: String) {
    error.to_string()
}

} // verus!
