//! What a caller must pay with a call, and how that is checked.

use crate::host::{CoinView, MessageInfo};
use vstd::prelude::*;

verus! {

/// Why the coins that came with a call are not accepted.
#[derive(Clone, Debug, PartialEq, Eq)]
pub enum PaymentError {
    /// The one coin sent is not of the denomination asked for, which is named.
    MissingDenom(String),
    /// A coin of a denomination that is not accepted, which is named.
    ExtraDenom(String),
    /// More than one coin was sent.
    MultipleDenoms,
    /// Nothing was sent, or a coin of amount zero.
    NoFunds,
    /// Coins were sent with a call that takes none.
    NonPayable,
}

/// The mathematical value of a [`PaymentError`].
pub enum PaymentErrorView {
    MissingDenom(Seq<char>),
    ExtraDenom(Seq<char>),
    MultipleDenoms,
    NoFunds,
    NonPayable,
}

impl DeepView for PaymentError {
    type V = PaymentErrorView;

    open spec fn deep_view(&self) -> PaymentErrorView {
        match self {
            PaymentError::MissingDenom(denom) => PaymentErrorView::MissingDenom(denom@),
            PaymentError::ExtraDenom(denom) => PaymentErrorView::ExtraDenom(denom@),
            PaymentError::MultipleDenoms => PaymentErrorView::MultipleDenoms,
            PaymentError::NoFunds => PaymentErrorView::NoFunds,
            PaymentError::NonPayable => PaymentErrorView::NonPayable,
        }
    }
}

/// The text of a payment error.
pub open spec fn payment_error_text(error: PaymentErrorView) -> Seq<char> {
    match error {
        PaymentErrorView::MissingDenom(denom) => "Must send reserve token '"@ + denom + "'"@,
        PaymentErrorView::ExtraDenom(denom) => "Received unsupported denom '"@ + denom + "'"@,
        PaymentErrorView::MultipleDenoms => "Sent more than one denomination"@,
        PaymentErrorView::NoFunds => "No funds sent"@,
        PaymentErrorView::NonPayable => "This message does no accept funds"@,
    }
}

impl PaymentError {
    /// The text of the error.
    pub fn message(&self) -> (text: String)
        ensures
            text@ == payment_error_text(self.deep_view()),
    {
        match self {
            PaymentError::MissingDenom(denom) => {
                let mut text = String::from_str("Must send reserve token '");
                text.append(denom.as_str());
                text.append("'");
                text
            },
            PaymentError::ExtraDenom(denom) => {
                let mut text = String::from_str("Received unsupported denom '");
                text.append(denom.as_str());
                text.append("'");
                text
            },
            PaymentError::MultipleDenoms => String::from_str("Sent more than one denomination"),
            PaymentError::NoFunds => String::from_str("No funds sent"),
            PaymentError::NonPayable => String::from_str("This message does no accept funds"),
        }
    }
}

/// The amount that a call pays in `denom`, where it pays in exactly one
/// coin, of that denomination and not of amount zero; else what is wrong.
pub open spec fn payment_due(funds: Seq<CoinView>, denom: Seq<char>) -> Result<
    u128,
    PaymentErrorView,
> {
    if funds.len() == 0 {
        Err(PaymentErrorView::NoFunds)
    } else if funds.len() > 1 {
        Err(PaymentErrorView::MultipleDenoms)
    } else if funds[0].amount == 0 {
        Err(PaymentErrorView::NoFunds)
    } else if funds[0].denom != denom {
        Err(PaymentErrorView::MissingDenom(denom))
    } else {
        Ok(funds[0].amount)
    }
}

/// Calls `cw_utils::must_pay` on the caller's coins. The contract states
/// what that function's source shows: it accepts exactly one coin, of the
/// denomination asked for and of an amount above zero, and returns that
/// amount; it reports no coin or a zero coin as no funds, several coins as
/// such, and one coin of another denomination as missing the one asked for.
#[verifier::external_body]
pub(crate) fn must_pay(info: &MessageInfo, denom: &str) -> (result: Result<u128, PaymentError>)
    ensures
        match payment_due(info.deep_view().funds, denom@) {
            Ok(amount) => result == Ok::<u128, PaymentError>(amount),
            Err(error) => result matches Err(e) && e.deep_view() == error,
        },
{
    let outside = cosmwasm_std::MessageInfo {
        sender: cosmwasm_std::Addr::unchecked(info.sender.clone()),
        funds: info.funds.iter().map(|c| cosmwasm_std::coin(c.amount, c.denom.clone())).collect(),
    };
    match cw_utils::must_pay(&outside, denom) {
        Ok(amount) => Ok(amount.u128()),
        Err(cw_utils::PaymentError::MissingDenom(d)) => Err(PaymentError::MissingDenom(d)),
        Err(cw_utils::PaymentError::ExtraDenom(d)) => Err(PaymentError::ExtraDenom(d)),
        Err(cw_utils::PaymentError::MultipleDenoms {}) => Err(PaymentError::MultipleDenoms),
        Err(cw_utils::PaymentError::NoFunds {}) => Err(PaymentError::NoFunds),
        Err(cw_utils::PaymentError::NonPayable {}) => Err(PaymentError::NonPayable),
    }
}

} // verus!
