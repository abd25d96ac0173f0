//! Why the controller refuses a call.

use crate::governance::{status_label, status_text, ProposalStatus};
use crate::limits::{timeout_limits_message, timeout_limits_text};
use crate::ownership::{error_text, OwnershipError, OwnershipErrorView};
use crate::text::{append_decimal, decimal};
use vstd::prelude::*;

verus! {

/// Why the controller refuses a call.
#[derive(Clone, Debug, PartialEq, Eq)]
pub enum ContractError {
    /// The host could not do its part, for the reason given.
    Std(String),
    /// Nothing is stored under the name given.
    NotFound { kind: String },
    /// The caller may not do this.
    Unauthorized,
    /// The stored code is not one that this code can take over from.
    MigrationError,
    /// The proposal has been dispatched before.
    ProposalAlreadyExists { proposal_id: u64 },
    /// The timeout lies outside the policy bounds.
    TimeoutLimitsError,
    /// The time at which a packet would time out cannot be represented.
    TimeoutOverflow,
    /// The channel is not unordered.
    InvalidOrdering,
    /// The channel does not speak the relay's protocol version.
    InvalidVersion,
    /// The other side does not speak the relay's protocol version.
    InvalidCounterpartyVersion,
    /// A packet speaks of a proposal that this controller never dispatched.
    ProposalNotFound { proposal_id: u64 },
    /// The proposal had ended before, with the status given.
    ProposalAlreadyFinalized { proposal_id: u64, status: ProposalStatus },
    /// Channels of the relay are never closed.
    ChannelCloseNotAllowed,
    /// A step of an ownership handover was refused.
    Ownership(OwnershipError),
}

/// The mathematical value of a [`ContractError`].
pub enum ContractErrorView {
    Std(Seq<char>),
    NotFound { kind: Seq<char> },
    Unauthorized,
    MigrationError,
    ProposalAlreadyExists { proposal_id: u64 },
    TimeoutLimitsError,
    TimeoutOverflow,
    InvalidOrdering,
    InvalidVersion,
    InvalidCounterpartyVersion,
    ProposalNotFound { proposal_id: u64 },
    ProposalAlreadyFinalized { proposal_id: u64, status: ProposalStatus },
    ChannelCloseNotAllowed,
    Ownership(OwnershipErrorView),
}

impl DeepView for ContractError {
    type V = ContractErrorView;

    open spec fn deep_view(&self) -> ContractErrorView {
        match self {
            ContractError::Std(reason) => ContractErrorView::Std(reason@),
            ContractError::NotFound { kind } => ContractErrorView::NotFound { kind: kind@ },
            ContractError::Unauthorized => ContractErrorView::Unauthorized,
            ContractError::MigrationError => ContractErrorView::MigrationError,
            ContractError::ProposalAlreadyExists { proposal_id } => {
                ContractErrorView::ProposalAlreadyExists { proposal_id: *proposal_id }
            },
            ContractError::TimeoutLimitsError => ContractErrorView::TimeoutLimitsError,
            ContractError::TimeoutOverflow => ContractErrorView::TimeoutOverflow,
            ContractError::InvalidOrdering => ContractErrorView::InvalidOrdering,
            ContractError::InvalidVersion => ContractErrorView::InvalidVersion,
            ContractError::InvalidCounterpartyVersion => {
                ContractErrorView::InvalidCounterpartyVersion
            },
            ContractError::ProposalNotFound { proposal_id } => ContractErrorView::ProposalNotFound {
                proposal_id: *proposal_id,
            },
            ContractError::ProposalAlreadyFinalized { proposal_id, status } => {
                ContractErrorView::ProposalAlreadyFinalized {
                    proposal_id: *proposal_id,
                    status: *status,
                }
            },
            ContractError::ChannelCloseNotAllowed => ContractErrorView::ChannelCloseNotAllowed,
            ContractError::Ownership(error) => ContractErrorView::Ownership(error.deep_view()),
        }
    }
}

/// The text of an error.
pub open spec fn message_text(error: ContractErrorView) -> Seq<char> {
    match error {
        ContractErrorView::Std(reason) => reason,
        ContractErrorView::NotFound { kind } => kind + " not found"@,
        ContractErrorView::Unauthorized => "Unauthorized"@,
        ContractErrorView::MigrationError => "Contract can't be migrated!"@,
        ContractErrorView::ProposalAlreadyExists { proposal_id } => "Proposal with id "@ + decimal(
            proposal_id as nat,
        ) + " was already executed."@,
        ContractErrorView::TimeoutLimitsError => timeout_limits_text(),
        ContractErrorView::TimeoutOverflow => "Packet timeout is beyond the end of time"@,
        ContractErrorView::InvalidOrdering => "Ordering is invalid. The channel must be unordered"@,
        ContractErrorView::InvalidVersion => "Must set version to `astroport-ibc-v1`"@,
        ContractErrorView::InvalidCounterpartyVersion => {
            "Counterparty version must be `astroport-ibc-v1`"@
        },
        ContractErrorView::ProposalNotFound { proposal_id } => "Proposal "@ + decimal(
            proposal_id as nat,
        ) + " was not executed via controller"@,
        ContractErrorView::ProposalAlreadyFinalized { proposal_id, status } => "Proposal id: "@
            + decimal(proposal_id as nat) + " state is already "@ + status_label(status),
        ContractErrorView::ChannelCloseNotAllowed => "Closing channel is not allowed"@,
        ContractErrorView::Ownership(error) => error_text(error),
    }
}

impl ContractError {
    /// The text of the error.
    pub fn message(&self) -> (text: String)
        ensures
            text@ == message_text(self.deep_view()),
    {
        match self {
            ContractError::Std(reason) => reason.clone(),
            ContractError::NotFound { kind } => {
                let mut text = kind.clone();
                text.append(" not found");
                text
            },
            ContractError::Unauthorized => String::from_str("Unauthorized"),
            ContractError::MigrationError => String::from_str("Contract can't be migrated!"),
            ContractError::ProposalAlreadyExists { proposal_id } => {
                let mut text = String::from_str("Proposal with id ");
                append_decimal(&mut text, *proposal_id);
                text.append(" was already executed.");
                text
            },
            ContractError::TimeoutLimitsError => timeout_limits_message(),
            ContractError::TimeoutOverflow => String::from_str(
                "Packet timeout is beyond the end of time",
            ),
            ContractError::InvalidOrdering => String::from_str(
                "Ordering is invalid. The channel must be unordered",
            ),
            ContractError::InvalidVersion => String::from_str(
                "Must set version to `astroport-ibc-v1`",
            ),
            ContractError::InvalidCounterpartyVersion => String::from_str(
                "Counterparty version must be `astroport-ibc-v1`",
            ),
            ContractError::ProposalNotFound { proposal_id } => {
                let mut text = String::from_str("Proposal ");
                append_decimal(&mut text, *proposal_id);
                text.append(" was not executed via controller");
                text
            },
            ContractError::ProposalAlreadyFinalized { proposal_id, status } => {
                let mut text = String::from_str("Proposal id: ");
                append_decimal(&mut text, *proposal_id);
                text.append(" state is already ");
                let label = status_text(*status);
                text.append(label.as_str());
                text
            },
            ContractError::ChannelCloseNotAllowed => String::from_str(
                "Closing channel is not allowed",
            ),
            ContractError::Ownership(error) => error.message(),
        }
    }
}

} // verus!
