//! Why the satellite refuses a call.

use crate::limits::{
    signal_outage_limits_message, signal_outage_limits_text, timeout_limits_message,
    timeout_limits_text,
};
use crate::ownership::{error_text, OwnershipError, OwnershipErrorView};
use crate::payment::{payment_error_text, PaymentError, PaymentErrorView};
use vstd::prelude::*;

verus! {

/// The error of a call that cannot fail. No value of this type is ever made:
/// its one field is private and nothing in the library builds one.
#[derive(Debug)]
pub struct Never {
    nothing: (),
}

/// Why the satellite refuses a call.
#[derive(Clone, Debug, PartialEq, Eq)]
pub enum ContractError {
    /// The host could not do its part, for the reason given.
    Std(String),
    /// Nothing is stored under the name given.
    NotFound { kind: String },
    /// The stored code is not one that this code can take over from.
    MigrationError,
    /// The caller may not do this, or not yet.
    Unauthorized,
    /// A callback came with a number that the satellite never asked for.
    InvalidReplyId,
    /// A governance channel exists already.
    ChannelAlreadyEstablished { channel_id: String },
    /// A packet came over a channel other than the governance channel.
    InvalidGovernanceChannel { invalid: String, valid: String },
    /// A packet came before any governance channel existed.
    GovernanceChannelNotFound,
    /// The other end of a new channel is not the configured controller.
    InvalidSourcePort { invalid: String, valid: String },
    /// The coins that came with the call are not what it asks for.
    PaymentError(PaymentError),
    /// The satellite holds none of the token it was asked to forward.
    NoAstroBalance,
    /// The outcome of a check of messages that found nothing wrong: an
    /// error all the same, so that nothing is kept.
    MessagesCheckPassed,
    /// A patch both names a governance channel and asks to accept a new one.
    UpdateChannelError,
    /// The timeout lies outside the policy bounds.
    TimeoutLimitsError,
    /// The tolerated outage lies outside the policy bounds.
    SignalOutageLimitsError,
    /// The time at which a transfer would time out cannot be represented.
    TimeoutOverflow,
    /// The channel is not unordered.
    InvalidOrdering,
    /// The channel does not speak the relay's protocol version.
    InvalidVersion,
    /// The other side does not speak the relay's protocol version.
    InvalidCounterpartyVersion,
    /// Channels of the relay are never closed.
    ChannelCloseNotAllowed,
    /// A message under check would migrate the satellite or change its admin.
    SelfAdminMessage,
    /// A message under check would grant an authorization.
    GrantMessage,
    /// A step of an ownership handover was refused.
    Ownership(OwnershipError),
}

/// The mathematical value of a [`ContractError`].
pub enum ContractErrorView {
    Std(Seq<char>),
    NotFound { kind: Seq<char> },
    MigrationError,
    Unauthorized,
    InvalidReplyId,
    ChannelAlreadyEstablished { channel_id: Seq<char> },
    InvalidGovernanceChannel { invalid: Seq<char>, valid: Seq<char> },
    GovernanceChannelNotFound,
    InvalidSourcePort { invalid: Seq<char>, valid: Seq<char> },
    PaymentError(PaymentErrorView),
    NoAstroBalance,
    MessagesCheckPassed,
    UpdateChannelError,
    TimeoutLimitsError,
    SignalOutageLimitsError,
    TimeoutOverflow,
    InvalidOrdering,
    InvalidVersion,
    InvalidCounterpartyVersion,
    ChannelCloseNotAllowed,
    SelfAdminMessage,
    GrantMessage,
    Ownership(OwnershipErrorView),
}

impl DeepView for ContractError {
    type V = ContractErrorView;

    open spec fn deep_view(&self) -> ContractErrorView {
        match self {
            ContractError::Std(reason) => ContractErrorView::Std(reason@),
            ContractError::NotFound { kind } => ContractErrorView::NotFound { kind: kind@ },
            ContractError::MigrationError => ContractErrorView::MigrationError,
            ContractError::Unauthorized => ContractErrorView::Unauthorized,
            ContractError::InvalidReplyId => ContractErrorView::InvalidReplyId,
            ContractError::ChannelAlreadyEstablished { channel_id } => {
                ContractErrorView::ChannelAlreadyEstablished { channel_id: channel_id@ }
            },
            ContractError::InvalidGovernanceChannel { invalid, valid } => {
                ContractErrorView::InvalidGovernanceChannel { invalid: invalid@, valid: valid@ }
            },
            ContractError::GovernanceChannelNotFound => ContractErrorView::GovernanceChannelNotFound,
            ContractError::InvalidSourcePort { invalid, valid } => {
                ContractErrorView::InvalidSourcePort { invalid: invalid@, valid: valid@ }
            },
            ContractError::PaymentError(error) => ContractErrorView::PaymentError(
                error.deep_view(),
            ),
            ContractError::NoAstroBalance => ContractErrorView::NoAstroBalance,
            ContractError::MessagesCheckPassed => ContractErrorView::MessagesCheckPassed,
            ContractError::UpdateChannelError => ContractErrorView::UpdateChannelError,
            ContractError::TimeoutLimitsError => ContractErrorView::TimeoutLimitsError,
            ContractError::SignalOutageLimitsError => ContractErrorView::SignalOutageLimitsError,
            ContractError::TimeoutOverflow => ContractErrorView::TimeoutOverflow,
            ContractError::InvalidOrdering => ContractErrorView::InvalidOrdering,
            ContractError::InvalidVersion => ContractErrorView::InvalidVersion,
            ContractError::InvalidCounterpartyVersion => {
                ContractErrorView::InvalidCounterpartyVersion
            },
            ContractError::ChannelCloseNotAllowed => ContractErrorView::ChannelCloseNotAllowed,
            ContractError::SelfAdminMessage => ContractErrorView::SelfAdminMessage,
            ContractError::GrantMessage => ContractErrorView::GrantMessage,
            ContractError::Ownership(error) => ContractErrorView::Ownership(error.deep_view()),
        }
    }
}

/// The text of an error.
pub open spec fn message_text(error: ContractErrorView) -> Seq<char> {
    match error {
        ContractErrorView::Std(reason) => reason,
        ContractErrorView::NotFound { kind } => kind + " not found"@,
        ContractErrorView::MigrationError => "Contract can't be migrated!"@,
        ContractErrorView::Unauthorized => "Unauthorized"@,
        ContractErrorView::InvalidReplyId => "Invalid reply id"@,
        ContractErrorView::ChannelAlreadyEstablished { channel_id } => {
            "Channel already established: "@ + channel_id
        },
        ContractErrorView::InvalidGovernanceChannel { invalid, valid } => {
            "Invalid governance channel: "@ + invalid + ". Should be "@ + valid
        },
        ContractErrorView::GovernanceChannelNotFound => "Governance is not established yet"@,
        ContractErrorView::InvalidSourcePort { invalid, valid } => "Invalid source port "@ + invalid
            + ". Should be : "@ + valid,
        ContractErrorView::PaymentError(error) => payment_error_text(error),
        ContractErrorView::NoAstroBalance => "No ASTRO tokens to transfer"@,
        ContractErrorView::MessagesCheckPassed => {
            "Messages check passed. Nothing was committed to the blockchain"@
        },
        ContractErrorView::UpdateChannelError => {
            "The gov_channel and the accept_new_connections settings cannot be specified at the same time"@
        },
        ContractErrorView::TimeoutLimitsError => timeout_limits_text(),
        ContractErrorView::SignalOutageLimitsError => signal_outage_limits_text(),
        ContractErrorView::TimeoutOverflow => "Packet timeout is beyond the end of time"@,
        ContractErrorView::InvalidOrdering => "Ordering is invalid. The channel must be unordered"@,
        ContractErrorView::InvalidVersion => "Must set version to `astroport-ibc-v1`"@,
        ContractErrorView::InvalidCounterpartyVersion => {
            "Counterparty version must be `astroport-ibc-v1`"@
        },
        ContractErrorView::ChannelCloseNotAllowed => "Closing channel is not allowed"@,
        ContractErrorView::SelfAdminMessage => {
            "Can't check messages with a migration or update admin message of the contract itself"@
        },
        ContractErrorView::GrantMessage => "Can't check messages with a MsgGrant message"@,
        ContractErrorView::Ownership(error) => error_text(error),
    }
}

impl ContractError {
    /// The text of the error.
    pub fn message(&self) -> (text: String)
        ensures
            text@ == message_text(self.deep_view()),
    {
        match self {
            ContractError::Std(reason) => reason.clone(),
            ContractError::NotFound { kind } => {
                let mut text = kind.clone();
                text.append(" not found");
                text
            },
            ContractError::MigrationError => String::from_str("Contract can't be migrated!"),
            ContractError::Unauthorized => String::from_str("Unauthorized"),
            ContractError::InvalidReplyId => String::from_str("Invalid reply id"),
            ContractError::ChannelAlreadyEstablished { channel_id } => {
                let mut text = String::from_str("Channel already established: ");
                text.append(channel_id.as_str());
                text
            },
            ContractError::InvalidGovernanceChannel { invalid, valid } => {
                let mut text = String::from_str("Invalid governance channel: ");
                text.append(invalid.as_str());
                text.append(". Should be ");
                text.append(valid.as_str());
                text
            },
            ContractError::GovernanceChannelNotFound => String::from_str(
                "Governance is not established yet",
            ),
            ContractError::InvalidSourcePort { invalid, valid } => {
                let mut text = String::from_str("Invalid source port ");
                text.append(invalid.as_str());
                text.append(". Should be : ");
                text.append(valid.as_str());
                text
            },
            ContractError::PaymentError(error) => error.message(),
            ContractError::NoAstroBalance => String::from_str("No ASTRO tokens to transfer"),
            ContractError::MessagesCheckPassed => String::from_str(
                "Messages check passed. Nothing was committed to the blockchain",
            ),
            ContractError::UpdateChannelError => String::from_str(
                "The gov_channel and the accept_new_connections settings cannot be specified at the same time",
            ),
            ContractError::TimeoutLimitsError => timeout_limits_message(),
            ContractError::SignalOutageLimitsError => signal_outage_limits_message(),
            ContractError::TimeoutOverflow => String::from_str(
                "Packet timeout is beyond the end of time",
            ),
            ContractError::InvalidOrdering => String::from_str(
                "Ordering is invalid. The channel must be unordered",
            ),
            ContractError::InvalidVersion => String::from_str(
                "Must set version to `astroport-ibc-v1`",
            ),
            ContractError::InvalidCounterpartyVersion => String::from_str(
                "Counterparty version must be `astroport-ibc-v1`",
            ),
            ContractError::ChannelCloseNotAllowed => String::from_str(
                "Closing channel is not allowed",
            ),
            ContractError::SelfAdminMessage => String::from_str(
                "Can't check messages with a migration or update admin message of the contract itself",
            ),
            ContractError::GrantMessage => String::from_str(
                "Can't check messages with a MsgGrant message",
            ),
            ContractError::Ownership(error) => error.message(),
        }
    }
}

} // verus!
