//! Two-phase handover of a contract's ownership: the owner names a
//! candidate and a deadline, and the candidate claims before the deadline.
//! At most one handover is pending at a time.

use crate::clock::NANOS_PER_SECOND;
use crate::host::{attr, attr_text, AddrVerdict, AttributeView, Env, MessageInfo, Response, ResponseView};
use vstd::prelude::*;

verus! {

/// The longest time, in seconds, that a candidate can be given to claim.
pub const MAX_PROPOSAL_TTL: u64 = 1209600;

/// A pending handover.
#[derive(Clone, Debug, PartialEq, Eq)]
pub struct OwnershipProposal {
    /// The candidate.
    pub owner: String,
    /// The last second, counted from the epoch, at which the candidate may claim.
    pub ttl: u64,
}

/// The mathematical value of an [`OwnershipProposal`].
pub struct OwnershipProposalView {
    pub owner: Seq<char>,
    pub ttl: u64,
}

impl DeepView for OwnershipProposal {
    type V = OwnershipProposalView;

    open spec fn deep_view(&self) -> OwnershipProposalView {
        OwnershipProposalView { owner: self.owner@, ttl: self.ttl }
    }
}

/// Why a step of a handover was refused.
#[derive(Clone, Debug, PartialEq, Eq)]
pub enum OwnershipError {
    /// The caller is not the one who may take this step.
    Unauthorized,
    /// The host refused the candidate's address, for the reason given.
    InvalidAddress(String),
    /// The candidate is the owner already.
    SameOwner,
    /// The time to claim is longer than [`MAX_PROPOSAL_TTL`].
    ExpiresTooLate,
    /// No handover is pending.
    NotFound,
    /// The deadline has passed.
    Expired,
}

/// The mathematical value of an [`OwnershipError`].
pub enum OwnershipErrorView {
    Unauthorized,
    InvalidAddress(Seq<char>),
    SameOwner,
    ExpiresTooLate,
    NotFound,
    Expired,
}

impl DeepView for OwnershipError {
    type V = OwnershipErrorView;

    open spec fn deep_view(&self) -> OwnershipErrorView {
        match self {
            OwnershipError::Unauthorized => OwnershipErrorView::Unauthorized,
            OwnershipError::InvalidAddress(reason) => OwnershipErrorView::InvalidAddress(reason@),
            OwnershipError::SameOwner => OwnershipErrorView::SameOwner,
            OwnershipError::ExpiresTooLate => OwnershipErrorView::ExpiresTooLate,
            OwnershipError::NotFound => OwnershipErrorView::NotFound,
            OwnershipError::Expired => OwnershipErrorView::Expired,
        }
    }
}

/// The text of an error.
pub open spec fn error_text(error: OwnershipErrorView) -> Seq<char> {
    match error {
        OwnershipErrorView::Unauthorized => "Unauthorized"@,
        OwnershipErrorView::InvalidAddress(reason) => reason,
        OwnershipErrorView::SameOwner => "New owner cannot be same"@,
        OwnershipErrorView::ExpiresTooLate => "Parameter expires_in cannot be higher than 1209600"@,
        OwnershipErrorView::NotFound => "Ownership proposal not found"@,
        OwnershipErrorView::Expired => "Ownership proposal expired"@,
    }
}

impl OwnershipError {
    /// The text of the error.
    pub fn message(&self) -> (text: String)
        ensures
            text@ == error_text(self.deep_view()),
    {
        match self {
            OwnershipError::Unauthorized => String::from_str("Unauthorized"),
            OwnershipError::InvalidAddress(reason) => reason.clone(),
            OwnershipError::SameOwner => String::from_str("New owner cannot be same"),
            OwnershipError::ExpiresTooLate => String::from_str(
                "Parameter expires_in cannot be higher than 1209600",
            ),
            OwnershipError::NotFound => String::from_str("Ownership proposal not found"),
            OwnershipError::Expired => String::from_str("Ownership proposal expired"),
        }
    }
}

/// The whole seconds that have passed since the epoch at `time` nanoseconds.
pub open spec fn seconds_of(time: u64) -> u64 {
    time / NANOS_PER_SECOND
}

/// What naming a candidate leads to: the pending handover it stores, or the
/// reason it is refused. `addr_error` is the host's verdict on `new_owner`.
pub open spec fn propose_outcome(
    sender: Seq<char>,
    owner: Seq<char>,
    new_owner: Seq<char>,
    addr_error: Option<Seq<char>>,
    expires_in: u64,
    now: u64,
) -> Result<OwnershipProposalView, OwnershipErrorView> {
    if sender != owner {
        Err(OwnershipErrorView::Unauthorized)
    } else if addr_error is Some {
        Err(OwnershipErrorView::InvalidAddress(addr_error->0))
    } else if new_owner == owner {
        Err(OwnershipErrorView::SameOwner)
    } else if expires_in > MAX_PROPOSAL_TTL {
        Err(OwnershipErrorView::ExpiresTooLate)
    } else {
        Ok(OwnershipProposalView { owner: new_owner, ttl: (seconds_of(now) + expires_in) as u64 })
    }
}

/// What a claim leads to: the new owner, or the reason the claim is refused.
pub open spec fn claim_outcome(
    pending: Option<OwnershipProposalView>,
    sender: Seq<char>,
    now: u64,
) -> Result<Seq<char>, OwnershipErrorView> {
    match pending {
        None => Err(OwnershipErrorView::NotFound),
        Some(proposal) => if sender != proposal.owner {
            Err(OwnershipErrorView::Unauthorized)
        } else if seconds_of(now) > proposal.ttl {
            Err(OwnershipErrorView::Expired)
        } else {
            Ok(proposal.owner)
        },
    }
}

/// The response to a step of a handover: no message, the step's name, and
/// the candidate where the step has one.
pub open spec fn step_response<M>(action: Seq<char>, new_owner: Option<Seq<char>>) -> ResponseView<
    M,
> {
    ResponseView {
        messages: seq![],
        attributes: match new_owner {
            Some(candidate) => seq![
                AttributeView { key: "action"@, value: action },
                AttributeView { key: "new_owner"@, value: candidate },
            ],
            None => seq![AttributeView { key: "action"@, value: action }],
        },
    }
}

/// Names `new_owner` as the candidate, with `expires_in` seconds to claim.
/// Only the owner may do so. A handover that was pending is replaced. On
/// refusal nothing changes.
pub fn propose_new_owner<M>(
    pending: &mut Option<OwnershipProposal>,
    info: &MessageInfo,
    env: &Env,
    new_owner: String,
    addr_error: AddrVerdict,
    expires_in: u64,
    owner: &String,
) -> (result: Result<Response<M>, OwnershipError>)
    ensures
        match propose_outcome(
            info.sender@,
            owner@,
            new_owner@,
            addr_error.deep_view(),
            expires_in,
            env.block.time,
        ) {
            Ok(proposal) => {
                &&& result matches Ok(response)
                &&& response.deep_view() == step_response::<M>(
                    "propose_new_owner"@,
                    Some(new_owner@),
                )
                &&& final(pending).deep_view() == Some(proposal)
            },
            Err(error) => {
                &&& result matches Err(e)
                &&& e.deep_view() == error
                &&& *final(pending) == *old(pending)
            },
        },
{
    if info.sender != *owner {
        return Err(OwnershipError::Unauthorized);
    }
    if let Some(reason) = addr_error {
        return Err(OwnershipError::InvalidAddress(reason));
    }
    if new_owner == *owner {
        return Err(OwnershipError::SameOwner);
    }
    if expires_in > MAX_PROPOSAL_TTL {
        return Err(OwnershipError::ExpiresTooLate);
    }
    let ttl = env.block.time / NANOS_PER_SECOND + expires_in;
    let mut response = Response::new();
    response.add_attribute(attr_text("action", "propose_new_owner"));
    response.add_attribute(attr("new_owner", new_owner.clone()));
    *pending = Some(OwnershipProposal { owner: new_owner, ttl });
    assert(response.deep_view().attributes =~= step_response::<M>(
        "propose_new_owner"@,
        Some(new_owner@),
    ).attributes);
    Ok(response)
}

/// Withdraws the pending handover, if there is one. Only the owner may do so.
pub fn drop_ownership_proposal<M>(
    pending: &mut Option<OwnershipProposal>,
    info: &MessageInfo,
    owner: &String,
) -> (result: Result<Response<M>, OwnershipError>)
    ensures
        info.sender@ == owner@ ==> {
            &&& result matches Ok(response)
            &&& response.deep_view() == step_response::<M>("drop_ownership_proposal"@, None)
            &&& *final(pending) is None
        },
        info.sender@ != owner@ ==> {
            &&& result matches Err(e)
            &&& e.deep_view() == OwnershipErrorView::Unauthorized
            &&& *final(pending) == *old(pending)
        },
{
    if info.sender != *owner {
        return Err(OwnershipError::Unauthorized);
    }
    *pending = None;
    let mut response = Response::new();
    response.add_attribute(attr_text("action", "drop_ownership_proposal"));
    assert(response.deep_view().attributes =~= step_response::<M>(
        "drop_ownership_proposal"@,
        None,
    ).attributes);
    Ok(response)
}

/// Makes the candidate the owner. Only the candidate may do so, and no
/// later than the deadline. The pending handover is cleared in the same
/// step. On refusal nothing changes.
pub fn claim_ownership<M>(
    pending: &mut Option<OwnershipProposal>,
    owner: &mut String,
    info: &MessageInfo,
    env: &Env,
) -> (result: Result<Response<M>, OwnershipError>)
    ensures
        match claim_outcome(old(pending).deep_view(), info.sender@, env.block.time) {
            Ok(new_owner) => {
                &&& result matches Ok(response)
                &&& response.deep_view() == step_response::<M>(
                    "claim_ownership"@,
                    Some(new_owner),
                )
                &&& final(owner)@ == new_owner
                &&& *final(pending) is None
            },
            Err(error) => {
                &&& result matches Err(e)
                &&& e.deep_view() == error
                &&& *final(pending) == *old(pending)
                &&& *final(owner) == *old(owner)
            },
        },
{
    let candidate = match pending {
        None => {
            return Err(OwnershipError::NotFound);
        },
        Some(proposal) => {
            if info.sender != proposal.owner {
                return Err(OwnershipError::Unauthorized);
            }
            if env.block.time / NANOS_PER_SECOND > proposal.ttl {
                return Err(OwnershipError::Expired);
            }
            proposal.owner.clone()
        },
    };
    *pending = None;
    let mut response = Response::new();
    response.add_attribute(attr_text("action", "claim_ownership"));
    response.add_attribute(attr("new_owner", candidate.clone()));
    *owner = candidate;
    assert(response.deep_view().attributes =~= step_response::<M>(
        "claim_ownership"@,
        Some(owner@),
    ).attributes);
    Ok(response)
}

} // verus!
