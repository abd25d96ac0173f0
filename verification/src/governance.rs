//! What the relay shares with the governance body that submits proposals:
//! the status of a proposal and the messages a proposal is made of.

use vstd::prelude::*;

verus! {

/// Where a dispatched proposal stands. `Executed` is success on the remote
/// chain. A proposal starts `InProgress` and moves once, to one of the others.
#[derive(Clone, Copy, Debug, PartialEq, Eq, Structural)]
pub enum ProposalStatus {
    InProgress,
    Failed,
    Executed,
}

/// The name under which the governance body prints a status.
pub open spec fn status_label(status: ProposalStatus) -> Seq<char> {
    match status {
        ProposalStatus::InProgress => "in_progress"@,
        ProposalStatus::Failed => "failed"@,
        ProposalStatus::Executed => "executed"@,
    }
}

/// Prints the matching variant of `astroport_governance::assembly::ProposalStatus`
/// through its `Display`. The contract says which word comes out for each of
/// the three variants the relay uses.
#[verifier::external_body]
pub(crate) fn status_text(status: ProposalStatus) -> (text: String)
    ensures
        text@ == status_label(status),
{
    let outside = match status {
        ProposalStatus::InProgress => astroport_governance::assembly::ProposalStatus::InProgress,
        ProposalStatus::Failed => astroport_governance::assembly::ProposalStatus::Failed,
        ProposalStatus::Executed => astroport_governance::assembly::ProposalStatus::Executed,
    };
    outside.to_string()
}

impl ProposalStatus {
    /// Whether the status can no longer change.
    pub open spec fn is_terminal(self) -> bool {
        self != ProposalStatus::InProgress
    }
}

/// What the relay has to know of a proposal message in order to vet it.
#[derive(Clone, Debug, PartialEq, Eq)]
pub enum MsgKind {
    /// A migration or a change of admin of the contract at `contract_addr`;
    /// `addr_error` is the host's verdict on that address.
    WasmAdmin { contract_addr: String, addr_error: Option<String> },
    /// A raw protobuf message of the given type.
    Stargate { type_url: String },
    /// Anything else.
    Other,
}

/// The mathematical value of a [`MsgKind`].
pub enum MsgKindView {
    WasmAdmin { contract_addr: Seq<char>, addr_error: Option<Seq<char>> },
    Stargate { type_url: Seq<char> },
    Other,
}

impl DeepView for MsgKind {
    type V = MsgKindView;

    open spec fn deep_view(&self) -> MsgKindView {
        match self {
            MsgKind::WasmAdmin { contract_addr, addr_error } => MsgKindView::WasmAdmin {
                contract_addr: contract_addr@,
                addr_error: addr_error.deep_view(),
            },
            MsgKind::Stargate { type_url } => MsgKindView::Stargate { type_url: type_url@ },
            MsgKind::Other => MsgKindView::Other,
        }
    }
}

/// One message of a proposal. `msg` is the chain message itself, which the
/// relay hands on untouched; `kind` says what the relay reads of it; `order`
/// is its place in the batch where the submitter numbered the messages.
#[derive(Clone, Debug, PartialEq, Eq)]
pub struct ProposalMessage<M> {
    pub order: Option<u64>,
    pub kind: MsgKind,
    pub msg: M,
}

/// The mathematical value of a [`ProposalMessage`].
pub struct ProposalMessageView<M> {
    pub order: Option<u64>,
    pub kind: MsgKindView,
    pub msg: M,
}

impl<M> DeepView for ProposalMessage<M> {
    type V = ProposalMessageView<M>;

    open spec fn deep_view(&self) -> ProposalMessageView<M> {
        ProposalMessageView { order: self.order, kind: self.kind.deep_view(), msg: self.msg }
    }
}

} // verus!
