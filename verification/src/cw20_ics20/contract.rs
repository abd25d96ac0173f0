//! What the closing form of the token bridge decides itself: that no call
//! is carried out, and from which versions it can take over.

use crate::host::{Response, ResponseView};
use crate::text::reads_as;
use crate::version::{migration_attributes, report_migration, ContractVersion, ContractVersionView};
use vstd::prelude::*;

verus! {

/// The name under which the bridge records itself.
pub const CONTRACT_NAME: &'static str = "crates.io:cw20-ics20";

/// The version under which the bridge records itself.
pub const CONTRACT_VERSION: &'static str = "1.1.0";

/// Why the bridge refuses a call.
#[derive(Clone, Debug, PartialEq, Eq)]
pub enum BridgeError {
    /// The bridge carries out no calls any more.
    Disabled,
    /// The stored code is the bridge at a version that this code cannot follow.
    UnsupportedVersion(String),
    /// The stored code is not the bridge.
    UnsupportedContract(String),
}

/// The mathematical value of a [`BridgeError`].
pub enum BridgeErrorView {
    Disabled,
    UnsupportedVersion(Seq<char>),
    UnsupportedContract(Seq<char>),
}

impl DeepView for BridgeError {
    type V = BridgeErrorView;

    open spec fn deep_view(&self) -> BridgeErrorView {
        match self {
            BridgeError::Disabled => BridgeErrorView::Disabled,
            BridgeError::UnsupportedVersion(version) => BridgeErrorView::UnsupportedVersion(
                version@,
            ),
            BridgeError::UnsupportedContract(contract) => BridgeErrorView::UnsupportedContract(
                contract@,
            ),
        }
    }
}

/// The text of an error.
pub open spec fn message_text(error: BridgeErrorView) -> Seq<char> {
    match error {
        BridgeErrorView::Disabled => {
            "This is transition version of Astroport's cw20_ics20. All execute endpoints are disabled. Currently it only receives IBCed ASTRO from remote chains"@
        },
        BridgeErrorView::UnsupportedVersion(version) => "Unsupported version: "@ + version,
        BridgeErrorView::UnsupportedContract(contract) => "Unsupported contract "@ + contract,
    }
}

impl BridgeError {
    /// The text of the error.
    pub fn message(&self) -> (text: String)
        ensures
            text@ == message_text(self.deep_view()),
    {
        match self {
            BridgeError::Disabled => String::from_str(
                "This is transition version of Astroport's cw20_ics20. All execute endpoints are disabled. Currently it only receives IBCed ASTRO from remote chains",
            ),
            BridgeError::UnsupportedVersion(version) => {
                let mut text = String::from_str("Unsupported version: ");
                text.append(version.as_str());
                text
            },
            BridgeError::UnsupportedContract(contract) => {
                let mut text = String::from_str("Unsupported contract ");
                text.append(contract.as_str());
                text
            },
        }
    }
}

/// Refuses a call, whatever it asks for.
pub fn execute<M>() -> (result: Result<Response<M>, BridgeError>)
    ensures
        result matches Err(e) && e.deep_view() == BridgeErrorView::Disabled,
{
    Err(BridgeError::Disabled)
}

/// The record the bridge keeps of its own code.
pub open spec fn own_version() -> ContractVersionView {
    ContractVersionView { contract: CONTRACT_NAME@, version: CONTRACT_VERSION@ }
}

/// Why this code cannot take over from the code that `stored` names, if
/// it cannot: that code is not the bridge, or not at one of the two
/// versions that were deployed.
pub open spec fn migration_refusal(stored: ContractVersionView) -> Option<BridgeErrorView> {
    if stored.contract != CONTRACT_NAME@ {
        Some(BridgeErrorView::UnsupportedContract(stored.contract))
    } else if stored.version != "0.13.4"@ && stored.version != "0.15.1"@ {
        Some(BridgeErrorView::UnsupportedVersion(stored.version))
    } else {
        None
    }
}

/// Takes the record of the stored code over: it then names this code,
/// and the response names the old and the new record. A start that this
/// code cannot follow is refused, and the record stays as it is.
pub fn migrate<M>(stored: &mut ContractVersion) -> (result: Result<Response<M>, BridgeError>)
    ensures
        match migration_refusal(old(stored).deep_view()) {
            Some(error) => {
                &&& result matches Err(e)
                &&& e.deep_view() == error
                &&& *final(stored) == *old(stored)
            },
            None => {
                &&& result matches Ok(response)
                &&& response.deep_view() == (ResponseView::<M> {
                    messages: seq![],
                    attributes: migration_attributes(old(stored).deep_view(), own_version()),
                })
                &&& final(stored).deep_view() == own_version()
            },
        },
{
    if !reads_as(&stored.contract, CONTRACT_NAME) {
        return Err(BridgeError::UnsupportedContract(stored.contract.clone()));
    }
    if !reads_as(&stored.version, "0.13.4") && !reads_as(&stored.version, "0.15.1") {
        return Err(BridgeError::UnsupportedVersion(stored.version.clone()));
    }
    let current = ContractVersion::new(CONTRACT_NAME, CONTRACT_VERSION);
    let attributes = report_migration(stored, &current);
    *stored = current;
    let response = Response { messages: Vec::new(), attributes };
    assert(response.deep_view().messages =~= Seq::empty());
    Ok(response)
}

} // verus!
