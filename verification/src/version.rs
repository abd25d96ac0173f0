//! The name and version that a contract records of itself, so that a
//! migration can tell what it starts from.

use crate::host::{attr, AttributeView};
use crate::host::Attribute;
use vstd::prelude::*;

verus! {

/// The name and version of the code that last set up or migrated a contract.
#[derive(Clone, Debug, PartialEq, Eq)]
pub struct ContractVersion {
    pub contract: String,
    pub version: String,
}

/// The mathematical value of a [`ContractVersion`].
pub struct ContractVersionView {
    pub contract: Seq<char>,
    pub version: Seq<char>,
}

impl DeepView for ContractVersion {
    type V = ContractVersionView;

    open spec fn deep_view(&self) -> ContractVersionView {
        ContractVersionView { contract: self.contract@, version: self.version@ }
    }
}

impl ContractVersion {
    /// The record of the code called `contract` at `version`.
    pub fn new(contract: &str, version: &str) -> (record: ContractVersion)
        ensures
            record.deep_view() == (ContractVersionView { contract: contract@, version: version@ }),
    {
        ContractVersion { contract: String::from_str(contract), version: String::from_str(version) }
    }
}

/// The attributes by which a migration reports what it replaced and by what.
pub open spec fn migration_attributes(
    previous: ContractVersionView,
    current: ContractVersionView,
) -> Seq<AttributeView> {
    seq![
        AttributeView { key: "previous_contract_name"@, value: previous.contract },
        AttributeView { key: "previous_contract_version"@, value: previous.version },
        AttributeView { key: "new_contract_name"@, value: current.contract },
        AttributeView { key: "new_contract_version"@, value: current.version },
    ]
}

/// The attributes by which a migration reports what it replaced and by what.
pub fn report_migration(previous: &ContractVersion, current: &ContractVersion) -> (attributes: Vec<
    Attribute,
>)
    ensures
        attributes.deep_view() == migration_attributes(previous.deep_view(), current.deep_view()),
{
    let mut attributes: Vec<Attribute> = Vec::new();
    attributes.push(attr("previous_contract_name", previous.contract.clone()));
    attributes.push(attr("previous_contract_version", previous.version.clone()));
    attributes.push(attr("new_contract_name", current.contract.clone()));
    attributes.push(attr("new_contract_version", current.version.clone()));
    assert(attributes.deep_view() =~= migration_attributes(
        previous.deep_view(),
        current.deep_view(),
    ));
    attributes
}

} // verus!
