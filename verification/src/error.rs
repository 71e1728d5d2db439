//! Why a call is rejected.

use vstd::prelude::*;

verus! {

/// The kinds of rejection.
#[derive(Debug, Clone, Copy, PartialEq, Eq, Structural)]
pub enum ErrorKind {
    /// The caller may not do this.
    Authorization,
    /// The campaign is not in the state the call needs.
    PreconditionFailed,
    /// What came with the call is not acceptable.
    ValidationFailed,
    /// The ledger has no line to act on.
    NotFound,
    /// The amount asked for is more than there is.
    InvalidAmount,
    /// An outbound message could not be written.
    SerializationFailed,
}

/// A rejected call. The state is as it was before the call.
#[derive(Debug, PartialEq, Eq)]
pub enum ContractError {
    /// The caller is not the campaign's creator.
    Unauthorized,
    /// A pledge came at or after the deadline.
    CampaignEnded,
    /// Settlement was asked for before the deadline.
    CampaignNotEnded,
    /// The call did not come with exactly one attachment of funds, or with
    /// one of amount zero.
    NoFunds,
    /// The attached funds are not of the campaign's denomination.
    InvalidDenom,
    /// The attached amount is below the campaign's minimum.
    ContributionTooLow,
    /// The contributor has no line in the ledger.
    NoContribution,
    /// More was returned than the contributor has pledged.
    AmountExceedsContribution,
    /// The message for the token service could not be written; `detail` is
    /// what the writer reported.
    Serialization { detail: String },
}

impl Clone for ContractError {
    fn clone(&self) -> (copy: Self)
        ensures
            copy == *self,
    {
        match self {
            ContractError::Unauthorized => ContractError::Unauthorized,
            ContractError::CampaignEnded => ContractError::CampaignEnded,
            ContractError::CampaignNotEnded => ContractError::CampaignNotEnded,
            ContractError::NoFunds => ContractError::NoFunds,
            ContractError::InvalidDenom => ContractError::InvalidDenom,
            ContractError::ContributionTooLow => ContractError::ContributionTooLow,
            ContractError::NoContribution => ContractError::NoContribution,
            ContractError::AmountExceedsContribution => ContractError::AmountExceedsContribution,
            ContractError::Serialization { detail } => ContractError::Serialization {
                detail: detail.clone(),
            },
        }
    }
}

impl ContractError {
    /// The kind of this rejection.
    pub open spec fn spec_kind(&self) -> ErrorKind {
        match self {
            ContractError::Unauthorized => ErrorKind::Authorization,
            ContractError::CampaignEnded => ErrorKind::PreconditionFailed,
            ContractError::CampaignNotEnded => ErrorKind::PreconditionFailed,
            ContractError::NoFunds => ErrorKind::ValidationFailed,
            ContractError::InvalidDenom => ErrorKind::ValidationFailed,
            ContractError::ContributionTooLow => ErrorKind::ValidationFailed,
            ContractError::NoContribution => ErrorKind::NotFound,
            ContractError::AmountExceedsContribution => ErrorKind::InvalidAmount,
            ContractError::Serialization { .. } => ErrorKind::SerializationFailed,
        }
    }

    /// The reason of this rejection, in words.
    pub open spec fn reason(&self) -> Seq<char> {
        match self {
            ContractError::Unauthorized => "Unauthorized"@,
            ContractError::CampaignEnded => "Campaign has ended"@,
            ContractError::CampaignNotEnded => "Campaign has not ended"@,
            ContractError::NoFunds => "No funds sent"@,
            ContractError::InvalidDenom => "Invalid contribution denom"@,
            ContractError::ContributionTooLow => "Contribution too low"@,
            ContractError::NoContribution => "No contribution found"@,
            ContractError::AmountExceedsContribution => "Amount sent is greater than contribution"@,
            ContractError::Serialization { detail } => "Serialization error: "@ + detail@,
        }
    }

    /// The kind of this rejection.
    #[verifier::when_used_as_spec(spec_kind)]
    pub fn kind(&self) -> (kind: ErrorKind)
        ensures
            kind == self.spec_kind(),
    {
        match self {
            ContractError::Unauthorized => ErrorKind::Authorization,
            ContractError::CampaignEnded => ErrorKind::PreconditionFailed,
            ContractError::CampaignNotEnded => ErrorKind::PreconditionFailed,
            ContractError::NoFunds => ErrorKind::ValidationFailed,
            ContractError::InvalidDenom => ErrorKind::ValidationFailed,
            ContractError::ContributionTooLow => ErrorKind::ValidationFailed,
            ContractError::NoContribution => ErrorKind::NotFound,
            ContractError::AmountExceedsContribution => ErrorKind::InvalidAmount,
            ContractError::Serialization { .. } => ErrorKind::SerializationFailed,
        }
    }

    /// The reason of this rejection, in words.
    pub fn to_string(&self) -> (text: String)
        ensures
            text@ == self.reason(),
    {
        match self {
            ContractError::Unauthorized => "Unauthorized".to_owned(),
            ContractError::CampaignEnded => "Campaign has ended".to_owned(),
            ContractError::CampaignNotEnded => "Campaign has not ended".to_owned(),
            ContractError::NoFunds => "No funds sent".to_owned(),
            ContractError::InvalidDenom => "Invalid contribution denom".to_owned(),
            ContractError::ContributionTooLow => "Contribution too low".to_owned(),
            ContractError::NoContribution => "No contribution found".to_owned(),
            ContractError::AmountExceedsContribution => {
                "Amount sent is greater than contribution".to_owned()
            },
            ContractError::Serialization { detail } => {
                let mut text = "Serialization error: ".to_owned();
                text.append(detail.as_str());
                text
            },
        }
    }
}

} // verus!
