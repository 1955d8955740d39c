//! The reasons for which the rewards contract refuses a call.
use vstd::prelude::*;

verus! {

/// Why a call to the rewards contract was refused. A refused call changes nothing.
#[derive(Clone, Copy, Debug, PartialEq, Eq, Structural)]
pub enum ScavengerError {
    PercentagesExceed100,
    AdminNotSet,
    TokenAddressNotSet,
    CharityAddressNotSet,
    CollectorPercentageNotSet,
    OwnerPercentageNotSet,
    NotAdmin,
    ParticipantAlreadyRegistered,
    RewarderNotRegistered,
    OnlyManufacturers,
    SubmitterNotRegistered,
    SenderNotRegistered,
    ReceiverNotRegistered,
    MaterialNotFound,
    NotCurrentOwner,
    MaterialNotVerified,
    IncentiveNotFound,
    NotIncentiveCreator,
    WasteTypeMismatch,
    IncentiveNotActive,
    InsufficientBudget,
    UpdateInactiveIncentive,
    ZeroRewardPoints,
    ZeroTotalBudget,
    ArithmeticOverflow,
}

impl ScavengerError {
    /// The message with which the contract aborts for this error.
    pub fn message(&self) -> (r: &'static str)
        ensures
            r@ == self.text(),
    {
        match self {
            ScavengerError::PercentagesExceed100 => {
                proof {
                    reveal_strlit("Total percentages cannot exceed 100");
                }
                "Total percentages cannot exceed 100"
            },
            ScavengerError::AdminNotSet => {
                proof {
                    reveal_strlit("Admin not set");
                }
                "Admin not set"
            },
            ScavengerError::TokenAddressNotSet => {
                proof {
                    reveal_strlit("Token address not set");
                }
                "Token address not set"
            },
            ScavengerError::CharityAddressNotSet => {
                proof {
                    reveal_strlit("Charity address not set");
                }
                "Charity address not set"
            },
            ScavengerError::CollectorPercentageNotSet => {
                proof {
                    reveal_strlit("Collector percentage not set");
                }
                "Collector percentage not set"
            },
            ScavengerError::OwnerPercentageNotSet => {
                proof {
                    reveal_strlit("Owner percentage not set");
                }
                "Owner percentage not set"
            },
            ScavengerError::NotAdmin => {
                proof {
                    reveal_strlit("Only admin can perform this action");
                }
                "Only admin can perform this action"
            },
            ScavengerError::ParticipantAlreadyRegistered => {
                proof {
                    reveal_strlit("Participant already registered");
                }
                "Participant already registered"
            },
            ScavengerError::RewarderNotRegistered => {
                proof {
                    reveal_strlit("Rewarder not registered");
                }
                "Rewarder not registered"
            },
            ScavengerError::OnlyManufacturers => {
                proof {
                    reveal_strlit("Only manufacturers can create incentives");
                }
                "Only manufacturers can create incentives"
            },
            ScavengerError::SubmitterNotRegistered => {
                proof {
                    reveal_strlit("Submitter not registered");
                }
                "Submitter not registered"
            },
            ScavengerError::SenderNotRegistered => {
                proof {
                    reveal_strlit("Sender not registered");
                }
                "Sender not registered"
            },
            ScavengerError::ReceiverNotRegistered => {
                proof {
                    reveal_strlit("Receiver not registered");
                }
                "Receiver not registered"
            },
            ScavengerError::MaterialNotFound => {
                proof {
                    reveal_strlit("Material not found");
                }
                "Material not found"
            },
            ScavengerError::NotCurrentOwner => {
                proof {
                    reveal_strlit("Only current owner can transfer");
                }
                "Only current owner can transfer"
            },
            ScavengerError::MaterialNotVerified => {
                proof {
                    reveal_strlit("Material must be verified");
                }
                "Material must be verified"
            },
            ScavengerError::IncentiveNotFound => {
                proof {
                    reveal_strlit("Incentive not found");
                }
                "Incentive not found"
            },
            ScavengerError::NotIncentiveCreator => {
                proof {
                    reveal_strlit("Only incentive creator can distribute rewards");
                }
                "Only incentive creator can distribute rewards"
            },
            ScavengerError::WasteTypeMismatch => {
                proof {
                    reveal_strlit("Waste type mismatch");
                }
                "Waste type mismatch"
            },
            ScavengerError::IncentiveNotActive => {
                proof {
                    reveal_strlit("Incentive not active");
                }
                "Incentive not active"
            },
            ScavengerError::InsufficientBudget => {
                proof {
                    reveal_strlit("Insufficient incentive budget");
                }
                "Insufficient incentive budget"
            },
            ScavengerError::UpdateInactiveIncentive => {
                proof {
                    reveal_strlit("Incentive is not active");
                }
                "Incentive is not active"
            },
            ScavengerError::ZeroRewardPoints => {
                proof {
                    reveal_strlit("Reward must be greater than zero");
                }
                "Reward must be greater than zero"
            },
            ScavengerError::ZeroTotalBudget => {
                proof {
                    reveal_strlit("Total budget must be greater than zero");
                }
                "Total budget must be greater than zero"
            },
            ScavengerError::ArithmeticOverflow => {
                proof {
                    reveal_strlit("attempt to add with overflow");
                }
                "attempt to add with overflow"
            },
        }
    }
}

impl ScavengerError {
    /// The text of the message with which the contract aborts for this error.
    pub open spec fn text(self) -> Seq<char> {
        match self {
            ScavengerError::PercentagesExceed100 => "Total percentages cannot exceed 100"@,
            ScavengerError::AdminNotSet => "Admin not set"@,
            ScavengerError::TokenAddressNotSet => "Token address not set"@,
            ScavengerError::CharityAddressNotSet => "Charity address not set"@,
            ScavengerError::CollectorPercentageNotSet => "Collector percentage not set"@,
            ScavengerError::OwnerPercentageNotSet => "Owner percentage not set"@,
            ScavengerError::NotAdmin => "Only admin can perform this action"@,
            ScavengerError::ParticipantAlreadyRegistered => "Participant already registered"@,
            ScavengerError::RewarderNotRegistered => "Rewarder not registered"@,
            ScavengerError::OnlyManufacturers => "Only manufacturers can create incentives"@,
            ScavengerError::SubmitterNotRegistered => "Submitter not registered"@,
            ScavengerError::SenderNotRegistered => "Sender not registered"@,
            ScavengerError::ReceiverNotRegistered => "Receiver not registered"@,
            ScavengerError::MaterialNotFound => "Material not found"@,
            ScavengerError::NotCurrentOwner => "Only current owner can transfer"@,
            ScavengerError::MaterialNotVerified => "Material must be verified"@,
            ScavengerError::IncentiveNotFound => "Incentive not found"@,
            ScavengerError::NotIncentiveCreator => "Only incentive creator can distribute rewards"@,
            ScavengerError::WasteTypeMismatch => "Waste type mismatch"@,
            ScavengerError::IncentiveNotActive => "Incentive not active"@,
            ScavengerError::InsufficientBudget => "Insufficient incentive budget"@,
            ScavengerError::UpdateInactiveIncentive => "Incentive is not active"@,
            ScavengerError::ZeroRewardPoints => "Reward must be greater than zero"@,
            ScavengerError::ZeroTotalBudget => "Total budget must be greater than zero"@,
            ScavengerError::ArithmeticOverflow => "attempt to add with overflow"@,
        }
    }
}

} // verus!
