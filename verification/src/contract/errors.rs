//! The reasons for which the contract refuses a call.
use vstd::prelude::*;

verus! {

/// Why a call to the contract was refused. A refused call changes nothing.
#[derive(Clone, Copy, Debug, PartialEq, Eq, Structural)]
pub enum ContractError {
    AdminAlreadyInitialized,
    AdminNotSet,
    Unauthorized,
    CharitySameAsAdmin,
    InvalidDonationAmount,
    CharityNotSet,
    PercentagesExceed100,
    ParticipantAlreadyRegistered,
    ParticipantNotFound,
    ParticipantNotRegistered,
    RecyclerNotRegistered,
    RewarderNotRegistered,
    OnlyManufacturers,
    ZeroReward,
    ZeroMaxWasteAmount,
    IncentiveNotFound,
    IncentiveNotActive,
    NotIncentiveCreator,
    SenderNotRegistered,
    ReceiverNotRegistered,
    WasteNotFound,
    NotWasteOwner,
    CallerNotOwner,
    TransferDeactivated,
    InvalidTransfer,
    CollectorNotRegistered,
    OnlyCollectors,
    ManufacturerNotRegistered,
    RecipientNotManufacturer,
    ConfirmDeactivated,
    OwnerCannotConfirm,
    AlreadyConfirmed,
    OnlyOwnerCanReset,
    NotConfirmed,
    AlreadyDeactivated,
    VerifierNotFound,
    VerifierNotRegistered,
    OnlyRecyclersVerify,
    MaterialNotFound,
    WasteProcessedOverflow,
    TokensEarnedOverflow,
    TotalTokensOverflow,
    TotalWeightOverflow,
    BatchWeightOverflow,
    RewardOverflow,
    WasteWeightTooLarge,
    ActiveWeightOverflow,
    CounterOverflow,
}

impl ContractError {
    /// The message with which the contract aborts for this error.
    pub fn message(&self) -> (r: &'static str)
        ensures
            r@ == self.text(),
    {
        match self {
            ContractError::AdminAlreadyInitialized => {
                proof {
                    reveal_strlit("Admin already initialized");
                }
                "Admin already initialized"
            },
            ContractError::AdminNotSet => {
                proof {
                    reveal_strlit("Admin not set");
                }
                "Admin not set"
            },
            ContractError::Unauthorized => {
                proof {
                    reveal_strlit("Unauthorized: caller is not admin");
                }
                "Unauthorized: caller is not admin"
            },
            ContractError::CharitySameAsAdmin => {
                proof {
                    reveal_strlit("Charity address cannot be the same as admin");
                }
                "Charity address cannot be the same as admin"
            },
            ContractError::InvalidDonationAmount => {
                proof {
                    reveal_strlit("Donation amount must be greater than zero");
                }
                "Donation amount must be greater than zero"
            },
            ContractError::CharityNotSet => {
                proof {
                    reveal_strlit("Charity contract not set");
                }
                "Charity contract not set"
            },
            ContractError::PercentagesExceed100 => {
                proof {
                    reveal_strlit("Total percentages cannot exceed 100");
                }
                "Total percentages cannot exceed 100"
            },
            ContractError::ParticipantAlreadyRegistered => {
                proof {
                    reveal_strlit("Participant already registered");
                }
                "Participant already registered"
            },
            ContractError::ParticipantNotFound => {
                proof {
                    reveal_strlit("Participant not found");
                }
                "Participant not found"
            },
            ContractError::ParticipantNotRegistered => {
                proof {
                    reveal_strlit("Participant is not registered");
                }
                "Participant is not registered"
            },
            ContractError::RecyclerNotRegistered => {
                proof {
                    reveal_strlit("Participant not registered");
                }
                "Participant not registered"
            },
            ContractError::RewarderNotRegistered => {
                proof {
                    reveal_strlit("Rewarder not registered");
                }
                "Rewarder not registered"
            },
            ContractError::OnlyManufacturers => {
                proof {
                    reveal_strlit("Only manufacturers can create incentives");
                }
                "Only manufacturers can create incentives"
            },
            ContractError::ZeroReward => {
                proof {
                    reveal_strlit("Reward must be greater than zero");
                }
                "Reward must be greater than zero"
            },
            ContractError::ZeroMaxWasteAmount => {
                proof {
                    reveal_strlit("Max waste amount must be greater than zero");
                }
                "Max waste amount must be greater than zero"
            },
            ContractError::IncentiveNotFound => {
                proof {
                    reveal_strlit("Incentive not found");
                }
                "Incentive not found"
            },
            ContractError::IncentiveNotActive => {
                proof {
                    reveal_strlit("Incentive is not active");
                }
                "Incentive is not active"
            },
            ContractError::NotIncentiveCreator => {
                proof {
                    reveal_strlit("Only incentive creator can deactivate");
                }
                "Only incentive creator can deactivate"
            },
            ContractError::SenderNotRegistered => {
                proof {
                    reveal_strlit("Sender not registered");
                }
                "Sender not registered"
            },
            ContractError::ReceiverNotRegistered => {
                proof {
                    reveal_strlit("Receiver not registered");
                }
                "Receiver not registered"
            },
            ContractError::WasteNotFound => {
                proof {
                    reveal_strlit("Waste not found");
                }
                "Waste not found"
            },
            ContractError::NotWasteOwner => {
                proof {
                    reveal_strlit("Only waste owner can transfer");
                }
                "Only waste owner can transfer"
            },
            ContractError::CallerNotOwner => {
                proof {
                    reveal_strlit("Caller does not own waste");
                }
                "Caller does not own waste"
            },
            ContractError::TransferDeactivated => {
                proof {
                    reveal_strlit("Cannot transfer deactivated waste");
                }
                "Cannot transfer deactivated waste"
            },
            ContractError::InvalidTransfer => {
                proof {
                    reveal_strlit("Invalid transfer");
                }
                "Invalid transfer"
            },
            ContractError::CollectorNotRegistered => {
                proof {
                    reveal_strlit("Collector not registered");
                }
                "Collector not registered"
            },
            ContractError::OnlyCollectors => {
                proof {
                    reveal_strlit("Only collectors can use this");
                }
                "Only collectors can use this"
            },
            ContractError::ManufacturerNotRegistered => {
                proof {
                    reveal_strlit("Manufacturer not registered");
                }
                "Manufacturer not registered"
            },
            ContractError::RecipientNotManufacturer => {
                proof {
                    reveal_strlit("Recipient must be manufacturer");
                }
                "Recipient must be manufacturer"
            },
            ContractError::ConfirmDeactivated => {
                proof {
                    reveal_strlit("Cannot confirm deactivated waste");
                }
                "Cannot confirm deactivated waste"
            },
            ContractError::OwnerCannotConfirm => {
                proof {
                    reveal_strlit("Owner cannot confirm own waste");
                }
                "Owner cannot confirm own waste"
            },
            ContractError::AlreadyConfirmed => {
                proof {
                    reveal_strlit("Waste already confirmed");
                }
                "Waste already confirmed"
            },
            ContractError::OnlyOwnerCanReset => {
                proof {
                    reveal_strlit("Only owner can reset confirmation");
                }
                "Only owner can reset confirmation"
            },
            ContractError::NotConfirmed => {
                proof {
                    reveal_strlit("Waste is not confirmed");
                }
                "Waste is not confirmed"
            },
            ContractError::AlreadyDeactivated => {
                proof {
                    reveal_strlit("Waste already deactivated");
                }
                "Waste already deactivated"
            },
            ContractError::VerifierNotFound => {
                proof {
                    reveal_strlit("Verifier not registered");
                }
                "Verifier not registered"
            },
            ContractError::VerifierNotRegistered => {
                proof {
                    reveal_strlit("Verifier is not registered");
                }
                "Verifier is not registered"
            },
            ContractError::OnlyRecyclersVerify => {
                proof {
                    reveal_strlit("Only recyclers can verify materials");
                }
                "Only recyclers can verify materials"
            },
            ContractError::MaterialNotFound => {
                proof {
                    reveal_strlit("Material not found");
                }
                "Material not found"
            },
            ContractError::WasteProcessedOverflow => {
                proof {
                    reveal_strlit("Overflow in total_waste_processed");
                }
                "Overflow in total_waste_processed"
            },
            ContractError::TokensEarnedOverflow => {
                proof {
                    reveal_strlit("Overflow in total_tokens_earned");
                }
                "Overflow in total_tokens_earned"
            },
            ContractError::TotalTokensOverflow => {
                proof {
                    reveal_strlit("Overflow in total tokens");
                }
                "Overflow in total tokens"
            },
            ContractError::TotalWeightOverflow => {
                proof {
                    reveal_strlit("Overflow in total weight");
                }
                "Overflow in total weight"
            },
            ContractError::BatchWeightOverflow => {
                proof {
                    reveal_strlit("Overflow in batch weight");
                }
                "Overflow in batch weight"
            },
            ContractError::RewardOverflow => {
                proof {
                    reveal_strlit("Overflow in reward calculation");
                }
                "Overflow in reward calculation"
            },
            ContractError::WasteWeightTooLarge => {
                proof {
                    reveal_strlit("Waste weight exceeds u64 range");
                }
                "Waste weight exceeds u64 range"
            },
            ContractError::ActiveWeightOverflow => {
                proof {
                    reveal_strlit("Overflow in active waste total weight");
                }
                "Overflow in active waste total weight"
            },
            ContractError::CounterOverflow => {
                proof {
                    reveal_strlit("attempt to add with overflow");
                }
                "attempt to add with overflow"
            },
        }
    }
}

impl ContractError {
    /// The text of the message with which the contract aborts for this error.
    pub open spec fn text(self) -> Seq<char> {
        match self {
            ContractError::AdminAlreadyInitialized => "Admin already initialized"@,
            ContractError::AdminNotSet => "Admin not set"@,
            ContractError::Unauthorized => "Unauthorized: caller is not admin"@,
            ContractError::CharitySameAsAdmin => "Charity address cannot be the same as admin"@,
            ContractError::InvalidDonationAmount => "Donation amount must be greater than zero"@,
            ContractError::CharityNotSet => "Charity contract not set"@,
            ContractError::PercentagesExceed100 => "Total percentages cannot exceed 100"@,
            ContractError::ParticipantAlreadyRegistered => "Participant already registered"@,
            ContractError::ParticipantNotFound => "Participant not found"@,
            ContractError::ParticipantNotRegistered => "Participant is not registered"@,
            ContractError::RecyclerNotRegistered => "Participant not registered"@,
            ContractError::RewarderNotRegistered => "Rewarder not registered"@,
            ContractError::OnlyManufacturers => "Only manufacturers can create incentives"@,
            ContractError::ZeroReward => "Reward must be greater than zero"@,
            ContractError::ZeroMaxWasteAmount => "Max waste amount must be greater than zero"@,
            ContractError::IncentiveNotFound => "Incentive not found"@,
            ContractError::IncentiveNotActive => "Incentive is not active"@,
            ContractError::NotIncentiveCreator => "Only incentive creator can deactivate"@,
            ContractError::SenderNotRegistered => "Sender not registered"@,
            ContractError::ReceiverNotRegistered => "Receiver not registered"@,
            ContractError::WasteNotFound => "Waste not found"@,
            ContractError::NotWasteOwner => "Only waste owner can transfer"@,
            ContractError::CallerNotOwner => "Caller does not own waste"@,
            ContractError::TransferDeactivated => "Cannot transfer deactivated waste"@,
            ContractError::InvalidTransfer => "Invalid transfer"@,
            ContractError::CollectorNotRegistered => "Collector not registered"@,
            ContractError::OnlyCollectors => "Only collectors can use this"@,
            ContractError::ManufacturerNotRegistered => "Manufacturer not registered"@,
            ContractError::RecipientNotManufacturer => "Recipient must be manufacturer"@,
            ContractError::ConfirmDeactivated => "Cannot confirm deactivated waste"@,
            ContractError::OwnerCannotConfirm => "Owner cannot confirm own waste"@,
            ContractError::AlreadyConfirmed => "Waste already confirmed"@,
            ContractError::OnlyOwnerCanReset => "Only owner can reset confirmation"@,
            ContractError::NotConfirmed => "Waste is not confirmed"@,
            ContractError::AlreadyDeactivated => "Waste already deactivated"@,
            ContractError::VerifierNotFound => "Verifier not registered"@,
            ContractError::VerifierNotRegistered => "Verifier is not registered"@,
            ContractError::OnlyRecyclersVerify => "Only recyclers can verify materials"@,
            ContractError::MaterialNotFound => "Material not found"@,
            ContractError::WasteProcessedOverflow => "Overflow in total_waste_processed"@,
            ContractError::TokensEarnedOverflow => "Overflow in total_tokens_earned"@,
            ContractError::TotalTokensOverflow => "Overflow in total tokens"@,
            ContractError::TotalWeightOverflow => "Overflow in total weight"@,
            ContractError::BatchWeightOverflow => "Overflow in batch weight"@,
            ContractError::RewardOverflow => "Overflow in reward calculation"@,
            ContractError::WasteWeightTooLarge => "Waste weight exceeds u64 range"@,
            ContractError::ActiveWeightOverflow => "Overflow in active waste total weight"@,
            ContractError::CounterOverflow => "attempt to add with overflow"@,
        }
    }
}

} // verus!
