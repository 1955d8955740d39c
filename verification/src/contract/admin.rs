//! Administrator, charity and reward-percentage configuration.
use vstd::prelude::*;

use super::{ContractError, ContractState, ScavengerContract};
use crate::AccountId;

verus! {

/// The refusal, if any, of a call that only the administrator may make.
pub open spec fn admin_refusal(s: ContractState, caller: AccountId) -> Option<ContractError> {
    match s.admin {
        None => Some(ContractError::AdminNotSet),
        Some(a) => if a != caller {
            Some(ContractError::Unauthorized)
        } else {
            None
        },
    }
}

/// A stored percentage, counting an unset one as zero.
pub open spec fn pct_or_zero(p: Option<u32>) -> int {
    match p {
        Some(v) => v as int,
        None => 0,
    }
}

/// The collector and owner shares together do not exceed 100 percent.
pub open spec fn percentages_within_bounds(s: ContractState) -> bool {
    pct_or_zero(s.collector_pct) + pct_or_zero(s.owner_pct) <= 100
}

impl ScavengerContract {
    /// Initialize admin (should be called once during contract deployment)
    pub fn initialize_admin(&mut self, admin: AccountId) -> (r: Result<(), ContractError>)
        ensures
            old(self)@.admin is Some ==> r == Err::<(), ContractError>(
                ContractError::AdminAlreadyInitialized,
            ) && final(self)@ == old(self)@,
            old(self)@.admin is None ==> r is Ok && final(self)@ == (ContractState {
                admin: Some(admin),
                ..old(self)@
            }),
    {
        if self.admin.is_some() {
            return Err(ContractError::AdminAlreadyInitialized);
        }
        self.admin = Some(admin);
        Ok(())
    }

    /// Get the current admin address
    pub fn get_admin(&self) -> (r: Result<AccountId, ContractError>)
        ensures
            r == (match self@.admin {
                Some(a) => Ok(a),
                None => Err(ContractError::AdminNotSet),
            }),
    {
        match self.admin {
            Some(a) => Ok(a),
            None => Err(ContractError::AdminNotSet),
        }
    }

    /// Check if caller is admin
    pub fn require_admin(&self, caller: AccountId) -> (r: Result<(), ContractError>)
        ensures
            r == (match admin_refusal(self@, caller) {
                Some(e) => Err(e),
                None => Ok(()),
            }),
    {
        match self.admin {
            None => Err(ContractError::AdminNotSet),
            Some(a) => if a != caller {
                Err(ContractError::Unauthorized)
            } else {
                Ok(())
            },
        }
    }

    /// Set the charity contract address (admin only)
    pub fn set_charity_contract(&mut self, admin: AccountId, charity_address: AccountId) -> (r:
        Result<(), ContractError>)
        ensures
            admin_refusal(old(self)@, admin) matches Some(e) ==> r == Err::<(), ContractError>(e),
            admin_refusal(old(self)@, admin) is None && charity_address == admin ==> r == Err::<
                (),
                ContractError,
            >(ContractError::CharitySameAsAdmin),
            admin_refusal(old(self)@, admin) is None && charity_address != admin ==> r is Ok,
            r is Ok ==> final(self)@ == (ContractState {
                charity: Some(charity_address),
                ..old(self)@
            }),
            r is Err ==> final(self)@ == old(self)@,
    {
        self.require_admin(admin)?;
        if charity_address == admin {
            return Err(ContractError::CharitySameAsAdmin);
        }
        self.charity = Some(charity_address);
        Ok(())
    }

    /// Get the charity contract address
    pub fn get_charity_contract(&self) -> (r: Option<AccountId>)
        ensures
            r == self@.charity,
    {
        self.charity
    }

    /// Donate tokens to charity: checks the donation and returns the charity
    /// that the donation event names.
    pub fn donate_to_charity(&self, donor: AccountId, amount: i128) -> (r: Result<
        AccountId,
        ContractError,
    >)
        ensures
            amount <= 0 ==> r == Err::<AccountId, ContractError>(
                ContractError::InvalidDonationAmount,
            ),
            amount > 0 ==> r == (match self@.charity {
                Some(c) => Ok(c),
                None => Err(ContractError::CharityNotSet),
            }),
    {
        if amount <= 0 {
            return Err(ContractError::InvalidDonationAmount);
        }
        match self.charity {
            Some(c) => Ok(c),
            None => Err(ContractError::CharityNotSet),
        }
    }

    /// Set both collector and owner percentages (admin only)
    pub fn set_percentages(
        &mut self,
        admin: AccountId,
        collector_percentage: u32,
        owner_percentage: u32,
    ) -> (r: Result<(), ContractError>)
        ensures
            admin_refusal(old(self)@, admin) matches Some(e) ==> r == Err::<(), ContractError>(e),
            admin_refusal(old(self)@, admin) is None && collector_percentage + owner_percentage
                > 100 ==> r == Err::<(), ContractError>(ContractError::PercentagesExceed100),
            admin_refusal(old(self)@, admin) is None && collector_percentage + owner_percentage
                <= 100 ==> r is Ok,
            r is Ok ==> final(self)@ == (ContractState {
                collector_pct: Some(collector_percentage),
                owner_pct: Some(owner_percentage),
                ..old(self)@
            }) && percentages_within_bounds(final(self)@),
            r is Err ==> final(self)@ == old(self)@,
    {
        self.require_admin(admin)?;
        if collector_percentage as u64 + owner_percentage as u64 > 100 {
            return Err(ContractError::PercentagesExceed100);
        }
        self.collector_pct = Some(collector_percentage);
        self.owner_pct = Some(owner_percentage);
        Ok(())
    }

    /// Get the collector percentage
    pub fn get_collector_percentage(&self) -> (r: Option<u32>)
        ensures
            r == self@.collector_pct,
    {
        self.collector_pct
    }

    /// Get the owner percentage
    pub fn get_owner_percentage(&self) -> (r: Option<u32>)
        ensures
            r == self@.owner_pct,
    {
        self.owner_pct
    }

    /// Update only the collector percentage (admin only); an unset owner
    /// percentage counts as zero.
    pub fn set_collector_percentage(&mut self, admin: AccountId, new_percentage: u32) -> (r: Result<
        (),
        ContractError,
    >)
        ensures
            admin_refusal(old(self)@, admin) matches Some(e) ==> r == Err::<(), ContractError>(e),
            admin_refusal(old(self)@, admin) is None && new_percentage + pct_or_zero(
                old(self)@.owner_pct,
            ) > 100 ==> r == Err::<(), ContractError>(ContractError::PercentagesExceed100),
            admin_refusal(old(self)@, admin) is None && new_percentage + pct_or_zero(
                old(self)@.owner_pct,
            ) <= 100 ==> r is Ok,
            r is Ok ==> final(self)@ == (ContractState {
                collector_pct: Some(new_percentage),
                ..old(self)@
            }) && percentages_within_bounds(final(self)@),
            r is Err ==> final(self)@ == old(self)@,
    {
        self.require_admin(admin)?;
        let owner_pct: u32 = match self.owner_pct {
            Some(v) => v,
            None => 0,
        };
        if new_percentage as u64 + owner_pct as u64 > 100 {
            return Err(ContractError::PercentagesExceed100);
        }
        self.collector_pct = Some(new_percentage);
        Ok(())
    }

    /// Update only the owner percentage (admin only); an unset collector
    /// percentage counts as zero.
    pub fn set_owner_percentage(&mut self, admin: AccountId, new_percentage: u32) -> (r: Result<
        (),
        ContractError,
    >)
        ensures
            admin_refusal(old(self)@, admin) matches Some(e) ==> r == Err::<(), ContractError>(e),
            admin_refusal(old(self)@, admin) is None && pct_or_zero(old(self)@.collector_pct)
                + new_percentage > 100 ==> r == Err::<(), ContractError>(
                ContractError::PercentagesExceed100,
            ),
            admin_refusal(old(self)@, admin) is None && pct_or_zero(old(self)@.collector_pct)
                + new_percentage <= 100 ==> r is Ok,
            r is Ok ==> final(self)@ == (ContractState {
                owner_pct: Some(new_percentage),
                ..old(self)@
            }) && percentages_within_bounds(final(self)@),
            r is Err ==> final(self)@ == old(self)@,
    {
        self.require_admin(admin)?;
        let collector_pct: u32 = match self.collector_pct {
            Some(v) => v,
            None => 0,
        };
        if collector_pct as u64 + new_percentage as u64 > 100 {
            return Err(ContractError::PercentagesExceed100);
        }
        self.owner_pct = Some(new_percentage);
        Ok(())
    }
}

} // verus!
