use vstd::prelude::*;

use crate::error::AdW3Error;
use crate::state::{ExchangeVault, Key, ProtocolConfig};

verus! {

/// The accounts that setting up the exchange writes.
#[derive(Clone, Copy, Debug)]
pub struct Initialize {
    pub authority: Key,
    pub token_mint: Key,
    /// Address of the token account that holds the vault's funds.
    pub exchange_vault: Key,
    pub adw_config: ProtocolConfig,
    pub exchange_vault_state: ExchangeVault,
}

/// Bump seeds of the accounts that setting up the exchange creates.
#[derive(Clone, Copy, Debug)]
pub struct InitializeBumps {
    pub adw_config: u8,
    pub exchange_vault_state: u8,
}

/// Why a fee configuration would be refused, in the order the checks are made.
pub open spec fn fee_config_error(platform_fee_percentage: u8, publisher_rev_share: u8) -> Option<AdW3Error> {
    if platform_fee_percentage > 100 {
        Some(AdW3Error::InvalidFeePercentage)
    } else if publisher_rev_share > 100 {
        Some(AdW3Error::InvalidRevenueShare)
    } else if platform_fee_percentage + publisher_rev_share > 100 {
        Some(AdW3Error::InvalidFeePercentage)
    } else {
        None
    }
}

impl Initialize {
    /// Sets up the protocol configuration, unpaused, and an empty vault.
    /// Refuses a fee and revenue share that are over 100 alone or together;
    /// on an error nothing changes.
    pub fn init(&mut self, platform_fee_percentage: u8, publisher_rev_share: u8, bumps: InitializeBumps) -> (r:
        Result<(), AdW3Error>)
        ensures
            r is Ok <==> platform_fee_percentage + publisher_rev_share <= 100,
            match r {
                Ok(()) => {
                    &&& final(self).authority == old(self).authority
                    &&& final(self).token_mint == old(self).token_mint
                    &&& final(self).exchange_vault == old(self).exchange_vault
                    &&& final(self).adw_config == (ProtocolConfig {
                        authority: old(self).authority,
                        platform_fee_percentage,
                        publisher_rev_share,
                        is_paused: false,
                        token_mint: old(self).token_mint,
                        bump: bumps.adw_config,
                    })
                    &&& final(self).exchange_vault_state == (ExchangeVault {
                        authority: old(self).authority,
                        total_balance: 0,
                        pending_settlements: 0,
                        fee_balance: 0,
                        token_mint: old(self).token_mint,
                        token_account: old(self).exchange_vault,
                        bump: bumps.exchange_vault_state,
                    })
                    &&& final(self).adw_config.wf()
                    &&& final(self).exchange_vault_state.wf()
                },
                Err(e) => {
                    &&& fee_config_error(platform_fee_percentage, publisher_rev_share) == Some(e)
                    &&& *final(self) == *old(self)
                },
            },
    {
        if platform_fee_percentage > 100 {
            return Err(AdW3Error::InvalidFeePercentage);
        }
        if publisher_rev_share > 100 {
            return Err(AdW3Error::InvalidRevenueShare);
        }
        if platform_fee_percentage + publisher_rev_share > 100 {
            return Err(AdW3Error::InvalidFeePercentage);
        }
        self.adw_config = ProtocolConfig {
            authority: self.authority,
            platform_fee_percentage,
            publisher_rev_share,
            is_paused: false,
            token_mint: self.token_mint,
            bump: bumps.adw_config,
        };
        self.exchange_vault_state = ExchangeVault {
            authority: self.authority,
            total_balance: 0,
            pending_settlements: 0,
            fee_balance: 0,
            token_mint: self.token_mint,
            token_account: self.exchange_vault,
            bump: bumps.exchange_vault_state,
        };
        Ok(())
    }
}

} // verus!
