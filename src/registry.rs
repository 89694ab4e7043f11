use vstd::prelude::*;
use vstd::utf8::encode_utf8;

use crate::error::AdW3Error;
use crate::state::{Key, ProtocolConfig, Publisher, DSP};

verus! {

/// Longest name or domain, in bytes of UTF-8.
pub const MAX_TEXT_LEN: usize = 50;

/// Length of `s` in bytes of UTF-8.
pub open spec fn utf8_len(s: Seq<char>) -> nat {
    encode_utf8(s).len()
}

/// Why a registration would be refused, in the order the checks are made.
pub open spec fn registration_error(name: Seq<char>, domain: Seq<char>, config: ProtocolConfig) -> Option<AdW3Error> {
    if utf8_len(name) > MAX_TEXT_LEN {
        Some(AdW3Error::StringTooLong)
    } else if utf8_len(domain) > MAX_TEXT_LEN {
        Some(AdW3Error::StringTooLong)
    } else if config.is_paused {
        Some(AdW3Error::ProtocolPaused)
    } else {
        None
    }
}

fn check_registration(name: &String, domain: &String, config: &ProtocolConfig) -> (r: Result<(), AdW3Error>)
    ensures
        match r {
            Ok(()) => registration_error(name@, domain@, *config) is None,
            Err(e) => registration_error(name@, domain@, *config) == Some(e),
        },
{
    if name.as_str().as_bytes().len() > MAX_TEXT_LEN {
        return Err(AdW3Error::StringTooLong);
    }
    if domain.as_str().as_bytes().len() > MAX_TEXT_LEN {
        return Err(AdW3Error::StringTooLong);
    }
    if config.is_paused {
        return Err(AdW3Error::ProtocolPaused);
    }
    Ok(())
}

/// The accounts that registering a publisher reads and writes.
#[derive(Clone, Debug)]
pub struct RegisterPublisher {
    pub publisher: Key,
    pub publisher_state: Publisher,
    pub adw_config: ProtocolConfig,
}

/// Bump seed of the publisher account.
#[derive(Clone, Copy, Debug)]
pub struct RegisterPublisherBumps {
    pub publisher_state: u8,
}

impl RegisterPublisher {
    /// Registers the signer as a publisher at time `now`, paid at
    /// `payment_address`, or at its own address when none is given. On an
    /// error nothing changes.
    pub fn register(
        &mut self,
        name: String,
        domain: String,
        payment_address: Option<Key>,
        bumps: RegisterPublisherBumps,
        now: i64,
    ) -> (r: Result<(), AdW3Error>)
        ensures
            match r {
                Ok(()) => {
                    &&& registration_error(name@, domain@, old(self).adw_config) is None
                    &&& final(self).publisher == old(self).publisher
                    &&& final(self).adw_config == old(self).adw_config
                    &&& final(self).publisher_state.authority == old(self).publisher
                    &&& final(self).publisher_state.payment_address == match payment_address {
                        Some(a) => a,
                        None => old(self).publisher,
                    }
                    &&& final(self).publisher_state.name@ == name@
                    &&& final(self).publisher_state.domain@ == domain@
                    &&& final(self).publisher_state.total_revenue == 0
                    &&& final(self).publisher_state.created_at == now
                    &&& final(self).publisher_state.bump == bumps.publisher_state
                },
                Err(e) => {
                    &&& registration_error(name@, domain@, old(self).adw_config) == Some(e)
                    &&& *final(self) == *old(self)
                },
            },
    {
        check_registration(&name, &domain, &self.adw_config)?;
        let payment = match payment_address {
            Some(a) => a,
            None => self.publisher,
        };
        self.publisher_state = Publisher {
            authority: self.publisher,
            payment_address: payment,
            name,
            domain,
            total_revenue: 0,
            created_at: now,
            bump: bumps.publisher_state,
        };
        Ok(())
    }
}

/// The accounts that registering a bidder reads and writes.
#[derive(Clone, Debug)]
pub struct RegisterDSP {
    pub dsp: Key,
    pub dsp_state: DSP,
    pub adw_config: ProtocolConfig,
}

/// Bump seed of the bidder account.
#[derive(Clone, Copy, Debug)]
pub struct RegisterDSPBumps {
    pub dsp_state: u8,
}

impl RegisterDSP {
    /// Registers the signer as a bidder at time `now`, with a zero balance.
    /// On an error nothing changes.
    pub fn register(&mut self, name: String, domain: String, bumps: RegisterDSPBumps, now: i64) -> (r: Result<
        (),
        AdW3Error,
    >)
        ensures
            match r {
                Ok(()) => {
                    &&& registration_error(name@, domain@, old(self).adw_config) is None
                    &&& final(self).dsp == old(self).dsp
                    &&& final(self).adw_config == old(self).adw_config
                    &&& final(self).dsp_state.authority == old(self).dsp
                    &&& final(self).dsp_state.name@ == name@
                    &&& final(self).dsp_state.domain@ == domain@
                    &&& final(self).dsp_state.balance == 0
                    &&& final(self).dsp_state.created_at == now
                    &&& final(self).dsp_state.bump == bumps.dsp_state
                },
                Err(e) => {
                    &&& registration_error(name@, domain@, old(self).adw_config) == Some(e)
                    &&& *final(self) == *old(self)
                },
            },
    {
        check_registration(&name, &domain, &self.adw_config)?;
        self.dsp_state = DSP {
            authority: self.dsp,
            name,
            domain,
            balance: 0,
            created_at: now,
            bump: bumps.dsp_state,
        };
        Ok(())
    }
}

} // verus!
