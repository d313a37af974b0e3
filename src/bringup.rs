//! Boot-time decisions: which credentials to run with, and when the network
//! is ready for the application.
use vstd::prelude::*;
use vstd::string::StringSliceAdditionalSpecFns;

use crate::config::{Config, ConfigError, ConfigView, API_KEY_MAX_LEN, PASS_MAX_LEN, SSID_MAX_LEN, VERSION};

verus! {

/// The credentials to run with, and whether they still have to be saved.
pub struct BootConfig {
    pub config: Config,
    /// The record did not load, so the fallback credentials are in use and
    /// should be persisted.
    pub needs_save: bool,
}

/// Picks the credentials at boot: the loaded record when there is one, else a
/// new record built from the fallback credentials, to be saved. Fails with
/// `BadArgs` only when the record did not load and a fallback field is too
/// long.
pub fn resolve_config(
    loaded: Option<Config>,
    ssid: &str,
    pass: &str,
    api_key: &str,
) -> (r: Result<BootConfig, ConfigError>)
    ensures
        loaded matches Some(c) ==> r is Ok && !r->Ok_0.needs_save && r->Ok_0.config@ == c@,
        loaded is None ==> (r is Ok <==> (ssid.spec_bytes().len() <= SSID_MAX_LEN
            && pass.spec_bytes().len() <= PASS_MAX_LEN && api_key.spec_bytes().len()
            <= API_KEY_MAX_LEN)),
        loaded is None && r is Ok ==> r->Ok_0.needs_save && r->Ok_0.config@ == (ConfigView {
            version: VERSION,
            ssid: ssid.spec_bytes(),
            pass: pass.spec_bytes(),
            api_key: api_key.spec_bytes(),
        }),
        r matches Err(e) ==> e == ConfigError::BadArgs,
{
    match loaded {
        Some(config) => Ok(BootConfig { config, needs_save: false }),
        None => match Config::new(ssid, pass, api_key) {
            Ok(config) => Ok(BootConfig { config, needs_save: true }),
            Err(e) => Err(e),
        },
    }
}

/// Interval between checks of the link, in milliseconds.
pub const LINK_POLL_MS: u32 = 200;

/// Interval between checks for an address, in milliseconds.
pub const ADDRESS_POLL_MS: u32 = 500;

/// How far bring-up has got.
#[derive(Debug, Clone, Copy, PartialEq, Eq, Structural)]
pub enum BringupPhase {
    /// Waiting for the link layer to associate.
    AwaitLink,
    /// The link is up; waiting for an IPv4 address.
    AwaitAddress,
    /// Both held; the application may start.
    Ready,
}

/// An IPv4 address, most significant octet first.
#[derive(Debug, Clone, Copy, PartialEq, Eq, Structural)]
pub struct Ipv4Address(pub u8, pub u8, pub u8, pub u8);

/// What the caller does after a poll.
#[derive(Debug, Clone, Copy, PartialEq, Eq, Structural)]
pub enum BringupStep {
    /// Sleep this many milliseconds, then poll again.
    Wait { delay_ms: u32 },
    /// The link is up and this address was assigned.
    Done { address: Ipv4Address },
}

/// The phase after a poll in `phase` that saw `link_up` and `address`, and
/// what the caller does next. The link is checked first; once it was seen up
/// only the address is checked.
pub open spec fn poll_spec(phase: BringupPhase, link_up: bool, address: Option<Ipv4Address>) -> (
    BringupPhase,
    BringupStep,
) {
    if phase == BringupPhase::AwaitLink && !link_up {
        (BringupPhase::AwaitLink, BringupStep::Wait { delay_ms: LINK_POLL_MS })
    } else {
        match address {
            Some(a) => (BringupPhase::Ready, BringupStep::Done { address: a }),
            None => (BringupPhase::AwaitAddress, BringupStep::Wait { delay_ms: ADDRESS_POLL_MS }),
        }
    }
}

/// Waits, in order, for the link and for an IPv4 address.
pub struct Bringup {
    phase: BringupPhase,
}

impl Bringup {
    /// Starts by waiting for the link.
    pub fn new() -> (r: Bringup)
        ensures
            r.phase() == BringupPhase::AwaitLink,
    {
        Bringup { phase: BringupPhase::AwaitLink }
    }

    pub closed spec fn phase(&self) -> BringupPhase {
        self.phase
    }

    /// How far bring-up has got.
    pub fn current_phase(&self) -> (r: BringupPhase)
        ensures
            r == self.phase(),
    {
        self.phase
    }

    /// Takes in whether the link is up and the assigned address, if any, and
    /// says what to do next.
    pub fn poll(&mut self, link_up: bool, address: Option<Ipv4Address>) -> (r: BringupStep)
        ensures
            (final(self).phase(), r) == poll_spec(old(self).phase(), link_up, address),
    {
        if self.phase == BringupPhase::AwaitLink && !link_up {
            return BringupStep::Wait { delay_ms: LINK_POLL_MS };
        }
        match address {
            Some(a) => {
                self.phase = BringupPhase::Ready;
                BringupStep::Done { address: a }
            },
            None => {
                self.phase = BringupPhase::AwaitAddress;
                BringupStep::Wait { delay_ms: ADDRESS_POLL_MS }
            },
        }
    }
}

} // verus!
