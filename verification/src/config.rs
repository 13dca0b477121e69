//! The singleton authority configuration and its two operations.

use vstd::prelude::*;

use crate::errors::RouletteErrors;
use crate::types::Identity;

verus! {

/// The process-wide configuration record: an initialization flag, the
/// counter the next round is keyed by, and the privileged identity that
/// gates every administrative operation.
#[derive(Clone, Copy, PartialEq, Eq, Structural, Debug)]
pub struct ConfigData {
    pub is_init: bool,
    pub roulette_count: u64,
    pub auth: Identity,
}

/// Claims the configuration for `caller`: the first call makes `caller`
/// the authority and starts the round counter at 1; every later call
/// fails and changes nothing.
pub fn init_config(config: &mut ConfigData, caller: Identity) -> (r: Result<
    (),
    RouletteErrors,
>)
    ensures
        old(config).is_init <==> r == Err::<(), RouletteErrors>(
            RouletteErrors::ConfigAlreadyInitialized,
        ),
        old(config).is_init ==> *final(config) == *old(config),
        !old(config).is_init ==> r == Ok::<(), RouletteErrors>(()) && *final(config) == (ConfigData {
            is_init: true,
            roulette_count: 1,
            auth: caller,
        }),
{
    if config.is_init {
        return Err(RouletteErrors::ConfigAlreadyInitialized);
    }
    config.is_init = true;
    config.roulette_count = 1;
    config.auth = caller;
    Ok(())
}

/// Rotates the authority to `new_auth`; only the current authority may do
/// so, and a rejected caller changes nothing.
pub fn set_config(config: &mut ConfigData, caller: Identity, new_auth: Identity) -> (r: Result<
    (),
    RouletteErrors,
>)
    ensures
        caller != old(config).auth <==> r == Err::<(), RouletteErrors>(RouletteErrors::NotAuth),
        caller != old(config).auth ==> *final(config) == *old(config),
        caller == old(config).auth ==> r == Ok::<(), RouletteErrors>(()) && *final(config) == (
        ConfigData { auth: new_auth, ..*old(config) }),
{
    if caller != config.auth {
        return Err(RouletteErrors::NotAuth);
    }
    config.auth = new_auth;
    Ok(())
}

} // verus!
