//! Setting the protocol up, and the administrator's one parameter.

use vstd::prelude::*;
use crate::address::Address;
use crate::error::CustomError;
use crate::state::{ConfigInput, GlobalState, ProtocolInitialized};

verus! {

/// Fills in the configuration record of a new protocol and returns the record
/// to publish.
///
/// The caller becomes the administrator, the yield rate is taken as given,
/// with no range check, and the record is bound to the index token just
/// created. Whatever the record held before is overwritten: that a protocol is
/// set up only once is for the store that creates the record to enforce.
pub fn initialize(
    global_state: &mut GlobalState,
    admin: Address,
    index_token_mint: Address,
    config: ConfigInput,
) -> (result: Result<ProtocolInitialized, CustomError>)
    ensures
        final(global_state).admin == admin,
        final(global_state).base_yield_rate == config.base_yield_rate,
        final(global_state).index_token_mint == index_token_mint,
        result == Ok::<ProtocolInitialized, CustomError>(
            ProtocolInitialized { admin, base_yield_rate: config.base_yield_rate },
        ),
{
    global_state.admin = admin;
    global_state.base_yield_rate = config.base_yield_rate;
    global_state.index_token_mint = index_token_mint;
    Ok(
        ProtocolInitialized {
            admin: global_state.admin,
            base_yield_rate: global_state.base_yield_rate,
        },
    )
}

/// Replaces the yield rate, for the administrator and for nobody else.
///
/// `caller` is the identity that authorised the transition. Any rate is
/// accepted, and the one before is not kept.
pub fn update_yield(global_state: &mut GlobalState, caller: Address, new_yield_rate: u64) -> (result:
    Result<(), CustomError>)
    ensures
        // Only the yield rate can change: the administrator stays for good.
        final(global_state).admin == old(global_state).admin,
        final(global_state).index_token_mint == old(global_state).index_token_mint,
        // The administrator's word is taken.
        caller == old(global_state).admin ==> result == Ok::<(), CustomError>(()),
        caller == old(global_state).admin ==> final(global_state).base_yield_rate
            == new_yield_rate,
        // Anybody else is turned away, and nothing changes.
        caller != old(global_state).admin ==> result == Err::<(), CustomError>(
            CustomError::Unauthorized,
        ),
        caller != old(global_state).admin ==> *final(global_state) == *old(global_state),
        // The same, over the bytes of the two identities.
        result is Ok <==> caller@ == old(global_state).admin@,
{
    proof {
        Address::lemma_view_injective(caller, global_state.admin);
    }
    if caller != global_state.admin {
        return Err(CustomError::Unauthorized);
    }
    global_state.base_yield_rate = new_yield_rate;
    Ok(())
}

} // verus!
