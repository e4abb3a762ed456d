//! The stake pool's exchange rate, as read from the pool's state account.

use vstd::prelude::*;

verus! {

/// The two counters of a stake pool that fix the value of one pool token:
/// `total_lamports / pool_token_supply` lamports.
#[derive(Clone, Copy, Debug, PartialEq, Eq, Structural)]
pub struct ExchangeRate {
    pub total_lamports: u64,
    pub pool_token_supply: u64,
}

/// What the bytes of a stake pool's state account decode to: the pool's
/// `(total_lamports, pool_token_supply)`, or `None` where the bytes are not
/// the serialised form of a stake pool.
pub uninterp spec fn stake_pool_decoding(data: Seq<u8>) -> Option<(u64, u64)>;

/// Calls `StakePool::try_from_slice` of `spl_stake_pool` (its Borsh decoder)
/// on `data`. Trusted: the decoder is a function of the bytes alone, and the
/// result handed back is the decoded pool's `total_lamports` and
/// `pool_token_supply`, or `None` where the decoder reports an error.
#[verifier::external_body]
fn decode_stake_pool(data: &[u8]) -> (decoded: Option<(u64, u64)>)
    ensures
        decoded == stake_pool_decoding(data@),
{
    match <spl_stake_pool::state::StakePool as borsh::BorshDeserialize>::try_from_slice(data) {
        Ok(pool) => Some((pool.total_lamports, pool.pool_token_supply)),
        Err(_) => None,
    }
}

/// The exchange rate that `data` holds, if `data` is a stake pool's state.
pub open spec fn exchange_rate_of(data: Seq<u8>) -> Option<ExchangeRate> {
    match stake_pool_decoding(data) {
        Some((total_lamports, pool_token_supply)) => Some(
            ExchangeRate { total_lamports, pool_token_supply },
        ),
        None => None,
    }
}

/// Reads the exchange rate out of the bytes of a stake pool's state account.
pub fn read_stake_pool_state(data: &[u8]) -> (rate: Option<ExchangeRate>)
    ensures
        rate == exchange_rate_of(data@),
{
    match decode_stake_pool(data) {
        Some((total_lamports, pool_token_supply)) => Some(
            ExchangeRate { total_lamports, pool_token_supply },
        ),
        None => None,
    }
}

} // verus!
