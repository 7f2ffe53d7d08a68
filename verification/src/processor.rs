use crate::error::AppError;
use crate::oracle::{spec_curve_in_fee, Oracle};
use crate::pool::{Pool, Pubkey};
use vstd::prelude::*;

verus! {

/// The request-handling core: resolves reserves inside a pool and sizes the
/// bridge leg of a two-pool route. The surrounding runtime feeds it pool
/// snapshots and carries out the swaps it plans.
pub struct Processor {}

/// What `Processor::parse_reserve` returns: the reserve paired with `mint`
/// inside the pool, trying the `a`, `b`, `s` slots in that order, or `None`
/// when the asset does not belong to the pool.
pub open spec fn spec_parse_reserve(pool_data: Pool, mint: Pubkey) -> Option<u64> {
    if pool_data.mint_a == mint {
        Some(pool_data.reserve_a)
    } else if pool_data.mint_b == mint {
        Some(pool_data.reserve_b)
    } else if pool_data.mint_s == mint {
        Some(pool_data.reserve_s)
    } else {
        None
    }
}

/// What `Processor::quote_middle_amount` returns: the input amount of the
/// second leg of a route, or the first error in order: the two pools do not
/// share a primary mint; a requested asset is not in the first pool; a
/// checked arithmetic step fails. The bridge-leg quote is exempted from the
/// platform earning, and is priced against the first pool's primary reserve.
pub open spec fn spec_quote_middle_amount(
    first_pool_data: Pool,
    second_pool_data: Pool,
    mint_bid: Pubkey,
    mint_bridge: Pubkey,
    amount: u64,
) -> Result<u64, AppError> {
    if first_pool_data.mint_s != second_pool_data.mint_s {
        Err(AppError::UnmatchedPrimaryMints)
    } else {
        match spec_parse_reserve(first_pool_data, mint_bid) {
            None => Err(AppError::CannotFindReserves),
            Some(bid_reserve) => match spec_parse_reserve(first_pool_data, mint_bridge) {
                None => Err(AppError::CannotFindReserves),
                Some(middle_reserve) => {
                    if bid_reserve + amount > u64::MAX {
                        Err(AppError::Overflow)
                    } else {
                        let new_bid_reserve = (bid_reserve + amount) as u64;
                        match spec_curve_in_fee(
                            new_bid_reserve,
                            bid_reserve,
                            first_pool_data.reserve_s,
                            true,
                        ) {
                            None => Err(AppError::Overflow),
                            Some(quote) => {
                                if middle_reserve < quote.0 {
                                    Err(AppError::Overflow)
                                } else {
                                    Ok((middle_reserve - quote.0) as u64)
                                }
                            },
                        }
                    }
                },
            },
        }
    }
}

impl Processor {
    /// Looks up the reserve that belongs to `mint` within a pool snapshot:
    /// a linear match against the pool's three asset slots.
    pub fn parse_reserve(pool_data: &Pool, mint: Pubkey) -> (r: Option<u64>)
        ensures
            r == spec_parse_reserve(*pool_data, mint),
    {
        if pool_data.mint_a == mint {
            Some(pool_data.reserve_a)
        } else if pool_data.mint_b == mint {
            Some(pool_data.reserve_b)
        } else if pool_data.mint_s == mint {
            Some(pool_data.reserve_s)
        } else {
            None
        }
    }

    /// Sizes the second leg of a route `mint_bid -> bridge -> output`:
    /// checks that the two pools share a primary mint, resolves the bid and
    /// bridge reserves in the first pool, and quotes the bridge amount with
    /// `Oracle::curve_in_fee`, exempted from the platform earning because it
    /// is an internal hop of one logical trade. Rejection happens before any
    /// state would move; the function reads snapshots only.
    pub fn quote_middle_amount(
        first_pool_data: &Pool,
        second_pool_data: &Pool,
        mint_bid: Pubkey,
        mint_bridge: Pubkey,
        amount: u64,
    ) -> (r: Result<u64, AppError>)
        ensures
            r == spec_quote_middle_amount(
                *first_pool_data,
                *second_pool_data,
                mint_bid,
                mint_bridge,
                amount,
            ),
    {
        if first_pool_data.mint_s != second_pool_data.mint_s {
            return Err(AppError::UnmatchedPrimaryMints);
        }
        let bid_reserve = match Self::parse_reserve(first_pool_data, mint_bid) {
            Some(v) => v,
            None => { return Err(AppError::CannotFindReserves) },
        };
        let middle_reserve = match Self::parse_reserve(first_pool_data, mint_bridge) {
            Some(v) => v,
            None => { return Err(AppError::CannotFindReserves) },
        };
        let new_bid_reserve = match bid_reserve.checked_add(amount) {
            Some(v) => v,
            None => { return Err(AppError::Overflow) },
        };
        let quote = match Oracle::curve_in_fee(
            new_bid_reserve,
            bid_reserve,
            first_pool_data.reserve_s,
            true,
        ) {
            Some(v) => v,
            None => { return Err(AppError::Overflow) },
        };
        let new_middle_reserve = quote.0;
        let middle_amount = match middle_reserve.checked_sub(new_middle_reserve) {
            Some(v) => v,
            None => { return Err(AppError::Overflow) },
        };
        Ok(middle_amount)
    }
}

/// Two pools whose primary mints differ are rejected outright, before
/// anything else is read or any state would move.
pub proof fn lemma_route_rejects_unmatched_mints(
    first_pool_data: Pool,
    second_pool_data: Pool,
    mint_bid: Pubkey,
    mint_bridge: Pubkey,
    amount: u64,
)
    requires
        first_pool_data.mint_s != second_pool_data.mint_s,
    ensures
        spec_quote_middle_amount(first_pool_data, second_pool_data, mint_bid, mint_bridge, amount)
            == Err::<u64, AppError>(AppError::UnmatchedPrimaryMints),
{
}

} // verus!
