use vstd::arithmetic::div_mod::{
    lemma_div_multiples_vanish, lemma_fundamental_div_mod, lemma_mod_division_less_than_divisor,
};
use vstd::prelude::*;

verus! {

/// Fee kept inside the pool on every trade, in parts of `DECIMALS` (0.25%).
pub const FEE: u64 = 2500000;

/// Platform earning routed out of the pool on a non-exempted trade, in parts
/// of `DECIMALS` (0.05%).
pub const EARNING: u64 = 500000;

/// Denominator of the two rates above.
pub const DECIMALS: u64 = 1000000000;

/// The constant-product pricing engine: pure functions from reserve
/// snapshots to quotes. It never touches state; callers pass a fresh
/// snapshot and receive a plan.
pub struct Oracle {}

/// What `Oracle::curve` returns: the ask reserve after a trade that moves
/// the bid reserve to `new_bid_reserve`, holding the product of the two
/// reserves invariant, rounded down. The trade is rejected (`None`) when any
/// input is zero, when the new ask reserve would be zero (the trade would
/// drain the pool), or when the quotient does not fit in 64 bits.
pub open spec fn spec_curve(new_bid_reserve: u64, bid_reserve: u64, ask_reserve: u64) -> Option<
    u64,
> {
    if new_bid_reserve == 0 || bid_reserve == 0 || ask_reserve == 0 {
        None
    } else {
        let quotient = (bid_reserve * ask_reserve) / (new_bid_reserve as int);
        if quotient == 0 || quotient > u64::MAX {
            None
        } else {
            Some(quotient as u64)
        }
    }
}

/// The fee retained inside the pool, for a gross payout
/// `paid_amount_without_fee`.
pub open spec fn spec_fee(paid_amount_without_fee: u64) -> int {
    (paid_amount_without_fee * FEE) / (DECIMALS as int)
}

/// The platform earning charged on a non-exempted trade, for a gross payout
/// `paid_amount_without_fee`.
pub open spec fn spec_earning(paid_amount_without_fee: u64) -> int {
    (paid_amount_without_fee * EARNING) / (DECIMALS as int)
}

/// What `Oracle::curve_in_fee` returns: the quote of `spec_curve` split into
/// the new ask reserve (fee folded back into the pool), the net amount paid
/// to the trader, and the platform earning (zero on an exempted trade).
pub open spec fn spec_curve_in_fee(
    new_bid_reserve: u64,
    bid_reserve: u64,
    ask_reserve: u64,
    is_exempted: bool,
) -> Option<(u64, u64, u64)> {
    match spec_curve(new_bid_reserve, bid_reserve, ask_reserve) {
        None => None,
        Some(new_ask_reserve_without_fee) => {
            if ask_reserve < new_ask_reserve_without_fee {
                None
            } else {
                let paid_amount_without_fee = (ask_reserve - new_ask_reserve_without_fee) as u64;
                let fee = spec_fee(paid_amount_without_fee);
                let earning = if is_exempted {
                    0int
                } else {
                    spec_earning(paid_amount_without_fee)
                };
                Some(
                    (
                        (new_ask_reserve_without_fee + fee) as u64,
                        (paid_amount_without_fee - fee - earning) as u64,
                        earning as u64,
                    ),
                )
            }
        },
    }
}

/// Both rate deductions are non-negative, each is at most the gross payout,
/// and together they never exceed it: the net payout cannot underflow.
pub proof fn lemma_rate_parts_bounded(paid_amount_without_fee: u64)
    ensures
        0 <= spec_fee(paid_amount_without_fee) <= paid_amount_without_fee,
        0 <= spec_earning(paid_amount_without_fee) <= paid_amount_without_fee,
        spec_fee(paid_amount_without_fee) + spec_earning(paid_amount_without_fee)
            <= paid_amount_without_fee,
{
    let p = paid_amount_without_fee as int;
    let d = DECIMALS as int;
    lemma_fundamental_div_mod(p * FEE, d);
    lemma_mod_division_less_than_divisor(p * FEE, d);
    lemma_fundamental_div_mod(p * EARNING, d);
    lemma_mod_division_less_than_divisor(p * EARNING, d);
}

impl Oracle {
    /// Prices a hypothetical trade against the constant-product invariant:
    /// the bid reserve moves from `bid_reserve` to `new_bid_reserve`, and the
    /// result is the ask reserve that keeps the product of the reserves
    /// unchanged, rounded down. The product is formed in a 128-bit
    /// intermediate, and the result is accepted only if it fits in 64 bits.
    pub fn curve(new_bid_reserve: u64, bid_reserve: u64, ask_reserve: u64) -> (r: Option<u64>)
        ensures
            r == spec_curve(new_bid_reserve, bid_reserve, ask_reserve),
    {
        if new_bid_reserve == 0 || bid_reserve == 0 || ask_reserve == 0 {
            return None;
        }
        proof {
            assert((bid_reserve as int) * (ask_reserve as int) <= (u64::MAX as int) * (
            u64::MAX as int)) by (nonlinear_arith)
                requires
                    bid_reserve <= u64::MAX,
                    ask_reserve <= u64::MAX,
            ;
        }
        let product: u128 = (bid_reserve as u128) * (ask_reserve as u128);
        let quotient: u128 = product / (new_bid_reserve as u128);
        if quotient == 0 {
            return None;
        }
        if quotient > u64::MAX as u128 {
            return None;
        }
        Some(quotient as u64)
    }

    /// Prices the same trade as `curve` and splits the payout: the fee stays
    /// inside the pool's ask reserve, the earning (zero when the trade is
    /// exempted, as on the internal leg of a route) leaves the pool, and the
    /// trader receives the rest. Every arithmetic step is checked; any
    /// overflow or underflow rejects the whole quote.
    pub fn curve_in_fee(
        new_bid_reserve: u64,
        bid_reserve: u64,
        ask_reserve: u64,
        is_exempted: bool,
    ) -> (r: Option<(u64, u64, u64)>)
        ensures
            r == spec_curve_in_fee(new_bid_reserve, bid_reserve, ask_reserve, is_exempted),
    {
        let new_ask_reserve_without_fee = match Self::curve(
            new_bid_reserve,
            bid_reserve,
            ask_reserve,
        ) {
            Some(v) => v,
            None => { return None },
        };
        let paid_amount_without_fee = match ask_reserve.checked_sub(new_ask_reserve_without_fee) {
            Some(v) => v,
            None => { return None },
        };
        proof {
            lemma_rate_parts_bounded(paid_amount_without_fee);
        }
        let fee = ((paid_amount_without_fee as u128) * (FEE as u128) / (DECIMALS as u128)) as u64;
        let mut earning: u64 = 0;
        if !is_exempted {
            earning =
            ((paid_amount_without_fee as u128) * (EARNING as u128) / (DECIMALS as u128)) as u64;
        }
        let after_fee = match paid_amount_without_fee.checked_sub(fee) {
            Some(v) => v,
            None => { return None },
        };
        let paid_amount = match after_fee.checked_sub(earning) {
            Some(v) => v,
            None => { return None },
        };
        let new_ask_reserve = match new_ask_reserve_without_fee.checked_add(fee) {
            Some(v) => v,
            None => { return None },
        };
        Some((new_ask_reserve, paid_amount, earning))
    }
}

/// Trading zero net change is a no-op on price: moving the bid reserve to
/// its current value returns the ask reserve unchanged.
pub proof fn lemma_curve_identity(bid_reserve: u64, ask_reserve: u64)
    requires
        bid_reserve > 0,
        ask_reserve > 0,
    ensures
        spec_curve(bid_reserve, bid_reserve, ask_reserve) == Some(ask_reserve),
{
    lemma_div_multiples_vanish(ask_reserve as int, bid_reserve as int);
}

/// `curve` never returns a zero reserve: any input that would produce zero
/// fails instead.
pub proof fn lemma_curve_never_zero(new_bid_reserve: u64, bid_reserve: u64, ask_reserve: u64)
    ensures
        spec_curve(new_bid_reserve, bid_reserve, ask_reserve) matches Some(new_ask_reserve)
            ==> new_ask_reserve > 0,
{
}

/// The constant product is preserved up to floor rounding: the new product
/// never exceeds the old one and falls short of it by less than one unit of
/// the new bid reserve.
pub proof fn lemma_curve_preserves_product(new_bid_reserve: u64, bid_reserve: u64, ask_reserve: u64)
    requires
        spec_curve(new_bid_reserve, bid_reserve, ask_reserve) is Some,
    ensures
        ({
            let new_ask_reserve_without_fee = spec_curve(
                new_bid_reserve,
                bid_reserve,
                ask_reserve,
            )->Some_0;
            &&& new_bid_reserve * new_ask_reserve_without_fee <= bid_reserve * ask_reserve
            &&& bid_reserve * ask_reserve < new_bid_reserve * new_ask_reserve_without_fee
                + new_bid_reserve
        }),
{
    let product = (bid_reserve as int) * (ask_reserve as int);
    lemma_fundamental_div_mod(product, new_bid_reserve as int);
    lemma_mod_division_less_than_divisor(product, new_bid_reserve as int);
}

/// The 64-bit overflow guard: a quotient too large for 64 bits is rejected
/// deterministically, never wrapped or truncated.
pub proof fn lemma_curve_overflow_guard(new_bid_reserve: u64, bid_reserve: u64, ask_reserve: u64)
    requires
        new_bid_reserve > 0,
        (bid_reserve * ask_reserve) / (new_bid_reserve as int) > u64::MAX,
    ensures
        spec_curve(new_bid_reserve, bid_reserve, ask_reserve) is None,
{
}

/// Fee-monotonicity: the net payout never exceeds the gross payout, and an
/// exempted trade is charged no earning at all.
pub proof fn lemma_curve_in_fee_monotone(
    new_bid_reserve: u64,
    bid_reserve: u64,
    ask_reserve: u64,
    is_exempted: bool,
)
    requires
        spec_curve_in_fee(new_bid_reserve, bid_reserve, ask_reserve, is_exempted) is Some,
    ensures
        ({
            let quote = spec_curve_in_fee(new_bid_reserve, bid_reserve, ask_reserve, is_exempted)->Some_0;
            let new_ask_reserve_without_fee = spec_curve(
                new_bid_reserve,
                bid_reserve,
                ask_reserve,
            )->Some_0;
            &&& quote.1 <= ask_reserve - new_ask_reserve_without_fee
            &&& is_exempted ==> quote.2 == 0
        }),
{
    let new_ask_reserve_without_fee = spec_curve(new_bid_reserve, bid_reserve, ask_reserve)->Some_0;
    lemma_rate_parts_bounded((ask_reserve - new_ask_reserve_without_fee) as u64);
}

} // verus!
