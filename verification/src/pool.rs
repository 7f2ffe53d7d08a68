use vstd::prelude::*;

verus! {

/// A 256-bit asset (mint) identifier, held as four 64-bit words. The
/// aggregator only ever compares identifiers for equality; the surrounding
/// runtime converts its own key type to and from this one.
#[derive(Clone, Copy, Debug, PartialEq, Eq, Structural)]
pub struct Pubkey {
    pub w0: u64,
    pub w1: u64,
    pub w2: u64,
    pub w3: u64,
}

/// A snapshot of one liquidity venue: three asset identifiers, each paired
/// with its reserve balance. `mint_s` is the primary asset, the one that can
/// bridge two pools in a route. All reserves are denominated in the smallest
/// indivisible unit of their asset; a zero reserve makes the pool unusable
/// for pricing.
#[derive(Clone, Copy, Debug, PartialEq, Eq, Structural)]
pub struct Pool {
    pub mint_s: Pubkey,
    pub mint_a: Pubkey,
    pub mint_b: Pubkey,
    pub reserve_s: u64,
    pub reserve_a: u64,
    pub reserve_b: u64,
}

} // verus!
