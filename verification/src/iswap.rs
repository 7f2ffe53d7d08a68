use crate::error::AppError;
use crate::pool::Pubkey;
use vstd::bytes::{spec_u64_to_le_bytes, u64_to_le_bytes};
use vstd::prelude::*;

verus! {

/// One account a built instruction touches: its key, whether its signature
/// is required, and whether it may be written. The surrounding runtime
/// converts this to its own account-meta type before dispatch.
#[derive(Clone, Copy, Debug, PartialEq, Eq, Structural)]
pub struct AccountMeta {
    pub pubkey: Pubkey,
    pub is_signer: bool,
    pub is_writable: bool,
}

/// A writable account entry.
pub open spec fn spec_meta(pubkey: Pubkey, is_signer: bool) -> AccountMeta {
    AccountMeta { pubkey, is_signer, is_writable: true }
}

/// A read-only account entry.
pub open spec fn spec_meta_readonly(pubkey: Pubkey, is_signer: bool) -> AccountMeta {
    AccountMeta { pubkey, is_signer, is_writable: false }
}

/// A fully assembled call into the downstream swap program: the program to
/// invoke, the accounts it touches in order, and its instruction bytes.
#[derive(Debug)]
pub struct Instruction {
    pub program_id: Pubkey,
    pub accounts: Vec<AccountMeta>,
    pub data: Vec<u8>,
}

/// The instruction bytes of the downstream program's add-liquidity call:
/// its code 1, then the three deltas.
pub open spec fn spec_add_liquidity_data(delta_s: u64, delta_a: u64, delta_b: u64) -> Seq<u8> {
    seq![1u8] + spec_u64_to_le_bytes(delta_s) + spec_u64_to_le_bytes(delta_a)
        + spec_u64_to_le_bytes(delta_b)
}

/// The instruction bytes of the downstream program's remove-liquidity call:
/// its code 2, then the liquidity share amount.
pub open spec fn spec_remove_liquidity_data(lpt: u64) -> Seq<u8> {
    seq![2u8] + spec_u64_to_le_bytes(lpt)
}

/// The instruction bytes of the downstream program's swap call: its code 3,
/// then the input amount and the minimum acceptable output.
pub open spec fn spec_swap_data(amount: u64, limit: u64) -> Seq<u8> {
    seq![3u8] + spec_u64_to_le_bytes(amount) + spec_u64_to_le_bytes(limit)
}

/// The account list of the add-liquidity call, in the order the downstream
/// program expects: only the owner signs, only the trailing two entries are
/// read-only.
pub open spec fn spec_add_liquidity_accounts(
    owner_acc: Pubkey,
    pool_acc: Pubkey,
    lpt_acc: Pubkey,
    mint_lpt_acc: Pubkey,
    src_s_acc: Pubkey,
    treasury_s_acc: Pubkey,
    src_a_acc: Pubkey,
    treasury_a_acc: Pubkey,
    src_b_acc: Pubkey,
    treasury_b_acc: Pubkey,
    treasurer: Pubkey,
    splt_program: Pubkey,
) -> Seq<AccountMeta> {
    seq![
        spec_meta(owner_acc, true),
        spec_meta(pool_acc, false),
        spec_meta(lpt_acc, false),
        spec_meta(mint_lpt_acc, false),
        spec_meta(src_s_acc, false),
        spec_meta(treasury_s_acc, false),
        spec_meta(src_a_acc, false),
        spec_meta(treasury_a_acc, false),
        spec_meta(src_b_acc, false),
        spec_meta(treasury_b_acc, false),
        spec_meta_readonly(treasurer, false),
        spec_meta_readonly(splt_program, false),
    ]
}

/// The account list of the remove-liquidity call, in the order the
/// downstream program expects.
pub open spec fn spec_remove_liquidity_accounts(
    owner_acc: Pubkey,
    pool_acc: Pubkey,
    lpt_acc: Pubkey,
    mint_lpt_acc: Pubkey,
    dst_s_acc: Pubkey,
    treasury_s_acc: Pubkey,
    dst_a_acc: Pubkey,
    treasury_a_acc: Pubkey,
    dst_b_acc: Pubkey,
    treasury_b_acc: Pubkey,
    treasurer: Pubkey,
    splt_program: Pubkey,
) -> Seq<AccountMeta> {
    seq![
        spec_meta(owner_acc, true),
        spec_meta(pool_acc, false),
        spec_meta(lpt_acc, false),
        spec_meta(mint_lpt_acc, false),
        spec_meta(dst_s_acc, false),
        spec_meta(treasury_s_acc, false),
        spec_meta(dst_a_acc, false),
        spec_meta(treasury_a_acc, false),
        spec_meta(dst_b_acc, false),
        spec_meta(treasury_b_acc, false),
        spec_meta_readonly(treasurer, false),
        spec_meta_readonly(splt_program, false),
    ]
}

/// The account list of the swap call, in the order the downstream program
/// expects.
pub open spec fn spec_swap_accounts(
    payer_acc: Pubkey,
    pool_acc: Pubkey,
    vault_acc: Pubkey,
    src_acc: Pubkey,
    treasury_bid_acc: Pubkey,
    dst_acc: Pubkey,
    treasury_ask_acc: Pubkey,
    treasury_sen_acc: Pubkey,
    treasurer: Pubkey,
    splt_program: Pubkey,
) -> Seq<AccountMeta> {
    seq![
        spec_meta(payer_acc, true),
        spec_meta(pool_acc, false),
        spec_meta(vault_acc, false),
        spec_meta(src_acc, false),
        spec_meta(treasury_bid_acc, false),
        spec_meta(dst_acc, false),
        spec_meta(treasury_ask_acc, false),
        spec_meta(treasury_sen_acc, false),
        spec_meta_readonly(treasurer, false),
        spec_meta_readonly(splt_program, false),
    ]
}

impl AccountMeta {
    /// A writable account entry.
    pub fn new(pubkey: Pubkey, is_signer: bool) -> (r: AccountMeta)
        ensures
            r == spec_meta(pubkey, is_signer),
    {
        AccountMeta { pubkey, is_signer, is_writable: true }
    }

    /// A read-only account entry.
    pub fn new_readonly(pubkey: Pubkey, is_signer: bool) -> (r: AccountMeta)
        ensures
            r == spec_meta_readonly(pubkey, is_signer),
    {
        AccountMeta { pubkey, is_signer, is_writable: false }
    }
}

/// Builders for the calls this aggregator issues to the downstream swap
/// program. Each returns the complete call description; the surrounding
/// runtime converts and dispatches it.
pub struct ISwap {}

impl ISwap {
    /// Assembles the downstream add-liquidity call.
    pub fn add_liquidity(
        delta_s: u64,
        delta_a: u64,
        delta_b: u64,
        owner_acc: Pubkey,
        pool_acc: Pubkey,
        lpt_acc: Pubkey,
        mint_lpt_acc: Pubkey,
        src_s_acc: Pubkey,
        treasury_s_acc: Pubkey,
        src_a_acc: Pubkey,
        treasury_a_acc: Pubkey,
        src_b_acc: Pubkey,
        treasury_b_acc: Pubkey,
        treasurer: Pubkey,
        splt_program: Pubkey,
        program_id: Pubkey,
    ) -> (r: Result<Instruction, AppError>)
        ensures
            r matches Ok(ix) && ix.program_id == program_id && ix.data@ == spec_add_liquidity_data(
                delta_s,
                delta_a,
                delta_b,
            ) && ix.accounts@ == spec_add_liquidity_accounts(
                owner_acc,
                pool_acc,
                lpt_acc,
                mint_lpt_acc,
                src_s_acc,
                treasury_s_acc,
                src_a_acc,
                treasury_a_acc,
                src_b_acc,
                treasury_b_acc,
                treasurer,
                splt_program,
            ),
    {
        let mut data: Vec<u8> = Vec::new();
        data.push(1u8);
        let mut field = u64_to_le_bytes(delta_s);
        data.append(&mut field);
        let mut field = u64_to_le_bytes(delta_a);
        data.append(&mut field);
        let mut field = u64_to_le_bytes(delta_b);
        data.append(&mut field);
        let mut accounts: Vec<AccountMeta> = Vec::new();
        accounts.push(AccountMeta::new(owner_acc, true));
        accounts.push(AccountMeta::new(pool_acc, false));
        accounts.push(AccountMeta::new(lpt_acc, false));
        accounts.push(AccountMeta::new(mint_lpt_acc, false));
        accounts.push(AccountMeta::new(src_s_acc, false));
        accounts.push(AccountMeta::new(treasury_s_acc, false));
        accounts.push(AccountMeta::new(src_a_acc, false));
        accounts.push(AccountMeta::new(treasury_a_acc, false));
        accounts.push(AccountMeta::new(src_b_acc, false));
        accounts.push(AccountMeta::new(treasury_b_acc, false));
        accounts.push(AccountMeta::new_readonly(treasurer, false));
        accounts.push(AccountMeta::new_readonly(splt_program, false));
        proof {
            assert(data@ =~= spec_add_liquidity_data(delta_s, delta_a, delta_b));
            assert(accounts@ =~= spec_add_liquidity_accounts(
                owner_acc,
                pool_acc,
                lpt_acc,
                mint_lpt_acc,
                src_s_acc,
                treasury_s_acc,
                src_a_acc,
                treasury_a_acc,
                src_b_acc,
                treasury_b_acc,
                treasurer,
                splt_program,
            ));
        }
        Ok(Instruction { program_id, accounts, data })
    }

    /// Assembles the downstream remove-liquidity call.
    pub fn remove_liquidity(
        lpt: u64,
        owner_acc: Pubkey,
        pool_acc: Pubkey,
        lpt_acc: Pubkey,
        mint_lpt_acc: Pubkey,
        dst_s_acc: Pubkey,
        treasury_s_acc: Pubkey,
        dst_a_acc: Pubkey,
        treasury_a_acc: Pubkey,
        dst_b_acc: Pubkey,
        treasury_b_acc: Pubkey,
        treasurer: Pubkey,
        splt_program: Pubkey,
        program_id: Pubkey,
    ) -> (r: Result<Instruction, AppError>)
        ensures
            r matches Ok(ix) && ix.program_id == program_id && ix.data@
                == spec_remove_liquidity_data(lpt) && ix.accounts@
                == spec_remove_liquidity_accounts(
                owner_acc,
                pool_acc,
                lpt_acc,
                mint_lpt_acc,
                dst_s_acc,
                treasury_s_acc,
                dst_a_acc,
                treasury_a_acc,
                dst_b_acc,
                treasury_b_acc,
                treasurer,
                splt_program,
            ),
    {
        let mut data: Vec<u8> = Vec::new();
        data.push(2u8);
        let mut field = u64_to_le_bytes(lpt);
        data.append(&mut field);
        let mut accounts: Vec<AccountMeta> = Vec::new();
        accounts.push(AccountMeta::new(owner_acc, true));
        accounts.push(AccountMeta::new(pool_acc, false));
        accounts.push(AccountMeta::new(lpt_acc, false));
        accounts.push(AccountMeta::new(mint_lpt_acc, false));
        accounts.push(AccountMeta::new(dst_s_acc, false));
        accounts.push(AccountMeta::new(treasury_s_acc, false));
        accounts.push(AccountMeta::new(dst_a_acc, false));
        accounts.push(AccountMeta::new(treasury_a_acc, false));
        accounts.push(AccountMeta::new(dst_b_acc, false));
        accounts.push(AccountMeta::new(treasury_b_acc, false));
        accounts.push(AccountMeta::new_readonly(treasurer, false));
        accounts.push(AccountMeta::new_readonly(splt_program, false));
        proof {
            assert(data@ =~= spec_remove_liquidity_data(lpt));
            assert(accounts@ =~= spec_remove_liquidity_accounts(
                owner_acc,
                pool_acc,
                lpt_acc,
                mint_lpt_acc,
                dst_s_acc,
                treasury_s_acc,
                dst_a_acc,
                treasury_a_acc,
                dst_b_acc,
                treasury_b_acc,
                treasurer,
                splt_program,
            ));
        }
        Ok(Instruction { program_id, accounts, data })
    }

    /// Assembles the downstream swap call: `amount` of the bid asset in,
    /// at least `limit` of the ask asset out or the call fails downstream.
    pub fn swap(
        amount: u64,
        limit: u64,
        payer_acc: Pubkey,
        pool_acc: Pubkey,
        vault_acc: Pubkey,
        src_acc: Pubkey,
        treasury_bid_acc: Pubkey,
        dst_acc: Pubkey,
        treasury_ask_acc: Pubkey,
        treasury_sen_acc: Pubkey,
        treasurer: Pubkey,
        splt_program: Pubkey,
        program_id: Pubkey,
    ) -> (r: Result<Instruction, AppError>)
        ensures
            r matches Ok(ix) && ix.program_id == program_id && ix.data@ == spec_swap_data(
                amount,
                limit,
            ) && ix.accounts@ == spec_swap_accounts(
                payer_acc,
                pool_acc,
                vault_acc,
                src_acc,
                treasury_bid_acc,
                dst_acc,
                treasury_ask_acc,
                treasury_sen_acc,
                treasurer,
                splt_program,
            ),
    {
        let mut data: Vec<u8> = Vec::new();
        data.push(3u8);
        let mut field = u64_to_le_bytes(amount);
        data.append(&mut field);
        let mut field = u64_to_le_bytes(limit);
        data.append(&mut field);
        let mut accounts: Vec<AccountMeta> = Vec::new();
        accounts.push(AccountMeta::new(payer_acc, true));
        accounts.push(AccountMeta::new(pool_acc, false));
        accounts.push(AccountMeta::new(vault_acc, false));
        accounts.push(AccountMeta::new(src_acc, false));
        accounts.push(AccountMeta::new(treasury_bid_acc, false));
        accounts.push(AccountMeta::new(dst_acc, false));
        accounts.push(AccountMeta::new(treasury_ask_acc, false));
        accounts.push(AccountMeta::new(treasury_sen_acc, false));
        accounts.push(AccountMeta::new_readonly(treasurer, false));
        accounts.push(AccountMeta::new_readonly(splt_program, false));
        proof {
            assert(data@ =~= spec_swap_data(amount, limit));
            assert(accounts@ =~= spec_swap_accounts(
                payer_acc,
                pool_acc,
                vault_acc,
                src_acc,
                treasury_bid_acc,
                dst_acc,
                treasury_ask_acc,
                treasury_sen_acc,
                treasurer,
                splt_program,
            ));
        }
        Ok(Instruction { program_id, accounts, data })
    }
}

} // verus!
