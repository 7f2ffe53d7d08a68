use crate::error::AppError;
use vstd::bytes::{
    lemma_auto_spec_u64_to_from_le_bytes, spec_u64_from_le_bytes, spec_u64_to_le_bytes,
    u64_from_le_bytes, u64_to_le_bytes,
};
use vstd::prelude::*;
use vstd::slice::{slice_index_get, slice_subrange};

verus! {

/// One decoded request. The wire form is one tag byte followed by the
/// fields, each a little-endian unsigned 64-bit integer in declaration
/// order, with no padding.
#[derive(Clone, Copy, Debug, PartialEq, Eq, Structural)]
pub enum AppInstruction {
    Swap { amount: u64, limit: u64 },
    Route { amount: u64, first_limit: u64, second_limit: u64 },
    AddLiquidity { delta_s: u64, delta_a: u64, delta_b: u64 },
    RemoveLiquidity { lpt: u64 },
}

/// What `AppInstruction::unpack` returns: the decoded request, or
/// `InvalidInstruction` when the buffer is empty, the tag is unrecognized,
/// or any field's byte range is missing. Trailing bytes beyond the last
/// field are ignored.
pub open spec fn spec_unpack(data: Seq<u8>) -> Result<AppInstruction, AppError> {
    if data.len() < 1 {
        Err(AppError::InvalidInstruction)
    } else if data[0] == 0 {
        if data.len() >= 17 {
            Ok(
                AppInstruction::Swap {
                    amount: spec_u64_from_le_bytes(data.subrange(1, 9)),
                    limit: spec_u64_from_le_bytes(data.subrange(9, 17)),
                },
            )
        } else {
            Err(AppError::InvalidInstruction)
        }
    } else if data[0] == 1 {
        if data.len() >= 25 {
            Ok(
                AppInstruction::Route {
                    amount: spec_u64_from_le_bytes(data.subrange(1, 9)),
                    first_limit: spec_u64_from_le_bytes(data.subrange(9, 17)),
                    second_limit: spec_u64_from_le_bytes(data.subrange(17, 25)),
                },
            )
        } else {
            Err(AppError::InvalidInstruction)
        }
    } else if data[0] == 2 {
        if data.len() >= 25 {
            Ok(
                AppInstruction::AddLiquidity {
                    delta_s: spec_u64_from_le_bytes(data.subrange(1, 9)),
                    delta_a: spec_u64_from_le_bytes(data.subrange(9, 17)),
                    delta_b: spec_u64_from_le_bytes(data.subrange(17, 25)),
                },
            )
        } else {
            Err(AppError::InvalidInstruction)
        }
    } else if data[0] == 3 {
        if data.len() >= 9 {
            Ok(AppInstruction::RemoveLiquidity { lpt: spec_u64_from_le_bytes(data.subrange(1, 9)) })
        } else {
            Err(AppError::InvalidInstruction)
        }
    } else {
        Err(AppError::InvalidInstruction)
    }
}

/// The wire form of a request: its tag byte followed by its little-endian
/// fields. `spec_unpack` inverts it exactly.
pub open spec fn spec_pack(instruction: AppInstruction) -> Seq<u8> {
    match instruction {
        AppInstruction::Swap { amount, limit } => seq![0u8] + spec_u64_to_le_bytes(amount)
            + spec_u64_to_le_bytes(limit),
        AppInstruction::Route { amount, first_limit, second_limit } => seq![1u8]
            + spec_u64_to_le_bytes(amount) + spec_u64_to_le_bytes(first_limit)
            + spec_u64_to_le_bytes(second_limit),
        AppInstruction::AddLiquidity { delta_s, delta_a, delta_b } => seq![2u8]
            + spec_u64_to_le_bytes(delta_s) + spec_u64_to_le_bytes(delta_a)
            + spec_u64_to_le_bytes(delta_b),
        AppInstruction::RemoveLiquidity { lpt } => seq![3u8] + spec_u64_to_le_bytes(lpt),
    }
}

/// The least buffer length each recognized tag requires: the tag byte plus
/// all of its fields. Unrecognized tags need only the tag byte to be read.
pub open spec fn spec_required_len(tag: u8) -> int {
    if tag == 0 {
        17
    } else if tag == 1 {
        25
    } else if tag == 2 {
        25
    } else if tag == 3 {
        9
    } else {
        1
    }
}

impl AppInstruction {
    /// Decodes a request from its wire bytes: the first byte selects the
    /// variant, the rest are its little-endian 64-bit fields. Fails with
    /// `InvalidInstruction` on an empty buffer, an unknown tag, or a
    /// truncated field.
    pub fn unpack(instruction: &[u8]) -> (r: Result<Self, AppError>)
        ensures
            r == spec_unpack(instruction@),
    {
        if instruction.len() < 1 {
            return Err(AppError::InvalidInstruction);
        }
        let tag: u8 = *slice_index_get(instruction, 0);
        match tag {
            0 => {
                if instruction.len() < 17 {
                    return Err(AppError::InvalidInstruction);
                }
                let amount = u64_from_le_bytes(slice_subrange(instruction, 1, 9));
                let limit = u64_from_le_bytes(slice_subrange(instruction, 9, 17));
                Ok(AppInstruction::Swap { amount, limit })
            },
            1 => {
                if instruction.len() < 25 {
                    return Err(AppError::InvalidInstruction);
                }
                let amount = u64_from_le_bytes(slice_subrange(instruction, 1, 9));
                let first_limit = u64_from_le_bytes(slice_subrange(instruction, 9, 17));
                let second_limit = u64_from_le_bytes(slice_subrange(instruction, 17, 25));
                Ok(AppInstruction::Route { amount, first_limit, second_limit })
            },
            2 => {
                if instruction.len() < 25 {
                    return Err(AppError::InvalidInstruction);
                }
                let delta_s = u64_from_le_bytes(slice_subrange(instruction, 1, 9));
                let delta_a = u64_from_le_bytes(slice_subrange(instruction, 9, 17));
                let delta_b = u64_from_le_bytes(slice_subrange(instruction, 17, 25));
                Ok(AppInstruction::AddLiquidity { delta_s, delta_a, delta_b })
            },
            3 => {
                if instruction.len() < 9 {
                    return Err(AppError::InvalidInstruction);
                }
                let lpt = u64_from_le_bytes(slice_subrange(instruction, 1, 9));
                Ok(AppInstruction::RemoveLiquidity { lpt })
            },
            _ => Err(AppError::InvalidInstruction),
        }
    }

    /// Encodes a request into its wire bytes, the exact inverse of
    /// `unpack`.
    pub fn pack(&self) -> (r: Vec<u8>)
        ensures
            r@ == spec_pack(*self),
    {
        let mut data: Vec<u8> = Vec::new();
        match self {
            AppInstruction::Swap { amount, limit } => {
                data.push(0u8);
                let mut field = u64_to_le_bytes(*amount);
                data.append(&mut field);
                let mut field = u64_to_le_bytes(*limit);
                data.append(&mut field);
            },
            AppInstruction::Route { amount, first_limit, second_limit } => {
                data.push(1u8);
                let mut field = u64_to_le_bytes(*amount);
                data.append(&mut field);
                let mut field = u64_to_le_bytes(*first_limit);
                data.append(&mut field);
                let mut field = u64_to_le_bytes(*second_limit);
                data.append(&mut field);
            },
            AppInstruction::AddLiquidity { delta_s, delta_a, delta_b } => {
                data.push(2u8);
                let mut field = u64_to_le_bytes(*delta_s);
                data.append(&mut field);
                let mut field = u64_to_le_bytes(*delta_a);
                data.append(&mut field);
                let mut field = u64_to_le_bytes(*delta_b);
                data.append(&mut field);
            },
            AppInstruction::RemoveLiquidity { lpt } => {
                data.push(3u8);
                let mut field = u64_to_le_bytes(*lpt);
                data.append(&mut field);
            },
        }
        proof {
            assert(data@ =~= spec_pack(*self));
        }
        data
    }
}

/// Decoding inverts encoding: every request decodes back from its own wire
/// bytes.
pub proof fn lemma_unpack_pack_round_trip(instruction: AppInstruction)
    ensures
        spec_unpack(spec_pack(instruction)) == Ok::<AppInstruction, AppError>(instruction),
{
    lemma_auto_spec_u64_to_from_le_bytes();
    let data = spec_pack(instruction);
    match instruction {
        AppInstruction::Swap { amount, limit } => {
            assert(data.subrange(1, 9) =~= spec_u64_to_le_bytes(amount));
            assert(data.subrange(9, 17) =~= spec_u64_to_le_bytes(limit));
        },
        AppInstruction::Route { amount, first_limit, second_limit } => {
            assert(data.subrange(1, 9) =~= spec_u64_to_le_bytes(amount));
            assert(data.subrange(9, 17) =~= spec_u64_to_le_bytes(first_limit));
            assert(data.subrange(17, 25) =~= spec_u64_to_le_bytes(second_limit));
        },
        AppInstruction::AddLiquidity { delta_s, delta_a, delta_b } => {
            assert(data.subrange(1, 9) =~= spec_u64_to_le_bytes(delta_s));
            assert(data.subrange(9, 17) =~= spec_u64_to_le_bytes(delta_a));
            assert(data.subrange(17, 25) =~= spec_u64_to_le_bytes(delta_b));
        },
        AppInstruction::RemoveLiquidity { lpt } => {
            assert(data.subrange(1, 9) =~= spec_u64_to_le_bytes(lpt));
        },
    }
}

/// Decoding succeeds on exactly the buffers that hold a recognized tag and
/// all of its fields; every other buffer, in particular any truncated one,
/// fails with `InvalidInstruction`.
pub proof fn lemma_unpack_ok_condition(data: Seq<u8>)
    ensures
        spec_unpack(data) is Ok <==> (data.len() >= 1 && data[0] <= 3 && data.len()
            >= spec_required_len(data[0])),
        spec_unpack(data) is Err ==> spec_unpack(data) == Err::<AppInstruction, AppError>(
            AppError::InvalidInstruction,
        ),
{
}

} // verus!
