use swap_aggregator::error::AppError;
use swap_aggregator::instruction::AppInstruction;

#[test]
fn unpack_swap_from_explicit_bytes() {
    let mut data = vec![0u8];
    data.extend_from_slice(&7u64.to_le_bytes());
    data.extend_from_slice(&9u64.to_le_bytes());
    assert_eq!(
        AppInstruction::unpack(&data),
        Ok(AppInstruction::Swap { amount: 7, limit: 9 })
    );
}

#[test]
fn unpack_route_from_explicit_bytes() {
    let mut data = vec![1u8];
    data.extend_from_slice(&1_000_000u64.to_le_bytes());
    data.extend_from_slice(&900_000u64.to_le_bytes());
    data.extend_from_slice(&800_000u64.to_le_bytes());
    assert_eq!(
        AppInstruction::unpack(&data),
        Ok(AppInstruction::Route { amount: 1_000_000, first_limit: 900_000, second_limit: 800_000 })
    );
}

#[test]
fn pack_unpack_round_trip_every_variant() {
    let instructions = [
        AppInstruction::Swap { amount: 0, limit: u64::MAX },
        AppInstruction::Route { amount: 1, first_limit: 2, second_limit: 3 },
        AppInstruction::AddLiquidity { delta_s: 4, delta_a: 5, delta_b: 6 },
        AppInstruction::RemoveLiquidity { lpt: u64::MAX },
    ];
    for instruction in instructions {
        let packed = instruction.pack();
        assert_eq!(AppInstruction::unpack(&packed), Ok(instruction));
    }
}

#[test]
fn pack_emits_tag_and_little_endian_fields() {
    let packed = AppInstruction::Swap { amount: 0x0102030405060708, limit: 1 }.pack();
    assert_eq!(packed[0], 0);
    assert_eq!(&packed[1..9], &[8, 7, 6, 5, 4, 3, 2, 1]);
    assert_eq!(&packed[9..17], &[1, 0, 0, 0, 0, 0, 0, 0]);
    assert_eq!(packed.len(), 17);
}

#[test]
fn unpack_empty_buffer_fails() {
    assert_eq!(AppInstruction::unpack(&[]), Err(AppError::InvalidInstruction));
}

#[test]
fn unpack_unknown_tag_fails() {
    assert_eq!(AppInstruction::unpack(&[4u8; 25]), Err(AppError::InvalidInstruction));
    assert_eq!(AppInstruction::unpack(&[255u8]), Err(AppError::InvalidInstruction));
}

#[test]
fn unpack_truncated_buffers_fail() {
    // One byte short of each variant's required span.
    assert_eq!(AppInstruction::unpack(&[0u8; 16]), Err(AppError::InvalidInstruction));
    assert_eq!(AppInstruction::unpack(&[1u8; 24]), Err(AppError::InvalidInstruction));
    assert_eq!(AppInstruction::unpack(&[2u8; 24]), Err(AppError::InvalidInstruction));
    assert_eq!(AppInstruction::unpack(&[3u8; 8]), Err(AppError::InvalidInstruction));
    // A bare recognized tag with no fields at all.
    assert_eq!(AppInstruction::unpack(&[0u8]), Err(AppError::InvalidInstruction));
}

#[test]
fn unpack_ignores_trailing_bytes() {
    let mut data = vec![3u8];
    data.extend_from_slice(&42u64.to_le_bytes());
    data.extend_from_slice(&[0xAA; 11]);
    assert_eq!(
        AppInstruction::unpack(&data),
        Ok(AppInstruction::RemoveLiquidity { lpt: 42 })
    );
}
