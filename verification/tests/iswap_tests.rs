use swap_aggregator::iswap::ISwap;
use swap_aggregator::pool::Pubkey;

fn key(tag: u64) -> Pubkey {
    Pubkey { w0: tag, w1: 0, w2: 0, w3: 0 }
}

#[test]
fn swap_builds_code_3_data() {
    let ix = ISwap::swap(
        0x1122334455667788,
        5,
        key(1),
        key(2),
        key(3),
        key(4),
        key(5),
        key(6),
        key(7),
        key(8),
        key(9),
        key(10),
        key(11),
    )
    .unwrap();
    assert_eq!(ix.program_id, key(11));
    assert_eq!(ix.data[0], 3);
    assert_eq!(&ix.data[1..9], &[0x88, 0x77, 0x66, 0x55, 0x44, 0x33, 0x22, 0x11]);
    assert_eq!(&ix.data[9..17], &5u64.to_le_bytes());
    assert_eq!(ix.data.len(), 17);
}

#[test]
fn swap_account_list_order_and_flags() {
    let ix = ISwap::swap(
        1,
        2,
        key(1),
        key(2),
        key(3),
        key(4),
        key(5),
        key(6),
        key(7),
        key(8),
        key(9),
        key(10),
        key(11),
    )
    .unwrap();
    assert_eq!(ix.accounts.len(), 10);
    for (i, meta) in ix.accounts.iter().enumerate() {
        assert_eq!(meta.pubkey, key(i as u64 + 1));
        // Only the payer signs.
        assert_eq!(meta.is_signer, i == 0);
        // The treasurer and the token program are read-only.
        assert_eq!(meta.is_writable, i < 8);
    }
}

#[test]
fn add_liquidity_builds_code_1_data() {
    let ix = ISwap::add_liquidity(
        10,
        20,
        30,
        key(1),
        key(2),
        key(3),
        key(4),
        key(5),
        key(6),
        key(7),
        key(8),
        key(9),
        key(10),
        key(11),
        key(12),
        key(13),
    )
    .unwrap();
    assert_eq!(ix.program_id, key(13));
    assert_eq!(ix.data[0], 1);
    assert_eq!(&ix.data[1..9], &10u64.to_le_bytes());
    assert_eq!(&ix.data[9..17], &20u64.to_le_bytes());
    assert_eq!(&ix.data[17..25], &30u64.to_le_bytes());
    assert_eq!(ix.data.len(), 25);
    assert_eq!(ix.accounts.len(), 12);
    for (i, meta) in ix.accounts.iter().enumerate() {
        assert_eq!(meta.pubkey, key(i as u64 + 1));
        assert_eq!(meta.is_signer, i == 0);
        assert_eq!(meta.is_writable, i < 10);
    }
}

#[test]
fn remove_liquidity_builds_code_2_data() {
    let ix = ISwap::remove_liquidity(
        77,
        key(1),
        key(2),
        key(3),
        key(4),
        key(5),
        key(6),
        key(7),
        key(8),
        key(9),
        key(10),
        key(11),
        key(12),
        key(13),
    )
    .unwrap();
    assert_eq!(ix.program_id, key(13));
    assert_eq!(ix.data[0], 2);
    assert_eq!(&ix.data[1..9], &77u64.to_le_bytes());
    assert_eq!(ix.data.len(), 9);
    assert_eq!(ix.accounts.len(), 12);
    for (i, meta) in ix.accounts.iter().enumerate() {
        assert_eq!(meta.pubkey, key(i as u64 + 1));
        assert_eq!(meta.is_signer, i == 0);
        assert_eq!(meta.is_writable, i < 10);
    }
}
