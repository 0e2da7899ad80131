use percolator_nft::slab_types_v16::{
    decode_portfolio, CloseProgressLedgerV16Account, HealthCertV16Account,
    PortfolioAccountV16Account, PortfolioDecodeError, PortfolioLegV16Account,
    ProvenanceHeaderV16Account, ResolvedPayoutReceiptV16Account, V16PodI128, V16PodU128,
    V16PodU16, V16PodU32, V16PodU64, EXPECTED_CLOSE_PROGRESS_SIZE, EXPECTED_HEALTH_CERT_SIZE,
    EXPECTED_PORTFOLIO_ACCOUNT_SIZE, EXPECTED_PORTFOLIO_LEG_SIZE,
    EXPECTED_PROVENANCE_HEADER_SIZE, EXPECTED_RESOLVED_PAYOUT_RECEIPT_SIZE, HEADER_LEN,
    KIND_PORTFOLIO, MAGIC, V16_ACCOUNT_VERSION, V16_LAYOUT_DISCRIMINATOR, VERSION,
};
use std::mem::size_of;

fn empty_account() -> PortfolioAccountV16Account {
    PortfolioAccountV16Account::zeroed()
}

/// A minimal valid wrapper-framed portfolio buffer for an owner with a single
/// active leg: `[header][account image][tail]`.
fn framed(owner: [u8; 32], asset_index: u32, market_id: u64) -> Vec<u8> {
    let mut acct = empty_account();
    acct.provenance_header.owner = owner;
    acct.provenance_header.version = V16PodU16::new(V16_ACCOUNT_VERSION);
    acct.provenance_header.layout_discriminator = V16PodU16::new(V16_LAYOUT_DISCRIMINATOR);
    acct.owner = owner;
    acct.legs[3].active = 1;
    acct.legs[3].asset_index = V16PodU32::new(asset_index);
    acct.legs[3].market_id = V16PodU64::new(market_id);

    let mut buf = vec![0u8; HEADER_LEN + EXPECTED_PORTFOLIO_ACCOUNT_SIZE + 64];
    buf[0..8].copy_from_slice(&MAGIC.to_le_bytes());
    buf[8..10].copy_from_slice(&VERSION.to_le_bytes());
    buf[10] = KIND_PORTFOLIO;
    let body = acct.to_bytes();
    buf[HEADER_LEN..HEADER_LEN + body.len()].copy_from_slice(&body);
    buf
}

fn frame_exact(acct: &PortfolioAccountV16Account) -> Vec<u8> {
    let mut buf = vec![0u8; HEADER_LEN + EXPECTED_PORTFOLIO_ACCOUNT_SIZE];
    buf[0..8].copy_from_slice(&MAGIC.to_le_bytes());
    buf[8..10].copy_from_slice(&VERSION.to_le_bytes());
    buf[10] = KIND_PORTFOLIO;
    buf[HEADER_LEN..].copy_from_slice(&acct.to_bytes());
    buf
}

#[test]
fn sizes_match_engine_ground_truth() {
    assert_eq!(size_of::<PortfolioAccountV16Account>(), 2907);
    assert_eq!(size_of::<ProvenanceHeaderV16Account>(), 100);
    assert_eq!(size_of::<PortfolioLegV16Account>(), 144);
    assert_eq!(size_of::<CloseProgressLedgerV16Account>(), 184);
    assert_eq!(size_of::<HealthCertV16Account>(), 121);
    assert_eq!(size_of::<ResolvedPayoutReceiptV16Account>(), 66);
}

#[test]
fn decode_happy_path() {
    let owner = [7u8; 32];
    let buf = framed(owner, 9, 42);
    let acct = decode_portfolio(&buf).expect("decode");
    assert_eq!(acct.owner(), owner);
    let slot = acct.active_leg_slot_for_asset(9).expect("leg");
    assert_eq!(slot, 3);
    assert_eq!(acct.legs[slot].market_id.get(), 42);
    assert!(acct.active_leg_slot_for_asset(10).is_none());
}

#[test]
fn decode_rejects_bad_header() {
    let owner = [1u8; 32];
    let mut buf = framed(owner, 1, 1);
    buf[0] ^= 0xFF;
    assert_eq!(decode_portfolio(&buf), Err(PortfolioDecodeError::BadMagic));

    let mut buf = framed(owner, 1, 1);
    buf[10] = KIND_PORTFOLIO + 1;
    assert_eq!(decode_portfolio(&buf), Err(PortfolioDecodeError::BadKind));

    let short = vec![0u8; HEADER_LEN + 10];
    assert_eq!(decode_portfolio(&short), Err(PortfolioDecodeError::TooShort));
}

#[test]
fn decode_rejects_owner_mismatch() {
    let mut acct = empty_account();
    acct.provenance_header.owner = [1u8; 32];
    acct.provenance_header.version = V16PodU16::new(V16_ACCOUNT_VERSION);
    acct.provenance_header.layout_discriminator = V16PodU16::new(V16_LAYOUT_DISCRIMINATOR);
    acct.owner = [2u8; 32]; // diverges from provenance owner
    let mut buf = vec![0u8; HEADER_LEN + EXPECTED_PORTFOLIO_ACCOUNT_SIZE];
    buf[0..8].copy_from_slice(&MAGIC.to_le_bytes());
    buf[8..10].copy_from_slice(&VERSION.to_le_bytes());
    buf[10] = KIND_PORTFOLIO;
    buf[HEADER_LEN..].copy_from_slice(&acct.to_bytes());
    assert_eq!(
        decode_portfolio(&buf),
        Err(PortfolioDecodeError::OwnerMismatch)
    );
}

#[test]
fn decode_rejects_bad_provenance() {
    let owner = [3u8; 32];
    let mut acct = empty_account();
    acct.provenance_header.owner = owner;
    acct.owner = owner;
    acct.provenance_header.version = V16PodU16::new(V16_ACCOUNT_VERSION);
    acct.provenance_header.layout_discriminator = V16PodU16::new(99); // wrong
    let mut buf = vec![0u8; HEADER_LEN + EXPECTED_PORTFOLIO_ACCOUNT_SIZE];
    buf[0..8].copy_from_slice(&MAGIC.to_le_bytes());
    buf[8..10].copy_from_slice(&VERSION.to_le_bytes());
    buf[10] = KIND_PORTFOLIO;
    buf[HEADER_LEN..].copy_from_slice(&acct.to_bytes());
    assert_eq!(
        decode_portfolio(&buf),
        Err(PortfolioDecodeError::BadLayoutDiscriminator)
    );
}

#[test]
fn close_and_resolve_gates() {
    let mut acct = empty_account();
    acct.legs[0].active = 1;
    acct.legs[0].asset_index = V16PodU32::new(5);
    assert!(!acct.close_in_progress_for_asset(5));
    acct.close_progress.active = 1;
    acct.close_progress.asset_index = V16PodU32::new(5);
    assert!(acct.close_in_progress_for_asset(5));
    assert!(!acct.close_in_progress_for_asset(6));

    assert!(!acct.has_resolved_receipt());
    acct.resolved_payout_receipt.present = 1;
    assert!(acct.has_resolved_receipt());

    assert!(!acct.portfolio_locked_or_stale());
    acct.liquidation_lock = 1;
    assert!(acct.portfolio_locked_or_stale());
}

// ─── pods ────────────────────────────────────────────────────────────────────

#[test]
fn pod_bytes_are_little_endian() {
    assert_eq!(V16PodU16::new(0x1234).bytes, [0x34, 0x12]);
    assert_eq!(V16PodU32::new(0x0102_0304).bytes, [4, 3, 2, 1]);
    assert_eq!(
        V16PodU64::new(0x0102_0304_0506_0708).bytes,
        [8, 7, 6, 5, 4, 3, 2, 1]
    );
    assert_eq!(V16PodU128::new(1).bytes, {
        let mut b = [0u8; 16];
        b[0] = 1;
        b
    });
    assert_eq!(V16PodI128::new(-1).bytes, [0xFF; 16]);
    assert_eq!(V16PodI128::new(-2).bytes[0], 0xFE);
    assert_eq!(V16PodI128::new(i128::MIN).bytes[15], 0x80);
    assert_eq!(V16PodI128::new(i128::MIN).bytes[0], 0x00);
}

#[test]
fn pod_values_agree_with_std() {
    for v in [0u16, 1, 0xFF, 0x100, 0xBEEF, u16::MAX] {
        assert_eq!(V16PodU16::new(v).bytes, v.to_le_bytes());
        assert_eq!(V16PodU16::new(v).get(), v);
    }
    for v in [0u32, 1, 0xDEAD_BEEF, u32::MAX] {
        assert_eq!(V16PodU32::new(v).bytes, v.to_le_bytes());
        assert_eq!(V16PodU32::new(v).get(), v);
    }
    for v in [0u64, 42, MAGIC, u64::MAX] {
        assert_eq!(V16PodU64::new(v).bytes, v.to_le_bytes());
        assert_eq!(V16PodU64::new(v).get(), v);
    }
    for v in [0u128, 7, u128::MAX / 3, u128::MAX] {
        assert_eq!(V16PodU128::new(v).bytes, v.to_le_bytes());
        assert_eq!(V16PodU128::new(v).get(), v);
    }
    for v in [0i128, 1, -1, i128::MIN, i128::MAX, -123_456_789_012_345_678_901_234] {
        assert_eq!(V16PodI128::new(v).bytes, v.to_le_bytes());
        assert_eq!(V16PodI128::new(v).get(), v);
    }
}

#[test]
fn pod_get_reads_given_bytes() {
    assert_eq!(V16PodU16 { bytes: [0x34, 0x12] }.get(), 0x1234);
    assert_eq!(V16PodU32 { bytes: [0, 0, 0, 0x80] }.get(), 0x8000_0000);
    assert_eq!(V16PodI128 { bytes: [0xFF; 16] }.get(), -1);
    let mut top = [0u8; 16];
    top[15] = 0x7F;
    assert_eq!(V16PodI128 { bytes: top }.get(), 0x7F << 120);
}

// ─── layout ──────────────────────────────────────────────────────────────────

#[test]
fn zeroed_account_image_is_all_zero() {
    let bytes = empty_account().to_bytes();
    assert_eq!(bytes.len(), EXPECTED_PORTFOLIO_ACCOUNT_SIZE);
    assert!(bytes.iter().all(|b| *b == 0));
}

#[test]
fn image_places_fields_at_engine_offsets() {
    let mut acct = empty_account();
    acct.provenance_header.market_group_id = [0x11; 32];
    acct.provenance_header.version = V16PodU16::new(0xA1A2);
    acct.provenance_header.layout_discriminator = V16PodU16::new(0xB1B2);
    acct.owner = [0x22; 32];
    acct.capital = V16PodU128::new(0x33);
    acct.last_fee_slot = V16PodU64::new(0x44);
    acct.active_bitmap[0] = V16PodU64::new(0x55);
    acct.legs[0].active = 0x66;
    acct.legs[0].asset_index = V16PodU32::new(0x77);
    acct.legs[0].epoch_snap = V16PodU64::new(0x88);
    acct.legs[0].b_stale = 0x99;
    acct.legs[0].stale = 0x9A;
    acct.legs[1].active = 0xAA;
    acct.health_cert.valid = 0xBB;
    acct.stale_state = 0xC1;
    acct.b_stale_state = 0xC2;
    acct.rebalance_lock = 0xC3;
    acct.liquidation_lock = 0xC4;
    acct.close_progress.active = 0xD1;
    acct.close_progress.asset_index = V16PodU32::new(0xD2);
    acct.resolved_payout_receipt.present = 0xE1;
    acct.resolved_payout_receipt.finalized = 0xE2;
    let b = acct.to_bytes();
    assert_eq!(b.len(), 2907);
    assert_eq!(&b[0..32], &[0x11; 32]);
    assert_eq!(&b[96..98], &[0xA2, 0xA1]);
    assert_eq!(&b[98..100], &[0xB2, 0xB1]);
    assert_eq!(&b[100..132], &[0x22; 32]);
    assert_eq!(b[132], 0x33);
    assert_eq!(b[212], 0x44);
    assert_eq!(b[220], 0x55);
    assert_eq!(b[228], 0x66);
    assert_eq!(b[229], 0x77);
    assert_eq!(b[228 + 78], 0x88);
    assert_eq!(b[228 + 142], 0x99);
    assert_eq!(b[228 + 143], 0x9A);
    assert_eq!(b[228 + EXPECTED_PORTFOLIO_LEG_SIZE], 0xAA);
    assert_eq!(b[2532 + 120], 0xBB);
    assert_eq!(&b[2653..2657], &[0xC1, 0xC2, 0xC3, 0xC4]);
    assert_eq!(b[2657], 0xD1);
    assert_eq!(b[2657 + 11], 0xD2);
    assert_eq!(b[2841 + 64], 0xE1);
    assert_eq!(b[2841 + 65], 0xE2);
    assert_eq!(
        EXPECTED_PROVENANCE_HEADER_SIZE
            + 32
            + 5 * 16
            + 8
            + 8
            + 16 * EXPECTED_PORTFOLIO_LEG_SIZE
            + EXPECTED_HEALTH_CERT_SIZE
            + 4
            + EXPECTED_CLOSE_PROGRESS_SIZE
            + EXPECTED_RESOLVED_PAYOUT_RECEIPT_SIZE,
        EXPECTED_PORTFOLIO_ACCOUNT_SIZE
    );
}

fn valid_account(owner: [u8; 32]) -> PortfolioAccountV16Account {
    let mut acct = empty_account();
    acct.provenance_header.owner = owner;
    acct.owner = owner;
    acct.provenance_header.version = V16PodU16::new(V16_ACCOUNT_VERSION);
    acct.provenance_header.layout_discriminator = V16PodU16::new(V16_LAYOUT_DISCRIMINATOR);
    acct
}

#[test]
fn decode_reads_back_every_field() {
    let mut acct = valid_account([9u8; 32]);
    acct.pnl = V16PodI128::new(-77);
    acct.fee_credits = V16PodI128::new(i128::MIN);
    acct.reserved_pnl = V16PodU128::new(u128::MAX);
    for (i, leg) in acct.legs.iter_mut().enumerate() {
        leg.active = (i % 2) as u8;
        leg.asset_index = V16PodU32::new(i as u32 * 3);
        leg.k_snap = V16PodI128::new(-(i as i128));
        leg.b_rem = V16PodU128::new(i as u128 * 1000);
    }
    acct.health_cert.certified_equity = V16PodI128::new(-5);
    acct.close_progress.residual_remaining = V16PodU128::new(12345);
    acct.resolved_payout_receipt.paid_effective = V16PodU128::new(999);
    let buf = frame_exact(&acct);
    assert_eq!(decode_portfolio(&buf), Ok(acct));
}

#[test]
fn decode_ignores_the_tail() {
    let acct = valid_account([4u8; 32]);
    let mut buf = frame_exact(&acct);
    let exact = decode_portfolio(&buf);
    buf.extend_from_slice(&[0xAB; 300]);
    assert_eq!(decode_portfolio(&buf), exact);
    assert_eq!(exact, Ok(acct));
}

#[test]
fn decode_rejects_each_wrapper_field() {
    let acct = valid_account([5u8; 32]);
    let good = frame_exact(&acct);

    let short = &good[..good.len() - 1];
    assert_eq!(decode_portfolio(short), Err(PortfolioDecodeError::TooShort));
    assert_eq!(decode_portfolio(&[]), Err(PortfolioDecodeError::TooShort));

    let mut buf = good.clone();
    buf[7] ^= 1;
    assert_eq!(decode_portfolio(&buf), Err(PortfolioDecodeError::BadMagic));

    let mut buf = good.clone();
    buf[8] = 15;
    assert_eq!(decode_portfolio(&buf), Err(PortfolioDecodeError::BadVersion));

    let mut buf = good.clone();
    buf[9] = 1;
    assert_eq!(decode_portfolio(&buf), Err(PortfolioDecodeError::BadVersion));

    // Bytes 11..16 of the wrapper header are not read.
    let mut buf = good.clone();
    buf[11..16].copy_from_slice(&[1, 2, 3, 4, 5]);
    assert_eq!(decode_portfolio(&buf), Ok(acct));
}

#[test]
fn decode_rejects_bad_account_version() {
    let mut acct = valid_account([6u8; 32]);
    acct.provenance_header.version = V16PodU16::new(2);
    assert_eq!(
        decode_portfolio(&frame_exact(&acct)),
        Err(PortfolioDecodeError::BadAccountVersion)
    );
    // The layout discriminator is checked before the account version.
    acct.provenance_header.layout_discriminator = V16PodU16::new(15);
    assert_eq!(
        decode_portfolio(&frame_exact(&acct)),
        Err(PortfolioDecodeError::BadLayoutDiscriminator)
    );
}

#[test]
fn decode_owner_mismatch_in_one_byte() {
    let mut acct = valid_account([6u8; 32]);
    acct.owner[31] = 7;
    assert_eq!(
        decode_portfolio(&frame_exact(&acct)),
        Err(PortfolioDecodeError::OwnerMismatch)
    );
}

#[test]
fn active_leg_slot_takes_the_first_active_match() {
    let mut acct = empty_account();
    acct.legs[2].asset_index = V16PodU32::new(8); // inactive
    acct.legs[5].active = 1;
    acct.legs[5].asset_index = V16PodU32::new(8);
    acct.legs[9].active = 2;
    acct.legs[9].asset_index = V16PodU32::new(8);
    assert_eq!(acct.active_leg_slot_for_asset(8), Some(5));
    acct.legs[5].active = 0;
    assert_eq!(acct.active_leg_slot_for_asset(8), Some(9));
    acct.legs[15].active = 1;
    acct.legs[15].asset_index = V16PodU32::new(u32::MAX);
    assert_eq!(acct.active_leg_slot_for_asset(u32::MAX), Some(15));
    assert_eq!(acct.active_leg_slot_for_asset(0), None);
}

#[test]
fn each_lock_blocks_transfer() {
    let mut acct = empty_account();
    acct.rebalance_lock = 1;
    assert!(!acct.portfolio_locked_or_stale());
    acct.stale_state = 3;
    assert!(acct.portfolio_locked_or_stale());
    acct.stale_state = 0;
    acct.b_stale_state = 1;
    assert!(acct.portfolio_locked_or_stale());
}

#[test]
fn close_in_progress_needs_an_active_ledger() {
    let mut acct = empty_account();
    acct.close_progress.asset_index = V16PodU32::new(3);
    assert!(!acct.close_in_progress_for_asset(3));
    acct.close_progress.active = 9;
    assert!(acct.close_in_progress_for_asset(3));
}
