use percolator_nft::transfer_hook::{
    extra_account_metas_pda, process_execute, try_extra_account_metas_pda, NftError,
    EXECUTE_DISCRIMINATOR, EXTRA_METAS_SEED,
};
use solana_program::pubkey::Pubkey;

#[test]
fn seed_is_the_interface_string() {
    assert_eq!(&EXTRA_METAS_SEED[..], b"extra-account-metas");
    assert_eq!(EXECUTE_DISCRIMINATOR, [105, 37, 101, 197, 75, 251, 102, 26]);
}

#[test]
fn pda_matches_program_address_derivation() {
    let mint = [7u8; 32];
    let program = [9u8; 32];
    let (key, bump) = extra_account_metas_pda(&mint, &program);
    let (expected, expected_bump) = Pubkey::find_program_address(
        &[b"extra-account-metas", &mint],
        &Pubkey::new_from_array(program),
    );
    assert_eq!(key, expected.to_bytes());
    assert_eq!(bump, expected_bump);
    // The address is not the mint or the program id handed in.
    assert_ne!(key, mint);
    assert_ne!(key, program);
}

#[test]
fn pda_depends_on_mint_and_program() {
    let a = extra_account_metas_pda(&[1u8; 32], &[2u8; 32]);
    let b = extra_account_metas_pda(&[3u8; 32], &[2u8; 32]);
    let c = extra_account_metas_pda(&[1u8; 32], &[4u8; 32]);
    assert_ne!(a.0, b.0);
    assert_ne!(a.0, c.0);
    assert_eq!(a, extra_account_metas_pda(&[1u8; 32], &[2u8; 32]));
}

#[test]
fn checked_pda_agrees() {
    let mint = [0x5Au8; 32];
    let program = [0xC3u8; 32];
    assert_eq!(
        try_extra_account_metas_pda(&mint, &program),
        Some(extra_account_metas_pda(&mint, &program))
    );
}

#[test]
fn execute_always_rejects() {
    assert_eq!(process_execute(&[0u8; 32], 1), Err(NftError::TransferBlocked));
    assert_eq!(process_execute(&[1u8; 32], 0), Err(NftError::TransferBlocked));
    assert_eq!(
        process_execute(&[0xFFu8; 32], u64::MAX),
        Err(NftError::TransferBlocked)
    );
}
