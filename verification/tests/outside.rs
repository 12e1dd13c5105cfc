#![allow(deprecated)]

use escrow::derivation::derive_custody_authority;
use escrow::error::EscrowError;
use escrow::processor::ExchangeAccounts;
use escrow::processor::AccountView;
use escrow::processor::Processor;
use escrow::state::Escrow;

use spl_token::solana_program::program_pack::Pack;
use spl_token::state::Account as TokenAccount;
use spl_token::state::AccountState;

#[test]
fn custody_authority_matches_host_derivation() {
    let program_id = [42u8; 32];
    let (authority, bump) = derive_custody_authority(&program_id).unwrap();

    let pid = solana_program::pubkey::Pubkey::new_from_array(program_id);
    let (expected, expected_bump) =
        solana_program::pubkey::Pubkey::find_program_address(&[b"escrow"], &pid);
    assert_eq!(authority, expected.to_bytes());
    assert_eq!(bump, expected_bump);
}

/// The owning-program check compares against the token-ledger program id,
/// the base58 decoding of "TokenkegQfeZyiNwAJbNbGKPFXCWuBvf9Ss623VQ5DA".
#[test]
fn token_program_id_bytes() {
    assert_eq!(
        spl_token::id().to_bytes(),
        [
            6, 221, 246, 225, 215, 101, 161, 147, 217, 203, 225, 70, 206, 235, 121, 172, 28, 180,
            133, 237, 95, 91, 55, 145, 58, 140, 245, 133, 126, 255, 0, 169,
        ]
    );
}

#[test]
fn custody_authority_is_reproducible() {
    let program_id = [7u8; 32];
    assert_eq!(
        derive_custody_authority(&program_id),
        derive_custody_authority(&program_id)
    );
    assert_ne!(
        derive_custody_authority(&program_id),
        derive_custody_authority(&[8u8; 32])
    );
}

fn account(key: u8, is_signer: bool, owner: [u8; 32], lamports: u64, data: Vec<u8>) -> AccountView {
    AccountView { key: [key; 32], is_signer, owner, lamports, data }
}

/// Exchange reads the custody balance out of a genuinely packed token
/// account, so its amount guard must agree with the token crate's own
/// serializer.
#[test]
fn custody_balance_read_matches_token_crate() {
    let mut token_account = TokenAccount::default();
    token_account.amount = 750;
    token_account.state = AccountState::Initialized;
    let mut custody_data = vec![0u8; TokenAccount::LEN];
    TokenAccount::pack(token_account, &mut custody_data).unwrap();

    let record = Escrow {
        is_initialized: true,
        initializer_pubkey: [1u8; 32],
        temp_token_account_pubkey: [2u8; 32],
        initializer_token_to_recieve_account_pubkey: [3u8; 32],
        expected_amount: 1000,
    };
    let accounts = ExchangeAccounts {
        taker: account(11, true, [0u8; 32], 10, Vec::new()),
        takers_sending_token_account: account(12, false, spl_token::id().to_bytes(), 5, Vec::new()),
        takers_token_to_recieve_account: account(
            13,
            false,
            spl_token::id().to_bytes(),
            5,
            Vec::new(),
        ),
        pdas_temp_token_account: account(2, false, spl_token::id().to_bytes(), 5, custody_data),
        initializers_main_account: account(1, false, [0u8; 32], 100, Vec::new()),
        initializers_token_to_recieve_account: account(
            3,
            false,
            spl_token::id().to_bytes(),
            5,
            Vec::new(),
        ),
        escrow_account: account(4, false, [0u8; 32], 40, record.pack()),
    };

    // Expecting anything but the packed balance is rejected; the packed
    // balance goes through to the second transfer leg.
    assert_eq!(
        Processor::process_exchange(&accounts, 500, &[9u8; 32], 254),
        Err(EscrowError::ExpectedAmountMismatch)
    );
    let effects = Processor::process_exchange(&accounts, 750, &[9u8; 32], 254).unwrap();
    assert_eq!(
        effects.transfer_to_taker,
        escrow::processor::TokenOp::Transfer {
            from: [2u8; 32],
            to: [13u8; 32],
            authorizer: [9u8; 32],
            authorization: escrow::processor::Authorization::Derived { bump: 254 },
            amount: 750,
        }
    );
}

/// An uninitialized custody account is rejected outright.
#[test]
fn custody_account_must_be_initialized() {
    let mut custody_data = vec![0u8; TokenAccount::LEN];
    custody_data[64..72].copy_from_slice(&750u64.to_le_bytes());

    let record = Escrow {
        is_initialized: true,
        initializer_pubkey: [1u8; 32],
        temp_token_account_pubkey: [2u8; 32],
        initializer_token_to_recieve_account_pubkey: [3u8; 32],
        expected_amount: 1000,
    };
    let accounts = ExchangeAccounts {
        taker: account(11, true, [0u8; 32], 10, Vec::new()),
        takers_sending_token_account: account(12, false, spl_token::id().to_bytes(), 5, Vec::new()),
        takers_token_to_recieve_account: account(
            13,
            false,
            spl_token::id().to_bytes(),
            5,
            Vec::new(),
        ),
        pdas_temp_token_account: account(2, false, spl_token::id().to_bytes(), 5, custody_data),
        initializers_main_account: account(1, false, [0u8; 32], 100, Vec::new()),
        initializers_token_to_recieve_account: account(
            3,
            false,
            spl_token::id().to_bytes(),
            5,
            Vec::new(),
        ),
        escrow_account: account(4, false, [0u8; 32], 40, record.pack()),
    };
    assert_eq!(
        Processor::process_exchange(&accounts, 750, &[9u8; 32], 254),
        Err(EscrowError::InvalidAccountData)
    );
}
