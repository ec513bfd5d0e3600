// The credit-issuance and collectible-badge record managers, driven through
// their verified operations.

use degen_core::degen_nft;
use degen_core::degen_nft::{
    initialize_global_state, mint_degen_card, update_royalties, update_score, GlobalState,
};
use degen_core::degen_token;
use degen_core::degen_token::{
    initialize, mint_tokens, set_paused, transfer_with_fees, update_fees, FeeSplit,
};

const T0: i64 = 1_700_000_000;

#[test]
fn token_initialize_defaults() {
    let token = initialize(1, 2, 6);
    assert_eq!(token.total_supply, 1_000_000_000_000_000);
    assert_eq!(token.circulating_supply, 0);
    assert_eq!(token.decimals, 6);
    assert!(!token.is_paused);
    assert_eq!(token.burn_rate, 500);
    assert_eq!(token.treasury_rate, 500);
    assert_eq!(token.max_wallet_percent, 100);
}

#[test]
fn token_initialize_decimal_edges() {
    assert_eq!(initialize(1, 2, 0).total_supply, 1_000_000_000);
    assert_eq!(initialize(1, 2, 9).total_supply, 1_000_000_000_000_000_000);
    assert_eq!(initialize(1, 2, 10).total_supply, 10_000_000_000_000_000_000);
}

#[test]
fn token_mint_within_and_over_cap() {
    let mut token = initialize(1, 2, 0);
    mint_tokens(&mut token, 600_000_000).unwrap();
    assert_eq!(token.circulating_supply, 600_000_000);
    // Filling the cap exactly is allowed.
    mint_tokens(&mut token, 400_000_000).unwrap();
    assert_eq!(token.circulating_supply, 1_000_000_000);
    // One unit more is not.
    assert_eq!(
        mint_tokens(&mut token, 1),
        Err(degen_token::ErrorCode::ExceedsMaxSupply)
    );
    assert_eq!(token.circulating_supply, 1_000_000_000);
}

#[test]
fn token_mint_respects_pause() {
    let mut token = initialize(1, 2, 0);
    set_paused(&mut token, true).unwrap();
    assert_eq!(
        mint_tokens(&mut token, 10),
        Err(degen_token::ErrorCode::ProgramPaused)
    );
    set_paused(&mut token, false).unwrap();
    mint_tokens(&mut token, 10).unwrap();
    assert_eq!(token.circulating_supply, 10);
}

#[test]
fn token_transfer_fee_split() {
    let token = initialize(1, 2, 6);
    let split = transfer_with_fees(&token, 0, 10_000).unwrap();
    assert_eq!(
        split,
        FeeSplit { recipient_amount: 9_000, treasury_amount: 500, burn_amount: 500 }
    );
}

#[test]
fn token_transfer_anti_whale_cap() {
    let token = initialize(1, 2, 6);
    // The wallet cap is one percent of supply: 10_000_000_000_000.
    let cap = 10_000_000_000_000u64;
    // Landing exactly on the cap is allowed.
    let split = transfer_with_fees(&token, cap - 9_000, 10_000).unwrap();
    assert_eq!(split.recipient_amount, 9_000);
    // One unit past it is not.
    assert_eq!(
        transfer_with_fees(&token, cap - 8_999, 10_000),
        Err(degen_token::ErrorCode::ExceedsMaxWalletSize)
    );
}

#[test]
fn token_transfer_respects_pause() {
    let mut token = initialize(1, 2, 6);
    set_paused(&mut token, true).unwrap();
    assert_eq!(
        transfer_with_fees(&token, 0, 10_000),
        Err(degen_token::ErrorCode::ProgramPaused)
    );
}

#[test]
fn token_update_fees_bounds() {
    let mut token = initialize(1, 2, 6);
    update_fees(&mut token, 600, 700).unwrap();
    assert_eq!(token.burn_rate, 600);
    assert_eq!(token.treasury_rate, 700);
    // The ceiling itself is allowed.
    update_fees(&mut token, 1_000, 1_000).unwrap();
    // One basis point past it is not, and the schedule stays put.
    assert_eq!(
        update_fees(&mut token, 1_500, 501),
        Err(degen_token::ErrorCode::FeesTooHigh)
    );
    assert_eq!(token.burn_rate, 1_000);
    assert_eq!(token.treasury_rate, 1_000);
}

#[test]
fn nft_initialize_defaults() {
    let state = initialize_global_state(1, 2);
    assert_eq!(state.total_minted, 0);
    assert_eq!(state.royalty_basis_points, 500);
}

#[test]
fn nft_mint_card() {
    let mut state = initialize_global_state(1, 2);
    let card = mint_degen_card(&mut state, 10, 20, 85, 100, 1_000_000, 60, T0).unwrap();
    assert_eq!(card.owner, 10);
    assert_eq!(card.mint, 20);
    assert_eq!(card.degen_score, 85);
    assert_eq!(card.total_trades, 100);
    assert_eq!(card.total_volume, 1_000_000);
    assert_eq!(card.win_rate, 60);
    assert_eq!(card.last_updated, T0);
    assert_eq!(card.mint_number, 1);
    assert_eq!(card.update_count, 0);
    assert!(card.is_genesis);
    assert_eq!(state.total_minted, 1);
}

#[test]
fn nft_mint_validation_errors() {
    let mut state = initialize_global_state(1, 2);
    assert_eq!(
        mint_degen_card(&mut state, 10, 20, 101, 0, 0, 0, T0),
        Err(degen_nft::ErrorCode::InvalidScore)
    );
    assert_eq!(
        mint_degen_card(&mut state, 10, 20, 100, 0, 0, 101, T0),
        Err(degen_nft::ErrorCode::InvalidWinRate)
    );
    assert_eq!(state.total_minted, 0);
}

#[test]
fn nft_genesis_boundary() {
    // The thousandth card is the last genesis one.
    let mut state = GlobalState { authority: 1, treasury: 2, total_minted: 999, royalty_basis_points: 500 };
    let card = mint_degen_card(&mut state, 10, 20, 50, 0, 0, 50, T0).unwrap();
    assert_eq!(card.mint_number, 1_000);
    assert!(card.is_genesis);
    let card = mint_degen_card(&mut state, 11, 21, 50, 0, 0, 50, T0).unwrap();
    assert_eq!(card.mint_number, 1_001);
    assert!(!card.is_genesis);
}

#[test]
fn nft_update_score_and_errors() {
    let mut state = initialize_global_state(1, 2);
    let mut card = mint_degen_card(&mut state, 10, 20, 85, 100, 1_000_000, 60, T0).unwrap();
    update_score(&mut card, 90, 150, 2_000_000, 70, T0 + 50).unwrap();
    assert_eq!(card.degen_score, 90);
    assert_eq!(card.total_trades, 150);
    assert_eq!(card.total_volume, 2_000_000);
    assert_eq!(card.win_rate, 70);
    assert_eq!(card.last_updated, T0 + 50);
    assert_eq!(card.update_count, 1);

    assert_eq!(
        update_score(&mut card, 101, 0, 0, 0, T0 + 60),
        Err(degen_nft::ErrorCode::InvalidScore)
    );
    assert_eq!(
        update_score(&mut card, 50, 0, 0, 101, T0 + 60),
        Err(degen_nft::ErrorCode::InvalidWinRate)
    );
    assert_eq!(card.update_count, 1);
    assert_eq!(card.last_updated, T0 + 50);
}

#[test]
fn nft_update_royalties_bounds() {
    let mut state = initialize_global_state(1, 2);
    update_royalties(&mut state, 1_000).unwrap();
    assert_eq!(state.royalty_basis_points, 1_000);
    assert_eq!(
        update_royalties(&mut state, 1_001),
        Err(degen_nft::ErrorCode::RoyaltiesTooHigh)
    );
    assert_eq!(state.royalty_basis_points, 1_000);
}
