//! The collectible-badge record manager: score cards minted against a global
//! counter, score updates, and the royalty setting.
//!
//! The actual badge token mint is an external primitive: `mint_degen_card`
//! validates and produces the card record, and the caller mints the single
//! badge token, committing only when that succeeds. The clock is read outside
//! and handed in as `now`.

use vstd::prelude::*;

verus! {

/// Validation failures of the collectible-badge operations.
#[derive(Clone, Copy, Debug, PartialEq, Eq, Structural)]
pub enum ErrorCode {
    /// A score above one hundred.
    InvalidScore,
    /// A win rate above one hundred.
    InvalidWinRate,
    /// A royalty share above the ten-percent ceiling.
    RoyaltiesTooHigh,
}

/// How many of the earliest cards carry the genesis badge.
pub const GENESIS_LIMIT: u64 = 1000;

/// Default royalty share, in basis points.
pub const DEFAULT_ROYALTY_BP: u16 = 500;

/// Ceiling on the royalty share, in basis points.
pub const MAX_ROYALTY_BP: u16 = 1000;

/// Both score fields range over 0..=100.
pub const MAX_SCORE: u8 = 100;

/// One participant's score card.
#[derive(Clone, Copy, Debug, PartialEq, Eq, Structural)]
pub struct CardData {
    pub owner: u64,
    pub mint: u64,
    /// Score, 0 to 100.
    pub degen_score: u8,
    pub total_trades: u32,
    pub total_volume: u64,
    /// Win rate in percent, 0 to 100.
    pub win_rate: u8,
    /// Time of the last score update (or of the mint).
    pub last_updated: i64,
    /// One-based position in the mint order.
    pub mint_number: u64,
    /// How many times the scores were rewritten after the mint.
    pub update_count: u32,
    /// Whether the card is among the earliest thousand.
    pub is_genesis: bool,
}

/// The collection-wide record: mint counter and royalty setting.
#[derive(Clone, Copy, Debug, PartialEq, Eq, Structural)]
pub struct GlobalState {
    pub authority: u64,
    pub treasury: u64,
    /// How many cards were minted so far.
    pub total_minted: u64,
    /// Royalty share of each sale, in basis points.
    pub royalty_basis_points: u16,
}

/// A fresh collection record under `authority` with the default royalty.
pub fn initialize_global_state(authority: u64, treasury: u64) -> (g: GlobalState)
    ensures
        g == (GlobalState {
            authority,
            treasury,
            total_minted: 0,
            royalty_basis_points: DEFAULT_ROYALTY_BP,
        }),
{
    GlobalState { authority, treasury, total_minted: 0, royalty_basis_points: DEFAULT_ROYALTY_BP }
}

/// Mint a card for `owner` at time `now`, validating both scores and taking
/// the next mint number; the earliest thousand cards carry the genesis badge.
///
/// On success the caller mints the single badge token to the owner and
/// commits; on a failed mint it never commits, so the counter only advances
/// together with a minted badge.
pub fn mint_degen_card(
    global_state: &mut GlobalState,
    owner: u64,
    mint: u64,
    degen_score: u8,
    total_trades: u32,
    total_volume: u64,
    win_rate: u8,
    now: i64,
) -> (r: Result<CardData, ErrorCode>)
    requires
        old(global_state).total_minted < u64::MAX,
    ensures
        (r is Ok <==> degen_score <= MAX_SCORE && win_rate <= MAX_SCORE),
        (degen_score > MAX_SCORE ==> r == Err::<CardData, ErrorCode>(ErrorCode::InvalidScore)),
        (degen_score <= MAX_SCORE && win_rate > MAX_SCORE ==> r == Err::<CardData, ErrorCode>(
            ErrorCode::InvalidWinRate,
        )),
        (r is Err ==> *final(global_state) == *old(global_state)),
        (r is Ok ==> *final(global_state) == (GlobalState {
            total_minted: (old(global_state).total_minted + 1) as u64,
            ..*old(global_state)
        })),
        (r is Ok ==> r == Ok::<CardData, ErrorCode>(CardData {
            owner,
            mint,
            degen_score,
            total_trades,
            total_volume,
            win_rate,
            last_updated: now,
            mint_number: (old(global_state).total_minted + 1) as u64,
            update_count: 0,
            is_genesis: old(global_state).total_minted < GENESIS_LIMIT,
        })),
{
    if degen_score > MAX_SCORE {
        return Err(ErrorCode::InvalidScore);
    }
    if win_rate > MAX_SCORE {
        return Err(ErrorCode::InvalidWinRate);
    }
    let card = CardData {
        owner,
        mint,
        degen_score,
        total_trades,
        total_volume,
        win_rate,
        last_updated: now,
        mint_number: global_state.total_minted + 1,
        update_count: 0,
        is_genesis: global_state.total_minted < GENESIS_LIMIT,
    };
    global_state.total_minted = global_state.total_minted + 1;
    Ok(card)
}

/// Rewrite the scores on an existing card at time `now`, validating them and
/// counting the update.
pub fn update_score(
    card_data: &mut CardData,
    new_degen_score: u8,
    new_total_trades: u32,
    new_total_volume: u64,
    new_win_rate: u8,
    now: i64,
) -> (r: Result<(), ErrorCode>)
    requires
        old(card_data).update_count < u32::MAX,
    ensures
        (r is Ok <==> new_degen_score <= MAX_SCORE && new_win_rate <= MAX_SCORE),
        (new_degen_score > MAX_SCORE ==> r == Err::<(), ErrorCode>(ErrorCode::InvalidScore)),
        (new_degen_score <= MAX_SCORE && new_win_rate > MAX_SCORE ==> r == Err::<(), ErrorCode>(
            ErrorCode::InvalidWinRate,
        )),
        (r is Err ==> *final(card_data) == *old(card_data)),
        (r is Ok ==> *final(card_data) == (CardData {
            degen_score: new_degen_score,
            total_trades: new_total_trades,
            total_volume: new_total_volume,
            win_rate: new_win_rate,
            last_updated: now,
            update_count: (old(card_data).update_count + 1) as u32,
            ..*old(card_data)
        })),
{
    if new_degen_score > MAX_SCORE {
        return Err(ErrorCode::InvalidScore);
    }
    if new_win_rate > MAX_SCORE {
        return Err(ErrorCode::InvalidWinRate);
    }
    card_data.degen_score = new_degen_score;
    card_data.total_trades = new_total_trades;
    card_data.total_volume = new_total_volume;
    card_data.win_rate = new_win_rate;
    card_data.last_updated = now;
    card_data.update_count = card_data.update_count + 1;
    Ok(())
}

/// Replace the royalty share, rejecting anything over the ceiling.
pub fn update_royalties(global_state: &mut GlobalState, new_royalty_basis_points: u16) -> (r:
    Result<(), ErrorCode>)
    ensures
        (r is Ok <==> new_royalty_basis_points <= MAX_ROYALTY_BP),
        (r is Err ==> r == Err::<(), ErrorCode>(ErrorCode::RoyaltiesTooHigh)
            && *final(global_state) == *old(global_state)),
        (r is Ok ==> *final(global_state) == (GlobalState {
            royalty_basis_points: new_royalty_basis_points,
            ..*old(global_state)
        })),
{
    if new_royalty_basis_points > MAX_ROYALTY_BP {
        return Err(ErrorCode::RoyaltiesTooHigh);
    }
    global_state.royalty_basis_points = new_royalty_basis_points;
    Ok(())
}

} // verus!
