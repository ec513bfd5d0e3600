//! The credit-issuance record manager: supply accounting, the fee schedule
//! applied to transfers, the anti-whale wallet cap, and the pause switch.
//!
//! Minting, burning and moving value are external primitives: each operation
//! here validates and computes the exact amounts, and the caller performs the
//! corresponding transfers, committing only when they succeed.

use crate::rewards::lemma_div_sum_floor;
use vstd::arithmetic::div_mod::{lemma_div_by_multiple, lemma_div_is_ordered};
use vstd::arithmetic::mul::{
    lemma_mul_inequality, lemma_mul_is_commutative, lemma_mul_is_distributive_add,
    lemma_mul_nonnegative,
};
use vstd::prelude::*;

verus! {

/// Validation failures of the credit-issuance operations.
#[derive(Clone, Copy, Debug, PartialEq, Eq, Structural)]
pub enum ErrorCode {
    /// The record manager is paused.
    ProgramPaused,
    /// A mint that would push circulation past the total supply.
    ExceedsMaxSupply,
    /// A transfer that would leave the recipient over the wallet cap.
    ExceedsMaxWalletSize,
    /// A fee schedule over the twenty-percent ceiling.
    FeesTooHigh,
}

/// Issued supply in whole tokens before decimal scaling.
pub const INITIAL_SUPPLY_TOKENS: u64 = 1_000_000_000;

/// Default fee schedule and wallet cap, in basis points.
pub const DEFAULT_BURN_RATE: u16 = 500;

pub const DEFAULT_TREASURY_RATE: u16 = 500;

pub const DEFAULT_MAX_WALLET_PERCENT: u16 = 100;

/// Ceiling on the combined fee schedule, in basis points.
pub const MAX_TOTAL_FEE_BP: u16 = 2000;

/// The credit-issuance record: supply, fee schedule, and pause state.
#[derive(Clone, Copy, Debug, PartialEq, Eq, Structural)]
pub struct TokenData {
    pub authority: u64,
    pub treasury: u64,
    /// Hard cap on circulation, in base units.
    pub total_supply: u64,
    /// Base units minted so far.
    pub circulating_supply: u64,
    pub decimals: u8,
    pub is_paused: bool,
    /// Share of each transfer burned, in basis points.
    pub burn_rate: u16,
    /// Share of each transfer sent to the treasury, in basis points.
    pub treasury_rate: u16,
    /// Wallet cap as a share of total supply, in basis points.
    pub max_wallet_percent: u16,
}

/// How a fee-bearing transfer of some amount splits up.
#[derive(Clone, Copy, Debug, PartialEq, Eq, Structural)]
pub struct FeeSplit {
    /// What the recipient receives.
    pub recipient_amount: u64,
    /// What goes to the treasury.
    pub treasury_amount: u64,
    /// What is burned.
    pub burn_amount: u64,
}

/// Ten to the `e`.
pub open spec fn spec_pow10(e: nat) -> nat
    decreases e,
{
    if e == 0 {
        1
    } else {
        10 * spec_pow10((e - 1) as nat)
    }
}

/// The basis-point fee a transfer of `amount` owes at `rate_bp`, truncating.
pub open spec fn spec_fee(amount: u64, rate_bp: u16) -> int {
    amount * rate_bp / 10000
}

impl TokenData {
    /// Internal consistency: circulation never exceeds the cap and the fee
    /// schedule respects its ceiling.
    pub open spec fn wf(self) -> bool {
        &&& self.circulating_supply <= self.total_supply
        &&& self.burn_rate + self.treasury_rate <= MAX_TOTAL_FEE_BP
    }

    /// The largest balance the anti-whale rule lets one wallet hold.
    pub open spec fn spec_max_wallet(self) -> int {
        self.total_supply * self.max_wallet_percent / 10000
    }

    /// What the recipient of a transfer of `amount` receives once both fees
    /// are withheld.
    pub open spec fn spec_recipient_amount(self, amount: u64) -> int {
        amount - spec_fee(amount, self.burn_rate) - spec_fee(amount, self.treasury_rate)
    }
}

proof fn lemma_pow10_pos(e: nat)
    ensures
        1 <= spec_pow10(e),
    decreases e,
{
    if e > 0 {
        lemma_pow10_pos((e - 1) as nat);
    }
}

proof fn lemma_pow10_mono(a: nat, b: nat)
    requires
        a <= b,
    ensures
        spec_pow10(a) <= spec_pow10(b),
    decreases b,
{
    if a < b {
        lemma_pow10_mono(a, (b - 1) as nat);
        lemma_pow10_pos((b - 1) as nat);
    }
}

proof fn lemma_pow10_value_10()
    ensures
        spec_pow10(10) == 10_000_000_000,
{
    assert(spec_pow10(0) == 1);
    assert(spec_pow10(1) == 10);
    assert(spec_pow10(2) == 100);
    assert(spec_pow10(3) == 1000);
    assert(spec_pow10(4) == 10000);
    assert(spec_pow10(5) == 100000);
    assert(spec_pow10(6) == 1000000);
    assert(spec_pow10(7) == 10000000);
    assert(spec_pow10(8) == 100000000);
    assert(spec_pow10(9) == 1000000000);
    assert(spec_pow10(10) == 10000000000);
}

/// Ten to the `e`, for exponents whose power fits the supply arithmetic.
fn pow10(e: u8) -> (r: u64)
    requires
        e <= 10,
    ensures
        r == spec_pow10(e as nat),
        r <= 10_000_000_000,
{
    proof {
        lemma_pow10_value_10();
    }
    let mut r: u64 = 1;
    let mut i: u8 = 0;
    while i < e
        invariant
            i <= e <= 10,
            r == spec_pow10(i as nat),
        decreases e - i,
    {
        proof {
            lemma_pow10_mono((i + 1) as nat, 10);
            lemma_pow10_value_10();
        }
        r = r * 10;
        i = i + 1;
    }
    proof {
        lemma_pow10_mono(e as nat, 10);
        lemma_pow10_value_10();
    }
    r
}

/// A fresh credit-issuance record under `authority`: one billion tokens of
/// total supply at the given decimal scaling, nothing yet in circulation,
/// five-percent burn and treasury fees, and a one-percent wallet cap.
pub fn initialize(authority: u64, treasury: u64, decimals: u8) -> (t: TokenData)
    requires
        decimals <= 10,
    ensures
        t == (TokenData {
            authority,
            treasury,
            total_supply: (INITIAL_SUPPLY_TOKENS * spec_pow10(decimals as nat)) as u64,
            circulating_supply: 0,
            decimals,
            is_paused: false,
            burn_rate: DEFAULT_BURN_RATE,
            treasury_rate: DEFAULT_TREASURY_RATE,
            max_wallet_percent: DEFAULT_MAX_WALLET_PERCENT,
        }),
        t.wf(),
{
    let scale = pow10(decimals);
    let total_supply = INITIAL_SUPPLY_TOKENS * scale;
    TokenData {
        authority,
        treasury,
        total_supply,
        circulating_supply: 0,
        decimals,
        is_paused: false,
        burn_rate: DEFAULT_BURN_RATE,
        treasury_rate: DEFAULT_TREASURY_RATE,
        max_wallet_percent: DEFAULT_MAX_WALLET_PERCENT,
    }
}

/// Mint `amount` base units, subject to the pause switch and the supply cap.
///
/// On success the caller mints `amount` to the destination balance and
/// commits; on a failed mint it never commits, so circulation only grows
/// together with the minted value.
pub fn mint_tokens(token_data: &mut TokenData, amount: u64) -> (r: Result<(), ErrorCode>)
    requires
        old(token_data).wf(),
    ensures
        final(token_data).wf(),
        (r is Ok <==> !old(token_data).is_paused && old(token_data).circulating_supply + amount
            <= old(token_data).total_supply),
        (old(token_data).is_paused ==> r == Err::<(), ErrorCode>(ErrorCode::ProgramPaused)),
        (!old(token_data).is_paused && old(token_data).circulating_supply + amount > old(
            token_data,
        ).total_supply ==> r == Err::<(), ErrorCode>(ErrorCode::ExceedsMaxSupply)),
        (r is Err ==> *final(token_data) == *old(token_data)),
        (r is Ok ==> *final(token_data) == (TokenData {
            circulating_supply: (old(token_data).circulating_supply + amount) as u64,
            ..*old(token_data)
        })),
{
    if token_data.is_paused {
        return Err(ErrorCode::ProgramPaused);
    }
    if amount > token_data.total_supply - token_data.circulating_supply {
        return Err(ErrorCode::ExceedsMaxSupply);
    }
    token_data.circulating_supply = token_data.circulating_supply + amount;
    Ok(())
}

/// Both fees together never exceed the transferred amount while the schedule
/// stays within a full hundred percent.
pub proof fn lemma_fees_le_amount(amount: u64, burn_bp: u16, treasury_bp: u16)
    requires
        burn_bp + treasury_bp <= 10000,
    ensures
        0 <= spec_fee(amount, burn_bp),
        0 <= spec_fee(amount, treasury_bp),
        spec_fee(amount, burn_bp) + spec_fee(amount, treasury_bp) <= amount,
{
    let x1 = amount * burn_bp;
    let x2 = amount * treasury_bp;
    lemma_mul_nonnegative(amount as int, burn_bp as int);
    lemma_mul_nonnegative(amount as int, treasury_bp as int);
    lemma_div_is_ordered(0, x1, 10000);
    lemma_div_is_ordered(0, x2, 10000);
    lemma_div_sum_floor(x1, x2, 10000);
    lemma_mul_is_distributive_add(amount as int, burn_bp as int, treasury_bp as int);
    assert(x1 + x2 == amount * (burn_bp + treasury_bp));
    lemma_mul_inequality(burn_bp + treasury_bp, 10000, amount as int);
    lemma_mul_is_commutative(amount as int, burn_bp + treasury_bp);
    lemma_mul_is_commutative(amount as int, 10000);
    lemma_div_is_ordered(x1 + x2, amount * 10000, 10000);
    lemma_div_by_multiple(amount as int, 10000);
}

/// Split a transfer of `amount` toward a recipient currently holding
/// `to_balance`: burn and treasury fees are withheld and the anti-whale cap
/// is enforced on the recipient's resulting balance.
///
/// On success the caller performs the three movements — recipient amount to
/// the recipient, treasury amount to the treasury, burn amount burned — and
/// commits only when all succeed.
pub fn transfer_with_fees(token_data: &TokenData, to_balance: u64, amount: u64) -> (r: Result<
    FeeSplit,
    ErrorCode,
>)
    requires
        token_data.wf(),
    ensures
        (r is Ok <==> !token_data.is_paused && to_balance + token_data.spec_recipient_amount(
            amount,
        ) <= token_data.spec_max_wallet()),
        (token_data.is_paused ==> r == Err::<FeeSplit, ErrorCode>(ErrorCode::ProgramPaused)),
        (!token_data.is_paused && to_balance + token_data.spec_recipient_amount(amount)
            > token_data.spec_max_wallet() ==> r == Err::<FeeSplit, ErrorCode>(
            ErrorCode::ExceedsMaxWalletSize,
        )),
        (r is Ok ==> r == Ok::<FeeSplit, ErrorCode>(FeeSplit {
            recipient_amount: token_data.spec_recipient_amount(amount) as u64,
            treasury_amount: spec_fee(amount, token_data.treasury_rate) as u64,
            burn_amount: spec_fee(amount, token_data.burn_rate) as u64,
        })),
{
    if token_data.is_paused {
        return Err(ErrorCode::ProgramPaused);
    }
    proof {
        assert((amount as int) * (token_data.burn_rate as int) <= (u64::MAX as int) * (u16::MAX
            as int)) by (nonlinear_arith)
            requires
                amount <= u64::MAX,
                token_data.burn_rate <= u16::MAX,
        ;
        assert((amount as int) * (token_data.treasury_rate as int) <= (u64::MAX as int) * (
        u16::MAX as int)) by (nonlinear_arith)
            requires
                amount <= u64::MAX,
                token_data.treasury_rate <= u16::MAX,
        ;
        assert((token_data.total_supply as int) * (token_data.max_wallet_percent as int) <= (
        u64::MAX as int) * (u16::MAX as int)) by (nonlinear_arith)
            requires
                token_data.total_supply <= u64::MAX,
                token_data.max_wallet_percent <= u16::MAX,
        ;
        lemma_fees_le_amount(amount, token_data.burn_rate, token_data.treasury_rate);
    }
    let burn_amount: u64 = ((amount as u128) * (token_data.burn_rate as u128) / 10000) as u64;
    let treasury_amount: u64 = ((amount as u128) * (token_data.treasury_rate as u128)
        / 10000) as u64;
    let recipient_amount: u64 = amount - burn_amount - treasury_amount;
    // The cap comparison is carried out in 128 bits: the cap itself may
    // exceed the 64-bit range when the configured share is large.
    let max_wallet_amount: u128 = (token_data.total_supply as u128)
        * (token_data.max_wallet_percent as u128) / 10000;
    let recipient_new_balance: u128 = (to_balance as u128) + (recipient_amount as u128);
    if recipient_new_balance > max_wallet_amount {
        return Err(ErrorCode::ExceedsMaxWalletSize);
    }
    Ok(FeeSplit { recipient_amount, treasury_amount, burn_amount })
}

/// Flip the emergency pause switch.
pub fn set_paused(token_data: &mut TokenData, paused: bool) -> (r: Result<(), ErrorCode>)
    requires
        old(token_data).wf(),
    ensures
        final(token_data).wf(),
        r == Ok::<(), ErrorCode>(()),
        *final(token_data) == (TokenData { is_paused: paused, ..*old(token_data) }),
{
    token_data.is_paused = paused;
    Ok(())
}

/// Replace the fee schedule, rejecting any combination over the ceiling.
pub fn update_fees(token_data: &mut TokenData, burn_rate: u16, treasury_rate: u16) -> (r: Result<
    (),
    ErrorCode,
>)
    requires
        old(token_data).wf(),
    ensures
        final(token_data).wf(),
        (r is Ok <==> burn_rate + treasury_rate <= MAX_TOTAL_FEE_BP),
        (r is Err ==> r == Err::<(), ErrorCode>(ErrorCode::FeesTooHigh) && *final(token_data)
            == *old(token_data)),
        (r is Ok ==> *final(token_data) == (TokenData {
            burn_rate,
            treasury_rate,
            ..*old(token_data)
        })),
{
    if (burn_rate as u64) + (treasury_rate as u64) > (MAX_TOTAL_FEE_BP as u64) {
        return Err(ErrorCode::FeesTooHigh);
    }
    token_data.burn_rate = burn_rate;
    token_data.treasury_rate = treasury_rate;
    Ok(())
}

} // verus!
