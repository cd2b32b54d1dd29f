use vstd::prelude::*;

verus! {

/// The platform's cut of a custody balance: `floor(balance * fee_bps / 10000)`.
pub open spec fn spec_platform_fee(balance: u64, fee_bps: u16) -> int {
    (balance * fee_bps) / 10000
}

/// The winner's prize: whatever the fee leaves of the custody balance.
pub open spec fn spec_winner_prize(balance: u64, fee_bps: u16) -> int {
    balance - spec_platform_fee(balance, fee_bps)
}

/// For every fee rate of at most 10000 basis points and every custody
/// balance, the fee and the prize partition the balance exactly: no unit of
/// value is lost or created by the split.
pub proof fn lemma_fee_plus_prize_exact(balance: u64, fee_bps: u16)
    requires
        fee_bps <= 10000,
    ensures
        spec_platform_fee(balance, fee_bps) + spec_winner_prize(balance, fee_bps) == balance,
        0 <= spec_platform_fee(balance, fee_bps) <= balance,
{
    assert(balance * fee_bps <= balance * 10000) by (nonlinear_arith)
        requires fee_bps <= 10000,
    ;
    assert((balance * 10000) / 10000 == balance) by (nonlinear_arith);
    vstd::arithmetic::div_mod::lemma_div_is_ordered(
        balance * fee_bps,
        balance * 10000,
        10000,
    );
    vstd::arithmetic::div_mod::lemma_div_pos_is_pos(balance * fee_bps, 10000);
}

/// Splits a custody balance into the platform fee and the winner's prize.
pub fn compute_split(balance: u64, fee_bps: u16) -> (r: (u64, u64))
    requires
        fee_bps <= 10000,
    ensures
        r.0 == spec_platform_fee(balance, fee_bps),
        r.1 == spec_winner_prize(balance, fee_bps),
        r.0 + r.1 == balance,
{
    proof {
        lemma_fee_plus_prize_exact(balance, fee_bps);
    }
    let wide: u128 = (balance as u128) * (fee_bps as u128);
    let fee: u64 = (wide / 10000) as u64;
    let prize: u64 = balance - fee;
    (fee, prize)
}

} // verus!
