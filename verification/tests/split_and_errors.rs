use hastrology_program::{
    compute_split, enter_lottery, initialize, Lottery, LotteryError,
};

const AUTHORITY: u128 = 1;
const POT_VAULT: u128 = 2;
const WALLET: u128 = 3;
const QUEUE: u128 = 7;
const ORACLE: u128 = 8;
const ALICE: u128 = 100;

fn new_lottery(ticket_price: u64, fee_bps: u16, endtime: i64) -> Lottery {
    initialize(
        AUTHORITY, POT_VAULT, QUEUE, ORACLE, WALLET, ticket_price, fee_bps, endtime,
    )
    .expect("valid configuration")
}

#[test]
fn split_of_three_thousand_at_five_hundred_bps() {
    assert_eq!(compute_split(3000, 500), (150, 2850));
}

#[test]
fn split_at_zero_bps_gives_everything_to_the_winner() {
    assert_eq!(compute_split(3000, 0), (0, 3000));
    assert_eq!(compute_split(u64::MAX, 0), (0, u64::MAX));
}

#[test]
fn split_at_full_bps_gives_everything_to_the_platform() {
    assert_eq!(compute_split(3000, 10000), (3000, 0));
    assert_eq!(compute_split(u64::MAX, 10000), (u64::MAX, 0));
}

#[test]
fn split_rounds_the_fee_down() {
    // floor(999 * 333 / 10000) = 33; nothing is lost: 33 + 966 == 999.
    assert_eq!(compute_split(999, 333), (33, 966));
}

#[test]
fn split_always_partitions_the_balance() {
    for balance in [0u64, 1, 999, 1000, 12345, u64::MAX] {
        for bps in [0u16, 1, 333, 500, 9999, 10000] {
            let (fee, prize) = compute_split(balance, bps);
            assert_eq!(fee as u128 + prize as u128, balance as u128);
        }
    }
}

#[test]
fn initialize_rejects_fee_above_ten_thousand_bps() {
    let r = initialize(AUTHORITY, POT_VAULT, QUEUE, ORACLE, WALLET, 1000, 10001, 900);
    assert_eq!(r.err(), Some(LotteryError::InvalidPlatformFee));
}

#[test]
fn initialize_rejects_zero_ticket_price() {
    let r = initialize(AUTHORITY, POT_VAULT, QUEUE, ORACLE, WALLET, 0, 500, 900);
    assert_eq!(r.err(), Some(LotteryError::InvalidTicketPrice));
}

#[test]
fn entry_overflowing_the_pot_is_refused() {
    let mut l = new_lottery(1000, 500, 900);
    l.fund_pot(u64::MAX - 999).unwrap();
    assert_eq!(enter_lottery(&mut l, ALICE), Err(LotteryError::Overflow));
    assert_eq!(l.state.total_participants, 0);
    assert_eq!(l.pot_balance, u64::MAX - 999);
}

#[test]
fn funding_the_pot_past_its_ceiling_is_refused() {
    let mut l = new_lottery(1000, 500, 900);
    l.fund_pot(u64::MAX).unwrap();
    assert_eq!(l.fund_pot(1), Err(LotteryError::Overflow));
    assert_eq!(l.pot_balance, u64::MAX);
}
