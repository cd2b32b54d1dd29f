use hastrology_program::{
    enter_lottery, initialize, payout, request_draw, reset, resolve_draw, Lottery, LotteryError,
};

const AUTHORITY: u128 = 1;
const POT_VAULT: u128 = 2;
const WALLET: u128 = 3;
const QUEUE: u128 = 7;
const ORACLE: u128 = 8;
const ALICE: u128 = 100;
const BOB: u128 = 101;
const CAROL: u128 = 102;

fn new_lottery(ticket_price: u64, fee_bps: u16, endtime: i64) -> Lottery {
    initialize(
        AUTHORITY, POT_VAULT, QUEUE, ORACLE, WALLET, ticket_price, fee_bps, endtime,
    )
    .expect("valid configuration")
}

#[test]
fn initialize_opens_round_one() {
    let l = new_lottery(1000, 500, 900);
    assert_eq!(l.state.authority, AUTHORITY);
    assert_eq!(l.state.pot_vault, POT_VAULT);
    assert_eq!(l.state.platform_wallet, WALLET);
    assert_eq!(l.state.platform_fee_bps, 500);
    assert_eq!(l.state.ticket_price, 1000);
    assert_eq!(l.state.current_lottery_id, 1);
    assert_eq!(l.state.total_participants, 0);
    assert_eq!(l.state.winner, 0);
    assert!(!l.state.is_drawing);
    assert_eq!(l.state.lottery_endtime, 900);
    assert_eq!(l.pot_balance, 0);
}

#[test]
fn full_round_pays_fee_and_prize_exactly() {
    // Three 1000-unit tickets at 500 basis points: fee 150, prize 2850.
    let mut l = new_lottery(1000, 500, 900);
    assert_eq!(enter_lottery(&mut l, ALICE), Ok(1));
    assert_eq!(enter_lottery(&mut l, BOB), Ok(2));
    assert_eq!(enter_lottery(&mut l, CAROL), Ok(3));
    assert_eq!(l.pot_balance, 3000);
    assert_eq!(l.state.total_participants, 3);

    let req = request_draw(&mut l, AUTHORITY, QUEUE, 900).expect("round is over");
    assert_eq!(req.payer, AUTHORITY);
    assert_eq!(req.oracle_queue, QUEUE);
    assert_eq!(req.lottery_id, 1);
    assert!(l.state.is_drawing);

    // The derived 64-bit value is 5: 5 % 3 = 2, so the winner index is 3.
    let mut randomness = [0u8; 32];
    randomness[0] = 5;
    resolve_draw(&mut l, ORACLE, randomness).expect("oracle identity");
    assert_eq!(l.state.winner, 3);

    let out = payout(&mut l, AUTHORITY).expect("winner is set");
    assert_eq!(out.platform_wallet, WALLET);
    assert_eq!(out.platform_fee_amount, 150);
    assert_eq!(out.winner_wallet, CAROL);
    assert_eq!(out.winner_prize_amount, 2850);
    assert_eq!(l.pot_balance, 0);
    assert_eq!(l.state.total_participants, 0);
    assert_eq!(l.state.current_lottery_id, 2);
    assert_eq!(l.state.lottery_endtime, 900 + 86400);
    assert!(!l.state.is_drawing);

    // The winning ticket of round 1 is marked with its prize.
    let t = l
        .tickets
        .iter()
        .find(|t| t.lottery_id == 1 && t.ticket_index == 2)
        .expect("ticket exists");
    assert!(t.ticket.is_winner);
    assert_eq!(t.ticket.prize_amount, 2850);
    assert_eq!(t.ticket.user, CAROL);
}

#[test]
fn randomness_derivation_reads_every_fourth_byte() {
    // Byte 4 contributes 2^8 to the derived value: raw = 256, 256 % 3 = 1,
    // so the winner index is 2.
    let mut l = new_lottery(1000, 500, 900);
    enter_lottery(&mut l, ALICE).unwrap();
    enter_lottery(&mut l, BOB).unwrap();
    enter_lottery(&mut l, CAROL).unwrap();
    request_draw(&mut l, AUTHORITY, QUEUE, 900).unwrap();
    let mut randomness = [0u8; 32];
    randomness[4] = 1;
    resolve_draw(&mut l, ORACLE, randomness).unwrap();
    assert_eq!(l.state.winner, 2);
}

#[test]
fn randomness_derivation_ignores_other_bytes() {
    // Bytes outside 0, 4, 8, ..., 28 do not reach the derived value:
    // raw = 0, 0 % 3 = 0, so the winner index is 1.
    let mut l = new_lottery(1000, 500, 900);
    enter_lottery(&mut l, ALICE).unwrap();
    enter_lottery(&mut l, BOB).unwrap();
    enter_lottery(&mut l, CAROL).unwrap();
    request_draw(&mut l, AUTHORITY, QUEUE, 900).unwrap();
    let mut randomness = [0u8; 32];
    randomness[1] = 255;
    randomness[2] = 255;
    randomness[31] = 255;
    resolve_draw(&mut l, ORACLE, randomness).unwrap();
    assert_eq!(l.state.winner, 1);
}

#[test]
fn second_entry_by_same_buyer_collides() {
    let mut l = new_lottery(1000, 500, 900);
    assert_eq!(enter_lottery(&mut l, ALICE), Ok(1));
    assert_eq!(enter_lottery(&mut l, ALICE), Err(LotteryError::KeyCollision));
    assert_eq!(l.state.total_participants, 1);
    assert_eq!(l.pot_balance, 1000);
    // The same buyer may enter again in the next round.
    request_draw(&mut l, AUTHORITY, QUEUE, 900).unwrap();
    let mut randomness = [0u8; 32];
    randomness[0] = 42;
    resolve_draw(&mut l, ORACLE, randomness).unwrap();
    payout(&mut l, AUTHORITY).unwrap();
    assert_eq!(enter_lottery(&mut l, ALICE), Ok(1));
}

#[test]
fn entry_while_drawing_is_refused() {
    let mut l = new_lottery(1000, 500, 900);
    enter_lottery(&mut l, ALICE).unwrap();
    request_draw(&mut l, AUTHORITY, QUEUE, 901).unwrap();
    assert_eq!(enter_lottery(&mut l, BOB), Err(LotteryError::LotteryIsDrawing));
}

#[test]
fn entries_stay_possible_past_end_time_until_draw_requested() {
    let mut l = new_lottery(1000, 500, 900);
    // Long past the end time, the round is still open: no draw was requested.
    assert_eq!(enter_lottery(&mut l, ALICE), Ok(1));
    assert_eq!(enter_lottery(&mut l, BOB), Ok(2));
}

#[test]
fn premature_draw_request_is_refused() {
    let mut l = new_lottery(1000, 500, 900);
    enter_lottery(&mut l, ALICE).unwrap();
    assert_eq!(
        request_draw(&mut l, AUTHORITY, QUEUE, 899),
        Err(LotteryError::LotteryNotOver)
    );
    assert!(!l.state.is_drawing);
}

#[test]
fn draw_request_succeeds_exactly_once() {
    let mut l = new_lottery(1000, 500, 900);
    enter_lottery(&mut l, ALICE).unwrap();
    assert!(request_draw(&mut l, AUTHORITY, QUEUE, 900).is_ok());
    assert!(l.state.is_drawing);
    assert_eq!(
        request_draw(&mut l, AUTHORITY, QUEUE, 901),
        Err(LotteryError::LotteryIsDrawing)
    );
}

#[test]
fn draw_request_by_non_authority_is_refused() {
    let mut l = new_lottery(1000, 500, 900);
    enter_lottery(&mut l, ALICE).unwrap();
    assert_eq!(
        request_draw(&mut l, BOB, QUEUE, 901),
        Err(LotteryError::UnauthorizedAuthority)
    );
}

#[test]
fn draw_request_to_wrong_queue_fails_generically() {
    let mut l = new_lottery(1000, 500, 900);
    enter_lottery(&mut l, ALICE).unwrap();
    assert_eq!(
        request_draw(&mut l, AUTHORITY, QUEUE + 1, 901),
        Err(LotteryError::Overflow)
    );
}

#[test]
fn resolve_by_non_oracle_is_refused() {
    let mut l = new_lottery(1000, 500, 900);
    enter_lottery(&mut l, ALICE).unwrap();
    request_draw(&mut l, AUTHORITY, QUEUE, 900).unwrap();
    let randomness = [9u8; 32];
    assert_eq!(
        resolve_draw(&mut l, AUTHORITY, randomness),
        Err(LotteryError::UnauthorizedAuthority)
    );
    assert_eq!(l.state.winner, 0);
}

#[test]
fn payout_without_draw_request_is_refused() {
    let mut l = new_lottery(1000, 500, 900);
    enter_lottery(&mut l, ALICE).unwrap();
    assert_eq!(payout(&mut l, AUTHORITY), Err(LotteryError::DrawNotRequested));
}

#[test]
fn payout_by_non_authority_is_refused() {
    let mut l = new_lottery(1000, 500, 900);
    enter_lottery(&mut l, ALICE).unwrap();
    request_draw(&mut l, AUTHORITY, QUEUE, 900).unwrap();
    let mut randomness = [0u8; 32];
    randomness[0] = 1;
    resolve_draw(&mut l, ORACLE, randomness).unwrap();
    assert_eq!(payout(&mut l, BOB), Err(LotteryError::UnauthorizedAuthority));
}

#[test]
fn empty_round_resolves_to_no_winner_and_payout_is_rejected() {
    // Zero participants at round end: the winner index resolves to the
    // sentinel 0, and the payout that would subtract from it is rejected
    // outright instead of underflowing.
    let mut l = new_lottery(1000, 500, 900);
    request_draw(&mut l, AUTHORITY, QUEUE, 900).unwrap();
    let randomness = [200u8; 32];
    resolve_draw(&mut l, ORACLE, randomness).unwrap();
    assert_eq!(l.state.winner, 0);
    assert_eq!(payout(&mut l, AUTHORITY), Err(LotteryError::InvalidWinner));
    assert_eq!(l.state.current_lottery_id, 1);
    assert!(l.state.is_drawing);
}

#[test]
fn rollover_with_players_is_refused_even_past_end_time() {
    let mut l = new_lottery(1000, 500, 900);
    enter_lottery(&mut l, ALICE).unwrap();
    assert_eq!(
        reset(&mut l, 10_000),
        Err(LotteryError::CannotRolloverWithPlayers)
    );
    assert_eq!(l.state.current_lottery_id, 1);
}

#[test]
fn premature_rollover_is_refused() {
    let mut l = new_lottery(1000, 500, 900);
    assert_eq!(reset(&mut l, 899), Err(LotteryError::LotteryNotOver));
}

#[test]
fn rollover_of_empty_round_advances_round_id_by_one() {
    let mut l = new_lottery(1000, 500, 900);
    reset(&mut l, 900).unwrap();
    assert_eq!(l.state.current_lottery_id, 2);
    assert_eq!(l.state.total_participants, 0);
    assert_eq!(l.state.winner, 0);
    assert_eq!(l.state.lottery_endtime, 1000);
    assert!(!l.state.is_drawing);
}

#[test]
fn participant_count_rises_by_one_per_entry() {
    let mut l = new_lottery(1000, 500, 900);
    for (i, user) in [ALICE, BOB, CAROL].into_iter().enumerate() {
        assert_eq!(l.state.total_participants, i as u64);
        assert_eq!(enter_lottery(&mut l, user), Ok(i as u64 + 1));
        assert_eq!(l.state.total_participants, i as u64 + 1);
    }
}

#[test]
fn receipts_and_tickets_record_the_purchase() {
    let mut l = new_lottery(1000, 500, 900);
    enter_lottery(&mut l, ALICE).unwrap();
    enter_lottery(&mut l, BOB).unwrap();
    assert_eq!(l.receipts.len(), 2);
    assert_eq!(l.receipts[1].user, BOB);
    assert_eq!(l.receipts[1].lottery_id, 1);
    assert_eq!(l.receipts[1].ticket_number, 2);
    assert_eq!(l.tickets.len(), 2);
    assert_eq!(l.tickets[1].lottery_id, 1);
    assert_eq!(l.tickets[1].ticket_index, 1);
    assert_eq!(l.tickets[1].ticket.user, BOB);
    assert!(!l.tickets[1].ticket.is_winner);
    assert_eq!(l.tickets[1].ticket.prize_amount, 0);
    assert!(!l.tickets[1].ticket.is_claimed);
}

#[test]
fn repeated_oracle_callback_overwrites_the_winner() {
    // No idempotency guard stands before payout: a second authenticated
    // callback silently overwrites the winner index.
    let mut l = new_lottery(1000, 500, 900);
    enter_lottery(&mut l, ALICE).unwrap();
    enter_lottery(&mut l, BOB).unwrap();
    request_draw(&mut l, AUTHORITY, QUEUE, 900).unwrap();
    let mut randomness = [0u8; 32];
    randomness[0] = 1;
    resolve_draw(&mut l, ORACLE, randomness).unwrap();
    assert_eq!(l.state.winner, 2);
    randomness[0] = 2;
    resolve_draw(&mut l, ORACLE, randomness).unwrap();
    assert_eq!(l.state.winner, 1);
}

#[test]
fn extraneous_funds_are_included_in_the_split() {
    let mut l = new_lottery(1000, 500, 900);
    enter_lottery(&mut l, ALICE).unwrap();
    l.fund_pot(123).unwrap();
    assert_eq!(l.pot_balance, 1123);
    request_draw(&mut l, AUTHORITY, QUEUE, 900).unwrap();
    let randomness = [0u8; 32];
    resolve_draw(&mut l, ORACLE, randomness).unwrap();
    let out = payout(&mut l, AUTHORITY).unwrap();
    // floor(1123 * 500 / 10000) = 56; the winner takes the rest.
    assert_eq!(out.platform_fee_amount, 56);
    assert_eq!(out.winner_prize_amount, 1067);
}

#[test]
fn winner_index_stays_within_participant_count() {
    let mut l = new_lottery(1000, 500, 900);
    for user in [ALICE, BOB, CAROL] {
        enter_lottery(&mut l, user).unwrap();
    }
    request_draw(&mut l, AUTHORITY, QUEUE, 900).unwrap();
    let randomness = [255u8; 32];
    resolve_draw(&mut l, ORACLE, randomness).unwrap();
    assert!(1 <= l.state.winner && l.state.winner <= 3);
}

#[test]
fn round_id_changes_only_at_round_boundaries() {
    let mut l = new_lottery(1000, 500, 900);
    enter_lottery(&mut l, ALICE).unwrap();
    assert_eq!(l.state.current_lottery_id, 1);
    request_draw(&mut l, AUTHORITY, QUEUE, 900).unwrap();
    assert_eq!(l.state.current_lottery_id, 1);
    let randomness = [0u8; 32];
    resolve_draw(&mut l, ORACLE, randomness).unwrap();
    assert_eq!(l.state.current_lottery_id, 1);
    l.fund_pot(5).unwrap();
    assert_eq!(l.state.current_lottery_id, 1);
    payout(&mut l, AUTHORITY).unwrap();
    assert_eq!(l.state.current_lottery_id, 2);
    reset(&mut l, i64::MAX - 100).unwrap();
    assert_eq!(l.state.current_lottery_id, 3);
}

#[test]
fn stale_winner_out_of_range_is_rejected() {
    // The payout does not clear the winner index. A draw requested in the
    // next round with the stale index still set must not pay anyone while
    // the index selects no ticket of that round.
    let mut l = new_lottery(1000, 500, 900);
    enter_lottery(&mut l, ALICE).unwrap();
    enter_lottery(&mut l, BOB).unwrap();
    request_draw(&mut l, AUTHORITY, QUEUE, 900).unwrap();
    let mut randomness = [0u8; 32];
    randomness[0] = 1;
    resolve_draw(&mut l, ORACLE, randomness).unwrap();
    payout(&mut l, AUTHORITY).unwrap();
    assert_eq!(l.state.winner, 2);
    enter_lottery(&mut l, CAROL).unwrap();
    request_draw(&mut l, AUTHORITY, QUEUE, 900 + 86400).unwrap();
    // One ticket in round 2, stale winner index 2: no such ticket.
    assert_eq!(payout(&mut l, AUTHORITY), Err(LotteryError::InvalidWinner));
}

#[test]
fn has_entered_reports_current_round_only() {
    let mut l = new_lottery(1000, 500, 900);
    assert!(!l.has_entered(ALICE));
    enter_lottery(&mut l, ALICE).unwrap();
    assert!(l.has_entered(ALICE));
    assert!(!l.has_entered(BOB));
    request_draw(&mut l, AUTHORITY, QUEUE, 900).unwrap();
    let randomness = [0u8; 32];
    resolve_draw(&mut l, ORACLE, randomness).unwrap();
    payout(&mut l, AUTHORITY).unwrap();
    assert!(!l.has_entered(ALICE));
}
