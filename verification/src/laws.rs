use vstd::prelude::*;

use crate::errors::LotteryError;
use crate::lottery::{
    enter_post, fund_pot_post, payout_post, request_draw_post, reset_post, resolve_draw_post,
    Lottery, PayoutOutcome, RandomnessRequest,
};
use crate::Address;

verus! {

/// One operation against the lottery, with the inputs that determine it.
/// `lottery_step` below says what each did; the laws of this module quantify
/// over all of them.
pub enum LotteryOp {
    Enter { user: Address },
    RequestDraw { signer: Address, oracle_queue: Address, now: i64 },
    ResolveDraw { signer: Address, randomness: Seq<u8> },
    Payout { signer: Address },
    Reset { now: i64 },
    FundPot { amount: u64 },
}

/// A finished call of the operation `op` took the lottery from `pre` to
/// `post`, and `ok` says whether it succeeded.
pub open spec fn lottery_step(pre: Lottery, post: Lottery, op: LotteryOp, ok: bool) -> bool {
    match op {
        LotteryOp::Enter { user } => exists|r: Result<u64, LotteryError>|
            #[trigger] enter_post(pre, post, user, r) && ok == (r is Ok),
        LotteryOp::RequestDraw { signer, oracle_queue, now } => exists|
            r: Result<RandomnessRequest, LotteryError>,
        |
            #[trigger] request_draw_post(pre, post, signer, oracle_queue, now, r) && ok == (
            r is Ok),
        LotteryOp::ResolveDraw { signer, randomness } => exists|r: Result<(), LotteryError>|
            #[trigger] resolve_draw_post(pre, post, signer, randomness, r) && ok == (r is Ok),
        LotteryOp::Payout { signer } => exists|r: Result<PayoutOutcome, LotteryError>|
            #[trigger] payout_post(pre, post, signer, r) && ok == (r is Ok),
        LotteryOp::Reset { now } => exists|r: Result<(), LotteryError>|
            #[trigger] reset_post(pre, post, now, r) && ok == (r is Ok),
        LotteryOp::FundPot { amount } => exists|r: Result<(), LotteryError>|
            #[trigger] fund_pot_post(pre, post, amount, r) && ok == (r is Ok),
    }
}

/// The participant count moves only as the round lifecycle allows: a
/// successful entry raises it by exactly one; a successful payout or
/// rollover resets it to zero at the round boundary it crosses; no other
/// operation, and no failing call, changes it at all.
pub proof fn lemma_participant_count_step(pre: Lottery, post: Lottery, op: LotteryOp, ok: bool)
    requires
        lottery_step(pre, post, op, ok),
    ensures
        op is Enter && ok ==> post.state.total_participants == pre.state.total_participants + 1,
        (op is Payout || op is Reset) && ok ==> post.state.total_participants == 0,
        !ok ==> post == pre,
        (op is RequestDraw || op is ResolveDraw || op is FundPot) ==> post.state
            .total_participants == pre.state.total_participants,
{
    match op {
        LotteryOp::Enter { user } => {
            let r = choose|r: Result<u64, LotteryError>|
                #[trigger] enter_post(pre, post, user, r) && ok == (r is Ok);
        },
        LotteryOp::RequestDraw { signer, oracle_queue, now } => {
            let r = choose|r: Result<RandomnessRequest, LotteryError>|
                #[trigger] request_draw_post(pre, post, signer, oracle_queue, now, r) && ok == (
                r is Ok);
        },
        LotteryOp::ResolveDraw { signer, randomness } => {
            let r = choose|r: Result<(), LotteryError>|
                #[trigger] resolve_draw_post(pre, post, signer, randomness, r) && ok == (r is Ok);
        },
        LotteryOp::Payout { signer } => {
            let r = choose|r: Result<PayoutOutcome, LotteryError>|
                #[trigger] payout_post(pre, post, signer, r) && ok == (r is Ok);
        },
        LotteryOp::Reset { now } => {
            let r = choose|r: Result<(), LotteryError>|
                #[trigger] reset_post(pre, post, now, r) && ok == (r is Ok);
        },
        LotteryOp::FundPot { amount } => {
            let r = choose|r: Result<(), LotteryError>|
                #[trigger] fund_pot_post(pre, post, amount, r) && ok == (r is Ok);
        },
    }
}

/// The round id strictly increases by exactly one per successful payout or
/// rollover, and never changes otherwise.
pub proof fn lemma_round_id_step(pre: Lottery, post: Lottery, op: LotteryOp, ok: bool)
    requires
        lottery_step(pre, post, op, ok),
    ensures
        (op is Payout || op is Reset) && ok ==> post.state.current_lottery_id == pre.state
            .current_lottery_id + 1,
        !((op is Payout || op is Reset) && ok) ==> post.state.current_lottery_id == pre.state
            .current_lottery_id,
{
    lemma_participant_count_step(pre, post, op, ok);
    match op {
        LotteryOp::Enter { user } => {
            let r = choose|r: Result<u64, LotteryError>|
                #[trigger] enter_post(pre, post, user, r) && ok == (r is Ok);
        },
        LotteryOp::RequestDraw { signer, oracle_queue, now } => {
            let r = choose|r: Result<RandomnessRequest, LotteryError>|
                #[trigger] request_draw_post(pre, post, signer, oracle_queue, now, r) && ok == (
                r is Ok);
        },
        LotteryOp::ResolveDraw { signer, randomness } => {
            let r = choose|r: Result<(), LotteryError>|
                #[trigger] resolve_draw_post(pre, post, signer, randomness, r) && ok == (r is Ok);
        },
        LotteryOp::Payout { signer } => {
            let r = choose|r: Result<PayoutOutcome, LotteryError>|
                #[trigger] payout_post(pre, post, signer, r) && ok == (r is Ok);
        },
        LotteryOp::Reset { now } => {
            let r = choose|r: Result<(), LotteryError>|
                #[trigger] reset_post(pre, post, now, r) && ok == (r is Ok);
        },
        LotteryOp::FundPot { amount } => {
            let r = choose|r: Result<(), LotteryError>|
                #[trigger] fund_pot_post(pre, post, amount, r) && ok == (r is Ok);
        },
    }
}

/// A successful payout creates and loses nothing: the fee and the prize it
/// transfers sum exactly to the custody balance it found, whatever the fee
/// rate, and custody is left empty.
pub proof fn lemma_payout_conserves_value(
    pre: Lottery,
    post: Lottery,
    signer: Address,
    r: Result<PayoutOutcome, LotteryError>,
)
    requires
        pre.wf(),
        payout_post(pre, post, signer, r),
        r is Ok,
    ensures
        r matches Ok(out) ==> out.platform_fee_amount + out.winner_prize_amount
            == pre.pot_balance,
        post.pot_balance == 0,
{
    crate::split::lemma_fee_plus_prize_exact(pre.pot_balance, pre.state.platform_fee_bps);
}

/// Once a draw request has succeeded, a second request cannot succeed — and
/// changes nothing — until a payout or rollover has cleared the drawing
/// flag: per round, the draw is requested successfully at most once.
pub proof fn lemma_draw_request_succeeds_once(
    pre: Lottery,
    mid: Lottery,
    post: Lottery,
    signer1: Address,
    queue1: Address,
    now1: i64,
    r1: Result<RandomnessRequest, LotteryError>,
    signer2: Address,
    queue2: Address,
    now2: i64,
    r2: Result<RandomnessRequest, LotteryError>,
)
    requires
        request_draw_post(pre, mid, signer1, queue1, now1, r1),
        r1 is Ok,
        request_draw_post(mid, post, signer2, queue2, now2, r2),
    ensures
        r2 is Err,
        post == mid,
{
}

/// Once a payout has succeeded, a second payout cannot succeed — and changes
/// nothing — until a new draw has been requested and resolved: a round's pot
/// is paid out at most once.
pub proof fn lemma_no_double_payout(
    pre: Lottery,
    mid: Lottery,
    post: Lottery,
    signer1: Address,
    r1: Result<PayoutOutcome, LotteryError>,
    signer2: Address,
    r2: Result<PayoutOutcome, LotteryError>,
)
    requires
        payout_post(pre, mid, signer1, r1),
        r1 is Ok,
        payout_post(mid, post, signer2, r2),
    ensures
        r2 is Err,
        post == mid,
{
}

} // verus!
