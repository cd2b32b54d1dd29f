use vstd::prelude::*;

mod errors;
mod laws;
mod lottery;
mod split;
mod state;
mod vrf;

pub use errors::LotteryError;
pub use laws::{
    lemma_draw_request_succeeds_once, lemma_no_double_payout, lemma_participant_count_step,
    lemma_payout_conserves_value, lemma_round_id_step, lottery_step, LotteryOp,
};
pub use lottery::{
    enter_post, fund_pot_post, initialize_post, payout_post, payout_tickets_post, receipts_unique,
    request_draw_post, reset_post, resolve_draw_post, spec_ticket_marked, tickets_keyed,
    tickets_unique, Lottery, PayoutOutcome, RandomnessRequest,
};
pub use split::{compute_split, lemma_fee_plus_prize_exact, spec_platform_fee, spec_winner_prize};
pub use state::{LotteryState, TicketRecord, UserEntryReceipt, UserTicket};
pub use vrf::spec_random_u64;

verus! {

/// The administrative identity, custody address and wallet addresses that the
/// lottery compares are modelled as plain integers; the hosting runtime maps
/// its own address type onto them.
pub type Address = u128;

/// Creates the lottery: the authority, custody address, platform wallet and
/// the oracle's fixed queue and callback identity are recorded, and round 1
/// opens with the given end time.
pub fn initialize(
    authority: Address,
    pot_vault: Address,
    oracle_queue: Address,
    oracle_identity: Address,
    platform_wallet_pubkey: Address,
    ticket_price: u64,
    platform_fee_bps: u16,
    first_lottery_endtime: i64,
) -> (r: Result<Lottery, LotteryError>)
    ensures
        initialize_post(
            authority,
            pot_vault,
            platform_wallet_pubkey,
            ticket_price,
            platform_fee_bps,
            first_lottery_endtime,
            oracle_queue,
            oracle_identity,
            r,
        ),
        r matches Ok(l) ==> l.wf(),
{
    Lottery::initialize_handle(
        authority,
        pot_vault,
        platform_wallet_pubkey,
        ticket_price,
        platform_fee_bps,
        first_lottery_endtime,
        oracle_queue,
        oracle_identity,
    )
}

/// Sells one ticket to `user` in the current round.
pub fn enter_lottery(lottery: &mut Lottery, user: Address) -> (r: Result<u64, LotteryError>)
    requires
        old(lottery).wf(),
    ensures
        final(lottery).wf(),
        enter_post(*old(lottery), *final(lottery), user, r),
{
    lottery.enter_lottery_handler(user)
}

/// Closes the round to new entries and asks the oracle for randomness.
pub fn request_draw(
    lottery: &mut Lottery,
    signer: Address,
    oracle_queue: Address,
    now: i64,
) -> (r: Result<RandomnessRequest, LotteryError>)
    requires
        old(lottery).wf(),
    ensures
        final(lottery).wf(),
        request_draw_post(*old(lottery), *final(lottery), signer, oracle_queue, now, r),
{
    lottery.request_draw_handler(signer, oracle_queue, now)
}

/// Consumes the oracle's callback and writes the winner index.
pub fn resolve_draw(lottery: &mut Lottery, signer: Address, randomness: [u8; 32]) -> (r: Result<
    (),
    LotteryError,
>)
    requires
        old(lottery).wf(),
    ensures
        final(lottery).wf(),
        resolve_draw_post(*old(lottery), *final(lottery), signer, randomness@, r),
{
    lottery.resolve_draw_handler(signer, randomness)
}

/// Pays the resolved round out and opens the next one.
pub fn payout(lottery: &mut Lottery, signer: Address) -> (r: Result<PayoutOutcome, LotteryError>)
    requires
        old(lottery).wf(),
    ensures
        final(lottery).wf(),
        payout_post(*old(lottery), *final(lottery), signer, r),
{
    lottery.payout_handler(signer)
}

/// Rolls an empty, finished round over to the next one.
pub fn reset(lottery: &mut Lottery, now: i64) -> (r: Result<(), LotteryError>)
    requires
        old(lottery).wf(),
    ensures
        final(lottery).wf(),
        reset_post(*old(lottery), *final(lottery), now, r),
{
    lottery.reset_handle(now)
}

} // verus!
