use vstd::prelude::*;

use crate::Address;

verus! {

/// The singleton record holding the lottery's configuration and the live
/// round's status. Every operation reads it and most mutate it.
#[derive(Debug, Clone, Copy, PartialEq, Eq, Structural)]
pub struct LotteryState {
    /// Administrative identity allowed to request draws and pay out.
    pub authority: Address,
    /// Custody address of the pooled ticket funds.
    pub pot_vault: Address,
    /// Recipient of the platform fee.
    pub platform_wallet: Address,
    /// Fee rate in basis points, at most 10000.
    pub platform_fee_bps: u16,
    /// Fixed price of one ticket, strictly positive.
    pub ticket_price: u64,
    /// 1-based position of the winning ticket in the current round; 0 while
    /// unset, and 0 as the no-winner sentinel of an empty round.
    pub winner: u64,
    /// Identifier of the current round; starts at 1 and only ever grows.
    pub current_lottery_id: u64,
    /// Number of tickets sold in the current round.
    pub total_participants: u64,
    /// True from a draw request until the payout that consumes it.
    pub is_drawing: bool,
    /// Scheduled end time of the current round, in seconds.
    pub lottery_endtime: i64,
    /// Slot bookkeeping field; cleared at every round boundary.
    pub commit_slot: u64,
}

/// Immutable audit record of one purchase, uniquely keyed by
/// (`user`, `lottery_id`): a buyer holds at most one per round.
#[derive(Debug, Clone, Copy, PartialEq, Eq, Structural)]
pub struct UserEntryReceipt {
    pub user: Address,
    pub lottery_id: u64,
    /// 1-based ticket number assigned at purchase time.
    pub ticket_number: u64,
}

/// Per-purchase record eligible to be selected as the round's winner.
/// Mutated at most once, by the payout that marks it as the winner.
#[derive(Debug, Clone, Copy, PartialEq, Eq, Structural)]
pub struct UserTicket {
    pub user: Address,
    pub lottery_id: u64,
    pub is_winner: bool,
    pub prize_amount: u64,
    pub is_claimed: bool,
}

/// A ticket together with the storage key it was allocated under:
/// (`lottery_id`, `ticket_index`), where the 0-based index equals the
/// participant count at the moment of purchase.
#[derive(Debug, Clone, Copy, PartialEq, Eq, Structural)]
pub struct TicketRecord {
    pub lottery_id: u64,
    pub ticket_index: u64,
    pub ticket: UserTicket,
}

} // verus!
