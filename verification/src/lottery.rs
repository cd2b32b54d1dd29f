use vstd::prelude::*;

use crate::errors::LotteryError;
use crate::split::{compute_split, spec_platform_fee, spec_winner_prize};
use crate::state::{LotteryState, TicketRecord, UserEntryReceipt, UserTicket};
use crate::vrf::{random_u64_of, spec_random_u64};
use crate::Address;

verus! {

/// The whole custody of the system: the singleton round state, every receipt
/// and ticket the storage layer holds, and the pooled funds. Each operation
/// runs to completion against it as one atomic unit: a failing call returns
/// the state exactly as it found it.
pub struct Lottery {
    pub state: LotteryState,
    /// Entry receipts of every round, uniquely keyed by (user, lottery_id).
    pub receipts: Vec<UserEntryReceipt>,
    /// Tickets of every round, uniquely keyed by (lottery_id, ticket_index).
    pub tickets: Vec<TicketRecord>,
    /// Current balance of the custody address. Ticket purchases add to it;
    /// extraneous funds may be credited to it from outside.
    pub pot_balance: u64,
    /// Address of the fixed oracle queue that outbound randomness requests
    /// must name.
    pub oracle_queue: Address,
    /// Identity the randomness oracle presents on its resolution callback.
    pub oracle_identity: Address,
}

/// The outbound randomness request a successful draw request issues: it names
/// the payer, the fixed oracle queue, and the round whose draw the oracle's
/// callback will resolve against this lottery's resolution entry point.
#[derive(Debug, Clone, Copy, PartialEq, Eq, Structural)]
pub struct RandomnessRequest {
    pub payer: Address,
    pub oracle_queue: Address,
    pub lottery_id: u64,
}

/// The transfers a successful payout performs, as one all-or-nothing set:
/// the fee to the platform wallet and the prize to the winning ticket's owner.
#[derive(Debug, Clone, Copy, PartialEq, Eq, Structural)]
pub struct PayoutOutcome {
    pub platform_wallet: Address,
    pub platform_fee_amount: u64,
    pub winner_wallet: Address,
    pub winner_prize_amount: u64,
}

/// No two receipts share the key (user, lottery_id): at most one entry per
/// buyer per round.
pub open spec fn receipts_unique(rs: Seq<UserEntryReceipt>) -> bool {
    forall|i: int, j: int|
        0 <= i < j < rs.len() ==> !(rs[i].user == rs[j].user && rs[i].lottery_id
            == rs[j].lottery_id)
}

/// No two tickets share the key (lottery_id, ticket_index).
pub open spec fn tickets_unique(ts: Seq<TicketRecord>) -> bool {
    forall|i: int, j: int|
        0 <= i < j < ts.len() ==> !(ts[i].lottery_id == ts[j].lottery_id && ts[i].ticket_index
            == ts[j].ticket_index)
}

/// Every stored ticket records the round of its own storage key.
pub open spec fn tickets_keyed(ts: Seq<TicketRecord>) -> bool {
    forall|i: int| 0 <= i < ts.len() ==> #[trigger] ts[i].ticket.lottery_id == ts[i].lottery_id
}

impl Lottery {
    /// Some receipt of the current round belongs to `user`.
    pub open spec fn spec_has_receipt(self, user: Address) -> bool {
        exists|i: int|
            0 <= i < self.receipts@.len() && #[trigger] self.receipts@[i].user == user
                && self.receipts@[i].lottery_id == self.state.current_lottery_id
    }

    /// A ticket was allocated under the key (`lottery_id`, `ticket_index`).
    pub open spec fn spec_has_ticket(self, lottery_id: u64, ticket_index: u64) -> bool {
        exists|i: int|
            0 <= i < self.tickets@.len() && #[trigger] self.tickets@[i].lottery_id == lottery_id
                && self.tickets@[i].ticket_index == ticket_index
    }

    /// The ticket stored under the key (`lottery_id`, `ticket_index`);
    /// meaningful only where `spec_has_ticket` holds and the keys are unique.
    pub open spec fn spec_ticket_at(self, lottery_id: u64, ticket_index: u64) -> TicketRecord {
        self.tickets@[choose|i: int|
            0 <= i < self.tickets@.len() && #[trigger] self.tickets@[i].lottery_id == lottery_id
                && self.tickets@[i].ticket_index == ticket_index]
    }

    /// No ticket belongs to a round later than the current one; the current
    /// round's tickets sit below the participant count and are still unpaid.
    pub open spec fn round_tickets_bounded(self) -> bool {
        forall|i: int|
            0 <= i < self.tickets@.len() ==> #[trigger] self.tickets@[i].lottery_id
                <= self.state.current_lottery_id && (self.tickets@[i].lottery_id
                == self.state.current_lottery_id ==> self.tickets@[i].ticket_index
                < self.state.total_participants && !self.tickets@[i].ticket.is_winner)
    }

    /// Every position below the participant count holds a ticket of the
    /// current round: sold tickets are exactly the indices 0 .. count.
    pub open spec fn round_tickets_complete(self) -> bool {
        forall|k: u64|
            k < self.state.total_participants ==> #[trigger] self.spec_has_ticket(
                self.state.current_lottery_id,
                k,
            )
    }

    /// Well-formedness: the configuration invariants of the round state and
    /// the storage layer's key-uniqueness guarantees. Constructors establish
    /// it and every operation preserves it.
    pub open spec fn wf(self) -> bool {
        &&& self.state.platform_fee_bps <= 10000
        &&& self.state.ticket_price > 0
        &&& receipts_unique(self.receipts@)
        &&& tickets_unique(self.tickets@)
        &&& tickets_keyed(self.tickets@)
        &&& self.round_tickets_bounded()
        &&& self.round_tickets_complete()
    }

    /// Whether `user` already holds an entry receipt for the current round.
    pub fn has_entered(&self, user: Address) -> (found: bool)
        ensures
            found == self.spec_has_receipt(user),
    {
        let mut i: usize = 0;
        while i < self.receipts.len()
            invariant
                i <= self.receipts.len(),
                forall|j: int|
                    0 <= j < i ==> !(#[trigger] self.receipts@[j].user == user
                        && self.receipts@[j].lottery_id == self.state.current_lottery_id),
            decreases self.receipts.len() - i,
        {
            if self.receipts[i].user == user && self.receipts[i].lottery_id
                == self.state.current_lottery_id {
                return true;
            }
            i += 1;
        }
        false
    }

    /// Deterministic storage lookup of a ticket by its composite key.
    fn find_ticket(&self, lottery_id: u64, ticket_index: u64) -> (r: Option<usize>)
        ensures
            match r {
                Some(j) => j < self.tickets@.len() && self.tickets@[j as int].lottery_id
                    == lottery_id && self.tickets@[j as int].ticket_index == ticket_index,
                None => !self.spec_has_ticket(lottery_id, ticket_index),
            },
    {
        let mut i: usize = 0;
        while i < self.tickets.len()
            invariant
                i <= self.tickets.len(),
                forall|j: int|
                    0 <= j < i ==> !(#[trigger] self.tickets@[j].lottery_id == lottery_id
                        && self.tickets@[j].ticket_index == ticket_index),
            decreases self.tickets.len() - i,
        {
            if self.tickets[i].lottery_id == lottery_id && self.tickets[i].ticket_index
                == ticket_index {
                return Some(i);
            }
            i += 1;
        }
        None
    }
}

/// What a finished `initialize` call must have produced.
pub open spec fn initialize_post(
    authority: Address,
    pot_vault: Address,
    platform_wallet_pubkey: Address,
    ticket_price: u64,
    platform_fee_bps: u16,
    first_lottery_endtime: i64,
    oracle_queue: Address,
    oracle_identity: Address,
    r: Result<Lottery, LotteryError>,
) -> bool {
    if platform_fee_bps > 10000 {
        r == Err::<Lottery, LotteryError>(LotteryError::InvalidPlatformFee)
    } else if ticket_price == 0 {
        r == Err::<Lottery, LotteryError>(LotteryError::InvalidTicketPrice)
    } else {
        &&& r is Ok
        &&& r matches Ok(l) ==> {
            &&& l.state == (LotteryState {
                authority,
                pot_vault,
                platform_wallet: platform_wallet_pubkey,
                platform_fee_bps,
                ticket_price,
                winner: 0,
                current_lottery_id: 1,
                total_participants: 0,
                is_drawing: false,
                lottery_endtime: first_lottery_endtime,
                commit_slot: 0,
            })
            &&& l.receipts@.len() == 0
            &&& l.tickets@.len() == 0
            &&& l.pot_balance == 0
            &&& l.oracle_queue == oracle_queue
            &&& l.oracle_identity == oracle_identity
        }
    }
}

impl Lottery {
    /// Creates the singleton round state, opening round 1 with no
    /// participants, no winner and an empty pot. Rejects a fee rate above
    /// 10000 basis points and a zero ticket price.
    pub fn initialize_handle(
        authority: Address,
        pot_vault: Address,
        platform_wallet_pubkey: Address,
        ticket_price: u64,
        platform_fee_bps: u16,
        first_lottery_endtime: i64,
        oracle_queue: Address,
        oracle_identity: Address,
    ) -> (r: Result<Lottery, LotteryError>)
        ensures
            initialize_post(
                authority,
                pot_vault,
                platform_wallet_pubkey,
                ticket_price,
                platform_fee_bps,
                first_lottery_endtime,
                oracle_queue,
                oracle_identity,
                r,
            ),
            r matches Ok(l) ==> l.wf(),
    {
        if platform_fee_bps > 10000 {
            return Err(LotteryError::InvalidPlatformFee);
        }
        if ticket_price == 0 {
            return Err(LotteryError::InvalidTicketPrice);
        }
        let lottery = Lottery {
            state: LotteryState {
                authority,
                pot_vault,
                platform_wallet: platform_wallet_pubkey,
                platform_fee_bps,
                ticket_price,
                winner: 0,
                current_lottery_id: 1,
                total_participants: 0,
                is_drawing: false,
                lottery_endtime: first_lottery_endtime,
                commit_slot: 0,
            },
            receipts: Vec::new(),
            tickets: Vec::new(),
            pot_balance: 0,
            oracle_queue,
            oracle_identity,
        };
        Ok(lottery)
    }
}

/// What a finished `enter_lottery` call must have done: either exactly one of
/// the rejections, leaving the state untouched, or one new receipt, one new
/// ticket, the ticket price moved into custody, and the participant count one
/// higher, returning the 1-based ticket number.
pub open spec fn enter_post(
    pre: Lottery,
    post: Lottery,
    user: Address,
    r: Result<u64, LotteryError>,
) -> bool {
    if pre.state.is_drawing {
        r == Err::<u64, LotteryError>(LotteryError::LotteryIsDrawing) && post == pre
    } else if pre.spec_has_receipt(user) {
        r == Err::<u64, LotteryError>(LotteryError::KeyCollision) && post == pre
    } else if pre.state.total_participants == u64::MAX || pre.pot_balance
        + pre.state.ticket_price > u64::MAX {
        r == Err::<u64, LotteryError>(LotteryError::Overflow) && post == pre
    } else {
        let number = (pre.state.total_participants + 1) as u64;
        &&& r == Ok::<u64, LotteryError>(number)
        &&& post.state == (LotteryState { total_participants: number, ..pre.state })
        &&& post.receipts@ == pre.receipts@.push(
            UserEntryReceipt {
                user,
                lottery_id: pre.state.current_lottery_id,
                ticket_number: number,
            },
        )
        &&& post.tickets@ == pre.tickets@.push(
            TicketRecord {
                lottery_id: pre.state.current_lottery_id,
                ticket_index: pre.state.total_participants,
                ticket: UserTicket {
                    user,
                    lottery_id: pre.state.current_lottery_id,
                    is_winner: false,
                    prize_amount: 0,
                    is_claimed: false,
                },
            },
        )
        &&& post.pot_balance == pre.pot_balance + pre.state.ticket_price
        &&& post.oracle_queue == pre.oracle_queue
        &&& post.oracle_identity == pre.oracle_identity
    }
}

impl Lottery {
    /// Sells one ticket to `user` while the round is open: allocates the
    /// receipt keyed by (user, round) and the ticket keyed by (round, count),
    /// collects the ticket price into custody, and raises the participant
    /// count by one. Purchases stay possible past the round's end time until
    /// a draw is actually requested.
    pub fn enter_lottery_handler(&mut self, user: Address) -> (r: Result<u64, LotteryError>)
        requires
            old(self).wf(),
        ensures
            final(self).wf(),
            enter_post(*old(self), *final(self), user, r),
    {
        if self.state.is_drawing {
            return Err(LotteryError::LotteryIsDrawing);
        }
        if self.has_entered(user) {
            return Err(LotteryError::KeyCollision);
        }
        if self.state.total_participants == u64::MAX {
            return Err(LotteryError::Overflow);
        }
        if self.pot_balance > u64::MAX - self.state.ticket_price {
            return Err(LotteryError::Overflow);
        }
        let ghost pre = *self;
        let ticket_number = self.state.total_participants + 1;
        let receipt = UserEntryReceipt {
            user,
            lottery_id: self.state.current_lottery_id,
            ticket_number,
        };
        let record = TicketRecord {
            lottery_id: self.state.current_lottery_id,
            ticket_index: self.state.total_participants,
            ticket: UserTicket {
                user,
                lottery_id: self.state.current_lottery_id,
                is_winner: false,
                prize_amount: 0,
                is_claimed: false,
            },
        };
        self.receipts.push(receipt);
        self.tickets.push(record);
        self.pot_balance = self.pot_balance + self.state.ticket_price;
        self.state.total_participants = ticket_number;
        proof {
            lemma_enter_preserves_wf(pre, *self, user, ticket_number);
        }
        Ok(ticket_number)
    }
}

/// What a finished `request_draw` call must have done: gated on the
/// administrative authority, the fixed oracle queue and the round's end time,
/// it set the drawing flag and issued the outbound randomness request, and
/// nothing else; a repeated request while a draw is already in progress is
/// refused, so a round's draw can be requested successfully at most once.
pub open spec fn request_draw_post(
    pre: Lottery,
    post: Lottery,
    signer: Address,
    oracle_queue: Address,
    now: i64,
    r: Result<RandomnessRequest, LotteryError>,
) -> bool {
    if signer != pre.state.authority {
        r == Err::<RandomnessRequest, LotteryError>(LotteryError::UnauthorizedAuthority) && post
            == pre
    } else if oracle_queue != pre.oracle_queue {
        r == Err::<RandomnessRequest, LotteryError>(LotteryError::Overflow) && post == pre
    } else if now < pre.state.lottery_endtime {
        r == Err::<RandomnessRequest, LotteryError>(LotteryError::LotteryNotOver) && post == pre
    } else if pre.state.is_drawing {
        r == Err::<RandomnessRequest, LotteryError>(LotteryError::LotteryIsDrawing) && post == pre
    } else {
        &&& r == Ok::<RandomnessRequest, LotteryError>(
            RandomnessRequest {
                payer: signer,
                oracle_queue,
                lottery_id: pre.state.current_lottery_id,
            },
        )
        &&& post.state == (LotteryState { is_drawing: true, ..pre.state })
        &&& post.receipts@ == pre.receipts@
        &&& post.tickets@ == pre.tickets@
        &&& post.pot_balance == pre.pot_balance
        &&& post.oracle_queue == pre.oracle_queue
        &&& post.oracle_identity == pre.oracle_identity
    }
}

/// What a finished `resolve_draw` call must have done: rejected any caller
/// but the oracle identity before touching anything, and otherwise written
/// the winner index — 0 for an empty round, else the randomness-derived
/// 64-bit value reduced modulo the participant count, plus one — and nothing
/// else. No guard stops a repeated callback before payout: it silently
/// overwrites the winner.
pub open spec fn resolve_draw_post(
    pre: Lottery,
    post: Lottery,
    signer: Address,
    randomness: Seq<u8>,
    r: Result<(), LotteryError>,
) -> bool {
    if signer != pre.oracle_identity {
        r == Err::<(), LotteryError>(LotteryError::UnauthorizedAuthority) && post == pre
    } else {
        let w = if pre.state.total_participants == 0 {
            0
        } else {
            spec_random_u64(randomness) % pre.state.total_participants + 1
        };
        &&& r == Ok::<(), LotteryError>(())
        &&& post.state == (LotteryState { winner: w as u64, ..pre.state })
        &&& post.receipts@ == pre.receipts@
        &&& post.tickets@ == pre.tickets@
        &&& post.pot_balance == pre.pot_balance
        &&& post.oracle_queue == pre.oracle_queue
        &&& post.oracle_identity == pre.oracle_identity
    }
}

/// What a finished `reset` call must have done: only a round past its end
/// time and without participants rolls over — the winner index clears, the
/// round id advances by one, the end time moves 100 seconds out, and the
/// drawing flag clears; nothing else changes.
pub open spec fn reset_post(
    pre: Lottery,
    post: Lottery,
    now: i64,
    r: Result<(), LotteryError>,
) -> bool {
    if now < pre.state.lottery_endtime {
        r == Err::<(), LotteryError>(LotteryError::LotteryNotOver) && post == pre
    } else if pre.state.total_participants != 0 {
        r == Err::<(), LotteryError>(LotteryError::CannotRolloverWithPlayers) && post == pre
    } else if pre.state.current_lottery_id == u64::MAX || pre.state.lottery_endtime > i64::MAX
        - 100 {
        r == Err::<(), LotteryError>(LotteryError::Overflow) && post == pre
    } else {
        &&& r == Ok::<(), LotteryError>(())
        &&& post.state == (LotteryState {
            winner: 0,
            total_participants: 0,
            current_lottery_id: (pre.state.current_lottery_id + 1) as u64,
            lottery_endtime: (pre.state.lottery_endtime + 100) as i64,
            is_drawing: false,
            commit_slot: 0,
            ..pre.state
        })
        &&& post.receipts@ == pre.receipts@
        &&& post.tickets@ == pre.tickets@
        &&& post.pot_balance == pre.pot_balance
        &&& post.oracle_queue == pre.oracle_queue
        &&& post.oracle_identity == pre.oracle_identity
    }
}

/// What a finished `fund_pot` call must have done: credited the amount to
/// custody, or refused the credit that would overflow the balance.
pub open spec fn fund_pot_post(
    pre: Lottery,
    post: Lottery,
    amount: u64,
    r: Result<(), LotteryError>,
) -> bool {
    if pre.pot_balance + amount > u64::MAX {
        r == Err::<(), LotteryError>(LotteryError::Overflow) && post == pre
    } else {
        &&& r == Ok::<(), LotteryError>(())
        &&& post.state == pre.state
        &&& post.receipts@ == pre.receipts@
        &&& post.tickets@ == pre.tickets@
        &&& post.pot_balance == pre.pot_balance + amount
        &&& post.oracle_queue == pre.oracle_queue
        &&& post.oracle_identity == pre.oracle_identity
    }
}

impl Lottery {
    /// Closes ticket sales for a round whose end time has passed: flips the
    /// drawing flag and issues the randomness request whose callback will
    /// resolve the draw. Only the authority may request, only towards the
    /// fixed oracle queue, and only once per round: a request while a draw
    /// is already in progress is refused. A mismatched queue is rejected
    /// with the generic `Overflow` kind, which is all the interface affords.
    pub fn request_draw_handler(
        &mut self,
        signer: Address,
        oracle_queue: Address,
        now: i64,
    ) -> (r: Result<RandomnessRequest, LotteryError>)
        requires
            old(self).wf(),
        ensures
            final(self).wf(),
            request_draw_post(*old(self), *final(self), signer, oracle_queue, now, r),
    {
        if signer != self.state.authority {
            return Err(LotteryError::UnauthorizedAuthority);
        }
        if oracle_queue != self.oracle_queue {
            return Err(LotteryError::Overflow);
        }
        if now < self.state.lottery_endtime {
            return Err(LotteryError::LotteryNotOver);
        }
        if self.state.is_drawing {
            return Err(LotteryError::LotteryIsDrawing);
        }
        let ghost pre = *self;
        self.state.is_drawing = true;
        proof {
            lemma_wf_same_records(pre, *self);
        }
        Ok(RandomnessRequest {
            payer: signer,
            oracle_queue,
            lottery_id: self.state.current_lottery_id,
        })
    }

    /// Consumes the oracle's authenticated callback: derives a 64-bit value
    /// from the 32 bytes of randomness and writes the winner index — 0 when
    /// the round has no participants, else a 1-based position within the
    /// participant count. Mutates nothing else, and mutates nothing at all
    /// for a caller other than the oracle identity.
    pub fn resolve_draw_handler(&mut self, signer: Address, randomness: [u8; 32]) -> (r: Result<
        (),
        LotteryError,
    >)
        requires
            old(self).wf(),
        ensures
            final(self).wf(),
            resolve_draw_post(*old(self), *final(self), signer, randomness@, r),
            r is Ok && old(self).state.total_participants > 0 ==> 1 <= final(self).state.winner
                <= old(self).state.total_participants,
            r is Ok && old(self).state.total_participants == 0 ==> final(self).state.winner == 0,
    {
        if signer != self.oracle_identity {
            return Err(LotteryError::UnauthorizedAuthority);
        }
        let ghost pre = *self;
        let raw = random_u64_of(&randomness);
        if self.state.total_participants == 0 {
            self.state.winner = 0;
        } else {
            let winning_index = raw % self.state.total_participants;
            self.state.winner = winning_index + 1;
        }
        proof {
            lemma_wf_same_records(pre, *self);
        }
        Ok(())
    }

    /// Rolls an empty round over once its end time has passed: clears the
    /// winner index, advances the round id by one, extends the end time by
    /// 100 seconds and clears the drawing flag. A round with participants
    /// never rolls over. Unlike the other privileged operations, this path
    /// carries no authority comparison: any caller may roll an empty,
    /// finished round forward.
    pub fn reset_handle(&mut self, now: i64) -> (r: Result<(), LotteryError>)
        requires
            old(self).wf(),
        ensures
            final(self).wf(),
            reset_post(*old(self), *final(self), now, r),
    {
        if now < self.state.lottery_endtime {
            return Err(LotteryError::LotteryNotOver);
        }
        if self.state.total_participants != 0 {
            return Err(LotteryError::CannotRolloverWithPlayers);
        }
        if self.state.current_lottery_id == u64::MAX {
            return Err(LotteryError::Overflow);
        }
        if self.state.lottery_endtime > i64::MAX - 100 {
            return Err(LotteryError::Overflow);
        }
        let ghost pre = *self;
        self.state.winner = 0;
        self.state.total_participants = 0;
        self.state.current_lottery_id = self.state.current_lottery_id + 1;
        self.state.lottery_endtime = self.state.lottery_endtime + 100;
        self.state.is_drawing = false;
        self.state.commit_slot = 0;
        proof {
            lemma_wf_advance_round(pre, *self);
        }
        Ok(())
    }

    /// Credits funds to custody from outside the ticket flow: the payout
    /// split reads the custody balance as it stands, extraneous funds
    /// included.
    pub fn fund_pot(&mut self, amount: u64) -> (r: Result<(), LotteryError>)
        requires
            old(self).wf(),
        ensures
            final(self).wf(),
            fund_pot_post(*old(self), *final(self), amount, r),
    {
        if self.pot_balance > u64::MAX - amount {
            return Err(LotteryError::Overflow);
        }
        let ghost pre = *self;
        self.pot_balance = self.pot_balance + amount;
        proof {
            lemma_wf_same_records(pre, *self);
        }
        Ok(())
    }
}

/// A ticket after the payout that marks it as the round's winner: the winner
/// flag set and the prize recorded, everything else untouched.
pub open spec fn spec_ticket_marked(t: TicketRecord, prize: u64) -> TicketRecord {
    TicketRecord {
        ticket: UserTicket { is_winner: true, prize_amount: prize, ..t.ticket },
        ..t
    }
}

/// The single mutation a payout makes to the ticket store: the ticket under
/// the winning key is marked, every other ticket stays exactly as it was.
pub open spec fn payout_tickets_post(
    pre: Seq<TicketRecord>,
    post: Seq<TicketRecord>,
    lottery_id: u64,
    ticket_index: u64,
    prize: u64,
) -> bool {
    &&& post.len() == pre.len()
    &&& forall|i: int|
        0 <= i < pre.len() ==> #[trigger] post[i] == (if pre[i].lottery_id == lottery_id
            && pre[i].ticket_index == ticket_index {
            spec_ticket_marked(pre[i], prize)
        } else {
            pre[i]
        })
}

/// What a finished `payout` call must have done: gated on the authority, on
/// a draw being in progress and on the winner index selecting a ticket of
/// the current round, it split the custody balance exactly into fee and
/// prize, emptied custody, marked the winning ticket, and opened the next
/// round — participant count 0, round id one higher, end time 86400 seconds
/// later, drawing flag cleared. The winner index itself is not cleared here.
pub open spec fn payout_post(
    pre: Lottery,
    post: Lottery,
    signer: Address,
    r: Result<PayoutOutcome, LotteryError>,
) -> bool {
    if signer != pre.state.authority {
        r == Err::<PayoutOutcome, LotteryError>(LotteryError::UnauthorizedAuthority) && post == pre
    } else if !pre.state.is_drawing {
        r == Err::<PayoutOutcome, LotteryError>(LotteryError::DrawNotRequested) && post == pre
    } else if pre.state.winner == 0 || pre.state.winner > pre.state.total_participants {
        r == Err::<PayoutOutcome, LotteryError>(LotteryError::InvalidWinner) && post == pre
    } else if pre.state.current_lottery_id == u64::MAX || pre.state.lottery_endtime > i64::MAX
        - 86400 {
        r == Err::<PayoutOutcome, LotteryError>(LotteryError::Overflow) && post == pre
    } else {
        let fee = spec_platform_fee(pre.pot_balance, pre.state.platform_fee_bps);
        let prize = spec_winner_prize(pre.pot_balance, pre.state.platform_fee_bps);
        let widx = (pre.state.winner - 1) as u64;
        let t = pre.spec_ticket_at(pre.state.current_lottery_id, widx);
        &&& r == Ok::<PayoutOutcome, LotteryError>(
            PayoutOutcome {
                platform_wallet: pre.state.platform_wallet,
                platform_fee_amount: fee as u64,
                winner_wallet: t.ticket.user,
                winner_prize_amount: prize as u64,
            },
        )
        &&& post.state == (LotteryState {
            total_participants: 0,
            current_lottery_id: (pre.state.current_lottery_id + 1) as u64,
            lottery_endtime: (pre.state.lottery_endtime + 86400) as i64,
            is_drawing: false,
            commit_slot: 0,
            ..pre.state
        })
        &&& payout_tickets_post(
            pre.tickets@,
            post.tickets@,
            pre.state.current_lottery_id,
            widx,
            prize as u64,
        )
        &&& post.receipts@ == pre.receipts@
        &&& post.pot_balance == 0
        &&& post.oracle_queue == pre.oracle_queue
        &&& post.oracle_identity == pre.oracle_identity
    }
}

/// With unique ticket keys, any index whose record carries the key is the
/// one `spec_ticket_at` denotes.
proof fn lemma_ticket_at_is(l: Lottery, lottery_id: u64, ticket_index: u64, j: int)
    requires
        tickets_unique(l.tickets@),
        0 <= j < l.tickets@.len(),
        l.tickets@[j].lottery_id == lottery_id,
        l.tickets@[j].ticket_index == ticket_index,
    ensures
        l.spec_ticket_at(lottery_id, ticket_index) == l.tickets@[j],
{
    let c = choose|i: int|
        0 <= i < l.tickets@.len() && #[trigger] l.tickets@[i].lottery_id == lottery_id
            && l.tickets@[i].ticket_index == ticket_index;
    assert(0 <= c < l.tickets@.len() && l.tickets@[c].lottery_id == lottery_id
        && l.tickets@[c].ticket_index == ticket_index);
    if c < j {
        assert(!(l.tickets@[c].lottery_id == l.tickets@[j].lottery_id && l.tickets@[c].ticket_index
            == l.tickets@[j].ticket_index));
    } else if j < c {
        assert(!(l.tickets@[j].lottery_id == l.tickets@[c].lottery_id && l.tickets@[j].ticket_index
            == l.tickets@[c].ticket_index));
    }
}

/// Marking the ticket at one index touches exactly the tickets that carry
/// its key — with unique keys, that index alone.
proof fn lemma_payout_tickets_post(
    pre: Seq<TicketRecord>,
    post: Seq<TicketRecord>,
    j: int,
    prize: u64,
)
    requires
        tickets_unique(pre),
        0 <= j < pre.len(),
        post == pre.update(j, spec_ticket_marked(pre[j], prize)),
    ensures
        payout_tickets_post(pre, post, pre[j].lottery_id, pre[j].ticket_index, prize),
{
    assert forall|i: int| 0 <= i < pre.len() implies #[trigger] post[i] == (if pre[i].lottery_id
        == pre[j].lottery_id && pre[i].ticket_index == pre[j].ticket_index {
        spec_ticket_marked(pre[i], prize)
    } else {
        pre[i]
    }) by {
        if i != j && pre[i].lottery_id == pre[j].lottery_id && pre[i].ticket_index
            == pre[j].ticket_index {
            if i < j {
                assert(!(pre[i].lottery_id == pre[j].lottery_id && pre[i].ticket_index
                    == pre[j].ticket_index));
            } else {
                assert(!(pre[j].lottery_id == pre[i].lottery_id && pre[j].ticket_index
                    == pre[i].ticket_index));
            }
        }
    }
}

/// Paying a round out keeps the lottery well-formed: marking the winning
/// ticket leaves every key as it was, and the advanced round starts with no
/// tickets of its own.
proof fn lemma_payout_preserves_wf(pre: Lottery, post: Lottery, j: int, prize: u64)
    requires
        pre.wf(),
        0 <= j < pre.tickets@.len(),
        post.tickets@ == pre.tickets@.update(j, spec_ticket_marked(pre.tickets@[j], prize)),
        post.receipts@ == pre.receipts@,
        post.state.platform_fee_bps == pre.state.platform_fee_bps,
        post.state.ticket_price == pre.state.ticket_price,
        pre.state.current_lottery_id < u64::MAX,
        post.state.current_lottery_id == pre.state.current_lottery_id + 1,
        post.state.total_participants == 0,
    ensures
        post.wf(),
{
    assert forall|i: int| 0 <= i < post.tickets@.len() implies #[trigger] post.tickets@[i]
        .lottery_id == pre.tickets@[i].lottery_id && post.tickets@[i].ticket_index
        == pre.tickets@[i].ticket_index && post.tickets@[i].ticket.lottery_id == pre.tickets@[i]
        .ticket.lottery_id by {
        if i != j {
            assert(post.tickets@[i] == pre.tickets@[i]);
        }
    }
    assert(tickets_unique(post.tickets@)) by {
        assert forall|a: int, b: int| 0 <= a < b < post.tickets@.len() implies !(post.tickets@[a]
            .lottery_id == post.tickets@[b].lottery_id && post.tickets@[a].ticket_index
            == post.tickets@[b].ticket_index) by {
            assert(!(pre.tickets@[a].lottery_id == pre.tickets@[b].lottery_id && pre.tickets@[a]
                .ticket_index == pre.tickets@[b].ticket_index));
        }
    }
    assert(tickets_keyed(post.tickets@)) by {
        assert forall|i: int| 0 <= i < post.tickets@.len() implies #[trigger] post.tickets@[i]
            .ticket.lottery_id == post.tickets@[i].lottery_id by {
            assert(pre.tickets@[i].ticket.lottery_id == pre.tickets@[i].lottery_id);
        }
    }
    assert(post.round_tickets_bounded()) by {
        assert forall|i: int| 0 <= i < post.tickets@.len() implies #[trigger] post.tickets@[i]
            .lottery_id <= post.state.current_lottery_id && (post.tickets@[i].lottery_id
            == post.state.current_lottery_id ==> post.tickets@[i].ticket_index
            < post.state.total_participants && !post.tickets@[i].ticket.is_winner) by {
            assert(pre.tickets@[i].lottery_id <= pre.state.current_lottery_id);
        }
    }
}

impl Lottery {
    /// Consumes a resolved draw: splits the custody balance exactly into the
    /// platform fee and the winner's prize, empties custody, marks the
    /// winning ticket with its prize, and opens the next round. The fee and
    /// prize debits, with their credits named in the returned outcome, form
    /// one all-or-nothing set: a failing call transfers nothing and mutates
    /// nothing.
    pub fn payout_handler(&mut self, signer: Address) -> (r: Result<PayoutOutcome, LotteryError>)
        requires
            old(self).wf(),
        ensures
            final(self).wf(),
            payout_post(*old(self), *final(self), signer, r),
    {
        if signer != self.state.authority {
            return Err(LotteryError::UnauthorizedAuthority);
        }
        if !self.state.is_drawing {
            return Err(LotteryError::DrawNotRequested);
        }
        if self.state.winner == 0 {
            return Err(LotteryError::InvalidWinner);
        }
        let winning_index = self.state.winner - 1;
        let found = self.find_ticket(self.state.current_lottery_id, winning_index);
        let j: usize = match found {
            None => {
                proof {
                    if winning_index < self.state.total_participants {
                        assert(self.spec_has_ticket(self.state.current_lottery_id, winning_index));
                    }
                }
                return Err(LotteryError::InvalidWinner);
            },
            Some(j) => j,
        };
        let rec = self.tickets[j];
        if rec.ticket.is_winner {
            return Err(LotteryError::InvalidWinner);
        }
        if self.state.current_lottery_id == u64::MAX {
            return Err(LotteryError::Overflow);
        }
        if self.state.lottery_endtime > i64::MAX - 86400 {
            return Err(LotteryError::Overflow);
        }
        let ghost pre = *self;
        let (fee, prize) = compute_split(self.pot_balance, self.state.platform_fee_bps);
        let marked = TicketRecord {
            lottery_id: rec.lottery_id,
            ticket_index: rec.ticket_index,
            ticket: UserTicket {
                user: rec.ticket.user,
                lottery_id: rec.ticket.lottery_id,
                is_winner: true,
                prize_amount: prize,
                is_claimed: rec.ticket.is_claimed,
            },
        };
        self.tickets.set(j, marked);
        self.pot_balance = 0;
        self.state.total_participants = 0;
        self.state.current_lottery_id = self.state.current_lottery_id + 1;
        self.state.lottery_endtime = self.state.lottery_endtime + 86400;
        self.state.is_drawing = false;
        self.state.commit_slot = 0;
        proof {
            assert(marked == spec_ticket_marked(pre.tickets@[j as int], prize));
            lemma_payout_preserves_wf(pre, *self, j as int, prize);
            lemma_payout_tickets_post(pre.tickets@, self.tickets@, j as int, prize);
            lemma_ticket_at_is(
                pre,
                pre.state.current_lottery_id,
                (pre.state.winner - 1) as u64,
                j as int,
            );
        }
        Ok(PayoutOutcome {
            platform_wallet: self.state.platform_wallet,
            platform_fee_amount: fee,
            winner_wallet: rec.ticket.user,
            winner_prize_amount: prize,
        })
    }
}

/// A mutation that touches neither the stored records nor the current round
/// id nor the participant count leaves the lottery well-formed.
proof fn lemma_wf_same_records(pre: Lottery, post: Lottery)
    requires
        pre.wf(),
        post.receipts@ == pre.receipts@,
        post.tickets@ == pre.tickets@,
        post.state.platform_fee_bps == pre.state.platform_fee_bps,
        post.state.ticket_price == pre.state.ticket_price,
        post.state.current_lottery_id == pre.state.current_lottery_id,
        post.state.total_participants == pre.state.total_participants,
    ensures
        post.wf(),
{
    assert forall|k: u64| k < post.state.total_participants implies #[trigger] post
        .spec_has_ticket(post.state.current_lottery_id, k) by {
        assert(pre.spec_has_ticket(pre.state.current_lottery_id, k));
        let w = choose|i: int|
            0 <= i < pre.tickets@.len() && #[trigger] pre.tickets@[i].lottery_id
                == pre.state.current_lottery_id && pre.tickets@[i].ticket_index == k;
        assert(0 <= w < post.tickets@.len() && post.tickets@[w].lottery_id
            == post.state.current_lottery_id && post.tickets@[w].ticket_index == k);
    }
}

/// Advancing to a fresh round with no participants leaves the lottery
/// well-formed: every stored ticket stays behind the new round id.
proof fn lemma_wf_advance_round(pre: Lottery, post: Lottery)
    requires
        pre.wf(),
        post.receipts@ == pre.receipts@,
        post.tickets@ == pre.tickets@,
        post.state.platform_fee_bps == pre.state.platform_fee_bps,
        post.state.ticket_price == pre.state.ticket_price,
        pre.state.current_lottery_id < u64::MAX,
        post.state.current_lottery_id == pre.state.current_lottery_id + 1,
        post.state.total_participants == 0,
    ensures
        post.wf(),
{
    assert forall|i: int| 0 <= i < post.tickets@.len() implies #[trigger] post.tickets@[i]
        .lottery_id <= post.state.current_lottery_id && (post.tickets@[i].lottery_id
        == post.state.current_lottery_id ==> post.tickets@[i].ticket_index
        < post.state.total_participants && !post.tickets@[i].ticket.is_winner) by {
        assert(pre.tickets@[i].lottery_id <= pre.state.current_lottery_id);
    }
}

/// A successful entry keeps every uniqueness and completeness invariant: the
/// new receipt's key was free, and the new ticket extends the current round's
/// positions by exactly its own.
proof fn lemma_enter_preserves_wf(pre: Lottery, post: Lottery, user: Address, number: u64)
    requires
        pre.wf(),
        !pre.state.is_drawing,
        !pre.spec_has_receipt(user),
        pre.state.total_participants < u64::MAX,
        number == pre.state.total_participants + 1,
        post.state == (LotteryState { total_participants: number, ..pre.state }),
        post.receipts@ == pre.receipts@.push(
            UserEntryReceipt { user, lottery_id: pre.state.current_lottery_id, ticket_number: number },
        ),
        post.tickets@ == pre.tickets@.push(
            TicketRecord {
                lottery_id: pre.state.current_lottery_id,
                ticket_index: pre.state.total_participants,
                ticket: UserTicket {
                    user,
                    lottery_id: pre.state.current_lottery_id,
                    is_winner: false,
                    prize_amount: 0,
                    is_claimed: false,
                },
            },
        ),
    ensures
        post.wf(),
{
    let rs = post.receipts@;
    let n = pre.receipts@.len() as int;
    assert(receipts_unique(rs)) by {
        assert forall|i: int, j: int| 0 <= i < j < rs.len() implies !(rs[i].user == rs[j].user
            && rs[i].lottery_id == rs[j].lottery_id) by {
            if j < n {
                assert(rs[i] == pre.receipts@[i] && rs[j] == pre.receipts@[j]);
            } else {
                assert(rs[j].user == user && rs[j].lottery_id == pre.state.current_lottery_id);
                assert(rs[i] == pre.receipts@[i]);
                if rs[i].user == user && rs[i].lottery_id == pre.state.current_lottery_id {
                    assert(pre.spec_has_receipt(user));
                }
            }
        }
    }
    let ts = post.tickets@;
    let m = pre.tickets@.len() as int;
    assert(tickets_unique(ts)) by {
        assert forall|i: int, j: int| 0 <= i < j < ts.len() implies !(ts[i].lottery_id
            == ts[j].lottery_id && ts[i].ticket_index == ts[j].ticket_index) by {
            if j < m {
                assert(ts[i] == pre.tickets@[i] && ts[j] == pre.tickets@[j]);
            } else {
                assert(ts[i] == pre.tickets@[i]);
            }
        }
    }
    assert(tickets_keyed(ts)) by {
        assert forall|i: int| 0 <= i < ts.len() implies #[trigger] ts[i].ticket.lottery_id
            == ts[i].lottery_id by {
            if i < m {
                assert(ts[i] == pre.tickets@[i]);
            }
        }
    }
    assert(post.round_tickets_bounded()) by {
        assert forall|i: int| 0 <= i < ts.len() implies #[trigger] ts[i].lottery_id
            <= post.state.current_lottery_id && (ts[i].lottery_id == post.state.current_lottery_id
            ==> ts[i].ticket_index < post.state.total_participants
            && !ts[i].ticket.is_winner) by {
            if i < m {
                assert(ts[i] == pre.tickets@[i]);
            }
        }
    }
    assert(post.round_tickets_complete()) by {
        assert forall|k: u64| k < post.state.total_participants implies #[trigger] post
            .spec_has_ticket(post.state.current_lottery_id, k) by {
            if k < pre.state.total_participants {
                let w = choose|i: int|
                    0 <= i < pre.tickets@.len() && #[trigger] pre.tickets@[i].lottery_id
                        == pre.state.current_lottery_id && pre.tickets@[i].ticket_index == k;
                assert(pre.spec_has_ticket(pre.state.current_lottery_id, k));
                assert(ts[w] == pre.tickets@[w]);
                assert(0 <= w < ts.len() && ts[w].lottery_id == post.state.current_lottery_id
                    && ts[w].ticket_index == k);
            } else {
                assert(ts[m].lottery_id == post.state.current_lottery_id && ts[m].ticket_index
                    == k);
            }
        }
    }
}

} // verus!
