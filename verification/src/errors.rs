use vstd::prelude::*;

verus! {

/// The failure kinds of the lottery operations. Every failure is terminal for
/// the call that raised it: a failing operation mutates nothing.
#[derive(PartialEq, Eq, Structural, Clone, Copy, Debug)]
pub enum LotteryError {
    /// A ticket purchase was attempted while a draw is in progress.
    LotteryIsDrawing,
    /// A draw request or rollover came before the round's end time.
    LotteryNotOver,
    /// A gated operation was invoked by someone other than the expected identity.
    UnauthorizedAuthority,
    /// The platform fee rate exceeds 10000 basis points.
    InvalidPlatformFee,
    /// The ticket price is zero.
    InvalidTicketPrice,
    /// The winner index selects no eligible ticket of the current round.
    InvalidWinner,
    /// A payout was attempted while no draw is in progress.
    DrawNotRequested,
    /// A rollover was attempted while the round has participants.
    CannotRolloverWithPlayers,
    /// A checked arithmetic step would leave its numeric range; also the
    /// generic kind for an oracle-queue mismatch, which has no kind of its own.
    Overflow,
    /// The storage layer refused to allocate a record whose key already
    /// exists: a second entry by the same buyer in the same round.
    KeyCollision,
}

} // verus!
