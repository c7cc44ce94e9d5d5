//! Closing a lottery: once its end date has passed, drawing the winning
//! ticket.
use vstd::prelude::*;
use crate::error::ErrorCode;
use crate::key::Pubkey;
use crate::processor::Clock;
use crate::state::{Lottery, LotteryStatus};
use crate::utils::{random, random_can_compute, random_fits, random_spec};

verus! {

/// The accounts of the close instruction.
#[derive(Clone, Copy, Debug)]
pub struct CloseAccount {
    pub lottery: Lottery,
    pub clock_sysvar: Clock,
}

/// The seed of the draw: the current slot, cut to 32 bits.
pub open spec fn draw_seed(clock: Clock) -> u32 {
    clock.slot as u32
}

/// The position of the winning ticket among `n` tickets.
pub open spec fn draw_index(clock: Clock, n: nat) -> int {
    random_spec(draw_seed(clock)) % (n as int)
}

/// Whether the close instruction can draw among `n` tickets without
/// panicking: there is a ticket, and the draw does not overflow.
pub open spec fn close_can_draw(clock: Clock, n: nat) -> bool {
    n > 0 && random_fits(draw_seed(clock))
}

/// The answer of the close instruction to a lottery in `status` whose end
/// date has passed.
pub open spec fn close_verdict(status: LotteryStatus) -> Result<(), ErrorCode> {
    if status == LotteryStatus::Opened {
        Ok(())
    } else {
        Err(ErrorCode::LotteryNotOpen)
    }
}

impl CloseAccount {
    /// Whether the lottery's end date has passed on the clock.
    pub open spec fn close_ended(self) -> bool {
        self.clock_sysvar.unix_timestamp > self.lottery.end_date
    }

    /// The answer of the close instruction: a lottery whose end date has
    /// not passed is refused with `LotteryNotEnded`; after it, only an open
    /// lottery is closed.
    pub open spec fn close_answer(self) -> Result<(), ErrorCode> {
        if !self.close_ended() {
            Err(ErrorCode::LotteryNotEnded)
        } else {
            close_verdict(self.lottery.status)
        }
    }

    /// The accounts after the close instruction, past the end date, drew
    /// `winner`: the winner is recorded whatever the status, and an opened
    /// lottery is closed.
    pub open spec fn closed(self, winner: Pubkey) -> CloseAccount {
        CloseAccount {
            lottery: Lottery {
                winner_ticket: winner,
                status: if self.lottery.status == LotteryStatus::Opened {
                    LotteryStatus::Closed
                } else {
                    self.lottery.status
                },
                ..self.lottery
            },
            ..self
        }
    }

    /// Whether the lottery's end date has passed on the clock.
    pub fn ended(&self) -> (b: bool)
        ensures
            b == self.close_ended(),
    {
        self.clock_sysvar.unix_timestamp > self.lottery.end_date
    }

    /// Whether the close instruction can draw among `tickets` on this
    /// clock without panicking.
    pub fn can_draw(&self, tickets: &Vec<Pubkey>) -> (b: bool)
        ensures
            b == close_can_draw(self.clock_sysvar, tickets@.len()),
    {
        tickets.len() > 0 && random_can_compute(self.clock_sysvar.slot as u32)
    }

    /// Before the end date, refuse with `LotteryNotEnded` and change
    /// nothing. After it, draw the winning ticket among `tickets` from the
    /// current slot, and close the lottery if it is open; else answer
    /// `LotteryNotOpen`.
    pub fn process(&mut self, tickets: Vec<Pubkey>) -> (r: Result<(), ErrorCode>)
        requires
            old(self).close_ended() ==> close_can_draw(old(self).clock_sysvar, tickets@.len()),
        ensures
            r == old(self).close_answer(),
            !old(self).close_ended() ==> *final(self) == *old(self),
            old(self).close_ended() ==> {
                &&& 0 <= draw_index(old(self).clock_sysvar, tickets@.len()) < tickets@.len()
                &&& *final(self) == old(self).closed(
                    tickets@[draw_index(old(self).clock_sysvar, tickets@.len())],
                )
                &&& tickets@.contains(final(self).lottery.winner_ticket)
            },
    {
        // the winner is drawn only once the end date has passed
        if self.clock_sysvar.unix_timestamp <= self.lottery.end_date {
            return Err(ErrorCode::LotteryNotEnded);
        }

        let rand: u32 = random(self.clock_sysvar.slot as u32);
        let length: usize = tickets.len();
        let index: usize = rand as usize % length;
        self.lottery.winner_ticket = tickets[index];
        assert(tickets@[index as int] == self.lottery.winner_ticket);

        if self.lottery.status != LotteryStatus::Opened {
            return Err(ErrorCode::LotteryNotOpen);
        }

        self.lottery.status = LotteryStatus::Closed;

        Ok(())
    }
}

} // verus!
