//! Claiming the prize: the holder of the winning ticket takes the NFT.
use vstd::prelude::*;
use crate::error::ErrorCode;
use crate::key::Pubkey;
use crate::processor::{AccountRole, Clock, Effect, Plan, SignerSeeds, TokenAccount};
use crate::state::{Lottery, LotteryStatus};

verus! {

/// The accounts of the claim instruction.
#[derive(Clone, Copy, Debug)]
pub struct ClaimAccount {
    pub lottery: Lottery,
    /// The lottery account's address.
    pub lottery_key: Pubkey,
    /// The claimant, who signs.
    pub user: Pubkey,
    /// The claimant's account that holds the ticket.
    pub ticket_token_account: TokenAccount,
    pub clock_sysvar: Clock,
}

impl ClaimAccount {
    /// The first of the claim instruction's checks that fails, in the order
    /// they are made: the lottery must be closed, the ticket account must
    /// hold the winning ticket, exactly one of it, and belong to the
    /// claimant.
    pub open spec fn claim_refusal(self) -> Option<ErrorCode> {
        if self.lottery.status != LotteryStatus::Closed {
            Some(ErrorCode::InvalidLotteryStatus)
        } else if self.ticket_token_account.mint@ != self.lottery.winner_ticket@ {
            Some(ErrorCode::InvalidTicket)
        } else if self.ticket_token_account.amount != 1 {
            Some(ErrorCode::NoTicket)
        } else if self.user@ != self.ticket_token_account.owner@ {
            Some(ErrorCode::NotOwner)
        } else {
            None
        }
    }

    /// The answer of the claim instruction once the prize has moved: the
    /// current time must not be after the end date, nor before the start
    /// date where there is one.
    pub open spec fn claim_window(self) -> Result<(), ErrorCode> {
        let now = self.clock_sysvar.unix_timestamp;
        if now > self.lottery.end_date {
            Err(ErrorCode::LotteryIsClosed)
        } else if self.lottery.start_date is Some && self.lottery.start_date->0 > now {
            Err(ErrorCode::LotteryIsNotStarted)
        } else {
            Ok(())
        }
    }

    /// The seeds with which the program signs for the escrow.
    pub open spec fn escrow_signer(self, escrow_bump: u8) -> SignerSeeds {
        SignerSeeds::Escrow { owner: self.lottery.owner, lottery: self.lottery_key, bump: escrow_bump }
    }

    /// The effects of a claim that passed its checks, in order: move the NFT
    /// from the escrow to the winner, and empty the vault into the owner.
    pub open spec fn claim_effects(self, escrow_bump: u8) -> Seq<Effect> {
        seq![
            Effect::TokenTransfer {
                from: AccountRole::Escrow,
                to: AccountRole::ReceiveTokenAccount,
                authority: AccountRole::Escrow,
                amount: 1,
                signer: self.escrow_signer(escrow_bump),
            },
            Effect::DeleteAccount { target: AccountRole::Vault, receiver: AccountRole::Owner },
        ]
    }

    /// The accounts after a claim that passed its checks: the lottery is
    /// completed.
    pub open spec fn completed(self) -> ClaimAccount {
        ClaimAccount {
            lottery: Lottery { status: LotteryStatus::Completed, ..self.lottery },
            ..self
        }
    }

    /// Check the claim. Refused, it asks for nothing and answers with the
    /// first check that failed. Accepted, it completes the lottery, asks
    /// for the NFT to go to the winner and the vault to go to the owner, and
    /// answers with the check of the lottery's dates.
    pub fn process(&mut self, escrow_bump: u8) -> (plan: Plan)
        ensures
            old(self).claim_refusal() is Some ==> {
                &&& *final(self) == *old(self)
                &&& plan.effects@ == Seq::<Effect>::empty()
                &&& plan.verdict == Err::<(), ErrorCode>(old(self).claim_refusal()->0)
            },
            old(self).claim_refusal() is None ==> {
                &&& *final(self) == old(self).completed()
                &&& plan.effects@ == old(self).claim_effects(escrow_bump)
                &&& plan.verdict == old(self).claim_window()
            },
    {
        if self.lottery.status != LotteryStatus::Closed {
            return Plan { effects: Vec::new(), verdict: Err(ErrorCode::InvalidLotteryStatus) };
        }
        if self.ticket_token_account.mint != self.lottery.winner_ticket {
            return Plan { effects: Vec::new(), verdict: Err(ErrorCode::InvalidTicket) };
        }
        if self.ticket_token_account.amount != 1 {
            return Plan { effects: Vec::new(), verdict: Err(ErrorCode::NoTicket) };
        }
        if self.user != self.ticket_token_account.owner {
            return Plan { effects: Vec::new(), verdict: Err(ErrorCode::NotOwner) };
        }

        self.lottery.status = LotteryStatus::Completed;

        let mut effects: Vec<Effect> = Vec::new();
        // move the NFT from the escrow to the winner
        effects.push(
            Effect::TokenTransfer {
                from: AccountRole::Escrow,
                to: AccountRole::ReceiveTokenAccount,
                authority: AccountRole::Escrow,
                amount: 1,
                signer: SignerSeeds::Escrow {
                    owner: self.lottery.owner,
                    lottery: self.lottery_key,
                    bump: escrow_bump,
                },
            },
        );
        // empty the vault into the owner
        effects.push(
            Effect::DeleteAccount { target: AccountRole::Vault, receiver: AccountRole::Owner },
        );
        assert(effects@ =~= old(self).claim_effects(escrow_bump));

        if self.clock_sysvar.unix_timestamp > self.lottery.end_date {
            return Plan { effects, verdict: Err(ErrorCode::LotteryIsClosed) };
        }
        if let Some(start_date) = self.lottery.start_date {
            if start_date > self.clock_sysvar.unix_timestamp {
                return Plan { effects, verdict: Err(ErrorCode::LotteryIsNotStarted) };
            }
        }
        Plan { effects, verdict: Ok(()) }
    }
}

} // verus!
