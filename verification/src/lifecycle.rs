//! Laws that span the instructions: how a lottery moves from upload to
//! close to claim.
use vstd::prelude::*;
use crate::error::ErrorCode;
use crate::key::Pubkey;
use crate::processor::{AccountRole, Clock, Effect};
use crate::processor::claim::ClaimAccount;
use crate::processor::close::CloseAccount;
use crate::processor::upload::UploadAccount;
use crate::state::LotteryStatus;

verus! {

/// The order of the statuses in a lottery's life.
pub open spec fn status_rank(s: LotteryStatus) -> int {
    match s {
        LotteryStatus::Opened => 0,
        LotteryStatus::Closed => 1,
        LotteryStatus::Completed => 2,
    }
}

/// The tokens that `effects` move into the escrow, less those they move
/// out of it.
pub open spec fn escrow_token_flow(effects: Seq<Effect>) -> int
    decreases effects.len(),
{
    if effects.len() == 0 {
        0
    } else {
        let rest = escrow_token_flow(effects.drop_last());
        match effects.last() {
            Effect::TokenTransfer { from, to, amount, .. } => {
                let inflow: int = if to == AccountRole::Escrow { amount as int } else { 0 };
                let outflow: int = if from == AccountRole::Escrow { amount as int } else { 0 };
                rest + inflow - outflow
            },
            _ => rest,
        }
    }
}

/// A lottery's status never goes back: neither a close nor a claim lowers
/// it, whatever they answer (a close refused before the end date changes
/// nothing).
pub proof fn lemma_status_never_goes_back(c: CloseAccount, winner: Pubkey, a: ClaimAccount)
    ensures
        status_rank(c.closed(winner).lottery.status) >= status_rank(c.lottery.status),
        a.claim_refusal() is None ==> status_rank(a.completed().lottery.status) >= status_rank(
            a.lottery.status,
        ),
{
}

/// A lottery is closed at most once: after a close that drew a winner,
/// whatever it answered, another close on the same lottery is refused: with
/// `LotteryNotOpen` once the end date has passed, which it had for the
/// first close.
pub proof fn lemma_close_at_most_once(c: CloseAccount, winner: Pubkey, c2: CloseAccount)
    requires
        c2.lottery == c.closed(winner).lottery,
    ensures
        c2.close_answer() is Err,
        c2.close_ended() ==> c2.close_answer() == Err::<(), ErrorCode>(ErrorCode::LotteryNotOpen),
{
}

/// A prize is claimed at most once: after a claim that passed its checks,
/// another claim on the same lottery is refused with `InvalidLotteryStatus`.
pub proof fn lemma_claim_at_most_once(a: ClaimAccount, a2: ClaimAccount)
    requires
        a.claim_refusal() is None,
        a2.lottery == a.completed().lottery,
    ensures
        a2.claim_refusal() == Some(ErrorCode::InvalidLotteryStatus),
{
}

/// A lottery that was just uploaded is open: a close accepts it once its
/// end date has passed and refuses it with `LotteryNotEnded` before, and a
/// claim refuses it with `InvalidLotteryStatus` until it is closed.
pub proof fn lemma_uploaded_is_open(
    u: UploadAccount,
    start_date: Option<i64>,
    end_date: i64,
    ticket_numbers: u64,
    limit_tickets: u64,
    winners: u64,
    c: CloseAccount,
    a: ClaimAccount,
)
    requires
        c.lottery == u.opened_lottery(start_date, end_date, ticket_numbers, limit_tickets, winners),
        a.lottery == u.opened_lottery(start_date, end_date, ticket_numbers, limit_tickets, winners),
    ensures
        c.close_ended() ==> c.close_answer() == Ok::<(), ErrorCode>(()),
        !c.close_ended() ==> c.close_answer() == Err::<(), ErrorCode>(ErrorCode::LotteryNotEnded),
        a.claim_refusal() == Some(ErrorCode::InvalidLotteryStatus),
{
}

/// After an upload and an accepted close, a claim passes its checks exactly
/// when the claimant owns an account holding one token of the drawn
/// ticket.
pub proof fn lemma_claim_after_close(
    u: UploadAccount,
    start_date: Option<i64>,
    end_date: i64,
    ticket_numbers: u64,
    limit_tickets: u64,
    winners: u64,
    clock: Clock,
    winner: Pubkey,
    a: ClaimAccount,
)
    requires
        a.lottery == (CloseAccount {
            lottery: u.opened_lottery(start_date, end_date, ticket_numbers, limit_tickets, winners),
            clock_sysvar: clock,
        }).closed(winner).lottery,
    ensures
        a.claim_refusal() is None <==> {
            &&& a.ticket_token_account.mint@ == winner@
            &&& a.ticket_token_account.amount == 1
            &&& a.user@ == a.ticket_token_account.owner@
        },
{
}

/// A close draws a winner only after the end date, and a claim answers
/// `LotteryIsClosed` after the end date: so a claim made no earlier than the
/// close that drew its winner, and that passes its checks, answers
/// `LotteryIsClosed`.
pub proof fn lemma_claim_after_close_is_late(c: CloseAccount, winner: Pubkey, a: ClaimAccount)
    requires
        c.close_ended(),
        a.lottery == c.closed(winner).lottery,
        a.clock_sysvar.unix_timestamp >= c.clock_sysvar.unix_timestamp,
    ensures
        a.claim_window() == Err::<(), ErrorCode>(ErrorCode::LotteryIsClosed),
{
}

/// The program signs for the escrow at claim with the seeds that created
/// it at upload: the escrow's address is derived from the owner who
/// uploaded and from the lottery's address, and neither a close nor a
/// claim changes the owner.
pub proof fn lemma_escrow_seeds_agree(
    u: UploadAccount,
    start_date: Option<i64>,
    end_date: i64,
    ticket_numbers: u64,
    limit_tickets: u64,
    winners: u64,
    clock: Clock,
    winner: Pubkey,
    a: ClaimAccount,
    escrow_bump: u8,
)
    requires
        a.lottery == (CloseAccount {
            lottery: u.opened_lottery(start_date, end_date, ticket_numbers, limit_tickets, winners),
            clock_sysvar: clock,
        }).closed(winner).lottery,
        a.lottery_key == u.lottery_key,
    ensures
        a.escrow_signer(escrow_bump) == u.escrow_seeds(escrow_bump),
        a.escrow_signer(escrow_bump).seeds_view() == u.escrow_seeds(escrow_bump).seeds_view(),
{
}

/// The escrow gives back what it took: the upload moves one token into it
/// and an accepted claim moves one token out of it.
pub proof fn lemma_escrow_tokens_balance(
    u: UploadAccount,
    escrow_bump: u8,
    vault_bump: u8,
    a: ClaimAccount,
    claim_bump: u8,
)
    ensures
        escrow_token_flow(u.upload_effects(escrow_bump, vault_bump)) == 1,
        escrow_token_flow(a.claim_effects(claim_bump)) == -1,
        escrow_token_flow(u.upload_effects(escrow_bump, vault_bump)) + escrow_token_flow(
            a.claim_effects(claim_bump),
        ) == 0,
{
    let ue = u.upload_effects(escrow_bump, vault_bump);
    assert(ue.drop_last().drop_last().drop_last().drop_last().drop_last() =~= Seq::<Effect>::empty());
    reveal_with_fuel(escrow_token_flow, 6);
    let ce = a.claim_effects(claim_bump);
    assert(ce.drop_last().drop_last() =~= Seq::<Effect>::empty());
}

} // verus!
