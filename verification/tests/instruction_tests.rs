use raffle::error::ErrorCode;
use raffle::key::Pubkey;
use raffle::processor::claim::ClaimAccount;
use raffle::processor::close::CloseAccount;
use raffle::processor::upload::UploadAccount;
use raffle::processor::{
    AccountRole, AccountSpace, Clock, Effect, InstructionError, Plan, ProgramRole, SignerSeeds,
    Step, TokenAccount,
};
use raffle::state::{Lottery, LotteryStatus};
use raffle::utils::LAMPORTS_PER_SOL;

fn key(b: u8) -> Pubkey {
    Pubkey::new_from_array([b; 32])
}

fn blank_lottery() -> Lottery {
    Lottery {
        status: LotteryStatus::Opened,
        nft_mint: key(0),
        winner_ticket: key(0),
        owner: key(0),
        escrow: key(0),
        vault: key(0),
        start_date: None,
        end_date: 0,
        ticket_numbers: 0,
        remain_tickets: 0,
        limit_tickets: 0,
        winners: 0,
    }
}

fn upload_account(now: i64) -> UploadAccount {
    UploadAccount {
        lottery: blank_lottery(),
        lottery_key: key(10),
        user: key(11),
        nft_mint: key(12),
        escrow: key(13),
        vault: key(14),
        clock_sysvar: Clock { slot: 5, unix_timestamp: now },
    }
}

fn signer_is_escrow(s: &SignerSeeds, owner: u8, lottery: u8, bump: u8) -> bool {
    match s {
        SignerSeeds::Escrow { owner: o, lottery: l, bump: b } => {
            *o == key(owner) && *l == key(lottery) && *b == bump
        }
        _ => false,
    }
}

#[test]
fn upload_opens_lottery_and_plans_escrow() {
    let mut acc = upload_account(100);
    let plan = acc.process(254, 253, Some(150), 200, 10, 3, 1);
    assert_eq!(plan.verdict, Ok(()));
    let l = acc.lottery;
    assert_eq!(l.status, LotteryStatus::Opened);
    assert!(l.nft_mint == key(12));
    assert!(l.owner == key(11));
    assert!(l.escrow == key(13));
    assert!(l.vault == key(14));
    assert_eq!(l.start_date, Some(150));
    assert_eq!(l.end_date, 200);
    assert_eq!(l.ticket_numbers, 10);
    assert_eq!(l.remain_tickets, 10);
    assert_eq!(l.limit_tickets, 3);
    assert_eq!(l.winners, 1);
    assert!(l.winner_ticket == key(0));

    assert_eq!(plan.effects.len(), 5);
    match &plan.effects[0] {
        Effect::CreateAccount { from, to, space, owner, signer } => {
            assert_eq!(*from, AccountRole::User);
            assert_eq!(*to, AccountRole::Escrow);
            assert_eq!(*space, AccountSpace::TokenAccount);
            assert_eq!(*owner, ProgramRole::Token);
            assert!(signer_is_escrow(signer, 11, 10, 254));
        }
        _ => panic!("first effect"),
    }
    match &plan.effects[1] {
        Effect::InitializeTokenAccount { account, mint, authority } => {
            assert_eq!(*account, AccountRole::Escrow);
            assert_eq!(*mint, AccountRole::NftMint);
            assert_eq!(*authority, AccountRole::Escrow);
        }
        _ => panic!("second effect"),
    }
    match &plan.effects[2] {
        Effect::TokenTransfer { from, to, authority, amount, signer } => {
            assert_eq!(*from, AccountRole::UserNftAccount);
            assert_eq!(*to, AccountRole::Escrow);
            assert_eq!(*authority, AccountRole::User);
            assert_eq!(*amount, 1);
            assert!(matches!(signer, SignerSeeds::Unsigned));
        }
        _ => panic!("third effect"),
    }
    match &plan.effects[3] {
        Effect::CreateAccount { from, to, space, owner, signer } => {
            assert_eq!(*from, AccountRole::User);
            assert_eq!(*to, AccountRole::Vault);
            assert_eq!(*space, AccountSpace::Bytes(0));
            assert_eq!(*owner, ProgramRole::Raffle);
            match signer {
                SignerSeeds::Vault { escrow, bump } => {
                    assert!(*escrow == key(13));
                    assert_eq!(*bump, 253);
                }
                _ => panic!("vault seeds"),
            }
        }
        _ => panic!("fourth effect"),
    }
    match &plan.effects[4] {
        Effect::SystemTransfer { from, to, lamports, signer } => {
            assert_eq!(*from, AccountRole::User);
            assert_eq!(*to, AccountRole::Vault);
            assert_eq!(*lamports, LAMPORTS_PER_SOL);
            assert!(matches!(signer, SignerSeeds::Unsigned));
        }
        _ => panic!("fifth effect"),
    }
}

#[test]
fn upload_without_start_date() {
    let mut acc = upload_account(100);
    let plan = acc.process(1, 2, None, 101, 0, 0, 0);
    assert_eq!(plan.verdict, Ok(()));
    assert_eq!(acc.lottery.start_date, None);
}

#[test]
fn upload_refuses_end_date_in_the_past() {
    let mut acc = upload_account(200);
    let plan = acc.process(1, 2, None, 200, 1, 1, 1);
    assert_eq!(plan.verdict, Err(ErrorCode::ExpireDateInThePast));
    // the effects come first: they are still asked for
    assert_eq!(plan.effects.len(), 5);
    let mut acc = upload_account(201);
    let plan = acc.process(1, 2, Some(0), 200, 1, 1, 1);
    assert_eq!(plan.verdict, Err(ErrorCode::ExpireDateInThePast));
}

#[test]
fn upload_refuses_start_not_before_end() {
    let mut acc = upload_account(100);
    let plan = acc.process(1, 2, Some(200), 200, 1, 1, 1);
    assert_eq!(plan.verdict, Err(ErrorCode::ExpireDateInThePast));
    let mut acc = upload_account(100);
    let plan = acc.process(1, 2, Some(199), 200, 1, 1, 1);
    assert_eq!(plan.verdict, Ok(()));
}

#[test]
fn escrow_seeds_bytes() {
    let s = SignerSeeds::Escrow { owner: key(1), lottery: key(2), bump: 255 };
    let seeds = s.to_seeds();
    assert_eq!(seeds.len(), 4);
    assert_eq!(seeds[0], b"lottery_escrow".to_vec());
    assert_eq!(seeds[1], vec![1u8; 32]);
    assert_eq!(seeds[2], vec![2u8; 32]);
    assert_eq!(seeds[3], vec![255u8]);
}

#[test]
fn vault_seeds_bytes() {
    let s = SignerSeeds::Vault { escrow: key(3), bump: 7 };
    let seeds = s.to_seeds();
    assert_eq!(seeds, vec![b"lottery_escrow_vault".to_vec(), vec![3u8; 32], vec![7u8]]);
    assert!(SignerSeeds::Unsigned.to_seeds().is_empty());
}

fn close_account(status: LotteryStatus, slot: u64) -> CloseAccount {
    let mut lottery = blank_lottery();
    lottery.status = status;
    // the end date (0) has passed
    CloseAccount { lottery, clock_sysvar: Clock { slot, unix_timestamp: 1 } }
}

#[test]
fn close_refused_before_end_date_changes_nothing() {
    let mut acc = close_account(LotteryStatus::Opened, 0);
    acc.lottery.end_date = 1;
    assert!(!acc.ended());
    assert_eq!(acc.process(vec![key(21), key(22)]), Err(ErrorCode::LotteryNotEnded));
    assert_eq!(acc.lottery.status, LotteryStatus::Opened);
    assert!(acc.lottery.winner_ticket == key(0));
    // no draw is made, so neither a large slot nor an empty list panics
    let mut acc = close_account(LotteryStatus::Opened, 1000);
    acc.lottery.end_date = 5;
    assert_eq!(acc.process(vec![]), Err(ErrorCode::LotteryNotEnded));
    assert_eq!(acc.lottery.status, LotteryStatus::Opened);
}

#[test]
fn close_refused_before_end_date_whatever_the_status() {
    let mut acc = close_account(LotteryStatus::Completed, 0);
    acc.lottery.end_date = 1;
    assert_eq!(acc.process(vec![key(1)]), Err(ErrorCode::LotteryNotEnded));
}

#[test]
fn close_just_after_end_date() {
    let mut acc = close_account(LotteryStatus::Opened, 0);
    acc.lottery.end_date = 100;
    acc.clock_sysvar.unix_timestamp = 101;
    assert!(acc.ended());
    assert_eq!(acc.process(vec![key(5)]), Ok(()));
    assert!(acc.lottery.winner_ticket == key(5));
}

#[test]
fn close_draws_winner_and_closes() {
    // slot 0: random(0) = 3, and 3 % 3 = 0
    let mut acc = close_account(LotteryStatus::Opened, 0);
    let tickets = vec![key(21), key(22), key(23)];
    assert!(acc.can_draw(&tickets));
    assert_eq!(acc.process(tickets), Ok(()));
    assert_eq!(acc.lottery.status, LotteryStatus::Closed);
    assert!(acc.lottery.winner_ticket == key(21));
}

#[test]
fn close_draw_uses_slot_cut_to_32_bits() {
    // slot 2^32 + 1 is seed 1: random(1) = 28, and 28 % 5 = 3
    let mut acc = close_account(LotteryStatus::Opened, (1u64 << 32) + 1);
    let tickets = vec![key(1), key(2), key(3), key(4), key(5)];
    assert!(acc.can_draw(&tickets));
    assert_eq!(acc.process(tickets), Ok(()));
    assert!(acc.lottery.winner_ticket == key(4));
}

#[test]
fn close_refuses_lottery_not_open_but_records_draw() {
    // slot 2: random(2) = 19, and 19 % 2 = 1
    let mut acc = close_account(LotteryStatus::Closed, 2);
    let r = acc.process(vec![key(31), key(32)]);
    assert_eq!(r, Err(ErrorCode::LotteryNotOpen));
    assert_eq!(acc.lottery.status, LotteryStatus::Closed);
    assert!(acc.lottery.winner_ticket == key(32));
    let mut acc = close_account(LotteryStatus::Completed, 3);
    assert_eq!(acc.process(vec![key(31)]), Err(ErrorCode::LotteryNotOpen));
    assert_eq!(acc.lottery.status, LotteryStatus::Completed);
}

#[test]
fn close_at_most_once() {
    let mut acc = close_account(LotteryStatus::Opened, 1);
    assert_eq!(acc.process(vec![key(1), key(2)]), Ok(()));
    assert_eq!(acc.process(vec![key(1), key(2)]), Err(ErrorCode::LotteryNotOpen));
}

#[test]
fn close_cannot_draw_without_tickets_or_with_large_slot() {
    let acc = close_account(LotteryStatus::Opened, 0);
    assert!(!acc.can_draw(&vec![]));
    let acc = close_account(LotteryStatus::Opened, 4);
    assert!(!acc.can_draw(&vec![key(1)]));
}

fn claim_account(now: i64) -> ClaimAccount {
    let mut lottery = blank_lottery();
    lottery.status = LotteryStatus::Closed;
    lottery.winner_ticket = key(40);
    lottery.owner = key(41);
    lottery.start_date = Some(100);
    lottery.end_date = 200;
    ClaimAccount {
        lottery,
        lottery_key: key(42),
        user: key(43),
        ticket_token_account: TokenAccount { mint: key(40), owner: key(43), amount: 1 },
        clock_sysvar: Clock { slot: 0, unix_timestamp: now },
    }
}

#[test]
fn claim_accepted_completes_and_hands_over() {
    let mut acc = claim_account(150);
    let plan = acc.process(9);
    assert_eq!(plan.verdict, Ok(()));
    assert_eq!(acc.lottery.status, LotteryStatus::Completed);
    assert_eq!(plan.effects.len(), 2);
    match &plan.effects[0] {
        Effect::TokenTransfer { from, to, authority, amount, signer } => {
            assert_eq!(*from, AccountRole::Escrow);
            assert_eq!(*to, AccountRole::ReceiveTokenAccount);
            assert_eq!(*authority, AccountRole::Escrow);
            assert_eq!(*amount, 1);
            assert!(signer_is_escrow(signer, 41, 42, 9));
        }
        _ => panic!("first effect"),
    }
    match &plan.effects[1] {
        Effect::DeleteAccount { target, receiver } => {
            assert_eq!(*target, AccountRole::Vault);
            assert_eq!(*receiver, AccountRole::Owner);
        }
        _ => panic!("second effect"),
    }
}

#[test]
fn claim_at_the_window_edges() {
    let mut acc = claim_account(200);
    assert_eq!(acc.process(1).verdict, Ok(()));
    let mut acc = claim_account(100);
    assert_eq!(acc.process(1).verdict, Ok(()));
}

#[test]
fn claim_refuses_wrong_status() {
    let mut acc = claim_account(150);
    acc.lottery.status = LotteryStatus::Opened;
    let plan = acc.process(1);
    assert_eq!(plan.verdict, Err(ErrorCode::InvalidLotteryStatus));
    assert!(plan.effects.is_empty());
    assert_eq!(acc.lottery.status, LotteryStatus::Opened);
}

#[test]
fn claim_at_most_once() {
    let mut acc = claim_account(150);
    assert_eq!(acc.process(1).verdict, Ok(()));
    let plan = acc.process(1);
    assert_eq!(plan.verdict, Err(ErrorCode::InvalidLotteryStatus));
    assert!(plan.effects.is_empty());
}

#[test]
fn claim_refuses_wrong_ticket() {
    let mut acc = claim_account(150);
    acc.ticket_token_account.mint = key(99);
    let plan = acc.process(1);
    assert_eq!(plan.verdict, Err(ErrorCode::InvalidTicket));
    assert!(plan.effects.is_empty());
    assert_eq!(acc.lottery.status, LotteryStatus::Closed);
}

#[test]
fn claim_refuses_empty_ticket_account() {
    let mut acc = claim_account(150);
    acc.ticket_token_account.amount = 0;
    assert_eq!(acc.process(1).verdict, Err(ErrorCode::NoTicket));
    let mut acc = claim_account(150);
    acc.ticket_token_account.amount = 2;
    assert_eq!(acc.process(1).verdict, Err(ErrorCode::NoTicket));
}

#[test]
fn claim_refuses_other_owner() {
    let mut acc = claim_account(150);
    acc.user = key(77);
    let plan = acc.process(1);
    assert_eq!(plan.verdict, Err(ErrorCode::NotOwner));
    assert!(plan.effects.is_empty());
}

#[test]
fn claim_checks_status_before_ticket() {
    let mut acc = claim_account(150);
    acc.lottery.status = LotteryStatus::Completed;
    acc.ticket_token_account.mint = key(99);
    acc.user = key(77);
    assert_eq!(acc.process(1).verdict, Err(ErrorCode::InvalidLotteryStatus));
}

#[test]
fn claim_after_end_date_is_closed() {
    let mut acc = claim_account(201);
    let plan = acc.process(1);
    assert_eq!(plan.verdict, Err(ErrorCode::LotteryIsClosed));
    // the prize transfer is still asked for before the date check
    assert_eq!(plan.effects.len(), 2);
    assert_eq!(acc.lottery.status, LotteryStatus::Completed);
}

#[test]
fn claim_before_start_date_is_not_started() {
    let mut acc = claim_account(99);
    assert_eq!(acc.process(1).verdict, Err(ErrorCode::LotteryIsNotStarted));
    let mut acc = claim_account(99);
    acc.lottery.start_date = None;
    assert_eq!(acc.process(1).verdict, Ok(()));
}

#[test]
fn upload_close_claim_lifecycle() {
    let mut up = upload_account(50);
    let plan = up.process(200, 201, Some(60), 500, 3, 1, 1);
    assert_eq!(plan.verdict, Ok(()));

    let tickets = vec![key(61), key(62), key(63)];
    // before the end date the close is refused
    let mut early_close =
        CloseAccount { lottery: up.lottery, clock_sysvar: Clock { slot: 0, unix_timestamp: 500 } };
    assert_eq!(early_close.process(tickets.clone()), Err(ErrorCode::LotteryNotEnded));
    let mut close =
        CloseAccount { lottery: up.lottery, clock_sysvar: Clock { slot: 0, unix_timestamp: 501 } };
    // a freshly uploaded lottery cannot be claimed
    let mut early = ClaimAccount {
        lottery: up.lottery,
        lottery_key: up.lottery_key,
        user: key(70),
        ticket_token_account: TokenAccount { mint: key(61), owner: key(70), amount: 1 },
        clock_sysvar: Clock { slot: 0, unix_timestamp: 80 },
    };
    assert_eq!(early.process(200).verdict, Err(ErrorCode::InvalidLotteryStatus));

    assert_eq!(close.process(tickets), Ok(()));
    assert!(close.lottery.winner_ticket == key(61));

    let mut claim = ClaimAccount {
        lottery: close.lottery,
        lottery_key: up.lottery_key,
        user: key(70),
        ticket_token_account: TokenAccount { mint: key(61), owner: key(70), amount: 1 },
        clock_sysvar: Clock { slot: 0, unix_timestamp: 80 },
    };
    let plan2 = claim.process(200);
    // a claim dated before the close passes
    assert_eq!(plan2.verdict, Ok(()));
    assert_eq!(claim.lottery.status, LotteryStatus::Completed);
    // the claim signs for the escrow with the seeds that created it
    let created_with = match &plan.effects[0] {
        Effect::CreateAccount { signer, .. } => signer.to_seeds(),
        _ => panic!("escrow creation"),
    };
    let signed_with = match &plan2.effects[0] {
        Effect::TokenTransfer { signer, .. } => signer.to_seeds(),
        _ => panic!("prize transfer"),
    };
    assert_eq!(created_with, signed_with);

    // a claim made after the close, so after the end date, is late
    let mut late = ClaimAccount {
        lottery: close.lottery,
        lottery_key: up.lottery_key,
        user: key(70),
        ticket_token_account: TokenAccount { mint: key(61), owner: key(70), amount: 1 },
        clock_sysvar: Clock { slot: 0, unix_timestamp: 501 },
    };
    assert_eq!(late.process(200).verdict, Err(ErrorCode::LotteryIsClosed));
}

/// Run `plan`, the effect at `fail_at` (if any) failing; gives the number of
/// effects carried out and the result.
fn run_plan(plan: &Plan, fail_at: Option<usize>) -> (usize, Result<(), InstructionError<&'static str>>) {
    let mut done: usize = 0;
    let mut outcome: Result<(), &'static str> = Ok(());
    loop {
        match plan.next_step(done, outcome) {
            Step::Perform(_) => {
                outcome = if Some(done) == fail_at { Err("effect failed") } else { Ok(()) };
                done += 1;
            }
            Step::Finish(r) => return (done, r),
        }
    }
}

#[test]
fn upload_plan_stops_at_first_failed_effect() {
    // the date verdict would refuse, but the failed transfer comes first
    let mut acc = upload_account(300);
    let plan = acc.process(1, 2, None, 200, 1, 1, 1);
    assert_eq!(plan.verdict, Err(ErrorCode::ExpireDateInThePast));
    let (done, r) = run_plan(&plan, Some(2));
    assert_eq!(done, 3);
    assert!(matches!(r, Err(InstructionError::Effect("effect failed"))));
    let (done, r) = run_plan(&plan, Some(0));
    assert_eq!(done, 1);
    assert!(matches!(r, Err(InstructionError::Effect("effect failed"))));
}

#[test]
fn upload_plan_ends_with_verdict_when_effects_succeed() {
    let mut acc = upload_account(300);
    let plan = acc.process(1, 2, None, 200, 1, 1, 1);
    let (done, r) = run_plan(&plan, None);
    assert_eq!(done, 5);
    assert!(matches!(r, Err(InstructionError::Refused(ErrorCode::ExpireDateInThePast))));
    let mut acc = upload_account(100);
    let plan = acc.process(1, 2, None, 200, 1, 1, 1);
    let (done, r) = run_plan(&plan, None);
    assert_eq!(done, 5);
    assert!(r.is_ok());
}

#[test]
fn refused_claim_plan_carries_out_nothing() {
    let mut acc = claim_account(150);
    acc.user = key(77);
    let plan = acc.process(1);
    let (done, r) = run_plan(&plan, Some(0));
    assert_eq!(done, 0);
    assert!(matches!(r, Err(InstructionError::Refused(ErrorCode::NotOwner))));
}
