//! What each operation does, stated over its inputs and results in plain
//! terms: positions, comparisons, bytes, and the tokens and lamports that
//! effects move.
use vstd::prelude::*;
use vstd::string::StringSliceAdditionalSpecFns;
use vstd::std_specs::cmp::PartialEqSpec;
use crate::error::{error_index, ErrorCode};
use crate::key::Pubkey;
use crate::processor::{
    verdict_result, AccountRole, AccountSpace, Clock, Effect, InstructionError, Plan, ProgramRole,
    SignerSeeds, Step,
};
use crate::processor::claim::ClaimAccount;
use crate::processor::close::{close_can_draw, draw_index, CloseAccount};
use crate::processor::upload::{upload_verdict, UploadAccount};
use crate::state::LotteryStatus;
use crate::utils::{
    random_fits, random_spec, LOTTERY_ESCROW_PREFIX, LOTTERY_ESCROW_VAULT_PREFIX,
};

verus! {

// ---------------------------------------------------------------------
// Errors and addresses

/// The error numbers, for every error: 6000 plus the position in the order
/// `ExpireDateInThePast`, `StartDateInThePast`, `InvalidLotteryStatus`,
/// `LotteryIsClosed`, `LotteryIsNotStarted`, `LotteryNotOpen`,
/// `InvalidTicket`, `NoTicket`, `NotOwner`, `LotteryNotEnded`.
pub proof fn lemma_error_numbers(e: ErrorCode)
    ensures
        error_index(ErrorCode::ExpireDateInThePast) == 0,
        error_index(ErrorCode::StartDateInThePast) == 1,
        error_index(ErrorCode::InvalidLotteryStatus) == 2,
        error_index(ErrorCode::LotteryIsClosed) == 3,
        error_index(ErrorCode::LotteryIsNotStarted) == 4,
        error_index(ErrorCode::LotteryNotOpen) == 5,
        error_index(ErrorCode::InvalidTicket) == 6,
        error_index(ErrorCode::NoTicket) == 7,
        error_index(ErrorCode::NotOwner) == 8,
        error_index(ErrorCode::LotteryNotEnded) == 9,
        error_index(e) < 10,
{
}

/// Two addresses are equal exactly when their 32 bytes are, position by
/// position; an address's view is its bytes.
pub proof fn lemma_pubkey_equality(a: Pubkey, b: Pubkey)
    ensures
        a@ == a.bytes@,
        a@.len() == 32,
        a.eq_spec(&b) <==> (forall|i: int| 0 <= i < 32 ==> a.bytes[i] == b.bytes[i]),
{
    if forall|i: int| 0 <= i < 32 ==> a.bytes[i] == b.bytes[i] {
        assert(a.bytes@ =~= b.bytes@);
    }
}

// ---------------------------------------------------------------------
// The draw

/// The generator computes `(1103515245 * seed + 12345) % 34`, and computes
/// it without overflow exactly for the seeds 0 to 3.
pub proof fn lemma_random_formula(seed: u32)
    ensures
        random_spec(seed) == (1103515245 * (seed as int) + 12345) % 34,
        0 <= random_spec(seed) < 34,
        random_fits(seed) <==> seed <= 3,
{
}

/// The winner's position among `n` tickets is the generator's number for
/// the slot cut to 32 bits, reduced modulo `n` itself: every one of the `n`
/// positions takes part, and when the number is below `n` it is the
/// position. Two lists whose lengths are both above the number give the
/// winner the same position.
pub proof fn lemma_draw_over_all_tickets(clock: Clock, n: nat, m: nat)
    requires
        n > 0,
    ensures
        draw_index(clock, n) == ((1103515245 * ((clock.slot as u32) as int) + 12345) % 34) % (
        n as int),
        0 <= draw_index(clock, n) < n,
        random_spec(clock.slot as u32) < n ==> draw_index(clock, n) == random_spec(
            clock.slot as u32,
        ),
        random_spec(clock.slot as u32) < n && random_spec(clock.slot as u32) < m ==> draw_index(
            clock,
            n,
        ) == draw_index(clock, m),
{
    assert(random_spec(clock.slot as u32) == (1103515245 * ((clock.slot as u32) as int) + 12345)
        % 34);
    if random_spec(clock.slot as u32) < n {
        vstd::arithmetic::div_mod::lemma_small_mod(random_spec(clock.slot as u32) as nat, n);
    }
    if random_spec(clock.slot as u32) < m {
        vstd::arithmetic::div_mod::lemma_small_mod(random_spec(clock.slot as u32) as nat, m);
    }
}

/// A close can draw among `n` tickets without panicking exactly when there
/// is a ticket and the slot, cut to 32 bits, is at most 3; its end date has
/// passed exactly when the current time is after it.
pub proof fn lemma_close_preconditions(c: CloseAccount, n: nat)
    ensures
        close_can_draw(c.clock_sysvar, n) <==> n > 0 && (c.clock_sysvar.slot as u32) <= 3,
        c.close_ended() <==> c.clock_sysvar.unix_timestamp > c.lottery.end_date,
{
}

/// A close past the end date records the ticket at the drawn position,
/// keeps everything else but the status, closes an opened lottery and
/// leaves any other status as it was.
pub proof fn lemma_close_records_winner(c: CloseAccount, winner: Pubkey)
    ensures
        c.closed(winner).lottery.winner_ticket == winner,
        c.lottery.status == LotteryStatus::Opened ==> c.closed(winner).lottery.status
            == LotteryStatus::Closed,
        c.lottery.status != LotteryStatus::Opened ==> c.closed(winner).lottery.status
            == c.lottery.status,
        c.closed(winner).lottery.owner == c.lottery.owner,
        c.closed(winner).lottery.nft_mint == c.lottery.nft_mint,
        c.closed(winner).lottery.escrow == c.lottery.escrow,
        c.closed(winner).lottery.vault == c.lottery.vault,
        c.closed(winner).lottery.start_date == c.lottery.start_date,
        c.closed(winner).lottery.end_date == c.lottery.end_date,
        c.closed(winner).clock_sysvar == c.clock_sysvar,
        c.close_answer() == Err::<(), ErrorCode>(ErrorCode::LotteryNotEnded) <==> c.clock_sysvar.unix_timestamp
            <= c.lottery.end_date,
        c.close_answer() is Ok <==> c.clock_sysvar.unix_timestamp > c.lottery.end_date
            && c.lottery.status == LotteryStatus::Opened,
{
}

// ---------------------------------------------------------------------
// Upload

/// An upload is accepted exactly when its end date lies in the future and a
/// start date, where there is one, lies before the end date; every refusal
/// is `ExpireDateInThePast`. A start date at or after the end date is
/// always refused.
pub proof fn lemma_upload_dates(now: i64, start_date: Option<i64>, end_date: i64, start: i64)
    ensures
        upload_verdict(now, start_date, end_date) is Ok <==> now < end_date && (start_date is Some
            ==> start_date->0 < end_date),
        upload_verdict(now, start_date, end_date) is Err ==> upload_verdict(
            now,
            start_date,
            end_date,
        ) == Err::<(), ErrorCode>(ErrorCode::ExpireDateInThePast),
        start >= end_date ==> upload_verdict(now, Some(start), end_date) == Err::<(), ErrorCode>(
            ErrorCode::ExpireDateInThePast,
        ),
        now >= end_date ==> upload_verdict(now, start_date, end_date) == Err::<(), ErrorCode>(
            ErrorCode::ExpireDateInThePast,
        ),
{
}

/// The lottery an upload leaves: opened, owned by the uploader, holding the
/// accounts and the numbers it was given, with all tickets remaining and
/// the winner as it was.
pub proof fn lemma_upload_lottery(
    u: UploadAccount,
    start_date: Option<i64>,
    end_date: i64,
    ticket_numbers: u64,
    limit_tickets: u64,
    winners: u64,
)
    ensures
        ({
            let l = u.opened_lottery(start_date, end_date, ticket_numbers, limit_tickets, winners);
            &&& l.status == LotteryStatus::Opened
            &&& l.owner == u.user
            &&& l.nft_mint == u.nft_mint
            &&& l.escrow == u.escrow
            &&& l.vault == u.vault
            &&& l.start_date == start_date
            &&& l.end_date == end_date
            &&& l.ticket_numbers == ticket_numbers
            &&& l.remain_tickets == ticket_numbers
            &&& l.limit_tickets == limit_tickets
            &&& l.winners == winners
            &&& l.winner_ticket == u.lottery.winner_ticket
        }),
{
}

// ---------------------------------------------------------------------
// Claim

/// A claim passes its checks exactly when the lottery is closed and the
/// signer owns an account holding exactly one token of the winning ticket;
/// the first failing check, in that order, names the refusal.
pub proof fn lemma_claim_checks(a: ClaimAccount)
    ensures
        a.claim_refusal() is None <==> {
            &&& a.lottery.status == LotteryStatus::Closed
            &&& a.ticket_token_account.mint.bytes@ == a.lottery.winner_ticket.bytes@
            &&& a.ticket_token_account.amount == 1
            &&& a.user.bytes@ == a.ticket_token_account.owner.bytes@
        },
        a.lottery.status != LotteryStatus::Closed ==> a.claim_refusal() == Some(
            ErrorCode::InvalidLotteryStatus,
        ),
        a.lottery.status == LotteryStatus::Closed && a.ticket_token_account.mint.bytes@
            != a.lottery.winner_ticket.bytes@ ==> a.claim_refusal() == Some(ErrorCode::InvalidTicket),
        a.lottery.status == LotteryStatus::Closed && a.ticket_token_account.mint.bytes@
            == a.lottery.winner_ticket.bytes@ && a.ticket_token_account.amount != 1
            ==> a.claim_refusal() == Some(ErrorCode::NoTicket),
        a.lottery.status == LotteryStatus::Closed && a.ticket_token_account.mint.bytes@
            == a.lottery.winner_ticket.bytes@ && a.ticket_token_account.amount == 1
            && a.user.bytes@ != a.ticket_token_account.owner.bytes@ ==> a.claim_refusal() == Some(
            ErrorCode::NotOwner,
        ),
{
}

/// A claim's dates are accepted exactly when the current time lies at or
/// before the end date and at or after the start date, where there is one.
pub proof fn lemma_claim_dates(a: ClaimAccount)
    ensures
        a.claim_window() is Ok <==> a.clock_sysvar.unix_timestamp <= a.lottery.end_date && (
        a.lottery.start_date is Some ==> a.lottery.start_date->0 <= a.clock_sysvar.unix_timestamp),
        a.clock_sysvar.unix_timestamp > a.lottery.end_date ==> a.claim_window() == Err::<
            (),
            ErrorCode,
        >(ErrorCode::LotteryIsClosed),
        a.clock_sysvar.unix_timestamp <= a.lottery.end_date && a.lottery.start_date is Some
            && a.lottery.start_date->0 > a.clock_sysvar.unix_timestamp ==> a.claim_window() == Err::<
            (),
            ErrorCode,
        >(ErrorCode::LotteryIsNotStarted),
{
}

/// An accepted claim completes the lottery and keeps the rest of it.
pub proof fn lemma_claim_completes(a: ClaimAccount)
    ensures
        a.completed().lottery.status == LotteryStatus::Completed,
        a.completed().lottery.winner_ticket == a.lottery.winner_ticket,
        a.completed().lottery.owner == a.lottery.owner,
        a.completed().lottery.end_date == a.lottery.end_date,
        a.completed().lottery.start_date == a.lottery.start_date,
        a.completed().user == a.user,
        a.completed().lottery_key == a.lottery_key,
        a.completed().ticket_token_account == a.ticket_token_account,
        a.completed().clock_sysvar == a.clock_sysvar,
{
}

// ---------------------------------------------------------------------
// Signer seeds

/// The seeds of the program's addresses, byte for byte: the escrow's are
/// the escrow prefix, the owner's 32 address bytes in order, the lottery's
/// 32 address bytes in order, and the bump; the vault's are the vault
/// prefix, the escrow's address bytes in order, and the bump.
pub proof fn lemma_seeds_bytes(owner: Pubkey, lottery: Pubkey, escrow: Pubkey, bump: u8)
    ensures
        ({
            let s = (SignerSeeds::Escrow { owner, lottery, bump }).seeds_view();
            &&& s.len() == 4
            &&& s[0] == LOTTERY_ESCROW_PREFIX.spec_bytes()
            &&& s[1] == owner.bytes@
            &&& s[1].len() == 32
            &&& forall|i: int| 0 <= i < 32 ==> s[1][i] == owner.bytes[i]
            &&& s[2] == lottery.bytes@
            &&& forall|i: int| 0 <= i < 32 ==> s[2][i] == lottery.bytes[i]
            &&& s[3] == seq![bump]
        }),
        ({
            let s = (SignerSeeds::Vault { escrow, bump }).seeds_view();
            &&& s.len() == 3
            &&& s[0] == LOTTERY_ESCROW_VAULT_PREFIX.spec_bytes()
            &&& s[1] == escrow.bytes@
            &&& forall|i: int| 0 <= i < 32 ==> s[1][i] == escrow.bytes[i]
            &&& s[2] == seq![bump]
        }),
        SignerSeeds::Unsigned.seeds_view().len() == 0,
{
}

// ---------------------------------------------------------------------
// Effects

/// The tokens that `effects` move into `role`, less those they move out of
/// it.
pub open spec fn token_flow(effects: Seq<Effect>, role: AccountRole) -> int
    decreases effects.len(),
{
    if effects.len() == 0 {
        0
    } else {
        let rest = token_flow(effects.drop_last(), role);
        match effects.last() {
            Effect::TokenTransfer { from, to, amount, .. } => {
                let inflow: int = if to == role { amount as int } else { 0 };
                let outflow: int = if from == role { amount as int } else { 0 };
                rest + inflow - outflow
            },
            _ => rest,
        }
    }
}

/// The lamports that the system transfers among `effects` move into
/// `role`, less those they move out of it.
pub open spec fn lamport_flow(effects: Seq<Effect>, role: AccountRole) -> int
    decreases effects.len(),
{
    if effects.len() == 0 {
        0
    } else {
        let rest = lamport_flow(effects.drop_last(), role);
        match effects.last() {
            Effect::SystemTransfer { from, to, lamports, .. } => {
                let inflow: int = if to == role { lamports as int } else { 0 };
                let outflow: int = if from == role { lamports as int } else { 0 };
                rest + inflow - outflow
            },
            _ => rest,
        }
    }
}

/// Whether `e` creates the account `role`.
pub open spec fn creates(e: Effect, role: AccountRole) -> bool {
    match e {
        Effect::CreateAccount { to, .. } => to == role,
        _ => false,
    }
}

/// Whether `e` initializes `role`, or moves tokens or lamports into it.
pub open spec fn uses(e: Effect, role: AccountRole) -> bool {
    match e {
        Effect::InitializeTokenAccount { account, .. } => account == role,
        Effect::TokenTransfer { to, .. } => to == role,
        Effect::SystemTransfer { to, .. } => to == role,
        _ => false,
    }
}

/// The effects of an upload: the NFT moves from the uploader's token
/// account into the escrow and nowhere else; one SOL moves from the
/// uploader into the vault and nowhere else; the escrow is created as a
/// token account of the token program, signed with the escrow seeds of the
/// uploader and the lottery, and initialized for the NFT's mint; the vault is
/// created empty for the raffle program, signed with its seeds; and each of
/// the escrow and the vault is created before any effect initializes it or
/// moves anything into it.
pub proof fn lemma_upload_effects(u: UploadAccount, escrow_bump: u8, vault_bump: u8, role: AccountRole)
    ensures
        ({
            let e = u.upload_effects(escrow_bump, vault_bump);
            &&& token_flow(e, AccountRole::Escrow) == 1
            &&& token_flow(e, AccountRole::UserNftAccount) == -1
            &&& (role != AccountRole::Escrow && role != AccountRole::UserNftAccount ==> token_flow(
                e,
                role,
            ) == 0)
            &&& lamport_flow(e, AccountRole::Vault) == 1_000_000_000
            &&& lamport_flow(e, AccountRole::User) == -1_000_000_000
            &&& (role != AccountRole::Vault && role != AccountRole::User ==> lamport_flow(e, role)
                == 0)
            &&& e.contains(
                Effect::CreateAccount {
                    from: AccountRole::User,
                    to: AccountRole::Escrow,
                    space: AccountSpace::TokenAccount,
                    owner: ProgramRole::Token,
                    signer: SignerSeeds::Escrow {
                        owner: u.user,
                        lottery: u.lottery_key,
                        bump: escrow_bump,
                    },
                },
            )
            &&& e.contains(
                Effect::InitializeTokenAccount {
                    account: AccountRole::Escrow,
                    mint: AccountRole::NftMint,
                    authority: AccountRole::Escrow,
                },
            )
            &&& e.contains(
                Effect::CreateAccount {
                    from: AccountRole::User,
                    to: AccountRole::Vault,
                    space: AccountSpace::Bytes(0),
                    owner: ProgramRole::Raffle,
                    signer: SignerSeeds::Vault { escrow: u.escrow, bump: vault_bump },
                },
            )
            &&& forall|i: int|
                0 <= i < e.len() && #[trigger] uses(e[i], role) && (role == AccountRole::Escrow
                    || role == AccountRole::Vault) ==> exists|j: int|
                    0 <= j < i && #[trigger] creates(e[j], role)
            &&& forall|i: int|
                0 <= i < e.len() && (#[trigger] e[i] matches Effect::TokenTransfer { to, .. }
                    && to == AccountRole::Escrow) ==> exists|j: int|
                    0 <= j < i && #[trigger] e[j] == (Effect::InitializeTokenAccount {
                        account: AccountRole::Escrow,
                        mint: AccountRole::NftMint,
                        authority: AccountRole::Escrow,
                    })
            &&& forall|i: int| 0 <= i < e.len() ==> !(#[trigger] e[i] is DeleteAccount)
        }),
{
    let e = u.upload_effects(escrow_bump, vault_bump);
    reveal_with_fuel(token_flow, 6);
    reveal_with_fuel(lamport_flow, 6);
    assert(e.drop_last().drop_last().drop_last().drop_last().drop_last() =~= Seq::<Effect>::empty());
    assert(e[0] == e.drop_last().drop_last().drop_last().drop_last().last());
    assert(e.contains(e[0]));
    assert(e.contains(e[1]));
    assert(e.contains(e[3]));
    assert forall|i: int|
        0 <= i < e.len() && #[trigger] uses(e[i], role) && (role == AccountRole::Escrow || role
            == AccountRole::Vault) implies exists|j: int|
        0 <= j < i && #[trigger] creates(e[j], role) by {
        if role == AccountRole::Escrow {
            assert(creates(e[0], role));
        } else {
            assert(creates(e[3], role));
        }
    }
    assert forall|i: int|
        0 <= i < e.len() && (#[trigger] e[i] matches Effect::TokenTransfer { to, .. } && to
            == AccountRole::Escrow) implies exists|j: int|
        0 <= j < i && #[trigger] e[j] == (Effect::InitializeTokenAccount {
            account: AccountRole::Escrow,
            mint: AccountRole::NftMint,
            authority: AccountRole::Escrow,
        }) by {
        assert(e[1] == (Effect::InitializeTokenAccount {
            account: AccountRole::Escrow,
            mint: AccountRole::NftMint,
            authority: AccountRole::Escrow,
        }));
    }
}

/// The effects of a claim that passed its checks: the one token that moves
/// leaves the escrow for the winner's receiving token account, and goes to
/// no other account, signed with the escrow seeds of the lottery's owner and
/// the lottery; and the one account emptied is the vault, into the owner.
pub proof fn lemma_claim_prize_goes_to_winner(a: ClaimAccount, escrow_bump: u8, role: AccountRole)
    ensures
        ({
            let e = a.claim_effects(escrow_bump);
            &&& token_flow(e, AccountRole::ReceiveTokenAccount) == 1
            &&& token_flow(e, AccountRole::Escrow) == -1
            &&& (role != AccountRole::ReceiveTokenAccount && role != AccountRole::Escrow
                ==> token_flow(e, role) == 0)
            &&& lamport_flow(e, role) == 0
            &&& forall|i: int|
                0 <= i < e.len() ==> match #[trigger] e[i] {
                    Effect::TokenTransfer { from, to, authority, amount, signer } => {
                        &&& from == AccountRole::Escrow
                        &&& to == AccountRole::ReceiveTokenAccount
                        &&& authority == AccountRole::Escrow
                        &&& amount == 1
                        &&& signer == (SignerSeeds::Escrow {
                            owner: a.lottery.owner,
                            lottery: a.lottery_key,
                            bump: escrow_bump,
                        })
                    },
                    Effect::DeleteAccount { target, receiver } => target == AccountRole::Vault
                        && receiver == AccountRole::Owner,
                    _ => false,
                }
            &&& e.contains(
                Effect::DeleteAccount { target: AccountRole::Vault, receiver: AccountRole::Owner },
            )
        }),
{
    let e = a.claim_effects(escrow_bump);
    reveal_with_fuel(token_flow, 3);
    reveal_with_fuel(lamport_flow, 3);
    assert(e.drop_last().drop_last() =~= Seq::<Effect>::empty());
    assert(e.contains(e[1]));
}

// ---------------------------------------------------------------------
// Running a plan

/// The effects carried out when, from `done` effects on, the last of them
/// with `last`, effect `i` answers `outcomes[i]`, in the order they are
/// carried out.
pub open spec fn performed_from<E>(
    plan: &Plan,
    done: nat,
    last: Result<(), E>,
    outcomes: Seq<Result<(), E>>,
) -> Seq<Effect>
    decreases plan.effects@.len() - done,
{
    match plan.next_step_spec(done, last) {
        Step::Perform(e) => if done < plan.effects@.len() {
            seq![e] + performed_from(plan, (done + 1) as nat, outcomes[done as int], outcomes)
        } else {
            seq![e]
        },
        Step::Finish(_) => seq![],
    }
}

/// The effects carried out when effect `i` answers `outcomes[i]`.
pub open spec fn performed<E>(plan: &Plan, outcomes: Seq<Result<(), E>>) -> Seq<Effect> {
    performed_from(plan, 0, Ok(()), outcomes)
}

proof fn lemma_performed_all<E>(
    plan: &Plan,
    outcomes: Seq<Result<(), E>>,
    j: nat,
    last: Result<(), E>,
)
    requires
        last is Ok,
        j <= plan.effects@.len() <= outcomes.len(),
        forall|i: int| j <= i < plan.effects@.len() ==> outcomes[i] is Ok,
    ensures
        performed_from(plan, j, last, outcomes) == plan.effects@.subrange(
            j as int,
            plan.effects@.len() as int,
        ),
    decreases plan.effects@.len() - j,
{
    if j < plan.effects@.len() {
        lemma_performed_all(plan, outcomes, (j + 1) as nat, outcomes[j as int]);
        assert(plan.effects@.subrange(j as int, plan.effects@.len() as int) =~= seq![
            plan.effects@[j as int],
        ] + plan.effects@.subrange((j + 1) as int, plan.effects@.len() as int));
    } else {
        assert(plan.effects@.subrange(j as int, plan.effects@.len() as int) =~= Seq::<
            Effect,
        >::empty());
    }
}

proof fn lemma_performed_until<E>(
    plan: &Plan,
    outcomes: Seq<Result<(), E>>,
    j: nat,
    last: Result<(), E>,
    k: nat,
)
    requires
        last is Ok,
        j <= k < plan.effects@.len(),
        k < outcomes.len(),
        outcomes[k as int] is Err,
        forall|i: int| j <= i < k ==> outcomes[i] is Ok,
    ensures
        performed_from(plan, j, last, outcomes) == plan.effects@.subrange(j as int, (k + 1) as int),
    decreases k - j,
{
    reveal_with_fuel(performed_from, 2);
    if j < k {
        lemma_performed_until(plan, outcomes, (j + 1) as nat, outcomes[j as int], k);
        assert(plan.effects@.subrange(j as int, (k + 1) as int) =~= seq![plan.effects@[j as int]]
            + plan.effects@.subrange((j + 1) as int, (k + 1) as int));
    } else {
        assert(plan.effects@.subrange(j as int, (k + 1) as int) =~= seq![plan.effects@[j as int]]);
    }
}

/// A plan whose effects all succeed ends as its verdict says: `Ok` ends
/// in success, and a refusal ends in that same refusal.
pub proof fn lemma_verdict_result<E>(verdict: Result<(), ErrorCode>, c: ErrorCode)
    ensures
        verdict_result::<E>(Ok(())) == Ok::<(), InstructionError<E>>(()),
        verdict_result::<E>(Err(c)) == Err::<(), InstructionError<E>>(InstructionError::Refused(c)),
        verdict_result::<E>(verdict) is Ok <==> verdict is Ok,
{
}

/// A plan's effects are carried out in their order: when all succeed,
/// exactly the plan's effects are carried out, first to last; when effect
/// `k` is the first to fail, exactly the first `k + 1` effects are carried
/// out, in order.
pub proof fn lemma_run_in_order<E>(plan: &Plan, outcomes: Seq<Result<(), E>>, k: nat)
    requires
        plan.effects@.len() <= outcomes.len(),
    ensures
        (forall|i: int| 0 <= i < plan.effects@.len() ==> outcomes[i] is Ok) ==> performed(
            plan,
            outcomes,
        ) == plan.effects@,
        k < plan.effects@.len() && outcomes[k as int] is Err && (forall|i: int|
            0 <= i < k ==> outcomes[i] is Ok) ==> performed(plan, outcomes) == plan.effects@.take(
            (k + 1) as int,
        ),
{
    if forall|i: int| 0 <= i < plan.effects@.len() ==> outcomes[i] is Ok {
        lemma_performed_all(plan, outcomes, 0, Ok(()));
        assert(plan.effects@.subrange(0, plan.effects@.len() as int) =~= plan.effects@);
    }
    if k < plan.effects@.len() && outcomes[k as int] is Err && (forall|i: int|
        0 <= i < k ==> outcomes[i] is Ok) {
        lemma_performed_until(plan, outcomes, 0, Ok(()), k);
    }
}

} // verus!
