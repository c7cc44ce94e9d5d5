//! The raffle's instructions: what each decides, how it changes the lottery,
//! and the effects it asks of the chain.
//!
//! An instruction's `process` gives back a [`Plan`]: the effects to carry
//! out in order, and the verdict. [`Plan::next_step`] runs a plan: the
//! instruction fails with the error of the first effect that fails and
//! carries out no effect after it; when all succeed, it ends with the
//! verdict.
use vstd::prelude::*;
use vstd::string::StringSliceAdditionalSpecFns;
use crate::error::ErrorCode;
use crate::key::Pubkey;
use crate::utils::{LOTTERY_ESCROW_PREFIX, LOTTERY_ESCROW_VAULT_PREFIX};

pub mod claim;
pub mod close;
pub mod upload;

verus! {

/// What the instructions read of the clock.
#[derive(Clone, Copy, Debug)]
pub struct Clock {
    /// The current slot.
    pub slot: u64,
    /// The approximate real-world time of the current slot.
    pub unix_timestamp: i64,
}

/// What the instructions read of a token account.
#[derive(Clone, Copy, Debug)]
pub struct TokenAccount {
    /// The mint of the tokens the account holds.
    pub mint: Pubkey,
    /// The owner of the account.
    pub owner: Pubkey,
    /// The number of tokens held.
    pub amount: u64,
}

/// The accounts that the effects of an instruction name, by the part they
/// play in it.
#[derive(Clone, Copy, Debug, PartialEq, Eq, Structural)]
pub enum AccountRole {
    /// The signer of the instruction.
    User,
    /// The signer's token account that holds the prize.
    UserNftAccount,
    /// The mint of the prize.
    NftMint,
    /// The token account that holds the prize while the lottery runs.
    Escrow,
    /// The account that holds the lottery's SOL.
    Vault,
    /// The owner of the prize.
    Owner,
    /// The winner's token account that receives the prize.
    ReceiveTokenAccount,
}

/// The program that owns a created account.
#[derive(Clone, Copy, Debug, PartialEq, Eq, Structural)]
pub enum ProgramRole {
    /// The token program.
    Token,
    /// The raffle program itself.
    Raffle,
}

/// The data space of a created account.
#[derive(Clone, Copy, Debug, PartialEq, Eq, Structural)]
pub enum AccountSpace {
    /// The space of a token account.
    TokenAccount,
    /// The given number of bytes.
    Bytes(usize),
}

/// The seeds with which the program signs for one of its addresses.
#[derive(Clone, Copy, Debug)]
pub enum SignerSeeds {
    /// No signature of the program.
    Unsigned,
    /// The escrow of `lottery`, put up by `owner`.
    Escrow { owner: Pubkey, lottery: Pubkey, bump: u8 },
    /// The vault of `escrow`.
    Vault { escrow: Pubkey, bump: u8 },
}

/// An effect that an instruction asks of the chain.
#[derive(Clone, Copy, Debug)]
pub enum Effect {
    /// Create the account `to`, paid by `from`, with the rent-exempt minimum
    /// for `space`, owned by `owner`.
    CreateAccount {
        from: AccountRole,
        to: AccountRole,
        space: AccountSpace,
        owner: ProgramRole,
        signer: SignerSeeds,
    },
    /// Initialize the token account `account` for `mint`, with `authority`.
    InitializeTokenAccount { account: AccountRole, mint: AccountRole, authority: AccountRole },
    /// Move `amount` tokens from `from` to `to`, on the authority of
    /// `authority`.
    TokenTransfer {
        from: AccountRole,
        to: AccountRole,
        authority: AccountRole,
        amount: u64,
        signer: SignerSeeds,
    },
    /// Move `lamports` from `from` to `to` through the system program.
    SystemTransfer { from: AccountRole, to: AccountRole, lamports: u64, signer: SignerSeeds },
    /// Move all of `target`'s lamports to `receiver`.
    DeleteAccount { target: AccountRole, receiver: AccountRole },
}

/// What an instruction asks of the chain: `effects` in order, then
/// `verdict`.
#[derive(Debug)]
pub struct Plan {
    pub effects: Vec<Effect>,
    pub verdict: Result<(), ErrorCode>,
}

/// Why an instruction failed: one of its effects failed with the chain's
/// error `E`, or the instruction refused with its own error.
#[derive(Debug)]
pub enum InstructionError<E> {
    Effect(E),
    Refused(ErrorCode),
}

/// What an instruction does next.
#[derive(Debug)]
pub enum Step<E> {
    /// Carry out this effect and report its outcome.
    Perform(Effect),
    /// End the instruction with this result.
    Finish(Result<(), InstructionError<E>>),
}

/// The result of an instruction whose effects all succeeded: its verdict.
pub open spec fn verdict_result<E>(verdict: Result<(), ErrorCode>) -> Result<(), InstructionError<E>> {
    match verdict {
        Ok(()) => Ok(()),
        Err(c) => Err(InstructionError::Refused(c)),
    }
}

impl Plan {
    /// The step after `done` effects were carried out, the last of them
    /// with `outcome` (at the start, `done` is 0 and `outcome` is `Ok`).
    pub open spec fn next_step_spec<E>(&self, done: nat, outcome: Result<(), E>) -> Step<E> {
        match outcome {
            Err(e) => Step::Finish(Err(InstructionError::Effect(e))),
            Ok(()) => if done < self.effects@.len() {
                Step::Perform(self.effects@[done as int])
            } else {
                Step::Finish(verdict_result(self.verdict))
            },
        }
    }

    /// How an instruction ends when, from `done` effects on, the last of
    /// them with `last`, effect `i` answers `outcomes[i]`: the number of
    /// effects carried out, and the result.
    pub open spec fn run_from<E>(&self, done: nat, last: Result<(), E>, outcomes: Seq<Result<(), E>>) -> (
        nat,
        Result<(), InstructionError<E>>,
    )
        decreases self.effects@.len() - done,
    {
        match self.next_step_spec(done, last) {
            Step::Perform(_) => if done < self.effects@.len() {
                self.run_from((done + 1) as nat, outcomes[done as int], outcomes)
            } else {
                (done, Ok(()))
            },
            Step::Finish(r) => (done, r),
        }
    }

    /// How an instruction ends when effect `i` answers `outcomes[i]`.
    pub open spec fn run<E>(&self, outcomes: Seq<Result<(), E>>) -> (
        nat,
        Result<(), InstructionError<E>>,
    ) {
        self.run_from(0, Ok(()), outcomes)
    }

    /// The next step after `done` effects were carried out, the last of them
    /// with `outcome`: a failed effect ends the instruction with its error;
    /// else the next effect is carried out; after the last, the instruction
    /// ends with the verdict.
    pub fn next_step<E>(&self, done: usize, outcome: Result<(), E>) -> (s: Step<E>)
        ensures
            s == self.next_step_spec(done as nat, outcome),
    {
        match outcome {
            Err(e) => Step::Finish(Err(InstructionError::Effect(e))),
            Ok(()) => {
                if done < self.effects.len() {
                    Step::Perform(self.effects[done])
                } else {
                    match self.verdict {
                        Ok(()) => Step::Finish(Ok(())),
                        Err(c) => Step::Finish(Err(InstructionError::Refused(c))),
                    }
                }
            },
        }
    }
}

proof fn lemma_run_fails_at<E>(
    plan: &Plan,
    outcomes: Seq<Result<(), E>>,
    j: nat,
    last: Result<(), E>,
    k: nat,
)
    requires
        last is Ok,
        j <= k < plan.effects@.len(),
        k < outcomes.len(),
        outcomes[k as int] is Err,
        forall|i: int| j <= i < k ==> outcomes[i] is Ok,
    ensures
        plan.run_from(j, last, outcomes) == ((k + 1) as nat, Err::<(), InstructionError<E>>(
            InstructionError::Effect(outcomes[k as int]->Err_0),
        )),
    decreases k - j,
{
    reveal_with_fuel(Plan::run_from, 2);
    if j < k {
        lemma_run_fails_at(plan, outcomes, (j + 1) as nat, outcomes[j as int], k);
    }
}

proof fn lemma_run_succeeds_from<E>(
    plan: &Plan,
    outcomes: Seq<Result<(), E>>,
    j: nat,
    last: Result<(), E>,
)
    requires
        last is Ok,
        j <= plan.effects@.len() <= outcomes.len(),
        forall|i: int| j <= i < plan.effects@.len() ==> outcomes[i] is Ok,
    ensures
        plan.run_from(j, last, outcomes) == (plan.effects@.len(), verdict_result::<E>(
            plan.verdict,
        )),
    decreases plan.effects@.len() - j,
{
    if j < plan.effects@.len() {
        lemma_run_succeeds_from(plan, outcomes, (j + 1) as nat, outcomes[j as int]);
    }
}

/// An instruction ends at its first failed effect: when effect `k` fails
/// and every effect before it succeeded, the instruction carries out `k + 1`
/// effects, none after `k`, and fails with `k`'s error, whatever its
/// verdict. When every effect succeeds, it carries out all of them and ends
/// with its verdict.
pub proof fn lemma_run_plan<E>(plan: &Plan, outcomes: Seq<Result<(), E>>, k: nat)
    requires
        plan.effects@.len() <= outcomes.len(),
    ensures
        k < plan.effects@.len() && outcomes[k as int] is Err && (forall|i: int|
            0 <= i < k ==> outcomes[i] is Ok) ==> plan.run(outcomes) == ((k + 1) as nat, Err::<
            (),
            InstructionError<E>,
        >(InstructionError::Effect(outcomes[k as int]->Err_0))),
        (forall|i: int| 0 <= i < plan.effects@.len() ==> outcomes[i] is Ok) ==> plan.run(outcomes)
            == (plan.effects@.len(), verdict_result::<E>(plan.verdict)),
{
    if k < plan.effects@.len() && outcomes[k as int] is Err && (forall|i: int|
        0 <= i < k ==> outcomes[i] is Ok) {
        lemma_run_fails_at(plan, outcomes, 0, Ok(()), k);
    }
    if forall|i: int| 0 <= i < plan.effects@.len() ==> outcomes[i] is Ok {
        lemma_run_succeeds_from(plan, outcomes, 0, Ok(()));
    }
}

impl SignerSeeds {
    /// The seeds as byte strings.
    pub open spec fn seeds_view(self) -> Seq<Seq<u8>> {
        match self {
            SignerSeeds::Unsigned => seq![],
            SignerSeeds::Escrow { owner, lottery, bump } => seq![
                LOTTERY_ESCROW_PREFIX.spec_bytes(),
                owner@,
                lottery@,
                seq![bump],
            ],
            SignerSeeds::Vault { escrow, bump } => seq![
                LOTTERY_ESCROW_VAULT_PREFIX.spec_bytes(),
                escrow@,
                seq![bump],
            ],
        }
    }

    /// The seeds as byte strings, in order.
    pub fn to_seeds(&self) -> (r: Vec<Vec<u8>>)
        ensures
            r@.map_values(|s: Vec<u8>| s@) == self.seeds_view(),
    {
        let mut seeds: Vec<Vec<u8>> = Vec::new();
        match self {
            SignerSeeds::Unsigned => {},
            SignerSeeds::Escrow { owner, lottery, bump } => {
                seeds.push(vstd::slice::slice_to_vec(LOTTERY_ESCROW_PREFIX.as_bytes()));
                seeds.push(owner.to_vec());
                seeds.push(lottery.to_vec());
                let mut b: Vec<u8> = Vec::new();
                b.push(*bump);
                seeds.push(b);
            },
            SignerSeeds::Vault { escrow, bump } => {
                seeds.push(vstd::slice::slice_to_vec(LOTTERY_ESCROW_VAULT_PREFIX.as_bytes()));
                seeds.push(escrow.to_vec());
                let mut b: Vec<u8> = Vec::new();
                b.push(*bump);
                seeds.push(b);
            },
        }
        assert(seeds@.map_values(|s: Vec<u8>| s@) =~= self.seeds_view());
        seeds
    }
}

} // verus!
