//! Opening a lottery: the owner puts the NFT up as the prize.
use vstd::prelude::*;
use crate::error::ErrorCode;
use crate::key::Pubkey;
use crate::processor::{AccountRole, AccountSpace, Clock, Effect, Plan, ProgramRole, SignerSeeds};
use crate::state::{Lottery, LotteryStatus};
use crate::utils::{LAMPORTS_PER_SOL, ORDER_ESCROW_NATIVE_SIZE};

verus! {

/// The accounts of the upload instruction.
#[derive(Clone, Copy, Debug)]
pub struct UploadAccount {
    /// The new lottery account's data.
    pub lottery: Lottery,
    /// The lottery account's address.
    pub lottery_key: Pubkey,
    /// The owner of the NFT, who signs.
    pub user: Pubkey,
    /// The NFT's mint.
    pub nft_mint: Pubkey,
    /// The token account that will hold the NFT.
    pub escrow: Pubkey,
    /// The account that will hold the lottery's SOL.
    pub vault: Pubkey,
    pub clock_sysvar: Clock,
}

/// The lamports that the owner puts in the vault: one SOL.
pub open spec fn vault_deposit() -> int {
    1 * LAMPORTS_PER_SOL
}

/// The answer of the upload instruction at time `now` to the dates
/// `start_date` and `end_date`: the end must lie in the future, and a start,
/// where there is one, before the end.
pub open spec fn upload_verdict(now: i64, start_date: Option<i64>, end_date: i64) -> Result<
    (),
    ErrorCode,
> {
    if now >= end_date {
        Err(ErrorCode::ExpireDateInThePast)
    } else if start_date is Some && start_date->0 >= end_date {
        Err(ErrorCode::ExpireDateInThePast)
    } else {
        Ok(())
    }
}

impl UploadAccount {
    /// The lottery as the upload instruction leaves it.
    pub open spec fn opened_lottery(
        self,
        start_date: Option<i64>,
        end_date: i64,
        ticket_numbers: u64,
        limit_tickets: u64,
        winners: u64,
    ) -> Lottery {
        Lottery {
            status: LotteryStatus::Opened,
            nft_mint: self.nft_mint,
            owner: self.user,
            escrow: self.escrow,
            vault: self.vault,
            start_date,
            end_date,
            ticket_numbers,
            remain_tickets: ticket_numbers,
            limit_tickets,
            winners,
            ..self.lottery
        }
    }

    /// The seeds of the escrow's address.
    pub open spec fn escrow_seeds(self, escrow_bump: u8) -> SignerSeeds {
        SignerSeeds::Escrow { owner: self.user, lottery: self.lottery_key, bump: escrow_bump }
    }

    /// The seeds of the vault's address.
    pub open spec fn vault_seeds(self, vault_bump: u8) -> SignerSeeds {
        SignerSeeds::Vault { escrow: self.escrow, bump: vault_bump }
    }

    /// The effects of the upload instruction, in order: create the escrow
    /// token account, initialize it for the NFT, move the NFT into it,
    /// create the vault, and put one SOL in the vault.
    pub open spec fn upload_effects(self, escrow_bump: u8, vault_bump: u8) -> Seq<Effect> {
        seq![
            Effect::CreateAccount {
                from: AccountRole::User,
                to: AccountRole::Escrow,
                space: AccountSpace::TokenAccount,
                owner: ProgramRole::Token,
                signer: self.escrow_seeds(escrow_bump),
            },
            Effect::InitializeTokenAccount {
                account: AccountRole::Escrow,
                mint: AccountRole::NftMint,
                authority: AccountRole::Escrow,
            },
            Effect::TokenTransfer {
                from: AccountRole::UserNftAccount,
                to: AccountRole::Escrow,
                authority: AccountRole::User,
                amount: 1,
                signer: SignerSeeds::Unsigned,
            },
            Effect::CreateAccount {
                from: AccountRole::User,
                to: AccountRole::Vault,
                space: AccountSpace::Bytes(ORDER_ESCROW_NATIVE_SIZE),
                owner: ProgramRole::Raffle,
                signer: self.vault_seeds(vault_bump),
            },
            Effect::SystemTransfer {
                from: AccountRole::User,
                to: AccountRole::Vault,
                lamports: vault_deposit() as u64,
                signer: SignerSeeds::Unsigned,
            },
        ]
    }

    /// Open the lottery with the given dates and ticket numbers, and ask
    /// for the escrow of the NFT and a deposit of one SOL in the vault. The
    /// verdict refuses an end date that has passed and a start date that is
    /// not before the end date.
    pub fn process(
        &mut self,
        escrow_bump: u8,
        vault_bump: u8,
        start_date: Option<i64>,
        end_date: i64,
        ticket_numbers: u64,
        limit_tickets: u64,
        winners: u64,
    ) -> (plan: Plan)
        ensures
            *final(self) == (UploadAccount {
                lottery: old(self).opened_lottery(
                    start_date,
                    end_date,
                    ticket_numbers,
                    limit_tickets,
                    winners,
                ),
                ..*old(self)
            }),
            plan.effects@ == old(self).upload_effects(escrow_bump, vault_bump),
            plan.verdict == upload_verdict(
                old(self).clock_sysvar.unix_timestamp,
                start_date,
                end_date,
            ),
    {
        self.lottery.status = LotteryStatus::Opened;
        self.lottery.nft_mint = self.nft_mint;
        self.lottery.owner = self.user;
        self.lottery.escrow = self.escrow;
        self.lottery.vault = self.vault;
        self.lottery.start_date = start_date;
        self.lottery.end_date = end_date;
        self.lottery.ticket_numbers = ticket_numbers;
        self.lottery.remain_tickets = ticket_numbers;
        self.lottery.limit_tickets = limit_tickets;
        self.lottery.winners = winners;

        let mut effects: Vec<Effect> = Vec::new();
        // create the escrow token account that will hold the NFT
        effects.push(
            Effect::CreateAccount {
                from: AccountRole::User,
                to: AccountRole::Escrow,
                space: AccountSpace::TokenAccount,
                owner: ProgramRole::Token,
                signer: SignerSeeds::Escrow {
                    owner: self.user,
                    lottery: self.lottery_key,
                    bump: escrow_bump,
                },
            },
        );
        // initialize it for the NFT's mint
        effects.push(
            Effect::InitializeTokenAccount {
                account: AccountRole::Escrow,
                mint: AccountRole::NftMint,
                authority: AccountRole::Escrow,
            },
        );
        // move the NFT into the escrow
        effects.push(
            Effect::TokenTransfer {
                from: AccountRole::UserNftAccount,
                to: AccountRole::Escrow,
                authority: AccountRole::User,
                amount: 1,
                signer: SignerSeeds::Unsigned,
            },
        );
        // create the vault
        effects.push(
            Effect::CreateAccount {
                from: AccountRole::User,
                to: AccountRole::Vault,
                space: AccountSpace::Bytes(ORDER_ESCROW_NATIVE_SIZE),
                owner: ProgramRole::Raffle,
                signer: SignerSeeds::Vault { escrow: self.escrow, bump: vault_bump },
            },
        );
        // put one SOL in the vault
        effects.push(
            Effect::SystemTransfer {
                from: AccountRole::User,
                to: AccountRole::Vault,
                lamports: 1 * LAMPORTS_PER_SOL,
                signer: SignerSeeds::Unsigned,
            },
        );
        assert(effects@ =~= old(self).upload_effects(escrow_bump, vault_bump));

        // check the end date
        if self.clock_sysvar.unix_timestamp >= self.lottery.end_date {
            return Plan { effects, verdict: Err(ErrorCode::ExpireDateInThePast) };
        }
        // check the start date
        if let Some(start_date) = self.lottery.start_date {
            if start_date >= self.lottery.end_date {
                return Plan { effects, verdict: Err(ErrorCode::ExpireDateInThePast) };
            }
        }
        Plan { effects, verdict: Ok(()) }
    }
}

} // verus!
