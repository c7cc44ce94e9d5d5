//! Constants of the raffle, lamport bookkeeping and the ticket draw.
use vstd::prelude::*;

verus! {

/// Lamports in one SOL.
pub const LAMPORTS_PER_SOL: u64 = 1_000_000_000;

/// Seed prefix of the escrow token account that holds the prize.
pub const LOTTERY_ESCROW_PREFIX: &'static str = "lottery_escrow";
/// Seed prefix of the lottery account.
pub const LOTTERY_PREFIX: &'static str = "lottery";
/// Seed prefix of the vault that holds the lottery's SOL.
pub const LOTTERY_ESCROW_VAULT_PREFIX: &'static str = "lottery_escrow_vault";
/// Space of the vault account: it holds lamports and no data.
pub const ORDER_ESCROW_NATIVE_SIZE: usize = 0;

/// Move `lamports` from the balance `src_lamports` to the balance
/// `dst_lamports`. The two balances together keep their sum.
pub fn move_lamports(src_lamports: &mut u64, dst_lamports: &mut u64, lamports: u64)
    requires
        lamports <= *old(src_lamports),
        *old(dst_lamports) + lamports <= u64::MAX,
    ensures
        *final(src_lamports) == *old(src_lamports) - lamports,
        *final(dst_lamports) == *old(dst_lamports) + lamports,
        *final(src_lamports) + *final(dst_lamports) == *old(src_lamports) + *old(dst_lamports),
{
    *src_lamports = *src_lamports - lamports;
    *dst_lamports = *dst_lamports + lamports;
}

/// Empty the balance `target_lamports` into `receiver_lamports`: the target
/// ends with nothing, the receiver with both balances.
pub fn delete_account(target_lamports: &mut u64, receiver_lamports: &mut u64)
    requires
        *old(receiver_lamports) + *old(target_lamports) <= u64::MAX,
    ensures
        *final(target_lamports) == 0,
        *final(receiver_lamports) == *old(receiver_lamports) + *old(target_lamports),
        *final(target_lamports) + *final(receiver_lamports) == *old(target_lamports)
            + *old(receiver_lamports),
{
    *receiver_lamports = *receiver_lamports + *target_lamports;
    *target_lamports = 0;
}

/// Multiplier of the ticket draw.
pub const RANDOM_MULTIPLIER: u32 = 1103515245;
/// Increment of the ticket draw.
pub const RANDOM_INCREMENT: u32 = 12345;

/// The modulus of the ticket draw. It is written `2 ^ 32`, and `^` is
/// exclusive or, so it is 34.
pub open spec fn random_modulus() -> int {
    34
}

/// The number that `random` draws from `seed`.
pub open spec fn random_spec(seed: u32) -> int {
    (RANDOM_MULTIPLIER * seed + RANDOM_INCREMENT) % random_modulus()
}

/// Whether `random` can compute on `seed` without its `u32` arithmetic
/// overflowing.
pub open spec fn random_fits(seed: u32) -> bool {
    RANDOM_MULTIPLIER * seed + RANDOM_INCREMENT <= u32::MAX
}

/// Whether `random` can compute on `seed`: its arithmetic does not
/// overflow.
pub fn random_can_compute(seed: u32) -> (b: bool)
    ensures
        b == random_fits(seed),
{
    // 1103515245 * 3 + 12345 fits in a u32 and 1103515245 * 4 does not
    seed <= 3
}

/// One step of a linear congruential generator: `(a * seed + c) % m`.
pub fn random(seed: u32) -> (r: u32)
    requires
        random_fits(seed),
    ensures
        r == random_spec(seed),
        r < random_modulus(),
{
    let a: u32 = RANDOM_MULTIPLIER;
    let c: u32 = RANDOM_INCREMENT;
    let m: u32 = 2 ^ 32;
    assert(m == 34) by (bit_vector)
        requires
            m == 2u32 ^ 32u32,
    ;
    return (a * seed + c) % m;
}

} // verus!
